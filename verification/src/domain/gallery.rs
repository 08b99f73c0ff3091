use crate::text::{
    ascii_alphanumeric, ascii_lowercase_seq, is_ascii_alphanumeric, is_ascii_seq,
    is_ascii_uppercase, is_white_space, lowercase_chars, str_to_lowercase, string_from_chars,
    white_space,
};
use crate::domain::photo::Photo;
use vstd::prelude::*;

verus! {

/// A gallery is derived from the `band` field on photos: one gallery per
/// band name, with its slug, its number of photos and the id of its cover
/// photo (the band's most recent one).
#[derive(Debug)]
pub struct Gallery {
    pub band: String,
    pub slug: String,
    pub photo_count: i64,
    pub cover_photo_id: Option<u128>,
}

/// The band and id of each photo, in the order given.
pub open spec fn band_entries(photos: Seq<Photo>) -> Seq<(Seq<char>, u128)> {
    photos.map_values(|p: Photo| (p.band@, p.id))
}

/// The number of photos of the band.
pub open spec fn band_count(entries: Seq<(Seq<char>, u128)>, band: Seq<char>) -> nat
    decreases entries.len(),
{
    if entries.len() == 0 {
        0
    } else {
        band_count(entries.drop_last(), band) + if entries.last().0 == band {
            1nat
        } else {
            0nat
        }
    }
}

/// The id of the first photo of the band.
pub open spec fn first_photo_of(entries: Seq<(Seq<char>, u128)>, band: Seq<char>) -> Option<u128>
    decreases entries.len(),
{
    if entries.len() == 0 {
        None
    } else {
        match first_photo_of(entries.drop_last(), band) {
            Some(id) => Some(id),
            None => if entries.last().0 == band {
                Some(entries.last().1)
            } else {
                None
            },
        }
    }
}

/// The bands of the photos, each once, in the order they first appear.
pub open spec fn bands_in_order(entries: Seq<(Seq<char>, u128)>) -> Seq<Seq<char>>
    decreases entries.len(),
{
    if entries.len() == 0 {
        Seq::empty()
    } else {
        let bands = bands_in_order(entries.drop_last());
        if bands.contains(entries.last().0) {
            bands
        } else {
            bands.push(entries.last().0)
        }
    }
}

/// The gallery of `band` in a list derived from the photos.
pub open spec fn is_band_gallery(g: Gallery, entries: Seq<(Seq<char>, u128)>, band: Seq<char>) -> bool {
    &&& g.band@ == band
    &&& g.slug@ == slug_of(str_to_lowercase(band))
    &&& g.photo_count == band_count(entries, band)
    &&& g.cover_photo_id == first_photo_of(entries, band)
}

/// The galleries derived from the photos: one per band, in the order the
/// bands first appear.
pub open spec fn galleries_of(gs: Seq<Gallery>, entries: Seq<(Seq<char>, u128)>) -> bool {
    &&& gs.len() == bands_in_order(entries).len()
    &&& forall|k: int|
        0 <= k < gs.len() ==> is_band_gallery(#[trigger] gs[k], entries, bands_in_order(entries)[k])
}

proof fn lemma_band_count_bound(entries: Seq<(Seq<char>, u128)>, band: Seq<char>)
    ensures
        band_count(entries, band) <= entries.len(),
    decreases entries.len(),
{
    if entries.len() > 0 {
        lemma_band_count_bound(entries.drop_last(), band);
    }
}

/// A band is listed exactly when some photo has it, and then its first
/// photo is known; no band is listed twice.
proof fn lemma_bands_in_order(entries: Seq<(Seq<char>, u128)>, band: Seq<char>)
    ensures
        bands_in_order(entries).contains(band) <==> first_photo_of(entries, band) is Some,
        bands_in_order(entries).contains(band) <==> exists|i: int|
            0 <= i < entries.len() && (#[trigger] entries[i]).0 == band,
        bands_in_order(entries).no_duplicates(),
        bands_in_order(entries).contains(band) <==> band_count(entries, band) > 0,
    decreases entries.len(),
{
    if entries.len() > 0 {
        let prefix = entries.drop_last();
        lemma_bands_in_order(prefix, band);
        lemma_bands_in_order(prefix, entries.last().0);
        let bands = bands_in_order(prefix);
        if exists|i: int| 0 <= i < prefix.len() && (#[trigger] prefix[i]).0 == band {
            let i = choose|i: int| 0 <= i < prefix.len() && (#[trigger] prefix[i]).0 == band;
            assert(entries[i] == prefix[i]);
        }
        if exists|i: int| 0 <= i < entries.len() && (#[trigger] entries[i]).0 == band {
            let i = choose|i: int| 0 <= i < entries.len() && (#[trigger] entries[i]).0 == band;
            if i < prefix.len() {
                assert(prefix[i] == entries[i]);
            }
        }
        if !bands.contains(entries.last().0) {
            let b2 = bands.push(entries.last().0);
            assert forall|x: int, y: int| 0 <= x < b2.len() && 0 <= y < b2.len() && x != y implies b2[x]
                != b2[y] by {
                if y == bands.len() as int {
                    assert(bands.contains(b2[x]) || x == y);
                }
                if x == bands.len() as int {
                    assert(bands.contains(b2[y]) || x == y);
                }
            }
            if b2.contains(band) && !bands.contains(band) {
                assert(band == entries.last().0);
            }
            if bands.contains(band) {
                let j = choose|j: int| 0 <= j < bands.len() && bands[j] == band;
                assert(b2[j] == band);
            }
            if band == entries.last().0 {
                assert(b2[bands.len() as int] == band);
            }
        }
    }
}

proof fn lemma_step(entries: Seq<(Seq<char>, u128)>, i: int)
    requires
        0 <= i < entries.len(),
    ensures
        entries.take(i + 1).drop_last() == entries.take(i),
        entries.take(i + 1).last() == entries[i],
{
    assert(entries.take(i + 1).drop_last() =~= entries.take(i));
}

/// The galleries of a list of photos, most recent first: one gallery per
/// band, in the order the bands first appear, each with the band's slug,
/// its number of photos and the id of its first (most recent) photo.
pub fn galleries_from_photos(photos: &Vec<Photo>) -> (galleries: Vec<Gallery>)
    requires
        photos@.len() <= i64::MAX,
    ensures
        galleries_of(galleries@, band_entries(photos@)),
{
    let ghost entries = band_entries(photos@);
    let n = photos.len();
    let mut gs: Vec<Gallery> = Vec::new();
    let mut i: usize = 0;
    assert(entries.take(0) =~= Seq::<(Seq<char>, u128)>::empty());
    while i < n
        invariant
            n == photos@.len(),
            n <= i64::MAX,
            entries == band_entries(photos@),
            entries.len() == n,
            i <= n,
            galleries_of(gs@, entries.take(i as int)),
        decreases n - i,
    {
        let ghost prefix = entries.take(i as int);
        let ghost next = entries.take(i + 1);
        let ghost bands = bands_in_order(prefix);
        let photo = &photos[i];
        proof {
            lemma_step(entries, i as int);
            assert(entries[i as int] == (photo.band@, photo.id));
            lemma_bands_in_order(prefix, photo.band@);
        }
        let mut k: usize = 0;
        let glen = gs.len();
        while k < glen && gs[k].band != photo.band
            invariant
                glen == gs@.len(),
                k <= glen,
                galleries_of(gs@, prefix),
                forall|j: int| 0 <= j < k ==> (#[trigger] gs@[j]).band@ != photo.band@,
            decreases glen - k,
        {
            k = k + 1;
        }
        if k < glen {
            proof {
                lemma_band_count_bound(prefix, photo.band@);
                assert(bands[k as int] == photo.band@);
                assert(bands.contains(photo.band@));
            }
            let old = &gs[k];
            let updated = Gallery {
                band: old.band.clone(),
                slug: old.slug.clone(),
                photo_count: old.photo_count + 1,
                cover_photo_id: old.cover_photo_id,
            };
            gs.set(k, updated);
            proof {
                assert(bands_in_order(next) == bands);
                assert forall|j: int| 0 <= j < gs@.len() implies is_band_gallery(
                    #[trigger] gs@[j],
                    next,
                    bands_in_order(next)[j],
                ) by {
                    lemma_bands_in_order(prefix, bands[j]);
                    if j != k {
                        assert(bands[j] != photo.band@) by {
                            assert(bands.no_duplicates());
                        }
                    }
                }
            }
        } else {
            proof {
                assert(!bands.contains(photo.band@)) by {
                    if bands.contains(photo.band@) {
                        let j = choose|j: int| 0 <= j < bands.len() && bands[j] == photo.band@;
                        assert(gs@[j].band@ == bands[j]);
                    }
                }
                assert(bands_in_order(next) == bands.push(photo.band@));
            }
            let g = Gallery {
                band: photo.band.clone(),
                slug: slugify(photo.band.as_str()),
                photo_count: 1,
                cover_photo_id: Some(photo.id),
            };
            gs.push(g);
            proof {
                assert forall|j: int| 0 <= j < gs@.len() implies is_band_gallery(
                    #[trigger] gs@[j],
                    next,
                    bands_in_order(next)[j],
                ) by {
                    if j < bands.len() {
                        lemma_bands_in_order(prefix, bands[j]);
                        assert(bands.contains(bands[j]));
                        assert(bands[j] != photo.band@);
                    } else {
                        assert(band_count(prefix, photo.band@) == 0);
                    }
                }
            }
        }
        i = i + 1;
    }
    assert(entries.take(n as int) =~= entries);
    gs
}

/// One gallery per band: the galleries derived from a list of photos name
/// each band of the photos exactly once, and every gallery has a cover
/// photo and at least one photo.
pub proof fn one_gallery_per_band(photos: Seq<Photo>, galleries: Seq<Gallery>, band: Seq<char>)
    requires
        galleries_of(galleries, band_entries(photos)),
    ensures
        (exists|k: int| 0 <= k < galleries.len() && (#[trigger] galleries[k]).band@ == band) <==> (
        exists|i: int| 0 <= i < photos.len() && (#[trigger] photos[i]).band@ == band),
        forall|k: int, l: int|
            0 <= k < l < galleries.len() ==> (#[trigger] galleries[k]).band@
                != (#[trigger] galleries[l]).band@,
        forall|k: int|
            0 <= k < galleries.len() ==> (#[trigger] galleries[k]).photo_count >= 1
                && galleries[k].cover_photo_id is Some,
{
    let entries = band_entries(photos);
    let bands = bands_in_order(entries);
    lemma_bands_in_order(entries, band);
    assert forall|k: int| 0 <= k < galleries.len() implies (#[trigger] galleries[k]).photo_count >= 1
        && galleries[k].cover_photo_id is Some by {
        lemma_bands_in_order(entries, bands[k]);
        assert(bands.contains(bands[k]));
    }
    if exists|k: int| 0 <= k < galleries.len() && (#[trigger] galleries[k]).band@ == band {
        let k = choose|k: int| 0 <= k < galleries.len() && (#[trigger] galleries[k]).band@ == band;
        assert(bands[k] == band);
        assert(bands.contains(band));
        let i = choose|i: int| 0 <= i < entries.len() && (#[trigger] entries[i]).0 == band;
        assert(photos[i].band@ == band);
    }
    if exists|i: int| 0 <= i < photos.len() && (#[trigger] photos[i]).band@ == band {
        let i = choose|i: int| 0 <= i < photos.len() && (#[trigger] photos[i]).band@ == band;
        assert(entries[i].0 == band);
        let k = choose|k: int| 0 <= k < bands.len() && bands[k] == band;
        assert(galleries[k].band@ == band);
    }
}

/// The gallery a public gallery URL names: the first one whose slug is the
/// requested one. The slug is lossy, so it is matched against the galleries
/// rather than turned back into a band name.
pub fn find_gallery_by_slug(galleries: Vec<Gallery>, slug: &String) -> (found: Option<Gallery>)
    ensures
        match found {
            Some(g) => exists|i: int|
                0 <= i < galleries@.len() && galleries@[i] == g && g.slug@ == slug@ && forall|
                    j: int,
                | 0 <= j < i ==> (#[trigger] galleries@[j]).slug@ != slug@,
            None => forall|i: int|
                0 <= i < galleries@.len() ==> (#[trigger] galleries@[i]).slug@ != slug@,
        },
{
    let mut list = galleries;
    let n = list.len();
    let mut i: usize = 0;
    while i < n
        invariant
            list@ == galleries@,
            n == galleries@.len(),
            i <= n,
            forall|j: int| 0 <= j < i ==> (#[trigger] galleries@[j]).slug@ != slug@,
        decreases n - i,
    {
        if list[i].slug == *slug {
            let g = list.remove(i);
            assert(galleries@[i as int] == g);
            return Some(g);
        }
        i = i + 1;
    }
    None
}

/// What one character of the lowercased name becomes in a slug: ASCII
/// letters and digits stay, whitespace, `-` and `_` become `-`, anything
/// else is dropped.
pub open spec fn slug_char(c: char) -> Option<char> {
    if is_ascii_alphanumeric(c) {
        Some(c)
    } else if is_white_space(c) || c == '-' || c == '_' {
        Some('-')
    } else {
        None
    }
}

/// `slug_char` applied to every character, dropped ones left out.
pub open spec fn slug_chars(s: Seq<char>) -> Seq<char>
    decreases s.len(),
{
    if s.len() == 0 {
        Seq::empty()
    } else {
        match slug_char(s[0]) {
            Some(c) => seq![c] + slug_chars(s.drop_first()),
            None => slug_chars(s.drop_first()),
        }
    }
}

/// `s` without its leading dashes.
pub open spec fn trim_start_dashes(s: Seq<char>) -> Seq<char>
    decreases s.len(),
{
    if s.len() > 0 && s[0] == '-' {
        trim_start_dashes(s.drop_first())
    } else {
        s
    }
}

/// `s` without its trailing dashes.
pub open spec fn trim_end_dashes(s: Seq<char>) -> Seq<char>
    decreases s.len(),
{
    if s.len() > 0 && s.last() == '-' {
        trim_end_dashes(s.drop_last())
    } else {
        s
    }
}

/// `str::trim_matches('-')`.
pub open spec fn trim_dashes(s: Seq<char>) -> Seq<char> {
    trim_end_dashes(trim_start_dashes(s))
}

/// Every run of dashes becomes a single dash.
pub open spec fn collapse_dash_runs(s: Seq<char>) -> Seq<char>
    decreases s.len(),
{
    if s.len() == 0 {
        Seq::empty()
    } else if s.len() >= 2 && s[0] == '-' && s[1] == '-' {
        collapse_dash_runs(s.drop_first())
    } else {
        seq![s[0]] + collapse_dash_runs(s.drop_first())
    }
}

/// The slug of a name that has already been lowercased.
pub open spec fn slug_of(lower: Seq<char>) -> Seq<char> {
    collapse_dash_runs(trim_dashes(slug_chars(lower)))
}

/// A character that may appear in a slug.
pub open spec fn slug_alphabet(c: char) -> bool {
    is_ascii_alphanumeric(c) || c == '-'
}

pub open spec fn all_in_slug_alphabet(s: Seq<char>) -> bool {
    forall|i: int| 0 <= i < s.len() ==> slug_alphabet(#[trigger] s[i])
}

pub open spec fn no_ascii_uppercase(s: Seq<char>) -> bool {
    forall|i: int| 0 <= i < s.len() ==> !is_ascii_uppercase(#[trigger] s[i])
}

/// Neither the first nor the last character is a dash.
pub open spec fn dash_free_ends(s: Seq<char>) -> bool {
    s.len() > 0 ==> s[0] != '-' && s.last() != '-'
}

proof fn lemma_slug_chars_alphabet(s: Seq<char>)
    ensures
        all_in_slug_alphabet(slug_chars(s)),
        no_ascii_uppercase(s) ==> no_ascii_uppercase(slug_chars(s)),
    decreases s.len(),
{
    if s.len() > 0 {
        lemma_slug_chars_alphabet(s.drop_first());
        if no_ascii_uppercase(s) {
            assert(no_ascii_uppercase(s.drop_first())) by {
                assert forall|i: int| 0 <= i < s.drop_first().len() implies !is_ascii_uppercase(
                    #[trigger] s.drop_first()[i],
                ) by {
                    assert(s.drop_first()[i] == s[i + 1]);
                }
            }
        }
        let rest = slug_chars(s.drop_first());
        match slug_char(s[0]) {
            Some(c) => {
                let t = seq![c] + rest;
                assert forall|i: int| 0 <= i < t.len() implies slug_alphabet(#[trigger] t[i]) by {
                    if i > 0 {
                        assert(t[i] == rest[i - 1]);
                    }
                }
                if no_ascii_uppercase(s) {
                    assert(!is_ascii_uppercase(s[0]));
                    assert forall|i: int| 0 <= i < t.len() implies !is_ascii_uppercase(
                        #[trigger] t[i],
                    ) by {
                        if i > 0 {
                            assert(t[i] == rest[i - 1]);
                        }
                    }
                }
            },
            None => {},
        }
    }
}

proof fn lemma_trim_start(s: Seq<char>) -> (k: int)
    ensures
        0 <= k <= s.len(),
        trim_start_dashes(s) == s.subrange(k, s.len() as int),
        k < s.len() ==> s[k] != '-',
    decreases s.len(),
{
    if s.len() > 0 && s[0] == '-' {
        let k1 = lemma_trim_start(s.drop_first());
        assert(s.drop_first().subrange(k1, s.drop_first().len() as int) =~= s.subrange(
            k1 + 1,
            s.len() as int,
        ));
        k1 + 1
    } else {
        assert(s.subrange(0, s.len() as int) =~= s);
        0
    }
}

proof fn lemma_trim_end(s: Seq<char>) -> (k: int)
    ensures
        0 <= k <= s.len(),
        trim_end_dashes(s) == s.subrange(0, k),
        k > 0 ==> s[k - 1] != '-',
    decreases s.len(),
{
    if s.len() > 0 && s.last() == '-' {
        let k1 = lemma_trim_end(s.drop_last());
        assert(s.drop_last().subrange(0, k1) =~= s.subrange(0, k1));
        k1
    } else {
        assert(s.subrange(0, s.len() as int) =~= s);
        s.len() as int
    }
}

proof fn lemma_trim_dashes(s: Seq<char>)
    ensures
        dash_free_ends(trim_dashes(s)),
        all_in_slug_alphabet(s) ==> all_in_slug_alphabet(trim_dashes(s)),
        no_ascii_uppercase(s) ==> no_ascii_uppercase(trim_dashes(s)),
{
    let a = lemma_trim_start(s);
    let mid = s.subrange(a, s.len() as int);
    let b = lemma_trim_end(mid);
    let t = mid.subrange(0, b);
    assert(trim_dashes(s) == t);
    if t.len() > 0 {
        assert(t[0] == mid[0]);
        assert(t.last() == mid[b - 1]);
    }
    assert forall|i: int| 0 <= i < t.len() implies #[trigger] t[i] == s[a + i] by {}
}

/// No two adjacent characters are both dashes.
pub open spec fn no_double_dash(s: Seq<char>) -> bool {
    forall|i: int| 0 <= i < s.len() - 1 ==> !(#[trigger] s[i] == '-' && s[i + 1] == '-')
}

proof fn lemma_collapse(s: Seq<char>)
    ensures
        all_in_slug_alphabet(s) ==> all_in_slug_alphabet(collapse_dash_runs(s)),
        no_ascii_uppercase(s) ==> no_ascii_uppercase(collapse_dash_runs(s)),
        s.len() > 0 && s[0] != '-' ==> collapse_dash_runs(s).len() > 0 && collapse_dash_runs(
            s,
        )[0] == s[0],
        s.len() > 0 && s.last() != '-' ==> collapse_dash_runs(s).len() > 0
            && collapse_dash_runs(s).last() == s.last(),
        no_double_dash(collapse_dash_runs(s)),
    decreases s.len(),
{
    if s.len() > 0 {
        let tail = s.drop_first();
        lemma_collapse(tail);
        let rest = collapse_dash_runs(tail);
        assert forall|i: int| 0 <= i < tail.len() implies #[trigger] tail[i] == s[i + 1] by {}
        if all_in_slug_alphabet(s) {
            assert(all_in_slug_alphabet(tail));
        }
        if no_ascii_uppercase(s) {
            assert(no_ascii_uppercase(tail));
        }
        if s.len() >= 2 && s[0] == '-' && s[1] == '-' {
            assert(collapse_dash_runs(s) == rest);
            if s.last() != '-' {
                assert(tail.last() == s.last());
            }
        } else {
            let t = seq![s[0]] + rest;
            assert(collapse_dash_runs(s) == t);
            if all_in_slug_alphabet(s) {
                assert(slug_alphabet(s[0]));
                assert forall|i: int| 0 <= i < t.len() implies slug_alphabet(#[trigger] t[i]) by {
                    if i > 0 {
                        assert(t[i] == rest[i - 1]);
                    }
                }
            }
            if no_ascii_uppercase(s) {
                assert(!is_ascii_uppercase(s[0]));
                assert forall|i: int| 0 <= i < t.len() implies !is_ascii_uppercase(#[trigger] t[i]) by {
                    if i > 0 {
                        assert(t[i] == rest[i - 1]);
                    }
                }
            }
            if s.last() != '-' {
                if tail.len() > 0 {
                    assert(tail.last() == s.last());
                    assert(t.last() == rest.last());
                } else {
                    assert(s.len() == 1);
                }
            }
            assert forall|i: int| 0 <= i < t.len() - 1 implies !(#[trigger] t[i] == '-' && t[i + 1]
                == '-') by {
                if i == 0 {
                    if s[0] == '-' && tail.len() > 0 {
                        assert(tail[0] != '-');
                        assert(t[1] == rest[0]);
                    }
                } else {
                    assert(t[i] == rest[i - 1]);
                    assert(t[i + 1] == rest[i]);
                }
            }
        }
    }
}

proof fn lemma_slug_of(lower: Seq<char>)
    ensures
        all_in_slug_alphabet(slug_of(lower)),
        dash_free_ends(slug_of(lower)),
        no_double_dash(slug_of(lower)),
        no_ascii_uppercase(lower) ==> no_ascii_uppercase(slug_of(lower)),
{
    lemma_slug_chars_alphabet(lower);
    lemma_trim_dashes(slug_chars(lower));
    lemma_collapse(trim_dashes(slug_chars(lower)));
}

proof fn lemma_slug_chars_identity(t: Seq<char>)
    requires
        all_in_slug_alphabet(t),
    ensures
        slug_chars(t) == t,
    decreases t.len(),
{
    if t.len() > 0 {
        assert(slug_alphabet(t[0]));
        assert(all_in_slug_alphabet(t.drop_first())) by {
            assert forall|i: int| 0 <= i < t.drop_first().len() implies slug_alphabet(
                #[trigger] t.drop_first()[i],
            ) by {
                assert(t.drop_first()[i] == t[i + 1]);
            }
        }
        lemma_slug_chars_identity(t.drop_first());
        assert(seq![t[0]] + t.drop_first() =~= t);
    }
}

proof fn lemma_collapse_identity(t: Seq<char>)
    requires
        no_double_dash(t),
    ensures
        collapse_dash_runs(t) == t,
    decreases t.len(),
{
    if t.len() > 0 {
        if t.len() >= 2 {
            assert(!(t[0] == '-' && t[1] == '-'));
        }
        assert(no_double_dash(t.drop_first())) by {
            assert forall|i: int| 0 <= i < t.drop_first().len() - 1 implies !(
            #[trigger] t.drop_first()[i] == '-' && t.drop_first()[i + 1] == '-') by {
                assert(t.drop_first()[i] == t[i + 1]);
                assert(t.drop_first()[i + 1] == t[i + 2]);
            }
        }
        lemma_collapse_identity(t.drop_first());
        assert(seq![t[0]] + t.drop_first() =~= t);
    }
}

/// A slug is its own slug: taking the slug of a slug gives it back, and
/// where the name had no ASCII uppercase letter, the slug is ASCII and so is
/// also the slug of its own ASCII lowercase (which is what `slugify` takes
/// of an ASCII name).
pub proof fn slug_of_slug_is_itself(lower: Seq<char>)
    ensures
        slug_of(slug_of(lower)) == slug_of(lower),
        is_ascii_seq(slug_of(lower)),
        no_ascii_uppercase(lower) ==> slug_of(ascii_lowercase_seq(slug_of(lower))) == slug_of(
            lower,
        ),
{
    let s = slug_of(lower);
    lemma_slug_of(lower);
    assert forall|i: int| 0 <= i < s.len() implies crate::text::is_ascii_char(#[trigger] s[i]) by {
        assert(slug_alphabet(s[i]));
    }
    lemma_slug_chars_identity(s);
    if s.len() > 0 {
        assert(s[0] != '-');
        assert(s.last() != '-');
    }
    assert(trim_start_dashes(s) == s);
    assert(trim_end_dashes(s) == s);
    lemma_collapse_identity(s);
    if no_ascii_uppercase(lower) {
        assert(ascii_lowercase_seq(s) =~= s) by {
            assert forall|i: int| 0 <= i < s.len() implies #[trigger] ascii_lowercase_seq(s)[i]
                == s[i] by {
                assert(!is_ascii_uppercase(s[i]));
            }
        }
    }
}

proof fn lemma_slug_chars_concat(x: Seq<char>, y: Seq<char>)
    ensures
        slug_chars(x + y) == slug_chars(x) + slug_chars(y),
    decreases x.len(),
{
    if x.len() == 0 {
        assert(x + y =~= y);
        assert(Seq::<char>::empty() + slug_chars(y) =~= slug_chars(y));
    } else {
        assert((x + y).drop_first() =~= x.drop_first() + y);
        assert((x + y)[0] == x[0]);
        lemma_slug_chars_concat(x.drop_first(), y);
        match slug_char(x[0]) {
            Some(c) => {
                assert(seq![c] + (slug_chars(x.drop_first()) + slug_chars(y)) =~= (seq![c]
                    + slug_chars(x.drop_first())) + slug_chars(y));
            },
            None => {},
        }
    }
}

proof fn lemma_slug_chars_single(c: char)
    ensures
        slug_chars(seq![c]) == match slug_char(c) {
            Some(d) => seq![d],
            None => Seq::<char>::empty(),
        },
{
    let one = seq![c];
    assert(one.len() == 1);
    assert(one.drop_first() =~= Seq::<char>::empty());
    assert(one[0] == c);
    assert(slug_chars(one.drop_first()) == Seq::<char>::empty());
    match slug_char(c) {
        Some(d) => {
            assert(seq![d] + Seq::<char>::empty() =~= seq![d]);
        },
        None => {},
    }
}

/// A character that is neither an ASCII letter or digit, nor whitespace,
/// `-` or `_` contributes nothing to a slug: removing it from the name, at
/// any place, leaves the slug as it was (so "jane's addiction" and "janes
/// addiction" have one slug). The same holds of a name before its ASCII
/// lowercasing.
pub proof fn slug_drops_other_characters(a: Seq<char>, b: Seq<char>, c: char)
    requires
        !is_ascii_alphanumeric(c),
        !is_white_space(c),
        c != '-',
        c != '_',
    ensures
        slug_of(a + seq![c] + b) == slug_of(a + b),
        slug_of(ascii_lowercase_seq(a + seq![c] + b)) == slug_of(ascii_lowercase_seq(a + b)),
{
    lemma_slug_chars_concat(a + seq![c], b);
    lemma_slug_chars_concat(a, seq![c]);
    lemma_slug_chars_concat(a, b);
    lemma_slug_chars_single(c);
    assert(slug_chars(a) + Seq::<char>::empty() =~= slug_chars(a));
    let la = ascii_lowercase_seq(a);
    let lb = ascii_lowercase_seq(b);
    assert(ascii_lowercase_seq(a + seq![c] + b) =~= la + seq![c] + lb);
    assert(ascii_lowercase_seq(a + b) =~= la + lb);
    lemma_slug_chars_concat(la + seq![c], lb);
    lemma_slug_chars_concat(la, seq![c]);
    lemma_slug_chars_concat(la, lb);
    assert(slug_chars(la) + Seq::<char>::empty() =~= slug_chars(la));
}

/// Whitespace, `-` and `_` all break words alike: one of them in a name
/// gives the slug that a `-` in its place gives.
pub proof fn slug_separators_are_alike(a: Seq<char>, b: Seq<char>, c: char)
    requires
        is_white_space(c) || c == '_',
    ensures
        slug_of(a + seq![c] + b) == slug_of(a + seq!['-'] + b),
{
    lemma_slug_chars_concat(a + seq![c], b);
    lemma_slug_chars_concat(a, seq![c]);
    lemma_slug_chars_concat(a + seq!['-'], b);
    lemma_slug_chars_concat(a, seq!['-']);
    lemma_slug_chars_single(c);
    lemma_slug_chars_single('-');
}

/// ASCII letters and digits all stay, in their order: a name made of them
/// alone is its own slug.
pub proof fn slug_keeps_letters_and_digits(s: Seq<char>)
    requires
        forall|i: int| 0 <= i < s.len() ==> is_ascii_alphanumeric(#[trigger] s[i]),
    ensures
        slug_of(s) == s,
{
    assert(all_in_slug_alphabet(s));
    lemma_slug_chars_identity(s);
    if s.len() > 0 {
        assert(is_ascii_alphanumeric(s[0]));
        assert(is_ascii_alphanumeric(s[s.len() - 1]));
    }
    assert(trim_start_dashes(s) == s);
    assert(trim_end_dashes(s) == s);
    assert(no_double_dash(s)) by {
        assert forall|i: int| 0 <= i < s.len() - 1 implies !(#[trigger] s[i] == '-' && s[i + 1]
            == '-') by {
            assert(is_ascii_alphanumeric(s[i]));
        }
    }
    lemma_collapse_identity(s);
}

fn slug_chars_exec(s: &Vec<char>) -> (out: Vec<char>)
    ensures
        out@ == slug_chars(s@),
{
    let n = s.len();
    let mut out: Vec<char> = Vec::new();
    let mut i: usize = 0;
    assert(s@.subrange(0, n as int) =~= s@);
    while i < n
        invariant
            n == s.len(),
            i <= n,
            slug_chars(s@) == out@ + slug_chars(s@.subrange(i as int, n as int)),
        decreases n - i,
    {
        let c = s[i];
        let ghost rest = s@.subrange(i as int, n as int);
        assert(rest.drop_first() =~= s@.subrange(i + 1, n as int));
        assert(rest[0] == c);
        if ascii_alphanumeric(c) {
            out.push(c);
        } else if white_space(c) || c == '-' || c == '_' {
            out.push('-');
        }
        i = i + 1;
    }
    assert(s@.subrange(n as int, n as int) =~= Seq::<char>::empty());
    assert(out@ + Seq::<char>::empty() =~= out@);
    out
}

fn trim_dashes_exec(s: &Vec<char>) -> (out: Vec<char>)
    ensures
        out@ == trim_dashes(s@),
{
    let n = s.len();
    let mut i: usize = 0;
    assert(s@.subrange(0, n as int) =~= s@);
    while i < n && s[i] == '-'
        invariant
            n == s.len(),
            i <= n,
            trim_start_dashes(s@) == trim_start_dashes(s@.subrange(i as int, n as int)),
        decreases n - i,
    {
        assert(s@.subrange(i as int, n as int).drop_first() =~= s@.subrange(i + 1, n as int));
        i = i + 1;
    }
    let ghost mid = s@.subrange(i as int, n as int);
    assert(trim_start_dashes(s@) == mid);
    let mut j: usize = n;
    assert(mid =~= s@.subrange(i as int, j as int));
    while j > i && s[j - 1] == '-'
        invariant
            n == s.len(),
            i <= j <= n,
            mid == s@.subrange(i as int, n as int),
            trim_end_dashes(mid) == trim_end_dashes(s@.subrange(i as int, j as int)),
        decreases j - i,
    {
        assert(s@.subrange(i as int, j as int).drop_last() =~= s@.subrange(i as int, j - 1));
        j = j - 1;
    }
    let mut out: Vec<char> = Vec::new();
    let mut k: usize = i;
    while k < j
        invariant
            n == s.len(),
            i <= k <= j <= n,
            out@ == s@.subrange(i as int, k as int),
        decreases j - k,
    {
        out.push(s[k]);
        assert(s@.subrange(i as int, k + 1) =~= s@.subrange(i as int, k as int).push(s@[k as int]));
        k = k + 1;
    }
    out
}

fn collapse_dash_runs_exec(s: &Vec<char>) -> (out: Vec<char>)
    ensures
        out@ == collapse_dash_runs(s@),
{
    let n = s.len();
    let mut out: Vec<char> = Vec::new();
    let mut i: usize = 0;
    assert(s@.subrange(0, n as int) =~= s@);
    while i < n
        invariant
            n == s.len(),
            i <= n,
            collapse_dash_runs(s@) == out@ + collapse_dash_runs(s@.subrange(i as int, n as int)),
        decreases n - i,
    {
        let ghost rest = s@.subrange(i as int, n as int);
        assert(rest.drop_first() =~= s@.subrange(i + 1, n as int));
        if i + 1 < n && s[i] == '-' && s[i + 1] == '-' {
            assert(collapse_dash_runs(rest) == collapse_dash_runs(s@.subrange(i + 1, n as int)));
        } else {
            assert(collapse_dash_runs(rest) == seq![s@[i as int]] + collapse_dash_runs(
                s@.subrange(i + 1, n as int),
            ));
            out.push(s[i]);
        }
        i = i + 1;
    }
    assert(s@.subrange(n as int, n as int) =~= Seq::<char>::empty());
    assert(out@ + Seq::<char>::empty() =~= out@);
    out
}

/// The slug of a name that has already been lowercased: the characters
/// mapped by `slug_char`, dashes trimmed from both ends, then every run of
/// dashes collapsed to one. The slug is the non-empty words of the mapped
/// name joined by single dashes.
pub fn slug_of_lowercase(lower: &Vec<char>) -> (slug: String)
    ensures
        slug@ == slug_of(lower@),
        all_in_slug_alphabet(slug@),
        dash_free_ends(slug@),
        no_double_dash(slug@),
        slug_of(slug@) == slug@,
        no_ascii_uppercase(lower@) ==> no_ascii_uppercase(slug@),
{
    let mapped = slug_chars_exec(lower);
    let trimmed = trim_dashes_exec(&mapped);
    let collapsed = collapse_dash_runs_exec(&trimmed);
    proof {
        lemma_slug_of(lower@);
        slug_of_slug_is_itself(lower@);
    }
    string_from_chars(collapsed)
}

/// Convert a band name into a URL-friendly slug.
///
/// "Iron Maiden" -> "iron-maiden"
/// "Motörhead" -> "motrhead" (non-ASCII chars get dropped)
///
/// Runs of spaces, dashes and underscores become one dash, so the slug of
/// a slug is the slug itself.
pub fn slugify(name: &str) -> (slug: String)
    ensures
        slug@ == slug_of(str_to_lowercase(name@)),
        is_ascii_seq(name@) ==> slug@ == slug_of(ascii_lowercase_seq(name@)),
        all_in_slug_alphabet(slug@),
        no_ascii_uppercase(slug@),
        dash_free_ends(slug@),
        no_double_dash(slug@),
        is_ascii_seq(slug@),
        slug_of(ascii_lowercase_seq(slug@)) == slug@,
{
    let lower = lowercase_chars(name);
    proof {
        assert(no_ascii_uppercase(lower@));
        slug_of_slug_is_itself(lower@);
    }
    slug_of_lowercase(&lower)
}

} // verus!
