use metallian_photos::domain::gallery::{
    find_gallery_by_slug, galleries_from_photos, slug_of_lowercase, slugify, Gallery,
};
use metallian_photos::domain::photo::{Exif, Photo};

#[test]
fn slugify_basic() {
    assert_eq!(slugify("Iron Maiden"), "iron-maiden");
}

#[test]
fn slugify_handles_multiple_spaces() {
    assert_eq!(slugify("Black  Sabbath"), "black-sabbath");
}

#[test]
fn slugify_handles_underscores_and_hyphens() {
    assert_eq!(slugify("Band_Name-Here"), "band-name-here");
}

#[test]
fn slugify_trims_leading_trailing_dashes() {
    assert_eq!(slugify("  Iron Maiden  "), "iron-maiden");
}

#[test]
fn slugify_drops_non_ascii() {
    assert_eq!(slugify("Mot\u{f6}rhead"), "motrhead");
}

#[test]
fn slugify_collapses_every_run_of_separators() {
    assert_eq!(slugify("Black   Sabbath"), "black-sabbath");
    assert_eq!(slugify("AC   DC"), "ac-dc");
    assert_eq!(slugify("a -_- b"), "a-b");
    assert_eq!(slugify("a--b"), "a-b");
}

#[test]
fn slugify_maps_unicode_whitespace_to_dashes() {
    assert_eq!(slugify("Iron\u{a0}Maiden"), "iron-maiden");
    assert_eq!(slugify("Iron\u{3000}Maiden"), "iron-maiden");
}

#[test]
fn slugify_of_only_separators_is_empty() {
    assert_eq!(slugify(" - _ "), "");
    assert_eq!(slugify(""), "");
    assert_eq!(slugify("\u{f6}\u{e9}"), "");
}

#[test]
fn slugify_keeps_digits() {
    assert_eq!(slugify("Blink-182"), "blink-182");
}

#[test]
fn slugify_lowercases_non_ascii_to_ascii_letters() {
    // U+212A KELVIN SIGN lowercases to an ASCII 'k'.
    assert_eq!(slugify("\u{212a}orn"), "korn");
}

#[test]
fn slugify_output_uses_the_slug_alphabet_and_no_edge_dashes() {
    for name in ["--Iron Maiden--", "Motörhead!!", "  _x_  ", "AC/DC", "Sunn O)))"] {
        let slug = slugify(name);
        assert!(slug.chars().all(|c| c.is_ascii_lowercase() || c.is_ascii_digit() || c == '-'));
        assert!(!slug.starts_with('-'));
        assert!(!slug.ends_with('-'));
        assert!(!slug.contains("--"));
    }
}

#[test]
fn slug_of_lowercase_takes_the_characters_as_given() {
    let lower: Vec<char> = "Iron  Maiden".chars().collect();
    assert_eq!(slug_of_lowercase(&lower), "Iron-Maiden");
}

fn gallery(band: &str) -> Gallery {
    Gallery {
        band: band.to_string(),
        slug: slugify(band),
        photo_count: 1,
        cover_photo_id: None,
    }
}

#[test]
fn find_gallery_by_slug_finds_the_first_match() {
    let galleries = vec![gallery("Slayer"), gallery("Iron Maiden"), gallery("IRON  MAIDEN")];
    let found = find_gallery_by_slug(galleries, &"iron-maiden".to_string()).unwrap();
    assert_eq!(found.band, "Iron Maiden");
}

#[test]
fn find_gallery_by_slug_returns_none_for_unknown_slug() {
    let galleries = vec![gallery("Slayer"), gallery("Iron Maiden")];
    assert!(find_gallery_by_slug(galleries, &"megadeth".to_string()).is_none());
}

#[test]
fn slugify_of_a_slug_is_the_slug() {
    for name in ["Iron Maiden", "Mot\u{f6}rhead", "  Black   Sabbath  ", "Blink-182", "a    b", "\u{212a}orn"] {
        let slug = slugify(name);
        assert_eq!(slugify(&slug), slug);
    }
}

fn photo(id: u128, band: &str) -> Photo {
    Photo {
        id,
        band: band.to_string(),
        tour: "Tour".to_string(),
        venue: "Venue".to_string(),
        exif_data: Exif::default(),
    }
}

#[test]
fn galleries_from_photos_groups_by_band() {
    let photos = vec![
        photo(5, "Iron Maiden"),
        photo(4, "Slayer"),
        photo(3, "Iron Maiden"),
        photo(2, "Mot\u{f6}rhead"),
        photo(1, "Iron Maiden"),
    ];
    let galleries = galleries_from_photos(&photos);
    assert_eq!(galleries.len(), 3);
    assert_eq!(galleries[0].band, "Iron Maiden");
    assert_eq!(galleries[0].slug, "iron-maiden");
    assert_eq!(galleries[0].photo_count, 3);
    assert_eq!(galleries[0].cover_photo_id, Some(5));
    assert_eq!(galleries[1].band, "Slayer");
    assert_eq!(galleries[1].photo_count, 1);
    assert_eq!(galleries[1].cover_photo_id, Some(4));
    assert_eq!(galleries[2].slug, "motrhead");
    assert_eq!(galleries[2].cover_photo_id, Some(2));
}

#[test]
fn galleries_from_no_photos_is_empty() {
    assert!(galleries_from_photos(&Vec::new()).is_empty());
}

#[test]
fn galleries_tell_bands_apart_by_exact_name() {
    let photos = vec![photo(1, "Iron Maiden"), photo(2, "IRON MAIDEN")];
    let galleries = galleries_from_photos(&photos);
    assert_eq!(galleries.len(), 2);
    assert_eq!(galleries[0].slug, galleries[1].slug);
}
