//! EXIF extraction.
//!
//! The EXIF reader crate is confined to `get_raw_exif`, which hands back the
//! fields it found as plain values; everything after it is verified.

use crate::domain::photo::{Exif, ExifView};
use crate::text::{from_utf8_lossy, utf8_lossy};
use vstd::prelude::*;

verus! {

#[verifier::external_type_specification]
#[verifier::external_body]
pub struct ExExifError(exif::Error);

/// How a tag number is interpreted (the IFD that defines it).
#[derive(Debug, Clone, Copy, PartialEq, Eq, Structural)]
pub enum TagContext {
    Tiff,
    Exif,
    Gps,
    Interop,
    Other,
}

/// The value of a field, as far as this library reads it.
#[derive(Debug)]
pub enum FieldValue {
    /// An ASCII field: its NUL-separated byte strings.
    Ascii(Vec<Vec<u8>>),
    /// A field of any other type.
    Other,
}

/// One EXIF field: its tag, the IFD it belongs to, and its value.
#[derive(Debug)]
pub struct RawField {
    pub context: TagContext,
    pub number: u16,
    pub ifd: u16,
    pub value: FieldValue,
}

/// All the fields of an image's EXIF data, in the order the reader lists them.
#[derive(Debug)]
pub struct RawExif {
    pub fields: Vec<RawField>,
}

/// The mathematical value of a `RawField`; `ascii` is `None` for a field
/// that is not of ASCII type.
pub struct FieldView {
    pub context: TagContext,
    pub number: u16,
    pub ifd: u16,
    pub ascii: Option<Seq<Seq<u8>>>,
}

impl View for RawField {
    type V = FieldView;

    open spec fn view(&self) -> FieldView {
        FieldView {
            context: self.context,
            number: self.number,
            ifd: self.ifd,
            ascii: match self.value {
                FieldValue::Ascii(v) => Some(v@.map_values(|b: Vec<u8>| b@)),
                FieldValue::Other => None,
            },
        }
    }
}

impl View for RawExif {
    type V = Seq<FieldView>;

    open spec fn view(&self) -> Seq<FieldView> {
        self.fields@.map_values(|f: RawField| f@)
    }
}

/// The fields that the EXIF reader finds in an image file (JPEG, TIFF,
/// HEIF, PNG or WebP container), or `None` where it reports an error.
pub uninterp spec fn exif_in_container(bytes: Seq<u8>) -> Option<Seq<FieldView>>;

/// The bytes are shorter than 8 and start with neither the JPEG marker
/// `FF D8` nor a TIFF header (`II*\0`, `MM\0*`): no container the reader
/// knows can start this way.
pub open spec fn too_short_for_a_container(b: Seq<u8>) -> bool {
    &&& b.len() < 8
    &&& !(b.len() >= 2 && b[0] == 0xFF && b[1] == 0xD8)
    &&& !(b.len() >= 4 && b[0] == 0x49 && b[1] == 0x49 && b[2] == 0x2A && b[3] == 0x00)
    &&& !(b.len() >= 4 && b[0] == 0x4D && b[1] == 0x4D && b[2] == 0x00 && b[3] == 0x2A)
}

/// Calls `exif::Reader::read_from_container` on the bytes and lists the
/// fields of the result (`exif::Exif::fields`) as plain values. Claims that
/// the outcome is the named reading of the bytes: an error exactly where
/// the name has none, and otherwise the fields it names; and that bytes too
/// short to hold a PNG signature, a HEIF box header or a WebP header, which
/// start with no JPEG or TIFF signature either, are refused.
#[verifier::external_body]
pub fn get_raw_exif(bytes: &[u8]) -> (res: Result<RawExif, exif::Error>)
    ensures
        res is Ok <==> exif_in_container(bytes@) is Some,
        too_short_for_a_container(bytes@) ==> res is Err,
        res matches Ok(raw) ==> raw@ == exif_in_container(bytes@)->0,
{
    let raw = exif::Reader::new().read_from_container(&mut std::io::Cursor::new(bytes))?;
    Ok(RawExif { fields: raw.fields().map(|f| RawField {
        context: match f.tag.0 {
            exif::Context::Tiff => TagContext::Tiff,
            exif::Context::Exif => TagContext::Exif,
            exif::Context::Gps => TagContext::Gps,
            exif::Context::Interop => TagContext::Interop,
            _ => TagContext::Other,
        },
        number: f.tag.1,
        ifd: f.ifd_num.0,
        value: match &f.value { exif::Value::Ascii(v) => FieldValue::Ascii(v.clone()), _ => FieldValue::Other },
    }).collect() })
}

/// The field belongs to the primary IFD and has the tag given by its
/// context and number.
pub open spec fn is_primary_field(f: FieldView, context: TagContext, number: u16) -> bool {
    f.ifd == 0 && f.context == context && f.number == number
}

/// The field that a lookup of the tag in the primary IFD finds: the last
/// one listed with that tag.
pub open spec fn primary_field(fields: Seq<FieldView>, context: TagContext, number: u16) -> Option<
    FieldView,
>
    decreases fields.len(),
{
    if fields.len() == 0 {
        None
    } else if is_primary_field(fields.last(), context, number) {
        Some(fields.last())
    } else {
        primary_field(fields.drop_last(), context, number)
    }
}

/// The text of an ASCII tag of the primary IFD: its first string, decoded
/// as UTF-8 with invalid sequences replaced. `None` when the tag is absent
/// or not of ASCII type.
pub open spec fn ascii_tag(fields: Seq<FieldView>, context: TagContext, number: u16) -> Option<
    Seq<char>,
> {
    match primary_field(fields, context, number) {
        Some(f) => match f.ascii {
            Some(strings) => Some(utf8_lossy(strings[0])),
            None => None,
        },
        None => None,
    }
}

/// The tag can be read: it is absent, not ASCII, or holds a string.
pub open spec fn ascii_tag_readable(fields: Seq<FieldView>, context: TagContext, number: u16) -> bool {
    match primary_field(fields, context, number) {
        Some(f) => match f.ascii {
            Some(strings) => strings.len() > 0,
            None => true,
        },
        None => true,
    }
}

pub const DATE_TIME_ORIGINAL: u16 = 0x9003;

pub const MAKE: u16 = 0x10f;

pub const MODEL: u16 = 0x110;

pub const LENS_MAKE: u16 = 0xa433;

pub const LENS_MODEL: u16 = 0xa434;

/// Every tag that `parse_exif` reads can be read.
pub open spec fn exif_readable(fields: Seq<FieldView>) -> bool {
    &&& ascii_tag_readable(fields, TagContext::Exif, DATE_TIME_ORIGINAL)
    &&& ascii_tag_readable(fields, TagContext::Tiff, MAKE)
    &&& ascii_tag_readable(fields, TagContext::Tiff, MODEL)
    &&& ascii_tag_readable(fields, TagContext::Exif, LENS_MAKE)
    &&& ascii_tag_readable(fields, TagContext::Exif, LENS_MODEL)
}

/// The domain metadata that the fields hold.
pub open spec fn exif_of_fields(fields: Seq<FieldView>) -> ExifView {
    ExifView {
        date_time_original: ascii_tag(fields, TagContext::Exif, DATE_TIME_ORIGINAL),
        make: ascii_tag(fields, TagContext::Tiff, MAKE),
        model: ascii_tag(fields, TagContext::Tiff, MODEL),
        lens_make: ascii_tag(fields, TagContext::Exif, LENS_MAKE),
        lens_model: ascii_tag(fields, TagContext::Exif, LENS_MODEL),
    }
}

/// The field at `i` is the last one listed with the tag in the primary IFD.
pub open spec fn last_with_tag(fields: Seq<FieldView>, context: TagContext, number: u16, i: int) -> bool {
    &&& 0 <= i < fields.len()
    &&& fields[i].ifd == 0 && fields[i].context == context && fields[i].number == number
    &&& forall|j: int|
        i < j < fields.len() ==> !((#[trigger] fields[j]).ifd == 0 && fields[j].context == context
            && fields[j].number == number)
}

/// The text of a field: the first of its strings decoded, where it is of
/// ASCII type.
pub open spec fn field_text(f: FieldView) -> Option<Seq<char>> {
    match f.ascii {
        Some(strings) => Some(utf8_lossy(strings[0])),
        None => None,
    }
}

/// `value` is what the tag with this context and number reads as in the
/// primary IFD (IFD 0): nothing where no field there has the tag; otherwise
/// the text of the last field listed with it.
pub open spec fn reads_tag(
    fields: Seq<FieldView>,
    context: TagContext,
    number: u16,
    value: Option<Seq<char>>,
) -> bool {
    &&& (forall|i: int|
        0 <= i < fields.len() ==> !((#[trigger] fields[i]).ifd == 0 && fields[i].context == context
            && fields[i].number == number)) ==> value is None
    &&& forall|i: int| #[trigger] last_with_tag(fields, context, number, i) ==> value == field_text(fields[i])
}

proof fn lemma_last_with_tag(fields: Seq<FieldView>, context: TagContext, number: u16, i: int)
    requires
        last_with_tag(fields, context, number, i),
    ensures
        primary_field(fields, context, number) == Some(fields[i]),
    decreases fields.len(),
{
    let n = fields.len() - 1;
    if i < n {
        let prefix = fields.drop_last();
        assert(!is_primary_field(fields[n], context, number));
        assert(prefix[i] == fields[i]);
        assert forall|j: int| i < j < prefix.len() implies !((#[trigger] prefix[j]).ifd == 0
            && prefix[j].context == context && prefix[j].number == number) by {
            assert(prefix[j] == fields[j]);
        }
        lemma_last_with_tag(prefix, context, number, i);
    }
}

proof fn lemma_no_field_with_tag(fields: Seq<FieldView>, context: TagContext, number: u16)
    requires
        forall|i: int|
            0 <= i < fields.len() ==> !((#[trigger] fields[i]).ifd == 0 && fields[i].context
                == context && fields[i].number == number),
    ensures
        primary_field(fields, context, number) is None,
    decreases fields.len(),
{
    if fields.len() > 0 {
        let prefix = fields.drop_last();
        assert(!is_primary_field(fields[fields.len() - 1], context, number));
        assert forall|i: int| 0 <= i < prefix.len() implies !((#[trigger] prefix[i]).ifd == 0
            && prefix[i].context == context && prefix[i].number == number) by {
            assert(prefix[i] == fields[i]);
        }
        lemma_no_field_with_tag(prefix, context, number);
    }
}

proof fn lemma_reads_tag(fields: Seq<FieldView>, context: TagContext, number: u16)
    ensures
        reads_tag(fields, context, number, ascii_tag(fields, context, number)),
{
    if forall|i: int|
        0 <= i < fields.len() ==> !((#[trigger] fields[i]).ifd == 0 && fields[i].context == context
            && fields[i].number == number) {
        lemma_no_field_with_tag(fields, context, number);
    }
    assert forall|i: int| #[trigger] last_with_tag(fields, context, number, i) implies ascii_tag(
        fields,
        context,
        number,
    ) == field_text(fields[i]) by {
        lemma_last_with_tag(fields, context, number, i);
    }
}

/// Each field of the metadata is read from its own tag of the primary IFD:
/// the date taken from DateTimeOriginal (EXIF tag `0x9003`), the camera's
/// make and model from Make and Model (TIFF tags `0x10f`, `0x110`), the
/// lens's make and model from LensMake and LensModel (EXIF tags `0xa433`,
/// `0xa434`). A field whose tag is absent is empty.
pub proof fn exif_fields_come_from_their_tags(fields: Seq<FieldView>)
    ensures
        reads_tag(fields, TagContext::Exif, 0x9003u16, exif_of_fields(fields).date_time_original),
        reads_tag(fields, TagContext::Tiff, 0x10fu16, exif_of_fields(fields).make),
        reads_tag(fields, TagContext::Tiff, 0x110u16, exif_of_fields(fields).model),
        reads_tag(fields, TagContext::Exif, 0xa433u16, exif_of_fields(fields).lens_make),
        reads_tag(fields, TagContext::Exif, 0xa434u16, exif_of_fields(fields).lens_model),
{
    lemma_reads_tag(fields, TagContext::Exif, 0x9003u16);
    lemma_reads_tag(fields, TagContext::Tiff, 0x10fu16);
    lemma_reads_tag(fields, TagContext::Tiff, 0x110u16);
    lemma_reads_tag(fields, TagContext::Exif, 0xa433u16);
    lemma_reads_tag(fields, TagContext::Exif, 0xa434u16);
}

/// Looks a field up by tag in the primary IFD.
fn find_primary_field(raw: &RawExif, context: TagContext, number: u16) -> (found: Option<usize>)
    ensures
        match found {
            Some(i) => i < raw.fields.len() && primary_field(raw@, context, number) == Some(
                raw@[i as int],
            ),
            None => primary_field(raw@, context, number) is None,
        },
{
    let mut i: usize = raw.fields.len();
    assert(raw@.subrange(0, i as int) =~= raw@);
    while i > 0
        invariant
            i <= raw.fields.len(),
            raw@.len() == raw.fields.len(),
            primary_field(raw@, context, number) == primary_field(
                raw@.subrange(0, i as int),
                context,
                number,
            ),
        decreases i,
    {
        let ghost prefix = raw@.subrange(0, i as int);
        let f = &raw.fields[i - 1];
        assert(prefix.last() == raw@[i - 1]);
        if f.ifd == 0 && f.context == context && f.number == number {
            return Some(i - 1);
        }
        assert(prefix.drop_last() =~= raw@.subrange(0, i - 1));
        i = i - 1;
    }
    None
}

/// Pull a single ASCII-valued tag out of the primary IFD, if present.
///
/// EXIF ASCII fields are stored as byte strings (often NUL-terminated); this
/// helper normalizes the first of them to an owned `String`. Returns `None`
/// when the tag is absent or holds a non-ASCII value.
fn get_ascii(raw: &RawExif, context: TagContext, number: u16) -> (s: Option<String>)
    requires
        ascii_tag_readable(raw@, context, number),
    ensures
        crate::domain::photo::opt_string_view(s) == ascii_tag(raw@, context, number),
{
    match find_primary_field(raw, context, number) {
        None => None,
        Some(i) => match &raw.fields[i].value {
            FieldValue::Ascii(strings) => {
                assert(strings@.map_values(|b: Vec<u8>| b@)[0] == strings@[0]@);
                Some(from_utf8_lossy(&strings[0]))
            },
            FieldValue::Other => None,
        },
    }
}

/// Convert raw EXIF data into the domain `Exif`.
///
/// Every field is optional by design: real-world images omit tags
/// constantly, and the model says that honestly rather than papering over
/// it with empty strings.
pub fn parse_exif(raw: &RawExif) -> (exif: Exif)
    requires
        exif_readable(raw@),
    ensures
        exif@ == exif_of_fields(raw@),
        reads_tag(raw@, TagContext::Exif, 0x9003u16, exif@.date_time_original),
        reads_tag(raw@, TagContext::Tiff, 0x10fu16, exif@.make),
        reads_tag(raw@, TagContext::Tiff, 0x110u16, exif@.model),
        reads_tag(raw@, TagContext::Exif, 0xa433u16, exif@.lens_make),
        reads_tag(raw@, TagContext::Exif, 0xa434u16, exif@.lens_model),
{
    proof {
        exif_fields_come_from_their_tags(raw@);
    }
    Exif {
        date_time_original: get_ascii(raw, TagContext::Exif, DATE_TIME_ORIGINAL),
        make: get_ascii(raw, TagContext::Tiff, MAKE),
        model: get_ascii(raw, TagContext::Tiff, MODEL),
        lens_make: get_ascii(raw, TagContext::Exif, LENS_MAKE),
        lens_model: get_ascii(raw, TagContext::Exif, LENS_MODEL),
    }
}

/// `parse_exif` where every tag it reads can be read, `None` where one
/// holds an ASCII value without any string.
pub fn try_parse_exif(raw: &RawExif) -> (exif: Option<Exif>)
    ensures
        match exif {
            Some(e) => exif_readable(raw@) && e@ == exif_of_fields(raw@),
            None => !exif_readable(raw@),
        },
{
    if tag_readable(raw, TagContext::Exif, DATE_TIME_ORIGINAL) && tag_readable(
        raw,
        TagContext::Tiff,
        MAKE,
    ) && tag_readable(raw, TagContext::Tiff, MODEL) && tag_readable(
        raw,
        TagContext::Exif,
        LENS_MAKE,
    ) && tag_readable(raw, TagContext::Exif, LENS_MODEL) {
        Some(parse_exif(raw))
    } else {
        None
    }
}

fn tag_readable(raw: &RawExif, context: TagContext, number: u16) -> (b: bool)
    ensures
        b == ascii_tag_readable(raw@, context, number),
{
    match find_primary_field(raw, context, number) {
        None => true,
        Some(i) => match &raw.fields[i].value {
            FieldValue::Ascii(strings) => strings.len() > 0,
            FieldValue::Other => true,
        },
    }
}

} // verus!
