use metallian_photos::domain::photo::Exif;
use metallian_photos::exif::{
    get_raw_exif, parse_exif, try_parse_exif, FieldValue, RawExif, RawField, TagContext,
};

#[test]
fn get_raw_exif_errors_on_non_image_bytes() {
    // Arrange - create some garbage bytes that aren't a image
    let bytes = b"definitely not an image";

    // Act - try to convert the garbage bytes
    let result = get_raw_exif(bytes);

    // Assert
    assert!(result.is_err(), "garbage bytes should not parse as EXIF");
}

fn ascii(context: TagContext, number: u16, ifd: u16, text: &[u8]) -> RawField {
    RawField { context, number, ifd, value: FieldValue::Ascii(vec![text.to_vec()]) }
}

#[test]
fn parse_exif_reads_the_primary_ascii_tags() {
    let raw = RawExif {
        fields: vec![
            ascii(TagContext::Tiff, 0x10f, 0, b"Apple"),
            ascii(TagContext::Tiff, 0x110, 0, b"iPhone 16 Pro Max"),
            ascii(TagContext::Exif, 0x9003, 0, b"2026:01:24 19:55:19"),
            ascii(TagContext::Exif, 0xa433, 0, b"Apple"),
            ascii(TagContext::Exif, 0xa434, 0, b"iPhone 16 Pro Max back triple camera 15.66mm f/2.8"),
        ],
    };
    let exif = parse_exif(&raw);
    assert_eq!(exif.date_time_original.as_deref(), Some("2026:01:24 19:55:19"));
    assert_eq!(exif.make.as_deref(), Some("Apple"));
    assert_eq!(exif.model.as_deref(), Some("iPhone 16 Pro Max"));
    assert_eq!(exif.lens_make.as_deref(), Some("Apple"));
    assert_eq!(
        exif.lens_model.as_deref(),
        Some("iPhone 16 Pro Max back triple camera 15.66mm f/2.8")
    );
}

#[test]
fn parse_exif_ignores_thumbnail_other_contexts_and_non_ascii_values() {
    let raw = RawExif {
        fields: vec![
            ascii(TagContext::Tiff, 0x10f, 1, b"Thumbnail maker"),
            ascii(TagContext::Gps, 0x110, 0, b"not a model"),
            RawField { context: TagContext::Exif, number: 0x9003, ifd: 0, value: FieldValue::Other },
        ],
    };
    let exif = parse_exif(&raw);
    assert!(exif.make.is_none());
    assert!(exif.model.is_none());
    assert!(exif.date_time_original.is_none());
    assert!(exif.lens_make.is_none());
    assert!(exif.lens_model.is_none());
}

#[test]
fn parse_exif_takes_the_last_duplicate_and_the_first_string() {
    let raw = RawExif {
        fields: vec![
            ascii(TagContext::Tiff, 0x10f, 0, b"First"),
            RawField {
                context: TagContext::Tiff,
                number: 0x10f,
                ifd: 0,
                value: FieldValue::Ascii(vec![b"Second".to_vec(), b"Third".to_vec()]),
            },
        ],
    };
    assert_eq!(parse_exif(&raw).make.as_deref(), Some("Second"));
}

#[test]
fn parse_exif_replaces_invalid_utf8() {
    let raw = RawExif { fields: vec![ascii(TagContext::Tiff, 0x110, 0, b"Cam\xffera")] };
    assert_eq!(parse_exif(&raw).model.as_deref(), Some("Cam\u{fffd}era"));
}

#[test]
fn try_parse_exif_refuses_an_ascii_tag_without_strings() {
    let raw = RawExif {
        fields: vec![RawField {
            context: TagContext::Tiff,
            number: 0x10f,
            ifd: 0,
            value: FieldValue::Ascii(Vec::new()),
        }],
    };
    assert!(try_parse_exif(&raw).is_none());
    let fine = RawExif { fields: vec![ascii(TagContext::Tiff, 0x10f, 0, b"Canon")] };
    assert_eq!(try_parse_exif(&fine).unwrap().make.as_deref(), Some("Canon"));
}

#[test]
fn exif_default_has_no_tags() {
    let exif = Exif::default();
    assert!(exif.date_time_original.is_none());
    assert!(exif.make.is_none());
    assert!(exif.model.is_none());
    assert!(exif.lens_make.is_none());
    assert!(exif.lens_model.is_none());
}

#[test]
fn get_raw_exif_refuses_input_too_short_for_a_container() {
    assert!(get_raw_exif(b"").is_err());
    assert!(get_raw_exif(b"abc").is_err());
    assert!(get_raw_exif(&[0x89, b'P', b'N', b'G']).is_err());
}
