use metallian_photos::error::ApiError;
use metallian_photos::ids::{id_as_text, parse_photo_id, photo_element_selector};

#[test]
fn id_as_text_round_trips_through_parse() {
    let id = uuid::Uuid::new_v4().as_u128();
    let encoded = id_as_text(id);
    assert_eq!(parse_photo_id(&encoded).unwrap(), id);
}

#[test]
fn id_as_text_is_the_hyphenated_form() {
    let id = uuid::Uuid::parse_str("550e8400-e29b-41d4-a716-446655440000").unwrap().as_u128();
    assert_eq!(id_as_text(id), "550e8400-e29b-41d4-a716-446655440000");
}

#[test]
fn parse_photo_id_rejects_a_malformed_uuid() {
    match parse_photo_id("not-a-valid-uuid") {
        Err(ApiError::BadRequest(text)) => assert_eq!(text, "not-a-valid-uuid"),
        other => panic!("expected a bad request, got {other:?}"),
    }
}

#[test]
fn parse_photo_id_accepts_the_simple_form() {
    assert_eq!(
        parse_photo_id("550e8400e29b41d4a716446655440000").unwrap(),
        parse_photo_id("550e8400-e29b-41d4-a716-446655440000").unwrap()
    );
}

#[test]
fn photo_element_selector_names_the_list_item() {
    let id = parse_photo_id("550e8400-e29b-41d4-a716-446655440000").unwrap();
    assert_eq!(photo_element_selector(id), "#photo-550e8400-e29b-41d4-a716-446655440000");
}

#[test]
fn id_as_text_is_36_lowercase_hex_and_dashes() {
    let text = id_as_text(u128::MAX);
    assert_eq!(text, "ffffffff-ffff-ffff-ffff-ffffffffffff");
    let text = id_as_text(uuid::Uuid::new_v4().as_u128());
    assert_eq!(text.len(), 36);
    for (i, c) in text.chars().enumerate() {
        if [8, 13, 18, 23].contains(&i) {
            assert_eq!(c, '-');
        } else {
            assert!(c.is_ascii_digit() || ('a'..='f').contains(&c));
        }
    }
}
