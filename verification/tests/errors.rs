use metallian_photos::database::DatabaseError;
use metallian_photos::error::{error_chain_fmt, ApiError};
use metallian_photos::response::ApiResponse;
use metallian_photos::template::TemplateError;

#[test]
fn api_error_status_codes() {
    assert_eq!(ApiError::BadRequest("x".into()).status_code(), 400);
    assert_eq!(ApiError::Internal("x".into()).status_code(), 500);
    assert_eq!(ApiError::NotFound("x".into()).status_code(), 404);
}

#[test]
fn api_error_messages() {
    assert_eq!(ApiError::BadRequest("no file".into()).message(), "Bad request: no file");
    assert_eq!(ApiError::Internal("boom".into()).message(), "Internal server error: boom");
    assert_eq!(ApiError::NotFound("photo".into()).message(), "Resource not found: photo");
}

#[test]
fn api_error_body_is_a_failed_response_with_the_message() {
    let body = ApiError::NotFound("photo".into()).error_body();
    assert!(!body.success);
    assert!(body.data.is_none());
    assert_eq!(body.error.as_deref(), Some("Resource not found: photo"));
}

#[test]
fn api_response_constructors() {
    let ok = ApiResponse::success(42u32);
    assert!(ok.success);
    assert_eq!(ok.data, Some(42));
    assert!(ok.error.is_none());
    let err = ApiResponse::<u32>::error("nope");
    assert!(!err.success);
    assert!(err.data.is_none());
    assert_eq!(err.error.as_deref(), Some("nope"));
}

#[test]
fn database_error_status_codes_and_messages() {
    let nf = DatabaseError::NotFound("550e8400".into());
    let op = DatabaseError::Operation("Failed to fetch the photo.".into());
    assert_eq!(nf.status_code(), 404);
    assert_eq!(op.status_code(), 500);
    assert_eq!(nf.message(), "record not found: 550e8400");
    assert_eq!(op.message(), "Failed to fetch the photo.");
}

#[test]
fn template_error_status_codes_and_messages() {
    let nf = TemplateError::NotFound("index.html".into());
    let op = TemplateError::Operation("whatever".into());
    assert_eq!(nf.status_code(), 404);
    assert_eq!(op.status_code(), 500);
    assert_eq!(nf.message(), "template not found: index.html");
    assert_eq!(
        op.message(),
        "A failure was encountered while trying to render the template."
    );
}

#[test]
fn error_chain_fmt_lists_causes() {
    let causes = vec!["disk full".to_string(), "quota".to_string()];
    assert_eq!(
        error_chain_fmt("save failed", &causes),
        "save failed\n\nCaused by:\n\tdisk full\nCaused by:\n\tquota\n"
    );
    assert_eq!(error_chain_fmt("plain", &Vec::new()), "plain\n\n");
}
