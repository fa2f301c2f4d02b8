//! The response envelope, the error-to-status mapping, and the
//! not-found page data.

use service_core::error::{AppError, EnvConfigError, FileUploadError};
use service_core::not_found::NotFoundTemplate;
use service_core::response::ApiResponse;

#[test]
fn success_has_code_zero_and_the_payload() {
    let r = ApiResponse::success(7u32);
    assert_eq!(r.code, 0);
    assert_eq!(r.msg, "Success");
    assert_eq!(r.data, Some(7));
    assert!(!r.timestamp.is_empty());
}

#[test]
fn error_has_no_payload() {
    let r = ApiResponse::<u32>::error(10042, "boom".to_string());
    assert_eq!(r.code, 10042);
    assert_eq!(r.msg, "boom");
    assert_eq!(r.data, None);
    assert!(!r.timestamp.is_empty());
}

#[test]
fn fail_uses_code_one() {
    let r = ApiResponse::<()>::fail("nope".to_string());
    assert_eq!(r.code, 1);
    assert_eq!(r.msg, "nope");
    assert_eq!(r.data, None);
}

#[test]
fn new_keeps_its_arguments() {
    let r = ApiResponse::new(3, "msg".to_string(), Some("payload".to_string()));
    assert_eq!(r.code, 3);
    assert_eq!(r.msg, "msg");
    assert_eq!(r.data, Some("payload".to_string()));
}

#[test]
fn error_statuses_match_their_variants() {
    let cases: Vec<(AppError, u16, &str)> = vec![
        (
            AppError::Config(EnvConfigError::MissingVar { var_name: "X".to_string() }),
            500,
            "Configuration error",
        ),
        (AppError::Database("down".to_string()), 500, "Database error"),
        (AppError::Validation("bad input".to_string()), 400, "bad input"),
        (AppError::Io("pipe".to_string()), 500, "IO error"),
        (AppError::Serde("eof".to_string()), 400, "Invalid data format"),
        (AppError::General("???".to_string()), 500, "Internal server error"),
        (
            AppError::FileHandle(FileUploadError::FileSizeExceeded(1024)),
            400,
            "File upload error",
        ),
        (AppError::Http { status: 418 }, 418, "Request error"),
    ];
    for (err, status, msg) in cases {
        let (s, m) = err.status_and_message();
        assert_eq!(s, status);
        assert_eq!(m, msg);
    }
}

#[test]
fn not_found_page_carries_path_and_request_id() {
    let page = NotFoundTemplate::new("/missing".to_string(), Some("req-1".to_string()));
    assert_eq!(page.request_path.as_deref(), Some("/missing"));
    assert_eq!(page.request_id.as_deref(), Some("req-1"));
    assert!(!page.timestamp.unwrap().is_empty());

    let page = NotFoundTemplate::new("/x".to_string(), None);
    assert_eq!(page.request_id, None);
}
