use warden_worker::error::AppError;
use warden_worker::streaming::{
    attachment_storage_key, check_attachment_cipher, check_pending_attachment,
    check_pending_send_file, check_send_download_claims, check_stored_size, check_token_claims,
    check_upload_size, context_id_for_device, download_content_type, is_streaming_route,
    kv_content_length, parse_content_length_value, required_token, route_streaming,
    send_storage_key, HttpMethod, StreamingRoute,
};

const ALL: [HttpMethod; 10] = [
    HttpMethod::Head,
    HttpMethod::Get,
    HttpMethod::Post,
    HttpMethod::Put,
    HttpMethod::Patch,
    HttpMethod::Delete,
    HttpMethod::Options,
    HttpMethod::Connect,
    HttpMethod::Trace,
    HttpMethod::Report,
];

#[test]
fn streaming_routes() {
    assert!(is_streaming_route(&HttpMethod::Put, "/api/ciphers/c/attachment/a/azure-upload"));
    assert!(is_streaming_route(&HttpMethod::Put, "api/sends/s/file/f/azure-upload/"));
    assert!(is_streaming_route(&HttpMethod::Get, "/api/ciphers/c/attachment/a/download"));
    assert!(is_streaming_route(&HttpMethod::Get, "/api/sends/s/f"));
    assert!(!is_streaming_route(&HttpMethod::Get, "/api/sends/access/f"));
    assert!(!is_streaming_route(&HttpMethod::Get, "/api/sends/file/f"));
    assert!(!is_streaming_route(&HttpMethod::Post, "/api/ciphers/c/attachment/a/azure-upload"));
    assert!(!is_streaming_route(&HttpMethod::Get, "/api/ciphers/c/attachment/a/azure-upload"));
    assert!(!is_streaming_route(&HttpMethod::Put, "/api/ciphers/c/attachment/a/download"));
    assert!(!is_streaming_route(&HttpMethod::Get, "/api/sends/s/f/g"));
    assert!(!is_streaming_route(&HttpMethod::Get, "/api//sends/s"));
    assert!(!is_streaming_route(&HttpMethod::Get, ""));
}

#[test]
fn routes_carry_the_path_ids() {
    assert_eq!(
        route_streaming(&HttpMethod::Put, "/api/ciphers/c1/attachment/a1/azure-upload"),
        StreamingRoute::AttachmentUpload { cipher_id: "c1".into(), attachment_id: "a1".into() }
    );
    assert_eq!(
        route_streaming(&HttpMethod::Get, "/api/ciphers/c1/attachment/a1/download"),
        StreamingRoute::AttachmentDownload { cipher_id: "c1".into(), attachment_id: "a1".into() }
    );
    assert_eq!(
        route_streaming(&HttpMethod::Put, "/api/sends/s1/file/f1/azure-upload"),
        StreamingRoute::SendUpload { send_id: "s1".into(), file_id: "f1".into() }
    );
    assert_eq!(
        route_streaming(&HttpMethod::Get, "/api/sends/s1/f1"),
        StreamingRoute::SendDownload { send_id: "s1".into(), file_id: "f1".into() }
    );
    assert_eq!(route_streaming(&HttpMethod::Get, "/api/sends/access/f1"), StreamingRoute::NotFound);
}

#[test]
fn streamed_exactly_when_routed() {
    let paths = [
        "/api/ciphers/c/attachment/a/azure-upload",
        "/api/sends/s/file/f/azure-upload",
        "/api/ciphers/c/attachment/a/download",
        "/api/sends/s/f",
        "/api/sends/access/f",
        "/api/sends/file/f",
        "/api/ciphers",
        "/",
        "/api/sends/s/f/",
    ];
    for m in ALL {
        for p in paths {
            assert_eq!(
                is_streaming_route(&m, p),
                route_streaming(&m, p) != StreamingRoute::NotFound,
                "{m:?} {p}"
            );
        }
    }
}

fn bad(m: &str) -> AppError {
    AppError::BadRequest(m.into())
}

#[test]
fn token_checks() {
    assert_eq!(required_token(Some("t".into())), Ok("t".to_string()));
    assert_eq!(required_token(None), Err(bad("Missing query parameter: token")));
    assert_eq!(check_token_claims("c", "a", "c", "a"), Ok(()));
    let invalid = Err(AppError::Unauthorized("Invalid token".into()));
    assert_eq!(check_token_claims("c", "a", "c", "b"), invalid);
    assert_eq!(check_token_claims("x", "a", "c", "a"), invalid);
    assert_eq!(check_send_download_claims("s", "f", "s", "f"), Ok(()));
    assert_eq!(
        check_send_download_claims("s", "g", "s", "f"),
        Err(AppError::NotFound("Not found".into()))
    );
    assert_eq!(context_id_for_device(""), None);
    assert_eq!(context_id_for_device("dev"), Some("dev".to_string()));
}

#[test]
fn attachment_checks() {
    assert_eq!(check_attachment_cipher("c", "c"), Ok(()));
    assert_eq!(check_attachment_cipher("c", "d"), Err(bad("Attachment does not belong to cipher")));
    assert_eq!(check_pending_attachment("c", "c", 10), Ok(()));
    assert_eq!(check_pending_attachment("c", "c", 0), Err(bad("Invalid pending attachment size")));
    assert_eq!(
        check_pending_attachment("c", "d", 0),
        Err(bad("Attachment does not belong to cipher"))
    );
}

#[test]
fn size_checks() {
    assert_eq!(check_upload_size(5, 5), Ok(()));
    assert_eq!(
        check_upload_size(-3, 10),
        Err(bad("Uploaded size (-3) does not match declared size (10)"))
    );
    assert_eq!(check_stored_size(10, 10), Ok(()));
    assert_eq!(
        check_stored_size(11, 10),
        Err(bad("Uploaded size (11) does not match declared size (10)"))
    );
    assert_eq!(
        check_stored_size(u64::MAX, -1),
        Ok(())
    );
}

#[test]
fn pending_send_checks() {
    assert_eq!(check_pending_send_file(Some("f"), Some(7), "f"), Ok(7));
    assert_eq!(
        check_pending_send_file(None, Some(7), "f"),
        Err(bad("Missing file ID in pending send data"))
    );
    assert_eq!(check_pending_send_file(Some("g"), Some(7), "f"), Err(bad("File ID mismatch")));
    assert_eq!(
        check_pending_send_file(Some("f"), Some(-1), "f"),
        Err(bad("Invalid declared file size in pending send"))
    );
    assert_eq!(
        check_pending_send_file(Some("f"), None, "f"),
        Err(bad("Invalid declared file size in pending send"))
    );
}

#[test]
fn storage_keys() {
    assert_eq!(attachment_storage_key("c", "a"), "c/a");
    assert_eq!(send_storage_key("s", "f"), "sends/s/f");
}

#[test]
fn download_headers() {
    assert_eq!(download_content_type(None), "application/octet-stream");
    assert_eq!(download_content_type(Some("image/png".into())), "image/png");
    assert_eq!(kv_content_length(Some(5), Some(9)), Some("5".to_string()));
    assert_eq!(kv_content_length(None, Some(9)), Some("9".to_string()));
    assert_eq!(kv_content_length(Some(-1), Some(9)), None);
    assert_eq!(kv_content_length(None, None), None);
}

#[test]
fn content_length_header() {
    assert_eq!(parse_content_length_value(Some("42")), Ok(42));
    assert_eq!(parse_content_length_value(Some("-1")), Ok(-1));
    assert_eq!(parse_content_length_value(None), Err(bad("Missing Content-Length header")));
    assert_eq!(parse_content_length_value(Some("4 2")), Err(bad("Invalid Content-Length header")));
    assert_eq!(parse_content_length_value(Some("")), Err(bad("Invalid Content-Length header")));
}
