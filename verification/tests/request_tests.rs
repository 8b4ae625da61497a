use axum::http::{HeaderMap, HeaderValue};
use warden_worker::auth_requests::{
    check_auth_request_response, check_requesting_device, decide_auth_request_update,
    found_or_bad_request, AuthRequestDecision, AuthRequestResponseQuery, CreateAuthRequest,
    UpdateAuthRequest,
};
use warden_worker::client_context::{
    header_value, request_device_type_from_headers, request_ip_from_headers,
};
use warden_worker::device::{parse_required_device_type, DeviceType};
use warden_worker::error::{bad, bad_request, error_status_and_message, AppError};
use warden_worker::models::filter_nonempty;

fn headers(pairs: &[(&'static str, &[u8])]) -> HeaderMap {
    let mut h = HeaderMap::new();
    for (k, v) in pairs {
        h.append(*k, HeaderValue::from_bytes(v).unwrap());
    }
    h
}

fn missing() -> AppError {
    AppError::BadRequest("AuthRequest doesn't exist".into())
}

#[test]
fn ip_from_connecting_ip_header() {
    assert_eq!(request_ip_from_headers(&headers(&[("cf-connecting-ip", b" 1.2.3.4 ")])), "1.2.3.4");
    assert_eq!(request_ip_from_headers(&headers(&[("CF-Connecting-IP", b"::1")])), "::1");
    assert_eq!(request_ip_from_headers(&headers(&[])), "unknown");
    assert_eq!(request_ip_from_headers(&headers(&[("cf-connecting-ip", b"   ")])), "unknown");
    assert_eq!(request_ip_from_headers(&headers(&[("cf-connecting-ip", b"\xff1")])), "unknown");
    assert_eq!(
        request_ip_from_headers(&headers(&[("cf-connecting-ip", b"a"), ("cf-connecting-ip", b"b")])),
        "a"
    );
}

#[test]
fn device_type_from_first_present_header() {
    assert_eq!(request_device_type_from_headers(&headers(&[])), 14);
    assert_eq!(request_device_type_from_headers(&headers(&[("device-type", b"8")])), 8);
    assert_eq!(request_device_type_from_headers(&headers(&[("devicetype", b" 6 ")])), 6);
    assert_eq!(request_device_type_from_headers(&headers(&[("x-device-type", b"10")])), 10);
    assert_eq!(
        request_device_type_from_headers(&headers(&[("device-type", b" "), ("x-device-type", b"3")])),
        3
    );
    assert_eq!(
        request_device_type_from_headers(&headers(&[("device-type", b"2"), ("x-device-type", b"3")])),
        2
    );
    assert_eq!(request_device_type_from_headers(&headers(&[("device-type", b"99")])), 14);
    assert_eq!(request_device_type_from_headers(&headers(&[("device-type", b"web")])), 14);
}

#[test]
fn header_value_tries_names_in_order() {
    let h = headers(&[("b", b" two "), ("c", b"three")]);
    assert_eq!(header_value(&h, &["a", "b", "c"]), Some("two"));
    assert_eq!(header_value(&h, &["a"]), None);
    assert_eq!(header_value(&h, &[]), None);
}

#[test]
fn device_types() {
    assert_eq!(DeviceType::parse_strict("0"), Some(DeviceType::Android));
    assert_eq!(DeviceType::parse_strict("25"), Some(DeviceType::LinuxCli));
    assert_eq!(DeviceType::parse_strict("26"), None);
    assert_eq!(DeviceType::parse_strict("-1"), None);
    assert_eq!(DeviceType::parse_strict("x"), None);
    assert_eq!(DeviceType::from_str("9"), DeviceType::ChromeBrowser);
    assert_eq!(DeviceType::from_str("nope"), DeviceType::UnknownBrowser);
    assert_eq!(DeviceType::UnknownBrowser.as_i32(), 14);
    assert_eq!(DeviceType::from_i32(17), Some(DeviceType::SafariBrowser));
}

#[test]
fn required_device_type() {
    assert_eq!(
        parse_required_device_type(None, "deviceType"),
        Err(AppError::BadRequest("Missing deviceType".into()))
    );
    assert_eq!(
        parse_required_device_type(Some("  "), "deviceType"),
        Err(AppError::BadRequest("Missing deviceType".into()))
    );
    assert_eq!(
        parse_required_device_type(Some("abc"), "type"),
        Err(AppError::BadRequest("Invalid type".into()))
    );
    assert_eq!(
        parse_required_device_type(Some("26"), "type"),
        Err(AppError::BadRequest("Invalid type".into()))
    );
    assert_eq!(parse_required_device_type(Some(" 8 "), "type"), Ok(8));
    assert_eq!(parse_required_device_type(Some("+3"), "type"), Ok(3));
}

#[test]
fn error_responses() {
    assert_eq!(error_status_and_message(&AppError::NotFound("n".into())), (404, "n".to_string()));
    assert_eq!(error_status_and_message(&bad("b")), (400, "b".to_string()));
    assert_eq!(error_status_and_message(&AppError::Unauthorized("u".into())), (401, "u".to_string()));
    assert_eq!(
        error_status_and_message(&AppError::TooManyRequests("t".into())),
        (429, "t".to_string())
    );
    assert_eq!(
        error_status_and_message(&AppError::Internal),
        (500, "Internal server error".to_string())
    );
    assert_eq!(bad_request(), missing());
}

#[test]
fn lookups_that_must_find() {
    assert_eq!(found_or_bad_request(Some(3)), Ok(3));
    assert_eq!(found_or_bad_request::<i32>(None), Err(missing()));
}

#[test]
fn new_request_needs_matching_device() {
    assert_eq!(check_requesting_device(Some(8), 8), Ok(()));
    assert_eq!(check_requesting_device(Some(8), 9), Err(missing()));
    assert_eq!(check_requesting_device(None, 8), Err(missing()));
}

fn update(device: &str, approved: bool) -> UpdateAuthRequest {
    UpdateAuthRequest {
        device_identifier: device.into(),
        key: "k".into(),
        master_password_hash: Some("h".into()),
        request_approved: approved,
    }
}

#[test]
fn answering_a_request() {
    assert_eq!(decide_auth_request_update(false, "other", update("d", true)), Err(missing()));
    assert_eq!(
        decide_auth_request_update(true, "d", update("d", true)),
        Err(AppError::BadRequest(
            "An authentication request with the same device already exists".into()
        ))
    );
    assert_eq!(
        decide_auth_request_update(false, "d", update("d", true)),
        Ok(AuthRequestDecision::Approve {
            enc_key: "k".into(),
            master_password_hash: Some("h".into()),
            response_device_id: "d".into(),
        })
    );
    assert_eq!(decide_auth_request_update(false, "d", update("d", false)), Ok(AuthRequestDecision::Deny));
}

#[test]
fn reading_the_answer() {
    assert_eq!(check_auth_request_response(8, "1.1.1.1", 8, "1.1.1.1", true), Ok(()));
    assert_eq!(check_auth_request_response(8, "1.1.1.1", 9, "1.1.1.1", true), Err(missing()));
    assert_eq!(check_auth_request_response(8, "1.1.1.1", 8, "2.2.2.2", true), Err(missing()));
    assert_eq!(check_auth_request_response(8, "1.1.1.1", 8, "1.1.1.1", false), Err(missing()));
}

#[test]
fn request_bodies() {
    let c = CreateAuthRequest {
        access_code: "a".into(),
        device_identifier: "d".into(),
        email: "e".into(),
        public_key: "p".into(),
    };
    assert_eq!(c.clone(), c);
    let q = AuthRequestResponseQuery { code: "c".into() };
    assert_eq!(q.code, "c");
}

#[test]
fn empty_strings_read_as_absent() {
    assert_eq!(filter_nonempty(Some(String::new())), None);
    assert_eq!(filter_nonempty(Some("f".into())), Some("f".to_string()));
    assert_eq!(filter_nonempty(None), None);
}
