use jwt_compact::{alg::Hs256, alg::Hs256Key, AlgorithmExt, Claims, Header, TimeOptions};
use warden_worker::auth_requests::{
    answer_auth_request_step, auth_response_step, create_auth_request_step,
    AnswerAuthRequestAction, AnswerAuthRequestEvent, CreateAuthRequest, CreateAuthRequestAction,
    CreateAuthRequestEvent, StoredAccess, StoredAuthRequest, UpdateAuthRequest,
};
use warden_worker::error::AppError;
use warden_worker::notifications::{timestamp_or_now, UpdateType, Timestamp};
use warden_worker::streaming::{check_pending_send_data, query_param, send_fallback_size, HttpMethod};
use warden_worker::token::{token_outcome, verify_token, TokenCheck};
use warden_worker::transfers::{
    attachment_download_step, attachment_upload_step, dispatch_transfer, send_download_step,
    send_upload_step, AttachmentClaims, AttachmentDownloadAction, AttachmentDownloadEvent,
    AttachmentUploadAction, AttachmentUploadEvent, SendDownloadAction, SendDownloadClaims,
    SendDownloadEvent, SendUploadAction, SendUploadClaims, SendUploadEvent, TransferCall,
};

fn bad(m: &str) -> AppError {
    AppError::BadRequest(m.into())
}
fn invalid() -> AppError {
    AppError::Unauthorized("Invalid token".into())
}
fn missing() -> AppError {
    AppError::BadRequest("AuthRequest doesn't exist".into())
}

const NOW: Timestamp = Timestamp { seconds: 42, nanos: 7 };

#[test]
fn timestamp_or_now_cases() {
    assert_eq!(timestamp_or_now("", NOW), NOW);
    assert_eq!(timestamp_or_now("yesterday", NOW), NOW);
    assert_eq!(
        timestamp_or_now("2024-01-01T02:00:00+02:00", NOW),
        Timestamp { seconds: 1_704_067_200, nanos: 0 }
    );
}

#[test]
fn pending_send_data_cases() {
    let ok = check_pending_send_data("{\"size\": 5, \"id\": \"f\"}", "f").unwrap();
    assert_eq!(ok.0, 5);
    assert_eq!(ok.1.as_deref(), Some("{\"id\":\"f\",\"size\":5}"));
    assert_eq!(check_pending_send_data("not json", "f"), Err(bad("Invalid pending send data")));
    assert_eq!(
        check_pending_send_data("{\"size\": 5}", "f"),
        Err(bad("Missing file ID in pending send data"))
    );
    assert_eq!(
        check_pending_send_data("{\"id\": 3, \"size\": 5}", "f"),
        Err(bad("Missing file ID in pending send data"))
    );
    assert_eq!(check_pending_send_data("{\"id\": \"g\", \"size\": 5}", "f"), Err(bad("File ID mismatch")));
    assert_eq!(
        check_pending_send_data("{\"id\": \"f\", \"size\": \"5\"}", "f"),
        Err(bad("Invalid declared file size in pending send"))
    );
    assert_eq!(
        check_pending_send_data("{\"id\": \"f\", \"size\": -2}", "f"),
        Err(bad("Invalid declared file size in pending send"))
    );
    assert_eq!(send_fallback_size("{\"size\": 12}"), Some(12));
    assert_eq!(send_fallback_size("{\"size\": 1.5}"), None);
    assert_eq!(send_fallback_size("[]"), None);
    assert_eq!(send_fallback_size("{"), None);
}

#[test]
fn query_param_cases() {
    assert_eq!(query_param("token=abc&t=x", "token"), Some("abc".to_string()));
    assert_eq!(query_param("token=abc&t=x", "t"), Some("x".to_string()));
    assert_eq!(query_param("a=%20b+c", "a"), Some(" b c".to_string()));
    assert_eq!(query_param("a=1&a=2", "a"), Some("1".to_string()));
    assert_eq!(query_param("a=1", "token"), None);
    assert_eq!(query_param("", "token"), None);
}

fn make_token(secret: &[u8], claims_json: &str, seconds: i64) -> String {
    let custom: serde_json::Value = serde_json::from_str(claims_json).unwrap();
    let claims = Claims::new(custom)
        .set_duration(&TimeOptions::default(), chrono::Duration::seconds(seconds));
    Hs256.token(&Header::empty(), &claims, &Hs256Key::new(secret)).unwrap()
}

#[test]
fn verify_token_cases() {
    let token = make_token(b"secret", "{\"sub\":\"u1\"}", 3600);
    let claims = verify_token("secret", &token, 60).unwrap();
    let v: serde_json::Value = serde_json::from_str(&claims).unwrap();
    assert_eq!(v["sub"], "u1");
    assert_eq!(verify_token("other", &token, 60), Err(invalid()));
    assert_eq!(verify_token("secret", "not a token", 60), Err(invalid()));
    let expired = make_token(b"secret", "{\"sub\":\"u1\"}", -3600);
    assert_eq!(verify_token("secret", &expired, 60), Err(invalid()));
}

#[test]
fn token_outcome_cases() {
    let valid = TokenCheck::Valid { expiration: Some(100), claims: "{}".into() };
    let at = |s| Timestamp { seconds: s, nanos: 0 };
    assert_eq!(token_outcome(&valid, at(100), 0), Ok("{}".to_string()));
    assert_eq!(token_outcome(&valid, Timestamp { seconds: 100, nanos: 1 }, 0), Err(invalid()));
    assert_eq!(token_outcome(&valid, at(159), 60), Ok("{}".to_string()));
    assert_eq!(token_outcome(&valid, at(161), 60), Err(invalid()));
    let no_exp = TokenCheck::Valid { expiration: None, claims: "{}".into() };
    assert_eq!(token_outcome(&no_exp, at(0), 60), Err(invalid()));
    assert_eq!(token_outcome(&TokenCheck::Malformed, at(0), 60), Err(invalid()));
    assert_eq!(token_outcome(&TokenCheck::Rejected, at(0), 60), Err(invalid()));
}

#[test]
fn dispatch_cases() {
    assert_eq!(
        dispatch_transfer(&HttpMethod::Put, "/api/ciphers/c/attachment/a/azure-upload", Some("k".into()), None),
        Ok(TransferCall::AttachmentUpload { cipher_id: "c".into(), attachment_id: "a".into(), token: "k".into() })
    );
    assert_eq!(
        dispatch_transfer(&HttpMethod::Put, "/api/sends/s/file/f/azure-upload", None, Some("x".into())),
        Err(bad("Missing query parameter: token"))
    );
    assert_eq!(
        dispatch_transfer(&HttpMethod::Get, "/api/sends/s/f", None, None),
        Ok(TransferCall::SendDownload { send_id: "s".into(), file_id: "f".into(), token: String::new() })
    );
    assert_eq!(
        dispatch_transfer(&HttpMethod::Get, "/api/sends/s/f", Some("k".into()), Some("t".into())),
        Ok(TransferCall::SendDownload { send_id: "s".into(), file_id: "f".into(), token: "t".into() })
    );
    assert_eq!(
        dispatch_transfer(&HttpMethod::Get, "/api/ciphers/c/attachment/a/download", Some("k".into()), None),
        Ok(TransferCall::AttachmentDownload { cipher_id: "c".into(), attachment_id: "a".into(), token: "k".into() })
    );
    assert_eq!(
        dispatch_transfer(&HttpMethod::Post, "/api/sends/s/f", Some("k".into()), None),
        Err(AppError::NotFound("Not found".into()))
    );
}

fn att_claims(cipher: &str, device: &str) -> AttachmentClaims {
    AttachmentClaims { sub: "u".into(), device: device.into(), cipher_id: cipher.into(), attachment_id: "a".into() }
}

#[test]
fn attachment_upload_steps() {
    assert!(matches!(attachment_upload_step("c", "a", AttachmentUploadEvent::Started { storage_enabled: true }), AttachmentUploadAction::VerifyToken));
    assert!(matches!(attachment_upload_step("c", "a", AttachmentUploadEvent::Started { storage_enabled: false }),
        AttachmentUploadAction::Fail(e) if e == bad("Attachments are not enabled")));
    assert!(matches!(attachment_upload_step("c", "a", AttachmentUploadEvent::TokenRead { claims: Ok(att_claims("x", "")) }),
        AttachmentUploadAction::Fail(e) if e == invalid()));
    assert!(matches!(attachment_upload_step("c", "a", AttachmentUploadEvent::TokenRead { claims: Err(invalid()) }),
        AttachmentUploadAction::Fail(e) if e == invalid()));
    assert!(matches!(attachment_upload_step("c", "a", AttachmentUploadEvent::TokenRead { claims: Ok(att_claims("c", "")) }),
        AttachmentUploadAction::LoadPending { user_id, context_id: None } if user_id == "u"));
    assert!(matches!(attachment_upload_step("c", "a", AttachmentUploadEvent::TokenRead { claims: Ok(att_claims("c", "d")) }),
        AttachmentUploadAction::LoadPending { context_id: Some(d), .. } if d == "d"));
    assert!(matches!(attachment_upload_step("c", "a", AttachmentUploadEvent::PendingRead { user_id: "u".into(), context_id: None, pending: Ok(("x".into(), 5)) }),
        AttachmentUploadAction::Fail(e) if e == bad("Attachment does not belong to cipher")));
    assert!(matches!(attachment_upload_step("c", "a", AttachmentUploadEvent::PendingRead { user_id: "u".into(), context_id: None, pending: Ok(("c".into(), 0)) }),
        AttachmentUploadAction::Fail(e) if e == bad("Invalid pending attachment size")));
    assert!(matches!(attachment_upload_step("c", "a", AttachmentUploadEvent::PendingRead { user_id: "u".into(), context_id: None, pending: Ok(("c".into(), 5)) }),
        AttachmentUploadAction::ReadContentLength { declared_size: 5, .. }));
    assert!(matches!(attachment_upload_step("c", "a", AttachmentUploadEvent::LengthRead { user_id: "u".into(), context_id: None, declared_size: 5, content_length: Ok(4) }),
        AttachmentUploadAction::Fail(e) if e == bad("Uploaded size (4) does not match declared size (5)")));
    assert!(matches!(attachment_upload_step("c", "a", AttachmentUploadEvent::LengthRead { user_id: "u".into(), context_id: None, declared_size: 5, content_length: Ok(5) }),
        AttachmentUploadAction::Store { key, declared_size: 5, .. } if key == "c/a"));
    assert!(matches!(attachment_upload_step("c", "a", AttachmentUploadEvent::Stored { user_id: "u".into(), context_id: None, result: Ok(()) }),
        AttachmentUploadAction::Finalize { .. }));
    match attachment_upload_step("c", "a", AttachmentUploadEvent::Finalized { user_id: "u".into(), context_id: Some("d".into()), now: Ok("t".into()) }) {
        AttachmentUploadAction::Finish { notice, status } => {
            assert_eq!(status, 201);
            assert_eq!(notice.user_id, "u");
            assert_eq!(notice.update_type, UpdateType::SyncCipherUpdate);
            assert_eq!(notice.item_id, "c");
            assert_eq!(notice.date, "t");
            assert_eq!(notice.context_id.as_deref(), Some("d"));
        }
        _ => panic!("expected finish"),
    }
}

#[test]
fn attachment_download_steps() {
    assert!(matches!(attachment_download_step("c", "a", AttachmentDownloadEvent::TokenRead { claims: Ok(att_claims("c", "")) }),
        AttachmentDownloadAction::LoadAttachment { user_id } if user_id == "u"));
    assert!(matches!(attachment_download_step("c", "a", AttachmentDownloadEvent::AttachmentRead { attachment: Ok(("x".into(), 3)) }),
        AttachmentDownloadAction::Fail(e) if e == bad("Attachment does not belong to cipher")));
    assert!(matches!(attachment_download_step("c", "a", AttachmentDownloadEvent::AttachmentRead { attachment: Ok(("c".into(), 3)) }),
        AttachmentDownloadAction::Download { key, fallback_size: Some(3) } if key == "c/a"));
}

#[test]
fn send_upload_steps() {
    let claims = SendUploadClaims { sub: "u".into(), device: "d".into(), send_id: "s".into(), file_id: "f".into() };
    assert!(matches!(send_upload_step("s", "f", SendUploadEvent::Started { storage_enabled: false }),
        SendUploadAction::Fail(e) if e == bad("File storage is not enabled")));
    assert!(matches!(send_upload_step("s", "f", SendUploadEvent::TokenRead { claims: Ok(claims) }),
        SendUploadAction::LoadPending { user_id, device } if user_id == "u" && device == "d"));
    assert!(matches!(send_upload_step("s", "f", SendUploadEvent::PendingRead { user_id: "u".into(), device: "d".into(), pending: Ok(None) }),
        SendUploadAction::Fail(AppError::NotFound(m)) if m == "Pending send not found or already uploaded"));
    assert!(matches!(send_upload_step("s", "f", SendUploadEvent::PendingRead { user_id: "u".into(), device: "d".into(), pending: Ok(Some("{\"id\":\"f\",\"size\":2}".into())) }),
        SendUploadAction::ReadContentLength { declared_size: 2, data: Some(_), .. }));
    assert!(matches!(send_upload_step("s", "f", SendUploadEvent::LengthRead { user_id: "u".into(), device: "d".into(), declared_size: 2, data: None, content_length: Ok(2) }),
        SendUploadAction::Store { key, .. } if key == "sends/s/f"));
    assert!(matches!(send_upload_step("s", "f", SendUploadEvent::Stored { user_id: "u".into(), device: "d".into(), data: None, result: Ok(()) }),
        SendUploadAction::Fail(AppError::Internal)));
    assert!(matches!(send_upload_step("s", "f", SendUploadEvent::Stored { user_id: "u".into(), device: "d".into(), data: Some("x".into()), result: Ok(()) }),
        SendUploadAction::Finalize { data, .. } if data == "x"));
    match send_upload_step("s", "f", SendUploadEvent::Finalized { user_id: "u".into(), device: "d".into(), updated_at: Ok("t".into()) }) {
        SendUploadAction::Finish { notice, status } => {
            assert_eq!(status, 201);
            assert_eq!(notice.update_type, UpdateType::SyncSendCreate);
            assert_eq!(notice.item_id, "s");
            assert_eq!(notice.context_id.as_deref(), Some("d"));
        }
        _ => panic!("expected finish"),
    }
}

#[test]
fn send_download_steps() {
    let nf = AppError::NotFound("Not found".into());
    assert!(matches!(send_download_step("s", "f", SendDownloadEvent::TokenRead { claims: Err(invalid()) }), SendDownloadAction::Fail(e) if e == nf));
    let wrong = SendDownloadClaims { send_id: "s".into(), file_id: "g".into() };
    assert!(matches!(send_download_step("s", "f", SendDownloadEvent::TokenRead { claims: Ok(wrong) }), SendDownloadAction::Fail(e) if e == nf));
    assert!(matches!(send_download_step("s", "f", SendDownloadEvent::SendRead { send: Ok(None) }), SendDownloadAction::Fail(e) if e == nf));
    assert!(matches!(send_download_step("s", "f", SendDownloadEvent::SendRead { send: Ok(Some("{\"size\":9}".into())) }),
        SendDownloadAction::Download { key, fallback_size: Some(9) } if key == "sends/s/f"));
    assert!(matches!(send_download_step("s", "f", SendDownloadEvent::SendRead { send: Ok(Some("x".into())) }),
        SendDownloadAction::Download { fallback_size: None, .. }));
}

fn create_payload() -> CreateAuthRequest {
    CreateAuthRequest {
        access_code: "code".into(),
        device_identifier: "dev".into(),
        email: "Ann@Example.COM".into(),
        public_key: "pk".into(),
    }
}

#[test]
fn create_auth_request_steps() {
    assert!(matches!(create_auth_request_step(CreateAuthRequestEvent::Started { payload: create_payload() }),
        CreateAuthRequestAction::FindUser { email } if email == "ann@example.com"));
    assert!(matches!(create_auth_request_step(CreateAuthRequestEvent::UserFound { payload: create_payload(), user: Ok(None) }),
        CreateAuthRequestAction::Fail(e) if e == missing()));
    assert!(matches!(create_auth_request_step(CreateAuthRequestEvent::UserFound { payload: create_payload(), user: Ok(Some("u".into())) }),
        CreateAuthRequestAction::FindDevice { device_identifier, user_id } if device_identifier == "dev" && user_id == "u"));
    assert!(matches!(create_auth_request_step(CreateAuthRequestEvent::DeviceFound { payload: create_payload(), user_id: "u".into(), device_type: Ok(Some(3)), request_device_type: 8, request_ip: "ip".into() }),
        CreateAuthRequestAction::Fail(e) if e == missing()));
    match create_auth_request_step(CreateAuthRequestEvent::DeviceFound { payload: create_payload(), user_id: "u".into(), device_type: Ok(Some(8)), request_device_type: 8, request_ip: "ip".into() }) {
        CreateAuthRequestAction::Insert { request } => {
            assert_eq!(request.user_id, "u");
            assert_eq!(request.device_type, 8);
            assert_eq!(request.request_ip, "ip");
            assert_eq!(request.access_code, "code");
            assert_eq!(request.public_key, "pk");
        }
        _ => panic!("expected insert"),
    }
    match create_auth_request_step(CreateAuthRequestEvent::Inserted { user_id: "u".into(), auth_request_id: "r".into(), device_identifier: "dev".into(), result: Ok(()) }) {
        CreateAuthRequestAction::Finish { notice } => {
            assert_eq!(notice.update_type, UpdateType::AuthRequest);
            assert_eq!(notice.auth_request_id, "r");
            assert_eq!(notice.context_id.as_deref(), Some("dev"));
        }
        _ => panic!("expected finish"),
    }
}

fn answer(device: &str, approved: bool) -> UpdateAuthRequest {
    UpdateAuthRequest { device_identifier: device.into(), key: "k".into(), master_password_hash: None, request_approved: approved }
}
fn stored(approved: Option<bool>) -> StoredAuthRequest {
    StoredAuthRequest { id: "r".into(), user_id: "u".into(), approved }
}

#[test]
fn answer_auth_request_steps() {
    assert!(matches!(answer_auth_request_step(AnswerAuthRequestEvent::Found { found: Ok(None), claims_device: "d".into(), payload: answer("d", true), now: "t".into() }),
        AnswerAuthRequestAction::Fail(e) if e == missing()));
    assert!(matches!(answer_auth_request_step(AnswerAuthRequestEvent::Found { found: Ok(Some(stored(None))), claims_device: "x".into(), payload: answer("d", true), now: "t".into() }),
        AnswerAuthRequestAction::Fail(e) if e == missing()));
    assert!(matches!(answer_auth_request_step(AnswerAuthRequestEvent::Found { found: Ok(Some(stored(Some(false)))), claims_device: "d".into(), payload: answer("d", true), now: "t".into() }),
        AnswerAuthRequestAction::Fail(e) if e == bad("An authentication request with the same device already exists")));
    assert!(matches!(answer_auth_request_step(AnswerAuthRequestEvent::Found { found: Ok(Some(stored(None))), claims_device: "d".into(), payload: answer("d", true), now: "t".into() }),
        AnswerAuthRequestAction::Approve { request_id, response_date, enc_key, response_device_id, .. }
            if request_id == "r" && response_date == "t" && enc_key == "k" && response_device_id == "d"));
    assert!(matches!(answer_auth_request_step(AnswerAuthRequestEvent::Found { found: Ok(Some(stored(None))), claims_device: "d".into(), payload: answer("d", false), now: "t".into() }),
        AnswerAuthRequestAction::Delete { request_id, response_date } if request_id == "r" && response_date == "t"));
    match answer_auth_request_step(AnswerAuthRequestEvent::Approved { request_id: "r".into(), user_id: "u".into(), claims_device: "d".into(), result: Ok(()) }) {
        AnswerAuthRequestAction::Finish { anonymous: Some(a), notice: Some(n) } => {
            assert_eq!((a.token.as_str(), a.user_id.as_str(), a.auth_request_id.as_str()), ("r", "u", "r"));
            assert_eq!(n.update_type, UpdateType::AuthRequestResponse);
            assert_eq!(n.context_id.as_deref(), Some("d"));
        }
        _ => panic!("expected finish"),
    }
    assert!(matches!(answer_auth_request_step(AnswerAuthRequestEvent::Deleted { result: Ok(()) }), AnswerAuthRequestAction::Finish { anonymous: None, notice: None }));
}

#[test]
fn auth_response_steps() {
    let access = |ok| StoredAccess { device_type: 8, request_ip: "ip".into(), access_code_matches: ok };
    assert_eq!(auth_response_step(Ok(Some(access(true))), 8, "ip"), Ok(()));
    assert_eq!(auth_response_step(Ok(Some(access(false))), 8, "ip"), Err(missing()));
    assert_eq!(auth_response_step(Ok(None), 8, "ip"), Err(missing()));
    assert_eq!(auth_response_step(Err(AppError::Internal), 8, "ip"), Err(AppError::Internal));
}
