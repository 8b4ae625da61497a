//! The streamed transfer handlers as step functions: each takes what the
//! last piece of outside work gave (a storage probe, a token, a lookup, a
//! write) and says what to do next, so that the checks run in their order and
//! each effect follows only the checks before it.
use vstd::prelude::*;

use crate::error::{bad, AppError, AppErrorSpec};
use crate::notifications::UpdateType;
use crate::streaming::{
    attachment_storage_key, check_attachment_cipher, check_pending_attachment,
    check_pending_send_data, check_upload_size, context_id_for_device, path_segments,
    pending_send_data, route, route_streaming, send_data_fields, send_fallback_size,
    send_storage_key, size_mismatch_message, HttpMethod, RouteSpec, StreamingRoute,
};
use crate::text::{int_decimal, opt_view, owned, str_eq};

verus! {

// ── Dispatch ────────────────────────────────────────────────────────

/// A streamed request with the ids its path names and its token.
#[derive(Debug, Clone, PartialEq, Eq)]
pub enum TransferCall {
    AttachmentUpload { cipher_id: String, attachment_id: String, token: String },
    AttachmentDownload { cipher_id: String, attachment_id: String, token: String },
    SendUpload { send_id: String, file_id: String, token: String },
    SendDownload { send_id: String, file_id: String, token: String },
}

pub open spec fn missing_token() -> AppErrorSpec {
    AppErrorSpec::BadRequest("Missing query parameter: token"@)
}

/// Routes a request: the handler to call with its ids and token, `token`
/// required for attachments and send uploads, `t` (empty where absent) for
/// send downloads; `Not found` for any other request.
pub fn dispatch_transfer(
    method: &HttpMethod,
    path: &str,
    token: Option<String>,
    t: Option<String>,
) -> (r: Result<TransferCall, AppError>)
    ensures
        match route(*method, path_segments(path@)) {
            RouteSpec::AttachmentUpload(c, a) => match token {
                Some(k) => r matches Ok(
                    TransferCall::AttachmentUpload { cipher_id, attachment_id, token: k2 },
                ) && cipher_id@ == c && attachment_id@ == a && k2@ == k@,
                None => r matches Err(e) && e@ == missing_token(),
            },
            RouteSpec::AttachmentDownload(c, a) => match token {
                Some(k) => r matches Ok(
                    TransferCall::AttachmentDownload { cipher_id, attachment_id, token: k2 },
                ) && cipher_id@ == c && attachment_id@ == a && k2@ == k@,
                None => r matches Err(e) && e@ == missing_token(),
            },
            RouteSpec::SendUpload(s, f) => match token {
                Some(k) => r matches Ok(TransferCall::SendUpload { send_id, file_id, token: k2 })
                    && send_id@ == s && file_id@ == f && k2@ == k@,
                None => r matches Err(e) && e@ == missing_token(),
            },
            RouteSpec::SendDownload(s, f) => r matches Ok(
                TransferCall::SendDownload { send_id, file_id, token: k2 },
            ) && send_id@ == s && file_id@ == f && k2@ == match opt_view(t) {
                Some(v) => v,
                None => Seq::<char>::empty(),
            },
            RouteSpec::NotFound => r matches Err(e) && e@ == AppErrorSpec::NotFound("Not found"@),
        },
{
    match route_streaming(method, path) {
        StreamingRoute::AttachmentUpload { cipher_id, attachment_id } => match token {
            Some(token) => Ok(TransferCall::AttachmentUpload { cipher_id, attachment_id, token }),
            None => Err(bad("Missing query parameter: token")),
        },
        StreamingRoute::AttachmentDownload { cipher_id, attachment_id } => match token {
            Some(token) => Ok(TransferCall::AttachmentDownload { cipher_id, attachment_id, token }),
            None => Err(bad("Missing query parameter: token")),
        },
        StreamingRoute::SendUpload { send_id, file_id } => match token {
            Some(token) => Ok(TransferCall::SendUpload { send_id, file_id, token }),
            None => Err(bad("Missing query parameter: token")),
        },
        StreamingRoute::SendDownload { send_id, file_id } => {
            let token = match t {
                Some(v) => v,
                None => String::new(),
            };
            Ok(TransferCall::SendDownload { send_id, file_id, token })
        },
        StreamingRoute::NotFound => Err(AppError::NotFound(owned("Not found"))),
    }
}

// ── Claims and notices ──────────────────────────────────────────────

/// The custom claims of an attachment transfer token.
#[derive(Debug, Clone, PartialEq, Eq)]
pub struct AttachmentClaims {
    pub sub: String,
    pub device: String,
    pub cipher_id: String,
    pub attachment_id: String,
}

/// The custom claims of a send upload token.
#[derive(Debug, Clone, PartialEq, Eq)]
pub struct SendUploadClaims {
    pub sub: String,
    pub device: String,
    pub send_id: String,
    pub file_id: String,
}

/// The custom claims of a send download token.
#[derive(Debug, Clone, PartialEq, Eq)]
pub struct SendDownloadClaims {
    pub send_id: String,
    pub file_id: String,
}

/// A change to publish to a user's clients: who, what kind, which item, when
/// (as stored) and from which device.
#[derive(Debug, Clone, PartialEq, Eq)]
pub struct UpdateNotice {
    pub user_id: String,
    pub update_type: UpdateType,
    pub item_id: String,
    pub date: String,
    pub context_id: Option<String>,
}

pub open spec fn is_notice(
    n: UpdateNotice,
    user_id: Seq<char>,
    update_type: UpdateType,
    item_id: Seq<char>,
    date: Seq<char>,
    context_id: Option<Seq<char>>,
) -> bool {
    &&& n.user_id@ == user_id
    &&& n.update_type == update_type
    &&& n.item_id@ == item_id
    &&& n.date@ == date
    &&& opt_view(n.context_id) == context_id
}

pub open spec fn invalid_token_spec() -> AppErrorSpec {
    AppErrorSpec::Unauthorized("Invalid token"@)
}

fn invalid_token() -> (r: AppError)
    ensures
        r@ == invalid_token_spec(),
{
    AppError::Unauthorized(owned("Invalid token"))
}

// ── Attachment upload ───────────────────────────────────────────────

/// What the last piece of outside work of an attachment upload gave.
pub enum AttachmentUploadEvent {
    /// Whether a storage backend is configured.
    Started { storage_enabled: bool },
    /// The verified token's claims.
    TokenRead { claims: Result<AttachmentClaims, AppError> },
    /// The cipher checked to be the user's, then the pending attachment's
    /// cipher and declared size.
    PendingRead { user_id: String, context_id: Option<String>, pending: Result<(String, i64), AppError> },
    /// The request's `Content-Length`.
    LengthRead {
        user_id: String,
        context_id: Option<String>,
        declared_size: i64,
        content_length: Result<i64, AppError>,
    },
    /// The body streamed to storage.
    Stored { user_id: String, context_id: Option<String>, result: Result<(), AppError> },
    /// The attachment finalized and the user touched: the time stored.
    Finalized { user_id: String, context_id: Option<String>, now: Result<String, AppError> },
}

/// What an attachment upload does next.
pub enum AttachmentUploadAction {
    Fail(AppError),
    VerifyToken,
    /// Check that the cipher is the user's, then fetch the pending attachment.
    LoadPending { user_id: String, context_id: Option<String> },
    ReadContentLength { user_id: String, context_id: Option<String>, declared_size: i64 },
    /// Stream the request body to `key`.
    Store { user_id: String, context_id: Option<String>, key: String, declared_size: i64 },
    /// Finalize the pending attachment and touch the user.
    Finalize { user_id: String, context_id: Option<String> },
    /// Publish the notice and answer with `status`.
    Finish { notice: UpdateNotice, status: u16 },
}

pub fn attachment_upload_step(
    cipher_id: &str,
    attachment_id: &str,
    event: AttachmentUploadEvent,
) -> (r: AttachmentUploadAction)
    ensures
        match event {
            AttachmentUploadEvent::Started { storage_enabled } => if storage_enabled {
                r matches AttachmentUploadAction::VerifyToken
            } else {
                r matches AttachmentUploadAction::Fail(e) && e@ == AppErrorSpec::BadRequest(
                    "Attachments are not enabled"@,
                )
            },
            AttachmentUploadEvent::TokenRead { claims } => match claims {
                Err(e0) => r matches AttachmentUploadAction::Fail(e) && e@ == e0@,
                Ok(c) => if c.cipher_id@ != cipher_id@ || c.attachment_id@ != attachment_id@ {
                    r matches AttachmentUploadAction::Fail(e) && e@ == invalid_token_spec()
                } else {
                    r matches AttachmentUploadAction::LoadPending { user_id, context_id }
                        && user_id@ == c.sub@ && opt_view(context_id) == (if c.device@.len()
                        == 0 {
                        None
                    } else {
                        Some(c.device@)
                    })
                },
            },
            AttachmentUploadEvent::PendingRead { user_id: u, context_id: x, pending } => match pending {
                Err(e0) => r matches AttachmentUploadAction::Fail(e) && e@ == e0@,
                Ok((pc, size)) => if pc@ != cipher_id@ {
                    r matches AttachmentUploadAction::Fail(e) && e@ == AppErrorSpec::BadRequest(
                        "Attachment does not belong to cipher"@,
                    )
                } else if size <= 0 {
                    r matches AttachmentUploadAction::Fail(e) && e@ == AppErrorSpec::BadRequest(
                        "Invalid pending attachment size"@,
                    )
                } else {
                    r matches AttachmentUploadAction::ReadContentLength {
                        user_id,
                        context_id,
                        declared_size,
                    } && user_id@ == u@ && opt_view(context_id) == opt_view(x) && declared_size
                        == size
                },
            },
            AttachmentUploadEvent::LengthRead { user_id: u, context_id: x, declared_size: d, content_length } =>
                match content_length {
                Err(e0) => r matches AttachmentUploadAction::Fail(e) && e@ == e0@,
                Ok(n) => if n != d {
                    r matches AttachmentUploadAction::Fail(e) && e@ == AppErrorSpec::BadRequest(
                        size_mismatch_message(int_decimal(n as int), d as int),
                    )
                } else {
                    r matches AttachmentUploadAction::Store { user_id, context_id, key, declared_size }
                        && user_id@ == u@ && opt_view(context_id) == opt_view(x) && key@
                        == cipher_id@ + "/"@ + attachment_id@ && declared_size == d
                },
            },
            AttachmentUploadEvent::Stored { user_id: u, context_id: x, result } => match result {
                Err(e0) => r matches AttachmentUploadAction::Fail(e) && e@ == e0@,
                Ok(_) => r matches AttachmentUploadAction::Finalize { user_id, context_id } && user_id@
                    == u@ && opt_view(context_id) == opt_view(x),
            },
            AttachmentUploadEvent::Finalized { user_id: u, context_id: x, now } => match now {
                Err(e0) => r matches AttachmentUploadAction::Fail(e) && e@ == e0@,
                Ok(t) => r matches AttachmentUploadAction::Finish { notice, status } && status == 201
                    && is_notice(notice, u@, UpdateType::SyncCipherUpdate, cipher_id@, t@, opt_view(x)),
            },
        },
{
    match event {
        AttachmentUploadEvent::Started { storage_enabled } => {
            if storage_enabled {
                AttachmentUploadAction::VerifyToken
            } else {
                AttachmentUploadAction::Fail(bad("Attachments are not enabled"))
            }
        },
        AttachmentUploadEvent::TokenRead { claims } => match claims {
            Err(e) => AttachmentUploadAction::Fail(e),
            Ok(c) => {
                if !str_eq(c.cipher_id.as_str(), cipher_id) || !str_eq(
                    c.attachment_id.as_str(),
                    attachment_id,
                ) {
                    AttachmentUploadAction::Fail(invalid_token())
                } else {
                    let context_id = context_id_for_device(c.device.as_str());
                    AttachmentUploadAction::LoadPending { user_id: c.sub, context_id }
                }
            },
        },
        AttachmentUploadEvent::PendingRead { user_id, context_id, pending } => match pending {
            Err(e) => AttachmentUploadAction::Fail(e),
            Ok((pending_cipher, size)) => match check_pending_attachment(
                pending_cipher.as_str(),
                cipher_id,
                size,
            ) {
                Err(e) => AttachmentUploadAction::Fail(e),
                Ok(()) => AttachmentUploadAction::ReadContentLength {
                    user_id,
                    context_id,
                    declared_size: size,
                },
            },
        },
        AttachmentUploadEvent::LengthRead { user_id, context_id, declared_size, content_length } =>
            match content_length {
            Err(e) => AttachmentUploadAction::Fail(e),
            Ok(n) => match check_upload_size(n, declared_size) {
                Err(e) => AttachmentUploadAction::Fail(e),
                Ok(()) => AttachmentUploadAction::Store {
                    user_id,
                    context_id,
                    key: attachment_storage_key(cipher_id, attachment_id),
                    declared_size,
                },
            },
        },
        AttachmentUploadEvent::Stored { user_id, context_id, result } => match result {
            Err(e) => AttachmentUploadAction::Fail(e),
            Ok(()) => AttachmentUploadAction::Finalize { user_id, context_id },
        },
        AttachmentUploadEvent::Finalized { user_id, context_id, now } => match now {
            Err(e) => AttachmentUploadAction::Fail(e),
            Ok(t) => AttachmentUploadAction::Finish {
                notice: UpdateNotice {
                    user_id,
                    update_type: UpdateType::SyncCipherUpdate,
                    item_id: owned(cipher_id),
                    date: t,
                    context_id,
                },
                status: 201,
            },
        },
    }
}


// ── Attachment download ─────────────────────────────────────────────

/// What the last piece of outside work of an attachment download gave.
pub enum AttachmentDownloadEvent {
    Started { storage_enabled: bool },
    TokenRead { claims: Result<AttachmentClaims, AppError> },
    /// The cipher checked to be the user's, then the attachment's cipher and size.
    AttachmentRead { attachment: Result<(String, i64), AppError> },
}

/// What an attachment download does next.
pub enum AttachmentDownloadAction {
    Fail(AppError),
    VerifyToken,
    /// Check that the cipher is the user's, then fetch the attachment.
    LoadAttachment { user_id: String },
    /// Stream `key` from storage, `fallback_size` its size where the store has none.
    Download { key: String, fallback_size: Option<i64> },
}

pub fn attachment_download_step(
    cipher_id: &str,
    attachment_id: &str,
    event: AttachmentDownloadEvent,
) -> (r: AttachmentDownloadAction)
    ensures
        match event {
            AttachmentDownloadEvent::Started { storage_enabled } => if storage_enabled {
                r matches AttachmentDownloadAction::VerifyToken
            } else {
                r matches AttachmentDownloadAction::Fail(e) && e@ == AppErrorSpec::BadRequest(
                    "Attachments are not enabled"@,
                )
            },
            AttachmentDownloadEvent::TokenRead { claims } => match claims {
                Err(e0) => r matches AttachmentDownloadAction::Fail(e) && e@ == e0@,
                Ok(c) => if c.cipher_id@ != cipher_id@ || c.attachment_id@ != attachment_id@ {
                    r matches AttachmentDownloadAction::Fail(e) && e@ == invalid_token_spec()
                } else {
                    r matches AttachmentDownloadAction::LoadAttachment { user_id } && user_id@
                        == c.sub@
                },
            },
            AttachmentDownloadEvent::AttachmentRead { attachment } => match attachment {
                Err(e0) => r matches AttachmentDownloadAction::Fail(e) && e@ == e0@,
                Ok((ac, size)) => if ac@ != cipher_id@ {
                    r matches AttachmentDownloadAction::Fail(e) && e@ == AppErrorSpec::BadRequest(
                        "Attachment does not belong to cipher"@,
                    )
                } else {
                    r matches AttachmentDownloadAction::Download { key, fallback_size } && key@
                        == cipher_id@ + "/"@ + attachment_id@ && fallback_size == Some(size)
                },
            },
        },
{
    match event {
        AttachmentDownloadEvent::Started { storage_enabled } => {
            if storage_enabled {
                AttachmentDownloadAction::VerifyToken
            } else {
                AttachmentDownloadAction::Fail(bad("Attachments are not enabled"))
            }
        },
        AttachmentDownloadEvent::TokenRead { claims } => match claims {
            Err(e) => AttachmentDownloadAction::Fail(e),
            Ok(c) => {
                if !str_eq(c.cipher_id.as_str(), cipher_id) || !str_eq(
                    c.attachment_id.as_str(),
                    attachment_id,
                ) {
                    AttachmentDownloadAction::Fail(invalid_token())
                } else {
                    AttachmentDownloadAction::LoadAttachment { user_id: c.sub }
                }
            },
        },
        AttachmentDownloadEvent::AttachmentRead { attachment } => match attachment {
            Err(e) => AttachmentDownloadAction::Fail(e),
            Ok((attachment_cipher, size)) => match check_attachment_cipher(
                attachment_cipher.as_str(),
                cipher_id,
            ) {
                Err(e) => AttachmentDownloadAction::Fail(e),
                Ok(()) => AttachmentDownloadAction::Download {
                    key: attachment_storage_key(cipher_id, attachment_id),
                    fallback_size: Some(size),
                },
            },
        },
    }
}

// ── Send upload ─────────────────────────────────────────────────────

/// What the last piece of outside work of a send upload gave.
pub enum SendUploadEvent {
    Started { storage_enabled: bool },
    TokenRead { claims: Result<SendUploadClaims, AppError> },
    /// The user's pending send with this id: its JSON data, where there is one.
    PendingRead { user_id: String, device: String, pending: Result<Option<String>, AppError> },
    LengthRead {
        user_id: String,
        device: String,
        declared_size: i64,
        data: Option<String>,
        content_length: Result<i64, AppError>,
    },
    Stored { user_id: String, device: String, data: Option<String>, result: Result<(), AppError> },
    /// The send finalized with its data and the user touched: its update time.
    Finalized { user_id: String, device: String, updated_at: Result<String, AppError> },
}

/// What a send upload does next.
pub enum SendUploadAction {
    Fail(AppError),
    VerifyToken,
    /// Fetch the user's pending send.
    LoadPending { user_id: String, device: String },
    ReadContentLength { user_id: String, device: String, declared_size: i64, data: Option<String> },
    Store {
        user_id: String,
        device: String,
        data: Option<String>,
        key: String,
        declared_size: i64,
    },
    /// Finalize the send with `data` as its data, and touch the user.
    Finalize { user_id: String, device: String, data: String },
    Finish { notice: UpdateNotice, status: u16 },
}

pub fn send_upload_step(send_id: &str, file_id: &str, event: SendUploadEvent) -> (r: SendUploadAction)
    ensures
        match event {
            SendUploadEvent::Started { storage_enabled } => if storage_enabled {
                r matches SendUploadAction::VerifyToken
            } else {
                r matches SendUploadAction::Fail(e) && e@ == AppErrorSpec::BadRequest(
                    "File storage is not enabled"@,
                )
            },
            SendUploadEvent::TokenRead { claims } => match claims {
                Err(e0) => r matches SendUploadAction::Fail(e) && e@ == e0@,
                Ok(c) => if c.send_id@ != send_id@ || c.file_id@ != file_id@ {
                    r matches SendUploadAction::Fail(e) && e@ == invalid_token_spec()
                } else {
                    r matches SendUploadAction::LoadPending { user_id, device } && user_id@
                        == c.sub@ && device@ == c.device@
                },
            },
            SendUploadEvent::PendingRead { user_id: u, device: d, pending } => match pending {
                Err(e0) => r matches SendUploadAction::Fail(e) && e@ == e0@,
                Ok(None) => r matches SendUploadAction::Fail(e) && e@ == AppErrorSpec::NotFound(
                    "Pending send not found or already uploaded"@,
                ),
                Ok(Some(text)) => match pending_send_data(text@, file_id@) {
                    Err(e0) => r matches SendUploadAction::Fail(e) && e@ == e0,
                    Ok((size, written)) => r matches SendUploadAction::ReadContentLength {
                        user_id,
                        device,
                        declared_size,
                        data,
                    } && user_id@ == u@ && device@ == d@ && declared_size == size && opt_view(data)
                        == written,
                },
            },
            SendUploadEvent::LengthRead { user_id: u, device: d, declared_size: n0, data: w, content_length } =>
                match content_length {
                Err(e0) => r matches SendUploadAction::Fail(e) && e@ == e0@,
                Ok(n) => if n != n0 {
                    r matches SendUploadAction::Fail(e) && e@ == AppErrorSpec::BadRequest(
                        size_mismatch_message(int_decimal(n as int), n0 as int),
                    )
                } else {
                    r matches SendUploadAction::Store { user_id, device, data, key, declared_size }
                        && user_id@ == u@ && device@ == d@ && opt_view(data) == opt_view(w) && key@
                        == "sends/"@ + send_id@ + "/"@ + file_id@ && declared_size == n0
                },
            },
            SendUploadEvent::Stored { user_id: u, device: d, data: w, result } => match result {
                Err(e0) => r matches SendUploadAction::Fail(e) && e@ == e0@,
                Ok(_) => match w {
                    None => r matches SendUploadAction::Fail(e) && e@ == AppErrorSpec::Internal,
                    Some(text) => r matches SendUploadAction::Finalize { user_id, device, data }
                        && user_id@ == u@ && device@ == d@ && data@ == text@,
                },
            },
            SendUploadEvent::Finalized { user_id: u, device: d, updated_at } => match updated_at {
                Err(e0) => r matches SendUploadAction::Fail(e) && e@ == e0@,
                Ok(t) => r matches SendUploadAction::Finish { notice, status } && status == 201
                    && is_notice(notice, u@, UpdateType::SyncSendCreate, send_id@, t@, Some(d@)),
            },
        },
{
    match event {
        SendUploadEvent::Started { storage_enabled } => {
            if storage_enabled {
                SendUploadAction::VerifyToken
            } else {
                SendUploadAction::Fail(bad("File storage is not enabled"))
            }
        },
        SendUploadEvent::TokenRead { claims } => match claims {
            Err(e) => SendUploadAction::Fail(e),
            Ok(c) => {
                if !str_eq(c.send_id.as_str(), send_id) || !str_eq(c.file_id.as_str(), file_id) {
                    SendUploadAction::Fail(invalid_token())
                } else {
                    SendUploadAction::LoadPending { user_id: c.sub, device: c.device }
                }
            },
        },
        SendUploadEvent::PendingRead { user_id, device, pending } => match pending {
            Err(e) => SendUploadAction::Fail(e),
            Ok(None) => SendUploadAction::Fail(
                AppError::NotFound(owned("Pending send not found or already uploaded")),
            ),
            Ok(Some(text)) => match check_pending_send_data(text.as_str(), file_id) {
                Err(e) => SendUploadAction::Fail(e),
                Ok((size, data)) => SendUploadAction::ReadContentLength {
                    user_id,
                    device,
                    declared_size: size,
                    data,
                },
            },
        },
        SendUploadEvent::LengthRead { user_id, device, declared_size, data, content_length } =>
            match content_length {
            Err(e) => SendUploadAction::Fail(e),
            Ok(n) => match check_upload_size(n, declared_size) {
                Err(e) => SendUploadAction::Fail(e),
                Ok(()) => SendUploadAction::Store {
                    user_id,
                    device,
                    data,
                    key: send_storage_key(send_id, file_id),
                    declared_size,
                },
            },
        },
        SendUploadEvent::Stored { user_id, device, data, result } => match result {
            Err(e) => SendUploadAction::Fail(e),
            Ok(()) => match data {
                None => SendUploadAction::Fail(AppError::Internal),
                Some(text) => SendUploadAction::Finalize { user_id, device, data: text },
            },
        },
        SendUploadEvent::Finalized { user_id, device, updated_at } => match updated_at {
            Err(e) => SendUploadAction::Fail(e),
            Ok(t) => SendUploadAction::Finish {
                notice: UpdateNotice {
                    user_id,
                    update_type: UpdateType::SyncSendCreate,
                    item_id: owned(send_id),
                    date: t,
                    context_id: Some(device),
                },
                status: 201,
            },
        },
    }
}

// ── Send download ───────────────────────────────────────────────────

/// What the last piece of outside work of a send download gave.
pub enum SendDownloadEvent {
    Started { storage_enabled: bool },
    /// The verified token's claims; any failure to verify it.
    TokenRead { claims: Result<SendDownloadClaims, AppError> },
    /// The send with this id: its JSON data, where there is one.
    SendRead { send: Result<Option<String>, AppError> },
}

/// What a send download does next.
pub enum SendDownloadAction {
    Fail(AppError),
    VerifyToken,
    LoadSend,
    Download { key: String, fallback_size: Option<i64> },
}

pub open spec fn not_found_spec() -> AppErrorSpec {
    AppErrorSpec::NotFound("Not found"@)
}

/// A send download hides every token failure behind `Not found`.
pub fn send_download_step(send_id: &str, file_id: &str, event: SendDownloadEvent) -> (r:
    SendDownloadAction)
    ensures
        match event {
            SendDownloadEvent::Started { storage_enabled } => if storage_enabled {
                r matches SendDownloadAction::VerifyToken
            } else {
                r matches SendDownloadAction::Fail(e) && e@ == AppErrorSpec::BadRequest(
                    "File storage is not enabled"@,
                )
            },
            SendDownloadEvent::TokenRead { claims } => match claims {
                Err(_) => r matches SendDownloadAction::Fail(e) && e@ == not_found_spec(),
                Ok(c) => if c.send_id@ != send_id@ || c.file_id@ != file_id@ {
                    r matches SendDownloadAction::Fail(e) && e@ == not_found_spec()
                } else {
                    r matches SendDownloadAction::LoadSend
                },
            },
            SendDownloadEvent::SendRead { send } => match send {
                Err(e0) => r matches SendDownloadAction::Fail(e) && e@ == e0@,
                Ok(None) => r matches SendDownloadAction::Fail(e) && e@ == not_found_spec(),
                Ok(Some(text)) => r matches SendDownloadAction::Download { key, fallback_size }
                    && key@ == "sends/"@ + send_id@ + "/"@ + file_id@ && fallback_size == match send_data_fields(
                    text@,
                ) {
                    Some((_, size, _)) => size,
                    None => None,
                },
            },
        },
{
    match event {
        SendDownloadEvent::Started { storage_enabled } => {
            if storage_enabled {
                SendDownloadAction::VerifyToken
            } else {
                SendDownloadAction::Fail(bad("File storage is not enabled"))
            }
        },
        SendDownloadEvent::TokenRead { claims } => match claims {
            Err(_) => SendDownloadAction::Fail(AppError::NotFound(owned("Not found"))),
            Ok(c) => {
                if !str_eq(c.send_id.as_str(), send_id) || !str_eq(c.file_id.as_str(), file_id) {
                    SendDownloadAction::Fail(AppError::NotFound(owned("Not found")))
                } else {
                    SendDownloadAction::LoadSend
                }
            },
        },
        SendDownloadEvent::SendRead { send } => match send {
            Err(e) => SendDownloadAction::Fail(e),
            Ok(None) => SendDownloadAction::Fail(AppError::NotFound(owned("Not found"))),
            Ok(Some(text)) => SendDownloadAction::Download {
                key: send_storage_key(send_id, file_id),
                fallback_size: send_fallback_size(text.as_str()),
            },
        },
    }
}

} // verus!
