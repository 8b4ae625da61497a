//! Streaming file transfers: which requests are streamed, where each one goes,
//! and the checks that decide whether an upload or download proceeds.
use vstd::prelude::*;

use crate::error::{bad, outcome, AppError, AppErrorSpec};
use crate::text::{
    decimal, format_i64, format_u64, int_decimal, opt_str_view, opt_view, owned, parse_i64,
    parse_i64_spec, split_on_slash, split_slash, str_eq, trim_slash, trim_slashes, views,
};

verus! {

/// The request methods that the Workers runtime distinguishes.
#[derive(Debug, Clone, Copy, PartialEq, Eq, Structural)]
pub enum HttpMethod {
    Head,
    Get,
    Post,
    Put,
    Patch,
    Delete,
    Options,
    Connect,
    Trace,
    Report,
}

/// The segments of a path: slashes trimmed from both ends, then split at each slash.
pub open spec fn path_segments(path: Seq<char>) -> Seq<Seq<char>> {
    split_slash(trim_slashes(path))
}

pub open spec fn is_attachment_path(segs: Seq<Seq<char>>, last: Seq<char>) -> bool {
    &&& segs.len() == 6
    &&& segs[0] == "api"@
    &&& segs[1] == "ciphers"@
    &&& segs[3] == "attachment"@
    &&& segs[5] == last
}

pub open spec fn is_send_upload_path(segs: Seq<Seq<char>>) -> bool {
    &&& segs.len() == 6
    &&& segs[0] == "api"@
    &&& segs[1] == "sends"@
    &&& segs[3] == "file"@
    &&& segs[5] == "azure-upload"@
}

pub open spec fn is_send_download_path(segs: Seq<Seq<char>>) -> bool {
    &&& segs.len() == 4
    &&& segs[0] == "api"@
    &&& segs[1] == "sends"@
    &&& segs[2] != "access"@
    &&& segs[2] != "file"@
}

/// The requests that are streamed rather than routed through the API:
/// attachment and send-file uploads (PUT), attachment and send-file downloads (GET).
pub open spec fn is_streaming(method: HttpMethod, segs: Seq<Seq<char>>) -> bool {
    match method {
        HttpMethod::Put => is_attachment_path(segs, "azure-upload"@) || is_send_upload_path(segs),
        HttpMethod::Get => is_attachment_path(segs, "download"@) || is_send_download_path(segs),
        _ => false,
    }
}

/// Where a streamed request goes, with the ids its path names.
#[derive(Debug, Clone, PartialEq, Eq)]
pub enum StreamingRoute {
    AttachmentUpload { cipher_id: String, attachment_id: String },
    AttachmentDownload { cipher_id: String, attachment_id: String },
    SendUpload { send_id: String, file_id: String },
    SendDownload { send_id: String, file_id: String },
    NotFound,
}

/// The model of a [`StreamingRoute`].
pub enum RouteSpec {
    AttachmentUpload(Seq<char>, Seq<char>),
    AttachmentDownload(Seq<char>, Seq<char>),
    SendUpload(Seq<char>, Seq<char>),
    SendDownload(Seq<char>, Seq<char>),
    NotFound,
}

impl View for StreamingRoute {
    type V = RouteSpec;

    open spec fn view(&self) -> RouteSpec {
        match self {
            StreamingRoute::AttachmentUpload { cipher_id, attachment_id } => RouteSpec::AttachmentUpload(
                cipher_id@,
                attachment_id@,
            ),
            StreamingRoute::AttachmentDownload {
                cipher_id,
                attachment_id,
            } => RouteSpec::AttachmentDownload(cipher_id@, attachment_id@),
            StreamingRoute::SendUpload { send_id, file_id } => RouteSpec::SendUpload(
                send_id@,
                file_id@,
            ),
            StreamingRoute::SendDownload { send_id, file_id } => RouteSpec::SendDownload(
                send_id@,
                file_id@,
            ),
            StreamingRoute::NotFound => RouteSpec::NotFound,
        }
    }
}

/// The route of a request, by its method and path segments.
pub open spec fn route(method: HttpMethod, segs: Seq<Seq<char>>) -> RouteSpec {
    if method == HttpMethod::Put && is_attachment_path(segs, "azure-upload"@) {
        RouteSpec::AttachmentUpload(segs[2], segs[4])
    } else if method == HttpMethod::Get && is_attachment_path(segs, "download"@) {
        RouteSpec::AttachmentDownload(segs[2], segs[4])
    } else if method == HttpMethod::Put && is_send_upload_path(segs) {
        RouteSpec::SendUpload(segs[2], segs[4])
    } else if method == HttpMethod::Get && is_send_download_path(segs) {
        RouteSpec::SendDownload(segs[2], segs[3])
    } else {
        RouteSpec::NotFound
    }
}

fn segment_is(segs: &Vec<String>, i: usize, lit: &str) -> (r: bool)
    requires
        i < segs@.len(),
    ensures
        r == (segs@[i as int]@ == lit@),
{
    str_eq(segs[i].as_str(), lit)
}

fn attachment_path(segs: &Vec<String>, last: &str) -> (r: bool)
    ensures
        r == is_attachment_path(views(segs@), last@),
{
    segs.len() == 6 && segment_is(segs, 0, "api") && segment_is(segs, 1, "ciphers") && segment_is(
        segs,
        3,
        "attachment",
    ) && segment_is(segs, 5, last)
}

fn send_upload_path(segs: &Vec<String>) -> (r: bool)
    ensures
        r == is_send_upload_path(views(segs@)),
{
    segs.len() == 6 && segment_is(segs, 0, "api") && segment_is(segs, 1, "sends") && segment_is(
        segs,
        3,
        "file",
    ) && segment_is(segs, 5, "azure-upload")
}

fn send_download_path(segs: &Vec<String>) -> (r: bool)
    ensures
        r == is_send_download_path(views(segs@)),
{
    segs.len() == 4 && segment_is(segs, 0, "api") && segment_is(segs, 1, "sends") && !segment_is(
        segs,
        2,
        "access",
    ) && !segment_is(segs, 2, "file")
}

fn segments(path: &str) -> (r: Vec<String>)
    ensures
        views(r@) == path_segments(path@),
{
    split_on_slash(trim_slash(path))
}

/// Whether a request is one of the streamed transfers.
pub fn is_streaming_route(method: &HttpMethod, path: &str) -> (r: bool)
    ensures
        r == is_streaming(*method, path_segments(path@)),
        r ==> path_segments(path@).len() == 4 || path_segments(path@).len() == 6,
        r && path_segments(path@).len() == 4 ==> *method == HttpMethod::Get,
{
    let segs = segments(path);
    match method {
        HttpMethod::Put => attachment_path(&segs, "azure-upload") || send_upload_path(&segs),
        HttpMethod::Get => attachment_path(&segs, "download") || send_download_path(&segs),
        _ => false,
    }
}

/// Where a streamed request goes.
pub fn route_streaming(method: &HttpMethod, path: &str) -> (r: StreamingRoute)
    ensures
        r@ == route(*method, path_segments(path@)),
        r is SendDownload ==> path_segments(path@).len() == 4 && *method == HttpMethod::Get,
        r matches StreamingRoute::SendDownload { send_id, file_id } ==> send_id@ == path_segments(
            path@,
        )[2] && file_id@ == path_segments(path@)[3],
{
    let segs = segments(path);
    let m = *method;
    if m == HttpMethod::Put && attachment_path(&segs, "azure-upload") {
        StreamingRoute::AttachmentUpload {
            cipher_id: owned(segs[2].as_str()),
            attachment_id: owned(segs[4].as_str()),
        }
    } else if m == HttpMethod::Get && attachment_path(&segs, "download") {
        StreamingRoute::AttachmentDownload {
            cipher_id: owned(segs[2].as_str()),
            attachment_id: owned(segs[4].as_str()),
        }
    } else if m == HttpMethod::Put && send_upload_path(&segs) {
        StreamingRoute::SendUpload {
            send_id: owned(segs[2].as_str()),
            file_id: owned(segs[4].as_str()),
        }
    } else if m == HttpMethod::Get && send_download_path(&segs) {
        StreamingRoute::SendDownload {
            send_id: owned(segs[2].as_str()),
            file_id: owned(segs[3].as_str()),
        }
    } else {
        StreamingRoute::NotFound
    }
}

/// The streamed requests are exactly those that have a route: every request
/// that `is_streaming_route` accepts is handled, and every other one is not found.
pub proof fn lemma_streaming_iff_routed(method: HttpMethod, path: Seq<char>)
    ensures
        is_streaming(method, path_segments(path)) <==> !(route(
            method,
            path_segments(path),
        ) is NotFound),
{
}



/// A GET request is a send-file download exactly when its path has four
/// segments: `api`, `sends`, a send id other than `access` and `file`, and a
/// file id; it is routed with those two ids.
pub proof fn lemma_send_download_route(
    method: HttpMethod,
    segs: Seq<Seq<char>>,
    send_id: Seq<char>,
    file_id: Seq<char>,
)
    ensures
        route(method, segs) == RouteSpec::SendDownload(send_id, file_id) <==> {
            &&& method == HttpMethod::Get
            &&& segs.len() == 4
            &&& segs[0] == "api"@
            &&& segs[1] == "sends"@
            &&& segs[2] != "access"@
            &&& segs[2] != "file"@
            &&& send_id == segs[2]
            &&& file_id == segs[3]
        },
{
}

/// The other streamed routes, by their paths: a PUT to
/// `api/ciphers/{cipher}/attachment/{attachment}/azure-upload` uploads an
/// attachment, a GET of `api/ciphers/{cipher}/attachment/{attachment}/download`
/// downloads one, and a PUT to `api/sends/{send}/file/{file}/azure-upload`
/// uploads a send's file; each is routed with the two ids its path names.
pub proof fn lemma_six_segment_routes(
    method: HttpMethod,
    segs: Seq<Seq<char>>,
    first: Seq<char>,
    second: Seq<char>,
)
    ensures
        route(method, segs) == RouteSpec::AttachmentUpload(first, second) <==> {
            &&& method == HttpMethod::Put
            &&& segs.len() == 6
            &&& segs[0] == "api"@
            &&& segs[1] == "ciphers"@
            &&& segs[3] == "attachment"@
            &&& segs[5] == "azure-upload"@
            &&& first == segs[2]
            &&& second == segs[4]
        },
        route(method, segs) == RouteSpec::AttachmentDownload(first, second) <==> {
            &&& method == HttpMethod::Get
            &&& segs.len() == 6
            &&& segs[0] == "api"@
            &&& segs[1] == "ciphers"@
            &&& segs[3] == "attachment"@
            &&& segs[5] == "download"@
            &&& first == segs[2]
            &&& second == segs[4]
        },
        route(method, segs) == RouteSpec::SendUpload(first, second) <==> {
            &&& method == HttpMethod::Put
            &&& segs.len() == 6
            &&& segs[0] == "api"@
            &&& segs[1] == "sends"@
            &&& segs[3] == "file"@
            &&& segs[5] == "azure-upload"@
            &&& first == segs[2]
            &&& second == segs[4]
        },
{
    reveal_strlit("ciphers");
    reveal_strlit("sends");
    assert("ciphers"@[0] != "sends"@[0]);
}

/// Only paths of four or six segments are streamed: PUT uploads to
/// `api/ciphers/{id}/attachment/{id}/azure-upload` and
/// `api/sends/{id}/file/{id}/azure-upload`; GET downloads from
/// `api/ciphers/{id}/attachment/{id}/download` and `api/sends/{send}/{file}`
/// where the send is neither `access` nor `file`. No other method is streamed.
pub proof fn lemma_streamed_paths(method: HttpMethod, segs: Seq<Seq<char>>)
    ensures
        is_streaming(method, segs) ==> segs.len() == 4 || segs.len() == 6,
        is_streaming(method, segs) ==> method == HttpMethod::Get || method == HttpMethod::Put,
        method == HttpMethod::Get ==> (is_streaming(method, segs) <==> {
            ||| (segs.len() == 6 && segs[0] == "api"@ && segs[1] == "ciphers"@ && segs[3]
                == "attachment"@ && segs[5] == "download"@)
            ||| (segs.len() == 4 && segs[0] == "api"@ && segs[1] == "sends"@ && segs[2]
                != "access"@ && segs[2] != "file"@)
        }),
        method == HttpMethod::Put ==> (is_streaming(method, segs) <==> {
            ||| (segs.len() == 6 && segs[0] == "api"@ && segs[1] == "ciphers"@ && segs[3]
                == "attachment"@ && segs[5] == "azure-upload"@)
            ||| (segs.len() == 6 && segs[0] == "api"@ && segs[1] == "sends"@ && segs[3]
                == "file"@ && segs[5] == "azure-upload"@)
        }),
{
}

// ── Checks on transfers ─────────────────────────────────────────────

pub open spec fn invalid_token() -> AppErrorSpec {
    AppErrorSpec::Unauthorized("Invalid token"@)
}

pub open spec fn not_found_spec() -> AppErrorSpec {
    AppErrorSpec::NotFound("Not found"@)
}

/// The `token` query parameter that an attachment or send upload needs.
pub fn required_token(token: Option<String>) -> (r: Result<String, AppError>)
    ensures
        match token {
            Some(t) => r matches Ok(s) && s@ == t@,
            None => r matches Err(e) && e@ == AppErrorSpec::BadRequest(
                "Missing query parameter: token"@,
            ),
        },
{
    match token {
        Some(t) => Ok(t),
        None => Err(bad("Missing query parameter: token")),
    }
}

/// The token of a transfer must name the item that the path names.
pub fn check_token_claims(
    claimed_parent: &str,
    claimed_item: &str,
    parent_id: &str,
    item_id: &str,
) -> (r: Result<(), AppError>)
    ensures
        outcome(r) == (if claimed_parent@ == parent_id@ && claimed_item@ == item_id@ {
            Ok::<(), AppErrorSpec>(())
        } else {
            Err(invalid_token())
        }),
{
    if !str_eq(claimed_parent, parent_id) || !str_eq(claimed_item, item_id) {
        Err(AppError::Unauthorized(owned("Invalid token")))
    } else {
        Ok(())
    }
}

/// A send download whose token does not name the file is answered as not found.
pub fn check_send_download_claims(
    claimed_send: &str,
    claimed_file: &str,
    send_id: &str,
    file_id: &str,
) -> (r: Result<(), AppError>)
    ensures
        outcome(r) == (if claimed_send@ == send_id@ && claimed_file@ == file_id@ {
            Ok::<(), AppErrorSpec>(())
        } else {
            Err(not_found_spec())
        }),
{
    if !str_eq(claimed_send, send_id) || !str_eq(claimed_file, file_id) {
        Err(AppError::NotFound(owned("Not found")))
    } else {
        Ok(())
    }
}

/// The device of a token as the context of a notification: none where it is empty.
pub fn context_id_for_device(device: &str) -> (r: Option<String>)
    ensures
        opt_view(r) == (if device@.len() == 0 {
            None
        } else {
            Some(device@)
        }),
{
    if device.is_empty() {
        None
    } else {
        Some(owned(device))
    }
}

/// An attachment must belong to the cipher that the path names.
pub fn check_attachment_cipher(attachment_cipher_id: &str, cipher_id: &str) -> (r: Result<
    (),
    AppError,
>)
    ensures
        outcome(r) == (if attachment_cipher_id@ == cipher_id@ {
            Ok::<(), AppErrorSpec>(())
        } else {
            Err(AppErrorSpec::BadRequest("Attachment does not belong to cipher"@))
        }),
{
    if str_eq(attachment_cipher_id, cipher_id) {
        Ok(())
    } else {
        Err(bad("Attachment does not belong to cipher"))
    }
}

/// A pending attachment must belong to the cipher and declare a positive size.
pub fn check_pending_attachment(pending_cipher_id: &str, cipher_id: &str, declared_size: i64) -> (r:
    Result<(), AppError>)
    ensures
        outcome(r) == (if pending_cipher_id@ != cipher_id@ {
            Err(AppErrorSpec::BadRequest("Attachment does not belong to cipher"@))
        } else if declared_size <= 0 {
            Err(AppErrorSpec::BadRequest("Invalid pending attachment size"@))
        } else {
            Ok::<(), AppErrorSpec>(())
        }),
{
    check_attachment_cipher(pending_cipher_id, cipher_id)?;
    if declared_size <= 0 {
        return Err(bad("Invalid pending attachment size"));
    }
    Ok(())
}

/// The message of an upload whose size is not the declared one.
pub open spec fn size_mismatch_message(uploaded: Seq<char>, declared: int) -> Seq<char> {
    "Uploaded size ("@ + uploaded + ") does not match declared size ("@ + int_decimal(declared)
        + ")"@
}

fn size_mismatch(uploaded: String, declared: i64) -> (r: AppError)
    ensures
        r@ == AppErrorSpec::BadRequest(size_mismatch_message(uploaded@, declared as int)),
{
    let mut msg = owned("Uploaded size (");
    msg.append(uploaded.as_str());
    msg.append(") does not match declared size (");
    let d = format_i64(declared);
    msg.append(d.as_str());
    msg.append(")");
    AppError::BadRequest(msg)
}

/// The body's announced length must be the declared size.
pub fn check_upload_size(content_length: i64, declared_size: i64) -> (r: Result<(), AppError>)
    ensures
        outcome(r) == (if content_length == declared_size {
            Ok::<(), AppErrorSpec>(())
        } else {
            Err(
                AppErrorSpec::BadRequest(
                    size_mismatch_message(int_decimal(content_length as int), declared_size as int),
                ),
            )
        }),
{
    if content_length != declared_size {
        return Err(size_mismatch(format_i64(content_length), declared_size));
    }
    Ok(())
}

/// The size that the store reports of an upload must be the declared size
/// (compared as `declared_size as u64`).
pub fn check_stored_size(stored_size: u64, declared_size: i64) -> (r: Result<(), AppError>)
    ensures
        outcome(r) == (if stored_size == declared_size as u64 {
            Ok::<(), AppErrorSpec>(())
        } else {
            Err(
                AppErrorSpec::BadRequest(
                    size_mismatch_message(decimal(stored_size as nat), declared_size as int),
                ),
            )
        }),
{
    if stored_size != declared_size as u64 {
        return Err(size_mismatch(format_u64(stored_size), declared_size));
    }
    Ok(())
}

/// The outcome of checking a pending send against the file that is uploaded.
pub open spec fn pending_send_file(
    pending_file_id: Option<Seq<char>>,
    pending_size: Option<i64>,
    file_id: Seq<char>,
) -> Result<i64, AppErrorSpec> {
    match pending_file_id {
        None => Err(AppErrorSpec::BadRequest("Missing file ID in pending send data"@)),
        Some(id) => if id != file_id {
            Err(AppErrorSpec::BadRequest("File ID mismatch"@))
        } else {
            match pending_size {
                Some(size) => if size < 0 {
                    Err(AppErrorSpec::BadRequest("Invalid declared file size in pending send"@))
                } else {
                    Ok(size)
                },
                None => Err(AppErrorSpec::BadRequest("Invalid declared file size in pending send"@)),
            }
        },
    }
}

/// A pending send whose `id` is the uploaded file's id and whose `size` is an
/// integer `n >= 0` is accepted with `n` as the declared size, whatever `n`
/// is; a missing or different id, or a missing or negative size, is refused.
pub proof fn lemma_pending_send_file_accepts(
    pending_file_id: Option<Seq<char>>,
    pending_size: Option<i64>,
    file_id: Seq<char>,
    n: i64,
)
    ensures
        pending_file_id == Some(file_id) && pending_size == Some(n) && n >= 0 ==> pending_send_file(
            pending_file_id,
            pending_size,
            file_id,
        ) == Ok::<i64, AppErrorSpec>(n),
        pending_send_file(pending_file_id, pending_size, file_id) is Ok <==> {
            &&& pending_file_id == Some(file_id)
            &&& pending_size is Some
            &&& pending_size->0 >= 0
        },
{
}

/// Pending send data that reads as JSON with the uploaded file's `id` and an
/// integer `size` of `n >= 0` is accepted with `n`, and its data written back.
pub proof fn lemma_pending_send_data_accepts(
    data: Seq<char>,
    file_id: Seq<char>,
    n: i64,
    text: Option<Seq<char>>,
)
    requires
        send_data_fields(data) == Some((Some(file_id), Some(n), text)),
        n >= 0,
    ensures
        pending_send_data(data, file_id) == Ok::<(i64, Option<Seq<char>>), AppErrorSpec>((n, text)),
{
    lemma_pending_send_file_accepts(Some(file_id), Some(n), file_id, n);
}

/// Checks a pending send's `id` (where it is a string) and `size` (where it
/// is an integer) against the uploaded file: the declared size, or why not.
pub fn check_pending_send_file(
    pending_file_id: Option<&str>,
    pending_size: Option<i64>,
    file_id: &str,
) -> (r: Result<i64, AppError>)
    ensures
        match r {
            Ok(n) => pending_send_file(opt_str_view(pending_file_id), pending_size, file_id@)
                == Ok::<i64, AppErrorSpec>(n),
            Err(e) => pending_send_file(opt_str_view(pending_file_id), pending_size, file_id@)
                == Err::<i64, AppErrorSpec>(e@),
        },
        r is Ok <==> (opt_str_view(pending_file_id) == Some(file_id@) && pending_size is Some
            && pending_size->0 >= 0),
        r is Ok ==> r->Ok_0 == pending_size->0,
{
    let id = match pending_file_id {
        Some(id) => id,
        None => {
            return Err(bad("Missing file ID in pending send data"));
        },
    };
    if !str_eq(id, file_id) {
        return Err(bad("File ID mismatch"));
    }
    match pending_size {
        Some(size) => if size < 0 {
            Err(bad("Invalid declared file size in pending send"))
        } else {
            Ok(size)
        },
        None => Err(bad("Invalid declared file size in pending send")),
    }
}

/// Where an attachment is stored: `{cipher_id}/{attachment_id}`.
pub fn attachment_storage_key(cipher_id: &str, attachment_id: &str) -> (r: String)
    ensures
        r@ == cipher_id@ + "/"@ + attachment_id@,
{
    let mut key = owned(cipher_id);
    key.append("/");
    key.append(attachment_id);
    key
}

/// Where a send's file is stored: `sends/{send_id}/{file_id}`.
pub fn send_storage_key(send_id: &str, file_id: &str) -> (r: String)
    ensures
        r@ == "sends/"@ + send_id@ + "/"@ + file_id@,
{
    let mut key = owned("sends/");
    key.append(send_id);
    key.append("/");
    key.append(file_id);
    key
}

/// The content type of a download: the stored one, or `application/octet-stream`.
pub fn download_content_type(stored: Option<String>) -> (r: String)
    ensures
        r@ == match opt_view(stored) {
            Some(ct) => ct,
            None => "application/octet-stream"@,
        },
{
    match stored {
        Some(ct) => ct,
        None => owned("application/octet-stream"),
    }
}

/// The `content-length` of a download from the key-value store: the size in
/// the stored metadata, else the fallback; none where that is absent or negative.
pub fn kv_content_length(metadata_size: Option<i64>, fallback_size: Option<i64>) -> (r: Option<
    String,
>)
    ensures
        opt_view(r) == match (if metadata_size is Some {
            metadata_size
        } else {
            fallback_size
        }) {
            Some(s) => if s >= 0 {
                Some(int_decimal(s as int))
            } else {
                None
            },
            None => None,
        },
{
    let size = match metadata_size {
        Some(s) => Some(s),
        None => fallback_size,
    };
    match size {
        Some(s) => if s >= 0 {
            Some(format_i64(s))
        } else {
            None
        },
        None => None,
    }
}

/// Reads a `Content-Length` header's text as an `i64`.
pub fn parse_content_length_value(raw: Option<&str>) -> (r: Result<i64, AppError>)
    ensures
        match raw {
            None => r matches Err(e) && e@ == AppErrorSpec::BadRequest(
                "Missing Content-Length header"@,
            ),
            Some(s) => match parse_i64_spec(s@) {
                Some(n) => r == Ok::<i64, AppError>(n),
                None => r matches Err(e) && e@ == AppErrorSpec::BadRequest(
                    "Invalid Content-Length header"@,
                ),
            },
        },
{
    let val = match raw {
        Some(v) => v,
        None => {
            return Err(bad("Missing Content-Length header"));
        },
    };
    match parse_i64(val) {
        Some(n) => Ok(n),
        None => Err(bad("Invalid Content-Length header")),
    }
}


// ── Sends' JSON data ────────────────────────────────────────────────

/// What serde_json reads from a send's `data`: `None` where the text is not
/// JSON; else the `id` member where it is a string, the `size` member where it
/// is an integer that fits an `i64`, and the value written back out as JSON
/// (`None` where that fails).
pub uninterp spec fn send_data_fields(data: Seq<char>) -> Option<
    (Option<Seq<char>>, Option<i64>, Option<Seq<char>>),
>;

/// `serde_json::from_str::<serde_json::Value>`, read back through
/// `get("id").and_then(as_str)`, `get("size").and_then(as_i64)` and
/// `serde_json::to_string`: claims that the result is a function of the text alone.
#[verifier::external_body]
fn read_send_data(data: &str) -> (r: Option<(Option<String>, Option<i64>, Option<String>)>)
    ensures
        match r {
            Some((id, size, text)) => send_data_fields(data@) == Some(
                (opt_view(id), size, opt_view(text)),
            ),
            None => send_data_fields(data@) is None,
        },
{
    match serde_json::from_str::<serde_json::Value>(data) {
        Ok(value) => Some((
            value.get("id").and_then(|v| v.as_str()).map(|s| s.to_string()),
            value.get("size").and_then(|v| v.as_i64()),
            serde_json::to_string(&value).ok(),
        )),
        Err(_) => None,
    }
}

/// A pending send checked against the uploaded file: its declared size and
/// its data as it is written back, or why the upload is refused.
pub open spec fn pending_send_data(data: Seq<char>, file_id: Seq<char>) -> Result<
    (i64, Option<Seq<char>>),
    AppErrorSpec,
> {
    match send_data_fields(data) {
        None => Err(AppErrorSpec::BadRequest("Invalid pending send data"@)),
        Some((id, size, text)) => match pending_send_file(id, size, file_id) {
            Ok(n) => Ok((n, text)),
            Err(e) => Err(e),
        },
    }
}

/// Reads a pending send's data and checks it against the uploaded file: the
/// declared size and the data written back out.
pub fn check_pending_send_data(data: &str, file_id: &str) -> (r: Result<(i64, Option<String>), AppError>)
    ensures
        match r {
            Ok((n, text)) => pending_send_data(data@, file_id@) == Ok::<
                (i64, Option<Seq<char>>),
                AppErrorSpec,
            >((n, opt_view(text))),
            Err(e) => pending_send_data(data@, file_id@) == Err::<
                (i64, Option<Seq<char>>),
                AppErrorSpec,
            >(e@),
        },
{
    match read_send_data(data) {
        None => Err(bad("Invalid pending send data")),
        Some((id, size, text)) => {
            let id_ref: Option<&str> = match &id {
                Some(s) => Some(s.as_str()),
                None => None,
            };
            assert(opt_str_view(id_ref) == opt_view(id));
            match check_pending_send_file(id_ref, size, file_id) {
                Ok(n) => Ok((n, text)),
                Err(e) => Err(e),
            }
        },
    }
}

/// The size that a send's data declares, where it is JSON with an integer `size`.
pub fn send_fallback_size(data: &str) -> (r: Option<i64>)
    ensures
        r == match send_data_fields(data@) {
            Some((_, size, _)) => size,
            None => None,
        },
{
    match read_send_data(data) {
        Some((_, size, _)) => size,
        None => None,
    }
}

// ── Query parameters ────────────────────────────────────────────────

/// The name/value pairs that `form_urlencoded::parse` (what `Url::query_pairs`
/// uses) decodes from a query string, in order.
pub uninterp spec fn url_query_pairs(query: Seq<char>) -> Seq<(Seq<char>, Seq<char>)>;

pub open spec fn pair_views(v: Seq<(String, String)>) -> Seq<(Seq<char>, Seq<char>)> {
    v.map_values(|p: (String, String)| (p.0@, p.1@))
}

/// `form_urlencoded::parse` on a query string, the decoded pairs collected:
/// claims that they are a function of the query alone.
#[verifier::external_body]
fn decode_query(query: &str) -> (r: Vec<(String, String)>)
    ensures
        pair_views(r@) == url_query_pairs(query@),
{
    worker::url::form_urlencoded::parse(query.as_bytes())
        .map(|(k, v)| (k.into_owned(), v.into_owned()))
        .collect()
}

/// The value of the first pair named `key`.
pub open spec fn first_value(pairs: Seq<(Seq<char>, Seq<char>)>, key: Seq<char>) -> Option<Seq<char>>
    decreases pairs.len(),
{
    if pairs.len() == 0 {
        None
    } else if pairs[0].0 == key {
        Some(pairs[0].1)
    } else {
        first_value(pairs.drop_first(), key)
    }
}

/// The decoded value of the first query parameter named `key`.
pub fn query_param(query: &str, key: &str) -> (r: Option<String>)
    ensures
        opt_view(r) == first_value(url_query_pairs(query@), key@),
{
    let pairs = decode_query(query);
    let ghost all = pair_views(pairs@);
    let n = pairs.len();
    assert(all.skip(0) =~= all);
    for i in 0..n
        invariant
            n == pairs@.len(),
            all == pair_views(pairs@),
            all == url_query_pairs(query@),
            first_value(all, key@) == first_value(all.skip(i as int), key@),
    {
        assert(all.skip(i as int)[0] == (pairs@[i as int].0@, pairs@[i as int].1@));
        assert(all.skip(i as int).drop_first() =~= all.skip(i + 1));
        if str_eq(pairs[i].0.as_str(), key) {
            return Some(owned(pairs[i].1.as_str()));
        }
    }
    None
}

} // verus!
