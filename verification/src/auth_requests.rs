//! Login with a device: the request bodies and the decisions that the
//! `/api/auth-requests` endpoints take between their lookups.
use vstd::prelude::*;

use crate::error::{bad_request, missing_auth_request, outcome, AppError, AppErrorSpec};
use crate::notifications::UpdateType;
use crate::text::{opt_view, owned, str_eq};

verus! {

/// The body of `POST /api/auth-requests`.
#[derive(Debug, Clone, PartialEq, Eq)]
pub struct CreateAuthRequest {
    pub access_code: String,
    pub device_identifier: String,
    pub email: String,
    pub public_key: String,
}

/// The body of `PUT /api/auth-requests/{id}`.
#[derive(Debug, Clone, PartialEq, Eq)]
pub struct UpdateAuthRequest {
    pub device_identifier: String,
    pub key: String,
    pub master_password_hash: Option<String>,
    pub request_approved: bool,
}

/// The query of `GET /api/auth-requests/{id}/response`.
#[derive(Debug, Clone, PartialEq, Eq)]
pub struct AuthRequestResponseQuery {
    pub code: String,
}

/// A lookup that must find something: its result, or the missing-request error.
pub fn found_or_bad_request<T>(found: Option<T>) -> (r: Result<T, AppError>)
    ensures
        match found {
            Some(x) => r matches Ok(y) && y == x,
            None => r matches Err(e) && e@ == missing_auth_request(),
        },
{
    match found {
        Some(x) => Ok(x),
        None => Err(bad_request()),
    }
}

/// A new login request must come from a known device of the user, of the
/// type that the request's headers give.
pub fn check_requesting_device(device_type: Option<i32>, request_device_type: i32) -> (r: Result<
    (),
    AppError,
>)
    ensures
        outcome(r) == (if device_type == Some(request_device_type) {
            Ok::<(), AppErrorSpec>(())
        } else {
            Err(missing_auth_request())
        }),
{
    match device_type {
        Some(t) => if t == request_device_type {
            Ok(())
        } else {
            Err(bad_request())
        },
        None => Err(bad_request()),
    }
}

/// What an answer does to a login request.
#[derive(Debug, Clone, PartialEq, Eq)]
pub enum AuthRequestDecision {
    /// Approve it, storing the encrypted key, the optional master password
    /// hash and the approving device.
    Approve { enc_key: String, master_password_hash: Option<String>, response_device_id: String },
    /// Deny it: the request is deleted.
    Deny,
}

pub open spec fn already_answered_error() -> AppErrorSpec {
    AppErrorSpec::BadRequest("An authentication request with the same device already exists"@)
}

/// Decides an answer to a login request: the answering device must be the
/// token's device, and the request must not be answered yet.
pub fn decide_auth_request_update(
    already_answered: bool,
    claims_device: &str,
    payload: UpdateAuthRequest,
) -> (r: Result<AuthRequestDecision, AppError>)
    ensures
        claims_device@ != payload.device_identifier@ ==> (r matches Err(e) && e@
            == missing_auth_request()),
        claims_device@ == payload.device_identifier@ && already_answered ==> (r matches Err(e)
            && e@ == already_answered_error()),
        claims_device@ == payload.device_identifier@ && !already_answered
            && payload.request_approved ==> (r matches Ok(
            AuthRequestDecision::Approve { enc_key, master_password_hash, response_device_id },
        ) && enc_key@ == payload.key@ && opt_view(master_password_hash) == opt_view(
            payload.master_password_hash,
        ) && response_device_id@ == payload.device_identifier@),
        claims_device@ == payload.device_identifier@ && !already_answered
            && !payload.request_approved ==> r matches Ok(AuthRequestDecision::Deny),
{
    if !str_eq(claims_device, payload.device_identifier.as_str()) {
        return Err(bad_request());
    }
    if already_answered {
        return Err(
            AppError::BadRequest(
                owned("An authentication request with the same device already exists"),
            ),
        );
    }
    if payload.request_approved {
        Ok(
            AuthRequestDecision::Approve {
                enc_key: payload.key,
                master_password_hash: payload.master_password_hash,
                response_device_id: payload.device_identifier,
            },
        )
    } else {
        Ok(AuthRequestDecision::Deny)
    }
}

/// Only the device that made a login request, from the same address and
/// with its access code, may read the answer.
pub fn check_auth_request_response(
    stored_device_type: i32,
    stored_ip: &str,
    request_device_type: i32,
    request_ip: &str,
    access_code_matches: bool,
) -> (r: Result<(), AppError>)
    ensures
        outcome(r) == (if stored_device_type == request_device_type && stored_ip@ == request_ip@
            && access_code_matches {
            Ok::<(), AppErrorSpec>(())
        } else {
            Err(missing_auth_request())
        }),
{
    if stored_device_type != request_device_type || !str_eq(stored_ip, request_ip)
        || !access_code_matches {
        return Err(bad_request());
    }
    Ok(())
}


// ── Step functions of the handlers ──────────────────────────────────

/// The lower-case form that `str::to_lowercase` gives (Unicode case mapping).
pub uninterp spec fn unicode_lowercase(s: Seq<char>) -> Seq<char>;

/// `str::to_lowercase`: claims that the result is a function of the text alone.
#[verifier::external_body]
fn to_lowercase(s: &str) -> (r: String)
    ensures
        r@ == unicode_lowercase(s@),
{
    s.to_lowercase()
}

/// A login request to store.
#[derive(Debug, Clone, PartialEq, Eq)]
pub struct NewAuthRequest {
    pub user_id: String,
    pub device_identifier: String,
    pub device_type: i32,
    pub request_ip: String,
    pub access_code: String,
    pub public_key: String,
}

/// A change to a login request to publish to its owner's clients.
#[derive(Debug, Clone, PartialEq, Eq)]
pub struct AuthNotice {
    pub user_id: String,
    pub update_type: UpdateType,
    pub auth_request_id: String,
    pub context_id: Option<String>,
}

/// The answer to a login request to publish to the anonymous client that
/// made it, which listens under the request's id.
#[derive(Debug, Clone, PartialEq, Eq)]
pub struct AnonymousNotice {
    pub token: String,
    pub user_id: String,
    pub auth_request_id: String,
}

/// What the last piece of outside work of creating a login request gave.
pub enum CreateAuthRequestEvent {
    Started { payload: CreateAuthRequest },
    /// The user with the lower-cased email, where there is one.
    UserFound { payload: CreateAuthRequest, user: Result<Option<String>, AppError> },
    /// The type of the user's device with the payload's identifier, where
    /// there is one, and what the request's headers say of the client.
    DeviceFound {
        payload: CreateAuthRequest,
        user_id: String,
        device_type: Result<Option<i32>, AppError>,
        request_device_type: i32,
        request_ip: String,
    },
    /// The request stored under `auth_request_id`.
    Inserted {
        user_id: String,
        auth_request_id: String,
        device_identifier: String,
        result: Result<(), AppError>,
    },
}

/// What creating a login request does next.
pub enum CreateAuthRequestAction {
    Fail(AppError),
    FindUser { email: String },
    FindDevice { device_identifier: String, user_id: String },
    Insert { request: NewAuthRequest },
    /// Publish the notice and answer with the stored request.
    Finish { notice: AuthNotice },
}

pub fn create_auth_request_step(event: CreateAuthRequestEvent) -> (r: CreateAuthRequestAction)
    ensures
        match event {
            CreateAuthRequestEvent::Started { payload } => r matches CreateAuthRequestAction::FindUser {
                email,
            } && email@ == unicode_lowercase(payload.email@),
            CreateAuthRequestEvent::UserFound { payload, user } => match user {
                Err(e0) => r matches CreateAuthRequestAction::Fail(e) && e@ == e0@,
                Ok(None) => r matches CreateAuthRequestAction::Fail(e) && e@ == missing_auth_request(),
                Ok(Some(u)) => r matches CreateAuthRequestAction::FindDevice {
                    device_identifier,
                    user_id,
                } && device_identifier@ == payload.device_identifier@ && user_id@ == u@,
            },
            CreateAuthRequestEvent::DeviceFound {
                payload,
                user_id: u,
                device_type,
                request_device_type: t,
                request_ip: ip,
            } => match device_type {
                Err(e0) => r matches CreateAuthRequestAction::Fail(e) && e@ == e0@,
                Ok(found) => if found != Some(t) {
                    r matches CreateAuthRequestAction::Fail(e) && e@ == missing_auth_request()
                } else {
                    r matches CreateAuthRequestAction::Insert { request } && request.user_id@ == u@
                        && request.device_identifier@ == payload.device_identifier@
                        && request.device_type == t && request.request_ip@ == ip@
                        && request.access_code@ == payload.access_code@ && request.public_key@
                        == payload.public_key@
                },
            },
            CreateAuthRequestEvent::Inserted { user_id: u, auth_request_id: id, device_identifier: d, result } =>
                match result {
                Err(e0) => r matches CreateAuthRequestAction::Fail(e) && e@ == e0@,
                Ok(_) => r matches CreateAuthRequestAction::Finish { notice } && notice.user_id@ == u@
                    && notice.update_type == UpdateType::AuthRequest && notice.auth_request_id@
                    == id@ && opt_view(notice.context_id) == Some(d@),
            },
        },
{
    match event {
        CreateAuthRequestEvent::Started { payload } => CreateAuthRequestAction::FindUser {
            email: to_lowercase(payload.email.as_str()),
        },
        CreateAuthRequestEvent::UserFound { payload, user } => match user {
            Err(e) => CreateAuthRequestAction::Fail(e),
            Ok(None) => CreateAuthRequestAction::Fail(bad_request()),
            Ok(Some(user_id)) => CreateAuthRequestAction::FindDevice {
                device_identifier: payload.device_identifier,
                user_id,
            },
        },
        CreateAuthRequestEvent::DeviceFound {
            payload,
            user_id,
            device_type,
            request_device_type,
            request_ip,
        } => match device_type {
            Err(e) => CreateAuthRequestAction::Fail(e),
            Ok(found) => match check_requesting_device(found, request_device_type) {
                Err(e) => CreateAuthRequestAction::Fail(e),
                Ok(()) => CreateAuthRequestAction::Insert {
                    request: NewAuthRequest {
                        user_id,
                        device_identifier: payload.device_identifier,
                        device_type: request_device_type,
                        request_ip,
                        access_code: payload.access_code,
                        public_key: payload.public_key,
                    },
                },
            },
        },
        CreateAuthRequestEvent::Inserted { user_id, auth_request_id, device_identifier, result } =>
            match result {
            Err(e) => CreateAuthRequestAction::Fail(e),
            Ok(()) => CreateAuthRequestAction::Finish {
                notice: AuthNotice {
                    user_id,
                    update_type: UpdateType::AuthRequest,
                    auth_request_id,
                    context_id: Some(device_identifier),
                },
            },
        },
    }
}

/// What the store holds of a login request that an answer needs.
#[derive(Debug, Clone, PartialEq, Eq)]
pub struct StoredAuthRequest {
    pub id: String,
    pub user_id: String,
    /// Whether it was approved, where it was answered.
    pub approved: Option<bool>,
}

/// What the last piece of outside work of answering a login request gave.
pub enum AnswerAuthRequestEvent {
    /// The request with this id owned by the token's user, where there is one;
    /// the token's device, the answer, and the time now as stored.
    Found {
        found: Result<Option<StoredAuthRequest>, AppError>,
        claims_device: String,
        payload: UpdateAuthRequest,
        now: String,
    },
    /// The approval stored.
    Approved {
        request_id: String,
        user_id: String,
        claims_device: String,
        result: Result<(), AppError>,
    },
    /// The denied request deleted.
    Deleted { result: Result<(), AppError> },
}

/// What answering a login request does next.
pub enum AnswerAuthRequestAction {
    Fail(AppError),
    /// Store the approval: the response date, the encrypted key, the
    /// optional master password hash and the approving device.
    Approve {
        request_id: String,
        user_id: String,
        response_date: String,
        enc_key: String,
        master_password_hash: Option<String>,
        response_device_id: String,
    },
    /// Set the response date and delete the request.
    Delete { request_id: String, response_date: String },
    /// Publish the notices, if any, and answer with the request.
    Finish { anonymous: Option<AnonymousNotice>, notice: Option<AuthNotice> },
}

pub fn answer_auth_request_step(event: AnswerAuthRequestEvent) -> (r: AnswerAuthRequestAction)
    ensures
        match event {
            AnswerAuthRequestEvent::Found { found, claims_device: cd, payload, now } => match found {
                Err(e0) => r matches AnswerAuthRequestAction::Fail(e) && e@ == e0@,
                Ok(None) => r matches AnswerAuthRequestAction::Fail(e) && e@ == missing_auth_request(),
                Ok(Some(req)) => if cd@ != payload.device_identifier@ {
                    r matches AnswerAuthRequestAction::Fail(e) && e@ == missing_auth_request()
                } else if req.approved is Some {
                    r matches AnswerAuthRequestAction::Fail(e) && e@ == already_answered_error()
                } else if payload.request_approved {
                    r matches AnswerAuthRequestAction::Approve {
                        request_id,
                        user_id,
                        response_date,
                        enc_key,
                        master_password_hash,
                        response_device_id,
                    } && request_id@ == req.id@ && user_id@ == req.user_id@ && response_date@
                        == now@ && enc_key@ == payload.key@ && opt_view(master_password_hash)
                        == opt_view(payload.master_password_hash) && response_device_id@
                        == payload.device_identifier@
                } else {
                    r matches AnswerAuthRequestAction::Delete { request_id, response_date }
                        && request_id@ == req.id@ && response_date@ == now@
                },
            },
            AnswerAuthRequestEvent::Approved { request_id: id, user_id: u, claims_device: cd, result } =>
                match result {
                Err(e0) => r matches AnswerAuthRequestAction::Fail(e) && e@ == e0@,
                Ok(_) => r matches AnswerAuthRequestAction::Finish {
                    anonymous: Some(a),
                    notice: Some(n),
                } && a.token@ == id@ && a.user_id@ == u@ && a.auth_request_id@ == id@ && n.user_id@
                    == u@ && n.update_type == UpdateType::AuthRequestResponse && n.auth_request_id@
                    == id@ && opt_view(n.context_id) == Some(cd@),
            },
            AnswerAuthRequestEvent::Deleted { result } => match result {
                Err(e0) => r matches AnswerAuthRequestAction::Fail(e) && e@ == e0@,
                Ok(_) => r matches AnswerAuthRequestAction::Finish { anonymous: None, notice: None },
            },
        },
{
    match event {
        AnswerAuthRequestEvent::Found { found, claims_device, payload, now } => match found {
            Err(e) => AnswerAuthRequestAction::Fail(e),
            Ok(None) => AnswerAuthRequestAction::Fail(bad_request()),
            Ok(Some(req)) => {
                let answered = match req.approved {
                    Some(_) => true,
                    None => false,
                };
                match decide_auth_request_update(answered, claims_device.as_str(), payload) {
                    Err(e) => AnswerAuthRequestAction::Fail(e),
                    Ok(
                        AuthRequestDecision::Approve {
                            enc_key,
                            master_password_hash,
                            response_device_id,
                        },
                    ) => AnswerAuthRequestAction::Approve {
                        request_id: req.id,
                        user_id: req.user_id,
                        response_date: now,
                        enc_key,
                        master_password_hash,
                        response_device_id,
                    },
                    Ok(AuthRequestDecision::Deny) => AnswerAuthRequestAction::Delete {
                        request_id: req.id,
                        response_date: now,
                    },
                }
            },
        },
        AnswerAuthRequestEvent::Approved { request_id, user_id, claims_device, result } =>
            match result {
            Err(e) => AnswerAuthRequestAction::Fail(e),
            Ok(()) => {
                let anonymous = AnonymousNotice {
                    token: owned(request_id.as_str()),
                    user_id: owned(user_id.as_str()),
                    auth_request_id: owned(request_id.as_str()),
                };
                let notice = AuthNotice {
                    user_id,
                    update_type: UpdateType::AuthRequestResponse,
                    auth_request_id: request_id,
                    context_id: Some(claims_device),
                };
                AnswerAuthRequestAction::Finish { anonymous: Some(anonymous), notice: Some(notice) }
            },
        },
        AnswerAuthRequestEvent::Deleted { result } => match result {
            Err(e) => AnswerAuthRequestAction::Fail(e),
            Ok(()) => AnswerAuthRequestAction::Finish { anonymous: None, notice: None },
        },
    }
}

/// What the store holds of a login request that reading its answer needs.
#[derive(Debug, Clone, PartialEq, Eq)]
pub struct StoredAccess {
    pub device_type: i32,
    pub request_ip: String,
    /// Whether the query's code is the request's access code.
    pub access_code_matches: bool,
}

/// Reading the answer to a login request, once it is looked up by id.
pub fn auth_response_step(
    found: Result<Option<StoredAccess>, AppError>,
    request_device_type: i32,
    request_ip: &str,
) -> (r: Result<(), AppError>)
    ensures
        match found {
            Err(e0) => r matches Err(e) && e@ == e0@,
            Ok(None) => r matches Err(e) && e@ == missing_auth_request(),
            Ok(Some(a)) => outcome(r) == (if a.device_type == request_device_type && a.request_ip@
                == request_ip@ && a.access_code_matches {
                Ok::<(), AppErrorSpec>(())
            } else {
                Err(missing_auth_request())
            }),
        },
{
    match found {
        Err(e) => Err(e),
        Ok(None) => Err(bad_request()),
        Ok(Some(a)) => check_auth_request_response(
            a.device_type,
            a.request_ip.as_str(),
            request_device_type,
            request_ip,
            a.access_code_matches,
        ),
    }
}

} // verus!
