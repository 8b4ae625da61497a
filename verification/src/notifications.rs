//! Live-sync notifications: the connection model, the selectors that
//! address connections, and the SignalR MessagePack messages pushed to them.
use vstd::prelude::*;

use crate::msgpack::{
    array_value, dict_value, frame, msgpack_encoding, pairs_spec, serialize, str_value, MsgSpec,
    MsgValue,
};
use crate::text::{concat2, opt_str_view, opt_view, str_eq};
use base64::Engine;

verus! {

/// The byte that ends each JSON handshake record.
pub const RECORD_SEPARATOR: u8 = 0x1e;

/// The tag that marks user connections.
pub const USER_KIND_TAG: &'static str = "k:user";

/// The tag that marks anonymous connections.
pub const ANONYMOUS_KIND_TAG: &'static str = "k:anon";

/// The handshake answer: an empty JSON object and the record separator.
pub fn initial_response() -> (r: [u8; 3])
    ensures
        r@ == seq![0x7bu8, 0x7du8, 0x1eu8],
{
    let r: [u8; 3] = [0x7b, 0x7d, RECORD_SEPARATOR];
    assert(r@ =~= seq![0x7bu8, 0x7du8, 0x1eu8]);
    r
}

// ── UpdateType ──────────────────────────────────────────────────────

#[derive(Debug, Clone, Copy, PartialEq, Eq, Structural)]
pub enum UpdateType {
    SyncCipherUpdate,
    SyncCipherCreate,
    SyncLoginDelete,
    SyncFolderDelete,
    SyncCiphers,
    SyncVault,
    SyncOrgKeys,
    SyncFolderCreate,
    SyncFolderUpdate,
    SyncSettings,
    LogOut,
    SyncSendCreate,
    SyncSendUpdate,
    SyncSendDelete,
    AuthRequest,
    AuthRequestResponse,
    NoUpdate,
}

impl UpdateType {
    /// The number that the clients know the update type by.
    pub open spec fn code(self) -> i32 {
        match self {
            UpdateType::SyncCipherUpdate => 0,
            UpdateType::SyncCipherCreate => 1,
            UpdateType::SyncLoginDelete => 2,
            UpdateType::SyncFolderDelete => 3,
            UpdateType::SyncCiphers => 4,
            UpdateType::SyncVault => 5,
            UpdateType::SyncOrgKeys => 6,
            UpdateType::SyncFolderCreate => 7,
            UpdateType::SyncFolderUpdate => 8,
            UpdateType::SyncSettings => 10,
            UpdateType::LogOut => 11,
            UpdateType::SyncSendCreate => 12,
            UpdateType::SyncSendUpdate => 13,
            UpdateType::SyncSendDelete => 14,
            UpdateType::AuthRequest => 15,
            UpdateType::AuthRequestResponse => 16,
            UpdateType::NoUpdate => 100,
        }
    }

    /// The number sent in a message's "Type" field.
    pub fn as_i32(&self) -> (r: i32)
        ensures
            r == self.code(),
            *self == UpdateType::SyncCipherUpdate ==> r == 0,
            *self == UpdateType::SyncCipherCreate ==> r == 1,
            *self == UpdateType::SyncLoginDelete ==> r == 2,
            *self == UpdateType::SyncFolderDelete ==> r == 3,
            *self == UpdateType::SyncCiphers ==> r == 4,
            *self == UpdateType::SyncVault ==> r == 5,
            *self == UpdateType::SyncOrgKeys ==> r == 6,
            *self == UpdateType::SyncFolderCreate ==> r == 7,
            *self == UpdateType::SyncFolderUpdate ==> r == 8,
            *self == UpdateType::SyncSettings ==> r == 10,
            *self == UpdateType::LogOut ==> r == 11,
            *self == UpdateType::SyncSendCreate ==> r == 12,
            *self == UpdateType::SyncSendUpdate ==> r == 13,
            *self == UpdateType::SyncSendDelete ==> r == 14,
            *self == UpdateType::AuthRequest ==> r == 15,
            *self == UpdateType::AuthRequestResponse ==> r == 16,
            *self == UpdateType::NoUpdate ==> r == 100,
    {
        match self {
            UpdateType::SyncCipherUpdate => 0,
            UpdateType::SyncCipherCreate => 1,
            UpdateType::SyncLoginDelete => 2,
            UpdateType::SyncFolderDelete => 3,
            UpdateType::SyncCiphers => 4,
            UpdateType::SyncVault => 5,
            UpdateType::SyncOrgKeys => 6,
            UpdateType::SyncFolderCreate => 7,
            UpdateType::SyncFolderUpdate => 8,
            UpdateType::SyncSettings => 10,
            UpdateType::LogOut => 11,
            UpdateType::SyncSendCreate => 12,
            UpdateType::SyncSendUpdate => 13,
            UpdateType::SyncSendDelete => 14,
            UpdateType::AuthRequest => 15,
            UpdateType::AuthRequestResponse => 16,
            UpdateType::NoUpdate => 100,
        }
    }
}

/// Each update type is sent as the number the clients know it by, and no two
/// update types share a number.
pub proof fn lemma_update_type_numbers()
    ensures
        UpdateType::SyncCipherUpdate.code() == 0,
        UpdateType::SyncCipherCreate.code() == 1,
        UpdateType::SyncLoginDelete.code() == 2,
        UpdateType::SyncFolderDelete.code() == 3,
        UpdateType::SyncCiphers.code() == 4,
        UpdateType::SyncVault.code() == 5,
        UpdateType::SyncOrgKeys.code() == 6,
        UpdateType::SyncFolderCreate.code() == 7,
        UpdateType::SyncFolderUpdate.code() == 8,
        UpdateType::SyncSettings.code() == 10,
        UpdateType::LogOut.code() == 11,
        UpdateType::SyncSendCreate.code() == 12,
        UpdateType::SyncSendUpdate.code() == 13,
        UpdateType::SyncSendDelete.code() == 14,
        UpdateType::AuthRequest.code() == 15,
        UpdateType::AuthRequestResponse.code() == 16,
        UpdateType::NoUpdate.code() == 100,
        forall|a: UpdateType, b: UpdateType| a.code() == b.code() ==> a == b,
        forall|a: UpdateType| 0 <= #[trigger] a.code() <= 16 || a.code() == 100,
{
}

// ── Connection model ────────────────────────────────────────────────

#[derive(Debug, Clone, Copy, PartialEq, Eq, Structural)]
pub enum ConnectionKind {
    User,
    Anonymous,
}

#[derive(Debug, Clone, PartialEq, Eq)]
pub struct ConnectionAttachment {
    pub kind: ConnectionKind,
    pub user_id: Option<String>,
    pub token: Option<String>,
    pub device_id: Option<String>,
    pub protocol_initialized: bool,
    pub connected_at: String,
}

// ── Selector ────────────────────────────────────────────────────────

#[derive(Debug, Clone, PartialEq, Eq)]
pub enum PublishSelector {
    ByUser { user_id: String },
    ByAnonymousToken { token: String },
}

/// Whether a selector addresses a connection.
pub open spec fn selects(selector: PublishSelector, conn: ConnectionAttachment) -> bool {
    match selector {
        PublishSelector::ByUser { user_id } => conn.kind == ConnectionKind::User && opt_view(
            conn.user_id,
        ) == Some(user_id@),
        PublishSelector::ByAnonymousToken { token } => conn.kind == ConnectionKind::Anonymous
            && opt_view(conn.token) == Some(token@),
    }
}

pub open spec fn user_tag_spec(user_id: Seq<char>) -> Seq<char> {
    "u:"@ + user_id
}

pub open spec fn anonymous_tag_spec(token: Seq<char>) -> Seq<char> {
    "a:"@ + token
}

/// The tag of the connections that a selector addresses.
pub open spec fn selector_tag(selector: PublishSelector) -> Seq<char> {
    match selector {
        PublishSelector::ByUser { user_id } => user_tag_spec(user_id@),
        PublishSelector::ByAnonymousToken { token } => anonymous_tag_spec(token@),
    }
}

/// The tag under which a connection is kept: its user's, or its token's.
pub open spec fn connection_tag(conn: ConnectionAttachment) -> Option<Seq<char>> {
    match conn.kind {
        ConnectionKind::User => match conn.user_id {
            Some(u) => Some(user_tag_spec(u@)),
            None => None,
        },
        ConnectionKind::Anonymous => match conn.token {
            Some(t) => Some(anonymous_tag_spec(t@)),
            None => None,
        },
    }
}

impl ConnectionAttachment {
    pub fn user(user_id: String, device_id: Option<String>, connected_at: String) -> (r: Self)
        ensures
            r.kind == ConnectionKind::User,
            opt_view(r.user_id) == Some(user_id@),
            r.token is None,
            opt_view(r.device_id) == opt_view(device_id),
            !r.protocol_initialized,
            r.connected_at@ == connected_at@,
    {
        Self {
            kind: ConnectionKind::User,
            user_id: Some(user_id),
            token: None,
            device_id,
            protocol_initialized: false,
            connected_at,
        }
    }

    pub fn anonymous(token: String, connected_at: String) -> (r: Self)
        ensures
            r.kind == ConnectionKind::Anonymous,
            r.user_id is None,
            opt_view(r.token) == Some(token@),
            r.device_id is None,
            !r.protocol_initialized,
            r.connected_at@ == connected_at@,
    {
        Self {
            kind: ConnectionKind::Anonymous,
            user_id: None,
            token: Some(token),
            device_id: None,
            protocol_initialized: false,
            connected_at,
        }
    }

    pub fn matches_selector(&self, selector: &PublishSelector) -> (r: bool)
        ensures
            r == selects(*selector, *self),
    {
        match selector {
            PublishSelector::ByUser { user_id } => {
                self.kind == ConnectionKind::User && match &self.user_id {
                    Some(u) => str_eq(u.as_str(), user_id.as_str()),
                    None => false,
                }
            },
            PublishSelector::ByAnonymousToken { token } => {
                self.kind == ConnectionKind::Anonymous && match &self.token {
                    Some(t) => str_eq(t.as_str(), token.as_str()),
                    None => false,
                }
            },
        }
    }
}

impl PublishSelector {
    pub fn user(user_id: &str) -> (r: Self)
        ensures
            r matches PublishSelector::ByUser { user_id: u } && u@ == user_id@,
    {
        PublishSelector::ByUser { user_id: user_id.to_owned() }
    }

    pub fn anonymous(token: &str) -> (r: Self)
        ensures
            r matches PublishSelector::ByAnonymousToken { token: t } && t@ == token@,
    {
        PublishSelector::ByAnonymousToken { token: token.to_owned() }
    }

    pub fn tag(&self) -> (r: String)
        ensures
            r@ == selector_tag(*self),
    {
        match self {
            PublishSelector::ByUser { user_id } => user_tag(user_id.as_str()),
            PublishSelector::ByAnonymousToken { token } => anonymous_tag(token.as_str()),
        }
    }
}

// ── Tag helpers ─────────────────────────────────────────────────────

pub fn user_tag(user_id: &str) -> (r: String)
    ensures
        r@ == user_tag_spec(user_id@),
{
    concat2("u:", user_id)
}

pub fn anonymous_tag(token: &str) -> (r: String)
    ensures
        r@ == anonymous_tag_spec(token@),
{
    concat2("a:", token)
}

/// Different selectors address different tags: a tag names one user or one
/// anonymous token, and no user tag is an anonymous tag.
pub proof fn lemma_selector_tag_injective(a: PublishSelector, b: PublishSelector)
    requires
        selector_tag(a) == selector_tag(b),
    ensures
        match (a, b) {
            (PublishSelector::ByUser { user_id: x }, PublishSelector::ByUser { user_id: y }) => x@
                == y@,
            (
                PublishSelector::ByAnonymousToken { token: x },
                PublishSelector::ByAnonymousToken { token: y },
            ) => x@ == y@,
            _ => false,
        },
{
    reveal_strlit("u:");
    reveal_strlit("a:");
    let ta = selector_tag(a);
    let tb = selector_tag(b);
    assert(ta[0] == tb[0]);
    match (a, b) {
        (PublishSelector::ByUser { user_id: x }, PublishSelector::ByUser { user_id: y }) => {
            assert(x@ =~= ta.skip(2));
            assert(y@ =~= tb.skip(2));
        },
        (
            PublishSelector::ByAnonymousToken { token: x },
            PublishSelector::ByAnonymousToken { token: y },
        ) => {
            assert(x@ =~= ta.skip(2));
            assert(y@ =~= tb.skip(2));
        },
        _ => {},
    }
}

/// A selector addresses a connection exactly when the selector's tag is the
/// tag that the connection is kept under.
pub proof fn lemma_selects_iff_same_tag(selector: PublishSelector, conn: ConnectionAttachment)
    ensures
        selects(selector, conn) <==> connection_tag(conn) == Some(selector_tag(selector)),
{
    reveal_strlit("u:");
    reveal_strlit("a:");
    let st = selector_tag(selector);
    match connection_tag(conn) {
        Some(ct) => {
            if ct == st {
                assert(ct[0] == st[0]);
                assert(ct.skip(2) == st.skip(2));
                match selector {
                    PublishSelector::ByUser { user_id } => {
                        assert(st.skip(2) =~= user_id@);
                        if conn.kind == ConnectionKind::User {
                            assert(ct.skip(2) =~= conn.user_id.unwrap()@);
                        }
                    },
                    PublishSelector::ByAnonymousToken { token } => {
                        assert(st.skip(2) =~= token@);
                        if conn.kind == ConnectionKind::Anonymous {
                            assert(ct.skip(2) =~= conn.token.unwrap()@);
                        }
                    },
                }
            }
        },
        None => {},
    }
}


// ── Timestamps ──────────────────────────────────────────────────────

/// An instant as Unix seconds and the nanoseconds past that second.
#[derive(Debug, Clone, Copy, PartialEq, Eq, Structural)]
pub struct Timestamp {
    pub seconds: i64,
    pub nanos: u32,
}

/// The instant that chrono's `DateTime::parse_from_rfc3339` reads from a
/// string, as Unix seconds and sub-second nanoseconds; `None` where it refuses
/// the string.
pub uninterp spec fn rfc3339_instant(date: Seq<char>) -> Option<(i64, u32)>;

/// `chrono::DateTime::parse_from_rfc3339`, read back through `timestamp` and
/// `timestamp_subsec_nanos`: claims that the result is a function of the
/// string alone.
#[verifier::external_body]
fn parse_rfc3339(date: &str) -> (r: Option<(i64, u32)>)
    ensures
        r == rfc3339_instant(date@),
{
    match chrono::DateTime::parse_from_rfc3339(date) {
        Ok(value) => Some((value.timestamp(), value.timestamp_subsec_nanos())),
        Err(_) => None,
    }
}

/// `chrono::Utc::now`, read back through `timestamp` and
/// `timestamp_subsec_nanos`. Nothing is claimed of the clock.
#[verifier::external_body]
fn utc_now() -> (i64, u32) {
    let now = chrono::Utc::now();
    (now.timestamp(), now.timestamp_subsec_nanos())
}

/// The instant that a date string names, given the current time: the RFC
/// 3339 instant it writes, or `now` where it is empty or not RFC 3339.
pub open spec fn timestamp_of(date: Seq<char>, now: Timestamp) -> Timestamp {
    if date.len() > 0 && rfc3339_instant(date) is Some {
        Timestamp { seconds: rfc3339_instant(date).unwrap().0, nanos: rfc3339_instant(date).unwrap().1 }
    } else {
        now
    }
}

/// The instant that a date string names, `now` standing for the clock.
pub fn timestamp_or_now(date: &str, now: Timestamp) -> (r: Timestamp)
    ensures
        r == timestamp_of(date@, now),
{
    if date.is_empty() {
        return now;
    }
    match parse_rfc3339(date) {
        Some(value) => Timestamp { seconds: value.0, nanos: value.1 },
        None => now,
    }
}

/// The current time, as the clock gives it.
pub fn current_timestamp() -> (r: Timestamp) {
    let now = utc_now();
    Timestamp { seconds: now.0, nanos: now.1 }
}

/// The instant that a date string names: the RFC 3339 instant it writes,
/// or the current time where it is empty or not RFC 3339.
pub fn parse_timestamp(date: &str) -> (r: Timestamp)
    ensures
        exists|now: Timestamp| r == timestamp_of(date@, now),
{
    let now = current_timestamp();
    timestamp_or_now(date, now)
}

/// The 64-bit MessagePack timestamp word: nanoseconds shifted above the
/// 34 bits of seconds, the seconds' bits or-ed in (all bits, as `i64` does).
pub open spec fn timestamp_word(seconds: i64, nanos: u32) -> u64 {
    ((nanos as u64) << 34u64) | (seconds as u64)
}

/// The eight big-endian bytes of a word.
pub open spec fn be_bytes(w: u64) -> Seq<u8> {
    seq![
        (w >> 56u64) as u8,
        (w >> 48u64) as u8,
        (w >> 40u64) as u8,
        (w >> 32u64) as u8,
        (w >> 24u64) as u8,
        (w >> 16u64) as u8,
        (w >> 8u64) as u8,
        w as u8,
    ]
}

/// The extension value (type -1) that carries a timestamp.
pub open spec fn timestamp_spec(t: Timestamp) -> MsgSpec {
    MsgSpec::Ext(-1, be_bytes(timestamp_word(t.seconds, t.nanos)))
}

/// A timestamp as the MessagePack timestamp extension.
pub fn serialize_date(date: Timestamp) -> (r: MsgValue)
    ensures
        r@ == timestamp_spec(date),
{
    let w: u64 = ((date.nanos as u64) << 34u64) | (date.seconds as u64);
    let mut bytes: Vec<u8> = Vec::new();
    bytes.push((w >> 56u64) as u8);
    bytes.push((w >> 48u64) as u8);
    bytes.push((w >> 40u64) as u8);
    bytes.push((w >> 32u64) as u8);
    bytes.push((w >> 24u64) as u8);
    bytes.push((w >> 16u64) as u8);
    bytes.push((w >> 8u64) as u8);
    bytes.push(w as u8);
    assert(bytes@ =~= be_bytes(timestamp_word(date.seconds, date.nanos)));
    MsgValue::Ext(-1, bytes)
}

/// Within the range of the 64-bit timestamp format (seconds below 2^34,
/// nanoseconds below 2^30) the word gives both back: the nanoseconds in its
/// upper 30 bits and the seconds in its lower 34.
pub proof fn lemma_timestamp_word_fields(seconds: i64, nanos: u32)
    requires
        0 <= seconds < 0x4_0000_0000,
        nanos < 0x4000_0000,
    ensures
        timestamp_word(seconds, nanos) >> 34u64 == nanos as u64,
        timestamp_word(seconds, nanos) & 0x3_ffff_ffffu64 == seconds as u64,
{
    let s = seconds as u64;
    let n = nanos as u64;
    assert(s < 0x4_0000_0000 && n < 0x4000_0000 ==> ((n << 34u64) | s) >> 34u64 == n) by (bit_vector);
    assert(s < 0x4_0000_0000 && n < 0x4000_0000 ==> ((n << 34u64) | s) & 0x3_ffff_ffffu64 == s)
        by (bit_vector);
}

// ── Messages ────────────────────────────────────────────────────────

/// A string, or nil where there is none.
pub open spec fn option_spec(o: Option<Seq<char>>) -> MsgSpec {
    match o {
        Some(s) => MsgSpec::Str(s),
        None => MsgSpec::Nil,
    }
}

pub fn convert_option(option: Option<&str>) -> (r: MsgValue)
    ensures
        r@ == option_spec(opt_str_view(option)),
{
    match option {
        Some(value) => str_value(value),
        None => MsgValue::Nil,
    }
}

/// A key/value pair with a string key.
pub open spec fn entry(key: Seq<char>, value: MsgSpec) -> (MsgSpec, MsgSpec) {
    (MsgSpec::Str(key), value)
}

/// A hub invocation of `target` with one argument.
pub open spec fn invocation(target: Seq<char>, argument: MsgSpec) -> MsgSpec {
    MsgSpec::Array(
        seq![
            MsgSpec::Int(1),
            MsgSpec::Dict(Seq::empty()),
            MsgSpec::Nil,
            MsgSpec::Str(target),
            MsgSpec::Array(seq![argument]),
        ],
    )
}

/// The message that tells a user's clients of an update.
pub open spec fn update_message(
    payload: Seq<(MsgSpec, MsgSpec)>,
    update_type: int,
    context_id: Option<Seq<char>>,
) -> MsgSpec {
    invocation(
        "ReceiveMessage"@,
        MsgSpec::Dict(
            seq![
                entry("ContextId"@, option_spec(context_id)),
                entry("Type"@, MsgSpec::Int(update_type)),
                entry("Payload"@, MsgSpec::Dict(payload)),
            ],
        ),
    )
}

/// The message that tells an anonymous client that its request was answered.
pub open spec fn anonymous_update_message(
    payload: Seq<(MsgSpec, MsgSpec)>,
    update_type: int,
    user_id: Seq<char>,
) -> MsgSpec {
    invocation(
        "AuthRequestResponseRecieved"@,
        MsgSpec::Dict(
            seq![
                entry("Type"@, MsgSpec::Int(update_type)),
                entry("Payload"@, MsgSpec::Dict(payload)),
                entry("UserId"@, MsgSpec::Str(user_id)),
            ],
        ),
    )
}

fn invocation_value(target: &str, argument: MsgValue) -> (r: MsgValue)
    ensures
        r@ == invocation(target@, argument@),
{
    let mut arguments: Vec<MsgValue> = Vec::new();
    arguments.push(argument);
    let mut items: Vec<MsgValue> = Vec::new();
    items.push(MsgValue::Int(1));
    items.push(dict_value(Vec::new()));
    items.push(MsgValue::Nil);
    items.push(str_value(target));
    items.push(array_value(arguments));
    let r = array_value(items);
    proof {
        assert(pairs_spec(Seq::<(MsgValue, MsgValue)>::empty()) =~= Seq::empty());
        assert(crate::msgpack::values_spec(arguments@) =~= seq![argument@]);
        assert(crate::msgpack::values_spec(items@) =~= seq![
            MsgSpec::Int(1),
            MsgSpec::Dict(Seq::empty()),
            MsgSpec::Nil,
            MsgSpec::Str(target@),
            MsgSpec::Array(seq![argument@]),
        ]);
    }
    r
}

/// Builds and frames the message that tells a user's clients of an update.
pub fn create_update(
    payload: Vec<(MsgValue, MsgValue)>,
    update_type: i32,
    context_id: Option<&str>,
) -> (r: Vec<u8>)
    ensures
        r@ == frame(
            msgpack_encoding(
                update_message(pairs_spec(payload@), update_type as int, opt_str_view(context_id)),
            ),
        ),
{
    let ghost p = payload@;
    let mut body: Vec<(MsgValue, MsgValue)> = Vec::new();
    body.push((str_value("ContextId"), convert_option(context_id)));
    body.push((str_value("Type"), MsgValue::Int(update_type as i64)));
    body.push((str_value("Payload"), dict_value(payload)));
    let argument = dict_value(body);
    assert(pairs_spec(body@) =~= seq![
        entry("ContextId"@, option_spec(opt_str_view(context_id))),
        entry("Type"@, MsgSpec::Int(update_type as int)),
        entry("Payload"@, MsgSpec::Dict(pairs_spec(p))),
    ]);
    let value = invocation_value("ReceiveMessage", argument);
    serialize(&value)
}

/// Builds and frames the message that tells an anonymous client that its
/// request was answered.
pub fn create_anonymous_update(
    payload: Vec<(MsgValue, MsgValue)>,
    update_type: i32,
    user_id: &str,
) -> (r: Vec<u8>)
    ensures
        r@ == frame(
            msgpack_encoding(
                anonymous_update_message(pairs_spec(payload@), update_type as int, user_id@),
            ),
        ),
{
    let ghost p = payload@;
    let mut body: Vec<(MsgValue, MsgValue)> = Vec::new();
    body.push((str_value("Type"), MsgValue::Int(update_type as i64)));
    body.push((str_value("Payload"), dict_value(payload)));
    body.push((str_value("UserId"), str_value(user_id)));
    let argument = dict_value(body);
    assert(pairs_spec(body@) =~= seq![
        entry("Type"@, MsgSpec::Int(update_type as int)),
        entry("Payload"@, MsgSpec::Dict(pairs_spec(p))),
        entry("UserId"@, MsgSpec::Str(user_id@)),
    ]);
    let value = invocation_value("AuthRequestResponseRecieved", argument);
    serialize(&value)
}

/// The hub's keep-alive: a framed one-element array holding 6.
pub fn create_ping() -> (r: Vec<u8>)
    ensures
        r@ == frame(msgpack_encoding(MsgSpec::Array(seq![MsgSpec::Int(6)]))),
{
    let mut items: Vec<MsgValue> = Vec::new();
    items.push(MsgValue::Int(6));
    let value = array_value(items);
    assert(crate::msgpack::values_spec(items@) =~= seq![MsgSpec::Int(6)]);
    serialize(&value)
}

// ── Update messages for each kind of change ─────────────────────────

fn entry_value(key: &str, value: MsgValue) -> (r: (MsgValue, MsgValue))
    ensures
        (r.0@, r.1@) == entry(key@, value@),
{
    (str_value(key), value)
}

pub open spec fn user_update_payload(user_id: Seq<char>, date: Timestamp) -> Seq<(MsgSpec, MsgSpec)> {
    seq![entry("UserId"@, MsgSpec::Str(user_id)), entry("Date"@, timestamp_spec(date))]
}

/// The update message of a change to a user's account as a whole.
pub fn user_update_message(
    user_id: &str,
    update_type: UpdateType,
    date: Timestamp,
    context_id: Option<&str>,
) -> (r: Vec<u8>)
    ensures
        r@ == frame(
            msgpack_encoding(
                update_message(
                    user_update_payload(user_id@, date),
                    update_type.code() as int,
                    opt_str_view(context_id),
                ),
            ),
        ),
{
    let mut payload: Vec<(MsgValue, MsgValue)> = Vec::new();
    payload.push(entry_value("UserId", str_value(user_id)));
    payload.push(entry_value("Date", serialize_date(date)));
    assert(pairs_spec(payload@) =~= user_update_payload(user_id@, date));
    create_update(payload, update_type.as_i32(), context_id)
}

/// The payload of a change to one item (folder or send): its id, its owner
/// and when it was revised.
pub open spec fn item_update_payload(
    id: Seq<char>,
    user_id: Seq<char>,
    revision_date: Timestamp,
) -> Seq<(MsgSpec, MsgSpec)> {
    seq![
        entry("Id"@, MsgSpec::Str(id)),
        entry("UserId"@, MsgSpec::Str(user_id)),
        entry("RevisionDate"@, timestamp_spec(revision_date)),
    ]
}

fn item_update(
    id: &str,
    user_id: &str,
    update_type: UpdateType,
    revision_date: Timestamp,
    context_id: Option<&str>,
) -> (r: Vec<u8>)
    ensures
        r@ == frame(
            msgpack_encoding(
                update_message(
                    item_update_payload(id@, user_id@, revision_date),
                    update_type.code() as int,
                    opt_str_view(context_id),
                ),
            ),
        ),
{
    let mut payload: Vec<(MsgValue, MsgValue)> = Vec::new();
    payload.push(entry_value("Id", str_value(id)));
    payload.push(entry_value("UserId", str_value(user_id)));
    payload.push(entry_value("RevisionDate", serialize_date(revision_date)));
    assert(pairs_spec(payload@) =~= item_update_payload(id@, user_id@, revision_date));
    create_update(payload, update_type.as_i32(), context_id)
}

/// The update message of a change to a folder.
pub fn folder_update_message(
    user_id: &str,
    update_type: UpdateType,
    folder_id: &str,
    revision_date: Timestamp,
    context_id: Option<&str>,
) -> (r: Vec<u8>)
    ensures
        r@ == frame(
            msgpack_encoding(
                update_message(
                    item_update_payload(folder_id@, user_id@, revision_date),
                    update_type.code() as int,
                    opt_str_view(context_id),
                ),
            ),
        ),
{
    item_update(folder_id, user_id, update_type, revision_date, context_id)
}

/// The update message of a change to a send.
pub fn send_update_message(
    user_id: &str,
    update_type: UpdateType,
    send_id: &str,
    revision_date: Timestamp,
    context_id: Option<&str>,
) -> (r: Vec<u8>)
    ensures
        r@ == frame(
            msgpack_encoding(
                update_message(
                    item_update_payload(send_id@, user_id@, revision_date),
                    update_type.code() as int,
                    opt_str_view(context_id),
                ),
            ),
        ),
{
    item_update(send_id, user_id, update_type, revision_date, context_id)
}

/// The payload of a change to a cipher; organization fields are always nil.
pub open spec fn cipher_update_payload(
    cipher_id: Seq<char>,
    user_id: Seq<char>,
    revision_date: Timestamp,
) -> Seq<(MsgSpec, MsgSpec)> {
    seq![
        entry("Id"@, MsgSpec::Str(cipher_id)),
        entry("UserId"@, MsgSpec::Str(user_id)),
        entry("OrganizationId"@, MsgSpec::Nil),
        entry("CollectionIds"@, MsgSpec::Nil),
        entry("RevisionDate"@, timestamp_spec(revision_date)),
    ]
}

/// The update message of a change to a cipher.
pub fn cipher_update_message(
    user_id: &str,
    update_type: UpdateType,
    cipher_id: &str,
    revision_date: Timestamp,
    context_id: Option<&str>,
) -> (r: Vec<u8>)
    ensures
        r@ == frame(
            msgpack_encoding(
                update_message(
                    cipher_update_payload(cipher_id@, user_id@, revision_date),
                    update_type.code() as int,
                    opt_str_view(context_id),
                ),
            ),
        ),
{
    let mut payload: Vec<(MsgValue, MsgValue)> = Vec::new();
    payload.push(entry_value("Id", str_value(cipher_id)));
    payload.push(entry_value("UserId", str_value(user_id)));
    payload.push(entry_value("OrganizationId", MsgValue::Nil));
    payload.push(entry_value("CollectionIds", MsgValue::Nil));
    payload.push(entry_value("RevisionDate", serialize_date(revision_date)));
    assert(pairs_spec(payload@) =~= cipher_update_payload(cipher_id@, user_id@, revision_date));
    create_update(payload, update_type.as_i32(), context_id)
}

/// The payload of a change to a login request: its id and its owner.
pub open spec fn auth_update_payload(auth_request_id: Seq<char>, user_id: Seq<char>) -> Seq<
    (MsgSpec, MsgSpec),
> {
    seq![entry("Id"@, MsgSpec::Str(auth_request_id)), entry("UserId"@, MsgSpec::Str(user_id))]
}

fn auth_payload(auth_request_id: &str, user_id: &str) -> (r: Vec<(MsgValue, MsgValue)>)
    ensures
        pairs_spec(r@) == auth_update_payload(auth_request_id@, user_id@),
{
    let mut payload: Vec<(MsgValue, MsgValue)> = Vec::new();
    payload.push(entry_value("Id", str_value(auth_request_id)));
    payload.push(entry_value("UserId", str_value(user_id)));
    assert(pairs_spec(payload@) =~= auth_update_payload(auth_request_id@, user_id@));
    payload
}

/// The update message of a change to a login request, for its owner's clients.
pub fn auth_update_message(
    user_id: &str,
    update_type: UpdateType,
    auth_request_id: &str,
    context_id: Option<&str>,
) -> (r: Vec<u8>)
    ensures
        r@ == frame(
            msgpack_encoding(
                update_message(
                    auth_update_payload(auth_request_id@, user_id@),
                    update_type.code() as int,
                    opt_str_view(context_id),
                ),
            ),
        ),
{
    create_update(auth_payload(auth_request_id, user_id), update_type.as_i32(), context_id)
}

/// The message that tells the anonymous client of a login request that the
/// request was answered.
pub fn anonymous_update_message_for(user_id: &str, auth_request_id: &str) -> (r: Vec<u8>)
    ensures
        r@ == frame(
            msgpack_encoding(
                anonymous_update_message(
                    auth_update_payload(auth_request_id@, user_id@),
                    UpdateType::AuthRequestResponse.code() as int,
                    user_id@,
                ),
            ),
        ),
{
    create_anonymous_update(
        auth_payload(auth_request_id, user_id),
        UpdateType::AuthRequestResponse.as_i32(),
        user_id,
    )
}

// ── Fan-out to the notification hub ─────────────────────────────────

/// The character of a six-bit value in the standard base64 alphabet.
pub open spec fn base64_symbol(v: nat) -> char {
    if v < 26 {
        (65 + v) as char
    } else if v < 52 {
        (97 + v - 26) as char
    } else if v < 62 {
        (48 + v - 52) as char
    } else if v == 62 {
        '+'
    } else {
        '/'
    }
}

/// Standard base64 (RFC 4648, section 4) with `=` padding.
pub open spec fn base64_standard(b: Seq<u8>) -> Seq<char>
    decreases b.len(),
{
    if b.len() == 0 {
        Seq::empty()
    } else if b.len() == 1 {
        let x = b[0] as nat;
        seq![base64_symbol(x / 4), base64_symbol((x % 4) * 16), '=', '=']
    } else if b.len() == 2 {
        let x = b[0] as nat;
        let y = b[1] as nat;
        seq![
            base64_symbol(x / 4),
            base64_symbol((x % 4) * 16 + y / 16),
            base64_symbol((y % 16) * 4),
            '=',
        ]
    } else {
        let x = b[0] as nat;
        let y = b[1] as nat;
        let z = b[2] as nat;
        seq![
            base64_symbol(x / 4),
            base64_symbol((x % 4) * 16 + y / 16),
            base64_symbol((y % 16) * 4 + z / 64),
            base64_symbol(z % 64),
        ] + base64_standard(b.skip(3))
    }
}

/// `base64::engine::general_purpose::STANDARD.encode`: claims the standard
/// alphabet with padding, as the crate documents. It panics only where the
/// encoded length overflows `usize`, which the bound excludes.
#[verifier::external_body]
fn base64_encode(bytes: &[u8]) -> (r: String)
    requires
        bytes@.len() <= usize::MAX / 2,
    ensures
        r@ == base64_standard(bytes@),
{
    base64::engine::general_purpose::STANDARD.encode(bytes)
}

/// The `message` field of a fan-out request: the framed message in base64.
pub fn fanout_message(ws_bytes: &[u8]) -> (r: String)
    requires
        ws_bytes@.len() <= usize::MAX / 2,
    ensures
        r@ == base64_standard(ws_bytes@),
{
    base64_encode(ws_bytes)
}

/// Whether the hub accepted a fan-out: a 2xx status.
pub fn is_fanout_success(status: u16) -> (r: bool)
    ensures
        r == (200 <= status < 300),
{
    200 <= status && status < 300
}

// ── Handshake ───────────────────────────────────────────────────────

/// The fields of a client's handshake record.
#[derive(Debug, Clone, PartialEq, Eq)]
pub struct InitialMessage {
    pub protocol: String,
    pub version: i32,
}

/// A handshake record without its trailing record separator, if it has one.
pub fn strip_record_separator(message: &str) -> (r: &str)
    ensures
        r@ == (if message@.len() > 0 && message@.last() == '\u{1e}' {
            message@.drop_last()
        } else {
            message@
        }),
{
    let n = message.unicode_len();
    if n > 0 && message.get_char(n - 1) == '\u{1e}' {
        message.substring_char(0, n - 1)
    } else {
        message
    }
}

/// Whether a handshake asks for the MessagePack protocol, version 1.
pub fn is_messagepack_handshake(message: &InitialMessage) -> (r: bool)
    ensures
        r == (message.protocol@ == "messagepack"@ && message.version == 1),
{
    message.version == 1 && str_eq(message.protocol.as_str(), "messagepack")
}

} // verus!
