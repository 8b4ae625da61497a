//! What a request tells of its client through its headers: the client's IP
//! address and its device type.
use vstd::prelude::*;

use axum::http::{HeaderMap, HeaderValue};

use crate::device::{
    is_device_code, lemma_device_code_roundtrip, lenient_device_code, unknown_browser_code,
    DeviceType,
};
use crate::text::{
    decimal, is_digit, lemma_decimal_value, owned, trim, trim_end_by, trim_start_by, trim_ws,
};

verus! {

#[verifier::external_type_specification]
#[verifier::external_body]
#[verifier::reject_recursive_types(T)]
pub struct ExHeaderMap<T>(HeaderMap<T>);

#[verifier::external_type_specification]
#[verifier::external_body]
pub struct ExHeaderValue(HeaderValue);

/// What a header map holds: for each header name, in lower case, the bytes of
/// its values in the order they were added.
pub uninterp spec fn header_entries(headers: HeaderMap) -> Map<Seq<char>, Seq<Seq<u8>>>;

/// The bytes that a header value holds.
pub uninterp spec fn header_value_bytes(value: HeaderValue) -> Seq<u8>;

pub open spec fn is_name_char(c: char) -> bool {
    ||| ('a' <= c && c <= 'z')
    ||| ('A' <= c && c <= 'Z')
    ||| ('0' <= c && c <= '9')
    ||| c == '-'
}

/// A header name of letters, digits and hyphens, at most 64 long.
pub open spec fn is_lookup_name(name: Seq<char>) -> bool {
    &&& 1 <= name.len() <= 64
    &&& forall|i: int| 0 <= i < name.len() ==> is_name_char(#[trigger] name[i])
}

pub open spec fn ascii_lower(name: Seq<char>) -> Seq<char> {
    name.map_values(|c: char| if 'A' <= c && c <= 'Z' { ((c as int) + 32) as char } else { c })
}

/// The bytes that `HeaderValue::to_str` accepts: visible ASCII and tab.
pub open spec fn is_visible_ascii(b: u8) -> bool {
    (32 <= b && b < 127) || b == 9
}

pub open spec fn latin_chars(b: Seq<u8>) -> Seq<char> {
    b.map_values(|x: u8| x as char)
}

/// `HeaderMap::get` with a `&str` name: claims that the name is looked up in
/// lower case (the map's name parsing lowers letters of names up to 64
/// bytes) and that the first value under it comes back.
#[verifier::external_body]
fn header_get<'a>(headers: &'a HeaderMap, name: &str) -> (r: Option<&'a HeaderValue>)
    requires
        is_lookup_name(name@),
    ensures
        r is Some <==> header_entries(*headers).contains_key(ascii_lower(name@)),
        r matches Some(v) ==> header_entries(*headers)[ascii_lower(name@)].len() > 0
            && header_value_bytes(*v) == header_entries(*headers)[ascii_lower(name@)][0],
{
    headers.get(name)
}

/// `HeaderValue::to_str`, with its error dropped: claims that it succeeds
/// exactly when every byte is visible ASCII or a tab, and gives those bytes
/// as characters.
#[verifier::external_body]
fn header_to_str(value: &HeaderValue) -> (r: Option<&str>)
    ensures
        r is Some <==> (forall|i: int|
            0 <= i < header_value_bytes(*value).len() ==> is_visible_ascii(
                #[trigger] header_value_bytes(*value)[i],
            )),
        r matches Some(s) ==> s@ == latin_chars(header_value_bytes(*value)),
{
    value.to_str().ok()
}

/// The text of the first value of a header, where it is visible ASCII.
pub open spec fn header_text(entries: Map<Seq<char>, Seq<Seq<u8>>>, name: Seq<char>) -> Option<
    Seq<char>,
> {
    let key = ascii_lower(name);
    if entries.contains_key(key) && entries[key].len() > 0 && (forall|i: int|
        0 <= i < entries[key][0].len() ==> is_visible_ascii(#[trigger] entries[key][0][i])) {
        Some(latin_chars(entries[key][0]))
    } else {
        None
    }
}

/// The trimmed text of a header, where it is there and not blank.
pub open spec fn trimmed_header(entries: Map<Seq<char>, Seq<Seq<u8>>>, name: Seq<char>) -> Option<
    Seq<char>,
> {
    match header_text(entries, name) {
        Some(s) => if trim_ws(s).len() > 0 {
            Some(trim_ws(s))
        } else {
            None
        },
        None => None,
    }
}

/// The first of the named headers that holds a value, trimmed.
pub open spec fn first_header(
    entries: Map<Seq<char>, Seq<Seq<u8>>>,
    names: Seq<Seq<char>>,
) -> Option<Seq<char>>
    decreases names.len(),
{
    if names.len() == 0 {
        None
    } else {
        match trimmed_header(entries, names[0]) {
            Some(v) => Some(v),
            None => first_header(entries, names.drop_first()),
        }
    }
}

pub open spec fn str_views(v: Seq<&str>) -> Seq<Seq<char>> {
    v.map_values(|s: &str| s@)
}

fn trimmed_header_value<'a>(headers: &'a HeaderMap, name: &str) -> (r: Option<&'a str>)
    requires
        is_lookup_name(name@),
    ensures
        match r {
            Some(s) => trimmed_header(header_entries(*headers), name@) == Some(s@),
            None => trimmed_header(header_entries(*headers), name@) is None,
        },
{
    match header_get(headers, name) {
        Some(value) => match header_to_str(value) {
            Some(text) => {
                let t = trim(text);
                if t.is_empty() {
                    None
                } else {
                    Some(t)
                }
            },
            None => None,
        },
        None => None,
    }
}

/// The first of the named headers that holds a non-blank value, trimmed.
pub fn header_value<'a>(headers: &'a HeaderMap, names: &[&str]) -> (r: Option<&'a str>)
    requires
        forall|i: int| 0 <= i < names@.len() ==> is_lookup_name(#[trigger] names@[i]@),
    ensures
        match r {
            Some(s) => first_header(header_entries(*headers), str_views(names@)) == Some(s@),
            None => first_header(header_entries(*headers), str_views(names@)) is None,
        },
{
    let ghost all = str_views(names@);
    let n = names.len();
    assert(all.skip(0) =~= all);
    for i in 0..n
        invariant
            n == names@.len(),
            all == str_views(names@),
            forall|k: int| 0 <= k < names@.len() ==> is_lookup_name(#[trigger] names@[k]@),
            first_header(header_entries(*headers), all) == first_header(
                header_entries(*headers),
                all.skip(i as int),
            ),
    {
        assert(all.skip(i as int)[0] == names@[i as int]@);
        assert(all.skip(i as int).drop_first() =~= all.skip(i + 1));
        let name: &str = names[i];
        match trimmed_header_value(headers, name) {
            Some(v) => {
                return Some(v);
            },
            None => {},
        }
    }
    assert(all.skip(n as int).len() == 0);
    None
}

/// The client's IP address as the edge reports it: the trimmed
/// `cf-connecting-ip` header, or `unknown`.
pub open spec fn request_ip(entries: Map<Seq<char>, Seq<Seq<u8>>>) -> Seq<char> {
    match trimmed_header(entries, "cf-connecting-ip"@) {
        Some(v) => v,
        None => "unknown"@,
    }
}

/// The client's IP address is the first `cf-connecting-ip` value, trimmed,
/// whenever that value is visible ASCII and not blank, whatever its length;
/// `unknown` only where the header is absent, not text, or blank.
pub proof fn lemma_request_ip(entries: Map<Seq<char>, Seq<Seq<u8>>>)
    ensures
        ({
            let key = "cf-connecting-ip"@;
            if entries.contains_key(key) && entries[key].len() > 0 && (forall|i: int|
                0 <= i < entries[key][0].len() ==> is_visible_ascii(#[trigger] entries[key][0][i]))
                && trim_ws(latin_chars(entries[key][0])).len() > 0 {
                request_ip(entries) == trim_ws(latin_chars(entries[key][0]))
            } else {
                request_ip(entries) == "unknown"@
            }
        }),
{
    reveal_strlit("cf-connecting-ip");
    assert(ascii_lower("cf-connecting-ip"@) =~= "cf-connecting-ip"@);
}

pub fn request_ip_from_headers(headers: &HeaderMap) -> (r: String)
    ensures
        r@ == request_ip(header_entries(*headers)),
        ({
            let entries = header_entries(*headers);
            let key = "cf-connecting-ip"@;
            if entries.contains_key(key) && entries[key].len() > 0 && (forall|i: int|
                0 <= i < entries[key][0].len() ==> is_visible_ascii(#[trigger] entries[key][0][i]))
                && trim_ws(latin_chars(entries[key][0])).len() > 0 {
                r@ == trim_ws(latin_chars(entries[key][0]))
            } else {
                r@ == "unknown"@
            }
        }),
{
    proof {
        reveal_strlit("cf-connecting-ip");
        lemma_request_ip(header_entries(*headers));
    }
    match trimmed_header_value(headers, "cf-connecting-ip") {
        Some(v) => owned(v),
        None => owned("unknown"),
    }
}

/// The headers that may carry the device type, in the order they are tried.
pub open spec fn device_type_header_names() -> Seq<Seq<char>> {
    seq!["device-type"@, "deviceType"@, "x-device-type"@]
}

/// The client's device type: from the first device-type header that has a
/// value, leniently parsed; the unknown browser where none has.
pub open spec fn request_device_type(entries: Map<Seq<char>, Seq<Seq<u8>>>) -> i32 {
    match first_header(entries, device_type_header_names()) {
        Some(v) => lenient_device_code(v),
        None => unknown_browser_code(),
    }
}

/// A first `device-type` header whose text is the decimal number of a device
/// type gives that device type, whatever the other headers hold.
pub proof fn lemma_device_type_header(entries: Map<Seq<char>, Seq<Seq<u8>>>, n: nat)
    requires
        n <= 25,
        entries.contains_key("device-type"@),
        entries["device-type"@].len() > 0,
        latin_chars(entries["device-type"@][0]) == decimal(n),
    ensures
        request_device_type(entries) == n as i32,
{
    reveal_strlit("device-type");
    let key = "device-type"@;
    let b = entries[key][0];
    assert(ascii_lower(key) =~= key);
    lemma_decimal_value(n);
    assert forall|i: int| 0 <= i < b.len() implies is_visible_ascii(#[trigger] b[i]) by {
        assert(latin_chars(b)[i] == decimal(n)[i]);
        assert(is_digit(decimal(n)[i]));
    }
    let t = decimal(n);
    assert(trim_start_by(t, false) == t);
    assert(trim_end_by(t, false) == t);
    assert(trimmed_header(entries, key) == Some(t));
    assert(device_type_header_names()[0] == key);
    lemma_device_code_roundtrip(n);
}

pub fn request_device_type_from_headers(headers: &HeaderMap) -> (r: i32)
    ensures
        r == request_device_type(header_entries(*headers)),
        is_device_code(r as int),
{
    proof {
        reveal_strlit("device-type");
        reveal_strlit("deviceType");
        reveal_strlit("x-device-type");
    }
    let names: [&str; 3] = ["device-type", "deviceType", "x-device-type"];
    assert(str_views(names@) =~= device_type_header_names());
    match header_value(headers, &names) {
        Some(v) => DeviceType::from_str(v).as_i32(),
        None => DeviceType::UnknownBrowser.as_i32(),
    }
}

} // verus!
