//! MessagePack values as the SignalR hub protocol carries them, their
//! encoding (by `rmpv`) and the length-prefixed framing around it.
use vstd::prelude::*;

verus! {

/// A MessagePack value, holding the kinds of value that the hub messages use.
pub enum MsgValue {
    Nil,
    Int(i64),
    Str(String),
    Array(Vec<MsgValue>),
    Dict(Vec<(MsgValue, MsgValue)>),
    Ext(i8, Vec<u8>),
}

/// The mathematical model of a [`MsgValue`].
pub enum MsgSpec {
    Nil,
    Int(int),
    Str(Seq<char>),
    Array(Seq<MsgSpec>),
    Dict(Seq<(MsgSpec, MsgSpec)>),
    Ext(int, Seq<u8>),
}

impl MsgValue {
    pub open spec fn spec_of(self) -> MsgSpec
        decreases self,
    {
        match self {
            MsgValue::Nil => MsgSpec::Nil,
            MsgValue::Int(n) => MsgSpec::Int(n as int),
            MsgValue::Str(s) => MsgSpec::Str(s@),
            MsgValue::Array(v) => MsgSpec::Array(
                Seq::new(
                    v@.len(),
                    |i: int|
                        if 0 <= i < v@.len() {
                            v@[i].spec_of()
                        } else {
                            MsgSpec::Nil
                        },
                ),
            ),
            MsgValue::Dict(v) => MsgSpec::Dict(
                Seq::new(
                    v@.len(),
                    |i: int|
                        if 0 <= i < v@.len() {
                            (v@[i].0.spec_of(), v@[i].1.spec_of())
                        } else {
                            (MsgSpec::Nil, MsgSpec::Nil)
                        },
                ),
            ),
            MsgValue::Ext(t, b) => MsgSpec::Ext(t as int, b@),
        }
    }
}

impl View for MsgValue {
    type V = MsgSpec;

    open spec fn view(&self) -> MsgSpec {
        self.spec_of()
    }
}

/// The models of a sequence of values.
pub open spec fn values_spec(v: Seq<MsgValue>) -> Seq<MsgSpec> {
    v.map_values(|x: MsgValue| x@)
}

/// The models of a sequence of key/value pairs.
pub open spec fn pairs_spec(v: Seq<(MsgValue, MsgValue)>) -> Seq<(MsgSpec, MsgSpec)> {
    v.map_values(|p: (MsgValue, MsgValue)| (p.0@, p.1@))
}

/// A string value.
pub fn str_value(s: &str) -> (v: MsgValue)
    ensures
        v@ == MsgSpec::Str(s@),
{
    MsgValue::Str(s.to_owned())
}

/// An array of the given items.
pub fn array_value(items: Vec<MsgValue>) -> (v: MsgValue)
    ensures
        v@ == MsgSpec::Array(values_spec(items@)),
{
    let ghost g = items@;
    let v = MsgValue::Array(items);
    proof {
        match v@ {
            MsgSpec::Array(s) => {
                assert(s =~= values_spec(g));
            },
            _ => {},
        }
    }
    v
}

/// A map of the given key/value pairs, in order.
pub fn dict_value(pairs: Vec<(MsgValue, MsgValue)>) -> (v: MsgValue)
    ensures
        v@ == MsgSpec::Dict(pairs_spec(pairs@)),
{
    let ghost g = pairs@;
    let v = MsgValue::Dict(pairs);
    proof {
        match v@ {
            MsgSpec::Dict(s) => {
                assert(s =~= pairs_spec(g));
            },
            _ => {},
        }
    }
    v
}

// ── Encoding ────────────────────────────────────────────────────────

#[verifier::external_type_specification]
#[verifier::external_body]
pub struct ExRmpvValue(rmpv::Value);

/// The bytes that `rmpv::encode::write_value` writes for a value: its
/// MessagePack encoding in the compact forms that rmpv picks.
pub uninterp spec fn msgpack_encoding(value: MsgSpec) -> Seq<u8>;

/// The `rmpv::Value` that holds the same value, variant for variant
/// (`Int` through `Value::from(i64)`, `Str` through `Value::from(&str)`).
#[verifier::external_body]
fn rmpv_value_of(value: &MsgValue) -> rmpv::Value {
    match value {
        MsgValue::Nil => rmpv::Value::Nil,
        MsgValue::Int(n) => rmpv::Value::from(*n),
        MsgValue::Str(s) => rmpv::Value::from(s.as_str()),
        MsgValue::Array(items) => rmpv::Value::Array(items.iter().map(rmpv_value_of).collect()),
        MsgValue::Dict(pairs) => rmpv::Value::Map(
            pairs.iter().map(|p| (rmpv_value_of(&p.0), rmpv_value_of(&p.1))).collect(),
        ),
        MsgValue::Ext(ty, data) => rmpv::Value::Ext(*ty, data.clone()),
    }
}

/// `rmpv::encode::write_value` into a fresh `Vec<u8>`: claims that the bytes
/// are rmpv's encoding of the value, as a function of the value alone. Writing
/// into a `Vec` cannot fail.
#[verifier::external_body]
fn write_msgpack(value: &MsgValue) -> (bytes: Vec<u8>)
    ensures
        bytes@ == msgpack_encoding(value@),
{
    let mut buffer = Vec::new();
    rmpv::encode::write_value(&mut buffer, &rmpv_value_of(value)).expect(
        "msgpack encoding should not fail",
    );
    buffer
}

// ── Framing ─────────────────────────────────────────────────────────

/// The variable-length size prefix: seven bits per byte, least significant
/// group first, the high bit set on every byte but the last.
pub open spec fn varint(n: nat) -> Seq<u8>
    decreases n,
{
    if n < 128 {
        seq![n as u8]
    } else {
        seq![(n % 128 + 128) as u8] + varint(n / 128)
    }
}

/// A message as the hub protocol sends it: the size prefix, then the body.
pub open spec fn frame(body: Seq<u8>) -> Seq<u8> {
    varint(body.len()) + body
}

/// Reads a size prefix: the value and the number of bytes it took.
pub open spec fn varint_decode(b: Seq<u8>) -> (nat, nat)
    decreases b.len(),
{
    if b.len() == 0 {
        (0, 0)
    } else if b[0] < 128 {
        (b[0] as nat, 1)
    } else {
        let r = varint_decode(b.drop_first());
        ((b[0] - 128) as nat + 128 * r.0, r.1 + 1)
    }
}

/// Prefixes a message body with its size.
pub fn frame_message(body: Vec<u8>) -> (r: Vec<u8>)
    ensures
        r@ == frame(body@),
{
    let mut buffer = body;
    let ghost total = buffer@.len();
    let mut size: usize = buffer.len();
    let mut prefix: Vec<u8> = Vec::new();
    loop
        invariant_except_break
            prefix@ + varint(size as nat) == varint(total),
        ensures
            prefix@ == varint(total),
        decreases size,
    {
        let mut size_part = size & 0x7f;
        let rest = size >> 7;
        assert(size & 0x7f == size % 128 && size >> 7 == size / 128) by (bit_vector);
        if rest > 0 {
            assert(size_part < 128 ==> (size_part | 0x80) == size_part + 128) by (bit_vector);
            size_part = size_part | 0x80;
        }
        let ghost old_size = size;
        size = rest;
        prefix.push(size_part as u8);
        if size == 0 {
            assert(prefix@ =~= varint(total));
            break;
        }
        assert(prefix@ + varint(size as nat) =~= varint(total)) by {
            assert(varint(old_size as nat) =~= seq![(old_size % 128 + 128) as u8] + varint(
                size as nat,
            ));
        }
    }
    prefix.append(&mut buffer);
    prefix
}

/// Encodes a value and frames it: `serialize` of the hub protocol.
pub fn serialize(value: &MsgValue) -> (r: Vec<u8>)
    ensures
        r@ == frame(msgpack_encoding(value@)),
{
    frame_message(write_msgpack(value))
}

/// The size prefix reads back as the size it was made from, whatever follows it.
pub proof fn lemma_varint_decode(n: nat, rest: Seq<u8>)
    ensures
        varint_decode(varint(n) + rest) == (n, varint(n).len()),
    decreases n,
{
    let b = varint(n) + rest;
    if n >= 128 {
        lemma_varint_decode(n / 128, rest);
        assert(b.drop_first() =~= varint(n / 128) + rest);
    }
}

/// A framed message reads back as its body: the prefix gives the body's
/// size and the body follows the prefix.
pub proof fn lemma_frame_roundtrip(body: Seq<u8>)
    ensures
        varint_decode(frame(body)).0 == body.len(),
        frame(body).skip(varint_decode(frame(body)).1 as int) == body,
{
    lemma_varint_decode(body.len(), body);
    assert(frame(body).skip(varint(body.len()).len() as int) =~= body);
}

} // verus!
