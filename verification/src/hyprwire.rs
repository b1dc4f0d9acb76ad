//! The hyprwire binary wire format: values, messages, their encoding and the
//! bounded decoder.
//!
//! A message is a code byte, its arguments and an end byte. Each argument is a
//! type byte and its payload. Lengths are little-endian base-128 varints that
//! must fit in 32 bits.

use vstd::prelude::*;
use vstd::slice::*;
use vstd::string::*;
use vstd::utf8::*;

use crate::text;

verus! {

pub const HW_SUP: u8 = 0x01;

pub const HW_HANDSHAKE_BEGIN: u8 = 0x02;

pub const HW_HANDSHAKE_ACK: u8 = 0x03;

pub const HW_HANDSHAKE_PROTOCOLS: u8 = 0x04;

pub const HW_BIND_PROTOCOL: u8 = 0x0A;

pub const HW_NEW_OBJECT: u8 = 0x0B;

pub const HW_FATAL_PROTOCOL_ERROR: u8 = 0x0C;

pub const HW_ROUNDTRIP_REQUEST: u8 = 0x0D;

pub const HW_ROUNDTRIP_DONE: u8 = 0x0E;

pub const HW_GENERIC_PROTOCOL_MESSAGE: u8 = 0x64;

pub const HW_END: u8 = 0x00;

pub const HW_UINT: u8 = 0x10;

pub const HW_SEQ: u8 = 0x13;

pub const HW_VARCHAR: u8 = 0x20;

pub const HW_ARRAY: u8 = 0x21;

pub const HW_OBJECT: u8 = 0x22;

/// Longest accepted string, in bytes. Far above any real path, and low enough
/// that a peer out of step cannot force a large allocation.
pub const HW_MAX_VARCHAR_LEN: usize = 65536;

/// Longest accepted array.
pub const HW_MAX_ARRAY_COUNT: usize = 4096;

/// A typed argument of a message.
#[derive(Debug)]
pub enum HyprwireValue {
    Uint(u32),
    Sequence(u32),
    Varchar(String),
    ArrayUint(Vec<u32>),
    ArrayVarchar(Vec<String>),
    Object(u32),
}

#[derive(Debug)]
pub struct HyprwireMessage {
    pub code: u8,
    pub args: Vec<HyprwireValue>,
}

/// What a `HyprwireValue` stands for.
pub enum WireValue {
    Uint(u32),
    Sequence(u32),
    Varchar(Seq<char>),
    ArrayUint(Seq<u32>),
    ArrayVarchar(Seq<Seq<char>>),
    Object(u32),
}

/// What a `HyprwireMessage` stands for.
pub struct WireMessage {
    pub code: u8,
    pub args: Seq<WireValue>,
}

impl View for HyprwireValue {
    type V = WireValue;

    open spec fn view(&self) -> WireValue {
        match self {
            HyprwireValue::Uint(v) => WireValue::Uint(*v),
            HyprwireValue::Sequence(v) => WireValue::Sequence(*v),
            HyprwireValue::Varchar(s) => WireValue::Varchar(s@),
            HyprwireValue::ArrayUint(a) => WireValue::ArrayUint(a@),
            HyprwireValue::ArrayVarchar(a) => WireValue::ArrayVarchar(text::string_views(a@)),
            HyprwireValue::Object(v) => WireValue::Object(*v),
        }
    }
}

pub open spec fn value_views(args: Seq<HyprwireValue>) -> Seq<WireValue> {
    args.map_values(|v: HyprwireValue| v@)
}

impl View for HyprwireMessage {
    type V = WireMessage;

    open spec fn view(&self) -> WireMessage {
        WireMessage { code: self.code, args: value_views(self.args@) }
    }
}

/// Why bytes do not decode.
#[derive(Debug)]
pub enum HyprwireError {
    /// The bytes end before the value does.
    Truncated,
    VarintRange,
    VarintTooLarge,
    VarcharTooLong(usize),
    ArrayTooLong(usize),
    BadMagic(u8),
    BadItemType(u8),
    InvalidUtf8(String),
}

/// What a `HyprwireError` stands for.
pub enum WireError {
    Truncated,
    VarintRange,
    VarintTooLarge,
    VarcharTooLong(nat),
    ArrayTooLong(nat),
    BadMagic(u8),
    BadItemType(u8),
    InvalidUtf8(Seq<char>),
}

impl View for HyprwireError {
    type V = WireError;

    open spec fn view(&self) -> WireError {
        match self {
            HyprwireError::Truncated => WireError::Truncated,
            HyprwireError::VarintRange => WireError::VarintRange,
            HyprwireError::VarintTooLarge => WireError::VarintTooLarge,
            HyprwireError::VarcharTooLong(n) => WireError::VarcharTooLong(*n as nat),
            HyprwireError::ArrayTooLong(n) => WireError::ArrayTooLong(*n as nat),
            HyprwireError::BadMagic(b) => WireError::BadMagic(*b),
            HyprwireError::BadItemType(b) => WireError::BadItemType(*b),
            HyprwireError::InvalidUtf8(s) => WireError::InvalidUtf8(s@),
        }
    }
}

/// The text shown for an error.
pub open spec fn error_text(e: WireError) -> Seq<char> {
    match e {
        WireError::Truncated => "failed to fill whole buffer"@,
        WireError::VarintRange => "hyprwire varint exceeds u32 range"@,
        WireError::VarintTooLarge => "hyprwire varint too large"@,
        WireError::VarcharTooLong(n) => "hyprwire varchar length "@ + text::dec(n) + " exceeds cap "@
            + text::dec(HW_MAX_VARCHAR_LEN as nat),
        WireError::ArrayTooLong(n) => "hyprwire array count "@ + text::dec(n) + " exceeds cap "@ + text::dec(
            HW_MAX_ARRAY_COUNT as nat,
        ),
        WireError::BadMagic(b) => "unsupported hyprwire magic byte "@ + text::hex_byte_spec(b),
        WireError::BadItemType(b) => "unsupported hyprwire array item type "@ + text::hex_byte_spec(b),
        WireError::InvalidUtf8(s) => s,
    }
}

impl HyprwireError {
    /// The text shown for this error.
    pub fn message(&self) -> (r: String)
        ensures
            r@ == error_text(self@),
    {
        match self {
            HyprwireError::Truncated => "failed to fill whole buffer".to_string(),
            HyprwireError::VarintRange => "hyprwire varint exceeds u32 range".to_string(),
            HyprwireError::VarintTooLarge => "hyprwire varint too large".to_string(),
            HyprwireError::VarcharTooLong(n) => {
                let mut s = "hyprwire varchar length ".to_string();
                s.append(text::decimal(*n as u64).as_str());
                s.append(" exceeds cap ");
                s.append(text::decimal(HW_MAX_VARCHAR_LEN as u64).as_str());
                s
            },
            HyprwireError::ArrayTooLong(n) => {
                let mut s = "hyprwire array count ".to_string();
                s.append(text::decimal(*n as u64).as_str());
                s.append(" exceeds cap ");
                s.append(text::decimal(HW_MAX_ARRAY_COUNT as u64).as_str());
                s
            },
            HyprwireError::BadMagic(b) => {
                let mut s = "unsupported hyprwire magic byte ".to_string();
                s.append(text::hex_byte(*b).as_str());
                s
            },
            HyprwireError::BadItemType(b) => {
                let mut s = "unsupported hyprwire array item type ".to_string();
                s.append(text::hex_byte(*b).as_str());
                s
            },
            HyprwireError::InvalidUtf8(s) => s.clone(),
        }
    }
}

// ---------------------------------------------------------------------------
// Encoding
// ---------------------------------------------------------------------------

/// `n` in base 128, least digit first; every byte but the last has its high
/// bit set.
pub open spec fn varint_bytes(n: nat) -> Seq<u8>
    decreases n,
{
    if n < 128 {
        seq![n as u8]
    } else {
        seq![(n % 128 + 128) as u8] + varint_bytes(n / 128)
    }
}

/// The four bytes of `v`, least first.
pub open spec fn le_bytes(v: u32) -> Seq<u8> {
    seq![
        (v % 256) as u8,
        (v / 256 % 256) as u8,
        (v / 65536 % 256) as u8,
        (v / 16777216) as u8,
    ]
}

pub open spec fn uint_list_bytes(items: Seq<u32>) -> Seq<u8>
    decreases items.len(),
{
    if items.len() == 0 {
        Seq::empty()
    } else {
        le_bytes(items[0]) + uint_list_bytes(items.drop_first())
    }
}

/// A string as its length in bytes and its UTF-8 bytes.
pub open spec fn varchar_bytes(s: Seq<char>) -> Seq<u8> {
    varint_bytes(encode_utf8(s).len()) + encode_utf8(s)
}

pub open spec fn varchar_list_bytes(items: Seq<Seq<char>>) -> Seq<u8>
    decreases items.len(),
{
    if items.len() == 0 {
        Seq::empty()
    } else {
        varchar_bytes(items[0]) + varchar_list_bytes(items.drop_first())
    }
}

pub open spec fn value_magic(v: WireValue) -> u8 {
    match v {
        WireValue::Uint(_) => HW_UINT,
        WireValue::Sequence(_) => HW_SEQ,
        WireValue::Object(_) => HW_OBJECT,
        WireValue::Varchar(_) => HW_VARCHAR,
        WireValue::ArrayUint(_) | WireValue::ArrayVarchar(_) => HW_ARRAY,
    }
}

pub open spec fn value_payload(v: WireValue) -> Seq<u8> {
    match v {
        WireValue::Uint(x) | WireValue::Sequence(x) | WireValue::Object(x) => le_bytes(x),
        WireValue::Varchar(s) => varchar_bytes(s),
        WireValue::ArrayUint(a) => seq![HW_UINT] + varint_bytes(a.len()) + uint_list_bytes(a),
        WireValue::ArrayVarchar(a) => seq![HW_VARCHAR] + varint_bytes(a.len())
            + varchar_list_bytes(a),
    }
}

pub open spec fn value_bytes(v: WireValue) -> Seq<u8> {
    seq![value_magic(v)] + value_payload(v)
}

pub open spec fn args_bytes(args: Seq<WireValue>) -> Seq<u8>
    decreases args.len(),
{
    if args.len() == 0 {
        seq![HW_END]
    } else {
        value_bytes(args[0]) + args_bytes(args.drop_first())
    }
}

pub open spec fn message_bytes(m: WireMessage) -> Seq<u8> {
    seq![m.code] + args_bytes(m.args)
}

fn push_bytes(buffer: &mut Vec<u8>, bytes: &[u8])
    ensures
        final(buffer)@ == old(buffer)@ + bytes@,
{
    let mut i: usize = 0;
    let ghost start = buffer@;
    assert(start + bytes@.take(0) =~= start);
    while i < bytes.len()
        invariant
            i <= bytes.len(),
            buffer@ == start + bytes@.take(i as int),
        decreases bytes.len() - i,
    {
        buffer.push(bytes[i]);
        assert(start + bytes@.take(i + 1) =~= (start + bytes@.take(i as int)).push(
            bytes@[i as int],
        ));
        i += 1;
    }
    assert(bytes@.take(i as int) =~= bytes@);
}

fn push_u32(buffer: &mut Vec<u8>, v: u32)
    ensures
        final(buffer)@ == old(buffer)@ + le_bytes(v),
{
    let ghost start = buffer@;
    buffer.push((v % 256) as u8);
    buffer.push((v / 256 % 256) as u8);
    buffer.push((v / 65536 % 256) as u8);
    buffer.push((v / 16777216) as u8);
    assert(buffer@ =~= start + le_bytes(v));
}

/// `value` as a varint.
pub fn encode_varint(value: usize) -> (out: Vec<u8>)
    ensures
        out@ == varint_bytes(value as nat),
{
    let mut out: Vec<u8> = Vec::new();
    let mut rest: usize = value;
    assert(out@ + varint_bytes(rest as nat) =~= varint_bytes(value as nat));
    while rest >= 128
        invariant
            out@ + varint_bytes(rest as nat) == varint_bytes(value as nat),
        decreases rest,
    {
        let ghost before = out@;
        let byte: u8 = (rest % 128) as u8 + 128;
        out.push(byte);
        assert(out@ + varint_bytes((rest / 128) as nat) =~= before + (seq![byte] + varint_bytes(
            (rest / 128) as nat,
        )));
        rest = rest / 128;
    }
    out.push(rest as u8);
    out
}

fn push_varchar(buffer: &mut Vec<u8>, s: &str)
    ensures
        final(buffer)@ == old(buffer)@ + varchar_bytes(s@),
{
    let ghost start = buffer@;
    let bytes = s.as_bytes();
    let len = encode_varint(bytes.len());
    push_bytes(buffer, len.as_slice());
    push_bytes(buffer, bytes);
    assert(buffer@ =~= start + varchar_bytes(s@));
}

/// Append `value` to `buffer`.
pub fn encode_value(buffer: &mut Vec<u8>, value: &HyprwireValue)
    ensures
        final(buffer)@ == old(buffer)@ + value_bytes(value@),
{
    let ghost start = buffer@;
    match value {
        HyprwireValue::Uint(v) => {
            buffer.push(HW_UINT);
            push_u32(buffer, *v);
            assert(buffer@ =~= start + value_bytes(value@));
        },
        HyprwireValue::Sequence(v) => {
            buffer.push(HW_SEQ);
            push_u32(buffer, *v);
            assert(buffer@ =~= start + value_bytes(value@));
        },
        HyprwireValue::Object(v) => {
            buffer.push(HW_OBJECT);
            push_u32(buffer, *v);
            assert(buffer@ =~= start + value_bytes(value@));
        },
        HyprwireValue::Varchar(v) => {
            buffer.push(HW_VARCHAR);
            push_varchar(buffer, v.as_str());
            assert(buffer@ =~= start + value_bytes(value@));
        },
        HyprwireValue::ArrayUint(values) => {
            buffer.push(HW_ARRAY);
            buffer.push(HW_UINT);
            let len = encode_varint(values.len());
            push_bytes(buffer, len.as_slice());
            let ghost head = buffer@;
            assert(head =~= start + (seq![HW_ARRAY] + (seq![HW_UINT] + varint_bytes(
                values@.len(),
            ))));
            let mut i: usize = 0;
            assert(values@.skip(0) =~= values@);
            while i < values.len()
                invariant
                    i <= values.len(),
                    buffer@ + uint_list_bytes(values@.skip(i as int)) == head + uint_list_bytes(
                        values@,
                    ),
                decreases values.len() - i,
            {
                let ghost before = buffer@;
                push_u32(buffer, values[i]);
                assert(values@.skip(i as int).drop_first() =~= values@.skip(i + 1));
                assert(buffer@ + uint_list_bytes(values@.skip(i + 1)) =~= before + (le_bytes(
                    values@[i as int],
                ) + uint_list_bytes(values@.skip(i + 1))));
                i += 1;
            }
            assert(uint_list_bytes(values@.skip(i as int)) =~= Seq::<u8>::empty());
            assert(buffer@ =~= head + uint_list_bytes(values@));
            assert(buffer@ =~= start + value_bytes(value@));
        },
        HyprwireValue::ArrayVarchar(values) => {
            let ghost items = text::string_views(values@);
            buffer.push(HW_ARRAY);
            buffer.push(HW_VARCHAR);
            let len = encode_varint(values.len());
            push_bytes(buffer, len.as_slice());
            let ghost head = buffer@;
            assert(head =~= start + (seq![HW_ARRAY] + (seq![HW_VARCHAR] + varint_bytes(
                items.len(),
            ))));
            let mut i: usize = 0;
            assert(items.skip(0) =~= items);
            while i < values.len()
                invariant
                    i <= values.len(),
                    items == text::string_views(values@),
                    buffer@ + varchar_list_bytes(items.skip(i as int)) == head + varchar_list_bytes(
                        items,
                    ),
                decreases values.len() - i,
            {
                let ghost before = buffer@;
                push_varchar(buffer, values[i].as_str());
                assert(items.skip(i as int).drop_first() =~= items.skip(i + 1));
                assert(buffer@ + varchar_list_bytes(items.skip(i + 1)) =~= before + (varchar_bytes(
                    items[i as int],
                ) + varchar_list_bytes(items.skip(i + 1))));
                i += 1;
            }
            assert(varchar_list_bytes(items.skip(i as int)) =~= Seq::<u8>::empty());
            assert(buffer@ =~= head + varchar_list_bytes(items));
            assert(buffer@ =~= start + value_bytes(value@));
        },
    }
}

/// The bytes of a message with the given code and arguments.
pub fn encode_message(code: u8, args: &[HyprwireValue]) -> (buffer: Vec<u8>)
    ensures
        buffer@ == message_bytes(WireMessage { code, args: value_views(args@) }),
{
    let mut buffer: Vec<u8> = Vec::new();
    buffer.push(code);
    let ghost views = value_views(args@);
    let mut i: usize = 0;
    assert(views.skip(0) =~= views);
    assert(buffer@ + args_bytes(views) =~= seq![code] + args_bytes(views));
    while i < args.len()
        invariant
            i <= args.len(),
            views == value_views(args@),
            buffer@ + args_bytes(views.skip(i as int)) == seq![code] + args_bytes(views),
        decreases args.len() - i,
    {
        let ghost before = buffer@;
        encode_value(&mut buffer, &args[i]);
        assert(views.skip(i as int).drop_first() =~= views.skip(i + 1));
        assert(buffer@ + args_bytes(views.skip(i + 1)) =~= before + (value_bytes(views[i as int])
            + args_bytes(views.skip(i + 1))));
        i += 1;
    }
    assert(views.skip(i as int).len() == 0);
    buffer.push(HW_END);
    assert(buffer@ =~= seq![code] + args_bytes(views));
    buffer
}


// ---------------------------------------------------------------------------
// Decoding
// ---------------------------------------------------------------------------

/// Reads a varint of which `k` bytes have been read: the value that the
/// following bytes add, in units of the byte that comes next, and how many
/// they are.
pub open spec fn varint_tail(b: Seq<u8>, k: nat) -> Result<(nat, nat), WireError>
    decreases b.len(),
{
    if b.len() == 0 {
        Err(WireError::Truncated)
    } else if k == 4 && b[0] % 128 >= 16 {
        Err(WireError::VarintRange)
    } else if b[0] < 128 {
        Ok((b[0] as nat, 1))
    } else if k >= 4 {
        Err(WireError::VarintTooLarge)
    } else {
        match varint_tail(b.drop_first(), k + 1) {
            Ok((v, n)) => Ok(((b[0] - 128) as nat + 128 * v, n + 1)),
            Err(e) => Err(e),
        }
    }
}

/// The varint at the start of `b` and its length.
pub open spec fn decode_varint(b: Seq<u8>) -> Result<(nat, nat), WireError> {
    varint_tail(b, 0)
}

/// The number that four bytes denote, least first.
pub open spec fn le_value(b: Seq<u8>) -> u32 {
    (b[0] + 256 * b[1] + 65536 * b[2] + 16777216 * b[3]) as u32
}

pub open spec fn decode_u32(b: Seq<u8>) -> Result<(u32, nat), WireError> {
    if b.len() < 4 {
        Err(WireError::Truncated)
    } else {
        Ok((le_value(b), 4))
    }
}

/// The text of the error with which `String::from_utf8` refuses `bytes`.
pub uninterp spec fn utf8_error_text(bytes: Seq<u8>) -> Seq<char>;

/// The length-prefixed string at the start of `b` and how many bytes it takes.
pub open spec fn decode_varchar(b: Seq<u8>) -> Result<(Seq<char>, nat), WireError> {
    match decode_varint(b) {
        Err(e) => Err(e),
        Ok((len, n)) => if len > HW_MAX_VARCHAR_LEN {
            Err(WireError::VarcharTooLong(len))
        } else if b.len() < n + len {
            Err(WireError::Truncated)
        } else {
            let body = b.subrange(n as int, (n + len) as int);
            if valid_utf8(body) {
                Ok((decode_utf8(body), n + len))
            } else {
                Err(WireError::InvalidUtf8(utf8_error_text(body)))
            }
        },
    }
}

/// `count` numbers at the start of `b`.
pub open spec fn decode_uints(b: Seq<u8>, count: nat) -> Result<(Seq<u32>, nat), WireError>
    decreases count,
{
    if count == 0 {
        Ok((Seq::empty(), 0))
    } else {
        match decode_u32(b) {
            Err(e) => Err(e),
            Ok((v, n)) => match decode_uints(b.skip(n as int), (count - 1) as nat) {
                Err(e) => Err(e),
                Ok((vs, m)) => Ok((seq![v] + vs, n + m)),
            },
        }
    }
}

/// `count` strings at the start of `b`.
pub open spec fn decode_varchars(b: Seq<u8>, count: nat) -> Result<(Seq<Seq<char>>, nat), WireError>
    decreases count,
{
    if count == 0 {
        Ok((Seq::empty(), 0))
    } else {
        match decode_varchar(b) {
            Err(e) => Err(e),
            Ok((v, n)) => match decode_varchars(b.skip(n as int), (count - 1) as nat) {
                Err(e) => Err(e),
                Ok((vs, m)) => Ok((seq![v] + vs, n + m)),
            },
        }
    }
}

/// The array payload at the start of `b`: item type, count and items.
pub open spec fn decode_array(b: Seq<u8>) -> Result<(WireValue, nat), WireError> {
    if b.len() == 0 {
        Err(WireError::Truncated)
    } else {
        match decode_varint(b.skip(1)) {
            Err(e) => Err(e),
            Ok((count, n)) => {
                let rest = b.skip(1 + n as int);
                if count > HW_MAX_ARRAY_COUNT {
                    Err(WireError::ArrayTooLong(count))
                } else if b[0] == HW_UINT {
                    match decode_uints(rest, count) {
                        Err(e) => Err(e),
                        Ok((items, m)) => Ok((WireValue::ArrayUint(items), 1 + n + m)),
                    }
                } else if b[0] == HW_VARCHAR {
                    match decode_varchars(rest, count) {
                        Err(e) => Err(e),
                        Ok((items, m)) => Ok((WireValue::ArrayVarchar(items), 1 + n + m)),
                    }
                } else {
                    Err(WireError::BadItemType(b[0]))
                }
            },
        }
    }
}

/// The payload of a value of type `magic` at the start of `b`.
pub open spec fn decode_value(magic: u8, b: Seq<u8>) -> Result<(WireValue, nat), WireError> {
    if magic == HW_UINT || magic == HW_SEQ || magic == HW_OBJECT {
        match decode_u32(b) {
            Err(e) => Err(e),
            Ok((v, n)) => Ok(
                (
                    if magic == HW_UINT {
                        WireValue::Uint(v)
                    } else if magic == HW_SEQ {
                        WireValue::Sequence(v)
                    } else {
                        WireValue::Object(v)
                    },
                    n,
                ),
            ),
        }
    } else if magic == HW_VARCHAR {
        match decode_varchar(b) {
            Err(e) => Err(e),
            Ok((s, n)) => Ok((WireValue::Varchar(s), n)),
        }
    } else if magic == HW_ARRAY {
        decode_array(b)
    } else {
        Err(WireError::BadMagic(magic))
    }
}

/// The arguments at the start of `b` up to and with the end byte.
pub open spec fn decode_args(b: Seq<u8>) -> Result<(Seq<WireValue>, nat), WireError>
    decreases b.len(),
{
    if b.len() == 0 {
        Err(WireError::Truncated)
    } else if b[0] == HW_END {
        Ok((Seq::empty(), 1))
    } else {
        proof {
            lemma_decode_value(b[0], b.skip(1));
        }
        match decode_value(b[0], b.skip(1)) {
            Err(e) => Err(e),
            Ok((v, n)) => match decode_args(b.skip(1 + n as int)) {
                Err(e) => Err(e),
                Ok((vs, m)) => Ok((seq![v] + vs, 1 + n + m)),
            },
        }
    }
}

/// The message at the start of `b` and how many bytes it takes.
pub open spec fn decode_message(b: Seq<u8>) -> Result<(WireMessage, nat), WireError> {
    if b.len() == 0 {
        Err(WireError::Truncated)
    } else {
        match decode_args(b.skip(1)) {
            Err(e) => Err(e),
            Ok((args, n)) => Ok((WireMessage { code: b[0], args }, 1 + n)),
        }
    }
}

/// The largest value that a varint can still add after `k` bytes.
spec fn varint_bound(k: nat) -> nat {
    if k == 0 {
        0x1_0000_0000
    } else if k == 1 {
        0x200_0000
    } else if k == 2 {
        0x4_0000
    } else if k == 3 {
        0x800
    } else {
        0x10
    }
}

proof fn lemma_varint_tail(b: Seq<u8>, k: nat)
    requires
        k <= 4,
    ensures
        varint_tail(b, k) matches Ok((v, n)) ==> 1 <= n <= b.len() && v < varint_bound(k),
    decreases b.len(),
{
    if b.len() > 0 && b[0] >= 128 && k < 4 {
        lemma_varint_tail(b.drop_first(), k + 1);
    }
}

proof fn lemma_decode_uints(b: Seq<u8>, count: nat)
    ensures
        decode_uints(b, count) matches Ok((vs, n)) ==> n <= b.len() && vs.len() == count,
    decreases count,
{
    if count > 0 && b.len() >= 4 {
        lemma_decode_uints(b.skip(4), (count - 1) as nat);
    }
}

proof fn lemma_decode_varchar(b: Seq<u8>)
    ensures
        decode_varchar(b) matches Ok((s, n)) ==> 1 <= n <= b.len(),
{
    lemma_varint_tail(b, 0);
}

proof fn lemma_decode_varchars(b: Seq<u8>, count: nat)
    ensures
        decode_varchars(b, count) matches Ok((vs, n)) ==> n <= b.len() && vs.len() == count,
    decreases count,
{
    if count > 0 {
        lemma_decode_varchar(b);
        if let Ok((v, n)) = decode_varchar(b) {
            lemma_decode_varchars(b.skip(n as int), (count - 1) as nat);
        }
    }
}

pub proof fn lemma_decode_value(magic: u8, b: Seq<u8>)
    ensures
        decode_value(magic, b) matches Ok((v, n)) ==> n <= b.len(),
{
    lemma_decode_varchar(b);
    if b.len() > 0 {
        lemma_varint_tail(b.skip(1), 0);
        if let Ok((count, n)) = decode_varint(b.skip(1)) {
            lemma_decode_uints(b.skip(1 + n as int), count);
            lemma_decode_varchars(b.skip(1 + n as int), count);
        }
    }
}

/// `String::from_utf8`: succeeds exactly on valid UTF-8, with the characters
/// that the bytes encode. The text of its error is a function of the bytes.
#[verifier::external_body]
pub(crate) fn string_from_utf8(bytes: Vec<u8>) -> (r: Result<String, String>)
    ensures
        match r {
            Ok(s) => valid_utf8(bytes@) && s@ == decode_utf8(bytes@),
            Err(e) => !valid_utf8(bytes@) && e@ == utf8_error_text(bytes@),
        },
{
    String::from_utf8(bytes).map_err(|e| e.to_string())
}

fn read_varint_tail(bytes: &[u8], pos: usize, k: u8) -> (r: Result<(u32, usize), HyprwireError>)
    requires
        pos <= bytes@.len(),
        k <= 4,
    ensures
        match (r, varint_tail(bytes@.skip(pos as int), k as nat)) {
            (Ok((v, next)), Ok((w, n))) => v == w && next == pos + n && next <= bytes@.len() && v
                < varint_bound(k as nat),
            (Err(e), Err(f)) => e@ == f,
            _ => false,
        },
    decreases 4 - k,
{
    let ghost b = bytes@.skip(pos as int);
    if pos == bytes.len() {
        return Err(HyprwireError::Truncated);
    }
    let byte = bytes[pos];
    assert(b[0] == byte);
    if k == 4 && byte % 128 >= 16 {
        return Err(HyprwireError::VarintRange);
    }
    if byte < 128 {
        return Ok((byte as u32, pos + 1));
    }
    if k >= 4 {
        return Err(HyprwireError::VarintTooLarge);
    }
    assert(b.drop_first() =~= bytes@.skip(pos + 1));
    match read_varint_tail(bytes, pos + 1, k + 1) {
        Ok((v, next)) => Ok(((byte - 128) as u32 + 128 * v, next)),
        Err(e) => Err(e),
    }
}

/// The varint at `pos` and the position after it.
pub fn read_varint(bytes: &[u8], pos: usize) -> (r: Result<(usize, usize), HyprwireError>)
    requires
        pos <= bytes@.len(),
    ensures
        match (r, decode_varint(bytes@.skip(pos as int))) {
            (Ok((v, next)), Ok((w, n))) => v == w && next == pos + n && next <= bytes@.len(),
            (Err(e), Err(f)) => e@ == f,
            _ => false,
        },
{
    match read_varint_tail(bytes, pos, 0) {
        Ok((v, next)) => Ok((v as usize, next)),
        Err(e) => Err(e),
    }
}

/// The four-byte number at `pos` and the position after it.
pub fn read_u32(bytes: &[u8], pos: usize) -> (r: Result<(u32, usize), HyprwireError>)
    requires
        pos <= bytes@.len(),
    ensures
        match (r, decode_u32(bytes@.skip(pos as int))) {
            (Ok((v, next)), Ok((w, n))) => v == w && next == pos + n && next <= bytes@.len(),
            (Err(e), Err(f)) => e@ == f,
            _ => false,
        },
{
    if bytes.len() - pos < 4 {
        return Err(HyprwireError::Truncated);
    }
    let v: u32 = bytes[pos] as u32 + 256 * (bytes[pos + 1] as u32) + 65536 * (bytes[pos + 2] as u32)
        + 16777216 * (bytes[pos + 3] as u32);
    Ok((v, pos + 4))
}

/// The string at `pos` and the position after it.
fn read_varchar(bytes: &[u8], pos: usize) -> (r: Result<(String, usize), HyprwireError>)
    requires
        pos <= bytes@.len(),
    ensures
        match (r, decode_varchar(bytes@.skip(pos as int))) {
            (Ok((s, next)), Ok((t, n))) => s@ == t && next == pos + n && next <= bytes@.len(),
            (Err(e), Err(f)) => e@ == f,
            _ => false,
        },
{
    let ghost b = bytes@.skip(pos as int);
    match read_varint(bytes, pos) {
        Err(e) => Err(e),
        Ok((len, start)) => {
            if len > HW_MAX_VARCHAR_LEN {
                return Err(HyprwireError::VarcharTooLong(len));
            }
            if bytes.len() - start < len {
                return Err(HyprwireError::Truncated);
            }
            let body = slice_to_vec(slice_subrange(bytes, start, start + len));
            assert(body@ =~= b.subrange(start - pos, start - pos + len));
            match string_from_utf8(body) {
                Ok(s) => Ok((s, start + len)),
                Err(e) => Err(HyprwireError::InvalidUtf8(e)),
            }
        },
    }
}

fn read_uints(bytes: &[u8], pos: usize, count: usize) -> (r: Result<
    (Vec<u32>, usize),
    HyprwireError,
>)
    requires
        pos <= bytes@.len(),
    ensures
        match (r, decode_uints(bytes@.skip(pos as int), count as nat)) {
            (Ok((v, next)), Ok((w, n))) => v@ == w && next == pos + n && next <= bytes@.len(),
            (Err(e), Err(f)) => e@ == f,
            _ => false,
        },
{
    let mut items: Vec<u32> = Vec::new();
    let mut at: usize = pos;
    let mut i: usize = 0;
    let ghost whole = decode_uints(bytes@.skip(pos as int), count as nat);
    while i < count
        invariant
            i <= count,
            pos <= at <= bytes@.len(),
            whole == decode_uints(bytes@.skip(pos as int), count as nat),
            match decode_uints(bytes@.skip(at as int), (count - i) as nat) {
                Err(e) => whole == Err::<(Seq<u32>, nat), WireError>(e),
                Ok((w, n)) => whole == Ok::<(Seq<u32>, nat), WireError>(
                    (items@ + w, (at - pos) as nat + n),
                ),
            },
        decreases count - i,
    {
        let ghost before = items@;
        let ghost here = bytes@.skip(at as int);
        match read_u32(bytes, at) {
            Err(e) => {
                return Err(e);
            },
            Ok((v, next)) => {
                assert(here.skip(4) =~= bytes@.skip(next as int));
                items.push(v);
                proof {
                    if let Ok((w, n)) = decode_uints(
                        bytes@.skip(next as int),
                        (count - i - 1) as nat,
                    ) {
                        assert(before + (seq![v] + w) =~= items@ + w);
                    }
                }
                at = next;
            },
        }
        i += 1;
    }
    proof {
        assert(decode_uints(bytes@.skip(at as int), 0) == Ok::<(Seq<u32>, nat), WireError>(
            (Seq::empty(), 0),
        ));
        assert(items@ + Seq::<u32>::empty() =~= items@);
    }
    Ok((items, at))
}

fn read_varchars(bytes: &[u8], pos: usize, count: usize) -> (r: Result<
    (Vec<String>, usize),
    HyprwireError,
>)
    requires
        pos <= bytes@.len(),
    ensures
        match (r, decode_varchars(bytes@.skip(pos as int), count as nat)) {
            (Ok((v, next)), Ok((w, n))) => text::string_views(v@) == w && next == pos + n && next
                <= bytes@.len(),
            (Err(e), Err(f)) => e@ == f,
            _ => false,
        },
{
    let mut items: Vec<String> = Vec::new();
    let mut at: usize = pos;
    let mut i: usize = 0;
    let ghost whole = decode_varchars(bytes@.skip(pos as int), count as nat);
    proof {
        if let Ok((w, n)) = whole {
            assert(text::string_views(items@) + w =~= w);
        }
    }
    while i < count
        invariant
            i <= count,
            pos <= at <= bytes@.len(),
            whole == decode_varchars(bytes@.skip(pos as int), count as nat),
            match decode_varchars(bytes@.skip(at as int), (count - i) as nat) {
                Err(e) => whole == Err::<(Seq<Seq<char>>, nat), WireError>(e),
                Ok((w, n)) => whole == Ok::<(Seq<Seq<char>>, nat), WireError>(
                    (text::string_views(items@) + w, (at - pos) as nat + n),
                ),
            },
        decreases count - i,
    {
        let ghost before = items@;
        let ghost here = bytes@.skip(at as int);
        match read_varchar(bytes, at) {
            Err(e) => {
                return Err(e);
            },
            Ok((v, next)) => {
                assert(here.skip(next - at) =~= bytes@.skip(next as int));
                let ghost vv = v@;
                items.push(v);
                assert(text::string_views(items@) =~= text::string_views(before).push(vv));
                proof {
                    if let Ok((w, n)) = decode_varchars(
                        bytes@.skip(next as int),
                        (count - i - 1) as nat,
                    ) {
                        assert(text::string_views(before) + (seq![vv] + w) =~= text::string_views(
                            items@,
                        ) + w);
                    }
                }
                at = next;
            },
        }
        i += 1;
    }
    proof {
        assert(decode_varchars(bytes@.skip(at as int), 0) == Ok::<
            (Seq<Seq<char>>, nat),
            WireError,
        >((Seq::empty(), 0)));
        assert(text::string_views(items@) + Seq::<Seq<char>>::empty() =~= text::string_views(
            items@,
        ));
    }
    Ok((items, at))
}

/// The array payload at `pos` and the position after it.
pub fn read_array(bytes: &[u8], pos: usize) -> (r: Result<(HyprwireValue, usize), HyprwireError>)
    requires
        pos <= bytes@.len(),
    ensures
        match (r, decode_array(bytes@.skip(pos as int))) {
            (Ok((v, next)), Ok((w, n))) => v@ == w && next == pos + n && next <= bytes@.len(),
            (Err(e), Err(f)) => e@ == f,
            _ => false,
        },
{
    let ghost b = bytes@.skip(pos as int);
    if pos == bytes.len() {
        return Err(HyprwireError::Truncated);
    }
    let item_type = bytes[pos];
    assert(b.skip(1) =~= bytes@.skip(pos + 1));
    match read_varint(bytes, pos + 1) {
        Err(e) => Err(e),
        Ok((count, start)) => {
            assert(b.skip(start - pos) =~= bytes@.skip(start as int));
            if count > HW_MAX_ARRAY_COUNT {
                return Err(HyprwireError::ArrayTooLong(count));
            }
            if item_type == HW_UINT {
                match read_uints(bytes, start, count) {
                    Err(e) => Err(e),
                    Ok((items, next)) => Ok((HyprwireValue::ArrayUint(items), next)),
                }
            } else if item_type == HW_VARCHAR {
                match read_varchars(bytes, start, count) {
                    Err(e) => Err(e),
                    Ok((items, next)) => Ok((HyprwireValue::ArrayVarchar(items), next)),
                }
            } else {
                Err(HyprwireError::BadItemType(item_type))
            }
        },
    }
}

/// The value of type `magic` whose payload stands at `pos`, and the position
/// after it.
pub fn read_value(magic: u8, bytes: &[u8], pos: usize) -> (r: Result<
    (HyprwireValue, usize),
    HyprwireError,
>)
    requires
        pos <= bytes@.len(),
    ensures
        match (r, decode_value(magic, bytes@.skip(pos as int))) {
            (Ok((v, next)), Ok((w, n))) => v@ == w && next == pos + n && next <= bytes@.len(),
            (Err(e), Err(f)) => e@ == f,
            _ => false,
        },
{
    if magic == HW_UINT || magic == HW_SEQ || magic == HW_OBJECT {
        match read_u32(bytes, pos) {
            Err(e) => Err(e),
            Ok((v, next)) => {
                let value = if magic == HW_UINT {
                    HyprwireValue::Uint(v)
                } else if magic == HW_SEQ {
                    HyprwireValue::Sequence(v)
                } else {
                    HyprwireValue::Object(v)
                };
                Ok((value, next))
            },
        }
    } else if magic == HW_VARCHAR {
        match read_varchar(bytes, pos) {
            Err(e) => Err(e),
            Ok((s, next)) => Ok((HyprwireValue::Varchar(s), next)),
        }
    } else if magic == HW_ARRAY {
        read_array(bytes, pos)
    } else {
        Err(HyprwireError::BadMagic(magic))
    }
}

/// What decoding gives when `used` bytes have already given `prefix` and the
/// rest gives `r`.
#[verifier::opaque]
spec fn prefixed(
    prefix: Seq<WireValue>,
    used: nat,
    r: Result<(Seq<WireValue>, nat), WireError>,
) -> Result<(Seq<WireValue>, nat), WireError> {
    match r {
        Err(e) => Err(e),
        Ok((w, n)) => Ok((prefix + w, used + n)),
    }
}

proof fn lemma_prefixed_value(prefix: Seq<WireValue>, used: nat, b: Seq<u8>, v: WireValue, n: nat)
    requires
        b.len() > 0,
        b[0] != HW_END,
        decode_value(b[0], b.skip(1)) == Ok::<(WireValue, nat), WireError>((v, n)),
    ensures
        prefixed(prefix, used, decode_args(b)) == prefixed(
            prefix.push(v),
            used + 1 + n,
            decode_args(b.skip(1 + n as int)),
        ),
{
    reveal(prefixed);
    if let Ok((w, m)) = decode_args(b.skip(1 + n as int)) {
        assert(prefix + (seq![v] + w) =~= prefix.push(v) + w);
    }
}

proof fn lemma_prefixed_end(prefix: Seq<WireValue>, used: nat, b: Seq<u8>)
    ensures
        b.len() == 0 ==> prefixed(prefix, used, decode_args(b)) == Err::<
            (Seq<WireValue>, nat),
            WireError,
        >(WireError::Truncated),
        b.len() > 0 && b[0] == HW_END ==> prefixed(prefix, used, decode_args(b)) == Ok::<
            (Seq<WireValue>, nat),
            WireError,
        >((prefix, used + 1)),
        b.len() > 0 && b[0] != HW_END && decode_value(b[0], b.skip(1)) is Err ==> prefixed(
            prefix,
            used,
            decode_args(b),
        ) == Err::<(Seq<WireValue>, nat), WireError>(decode_value(b[0], b.skip(1))->Err_0),
{
    reveal(prefixed);
    assert(prefix + Seq::<WireValue>::empty() =~= prefix);
}

proof fn lemma_prefixed_start(r: Result<(Seq<WireValue>, nat), WireError>)
    ensures
        prefixed(Seq::empty(), 0, r) == r,
{
    reveal(prefixed);
    if let Ok((w, n)) = r {
        assert(Seq::<WireValue>::empty() + w =~= w);
    }
}

/// The message at the start of `bytes` and its length in bytes.
///
/// `Truncated` means that more bytes are needed; every other outcome stands
/// whatever bytes follow.
pub fn read_message(bytes: &[u8]) -> (r: Result<(HyprwireMessage, usize), HyprwireError>)
    ensures
        match (r, decode_message(bytes@)) {
            (Ok((m, next)), Ok((w, n))) => m@ == w && next == n && next <= bytes@.len(),
            (Err(e), Err(f)) => e@ == f,
            _ => false,
        },
{
    if bytes.len() == 0 {
        return Err(HyprwireError::Truncated);
    }
    let code = bytes[0];
    let mut args: Vec<HyprwireValue> = Vec::new();
    let mut at: usize = 1;
    let ghost whole = decode_args(bytes@.skip(1));
    proof {
        lemma_prefixed_start(whole);
        assert(value_views(args@) =~= Seq::<WireValue>::empty());
    }
    loop
        invariant
            1 <= at <= bytes@.len(),
            code == bytes@[0],
            whole == decode_args(bytes@.skip(1)),
            whole == prefixed(
                value_views(args@),
                (at - 1) as nat,
                decode_args(bytes@.skip(at as int)),
            ),
        decreases bytes@.len() - at,
    {
        let ghost here = bytes@.skip(at as int);
        proof {
            lemma_prefixed_end(value_views(args@), (at - 1) as nat, here);
        }
        if at == bytes.len() {
            return Err(HyprwireError::Truncated);
        }
        let magic = bytes[at];
        assert(here[0] == magic);
        if magic == HW_END {
            return Ok((HyprwireMessage { code, args }, at + 1));
        }
        assert(here.skip(1) =~= bytes@.skip(at + 1));
        match read_value(magic, bytes, at + 1) {
            Err(e) => {
                return Err(e);
            },
            Ok((v, next)) => {
                assert(here.skip(next - at) =~= bytes@.skip(next as int));
                let ghost before = args@;
                let ghost vv = v@;
                args.push(v);
                assert(value_views(args@) =~= value_views(before).push(vv));
                proof {
                    lemma_prefixed_value(
                        value_views(before),
                        (at - 1) as nat,
                        here,
                        vv,
                        (next - at - 1) as nat,
                    );
                }
                at = next;
            },
        }
    }
}

// ---------------------------------------------------------------------------
// Laws of the wire format
// ---------------------------------------------------------------------------

/// The values that a peer accepts: no string and no array above its cap.
pub open spec fn within_caps(v: WireValue) -> bool {
    match v {
        WireValue::Varchar(s) => encode_utf8(s).len() <= HW_MAX_VARCHAR_LEN,
        WireValue::ArrayUint(a) => a.len() <= HW_MAX_ARRAY_COUNT,
        WireValue::ArrayVarchar(a) => {
            &&& a.len() <= HW_MAX_ARRAY_COUNT
            &&& forall|i: int|
                0 <= i < a.len() ==> encode_utf8(#[trigger] a[i]).len() <= HW_MAX_VARCHAR_LEN
        },
        _ => true,
    }
}

proof fn lemma_varint_tail_round_trip(n: nat, k: nat, rest: Seq<u8>)
    requires
        k <= 4,
        n < varint_bound(k),
    ensures
        varint_tail(varint_bytes(n) + rest, k) == Ok::<(nat, nat), WireError>(
            (n, varint_bytes(n).len()),
        ),
    decreases n,
{
    let b = varint_bytes(n) + rest;
    if n < 128 {
        assert(b[0] == n as u8);
        if k == 4 {
            assert(n < 16);
        }
    } else {
        let q = n / 128;
        lemma_varint_tail_round_trip(q, k + 1, rest);
        assert(b[0] == (n % 128 + 128) as u8);
        assert(b.drop_first() =~= varint_bytes(q) + rest);
        assert(varint_bytes(n).len() == varint_bytes(q).len() + 1);
    }
}

/// Decoding gives back the number that was encoded as a varint, whatever
/// follows it, for every number below 2^32.
pub proof fn law_varint_round_trip(n: nat, rest: Seq<u8>)
    requires
        n <= u32::MAX,
    ensures
        decode_varint(varint_bytes(n) + rest) == Ok::<(nat, nat), WireError>(
            (n, varint_bytes(n).len()),
        ),
{
    lemma_varint_tail_round_trip(n, 0, rest);
}

proof fn lemma_varint_tail_too_big(n: nat, k: nat, rest: Seq<u8>)
    requires
        k <= 4,
        n >= varint_bound(k),
    ensures
        varint_tail(varint_bytes(n) + rest, k) is Err,
        !(varint_tail(varint_bytes(n) + rest, k)->Err_0 is Truncated),
    decreases n,
{
    let b = varint_bytes(n) + rest;
    if n < 128 {
        assert(b[0] == n as u8);
    } else {
        assert(b[0] == (n % 128 + 128) as u8);
        if k < 4 {
            lemma_varint_tail_too_big(n / 128, k + 1, rest);
            assert(b.drop_first() =~= varint_bytes(n / 128) + rest);
        }
    }
}

/// A varint of a number of 2^32 or more is refused, whatever follows it.
pub proof fn law_varint_above_u32_refused(n: nat, rest: Seq<u8>)
    requires
        n > u32::MAX,
    ensures
        decode_varint(varint_bytes(n) + rest) is Err,
        !(decode_varint(varint_bytes(n) + rest)->Err_0 is Truncated),
{
    lemma_varint_tail_too_big(n, 0, rest);
}

proof fn lemma_le_round_trip(v: u32)
    ensures
        le_value(le_bytes(v)) == v,
{
    let b = le_bytes(v);
    assert(b[0] + 256 * b[1] + 65536 * b[2] + 16777216 * b[3] == v);
}

proof fn lemma_u32_round_trip(v: u32, rest: Seq<u8>)
    ensures
        decode_u32(le_bytes(v) + rest) == Ok::<(u32, nat), WireError>((v, 4)),
{
    lemma_le_round_trip(v);
    let b = le_bytes(v) + rest;
    assert(b.take(4) =~= le_bytes(v));
    assert(b[0] == le_bytes(v)[0] && b[1] == le_bytes(v)[1] && b[2] == le_bytes(v)[2] && b[3]
        == le_bytes(v)[3]);
}

proof fn lemma_varchar_round_trip(s: Seq<char>, rest: Seq<u8>)
    requires
        encode_utf8(s).len() <= HW_MAX_VARCHAR_LEN,
    ensures
        decode_varchar(varchar_bytes(s) + rest) == Ok::<(Seq<char>, nat), WireError>(
            (s, varchar_bytes(s).len()),
        ),
{
    let body = encode_utf8(s);
    let head = varint_bytes(body.len());
    let b = varchar_bytes(s) + rest;
    assert(b =~= head + (body + rest));
    law_varint_round_trip(body.len(), body + rest);
    assert(b.subrange(head.len() as int, (head.len() + body.len()) as int) =~= body);
    encode_utf8_valid_utf8(s);
    encode_utf8_decode_utf8(s);
}

proof fn lemma_uints_round_trip(items: Seq<u32>, rest: Seq<u8>)
    ensures
        decode_uints(uint_list_bytes(items) + rest, items.len()) == Ok::<
            (Seq<u32>, nat),
            WireError,
        >((items, uint_list_bytes(items).len())),
    decreases items.len(),
{
    let b = uint_list_bytes(items) + rest;
    if items.len() > 0 {
        let tail = items.drop_first();
        lemma_uints_round_trip(tail, rest);
        assert(b =~= le_bytes(items[0]) + (uint_list_bytes(tail) + rest));
        lemma_u32_round_trip(items[0], uint_list_bytes(tail) + rest);
        assert(b.skip(4) =~= uint_list_bytes(tail) + rest);
        assert(seq![items[0]] + tail =~= items);
    } else {
        assert(items =~= Seq::<u32>::empty());
    }
}

proof fn lemma_varchars_round_trip(items: Seq<Seq<char>>, rest: Seq<u8>)
    requires
        forall|i: int|
            0 <= i < items.len() ==> encode_utf8(#[trigger] items[i]).len() <= HW_MAX_VARCHAR_LEN,
    ensures
        decode_varchars(varchar_list_bytes(items) + rest, items.len()) == Ok::<
            (Seq<Seq<char>>, nat),
            WireError,
        >((items, varchar_list_bytes(items).len())),
    decreases items.len(),
{
    let b = varchar_list_bytes(items) + rest;
    if items.len() > 0 {
        let tail = items.drop_first();
        assert forall|i: int| 0 <= i < tail.len() implies encode_utf8(#[trigger] tail[i]).len()
            <= HW_MAX_VARCHAR_LEN by {
            assert(tail[i] == items[i + 1]);
        }
        lemma_varchars_round_trip(tail, rest);
        assert(b =~= varchar_bytes(items[0]) + (varchar_list_bytes(tail) + rest));
        lemma_varchar_round_trip(items[0], varchar_list_bytes(tail) + rest);
        assert(b.skip(varchar_bytes(items[0]).len() as int) =~= varchar_list_bytes(tail) + rest);
        assert(seq![items[0]] + tail =~= items);
    } else {
        assert(items =~= Seq::<Seq<char>>::empty());
    }
}

proof fn lemma_uint_array_round_trip(a: Seq<u32>, rest: Seq<u8>)
    requires
        a.len() <= HW_MAX_ARRAY_COUNT,
    ensures
        decode_array(value_payload(WireValue::ArrayUint(a)) + rest) == Ok::<
            (WireValue, nat),
            WireError,
        >((WireValue::ArrayUint(a), value_payload(WireValue::ArrayUint(a)).len())),
{
    let tail = uint_list_bytes(a) + rest;
    let head = varint_bytes(a.len());
    let b = value_payload(WireValue::ArrayUint(a)) + rest;
    assert(b.skip(1) =~= head + tail);
    law_varint_round_trip(a.len(), tail);
    assert(b.skip(1 + head.len() as int) =~= tail);
    lemma_uints_round_trip(a, rest);
    assert(b[0] == HW_UINT);
}

proof fn lemma_varchar_array_round_trip(a: Seq<Seq<char>>, rest: Seq<u8>)
    requires
        within_caps(WireValue::ArrayVarchar(a)),
    ensures
        decode_array(value_payload(WireValue::ArrayVarchar(a)) + rest) == Ok::<
            (WireValue, nat),
            WireError,
        >((WireValue::ArrayVarchar(a), value_payload(WireValue::ArrayVarchar(a)).len())),
{
    let tail = varchar_list_bytes(a) + rest;
    let head = varint_bytes(a.len());
    let b = value_payload(WireValue::ArrayVarchar(a)) + rest;
    assert(b.skip(1) =~= head + tail);
    law_varint_round_trip(a.len(), tail);
    assert(b.skip(1 + head.len() as int) =~= tail);
    lemma_varchars_round_trip(a, rest);
    assert(b[0] == HW_VARCHAR);
}

/// Decoding gives back every value within the caps that was encoded, whatever
/// follows it.
pub proof fn law_value_round_trip(v: WireValue, rest: Seq<u8>)
    requires
        within_caps(v),
    ensures
        decode_value(value_magic(v), value_payload(v) + rest) == Ok::<(WireValue, nat), WireError>(
            (v, value_payload(v).len()),
        ),
{
    match v {
        WireValue::Uint(x) | WireValue::Sequence(x) | WireValue::Object(x) => {
            lemma_u32_round_trip(x, rest);
        },
        WireValue::Varchar(s) => {
            lemma_varchar_round_trip(s, rest);
        },
        WireValue::ArrayUint(a) => {
            lemma_uint_array_round_trip(a, rest);
        },
        WireValue::ArrayVarchar(a) => {
            lemma_varchar_array_round_trip(a, rest);
        },
    }
}

proof fn lemma_args_round_trip(args: Seq<WireValue>, rest: Seq<u8>)
    requires
        forall|i: int| 0 <= i < args.len() ==> within_caps(#[trigger] args[i]),
    ensures
        decode_args(args_bytes(args) + rest) == Ok::<(Seq<WireValue>, nat), WireError>(
            (args, args_bytes(args).len()),
        ),
    decreases args.len(),
{
    let b = args_bytes(args) + rest;
    if args.len() > 0 {
        let v = args[0];
        let tail = args.drop_first();
        assert forall|i: int| 0 <= i < tail.len() implies within_caps(#[trigger] tail[i]) by {
            assert(tail[i] == args[i + 1]);
        }
        lemma_args_round_trip(tail, rest);
        let after = args_bytes(tail) + rest;
        assert(b[0] == value_magic(v));
        assert(b.skip(1) =~= value_payload(v) + after);
        law_value_round_trip(v, after);
        assert(b.skip(1 + value_payload(v).len() as int) =~= after);
        assert(seq![v] + tail =~= args);
    } else {
        assert(args =~= Seq::<WireValue>::empty());
        assert(b[0] == HW_END);
    }
}

/// Decoding gives back every message within the caps that was encoded,
/// whatever follows it, and takes exactly its bytes.
pub proof fn law_message_round_trip(m: WireMessage, rest: Seq<u8>)
    requires
        forall|i: int| 0 <= i < m.args.len() ==> within_caps(#[trigger] m.args[i]),
    ensures
        decode_message(message_bytes(m) + rest) == Ok::<(WireMessage, nat), WireError>(
            (m, message_bytes(m).len()),
        ),
{
    lemma_args_round_trip(m.args, rest);
    let b = message_bytes(m) + rest;
    assert(b.skip(1) =~= args_bytes(m.args) + rest);
}

/// Refusal comes before the body: a string whose announced length is above the
/// cap is refused as soon as its length is there, whatever follows.
pub proof fn law_oversized_varchar_refused(len: nat, rest: Seq<u8>)
    requires
        HW_MAX_VARCHAR_LEN < len <= u32::MAX,
    ensures
        decode_value(HW_VARCHAR, varint_bytes(len) + rest) == Err::<(WireValue, nat), WireError>(
            WireError::VarcharTooLong(len),
        ),
{
    law_varint_round_trip(len, rest);
}

/// An array whose announced count is above the cap is refused as soon as its
/// count is there, whatever its item type and whatever follows.
pub proof fn law_oversized_array_refused(item_type: u8, count: nat, rest: Seq<u8>)
    requires
        HW_MAX_ARRAY_COUNT < count <= u32::MAX,
    ensures
        decode_value(HW_ARRAY, seq![item_type] + varint_bytes(count) + rest) == Err::<
            (WireValue, nat),
            WireError,
        >(WireError::ArrayTooLong(count)),
{
    law_varint_round_trip(count, rest);
    let b = seq![item_type] + varint_bytes(count) + rest;
    assert(b.skip(1) =~= varint_bytes(count) + rest);
}


spec fn settled<T>(r: Result<T, WireError>) -> bool {
    !(r is Err && r->Err_0 is Truncated)
}

proof fn lemma_varint_tail_extend(b: Seq<u8>, k: nat, more: Seq<u8>)
    requires
        k <= 4,
        settled(varint_tail(b, k)),
    ensures
        varint_tail(b + more, k) == varint_tail(b, k),
    decreases b.len(),
{
    let c = b + more;
    if b.len() > 0 {
        assert(c[0] == b[0]);
        if b[0] >= 128 && k < 4 {
            lemma_varint_tail_extend(b.drop_first(), k + 1, more);
            assert(c.drop_first() =~= b.drop_first() + more);
        }
    }
}

proof fn lemma_u32_extend(b: Seq<u8>, more: Seq<u8>)
    requires
        settled(decode_u32(b)),
    ensures
        decode_u32(b + more) == decode_u32(b),
{
}

proof fn lemma_varchar_extend(b: Seq<u8>, more: Seq<u8>)
    requires
        settled(decode_varchar(b)),
    ensures
        decode_varchar(b + more) == decode_varchar(b),
{
    lemma_varint_tail_extend(b, 0, more);
    lemma_varint_tail(b, 0);
    if let Ok((len, n)) = decode_varint(b) {
        if b.len() >= n + len {
            assert((b + more).subrange(n as int, (n + len) as int) =~= b.subrange(
                n as int,
                (n + len) as int,
            ));
        }
    }
}

proof fn lemma_uints_extend(b: Seq<u8>, count: nat, more: Seq<u8>)
    requires
        settled(decode_uints(b, count)),
    ensures
        decode_uints(b + more, count) == decode_uints(b, count),
    decreases count,
{
    if count > 0 {
        lemma_u32_extend(b, more);
        if b.len() >= 4 {
            lemma_uints_extend(b.skip(4), (count - 1) as nat, more);
            assert((b + more).skip(4) =~= b.skip(4) + more);
        }
    }
}

proof fn lemma_varchars_extend(b: Seq<u8>, count: nat, more: Seq<u8>)
    requires
        settled(decode_varchars(b, count)),
    ensures
        decode_varchars(b + more, count) == decode_varchars(b, count),
    decreases count,
{
    if count > 0 {
        lemma_varchar_extend(b, more);
        lemma_decode_varchar(b);
        if let Ok((v, n)) = decode_varchar(b) {
            lemma_varchars_extend(b.skip(n as int), (count - 1) as nat, more);
            assert((b + more).skip(n as int) =~= b.skip(n as int) + more);
        }
    }
}

proof fn lemma_value_extend(magic: u8, b: Seq<u8>, more: Seq<u8>)
    requires
        settled(decode_value(magic, b)),
    ensures
        decode_value(magic, b + more) == decode_value(magic, b),
{
    if magic == HW_UINT || magic == HW_SEQ || magic == HW_OBJECT {
        lemma_u32_extend(b, more);
    } else if magic == HW_VARCHAR {
        lemma_varchar_extend(b, more);
    } else if magic == HW_ARRAY {
        let c = b + more;
        assert(c.skip(1) =~= b.skip(1) + more);
        lemma_varint_tail_extend(b.skip(1), 0, more);
        lemma_varint_tail(b.skip(1), 0);
        if let Ok((count, n)) = decode_varint(b.skip(1)) {
            let rest = b.skip(1 + n as int);
            assert(c.skip(1 + n as int) =~= rest + more);
            if count <= HW_MAX_ARRAY_COUNT && b[0] == HW_UINT {
                lemma_uints_extend(rest, count, more);
            } else if count <= HW_MAX_ARRAY_COUNT && b[0] == HW_VARCHAR {
                lemma_varchars_extend(rest, count, more);
            }
        }
    }
}

proof fn lemma_args_extend(b: Seq<u8>, more: Seq<u8>)
    requires
        settled(decode_args(b)),
    ensures
        decode_args(b + more) == decode_args(b),
    decreases b.len(),
{
    let c = b + more;
    if b.len() > 0 {
        assert(c[0] == b[0]);
        if b[0] != HW_END {
            assert(c.skip(1) =~= b.skip(1) + more);
            lemma_decode_value(b[0], b.skip(1));
            lemma_value_extend(b[0], b.skip(1), more);
            if let Ok((v, n)) = decode_value(b[0], b.skip(1)) {
                assert(c.skip(1 + n as int) =~= b.skip(1 + n as int) + more);
                lemma_args_extend(b.skip(1 + n as int), more);
            }
        }
    }
}

/// Bytes may be decoded as they arrive: once an outcome other than
/// `Truncated` is reached, no bytes that follow change it.
pub proof fn law_decoding_is_stable(b: Seq<u8>, more: Seq<u8>)
    requires
        decode_message(b) is Err ==> !(decode_message(b)->Err_0 is Truncated),
    ensures
        decode_message(b + more) == decode_message(b),
{
    if b.len() > 0 {
        assert((b + more).skip(1) =~= b.skip(1) + more);
        lemma_args_extend(b.skip(1), more);
    }
}

} // verus!
