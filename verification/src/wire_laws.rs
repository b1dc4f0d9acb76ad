//! What holds of the bytes on the wire and of the exchange with the wallpaper
//! daemon.

use vstd::prelude::*;
use vstd::string::*;
use vstd::utf8::*;

use crate::hyprpaper;
use crate::hyprpaper::{AwaitView, ClientPhase, ClientView, StepView};
use crate::hyprwire;
use crate::hyprwire::{WireError, WireMessage, WireValue};
use crate::text;
use crate::text_laws;
use crate::wallpaper;
use crate::wallpaper_theme;
use crate::wallpaper_theme::Argb;

verus! {

// ---------------------------------------------------------------------------
// Bytes
// ---------------------------------------------------------------------------

/// A number of four bytes has its least byte first.
pub proof fn law_numbers_have_their_least_byte_first(v: u32)
    ensures
        ({
            let b = hyprwire::le_bytes(v);
            &&& b.len() == 4
            &&& b[0] + 256 * b[1] + 65536 * b[2] + 16777216 * b[3] == v
            &&& v < 256 ==> b == seq![v as u8, 0u8, 0u8, 0u8]
        }),
{
    let b = hyprwire::le_bytes(v);
    assert(v / 256 / 256 == v / 65536);
    assert(v / 65536 / 256 == v / 16777216);
    assert(v / 16777216 < 256);
    if v < 256 {
        assert(b =~= seq![v as u8, 0u8, 0u8, 0u8]);
    }
}

/// Four bytes are read with the least first, and fewer are too few.
pub proof fn law_numbers_are_read_least_byte_first(a: u8, b: u8, c: u8, d: u8, rest: Seq<u8>)
    ensures
        hyprwire::decode_u32(seq![a, b, c, d] + rest) matches Ok((v, n)) && v == a + 256 * b + 65536
            * c + 16777216 * d && n == 4,
        hyprwire::decode_u32(seq![a, b, c]) == Err::<(u32, nat), WireError>(WireError::Truncated),
{
}

/// A length below 128 takes one byte, that of the length. A longer one begins
/// with its last seven bits and the mark that more follow.
pub proof fn law_lengths_are_in_sevens(n: nat)
    ensures
        n < 128 ==> hyprwire::varint_bytes(n) == seq![n as u8],
        n >= 128 ==> hyprwire::varint_bytes(n)[0] == n % 128 + 128 && hyprwire::varint_bytes(
            n,
        ).drop_first() == hyprwire::varint_bytes(n / 128),
{
    if n >= 128 {
        assert(hyprwire::varint_bytes(n).drop_first() =~= hyprwire::varint_bytes(n / 128));
    }
}

/// Every kind of value is announced by its own byte.
pub proof fn law_values_are_announced(x: u32, s: Seq<char>, a: Seq<u32>, t: Seq<Seq<char>>)
    ensures
        hyprwire::value_bytes(WireValue::Uint(x)) == seq![0x10u8] + hyprwire::le_bytes(x),
        hyprwire::value_bytes(WireValue::Sequence(x)) == seq![0x13u8] + hyprwire::le_bytes(x),
        hyprwire::value_bytes(WireValue::Object(x)) == seq![0x22u8] + hyprwire::le_bytes(x),
        hyprwire::value_bytes(WireValue::Varchar(s)) == seq![0x20u8] + (hyprwire::varint_bytes(
            encode_utf8(s).len(),
        ) + encode_utf8(s)),
        hyprwire::value_bytes(WireValue::ArrayUint(a)) == seq![0x21u8] + (seq![0x10u8]
            + hyprwire::varint_bytes(a.len()) + hyprwire::uint_list_bytes(a)),
        hyprwire::value_bytes(WireValue::ArrayVarchar(t)) == seq![0x21u8] + (seq![0x20u8]
            + hyprwire::varint_bytes(t.len()) + hyprwire::varchar_list_bytes(t)),
{
}

/// The items of a list follow each other.
pub proof fn law_items_follow_each_other(
    x: u32,
    a: Seq<u32>,
    s: Seq<char>,
    t: Seq<Seq<char>>,
)
    ensures
        hyprwire::uint_list_bytes(seq![x] + a) == hyprwire::le_bytes(x)
            + hyprwire::uint_list_bytes(a),
        hyprwire::uint_list_bytes(Seq::empty()).len() == 0,
        hyprwire::varchar_list_bytes(seq![s] + t) == hyprwire::varint_bytes(encode_utf8(s).len())
            + encode_utf8(s) + hyprwire::varchar_list_bytes(t),
        hyprwire::varchar_list_bytes(Seq::empty()).len() == 0,
{
    assert((seq![x] + a).drop_first() =~= a);
    assert((seq![s] + t).drop_first() =~= t);
}

/// A message is its code, its arguments and an end byte.
pub proof fn law_message_is_code_arguments_end(code: u8, v: WireValue, args: Seq<WireValue>)
    ensures
        hyprwire::message_bytes(WireMessage { code, args: Seq::empty() }) == seq![code, 0u8],
        hyprwire::message_bytes(WireMessage { code, args: seq![v] + args }) == seq![code]
            + hyprwire::value_bytes(v) + hyprwire::args_bytes(args),
{
    assert((seq![v] + args).drop_first() =~= args);
    assert(hyprwire::message_bytes(WireMessage { code, args: Seq::empty() }) =~= seq![code, 0u8]);
    assert(hyprwire::message_bytes(WireMessage { code, args: seq![v] + args }) =~= seq![code]
        + hyprwire::value_bytes(v) + hyprwire::args_bytes(args));
}

/// A byte that announces no value is refused by name, and so is an array of
/// another kind of item.
pub proof fn law_unknown_bytes_are_refused(magic: u8, b: Seq<u8>, count: u8)
    requires
        count < 128,
    ensures
        magic != 0x10 && magic != 0x13 && magic != 0x20 && magic != 0x21 && magic != 0x22
            ==> hyprwire::decode_value(magic, b) == Err::<(WireValue, nat), WireError>(
            WireError::BadMagic(magic),
        ),
        magic != 0x10 && magic != 0x20 ==> hyprwire::decode_array(seq![magic, count] + b) == Err::<
            (WireValue, nat),
            WireError,
        >(WireError::BadItemType(magic)),
        hyprwire::decode_array(Seq::empty()) == Err::<(WireValue, nat), WireError>(
            WireError::Truncated,
        ),
        hyprwire::decode_message(Seq::empty()) == Err::<(WireMessage, nat), WireError>(
            WireError::Truncated,
        ),
        hyprwire::decode_varint(Seq::empty()) == Err::<(nat, nat), WireError>(
            WireError::Truncated,
        ),
{
    let s = seq![magic, count] + b;
    assert(s.skip(1)[0] == count);
    assert(s.skip(1) =~= seq![count] + b);
}

/// Errors are put into words that name what was wrong.
pub proof fn law_errors_have_words(n: nat, b: u8, s: Seq<char>)
    ensures
        hyprwire::error_text(WireError::Truncated) == "failed to fill whole buffer"@,
        hyprwire::error_text(WireError::VarintRange) == "hyprwire varint exceeds u32 range"@,
        hyprwire::error_text(WireError::VarintTooLarge) == "hyprwire varint too large"@,
        hyprwire::error_text(WireError::VarcharTooLong(n)) == "hyprwire varchar length "@
            + text::dec(n) + " exceeds cap "@ + text::dec(65536),
        hyprwire::error_text(WireError::ArrayTooLong(n)) == "hyprwire array count "@ + text::dec(n)
            + " exceeds cap "@ + text::dec(4096),
        hyprwire::error_text(WireError::BadMagic(b)) == "unsupported hyprwire magic byte "@
            + text::hex_byte_spec(b),
        hyprwire::error_text(WireError::BadItemType(b)) == "unsupported hyprwire array item type "@
            + text::hex_byte_spec(b),
        hyprwire::error_text(WireError::InvalidUtf8(s)) == s,
{
}

// ---------------------------------------------------------------------------
// The exchange
// ---------------------------------------------------------------------------

/// A new object is told by its id and the number it was asked for under, and by
/// nothing else.
pub proof fn law_new_object_is_read(code: u8, id: u32, number: u32, other: WireValue)
    ensures
        hyprpaper::new_object_of(
            WireMessage { code, args: seq![WireValue::Uint(id), WireValue::Uint(number)] },
        ) == Some((id, number)),
        hyprpaper::new_object_of(WireMessage { code, args: seq![WireValue::Uint(id)] }) is None,
        other !is Uint ==> hyprpaper::new_object_of(
            WireMessage { code, args: seq![WireValue::Uint(id), other] },
        ) is None,
{
}

/// A fatal error is reported with its object, its number and its words.
pub proof fn law_fatal_error_is_reported(m: WireMessage, object: u32, error: u32, why: Seq<char>)
    ensures
        m.args == seq![WireValue::Uint(object), WireValue::Uint(error), WireValue::Varchar(why)]
            ==> hyprpaper::fatal_text(m) == "fatal protocol error on object "@ + text::dec(
            object as nat,
        ) + " (error "@ + text::dec(error as nat) + "): "@ + why,
        m.args.len() != 3 ==> hyprpaper::fatal_text(m)
            == "fatal protocol error with invalid payload"@,
{
}

/// The status can be read where the protocol is offered in its second version or
/// a later one, whatever else is offered.
pub proof fn law_status_needs_the_second_version(
    before: Seq<hyprpaper::ProtocolView>,
    name: Seq<char>,
    version: u32,
)
    ensures
        name == "hyprpaper_core"@ && version >= 2 ==> hyprpaper::offers_status(
            before.push((name, version)),
        ),
        name != "hyprpaper_core"@ || version < 2 ==> hyprpaper::offers_status(
            before.push((name, version)),
        ) == hyprpaper::offers_status(before),
        !hyprpaper::offers_status(Seq::empty()),
{
    let all = before.push((name, version));
    assert(all[before.len() as int] == (name, version));
    if hyprpaper::offers_status(before) {
        let i = choose|i: int|
            0 <= i < before.len() && (#[trigger] before[i]).0 == hyprpaper::HYPRPAPER_PROTOCOL@
                && before[i].1 >= hyprpaper::HYPRPAPER_STATUS_VERSION;
        assert(all[i] == before[i]);
        assert(hyprpaper::offers_status(all));
    }
    if hyprpaper::offers_status(all) && (name != "hyprpaper_core"@ || version < 2) {
        let i = choose|i: int|
            0 <= i < all.len() && (#[trigger] all[i]).0 == hyprpaper::HYPRPAPER_PROTOCOL@
                && all[i].1 >= hyprpaper::HYPRPAPER_STATUS_VERSION;
        assert(before[i] == all[i]);
        assert(hyprpaper::offers_status(before));
    }
}

/// A protocol is listed by its name, an at sign and its version. An entry of
/// another form adds nothing.
pub proof fn law_protocols_are_listed(before: Seq<Seq<char>>, name: Seq<char>, version: u32)
    requires
        !name.contains('@'),
    ensures
        hyprpaper::advertised(before.push(name + seq!['@'] + text::dec(version as nat)))
            == hyprpaper::advertised(before).push((name, version)),
        hyprpaper::advertised(before.push(name)) == hyprpaper::advertised(before),
        hyprpaper::advertised(Seq::empty()).len() == 0,
{
    let entry = name + seq!['@'] + text::dec(version as nat);
    assert(before.push(entry).drop_last() =~= before);
    assert(before.push(name).drop_last() =~= before);
    text_laws::law_split_at_the_first(name, '@', text::dec(version as nat));
    text_laws::law_numbers_are_read_back(version);
}

/// The handshake begins with the message for it that lists the first version of
/// the wire. Every other message is refused, each for its own reason.
pub proof fn law_handshake_begins(m: WireMessage)
    ensures
        hyprpaper::begin_error(m) is None <==> m.code == 2 && m.args.len() > 0
            && m.args[0] is ArrayUint && m.args[0]->ArrayUint_0.contains(1u32),
        m.code != 2 ==> hyprpaper::begin_error(m) == Some(
            "expected handshake-begin, got "@ + text::hex_byte_spec(m.code),
        ),
        m.code == 2 && (m.args.len() == 0 || m.args[0] !is ArrayUint) ==> hyprpaper::begin_error(m)
            == Some("invalid handshake-begin payload"@),
        m.code == 2 && m.args.len() > 0 && m.args[0] is ArrayUint
            && !m.args[0]->ArrayUint_0.contains(1u32) ==> hyprpaper::begin_error(m) == Some(
            "server does not support hyprwire v"@ + text::dec(1),
        ),
{
}

/// The protocols are read from the message for them.
pub proof fn law_protocols_are_read(m: WireMessage, entries: Seq<Seq<char>>)
    ensures
        m.code == 4 && m.args.len() > 0 && m.args[0] == WireValue::ArrayVarchar(entries)
            ==> hyprpaper::protocols_reply(m) == Ok::<Seq<hyprpaper::ProtocolView>, Seq<char>>(
            hyprpaper::advertised(entries),
        ),
        m.code != 4 ==> hyprpaper::protocols_reply(m) == Err::<
            Seq<hyprpaper::ProtocolView>,
            Seq<char>,
        >("expected handshake-protocols, got "@ + text::hex_byte_spec(m.code)),
        m.code == 4 && m.args.len() == 0 ==> hyprpaper::protocols_reply(m) == Err::<
            Seq<hyprpaper::ProtocolView>,
            Seq<char>,
        >("invalid handshake-protocols payload"@),
{
}

/// The requests that are sent, as the daemon reads them.
pub proof fn law_requests_say(number: u32, id: u32, name: Seq<char>, version: u32)
    ensures
        hyprpaper::hello_message() == (WireMessage {
            code: 1,
            args: seq![WireValue::Varchar("VAX"@)],
        }),
        hyprpaper::ack_message() == (WireMessage { code: 3, args: seq![WireValue::Uint(1)] }),
        hyprpaper::bind_message(number, name, version) == (WireMessage {
            code: 10,
            args: seq![
                WireValue::Uint(number),
                WireValue::Varchar(name),
                WireValue::Uint(version),
            ],
        }),
        hyprpaper::status_message(number, id) == (WireMessage {
            code: 100,
            args: seq![WireValue::Object(id), WireValue::Uint(2), WireValue::Sequence(number)],
        }),
        hyprpaper::roundtrip_message(number) == (WireMessage {
            code: 13,
            args: seq![WireValue::Uint(number)],
        }),
{
}

/// The exchange goes step by step: the handshake, the protocols, the manager, the
/// status object. Each request goes out under the next number, and the answer is
/// awaited under that number.
pub proof fn law_exchange_goes_step_by_step(
    c: ClientView,
    m: WireMessage,
    id: u32,
    awaited: u32,
)
    requires
        c.next_seq < u32::MAX,
    ensures
        c.phase == ClientPhase::HandshakeBegin && hyprpaper::begin_error(m) is None
            ==> hyprpaper::client_step(c, m) == (
            ClientView { phase: ClientPhase::HandshakeProtocols, ..c },
            StepView::Send(hyprwire::message_bytes(hyprpaper::ack_message())),
        ),
        c.phase == ClientPhase::HandshakeProtocols && hyprpaper::protocols_reply(m) is Ok
            && hyprpaper::offers_status(hyprpaper::protocols_reply(m)->Ok_0) ==> {
            let (d, step) = hyprpaper::client_step(c, m);
            &&& d.next_seq == c.next_seq + 1
            &&& d.phase == ClientPhase::Manager(d.next_seq)
            &&& step == StepView::Send(
                hyprwire::message_bytes(
                    hyprpaper::bind_message(d.next_seq, "hyprpaper_core"@, 2),
                ),
            )
        },
        c.phase == ClientPhase::HandshakeProtocols && hyprpaper::protocols_reply(m) is Ok
            && !hyprpaper::offers_status(hyprpaper::protocols_reply(m)->Ok_0) ==> {
            let (d, step) = hyprpaper::client_step(c, m);
            d.phase == ClientPhase::Closed && step == StepView::NoStatus
        },
        c.phase == ClientPhase::Manager(awaited) && m.code == 11 && m.args == seq![
            WireValue::Uint(id),
            WireValue::Uint(awaited),
        ] ==> {
            let (d, step) = hyprpaper::client_step(c, m);
            &&& d.next_seq == c.next_seq + 1
            &&& d.phase == ClientPhase::Status(d.next_seq)
            &&& step == StepView::Send(
                hyprwire::message_bytes(hyprpaper::status_message(d.next_seq, id)),
            )
        },
        c.phase == ClientPhase::Status(awaited) && m.code == 11 && m.args == seq![
            WireValue::Uint(id),
            WireValue::Uint(awaited),
        ] ==> {
            let (d, step) = hyprpaper::client_step(c, m);
            &&& d.next_seq == c.next_seq + 1
            &&& d.phase == (ClientPhase::Events { status_id: id, roundtrip_seq: d.next_seq })
            &&& step == StepView::SendPatiently(
                hyprwire::message_bytes(hyprpaper::roundtrip_message(d.next_seq)),
            )
        },
{
}

/// The exchange ends when its own round trip does, with what the status object
/// said until then. Another round trip changes nothing.
pub proof fn law_round_trip_ends_the_exchange(
    c: ClientView,
    status_id: u32,
    number: u32,
    other: u32,
)
    requires
        c.phase == (ClientPhase::Events { status_id, roundtrip_seq: number }),
    ensures
        ({
            let m = WireMessage { code: 14, args: seq![WireValue::Uint(other)] };
            let (d, step) = hyprpaper::client_step(c, m);
            if other == number {
                d.phase == ClientPhase::Closed && step == StepView::Done(
                    wallpaper::collected(c.pending, status_id),
                )
            } else {
                d == c && step == StepView::Read
            }
        }),
{
}

/// Wherever an answer is awaited, a fatal error ends the exchange with its words,
/// and a message that makes no sense with words of its own.
pub proof fn law_exchange_fails_with_a_reason(c: ClientView, m: WireMessage)
    ensures
        m.code == 12 && (c.phase is Manager || c.phase is Status || c.phase is Events) ==> {
            let (d, step) = hyprpaper::client_step(c, m);
            d.phase == ClientPhase::Closed && step == StepView::Fail(hyprpaper::fatal_text(m))
        },
        m.code == 11 && hyprpaper::new_object_of(m) is None && (c.phase is Manager
            || c.phase is Status) ==> {
            let (d, step) = hyprpaper::client_step(c, m);
            d.phase == ClientPhase::Closed && step == StepView::Fail("invalid new-object payload"@)
        },
        c.phase == ClientPhase::HandshakeBegin && hyprpaper::begin_error(m) is Some ==> {
            let (d, step) = hyprpaper::client_step(c, m);
            d.phase == ClientPhase::Closed && step == StepView::Fail(
                hyprpaper::begin_error(m)->0,
            )
        },
        c.phase == ClientPhase::HandshakeProtocols && hyprpaper::protocols_reply(m) is Err ==> {
            let (d, step) = hyprpaper::client_step(c, m);
            d.phase == ClientPhase::Closed && step == StepView::Fail(
                hyprpaper::protocols_reply(m)->Err_0,
            )
        },
        c.phase == ClientPhase::Closed ==> hyprpaper::client_step(c, m) == (c, StepView::Read),
        hyprpaper::client_step(c, m).0.pending.len() >= c.pending.len(),
{
}

// ---------------------------------------------------------------------------
// The colours of a wallpaper
// ---------------------------------------------------------------------------

/// One pixel more at the end adds its colour at the end where it is opaque, and
/// nothing otherwise.
pub proof fn law_opaque_pixels_are_kept(pixels: Seq<(u8, u8, u8, u8)>, p: (u8, u8, u8, u8))
    ensures
        p.3 == 255 ==> wallpaper_theme::opaque(pixels.push(p)) == wallpaper_theme::opaque(
            pixels,
        ).push(Argb { alpha: 255, red: p.0, green: p.1, blue: p.2 }),
        p.3 != 255 ==> wallpaper_theme::opaque(pixels.push(p)) == wallpaper_theme::opaque(pixels),
        wallpaper_theme::opaque(Seq::empty()).len() == 0,
{
    assert(pixels.push(p).drop_last() =~= pixels);
}

/// One colour more at the end is kept at the end where it is marked, and dropped
/// otherwise, whatever marks follow.
pub proof fn law_marked_colours_are_kept(
    counts: Seq<(Argb, u32)>,
    c: (Argb, u32),
    marks: Seq<bool>,
)
    ensures
        ({
            let k = counts.len() as int;
            let keeps = k < marks.len() && marks[k];
            &&& keeps ==> wallpaper_theme::marked(counts.push(c), marks) == wallpaper_theme::marked(
                counts,
                marks,
            ).push(c)
            &&& !keeps ==> wallpaper_theme::marked(counts.push(c), marks)
                == wallpaper_theme::marked(counts, marks)
        }),
        wallpaper_theme::marked(Seq::empty(), marks).len() == 0,
{
    assert(counts.push(c).drop_last() =~= counts);
}

/// The colours together stand for the sum of their pixels.
pub proof fn law_population_is_the_sum(counts: Seq<(Argb, u32)>, c: (Argb, u32))
    ensures
        wallpaper_theme::population(counts.push(c)) == wallpaper_theme::population(counts) + c.1,
        wallpaper_theme::population(Seq::empty()) == 0,
{
    assert(counts.push(c).drop_last() =~= counts);
}

/// The colour for pictures that offer none, and the size up to which a file is
/// read.
pub proof fn law_limits_of_pictures(size: u64, r: bool)
    requires
        call_ensures(wallpaper_theme::wallpaper_size_allowed, (size,), r),
    ensures
        r <==> size <= 50 * 1024 * 1024,
        wallpaper_theme::fallback_color() == (Argb { alpha: 255, red: 66, green: 133, blue: 244 }),
{
}

} // verus!
