//! The client side of hyprpaper's binary status protocol, as a state machine:
//! messages from the daemon in, bytes to send and the final answer out.
//!
//! The exchange is handshake, bind, status object, then a round trip during
//! which the daemon reports the active wallpapers.

use vstd::prelude::*;
use vstd::string::*;

use crate::hyprwire;
use crate::hyprwire::{
    HyprwireMessage, HyprwireValue, WireMessage, WireValue, HW_BIND_PROTOCOL,
    HW_FATAL_PROTOCOL_ERROR, HW_GENERIC_PROTOCOL_MESSAGE, HW_HANDSHAKE_ACK, HW_HANDSHAKE_BEGIN,
    HW_HANDSHAKE_PROTOCOLS, HW_NEW_OBJECT, HW_ROUNDTRIP_DONE, HW_ROUNDTRIP_REQUEST, HW_SUP,
};
use crate::text;
use crate::wallpaper;

verus! {

pub const HYPRWIRE_VERSION: u32 = 1;

pub const HYPRPAPER_PROTOCOL: &'static str = "hyprpaper_core";

/// The lowest protocol version with a readable status object. Binding always
/// asks for this version.
pub const HYPRPAPER_STATUS_VERSION: u32 = 2;

pub const HYPRPAPER_CORE_GET_STATUS_OBJECT: u32 = 2;

// ---------------------------------------------------------------------------
// Reading single messages
// ---------------------------------------------------------------------------

/// The object id and sequence number of a new-object message.
pub open spec fn new_object_of(m: WireMessage) -> Option<(u32, u32)> {
    if m.args.len() == 2 && m.args[0] is Uint && m.args[1] is Uint {
        Some((m.args[0]->Uint_0, m.args[1]->Uint_0))
    } else {
        None
    }
}

/// The object id and sequence number of a new-object message.
pub fn parse_new_object(message: &HyprwireMessage) -> (r: Option<(u32, u32)>)
    ensures
        r == new_object_of(message@),
{
    if message.args.len() != 2 {
        return None;
    }
    assert(message@.args[0] == message.args@[0]@);
    assert(message@.args[1] == message.args@[1]@);
    match (&message.args[0], &message.args[1]) {
        (HyprwireValue::Uint(id), HyprwireValue::Uint(seq)) => Some((*id, *seq)),
        _ => None,
    }
}

/// What a fatal-protocol-error message is reported as.
pub open spec fn fatal_text(m: WireMessage) -> Seq<char> {
    if m.args.len() == 3 && m.args[0] is Uint && m.args[1] is Uint && m.args[2] is Varchar {
        "fatal protocol error on object "@ + text::dec(m.args[0]->Uint_0 as nat) + " (error "@
            + text::dec(m.args[1]->Uint_0 as nat) + "): "@ + m.args[2]->Varchar_0
    } else {
        "fatal protocol error with invalid payload"@
    }
}

/// What a fatal-protocol-error message is reported as.
pub fn format_fatal_protocol_error(message: &HyprwireMessage) -> (r: String)
    ensures
        r@ == fatal_text(message@),
{
    if message.args.len() != 3 {
        return "fatal protocol error with invalid payload".to_string();
    }
    assert(message@.args[0] == message.args@[0]@);
    assert(message@.args[1] == message.args@[1]@);
    assert(message@.args[2] == message.args@[2]@);
    match (&message.args[0], &message.args[1], &message.args[2]) {
        (
            HyprwireValue::Uint(object_id),
            HyprwireValue::Uint(error_id),
            HyprwireValue::Varchar(reason),
        ) => {
            let mut s = "fatal protocol error on object ".to_string();
            s.append(text::decimal(*object_id as u64).as_str());
            s.append(" (error ");
            s.append(text::decimal(*error_id as u64).as_str());
            s.append("): ");
            s.append(reason.as_str());
            s
        },
        _ => "fatal protocol error with invalid payload".to_string(),
    }
}

/// A protocol's name and version.
pub type ProtocolView = (Seq<char>, u32);

pub open spec fn protocol_views(v: Seq<(String, u32)>) -> Seq<ProtocolView> {
    v.map_values(|p: (String, u32)| (p.0@, p.1))
}

/// Whether the server offers a status object: the protocol in a version that
/// has one.
pub open spec fn offers_status(protocols: Seq<ProtocolView>) -> bool {
    exists|i: int|
        0 <= i < protocols.len() && (#[trigger] protocols[i]).0 == HYPRPAPER_PROTOCOL@
            && protocols[i].1 >= HYPRPAPER_STATUS_VERSION
}

/// Whether the server offers a status object.
pub fn is_hyprpaper_status_protocol_available(protocols: &[(String, u32)]) -> (r: bool)
    ensures
        r == offers_status(protocol_views(protocols@)),
{
    let ghost views = protocol_views(protocols@);
    let mut i: usize = 0;
    while i < protocols.len()
        invariant
            i <= protocols.len(),
            views == protocol_views(protocols@),
            forall|j: int|
                0 <= j < i ==> !((#[trigger] views[j]).0 == HYPRPAPER_PROTOCOL@ && views[j].1
                    >= HYPRPAPER_STATUS_VERSION),
        decreases protocols.len() - i,
    {
        assert(views[i as int].0 == protocols@[i as int].0@);
        if text::str_eq(protocols[i].0.as_str(), HYPRPAPER_PROTOCOL) && protocols[i].1
            >= HYPRPAPER_STATUS_VERSION {
            return true;
        }
        i += 1;
    }
    false
}

/// The protocols that entries of the form `NAME@VERSION` list. Entries of
/// another form count for nothing.
pub open spec fn advertised(entries: Seq<Seq<char>>) -> Seq<ProtocolView>
    decreases entries.len(),
{
    if entries.len() == 0 {
        Seq::empty()
    } else {
        let before = advertised(entries.drop_last());
        match text::split_once_spec(entries.last(), '@') {
            Some((name, version)) => match text::parse_u32_spec(version) {
                Some(v) => before.push((name, v)),
                None => before,
            },
            None => before,
        }
    }
}

fn parse_protocols(entries: &Vec<String>) -> (r: Vec<(String, u32)>)
    ensures
        protocol_views(r@) == advertised(text::string_views(entries@)),
{
    let mut out: Vec<(String, u32)> = Vec::new();
    let ghost views = text::string_views(entries@);
    let mut i: usize = 0;
    assert(protocol_views(out@) =~= advertised(views.take(0)));
    while i < entries.len()
        invariant
            i <= entries.len(),
            views == text::string_views(entries@),
            protocol_views(out@) == advertised(views.take(i as int)),
        decreases entries.len() - i,
    {
        assert(views.take(i + 1).drop_last() =~= views.take(i as int));
        assert(views.take(i + 1).last() == entries@[i as int]@);
        let ghost before = out@;
        if let Some((name, version)) = text::split_once(entries[i].as_str(), '@') {
            if let Some(v) = text::parse_u32(version) {
                let p = (name.to_string(), v);
                let ghost pv = (p.0@, p.1);
                out.push(p);
                assert(protocol_views(out@) =~= protocol_views(before).push(pv));
            }
        }
        i += 1;
    }
    assert(views.take(i as int) =~= views);
    out
}

/// Why a first reply does not begin a handshake that this client can join, if
/// it does not.
pub open spec fn begin_error(m: WireMessage) -> Option<Seq<char>> {
    if m.code != HW_HANDSHAKE_BEGIN {
        Some("expected handshake-begin, got "@ + text::hex_byte_spec(m.code))
    } else if m.args.len() == 0 || !(m.args[0] is ArrayUint) {
        Some("invalid handshake-begin payload"@)
    } else if !m.args[0]->ArrayUint_0.contains(HYPRWIRE_VERSION) {
        Some("server does not support hyprwire v"@ + text::dec(HYPRWIRE_VERSION as nat))
    } else {
        None
    }
}

/// Checks the reply that begins the handshake.
pub fn check_handshake_begin(message: &HyprwireMessage) -> (r: Result<(), String>)
    ensures
        match r {
            Ok(_) => begin_error(message@) is None,
            Err(e) => begin_error(message@) == Some(e@),
        },
{
    if message.code != HW_HANDSHAKE_BEGIN {
        let mut s = "expected handshake-begin, got ".to_string();
        s.append(text::hex_byte(message.code).as_str());
        return Err(s);
    }
    if message.args.len() == 0 {
        return Err("invalid handshake-begin payload".to_string());
    }
    assert(message@.args[0] == message.args@[0]@);
    match &message.args[0] {
        HyprwireValue::ArrayUint(versions) => {
            let mut i: usize = 0;
            while i < versions.len()
                invariant
                    i <= versions.len(),
                    forall|j: int| 0 <= j < i ==> versions@[j] != HYPRWIRE_VERSION,
                    message.code == HW_HANDSHAKE_BEGIN,
                    message@.args.len() > 0,
                    message@.args[0] == WireValue::ArrayUint(versions@),
                decreases versions.len() - i,
            {
                if versions[i] == HYPRWIRE_VERSION {
                    assert(versions@.contains(HYPRWIRE_VERSION));
                    return Ok(());
                }
                i += 1;
            }
            let mut s = "server does not support hyprwire v".to_string();
            s.append(text::decimal(HYPRWIRE_VERSION as u64).as_str());
            Err(s)
        },
        _ => Err("invalid handshake-begin payload".to_string()),
    }
}

/// The protocols that a second reply lists, or why it lists none.
pub open spec fn protocols_reply(m: WireMessage) -> Result<Seq<ProtocolView>, Seq<char>> {
    if m.code != HW_HANDSHAKE_PROTOCOLS {
        Err("expected handshake-protocols, got "@ + text::hex_byte_spec(m.code))
    } else if m.args.len() == 0 || !(m.args[0] is ArrayVarchar) {
        Err("invalid handshake-protocols payload"@)
    } else {
        Ok(advertised(m.args[0]->ArrayVarchar_0))
    }
}

/// The protocols that the reply after the handshake lists.
pub fn parse_handshake_protocols(message: &HyprwireMessage) -> (r: Result<
    Vec<(String, u32)>,
    String,
>)
    ensures
        match r {
            Ok(v) => protocols_reply(message@) == Ok::<Seq<ProtocolView>, Seq<char>>(
                protocol_views(v@),
            ),
            Err(e) => protocols_reply(message@) == Err::<Seq<ProtocolView>, Seq<char>>(e@),
        },
{
    if message.code != HW_HANDSHAKE_PROTOCOLS {
        let mut s = "expected handshake-protocols, got ".to_string();
        s.append(text::hex_byte(message.code).as_str());
        return Err(s);
    }
    if message.args.len() == 0 {
        return Err("invalid handshake-protocols payload".to_string());
    }
    assert(message@.args[0] == message.args@[0]@);
    match &message.args[0] {
        HyprwireValue::ArrayVarchar(entries) => Ok(parse_protocols(entries)),
        _ => Err("invalid handshake-protocols payload".to_string()),
    }
}

// ---------------------------------------------------------------------------
// Requests
// ---------------------------------------------------------------------------

/// The message that opens the exchange.
pub open spec fn hello_message() -> WireMessage {
    WireMessage { code: HW_SUP, args: seq![WireValue::Varchar("VAX"@)] }
}

pub open spec fn ack_message() -> WireMessage {
    WireMessage { code: HW_HANDSHAKE_ACK, args: seq![WireValue::Uint(HYPRWIRE_VERSION)] }
}

pub open spec fn bind_message(seq: u32, spec_name: Seq<char>, version: u32) -> WireMessage {
    WireMessage {
        code: HW_BIND_PROTOCOL,
        args: seq![WireValue::Uint(seq), WireValue::Varchar(spec_name), WireValue::Uint(version)],
    }
}

pub open spec fn status_message(seq: u32, manager_id: u32) -> WireMessage {
    WireMessage {
        code: HW_GENERIC_PROTOCOL_MESSAGE,
        args: seq![
            WireValue::Object(manager_id),
            WireValue::Uint(HYPRPAPER_CORE_GET_STATUS_OBJECT),
            WireValue::Sequence(seq),
        ],
    }
}

pub open spec fn roundtrip_message(seq: u32) -> WireMessage {
    WireMessage { code: HW_ROUNDTRIP_REQUEST, args: seq![WireValue::Uint(seq)] }
}

/// The bytes that open the exchange.
pub fn hello() -> (bytes: Vec<u8>)
    ensures
        bytes@ == hyprwire::message_bytes(hello_message()),
{
    let mut args: Vec<HyprwireValue> = Vec::new();
    args.push(HyprwireValue::Varchar("VAX".to_string()));
    assert(hyprwire::value_views(args@) =~= hello_message().args);
    hyprwire::encode_message(HW_SUP, args.as_slice())
}

fn ack() -> (bytes: Vec<u8>)
    ensures
        bytes@ == hyprwire::message_bytes(ack_message()),
{
    let mut args: Vec<HyprwireValue> = Vec::new();
    args.push(HyprwireValue::Uint(HYPRWIRE_VERSION));
    assert(hyprwire::value_views(args@) =~= ack_message().args);
    hyprwire::encode_message(HW_HANDSHAKE_ACK, args.as_slice())
}

/// The bytes that ask to bind a protocol.
pub fn bind_protocol(seq: u32, spec_name: &str, version: u32) -> (bytes: Vec<u8>)
    ensures
        bytes@ == hyprwire::message_bytes(bind_message(seq, spec_name@, version)),
{
    let mut args: Vec<HyprwireValue> = Vec::new();
    args.push(HyprwireValue::Uint(seq));
    args.push(HyprwireValue::Varchar(spec_name.to_string()));
    args.push(HyprwireValue::Uint(version));
    assert(hyprwire::value_views(args@) =~= bind_message(seq, spec_name@, version).args);
    hyprwire::encode_message(HW_BIND_PROTOCOL, args.as_slice())
}

/// The bytes that ask the manager for a status object.
pub fn create_status_object(seq: u32, manager_id: u32) -> (bytes: Vec<u8>)
    ensures
        bytes@ == hyprwire::message_bytes(status_message(seq, manager_id)),
{
    let mut args: Vec<HyprwireValue> = Vec::new();
    args.push(HyprwireValue::Object(manager_id));
    args.push(HyprwireValue::Uint(HYPRPAPER_CORE_GET_STATUS_OBJECT));
    args.push(HyprwireValue::Sequence(seq));
    assert(hyprwire::value_views(args@) =~= status_message(seq, manager_id).args);
    hyprwire::encode_message(HW_GENERIC_PROTOCOL_MESSAGE, args.as_slice())
}

/// The bytes that ask for a round trip.
pub fn send_roundtrip_request(seq: u32) -> (bytes: Vec<u8>)
    ensures
        bytes@ == hyprwire::message_bytes(roundtrip_message(seq)),
{
    let mut args: Vec<HyprwireValue> = Vec::new();
    args.push(HyprwireValue::Uint(seq));
    assert(hyprwire::value_views(args@) =~= roundtrip_message(seq).args);
    hyprwire::encode_message(HW_ROUNDTRIP_REQUEST, args.as_slice())
}

// ---------------------------------------------------------------------------
// The exchange
// ---------------------------------------------------------------------------

/// What the client waits for.
#[derive(Debug, Clone, Copy, PartialEq, Eq, Structural)]
pub enum ClientPhase {
    HandshakeBegin,
    HandshakeProtocols,
    /// The object bound under this sequence number.
    Manager(u32),
    /// The status object asked for under this sequence number.
    Status(u32),
    /// Events of the status object until the round trip is done.
    Events { status_id: u32, roundtrip_seq: u32 },
    Closed,
}

/// The client's side of one exchange.
pub struct HyprwireClient {
    pub phase: ClientPhase,
    pub next_seq: u32,
    pub pending: Vec<HyprwireMessage>,
}

/// What a `HyprwireClient` stands for.
pub struct ClientView {
    pub phase: ClientPhase,
    pub next_seq: u32,
    pub pending: Seq<WireMessage>,
}

impl View for HyprwireClient {
    type V = ClientView;

    open spec fn view(&self) -> ClientView {
        ClientView {
            phase: self.phase,
            next_seq: self.next_seq,
            pending: wallpaper::message_views(self.pending@),
        }
    }
}

/// What to do after a message.
#[derive(Debug)]
pub enum ClientStep {
    /// Wait for the next message.
    Read,
    /// Send these bytes, then wait.
    Send(Vec<u8>),
    /// Allow the daemon more time from now on, send these bytes, then wait.
    SendPatiently(Vec<u8>),
    /// The exchange is over with these monitor entries.
    Done(Vec<(String, String)>),
    /// The server has no readable status.
    NoStatus,
    /// The exchange failed.
    Fail(String),
}

/// What a `ClientStep` stands for.
pub enum StepView {
    Read,
    Send(Seq<u8>),
    SendPatiently(Seq<u8>),
    Done(Seq<wallpaper::EntryView>),
    NoStatus,
    Fail(Seq<char>),
}

impl View for ClientStep {
    type V = StepView;

    open spec fn view(&self) -> StepView {
        match self {
            ClientStep::Read => StepView::Read,
            ClientStep::Send(b) => StepView::Send(b@),
            ClientStep::SendPatiently(b) => StepView::SendPatiently(b@),
            ClientStep::Done(e) => StepView::Done(wallpaper::entry_views(e@)),
            ClientStep::NoStatus => StepView::NoStatus,
            ClientStep::Fail(s) => StepView::Fail(s@),
        }
    }
}

/// What waiting for a new object under `expected_seq` makes of a message.
pub enum AwaitView {
    Keep,
    Object(u32),
    Fail(Seq<char>),
}

/// Messages other than the awaited object's and a fatal error are passed over.
pub open spec fn await_new_object_spec(m: WireMessage, expected_seq: u32) -> AwaitView {
    if m.code == HW_NEW_OBJECT {
        match new_object_of(m) {
            None => AwaitView::Fail("invalid new-object payload"@),
            Some((id, seq)) => if seq == expected_seq {
                AwaitView::Object(id)
            } else {
                AwaitView::Keep
            },
        }
    } else if m.code == HW_FATAL_PROTOCOL_ERROR {
        AwaitView::Fail(fatal_text(m))
    } else {
        AwaitView::Keep
    }
}

/// The id of the new object that was awaited, `None` to keep waiting, or the
/// reason to give up.
pub fn await_new_object(message: &HyprwireMessage, expected_seq: u32) -> (r: Result<
    Option<u32>,
    String,
>)
    ensures
        match r {
            Ok(None) => await_new_object_spec(message@, expected_seq) is Keep,
            Ok(Some(id)) => await_new_object_spec(message@, expected_seq) == AwaitView::Object(id),
            Err(e) => await_new_object_spec(message@, expected_seq) == AwaitView::Fail(e@),
        },
{
    if message.code == HW_NEW_OBJECT {
        match parse_new_object(message) {
            None => Err("invalid new-object payload".to_string()),
            Some((id, seq)) => if seq == expected_seq {
                Ok(Some(id))
            } else {
                Ok(None)
            },
        }
    } else if message.code == HW_FATAL_PROTOCOL_ERROR {
        Err(format_fatal_protocol_error(message))
    } else {
        Ok(None)
    }
}

pub open spec fn failed(c: ClientView, e: Seq<char>) -> (ClientView, StepView) {
    (ClientView { phase: ClientPhase::Closed, ..c }, StepView::Fail(e))
}

/// The client and the step that follow when `m` arrives.
pub open spec fn client_step(c: ClientView, m: WireMessage) -> (ClientView, StepView) {
    let seq = (c.next_seq + 1) as u32;
    match c.phase {
        ClientPhase::HandshakeBegin => match begin_error(m) {
            Some(e) => failed(c, e),
            None => (
                ClientView { phase: ClientPhase::HandshakeProtocols, ..c },
                StepView::Send(hyprwire::message_bytes(ack_message())),
            ),
        },
        ClientPhase::HandshakeProtocols => match protocols_reply(m) {
            Err(e) => failed(c, e),
            Ok(protocols) => if offers_status(protocols) {
                (
                    ClientView { phase: ClientPhase::Manager(seq), next_seq: seq, ..c },
                    StepView::Send(
                        hyprwire::message_bytes(
                            bind_message(seq, HYPRPAPER_PROTOCOL@, HYPRPAPER_STATUS_VERSION),
                        ),
                    ),
                )
            } else {
                (ClientView { phase: ClientPhase::Closed, ..c }, StepView::NoStatus)
            },
        },
        ClientPhase::Manager(expected) => match await_new_object_spec(m, expected) {
            AwaitView::Keep => (c, StepView::Read),
            AwaitView::Fail(e) => failed(c, e),
            AwaitView::Object(id) => (
                ClientView { phase: ClientPhase::Status(seq), next_seq: seq, ..c },
                StepView::Send(hyprwire::message_bytes(status_message(seq, id))),
            ),
        },
        ClientPhase::Status(expected) => match await_new_object_spec(m, expected) {
            AwaitView::Keep => (c, StepView::Read),
            AwaitView::Fail(e) => failed(c, e),
            AwaitView::Object(id) => (
                ClientView {
                    phase: ClientPhase::Events { status_id: id, roundtrip_seq: seq },
                    next_seq: seq,
                    ..c
                },
                StepView::SendPatiently(hyprwire::message_bytes(roundtrip_message(seq))),
            ),
        },
        ClientPhase::Events { status_id, roundtrip_seq } => if m.code
            == HW_GENERIC_PROTOCOL_MESSAGE {
            (ClientView { pending: c.pending.push(m), ..c }, StepView::Read)
        } else if m.code == HW_ROUNDTRIP_DONE && m.args.len() > 0 && m.args[0] == WireValue::Uint(
            roundtrip_seq,
        ) {
            (
                ClientView { phase: ClientPhase::Closed, ..c },
                StepView::Done(wallpaper::collected(c.pending, status_id)),
            )
        } else if m.code == HW_FATAL_PROTOCOL_ERROR {
            failed(c, fatal_text(m))
        } else {
            (c, StepView::Read)
        },
        ClientPhase::Closed => (c, StepView::Read),
    }
}

impl HyprwireClient {
    /// The sequence number in use tells how far the exchange has come.
    pub open spec fn wf(&self) -> bool {
        match self.phase {
            ClientPhase::HandshakeBegin | ClientPhase::HandshakeProtocols => self.next_seq == 0,
            ClientPhase::Manager(s) => s == 1 && self.next_seq == 1,
            ClientPhase::Status(s) => s == 2 && self.next_seq == 2,
            ClientPhase::Events { status_id: _, roundtrip_seq } => roundtrip_seq == 3
                && self.next_seq == 3,
            ClientPhase::Closed => self.next_seq <= 3,
        }
    }

    /// A client that has sent its hello.
    pub fn new() -> (c: Self)
        ensures
            c.wf(),
            c@ == (ClientView {
                phase: ClientPhase::HandshakeBegin,
                next_seq: 0,
                pending: Seq::empty(),
            }),
    {
        let c = HyprwireClient {
            phase: ClientPhase::HandshakeBegin,
            next_seq: 0,
            pending: Vec::new(),
        };
        assert(c@.pending =~= Seq::<WireMessage>::empty());
        c
    }

    /// Takes the next sequence number.
    fn next_sequence(&mut self) -> (seq: u32)
        requires
            old(self).next_seq < u32::MAX,
        ensures
            seq == old(self).next_seq + 1,
            final(self)@ == (ClientView { next_seq: seq, ..old(self)@ }),
            final(self).pending == old(self).pending,
            final(self).phase == old(self).phase,
    {
        self.next_seq = self.next_seq + 1;
        self.next_seq
    }

    /// Takes in the daemon's next message.
    pub fn on_message(&mut self, message: HyprwireMessage) -> (step: ClientStep)
        requires
            old(self).wf(),
        ensures
            final(self).wf(),
            (final(self)@, step@) == client_step(old(self)@, message@),
    {
        match self.phase {
            ClientPhase::HandshakeBegin => {
                match check_handshake_begin(&message) {
                    Err(e) => {
                        self.phase = ClientPhase::Closed;
                        ClientStep::Fail(e)
                    },
                    Ok(_) => {
                        self.phase = ClientPhase::HandshakeProtocols;
                        ClientStep::Send(ack())
                    },
                }
            },
            ClientPhase::HandshakeProtocols => {
                match parse_handshake_protocols(&message) {
                    Err(e) => {
                        self.phase = ClientPhase::Closed;
                        ClientStep::Fail(e)
                    },
                    Ok(protocols) => {
                        if is_hyprpaper_status_protocol_available(protocols.as_slice()) {
                            let seq = self.next_sequence();
                            self.phase = ClientPhase::Manager(seq);
                            ClientStep::Send(
                                bind_protocol(seq, HYPRPAPER_PROTOCOL, HYPRPAPER_STATUS_VERSION),
                            )
                        } else {
                            self.phase = ClientPhase::Closed;
                            ClientStep::NoStatus
                        }
                    },
                }
            },
            ClientPhase::Manager(expected) => {
                match await_new_object(&message, expected) {
                    Ok(None) => ClientStep::Read,
                    Err(e) => {
                        self.phase = ClientPhase::Closed;
                        ClientStep::Fail(e)
                    },
                    Ok(Some(id)) => {
                        let seq = self.next_sequence();
                        self.phase = ClientPhase::Status(seq);
                        ClientStep::Send(create_status_object(seq, id))
                    },
                }
            },
            ClientPhase::Status(expected) => {
                match await_new_object(&message, expected) {
                    Ok(None) => ClientStep::Read,
                    Err(e) => {
                        self.phase = ClientPhase::Closed;
                        ClientStep::Fail(e)
                    },
                    Ok(Some(id)) => {
                        let seq = self.next_sequence();
                        self.phase = ClientPhase::Events { status_id: id, roundtrip_seq: seq };
                        ClientStep::SendPatiently(send_roundtrip_request(seq))
                    },
                }
            },
            ClientPhase::Events { status_id, roundtrip_seq } => {
                if message.code == HW_GENERIC_PROTOCOL_MESSAGE {
                    let ghost before = self.pending@;
                    let ghost mv = message@;
                    self.pending.push(message);
                    assert(wallpaper::message_views(self.pending@) =~= wallpaper::message_views(
                        before,
                    ).push(mv));
                    return ClientStep::Read;
                }
                if message.code == HW_ROUNDTRIP_DONE {
                    if message.args.len() > 0 {
                        assert(message@.args[0] == message.args@[0]@);
                        if let HyprwireValue::Uint(done_seq) = &message.args[0] {
                            if *done_seq == roundtrip_seq {
                                self.phase = ClientPhase::Closed;
                                return ClientStep::Done(
                                    wallpaper::collect_wallpaper_entries(
                                        self.pending.as_slice(),
                                        status_id,
                                    ),
                                );
                            }
                        }
                    }
                    return ClientStep::Read;
                }
                if message.code == HW_FATAL_PROTOCOL_ERROR {
                    self.phase = ClientPhase::Closed;
                    return ClientStep::Fail(format_fatal_protocol_error(&message));
                }
                ClientStep::Read
            },
            ClientPhase::Closed => ClientStep::Read,
        }
    }
}

/// What a finished exchange answers: nothing where no wallpaper was reported,
/// else the choice among the entries.
pub fn detect_hyprpaper_hyprwire(entries: &Vec<(String, String)>, monitor: Option<&str>) -> (r:
    Option<String>)
    ensures
        text::opt_string_view(r) == wallpaper::selected_path(
            wallpaper::entry_views(entries@),
            text::opt_view(monitor),
        ),
{
    wallpaper::select_monitor_wallpaper(entries.as_slice(), monitor)
}

/// The states through which `messages` lead from `c`.
pub open spec fn client_run(c: ClientView, messages: Seq<WireMessage>) -> ClientView
    decreases messages.len(),
{
    if messages.len() == 0 {
        c
    } else {
        client_step(client_run(c, messages.drop_last()), messages.last()).0
    }
}

pub open spec fn generic_only(messages: Seq<WireMessage>) -> Seq<WireMessage>
    decreases messages.len(),
{
    if messages.len() == 0 {
        Seq::empty()
    } else if messages.last().code == HW_GENERIC_PROTOCOL_MESSAGE {
        generic_only(messages.drop_last()).push(messages.last())
    } else {
        generic_only(messages.drop_last())
    }
}

/// While events are awaited, exactly the generic messages are kept, in order,
/// and messages of other kinds change nothing, as long as neither the end of
/// the round trip nor a fatal error arrives.
pub proof fn law_events_are_collected_in_order(c: ClientView, messages: Seq<WireMessage>)
    requires
        c.phase is Events,
        forall|i: int|
            0 <= i < messages.len() ==> (#[trigger] messages[i]).code != HW_ROUNDTRIP_DONE
                && messages[i].code != HW_FATAL_PROTOCOL_ERROR,
    ensures
        client_run(c, messages) == (ClientView {
            pending: c.pending + generic_only(messages),
            ..c
        }),
    decreases messages.len(),
{
    if messages.len() > 0 {
        let shorter = messages.drop_last();
        assert forall|i: int| 0 <= i < shorter.len() implies (#[trigger] shorter[i]).code
            != HW_ROUNDTRIP_DONE && shorter[i].code != HW_FATAL_PROTOCOL_ERROR by {
            assert(shorter[i] == messages[i]);
        }
        law_events_are_collected_in_order(c, shorter);
        assert(messages.last() == messages[messages.len() - 1]);
        assert((c.pending + generic_only(shorter)).push(messages.last()) =~= c.pending
            + generic_only(shorter).push(messages.last()));
    } else {
        assert(c.pending + generic_only(messages) =~= c.pending);
    }
}

/// A message of another kind, or about another request, neither ends the wait
/// for a new object nor changes anything.
pub proof fn law_unrelated_messages_are_passed_over(c: ClientView, m: WireMessage)
    requires
        c.phase is Manager || c.phase is Status,
        m.code != HW_FATAL_PROTOCOL_ERROR,
        m.code == HW_NEW_OBJECT ==> new_object_of(m) is Some,
        m.code == HW_NEW_OBJECT && c.phase is Manager ==> new_object_of(m)->Some_0.1
            != c.phase->Manager_0,
        m.code == HW_NEW_OBJECT && c.phase is Status ==> new_object_of(m)->Some_0.1
            != c.phase->Status_0,
    ensures
        client_step(c, m) == (c, StepView::Read),
{
}

/// Every request is encoded so that the peer reads back what was meant: the
/// bytes sent after each step decode to one message and nothing else.
pub proof fn law_requests_decode(seq: u32, id: u32)
    ensures
        hyprwire::decode_message(hyprwire::message_bytes(hello_message())) == Ok::<
            (WireMessage, nat),
            hyprwire::WireError,
        >((hello_message(), hyprwire::message_bytes(hello_message()).len())),
        hyprwire::decode_message(hyprwire::message_bytes(ack_message())) == Ok::<
            (WireMessage, nat),
            hyprwire::WireError,
        >((ack_message(), hyprwire::message_bytes(ack_message()).len())),
        ({
            let m = bind_message(seq, HYPRPAPER_PROTOCOL@, HYPRPAPER_STATUS_VERSION);
            hyprwire::decode_message(hyprwire::message_bytes(m)) == Ok::<
                (WireMessage, nat),
                hyprwire::WireError,
            >((m, hyprwire::message_bytes(m).len()))
        }),
        hyprwire::decode_message(hyprwire::message_bytes(status_message(seq, id))) == Ok::<
            (WireMessage, nat),
            hyprwire::WireError,
        >((status_message(seq, id), hyprwire::message_bytes(status_message(seq, id)).len())),
        hyprwire::decode_message(hyprwire::message_bytes(roundtrip_message(seq))) == Ok::<
            (WireMessage, nat),
            hyprwire::WireError,
        >((roundtrip_message(seq), hyprwire::message_bytes(roundtrip_message(seq)).len())),
{
    reveal_strlit("VAX");
    reveal_strlit("hyprpaper_core");
    vstd::utf8::is_ascii_chars_encode_utf8("VAX"@);
    vstd::utf8::is_ascii_chars_encode_utf8(HYPRPAPER_PROTOCOL@);
    let none = Seq::<u8>::empty();
    let bind = bind_message(seq, HYPRPAPER_PROTOCOL@, HYPRPAPER_STATUS_VERSION);
    hyprwire::law_message_round_trip(hello_message(), none);
    hyprwire::law_message_round_trip(ack_message(), none);
    hyprwire::law_message_round_trip(bind, none);
    hyprwire::law_message_round_trip(status_message(seq, id), none);
    hyprwire::law_message_round_trip(roundtrip_message(seq), none);
    assert(hyprwire::message_bytes(hello_message()) + none =~= hyprwire::message_bytes(
        hello_message(),
    ));
    assert(hyprwire::message_bytes(ack_message()) + none =~= hyprwire::message_bytes(
        ack_message(),
    ));
    assert(hyprwire::message_bytes(bind) + none =~= hyprwire::message_bytes(bind));
    assert(hyprwire::message_bytes(status_message(seq, id)) + none =~= hyprwire::message_bytes(
        status_message(seq, id),
    ));
    assert(hyprwire::message_bytes(roundtrip_message(seq)) + none =~= hyprwire::message_bytes(
        roundtrip_message(seq),
    ));
}

} // verus!
