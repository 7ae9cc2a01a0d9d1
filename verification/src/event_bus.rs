//! The events that the compositor reports on the event bus.

use crate::text::str_eq;
use vstd::prelude::*;
use vstd::string::StringExecFns;

verus! {

/// The number of messages that can wait to be sent.
pub const CHANNEL_CAPACITY: usize = 4096;

/// How long to wait before connecting again, in seconds.
pub const RECONNECT_DELAY_S: u64 = 2;

/// A message as it is sent.
#[derive(Debug, PartialEq, Eq)]
pub struct EventBusMessage(pub Vec<u8>);

/// An event.
#[derive(Debug, PartialEq, Eq)]
pub struct Event {
    pub id: String,
    pub kind: String,
    /// When it happened, in microseconds since 1970.
    pub timestamp: i64,
    pub source: String,
    /// The process that reports it.
    pub pid: u32,
    pub session_id: String,
    pub payload: Vec<u8>,
}

/// The model of an event.
#[verifier::ext_equal]
pub struct EventModel {
    pub id: Seq<char>,
    pub kind: Seq<char>,
    pub timestamp: i64,
    pub source: Seq<char>,
    pub pid: u32,
    pub session_id: Seq<char>,
    pub payload: Seq<u8>,
}

impl View for Event {
    type V = EventModel;

    open spec fn view(&self) -> EventModel {
        EventModel {
            id: self.id@,
            kind: self.kind@,
            timestamp: self.timestamp,
            source: self.source@,
            pid: self.pid,
            session_id: self.session_id@,
            payload: self.payload@,
        }
    }
}

/// When and by whom an event is reported.
#[derive(Clone, Copy, Debug, PartialEq, Eq, Structural)]
pub struct Stamp {
    pub timestamp: i64,
    pub pid: u32,
}

/// Whether a text is written like an identifier: groups of lowercase hexadecimal digits with
/// hyphens between them, which hold the version 7 and the variant of identifiers.
pub open spec fn is_id(s: Seq<char>) -> bool {
    &&& s.len() == 36
    &&& forall|i: int|
        0 <= i < 36 ==> if i == 8 || i == 13 || i == 18 || i == 23 {
            #[trigger] s[i] == '-'
        } else {
            '0' <= s[i] <= '9' || 'a' <= s[i] <= 'f'
        }
    &&& s[14] == '7'
    &&& s[19] == '8' || s[19] == '9' || s[19] == 'a' || s[19] == 'b'
}

/// `uuid::Uuid::now_v7` of the uuid crate, printed by its `Display`: a new identifier of version
/// 7, which depends on the time and on chance. Of the text it is claimed how it is written. A
/// clock that is set before 1970 makes the call panic.
#[verifier::external_body]
fn new_id() -> (r: String)
    ensures
        is_id(r@),
{
    uuid::Uuid::now_v7().to_string()
}

/// A number in as many bytes as it takes, of seven bits each, the least significant ones first;
/// all bytes but the last have their highest bit set.
pub open spec fn varint(n: nat) -> Seq<u8>
    decreases n,
{
    if n < 0x80 {
        seq![n as u8]
    } else {
        seq![(0x80 + n % 0x80) as u8] + varint(n / 0x80)
    }
}

/// The number that bytes begin with, and how many bytes it takes.
pub open spec fn varint_in(bytes: Seq<u8>) -> (int, int)
    decreases bytes.len(),
{
    if bytes.len() == 0 {
        (0, 0)
    } else if bytes[0] < 0x80 {
        (bytes[0] as int, 1)
    } else {
        let rest = varint_in(bytes.skip(1));
        (bytes[0] - 0x80 + 0x80 * rest.0, rest.1 + 1)
    }
}

/// A text as a field of a payload: the number of the field, the length of the text and the text.
/// An empty text is left out.
pub open spec fn text_field(number: u8, text: Seq<char>) -> Seq<u8> {
    let bytes = vstd::utf8::encode_utf8(text);
    if text.len() == 0 {
        seq![]
    } else {
        seq![(8 * number + 2) as u8] + varint(bytes.len()) + bytes
    }
}

/// The text in the first field of a payload with a number; empty where there is none.
pub open spec fn field_text(payload: Seq<u8>, number: u8) -> Seq<char>
    decreases payload.len(),
{
    if payload.len() == 0 {
        seq![]
    } else {
        let (len, size) = varint_in(payload.skip(1));
        let end = 1 + size + len;
        if size < 0 || len < 0 || end > payload.len() {
            seq![]
        } else if payload[0] == 8 * number + 2 {
            vstd::utf8::decode_utf8(payload.subrange(1 + size, end))
        } else {
            field_text(payload.skip(end), number)
        }
    }
}

/// The number of the field of the application.
pub const APP_ID_FIELD: u8 = 1;

/// The number of the field of the title.
pub const TITLE_FIELD: u8 = 2;

/// What an event tells of a window: its application and its title.
pub open spec fn window_payload(app_id: Seq<char>, title: Seq<char>) -> Seq<u8> {
    text_field(APP_ID_FIELD, app_id) + text_field(TITLE_FIELD, title)
}

/// What an event tells of a window that is gone: its application.
pub open spec fn closed_payload(app_id: Seq<char>) -> Seq<u8> {
    text_field(APP_ID_FIELD, app_id)
}

/// Appends a number in as many bytes as it takes.
fn push_varint(out: &mut Vec<u8>, n: usize)
    ensures
        final(out)@ == old(out)@ + varint(n as nat),
{
    let ghost before = out@;
    let mut left: usize = n;
    while left >= 0x80
        invariant
            before + varint(n as nat) == out@ + varint(left as nat),
        decreases left,
    {
        let ghost so_far = out@;
        out.push((0x80 + left % 0x80) as u8);
        assert(so_far + varint(left as nat) =~= out@ + varint((left / 0x80) as nat));
        left = left / 0x80;
    }
    out.push(left as u8);
    assert(out@ =~= before + varint(n as nat));
}

/// Appends a text as a field of a payload.
fn push_text_field(out: &mut Vec<u8>, number: u8, text: &str)
    requires
        number < 16,
    ensures
        final(out)@ == old(out)@ + text_field(number, text@),
{
    let ghost before = out@;
    if text.is_empty() {
        assert(out@ =~= before + text_field(number, text@));
        return ;
    }
    let bytes: &[u8] = text.as_bytes();
    out.push(8 * number + 2);
    push_varint(out, bytes.len());
    let ghost head = out@;
    let mut i: usize = 0;
    while i < bytes.len()
        invariant
            i <= bytes@.len(),
            out@ =~= head + bytes@.take(i as int),
        decreases bytes@.len() - i,
    {
        out.push(bytes[i]);
        i += 1;
    }
    assert(bytes@.take(i as int) =~= bytes@);
    assert(out@ =~= before + text_field(number, text@));
}

/// An event with a payload.
pub open spec fn event_with(
    id: Seq<char>,
    kind: Seq<char>,
    source: Seq<char>,
    session_id: Seq<char>,
    stamp: Stamp,
    payload: Seq<u8>,
) -> EventModel {
    EventModel {
        id,
        kind,
        timestamp: stamp.timestamp,
        source,
        pid: stamp.pid,
        session_id,
        payload,
    }
}

/// An event with a payload.
pub fn build_event(
    id: String,
    kind: String,
    source: String,
    session_id: String,
    stamp: Stamp,
    payload: Vec<u8>,
) -> (r: Event)
    ensures
        r@ == event_with(id@, kind@, source@, session_id@, stamp, payload@),
{
    Event {
        id,
        kind,
        timestamp: stamp.timestamp,
        source,
        pid: stamp.pid,
        session_id,
        payload,
    }
}

/// What reports events.
#[derive(Debug, PartialEq, Eq)]
pub struct EventBusHandle {
    pub session_id: String,
    /// The application that was last reported to have the focus.
    pub last_focused_app_id: String,
}

impl EventBusHandle {
    /// A reporter of the given session.
    pub fn new(session_id: String) -> (r: Self)
        ensures
            r.session_id == session_id,
            r.last_focused_app_id@ == ""@,
    {
        EventBusHandle { session_id, last_focused_app_id: String::from_str("") }
    }

    /// An event of the Wayland side.
    fn wayland_event(&self, kind: &str, stamp: Stamp, payload: Vec<u8>) -> (r: Event)
        ensures
            r@ == event_with(r@.id, kind@, "wayland"@, self.session_id@, stamp, payload@),
            is_id(r@.id),
    {
        build_event(
            new_id(),
            String::from_str(kind),
            String::from_str("wayland"),
            self.session_id.clone(),
            stamp,
            payload,
        )
    }

    /// Notes that a window of the application has the focus; returns whether that is to be
    /// reported, which it is where another application was reported last.
    pub fn note_focus(&mut self, app_id: &str) -> (r: bool)
        ensures
            r == (old(self).last_focused_app_id@ != app_id@),
            r == (reported(old(self).last_focused_app_id@, seq![app_id@]).len() == 1),
            final(self).last_focused_app_id@ == app_id@,
            final(self).session_id == old(self).session_id,
    {
        proof {
            reveal_with_fuel(reported, 2);
            assert(seq![app_id@].skip(1) =~= seq![]);
        }
        if str_eq(self.last_focused_app_id.as_str(), app_id) {
            return false;
        }
        self.last_focused_app_id = String::from_str(app_id);
        true
    }

    /// The event that a window of the application has the focus, with its title; `None` where the
    /// application was reported last.
    pub fn emit_window_focused(&mut self, app_id: &str, title: &str, stamp: Stamp) -> (r: Option<
        Event,
    >)
        ensures
            final(self).last_focused_app_id@ == app_id@,
            final(self).session_id == old(self).session_id,
            match r {
                Some(event) => old(self).last_focused_app_id@ != app_id@ && event@ == event_with(
                    event@.id,
                    "window.focused"@,
                    "wayland"@,
                    old(self).session_id@,
                    stamp,
                    window_payload(app_id@, title@),
                ) && is_id(event@.id) && field_text(event@.payload, APP_ID_FIELD) == app_id@
                    && field_text(event@.payload, TITLE_FIELD) == title@,
                None => old(self).last_focused_app_id@ == app_id@,
            },
    {
        if self.note_focus(app_id) {
            Some(self.wayland_event("window.focused", stamp, payload_of(app_id, title)))
        } else {
            None
        }
    }

    /// The event that a window of the application was opened, with its title.
    pub fn emit_window_opened(&self, app_id: &str, title: &str, stamp: Stamp) -> (r: Event)
        ensures
            r@ == event_with(
                r@.id,
                "window.opened"@,
                "wayland"@,
                self.session_id@,
                stamp,
                window_payload(app_id@, title@),
            ),
            is_id(r@.id),
            field_text(r@.payload, APP_ID_FIELD) == app_id@,
            field_text(r@.payload, TITLE_FIELD) == title@,
    {
        self.wayland_event("window.opened", stamp, payload_of(app_id, title))
    }

    /// The event that a window of the application was closed.
    pub fn emit_window_closed(&self, app_id: &str, stamp: Stamp) -> (r: Event)
        ensures
            r@ == event_with(
                r@.id,
                "window.closed"@,
                "wayland"@,
                self.session_id@,
                stamp,
                closed_payload(app_id@),
            ),
            is_id(r@.id),
            field_text(r@.payload, APP_ID_FIELD) == app_id@,
    {
        let mut payload: Vec<u8> = Vec::new();
        push_text_field(&mut payload, APP_ID_FIELD, app_id);
        proof {
            assert(payload@ =~= closed_payload(app_id@));
            payloads_are_read_back(app_id@, seq![]);
        }
        self.wayland_event("window.closed", stamp, payload)
    }

    /// The event that something of the given type was copied to the clipboard. It has no payload:
    /// what was copied is not told.
    pub fn emit_clipboard_copy(&self, _mime_type: &str, stamp: Stamp) -> (r: Event)
        ensures
            r@ == event_with(
                r@.id,
                "clipboard.copy"@,
                "wayland"@,
                self.session_id@,
                stamp,
                seq![],
            ),
            is_id(r@.id),
    {
        let payload: Vec<u8> = Vec::new();
        assert(payload@ =~= seq![]);
        self.wayland_event("clipboard.copy", stamp, payload)
    }

    /// The event that an action of a module was asked for: its kind ends in the name of the
    /// module, and its source is the name of the action.
    pub fn emit_module_action(&self, module_id: &str, action_id: &str, stamp: Stamp) -> (r: Event)
        ensures
            r@ == event_with(
                r@.id,
                "module.action_invoked."@ + module_id@,
                action_id@,
                self.session_id@,
                stamp,
                seq![],
            ),
            is_id(r@.id),
    {
        let mut kind: String = String::from_str("module.action_invoked.");
        kind.append(module_id);
        let payload: Vec<u8> = Vec::new();
        assert(payload@ =~= seq![]);
        build_event(
            new_id(),
            kind,
            String::from_str(action_id),
            self.session_id.clone(),
            stamp,
            payload,
        )
    }
}

/// What an event tells of a window.
fn payload_of(app_id: &str, title: &str) -> (r: Vec<u8>)
    ensures
        r@ == window_payload(app_id@, title@),
        field_text(r@, APP_ID_FIELD) == app_id@,
        field_text(r@, TITLE_FIELD) == title@,
{
    let mut payload: Vec<u8> = Vec::new();
    push_text_field(&mut payload, APP_ID_FIELD, app_id);
    push_text_field(&mut payload, TITLE_FIELD, title);
    proof {
        assert(payload@ =~= window_payload(app_id@, title@));
        payloads_are_read_back(app_id@, title@);
    }
    payload
}

/// The session: the one that is named, or else a new one.
pub fn session_id(named: Option<String>) -> (r: String)
    ensures
        match named {
            Some(id) => r == id,
            None => is_id(r@),
        },
{
    match named {
        Some(id) => id,
        None => new_id(),
    }
}

/// The socket of the event bus: the one that is named, or else the default one.
pub fn socket_path(named: Option<String>) -> (r: String)
    ensures
        r@ == match named {
            Some(path) => path@,
            None => "/run/lunaris/event-bus-producer.sock"@,
        },
{
    match named {
        Some(path) => path,
        None => String::from_str("/run/lunaris/event-bus-producer.sock"),
    }
}

/// A length in four bytes, the most significant one first.
pub open spec fn length_bytes(len: int) -> Seq<u8> {
    seq![
        (len / 0x100_0000) as u8,
        (len / 0x1_0000 % 0x100) as u8,
        (len / 0x100 % 0x100) as u8,
        (len % 0x100) as u8,
    ]
}

/// A message as it is sent: its length, and then the message.
pub open spec fn framed(bytes: Seq<u8>) -> Seq<u8> {
    length_bytes(bytes.len() as int) + bytes
}

/// A serialised event as it is sent; `None` where its length does not fit in four bytes.
pub fn encode(bytes: &Vec<u8>) -> (r: Option<EventBusMessage>)
    ensures
        match r {
            Some(message) => bytes@.len() <= u32::MAX && message.0@ == framed(bytes@),
            None => bytes@.len() > u32::MAX,
        },
{
    let len: u64 = bytes.len() as u64;
    if len > 0xFFFF_FFFF {
        return None;
    }
    let mut out: Vec<u8> = Vec::new();
    out.push((len / 0x100_0000) as u8);
    out.push((len / 0x1_0000 % 0x100) as u8);
    out.push((len / 0x100 % 0x100) as u8);
    out.push((len % 0x100) as u8);
    let mut i: usize = 0;
    while i < bytes.len()
        invariant
            i <= bytes@.len(),
            len == bytes@.len(),
            out@ =~= length_bytes(len as int) + bytes@.take(i as int),
        decreases bytes@.len() - i,
    {
        out.push(bytes[i]);
        i += 1;
    }
    assert(bytes@.take(i as int) =~= bytes@);
    Some(EventBusMessage(out))
}

/// What the sender of messages does.
#[derive(Clone, Copy, Debug, PartialEq, Eq, Structural)]
pub enum SenderAction {
    /// Connect to the event bus.
    Connect,
    /// Wait, and then connect.
    WaitAndConnect,
    /// Take the next message and write it.
    Send,
    /// End.
    Stop,
}

/// What became of what the sender did.
#[derive(Clone, Copy, Debug, PartialEq, Eq, Structural)]
pub enum SenderEvent {
    Connected,
    ConnectFailed,
    /// A message was written.
    Sent,
    /// A message could not be written.
    WriteFailed,
    /// There will be no more messages.
    Closed,
}

/// What the sender does next: it connects until that works, sends until that fails, and stops
/// only where there will be no more messages. A message that could not be written is lost.
pub fn next_action(event: SenderEvent) -> (r: SenderAction)
    ensures
        r == match event {
            SenderEvent::Connected => SenderAction::Send,
            SenderEvent::ConnectFailed => SenderAction::WaitAndConnect,
            SenderEvent::Sent => SenderAction::Send,
            SenderEvent::WriteFailed => SenderAction::Connect,
            SenderEvent::Closed => SenderAction::Stop,
        },
{
    match event {
        SenderEvent::Connected => SenderAction::Send,
        SenderEvent::ConnectFailed => SenderAction::WaitAndConnect,
        SenderEvent::Sent => SenderAction::Send,
        SenderEvent::WriteFailed => SenderAction::Connect,
        SenderEvent::Closed => SenderAction::Stop,
    }
}

/// The length that four bytes write.
pub open spec fn length_of(bytes: Seq<u8>) -> int {
    bytes[0] * 0x100_0000 + bytes[1] * 0x1_0000 + bytes[2] * 0x100 + bytes[3]
}

/// The length in front of a message is its length, so that messages can be told apart in a
/// stream of them.
pub proof fn messages_are_read_back(bytes: Seq<u8>, rest: Seq<u8>)
    requires
        bytes.len() <= u32::MAX,
    ensures
        ({
            let stream = framed(bytes) + rest;
            let len = length_of(stream);
            &&& len == bytes.len()
            &&& stream.subrange(4, 4 + len) == bytes
            &&& stream.skip(4 + len) == rest
        }),
{
    let stream = framed(bytes) + rest;
    let n = bytes.len() as int;
    assert(stream[0] == length_bytes(n)[0]);
    assert(stream[1] == length_bytes(n)[1]);
    assert(stream[2] == length_bytes(n)[2]);
    assert(stream[3] == length_bytes(n)[3]);
    assert(stream.subrange(4, 4 + n) =~= bytes);
    assert(stream.skip(4 + n) =~= rest);
}

/// A number is read back from its bytes, whatever follows them.
proof fn lemma_varint(n: nat, rest: Seq<u8>)
    ensures
        varint_in(varint(n) + rest) == (n as int, varint(n).len() as int),
        varint(n).len() > 0,
    decreases n,
{
    if n >= 0x80 {
        lemma_varint(n / 0x80, rest);
        assert((varint(n) + rest).skip(1) =~= varint(n / 0x80) + rest);
    }
}

/// A field is found at the start of a payload, and passed over where another one is looked for.
proof fn lemma_first_field(number: u8, text: Seq<char>, rest: Seq<u8>, wanted: u8)
    requires
        number < 16,
        wanted < 16,
    ensures
        field_text(text_field(number, text) + rest, wanted) == if number == wanted && text.len()
            > 0 {
            text
        } else {
            field_text(rest, wanted)
        },
{
    let bytes = vstd::utf8::encode_utf8(text);
    let field = text_field(number, text);
    if text.len() == 0 {
        assert(field + rest =~= rest);
    } else {
        let size = varint(bytes.len()).len() as int;
        let end = 1 + size + bytes.len();
        lemma_varint(bytes.len(), bytes + rest);
        assert((field + rest).skip(1) =~= varint(bytes.len()) + (bytes + rest));
        assert((field + rest).subrange(1 + size, end) =~= bytes);
        assert((field + rest).skip(end) =~= rest);
        vstd::utf8::encode_utf8_decode_utf8(text);
    }
}

/// The application and the title of a window are read back from what an event tells of it.
pub proof fn payloads_are_read_back(app_id: Seq<char>, title: Seq<char>)
    ensures
        field_text(window_payload(app_id, title), APP_ID_FIELD) == app_id,
        field_text(window_payload(app_id, title), TITLE_FIELD) == title,
        field_text(closed_payload(app_id), APP_ID_FIELD) == app_id,
{
    let none: Seq<u8> = seq![];
    let titled = text_field(TITLE_FIELD, title);
    assert(titled + none =~= titled);
    assert(closed_payload(app_id) + none =~= closed_payload(app_id));
    lemma_first_field(APP_ID_FIELD, app_id, titled, APP_ID_FIELD);
    lemma_first_field(APP_ID_FIELD, app_id, titled, TITLE_FIELD);
    lemma_first_field(APP_ID_FIELD, app_id, none, APP_ID_FIELD);
    lemma_first_field(TITLE_FIELD, title, none, APP_ID_FIELD);
    lemma_first_field(TITLE_FIELD, title, none, TITLE_FIELD);
    assert(app_id.len() == 0 ==> app_id =~= seq![]);
    assert(title.len() == 0 ==> title =~= seq![]);
}

/// The applications that are reported where windows of the given ones get the focus one after
/// another, and `last` was reported before.
pub open spec fn reported(last: Seq<char>, app_ids: Seq<Seq<char>>) -> Seq<Seq<char>>
    decreases app_ids.len(),
{
    if app_ids.len() == 0 {
        seq![]
    } else if app_ids[0] == last {
        reported(last, app_ids.skip(1))
    } else {
        seq![app_ids[0]] + reported(app_ids[0], app_ids.skip(1))
    }
}

/// No application is reported twice in a row, nor first where it was reported last.
pub proof fn focus_is_reported_once(last: Seq<char>, app_ids: Seq<Seq<char>>)
    ensures
        reported(last, app_ids).len() > 0 ==> reported(last, app_ids)[0] != last,
        forall|i: int|
            0 < i < reported(last, app_ids).len() ==> #[trigger] reported(last, app_ids)[i]
                != reported(last, app_ids)[i - 1],
    decreases app_ids.len(),
{
    if app_ids.len() > 0 {
        if app_ids[0] == last {
            focus_is_reported_once(last, app_ids.skip(1));
        } else {
            focus_is_reported_once(app_ids[0], app_ids.skip(1));
            let rest = reported(app_ids[0], app_ids.skip(1));
            let all = reported(last, app_ids);
            assert forall|i: int| 0 < i < all.len() implies #[trigger] all[i] != all[i - 1] by {
                assert(all[i] == rest[i - 1]);
                if i > 1 {
                    assert(all[i - 1] == rest[i - 2]);
                }
            }
        }
    }
}

} // verus!
