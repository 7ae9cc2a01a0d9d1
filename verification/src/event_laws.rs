//! How events are written, and which changes of the focus are reported.

use crate::event_bus;
use crate::event_bus::Stamp;
use vstd::prelude::*;

verus! {

/// A number below 128 is one byte, and a larger one has its lowest seven bits in front of the
/// rest, marked by the highest bit.
pub proof fn numbers_are_written_in_groups_of_seven_bits(n: nat, low: nat)
    requires
        low < 128,
    ensures
        event_bus::varint(low) == seq![low as u8],
        n > 0 ==> event_bus::varint(n * 128 + low) == seq![(128 + low) as u8] + event_bus::varint(
            n,
        ),
{
    let m = n * 128 + low;
    if n > 0 {
        assert(m / 128 == n && m % 128 == low);
    }
}

/// A text is written as a field: eight times its number and two, its length, and its bytes; an
/// empty one is not written.
pub proof fn texts_are_written_with_their_number_and_length(number: u8, word: Seq<char>)
    requires
        number < 16,
    ensures
        ({
            let field = event_bus::text_field(number, word);
            let bytes = vstd::utf8::encode_utf8(word);
            &&& word.len() == 0 ==> field.len() == 0
            &&& word.len() > 0 && bytes.len() < 128 ==> field == seq![
                (8 * number + 2) as u8,
                bytes.len() as u8,
            ] + bytes
        }),
{
    let bytes = vstd::utf8::encode_utf8(word);
    if word.len() > 0 && bytes.len() < 128 {
        assert(event_bus::text_field(number, word) =~= seq![
            (8 * number + 2) as u8,
            bytes.len() as u8,
        ] + bytes);
    }
}

/// What an event tells of a window is its application as the first field and its title as the
/// second; of a window that is gone it tells the application alone.
pub proof fn windows_are_told_by_application_and_title(app_id: Seq<char>, title: Seq<char>)
    ensures
        event_bus::window_payload(app_id, title) == event_bus::text_field(1, app_id)
            + event_bus::text_field(2, title),
        event_bus::closed_payload(app_id) == event_bus::text_field(1, app_id),
        event_bus::window_payload(app_id, seq![]) == event_bus::closed_payload(app_id),
{
    assert(event_bus::text_field(2, seq![]) =~= seq![]);
    assert(event_bus::window_payload(app_id, seq![]) =~= event_bus::closed_payload(app_id));
}

/// An event has each part that it is made of.
pub proof fn events_have_their_parts(
    id: Seq<char>,
    kind: Seq<char>,
    source: Seq<char>,
    session_id: Seq<char>,
    stamp: Stamp,
    payload: Seq<u8>,
)
    ensures
        ({
            let e = event_bus::event_with(id, kind, source, session_id, stamp, payload);
            &&& e.id == id
            &&& e.kind == kind
            &&& e.source == source
            &&& e.session_id == session_id
            &&& e.timestamp == stamp.timestamp
            &&& e.pid == stamp.pid
            &&& e.payload == payload
        }),
{
}

/// A message is sent behind its length in four bytes, the most significant one first.
pub proof fn messages_follow_their_length(bytes: Seq<u8>)
    requires
        bytes.len() <= u32::MAX,
    ensures
        ({
            let sent = event_bus::framed(bytes);
            &&& sent.len() == bytes.len() + 4
            &&& sent[0] * 0x100_0000 + sent[1] * 0x1_0000 + sent[2] * 0x100 + sent[3]
                == bytes.len()
            &&& sent.skip(4) == bytes
        }),
{
    let sent = event_bus::framed(bytes);
    event_bus::messages_are_read_back(bytes, seq![]);
    assert(sent + seq![] =~= sent);
    assert(sent.skip(4) =~= bytes);
    assert(event_bus::length_of(sent) == bytes.len());
}

/// An application that gets the focus is reported where another was reported last.
pub proof fn another_application_is_reported(last: Seq<char>, app_id: Seq<char>, more: Seq<Seq<char>>)
    ensures
        app_id != last ==> event_bus::reported(last, seq![app_id] + more) == seq![app_id]
            + event_bus::reported(app_id, more),
        app_id == last ==> event_bus::reported(last, seq![app_id] + more) == event_bus::reported(
            last,
            more,
        ),
        event_bus::reported(last, seq![]).len() == 0,
{
    assert((seq![app_id] + more).skip(1) =~= more);
}

/// An identifier has 36 characters: five groups of hexadecimal digits, of 8, 4, 4, 4 and 12, with
/// hyphens between them, the third one of which begins with the version.
pub proof fn identifiers_are_five_groups(s: Seq<char>)
    requires
        event_bus::is_id(s),
    ensures
        s.len() == 36,
        s[8] == '-' && s[13] == '-' && s[18] == '-' && s[23] == '-',
        s[14] == '7',
        forall|i: int|
            0 <= i < 36 && i != 8 && i != 13 && i != 18 && i != 23 ==> ('0' <= #[trigger] s[i]
                <= '9') || ('a' <= s[i] <= 'f'),
{
}

} // verus!
