//! Fast-path input PDUs: the form in which input events reach an RDP host.

use crate::broker::input::{session_input_of, BrowserCommand, RdpInput, POINTER_MOVE};
use crate::broker::scancode::{command_keys_are_numbered, scancode_of, scancodes_tell_keys_apart};
use crate::bytes::{append, le16};
use vstd::prelude::*;

verus! {

/// One event of a fast-path input PDU.
#[derive(Clone, Copy, Debug, PartialEq, Eq, Structural)]
pub enum FastPathEvent {
    Mouse { pointer_flags: u16, x: u16, y: u16 },
    Keyboard { key_flags: u8, scancode: u8 },
}

/// Keyboard flag: the key goes up.
pub const KEY_RELEASE: u8 = 0x01;

/// Keyboard flag: the scancode is an extended one.
pub const KEY_EXTENDED: u8 = 0x02;

/// The scancode of the control key.
pub const SCANCODE_CONTROL: u8 = 0x1D;

/// The scancode of the alt key.
pub const SCANCODE_ALT: u8 = 0x38;

/// The scancode of the delete key, an extended one.
pub const SCANCODE_DELETE: u8 = 0x53;

/// The bytes of a fast-path input PDU that carries a single event: one byte for the number of
/// events, one for the length of the whole, then the event.
pub open spec fn fast_path_bytes(event: FastPathEvent) -> Seq<u8> {
    match event {
        FastPathEvent::Mouse { pointer_flags, x, y } => seq![0x04u8, 9u8, 0x20u8] + le16(
            pointer_flags,
        ) + le16(x) + le16(y),
        FastPathEvent::Keyboard { key_flags, scancode } => seq![
            0x04u8,
            4u8,
            key_flags,
            scancode,
        ],
    }
}

/// `ironrdp_core::encode_vec` of an `ironrdp_pdu` `FastPathInput` with a single event: the two
/// header bytes and the event. A mouse event is sent without wheel rotation. Keyboard flags
/// have five bits.
#[verifier::external_body]
fn encode_event(event: FastPathEvent) -> (r: Option<Vec<u8>>)
    requires
        event matches FastPathEvent::Keyboard { key_flags, scancode } ==> key_flags < 32,
    ensures
        r is Some,
        r->0@ == fast_path_bytes(event),
{
    let event = match event {
        FastPathEvent::Mouse { pointer_flags, x, y } =>
            ironrdp_pdu::input::fast_path::FastPathInputEvent::MouseEvent(ironrdp_pdu::input::MousePdu {
                flags: ironrdp_pdu::input::mouse::PointerFlags::from_bits_retain(pointer_flags),
                number_of_wheel_rotation_units: 0,
                x_position: x,
                y_position: y,
            }),
        FastPathEvent::Keyboard { key_flags, scancode } =>
            ironrdp_pdu::input::fast_path::FastPathInputEvent::KeyboardEvent(
                ironrdp_pdu::input::fast_path::KeyboardFlags::from_bits_retain(key_flags), scancode),
    };
    ironrdp::core::encode_vec(&ironrdp_pdu::input::fast_path::FastPathInput::single(event)).ok()
}

/// The input could not be encoded.
#[derive(Clone, Copy, Debug, PartialEq, Eq, Structural)]
pub struct EncodeFailed;

/// Writes a PDU with a single event over what `out` held.
pub fn write_pdu(event: FastPathEvent, out: &mut Vec<u8>) -> (r: Result<(), EncodeFailed>)
    requires
        event matches FastPathEvent::Keyboard { key_flags, scancode } ==> key_flags < 32,
    ensures
        r is Ok,
        final(out)@ == fast_path_bytes(event),
{
    match encode_event(event) {
        Some(bytes) => {
            *out = bytes;
            Ok(())
        },
        None => Err(EncodeFailed),
    }
}

/// The keyboard event of a key that goes down or up.
pub open spec fn key_event(scancode: u8, extended: bool, down: bool) -> FastPathEvent {
    let release: int = if down {
        0
    } else {
        1
    };
    let mark: int = if extended {
        2
    } else {
        0
    };
    FastPathEvent::Keyboard { key_flags: (release + mark) as u8, scancode }
}

/// The keyboard event of a key that goes down or up.
pub fn kev(sc: u8, extended: bool, down: bool) -> (r: FastPathEvent)
    ensures
        r == key_event(sc, extended, down),
{
    let release: u8 = if down {
        0
    } else {
        KEY_RELEASE
    };
    let mark: u8 = if extended {
        KEY_EXTENDED
    } else {
        0
    };
    FastPathEvent::Keyboard { key_flags: release + mark, scancode: sc }
}

/// The six events of control, alt and delete: pressed in turn, then released in reverse.
pub open spec fn ctrl_alt_del() -> Seq<FastPathEvent> {
    seq![
        key_event(SCANCODE_CONTROL, false, true),
        key_event(SCANCODE_ALT, false, true),
        key_event(SCANCODE_DELETE, true, true),
        key_event(SCANCODE_DELETE, true, false),
        key_event(SCANCODE_ALT, false, false),
        key_event(SCANCODE_CONTROL, false, false),
    ]
}

/// The fast-path events of an input event.
pub open spec fn events_of(ev: RdpInput) -> Seq<FastPathEvent> {
    match ev {
        RdpInput::MouseMove { x, y } => seq![
            FastPathEvent::Mouse { pointer_flags: POINTER_MOVE, x, y },
        ],
        RdpInput::MouseButton { x, y, flags } => seq![
            FastPathEvent::Mouse { pointer_flags: flags, x, y },
        ],
        RdpInput::Key { scancode, extended, down } => seq![key_event(scancode, extended, down)],
        RdpInput::CtrlAltDel => ctrl_alt_del(),
        RdpInput::FrameAck => Seq::empty(),
    }
}

/// The PDUs of a run of events, one event to a PDU.
pub open spec fn pdu_bytes(events: Seq<FastPathEvent>) -> Seq<u8>
    decreases events.len(),
{
    if events.len() == 0 {
        Seq::empty()
    } else {
        pdu_bytes(events.drop_last()) + fast_path_bytes(events.last())
    }
}

/// Encodes an input event for the host: one PDU for each of its fast-path events, one behind
/// the other, and nothing for an acknowledgement.
pub fn build_fast_path_input(ev: RdpInput) -> (r: Result<Option<Vec<u8>>, EncodeFailed>)
    ensures
        r is Ok,
        ev is FrameAck ==> r->Ok_0 is None,
        ev !is FrameAck ==> r->Ok_0 is Some && r->Ok_0->0@ == pdu_bytes(events_of(ev)),
{
    let mut events: Vec<FastPathEvent> = Vec::new();
    match ev {
        RdpInput::MouseMove { x, y } => {
            events.push(FastPathEvent::Mouse { pointer_flags: POINTER_MOVE, x, y });
        },
        RdpInput::MouseButton { x, y, flags } => {
            events.push(FastPathEvent::Mouse { pointer_flags: flags, x, y });
        },
        RdpInput::FrameAck => {
            return Ok(None);
        },
        RdpInput::Key { scancode, extended, down } => {
            events.push(kev(scancode, extended, down));
        },
        RdpInput::CtrlAltDel => {
            events.push(kev(SCANCODE_CONTROL, false, true));
            events.push(kev(SCANCODE_ALT, false, true));
            events.push(kev(SCANCODE_DELETE, true, true));
            events.push(kev(SCANCODE_DELETE, true, false));
            events.push(kev(SCANCODE_ALT, false, false));
            events.push(kev(SCANCODE_CONTROL, false, false));
        },
    }
    assert(events@ =~= events_of(ev));
    let mut out: Vec<u8> = Vec::new();
    let mut buf: Vec<u8> = Vec::new();
    let mut i: usize = 0;
    assert(events@.take(0) =~= Seq::<FastPathEvent>::empty());
    while i < events.len()
        invariant
            i <= events@.len(),
            events@ == events_of(ev),
            out@ == pdu_bytes(events@.take(i as int)),
        decreases events@.len() - i,
    {
        let event: FastPathEvent = events[i];
        match write_pdu(event, &mut buf) {
            Ok(()) => {},
            Err(e) => {
                return Err(e);
            },
        }
        append(&mut out, buf.as_slice());
        assert(events@.take(i + 1).drop_last() =~= events@.take(i as int));
        i = i + 1;
    }
    assert(events@.take(events@.len() as int) =~= events@);
    Ok(Some(out))
}

/// Every key that the three-key command presses it also releases, in reverse order, and the host
/// sees nothing pressed before or after that was not.
pub proof fn ctrl_alt_del_releases_what_it_presses(i: int)
    requires
        0 <= i < 3,
    ensures
        ctrl_alt_del().len() == 6,
        exists|sc: u8, ext: bool|
            #![trigger key_event(sc, ext, true)]
            ctrl_alt_del()[i] == key_event(sc, ext, true) && ctrl_alt_del()[5 - i] == key_event(
                sc,
                ext,
                false,
            ),
{
    assert(ctrl_alt_del()[0] == key_event(SCANCODE_CONTROL, false, true));
    assert(ctrl_alt_del()[1] == key_event(SCANCODE_ALT, false, true));
    assert(ctrl_alt_del()[2] == key_event(SCANCODE_DELETE, true, true));
}

/// What the host is sent tells the events apart: PDUs with the same bytes carry the same event.
pub proof fn fast_path_reads_back(a: FastPathEvent, b: FastPathEvent)
    requires
        fast_path_bytes(a) == fast_path_bytes(b),
    ensures
        a == b,
{
    let x = fast_path_bytes(a);
    let y = fast_path_bytes(b);
    assert(x[1] == y[1] && x[2] == y[2] && x[3] == y[3]);
    match a {
        FastPathEvent::Mouse { pointer_flags, x: ax, y: ay } => {
            assert(x.len() == 9);
            assert(x[4] == y[4] && x[5] == y[5] && x[6] == y[6] && x[7] == y[7] && x[8] == y[8]);
            assert(x[3] == le16(pointer_flags)[0] && x[4] == le16(pointer_flags)[1]);
            assert(x[5] == le16(ax)[0] && x[6] == le16(ax)[1]);
            assert(x[7] == le16(ay)[0] && x[8] == le16(ay)[1]);
            match b {
                FastPathEvent::Mouse { pointer_flags: bf, x: bx, y: by } => {
                    assert(y[3] == le16(bf)[0] && y[4] == le16(bf)[1]);
                    assert(y[5] == le16(bx)[0] && y[6] == le16(bx)[1]);
                    assert(y[7] == le16(by)[0] && y[8] == le16(by)[1]);
                },
                FastPathEvent::Keyboard { .. } => {
                    assert(y.len() == 4);
                },
            }
        },
        FastPathEvent::Keyboard { .. } => {},
    }
}

/// The host can tell any two keys of the browser apart, and a press from a release: the bytes
/// that it is sent are the same only for the same key going the same way.
pub proof fn keys_reach_the_host_apart(a: BrowserCommand, b: BrowserCommand)
    requires
        a is Key,
        b is Key,
        session_input_of(a) is Some,
        session_input_of(b) is Some,
        pdu_bytes(events_of(session_input_of(a)->0)) == pdu_bytes(events_of(session_input_of(b)->0)),
    ensures
        a->code@ == b->code@,
        a->Key_down == b->Key_down,
{
    let x = scancode_of(a->code@)->0;
    let y = scancode_of(b->code@)->0;
    let ex = key_event(x.0, x.1, a->Key_down);
    let ey = key_event(y.0, y.1, b->Key_down);
    single_event_pdu(ex);
    single_event_pdu(ey);
    fast_path_reads_back(ex, ey);
    scancodes_tell_keys_apart(a->code@, b->code@);
}

proof fn single_event_pdu(event: FastPathEvent)
    ensures
        pdu_bytes(seq![event]) == fast_path_bytes(event),
{
    let events = seq![event];
    assert(events.drop_last() =~= Seq::<FastPathEvent>::empty());
    assert(pdu_bytes(events.drop_last()) =~= Seq::<u8>::empty());
    assert(pdu_bytes(events) =~= fast_path_bytes(event));
}

/// The bytes that a key is sent as: a PDU of four bytes with one event, whose lowest bit says that
/// the key goes up and whose next bit that it is an extended one, and the scancode.
pub proof fn keys_are_sent_in_four_bytes(scancode: u8, extended: bool, down: bool)
    ensures
        pdu_bytes(events_of(RdpInput::Key { scancode, extended, down })) == seq![
            4u8,
            4u8,
            (if down {
                0int
            } else {
                1int
            } + if extended {
                2int
            } else {
                0int
            }) as u8,
            scancode,
        ],
{
    let event = key_event(scancode, extended, down);
    single_event_pdu(event);
    assert(events_of(RdpInput::Key { scancode, extended, down }) =~= seq![event]);
}

/// The bytes that a mouse event is sent as: a PDU of nine bytes with one event of the mouse, its
/// flags, and the place, the column first; a movement has the flag for movements alone.
pub proof fn mouse_events_are_sent_in_nine_bytes(x: u16, y: u16, flags: u16)
    ensures
        ({
            let button = pdu_bytes(events_of(RdpInput::MouseButton { x, y, flags }));
            &&& button.len() == 9
            &&& button[0] == 4 && button[1] == 9 && button[2] == 0x20
            &&& button[3] + 256 * button[4] == flags
            &&& button[5] + 256 * button[6] == x
            &&& button[7] + 256 * button[8] == y
        }),
        pdu_bytes(events_of(RdpInput::MouseMove { x, y })) == pdu_bytes(
            events_of(RdpInput::MouseButton { x, y, flags: 0x0800 }),
        ),
{
    let event = FastPathEvent::Mouse { pointer_flags: flags, x, y };
    let moved = FastPathEvent::Mouse { pointer_flags: 0x0800, x, y };
    single_event_pdu(event);
    single_event_pdu(moved);
    assert(events_of(RdpInput::MouseButton { x, y, flags }) =~= seq![event]);
    assert(events_of(RdpInput::MouseMove { x, y }) =~= seq![moved]);
    assert(events_of(RdpInput::MouseButton { x, y, flags: 0x0800 }) =~= seq![moved]);
    let b = fast_path_bytes(event);
    assert(b[3] == le16(flags)[0] && b[4] == le16(flags)[1]);
    assert(b[5] == le16(x)[0] && b[6] == le16(x)[1]);
    assert(b[7] == le16(y)[0] && b[8] == le16(y)[1]);
}

/// The three-key command is what pressing and releasing the left control key, the left alt key and
/// the delete key sends, in this order: each as it would be sent by itself.
pub proof fn three_keys_are_control_alt_and_delete(i: int)
    requires
        0 <= i < 6,
    ensures
        scancode_of("ControlLeft"@) is Some && scancode_of("AltLeft"@) is Some && scancode_of(
            "Delete"@,
        ) is Some,
        ({
            let key = if i == 0 || i == 5 {
                scancode_of("ControlLeft"@)->0
            } else if i == 1 || i == 4 {
                scancode_of("AltLeft"@)->0
            } else {
                scancode_of("Delete"@)->0
            };
            seq![events_of(RdpInput::CtrlAltDel)[i]] == events_of(
                RdpInput::Key { scancode: key.0, extended: key.1, down: i < 3 },
            )
        }),
        events_of(RdpInput::CtrlAltDel).len() == 6,
        events_of(RdpInput::FrameAck).len() == 0,
{
    command_keys_are_numbered();
    assert(seq![ctrl_alt_del()[i]] =~= seq![key_event(
        if i == 0 || i == 5 {
            0x1Du8
        } else if i == 1 || i == 4 {
            0x38u8
        } else {
            0x53u8
        },
        i == 2 || i == 3,
        i < 3,
    )]);
}

/// Events that are sent one behind the other are the bytes of each, one behind the other.
pub proof fn events_are_sent_in_order(events: Seq<FastPathEvent>, more: FastPathEvent)
    ensures
        pdu_bytes(events.push(more)) == pdu_bytes(events) + pdu_bytes(seq![more]),
{
    single_event_pdu(more);
    assert(events.push(more).drop_last() =~= events);
}

} // verus!
