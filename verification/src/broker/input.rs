//! Commands from the browser, and the input events that they become.

use crate::broker::scancode::{scancode_from_code, scancode_of};
use crate::text::same;
use vstd::prelude::*;

verus! {

/// A command that a browser sends.
#[derive(Debug)]
pub enum BrowserCommand {
    NlaCredentials { username: String, password: String, domain: Option<String> },
    StartInteractive,
    MouseMove { x: i32, y: i32 },
    MouseButton { x: i32, y: i32, button: String, down: bool },
    Key { code: String, down: bool },
    SendCtrlAltDel,
    FrameAck,
}

/// An input event on its way to the RDP host. A frame acknowledgement stays in the broker.
#[derive(Clone, Copy, Debug, PartialEq, Eq, Structural)]
pub enum RdpInput {
    MouseMove { x: u16, y: u16 },
    MouseButton { x: u16, y: u16, flags: u16 },
    Key { scancode: u8, extended: bool, down: bool },
    CtrlAltDel,
    FrameAck,
}

/// Pointer flag: the event is a movement.
pub const POINTER_MOVE: u16 = 0x0800;

/// Pointer flag: the event is about the left button.
pub const POINTER_LEFT: u16 = 0x1000;

/// Pointer flag: the event is about the right button.
pub const POINTER_RIGHT: u16 = 0x2000;

/// Pointer flag: the event is about the middle button.
pub const POINTER_MIDDLE: u16 = 0x4000;

/// Pointer flag: the button goes down.
pub const POINTER_DOWN: u16 = 0x8000;

/// The low sixteen bits of a number.
pub open spec fn low16(v: int) -> u16 {
    (v % 65536) as u16
}

/// A coordinate, not below zero, in sixteen bits.
pub open spec fn clipped16(v: i32) -> u16 {
    if v < 0 {
        0
    } else {
        low16(v as int)
    }
}

fn wrap16(v: i32) -> (r: u16)
    ensures
        r == low16(v as int),
{
    ((v as i64 + 0x1_0000_0000) % 65536) as u16
}

fn clip16(v: i32) -> (r: u16)
    ensures
        r == clipped16(v),
{
    if v < 0 {
        0
    } else {
        wrap16(v)
    }
}

/// The pointer flags of a button event, for the three buttons that there are.
pub open spec fn pointer_flags_of(button: Seq<char>, down: bool) -> Option<u16> {
    if button == "left"@ {
        Some(
            if down {
                0x9000
            } else {
                POINTER_LEFT
            },
        )
    } else if button == "right"@ {
        Some(
            if down {
                0xA000
            } else {
                POINTER_RIGHT
            },
        )
    } else if button == "middle"@ {
        Some(
            if down {
                0xC000
            } else {
                POINTER_MIDDLE
            },
        )
    } else {
        None
    }
}

fn pointer_flags(button: &str, down: bool) -> (r: Option<u16>)
    ensures
        r == pointer_flags_of(button@, down),
{
    let bit: u16 = if same(button, "left") {
        POINTER_LEFT
    } else if same(button, "right") {
        POINTER_RIGHT
    } else if same(button, "middle") {
        POINTER_MIDDLE
    } else {
        return None;
    };
    Some(
        if down {
            POINTER_DOWN + bit
        } else {
            bit
        },
    )
}

/// The flags of a pressed button are those of the released one and the mark for down, and name
/// one button only.
pub proof fn button_flags_are_marks(button: Seq<char>)
    requires
        pointer_flags_of(button, true) is Some,
    ensures
        pointer_flags_of(button, false) is Some,
        pointer_flags_of(button, true)->0 == pointer_flags_of(button, false)->0 | POINTER_DOWN,
        pointer_flags_of(button, false)->0 & POINTER_DOWN == 0,
{
    assert(0x1000u16 | 0x8000u16 == 0x9000u16 && 0x1000u16 & 0x8000u16 == 0u16) by (bit_vector);
    assert(0x2000u16 | 0x8000u16 == 0xA000u16 && 0x2000u16 & 0x8000u16 == 0u16) by (bit_vector);
    assert(0x4000u16 | 0x8000u16 == 0xC000u16 && 0x4000u16 & 0x8000u16 == 0u16) by (bit_vector);
}

/// The input event that a command stands for, where it stands for one.
pub open spec fn input_of(cmd: BrowserCommand) -> Option<RdpInput> {
    match cmd {
        BrowserCommand::MouseMove { x, y } => Some(
            RdpInput::MouseMove { x: clipped16(x), y: clipped16(y) },
        ),
        BrowserCommand::MouseButton { x, y, button, down } => match pointer_flags_of(
            button@,
            down,
        ) {
            Some(flags) => Some(
                RdpInput::MouseButton { x: clipped16(x), y: clipped16(y), flags },
            ),
            None => None,
        },
        BrowserCommand::Key { code, down } => match scancode_of(code@) {
            Some(k) => Some(RdpInput::Key { scancode: k.0, extended: k.1, down }),
            None => None,
        },
        BrowserCommand::SendCtrlAltDel => Some(RdpInput::CtrlAltDel),
        _ => None,
    }
}

/// Turns a command into the input event that it stands for. Commands that are no input, buttons
/// that are not known and keys without a scancode become none.
pub fn browser_cmd_to_rdp_input(cmd: BrowserCommand) -> (r: Option<RdpInput>)
    ensures
        r == input_of(cmd),
{
    match cmd {
        BrowserCommand::MouseMove { x, y } => Some(
            RdpInput::MouseMove { x: clip16(x), y: clip16(y) },
        ),
        BrowserCommand::MouseButton { x, y, button, down } => match pointer_flags(
            button.as_str(),
            down,
        ) {
            Some(flags) => Some(RdpInput::MouseButton { x: clip16(x), y: clip16(y), flags }),
            None => None,
        },
        BrowserCommand::Key { code, down } => match scancode_from_code(code.as_str()) {
            Some(k) => Some(RdpInput::Key { scancode: k.0, extended: k.1, down }),
            None => None,
        },
        BrowserCommand::SendCtrlAltDel => Some(RdpInput::CtrlAltDel),
        _ => None,
    }
}

/// The pointer flags of a button event in a session: none for a button that is not known.
pub open spec fn session_flags_of(button: Seq<char>, down: bool) -> u16 {
    match pointer_flags_of(button, down) {
        Some(flags) => flags,
        None => 0,
    }
}

/// The movement, button event or acknowledgement that a session makes of a command. Coordinates
/// keep their low sixteen bits.
pub open spec fn mouse_of(cmd: BrowserCommand) -> Option<RdpInput> {
    match cmd {
        BrowserCommand::FrameAck => Some(RdpInput::FrameAck),
        BrowserCommand::MouseMove { x, y } => Some(
            RdpInput::MouseMove { x: low16(x as int), y: low16(y as int) },
        ),
        BrowserCommand::MouseButton { x, y, button, down } => Some(
            RdpInput::MouseButton {
                x: low16(x as int),
                y: low16(y as int),
                flags: session_flags_of(button@, down),
            },
        ),
        _ => None,
    }
}

/// What a dedicated input channel makes of a command: mouse events, acknowledgements, and keys,
/// a key without a scancode being passed on as scancode 0.
pub open spec fn channel_input_of(cmd: BrowserCommand) -> Option<RdpInput> {
    match cmd {
        BrowserCommand::Key { code, down } => match scancode_of(code@) {
            Some(k) => Some(RdpInput::Key { scancode: k.0, extended: k.1, down }),
            None => Some(RdpInput::Key { scancode: 0, extended: false, down }),
        },
        _ => mouse_of(cmd),
    }
}

/// What a bridged session makes of a command: mouse events and acknowledgements, and the
/// keyboard events that the command stands for.
pub open spec fn session_input_of(cmd: BrowserCommand) -> Option<RdpInput> {
    match cmd {
        BrowserCommand::Key { code, down } => input_of(cmd),
        BrowserCommand::SendCtrlAltDel => input_of(cmd),
        _ => mouse_of(cmd),
    }
}

/// Turns a command on a dedicated input channel into an input event.
pub fn channel_input(cmd: BrowserCommand) -> (r: Option<RdpInput>)
    ensures
        r == channel_input_of(cmd),
{
    match cmd {
        BrowserCommand::FrameAck => Some(RdpInput::FrameAck),
        BrowserCommand::MouseMove { x, y } => Some(
            RdpInput::MouseMove { x: wrap16(x), y: wrap16(y) },
        ),
        BrowserCommand::MouseButton { x, y, button, down } => {
            let flags: u16 = match pointer_flags(button.as_str(), down) {
                Some(flags) => flags,
                None => 0,
            };
            Some(RdpInput::MouseButton { x: wrap16(x), y: wrap16(y), flags })
        },
        BrowserCommand::Key { code, down } => {
            let key: (u8, bool) = match scancode_from_code(code.as_str()) {
                Some(k) => k,
                None => (0, false),
            };
            Some(RdpInput::Key { scancode: key.0, extended: key.1, down })
        },
        _ => None,
    }
}

/// Turns a command in a bridged session into an input event.
pub fn session_input(cmd: BrowserCommand) -> (r: Option<RdpInput>)
    ensures
        r == session_input_of(cmd),
{
    match cmd {
        BrowserCommand::Key { code, down } => browser_cmd_to_rdp_input(
            BrowserCommand::Key { code, down },
        ),
        BrowserCommand::SendCtrlAltDel => Some(RdpInput::CtrlAltDel),
        other => channel_input(other),
    }
}

/// The low sixteen bits of a number differ from it by whole multiples of 65536; a coordinate below
/// zero is kept at zero where it is clipped.
pub proof fn low_bits_are_a_remainder(v: i32)
    ensures
        0 <= v <= 65535 ==> low16(v as int) == v && clipped16(v) == v,
        (v - low16(v as int)) % 65536 == 0,
        v < 0 ==> clipped16(v) == 0,
        v >= 0 ==> clipped16(v) == low16(v as int),
{
}

/// The three buttons have a mark of their own each, of which the left one's is half the right
/// one's and a quarter of the middle one's, and a press adds the highest mark; no other name is
/// that of a button.
pub proof fn every_button_has_its_mark(button: Seq<char>)
    ensures
        pointer_flags_of("left"@, false) == Some(0x1000u16),
        pointer_flags_of("right"@, false) == Some(0x2000u16),
        pointer_flags_of("middle"@, false) == Some(0x4000u16),
        pointer_flags_of("left"@, true) == Some(0x9000u16),
        pointer_flags_of("right"@, true) == Some(0xA000u16),
        pointer_flags_of("middle"@, true) == Some(0xC000u16),
        button != "left"@ && button != "right"@ && button != "middle"@ ==> pointer_flags_of(
            button,
            true,
        ) is None && pointer_flags_of(button, false) is None,
{
    reveal_strlit("left");
    reveal_strlit("right");
    reveal_strlit("middle");
    assert("left"@.len() == 4 && "right"@.len() == 5 && "middle"@.len() == 6);
}

/// A place on a desktop is passed on as it is, by every way that a command can take, and so are
/// the marks of a button that is known.
pub proof fn places_on_the_desktop_are_passed_on(
    x: i32,
    y: i32,
    button: String,
    down: bool,
    flags: u16,
)
    requires
        0 <= x <= 65535,
        0 <= y <= 65535,
        pointer_flags_of(button@, down) == Some(flags),
    ensures
        ({
            let moved = Some(RdpInput::MouseMove { x: x as u16, y: y as u16 });
            let cmd = BrowserCommand::MouseMove { x, y };
            input_of(cmd) == moved && channel_input_of(cmd) == moved && session_input_of(cmd)
                == moved
        }),
        ({
            let pressed = Some(RdpInput::MouseButton { x: x as u16, y: y as u16, flags });
            let cmd = BrowserCommand::MouseButton { x, y, button, down };
            input_of(cmd) == pressed && channel_input_of(cmd) == pressed && session_input_of(cmd)
                == pressed
        }),
{
}

/// In a session and on an input channel every place is taken modulo 65536, and a button that is
/// not known is passed on without a mark; elsewhere places are clipped at zero and such a button
/// is dropped.
pub proof fn places_off_the_desktop_wrap_in_a_session(x: i32, y: i32, button: String, down: bool)
    requires
        button@ != "left"@ && button@ != "right"@ && button@ != "middle"@,
    ensures
        ({
            let cmd = BrowserCommand::MouseButton { x, y, button, down };
            let wrapped = RdpInput::MouseButton {
                x: (x as int % 65536) as u16,
                y: (y as int % 65536) as u16,
                flags: 0,
            };
            &&& session_input_of(cmd) == Some(wrapped)
            &&& channel_input_of(cmd) == Some(wrapped)
            &&& input_of(cmd) is None
        }),
        ({
            let cmd = BrowserCommand::MouseMove { x, y };
            let wrapped = RdpInput::MouseMove {
                x: (x as int % 65536) as u16,
                y: (y as int % 65536) as u16,
            };
            session_input_of(cmd) == Some(wrapped) && channel_input_of(cmd) == Some(wrapped)
        }),
{
}

/// A key is passed on with its scancode and its direction; one without a scancode is dropped,
/// except on an input channel, which passes it on as scancode 0. The three-key command goes
/// through a session but not through an input channel, and acknowledgements through both.
pub proof fn keys_are_passed_on(code: String, down: bool)
    ensures
        ({
            let cmd = BrowserCommand::Key { code, down };
            match scancode_of(code@) {
                Some(key) => {
                    let sent = Some(RdpInput::Key { scancode: key.0, extended: key.1, down });
                    input_of(cmd) == sent && session_input_of(cmd) == sent && channel_input_of(cmd)
                        == sent
                },
                None => {
                    &&& input_of(cmd) is None && session_input_of(cmd) is None
                    &&& channel_input_of(cmd) == Some(
                        RdpInput::Key { scancode: 0, extended: false, down },
                    )
                },
            }
        }),
        session_input_of(BrowserCommand::SendCtrlAltDel) == Some(RdpInput::CtrlAltDel),
        input_of(BrowserCommand::SendCtrlAltDel) == Some(RdpInput::CtrlAltDel),
        channel_input_of(BrowserCommand::SendCtrlAltDel) is None,
        session_input_of(BrowserCommand::FrameAck) == Some(RdpInput::FrameAck),
        channel_input_of(BrowserCommand::FrameAck) == Some(RdpInput::FrameAck),
        session_input_of(BrowserCommand::StartInteractive) is None,
        channel_input_of(BrowserCommand::StartInteractive) is None,
{
}

} // verus!
