//! Keyboard scancodes.

use crate::text::same;
use vstd::prelude::*;

verus! {

/// The Windows scancode of a key that a browser names by its `KeyboardEvent.code`, and whether
/// it is an extended one.
pub open spec fn scancode_of(code: Seq<char>) -> Option<(u8, bool)> {
    if code == "Escape"@ {
        Some((0x01u8, false))
    } else if code == "F1"@ {
        Some((0x3Bu8, false))
    } else if code == "F2"@ {
        Some((0x3Cu8, false))
    } else if code == "F3"@ {
        Some((0x3Du8, false))
    } else if code == "F4"@ {
        Some((0x3Eu8, false))
    } else if code == "F5"@ {
        Some((0x3Fu8, false))
    } else if code == "F6"@ {
        Some((0x40u8, false))
    } else if code == "F7"@ {
        Some((0x41u8, false))
    } else if code == "F8"@ {
        Some((0x42u8, false))
    } else if code == "F9"@ {
        Some((0x43u8, false))
    } else if code == "F10"@ {
        Some((0x44u8, false))
    } else if code == "F11"@ {
        Some((0x57u8, false))
    } else if code == "F12"@ {
        Some((0x58u8, false))
    } else if code == "Backquote"@ {
        Some((0x29u8, false))
    } else if code == "Digit1"@ {
        Some((0x02u8, false))
    } else if code == "Digit2"@ {
        Some((0x03u8, false))
    } else if code == "Digit3"@ {
        Some((0x04u8, false))
    } else if code == "Digit4"@ {
        Some((0x05u8, false))
    } else if code == "Digit5"@ {
        Some((0x06u8, false))
    } else if code == "Digit6"@ {
        Some((0x07u8, false))
    } else if code == "Digit7"@ {
        Some((0x08u8, false))
    } else if code == "Digit8"@ {
        Some((0x09u8, false))
    } else if code == "Digit9"@ {
        Some((0x0Au8, false))
    } else if code == "Digit0"@ {
        Some((0x0Bu8, false))
    } else if code == "Minus"@ {
        Some((0x0Cu8, false))
    } else if code == "Equal"@ {
        Some((0x0Du8, false))
    } else if code == "Backspace"@ {
        Some((0x0Eu8, false))
    } else if code == "Tab"@ {
        Some((0x0Fu8, false))
    } else if code == "KeyQ"@ {
        Some((0x10u8, false))
    } else if code == "KeyW"@ {
        Some((0x11u8, false))
    } else if code == "KeyE"@ {
        Some((0x12u8, false))
    } else if code == "KeyR"@ {
        Some((0x13u8, false))
    } else if code == "KeyT"@ {
        Some((0x14u8, false))
    } else if code == "KeyY"@ {
        Some((0x15u8, false))
    } else if code == "KeyU"@ {
        Some((0x16u8, false))
    } else if code == "KeyI"@ {
        Some((0x17u8, false))
    } else if code == "KeyO"@ {
        Some((0x18u8, false))
    } else if code == "KeyP"@ {
        Some((0x19u8, false))
    } else if code == "BracketLeft"@ {
        Some((0x1Au8, false))
    } else if code == "BracketRight"@ {
        Some((0x1Bu8, false))
    } else if code == "Enter"@ {
        Some((0x1Cu8, false))
    } else if code == "CapsLock"@ {
        Some((0x3Au8, false))
    } else if code == "KeyA"@ {
        Some((0x1Eu8, false))
    } else if code == "KeyS"@ {
        Some((0x1Fu8, false))
    } else if code == "KeyD"@ {
        Some((0x20u8, false))
    } else if code == "KeyF"@ {
        Some((0x21u8, false))
    } else if code == "KeyG"@ {
        Some((0x22u8, false))
    } else if code == "KeyH"@ {
        Some((0x23u8, false))
    } else if code == "KeyJ"@ {
        Some((0x24u8, false))
    } else if code == "KeyK"@ {
        Some((0x25u8, false))
    } else if code == "KeyL"@ {
        Some((0x26u8, false))
    } else if code == "Semicolon"@ {
        Some((0x27u8, false))
    } else if code == "Quote"@ {
        Some((0x28u8, false))
    } else if code == "Backslash"@ {
        Some((0x2Bu8, false))
    } else if code == "ShiftLeft"@ {
        Some((0x2Au8, false))
    } else if code == "KeyZ"@ {
        Some((0x2Cu8, false))
    } else if code == "KeyX"@ {
        Some((0x2Du8, false))
    } else if code == "KeyC"@ {
        Some((0x2Eu8, false))
    } else if code == "KeyV"@ {
        Some((0x2Fu8, false))
    } else if code == "KeyB"@ {
        Some((0x30u8, false))
    } else if code == "KeyN"@ {
        Some((0x31u8, false))
    } else if code == "KeyM"@ {
        Some((0x32u8, false))
    } else if code == "Comma"@ {
        Some((0x33u8, false))
    } else if code == "Period"@ {
        Some((0x34u8, false))
    } else if code == "Slash"@ {
        Some((0x35u8, false))
    } else if code == "ShiftRight"@ {
        Some((0x36u8, false))
    } else if code == "ControlLeft"@ {
        Some((0x1Du8, false))
    } else if code == "MetaLeft"@ {
        Some((0x5Bu8, true))
    } else if code == "AltLeft"@ {
        Some((0x38u8, false))
    } else if code == "Space"@ {
        Some((0x39u8, false))
    } else if code == "AltRight"@ {
        Some((0x38u8, true))
    } else if code == "MetaRight"@ {
        Some((0x5Cu8, true))
    } else if code == "ContextMenu"@ {
        Some((0x5Du8, true))
    } else if code == "ControlRight"@ {
        Some((0x1Du8, true))
    } else if code == "Insert"@ {
        Some((0x52u8, true))
    } else if code == "Home"@ {
        Some((0x47u8, true))
    } else if code == "PageUp"@ {
        Some((0x49u8, true))
    } else if code == "Delete"@ {
        Some((0x53u8, true))
    } else if code == "End"@ {
        Some((0x4Fu8, true))
    } else if code == "PageDown"@ {
        Some((0x51u8, true))
    } else if code == "ArrowUp"@ {
        Some((0x48u8, true))
    } else if code == "ArrowLeft"@ {
        Some((0x4Bu8, true))
    } else if code == "ArrowDown"@ {
        Some((0x50u8, true))
    } else if code == "ArrowRight"@ {
        Some((0x4Du8, true))
    } else if code == "NumLock"@ {
        Some((0x45u8, false))
    } else if code == "NumpadDivide"@ {
        Some((0x35u8, true))
    } else if code == "NumpadMultiply"@ {
        Some((0x37u8, false))
    } else if code == "NumpadSubtract"@ {
        Some((0x4Au8, false))
    } else if code == "Numpad7"@ {
        Some((0x47u8, false))
    } else if code == "Numpad8"@ {
        Some((0x48u8, false))
    } else if code == "Numpad9"@ {
        Some((0x49u8, false))
    } else if code == "NumpadAdd"@ {
        Some((0x4Eu8, false))
    } else if code == "Numpad4"@ {
        Some((0x4Bu8, false))
    } else if code == "Numpad5"@ {
        Some((0x4Cu8, false))
    } else if code == "Numpad6"@ {
        Some((0x4Du8, false))
    } else if code == "Numpad1"@ {
        Some((0x4Fu8, false))
    } else if code == "Numpad2"@ {
        Some((0x50u8, false))
    } else if code == "Numpad3"@ {
        Some((0x51u8, false))
    } else if code == "Numpad0"@ {
        Some((0x52u8, false))
    } else if code == "NumpadDecimal"@ {
        Some((0x53u8, false))
    } else if code == "NumpadEnter"@ {
        Some((0x1Cu8, true))
    } else {
        None
    }
}

/// The name of the key with the given scancode, extended or not.
pub open spec fn code_of(key: (u8, bool)) -> Seq<char> {
    if key == (0x01u8, false) {
        "Escape"@
    } else if key == (0x3Bu8, false) {
        "F1"@
    } else if key == (0x3Cu8, false) {
        "F2"@
    } else if key == (0x3Du8, false) {
        "F3"@
    } else if key == (0x3Eu8, false) {
        "F4"@
    } else if key == (0x3Fu8, false) {
        "F5"@
    } else if key == (0x40u8, false) {
        "F6"@
    } else if key == (0x41u8, false) {
        "F7"@
    } else if key == (0x42u8, false) {
        "F8"@
    } else if key == (0x43u8, false) {
        "F9"@
    } else if key == (0x44u8, false) {
        "F10"@
    } else if key == (0x57u8, false) {
        "F11"@
    } else if key == (0x58u8, false) {
        "F12"@
    } else if key == (0x29u8, false) {
        "Backquote"@
    } else if key == (0x02u8, false) {
        "Digit1"@
    } else if key == (0x03u8, false) {
        "Digit2"@
    } else if key == (0x04u8, false) {
        "Digit3"@
    } else if key == (0x05u8, false) {
        "Digit4"@
    } else if key == (0x06u8, false) {
        "Digit5"@
    } else if key == (0x07u8, false) {
        "Digit6"@
    } else if key == (0x08u8, false) {
        "Digit7"@
    } else if key == (0x09u8, false) {
        "Digit8"@
    } else if key == (0x0Au8, false) {
        "Digit9"@
    } else if key == (0x0Bu8, false) {
        "Digit0"@
    } else if key == (0x0Cu8, false) {
        "Minus"@
    } else if key == (0x0Du8, false) {
        "Equal"@
    } else if key == (0x0Eu8, false) {
        "Backspace"@
    } else if key == (0x0Fu8, false) {
        "Tab"@
    } else if key == (0x10u8, false) {
        "KeyQ"@
    } else if key == (0x11u8, false) {
        "KeyW"@
    } else if key == (0x12u8, false) {
        "KeyE"@
    } else if key == (0x13u8, false) {
        "KeyR"@
    } else if key == (0x14u8, false) {
        "KeyT"@
    } else if key == (0x15u8, false) {
        "KeyY"@
    } else if key == (0x16u8, false) {
        "KeyU"@
    } else if key == (0x17u8, false) {
        "KeyI"@
    } else if key == (0x18u8, false) {
        "KeyO"@
    } else if key == (0x19u8, false) {
        "KeyP"@
    } else if key == (0x1Au8, false) {
        "BracketLeft"@
    } else if key == (0x1Bu8, false) {
        "BracketRight"@
    } else if key == (0x1Cu8, false) {
        "Enter"@
    } else if key == (0x3Au8, false) {
        "CapsLock"@
    } else if key == (0x1Eu8, false) {
        "KeyA"@
    } else if key == (0x1Fu8, false) {
        "KeyS"@
    } else if key == (0x20u8, false) {
        "KeyD"@
    } else if key == (0x21u8, false) {
        "KeyF"@
    } else if key == (0x22u8, false) {
        "KeyG"@
    } else if key == (0x23u8, false) {
        "KeyH"@
    } else if key == (0x24u8, false) {
        "KeyJ"@
    } else if key == (0x25u8, false) {
        "KeyK"@
    } else if key == (0x26u8, false) {
        "KeyL"@
    } else if key == (0x27u8, false) {
        "Semicolon"@
    } else if key == (0x28u8, false) {
        "Quote"@
    } else if key == (0x2Bu8, false) {
        "Backslash"@
    } else if key == (0x2Au8, false) {
        "ShiftLeft"@
    } else if key == (0x2Cu8, false) {
        "KeyZ"@
    } else if key == (0x2Du8, false) {
        "KeyX"@
    } else if key == (0x2Eu8, false) {
        "KeyC"@
    } else if key == (0x2Fu8, false) {
        "KeyV"@
    } else if key == (0x30u8, false) {
        "KeyB"@
    } else if key == (0x31u8, false) {
        "KeyN"@
    } else if key == (0x32u8, false) {
        "KeyM"@
    } else if key == (0x33u8, false) {
        "Comma"@
    } else if key == (0x34u8, false) {
        "Period"@
    } else if key == (0x35u8, false) {
        "Slash"@
    } else if key == (0x36u8, false) {
        "ShiftRight"@
    } else if key == (0x1Du8, false) {
        "ControlLeft"@
    } else if key == (0x5Bu8, true) {
        "MetaLeft"@
    } else if key == (0x38u8, false) {
        "AltLeft"@
    } else if key == (0x39u8, false) {
        "Space"@
    } else if key == (0x38u8, true) {
        "AltRight"@
    } else if key == (0x5Cu8, true) {
        "MetaRight"@
    } else if key == (0x5Du8, true) {
        "ContextMenu"@
    } else if key == (0x1Du8, true) {
        "ControlRight"@
    } else if key == (0x52u8, true) {
        "Insert"@
    } else if key == (0x47u8, true) {
        "Home"@
    } else if key == (0x49u8, true) {
        "PageUp"@
    } else if key == (0x53u8, true) {
        "Delete"@
    } else if key == (0x4Fu8, true) {
        "End"@
    } else if key == (0x51u8, true) {
        "PageDown"@
    } else if key == (0x48u8, true) {
        "ArrowUp"@
    } else if key == (0x4Bu8, true) {
        "ArrowLeft"@
    } else if key == (0x50u8, true) {
        "ArrowDown"@
    } else if key == (0x4Du8, true) {
        "ArrowRight"@
    } else if key == (0x45u8, false) {
        "NumLock"@
    } else if key == (0x35u8, true) {
        "NumpadDivide"@
    } else if key == (0x37u8, false) {
        "NumpadMultiply"@
    } else if key == (0x4Au8, false) {
        "NumpadSubtract"@
    } else if key == (0x47u8, false) {
        "Numpad7"@
    } else if key == (0x48u8, false) {
        "Numpad8"@
    } else if key == (0x49u8, false) {
        "Numpad9"@
    } else if key == (0x4Eu8, false) {
        "NumpadAdd"@
    } else if key == (0x4Bu8, false) {
        "Numpad4"@
    } else if key == (0x4Cu8, false) {
        "Numpad5"@
    } else if key == (0x4Du8, false) {
        "Numpad6"@
    } else if key == (0x4Fu8, false) {
        "Numpad1"@
    } else if key == (0x50u8, false) {
        "Numpad2"@
    } else if key == (0x51u8, false) {
        "Numpad3"@
    } else if key == (0x52u8, false) {
        "Numpad0"@
    } else if key == (0x53u8, false) {
        "NumpadDecimal"@
    } else if key == (0x1Cu8, true) {
        "NumpadEnter"@
    } else {
        ""@
    }
}

/// Looks up the Windows scancode of a key that a browser names by its `KeyboardEvent.code`, and
/// whether it is an extended one. Keys that are not on the list have none.
pub fn scancode_from_code(code: &str) -> (r: Option<(u8, bool)>)
    ensures
        r == scancode_of(code@),
{
    if same(code, "Escape") {
        Some((0x01u8, false))
    } else if same(code, "F1") {
        Some((0x3Bu8, false))
    } else if same(code, "F2") {
        Some((0x3Cu8, false))
    } else if same(code, "F3") {
        Some((0x3Du8, false))
    } else if same(code, "F4") {
        Some((0x3Eu8, false))
    } else if same(code, "F5") {
        Some((0x3Fu8, false))
    } else if same(code, "F6") {
        Some((0x40u8, false))
    } else if same(code, "F7") {
        Some((0x41u8, false))
    } else if same(code, "F8") {
        Some((0x42u8, false))
    } else if same(code, "F9") {
        Some((0x43u8, false))
    } else if same(code, "F10") {
        Some((0x44u8, false))
    } else if same(code, "F11") {
        Some((0x57u8, false))
    } else if same(code, "F12") {
        Some((0x58u8, false))
    } else if same(code, "Backquote") {
        Some((0x29u8, false))
    } else if same(code, "Digit1") {
        Some((0x02u8, false))
    } else if same(code, "Digit2") {
        Some((0x03u8, false))
    } else if same(code, "Digit3") {
        Some((0x04u8, false))
    } else if same(code, "Digit4") {
        Some((0x05u8, false))
    } else if same(code, "Digit5") {
        Some((0x06u8, false))
    } else if same(code, "Digit6") {
        Some((0x07u8, false))
    } else if same(code, "Digit7") {
        Some((0x08u8, false))
    } else if same(code, "Digit8") {
        Some((0x09u8, false))
    } else if same(code, "Digit9") {
        Some((0x0Au8, false))
    } else if same(code, "Digit0") {
        Some((0x0Bu8, false))
    } else if same(code, "Minus") {
        Some((0x0Cu8, false))
    } else if same(code, "Equal") {
        Some((0x0Du8, false))
    } else if same(code, "Backspace") {
        Some((0x0Eu8, false))
    } else if same(code, "Tab") {
        Some((0x0Fu8, false))
    } else if same(code, "KeyQ") {
        Some((0x10u8, false))
    } else if same(code, "KeyW") {
        Some((0x11u8, false))
    } else if same(code, "KeyE") {
        Some((0x12u8, false))
    } else if same(code, "KeyR") {
        Some((0x13u8, false))
    } else if same(code, "KeyT") {
        Some((0x14u8, false))
    } else if same(code, "KeyY") {
        Some((0x15u8, false))
    } else if same(code, "KeyU") {
        Some((0x16u8, false))
    } else if same(code, "KeyI") {
        Some((0x17u8, false))
    } else if same(code, "KeyO") {
        Some((0x18u8, false))
    } else if same(code, "KeyP") {
        Some((0x19u8, false))
    } else if same(code, "BracketLeft") {
        Some((0x1Au8, false))
    } else if same(code, "BracketRight") {
        Some((0x1Bu8, false))
    } else if same(code, "Enter") {
        Some((0x1Cu8, false))
    } else if same(code, "CapsLock") {
        Some((0x3Au8, false))
    } else if same(code, "KeyA") {
        Some((0x1Eu8, false))
    } else if same(code, "KeyS") {
        Some((0x1Fu8, false))
    } else if same(code, "KeyD") {
        Some((0x20u8, false))
    } else if same(code, "KeyF") {
        Some((0x21u8, false))
    } else if same(code, "KeyG") {
        Some((0x22u8, false))
    } else if same(code, "KeyH") {
        Some((0x23u8, false))
    } else if same(code, "KeyJ") {
        Some((0x24u8, false))
    } else if same(code, "KeyK") {
        Some((0x25u8, false))
    } else if same(code, "KeyL") {
        Some((0x26u8, false))
    } else if same(code, "Semicolon") {
        Some((0x27u8, false))
    } else if same(code, "Quote") {
        Some((0x28u8, false))
    } else if same(code, "Backslash") {
        Some((0x2Bu8, false))
    } else if same(code, "ShiftLeft") {
        Some((0x2Au8, false))
    } else if same(code, "KeyZ") {
        Some((0x2Cu8, false))
    } else if same(code, "KeyX") {
        Some((0x2Du8, false))
    } else if same(code, "KeyC") {
        Some((0x2Eu8, false))
    } else if same(code, "KeyV") {
        Some((0x2Fu8, false))
    } else if same(code, "KeyB") {
        Some((0x30u8, false))
    } else if same(code, "KeyN") {
        Some((0x31u8, false))
    } else if same(code, "KeyM") {
        Some((0x32u8, false))
    } else if same(code, "Comma") {
        Some((0x33u8, false))
    } else if same(code, "Period") {
        Some((0x34u8, false))
    } else if same(code, "Slash") {
        Some((0x35u8, false))
    } else if same(code, "ShiftRight") {
        Some((0x36u8, false))
    } else if same(code, "ControlLeft") {
        Some((0x1Du8, false))
    } else if same(code, "MetaLeft") {
        Some((0x5Bu8, true))
    } else if same(code, "AltLeft") {
        Some((0x38u8, false))
    } else if same(code, "Space") {
        Some((0x39u8, false))
    } else if same(code, "AltRight") {
        Some((0x38u8, true))
    } else if same(code, "MetaRight") {
        Some((0x5Cu8, true))
    } else if same(code, "ContextMenu") {
        Some((0x5Du8, true))
    } else if same(code, "ControlRight") {
        Some((0x1Du8, true))
    } else if same(code, "Insert") {
        Some((0x52u8, true))
    } else if same(code, "Home") {
        Some((0x47u8, true))
    } else if same(code, "PageUp") {
        Some((0x49u8, true))
    } else if same(code, "Delete") {
        Some((0x53u8, true))
    } else if same(code, "End") {
        Some((0x4Fu8, true))
    } else if same(code, "PageDown") {
        Some((0x51u8, true))
    } else if same(code, "ArrowUp") {
        Some((0x48u8, true))
    } else if same(code, "ArrowLeft") {
        Some((0x4Bu8, true))
    } else if same(code, "ArrowDown") {
        Some((0x50u8, true))
    } else if same(code, "ArrowRight") {
        Some((0x4Du8, true))
    } else if same(code, "NumLock") {
        Some((0x45u8, false))
    } else if same(code, "NumpadDivide") {
        Some((0x35u8, true))
    } else if same(code, "NumpadMultiply") {
        Some((0x37u8, false))
    } else if same(code, "NumpadSubtract") {
        Some((0x4Au8, false))
    } else if same(code, "Numpad7") {
        Some((0x47u8, false))
    } else if same(code, "Numpad8") {
        Some((0x48u8, false))
    } else if same(code, "Numpad9") {
        Some((0x49u8, false))
    } else if same(code, "NumpadAdd") {
        Some((0x4Eu8, false))
    } else if same(code, "Numpad4") {
        Some((0x4Bu8, false))
    } else if same(code, "Numpad5") {
        Some((0x4Cu8, false))
    } else if same(code, "Numpad6") {
        Some((0x4Du8, false))
    } else if same(code, "Numpad1") {
        Some((0x4Fu8, false))
    } else if same(code, "Numpad2") {
        Some((0x50u8, false))
    } else if same(code, "Numpad3") {
        Some((0x51u8, false))
    } else if same(code, "Numpad0") {
        Some((0x52u8, false))
    } else if same(code, "NumpadDecimal") {
        Some((0x53u8, false))
    } else if same(code, "NumpadEnter") {
        Some((0x1Cu8, true))
    } else {
        None
    }
}

/// The host can tell any two keys apart: no two names have the same scancode and the same mark.
pub proof fn scancodes_tell_keys_apart(a: Seq<char>, b: Seq<char>)
    requires
        scancode_of(a) is Some,
        scancode_of(a) == scancode_of(b),
    ensures
        a == b,
{
    scancode_leads_back(a);
    scancode_leads_back(b);
}

proof fn scancode_leads_back(a: Seq<char>)
    requires
        scancode_of(a) is Some,
    ensures
        code_of(scancode_of(a)->0) == a,
{
}

/// The keys have scancodes that follow one another in the order in which they are named here, from
/// the first one on, all of them extended or none.
pub open spec fn counts_up(names: Seq<Seq<char>>, first: int, extended: bool) -> bool {
    forall|i: int|
        0 <= i < names.len() ==> scancode_of(#[trigger] names[i]) == Some(
            ((first + i) as u8, extended),
        )
}

/// A number that tells the names of the keys apart: made of the length, the first character and the
/// last two.
spec fn mark_of(name: Seq<char>) -> int {
    ((name.len() * 128 + name[0] as int) * 128 + name[name.len() - 1] as int) * 128 + name[name.len()
        - 2] as int
}

proof fn marks_a()
    ensures
        mark_of("Escape"@) == 13726448,
        mark_of("F4"@) == 5347910,
        mark_of("F8"@) == 5348422,
        mark_of("F12"@) == 7444785,
        mark_of("Digit3"@) == 13703668,
        mark_of("Digit7"@) == 13704180,
        mark_of("Minus"@) == 11762165,
        mark_of("KeyQ"@) == 9627897,
        mark_of("KeyT"@) == 9628281,
        mark_of("KeyO"@) == 9627641,
        mark_of("Enter"@) == 11630949,
        mark_of("KeyD"@) == 9626233,
        mark_of("KeyJ"@) == 9627001,
        mark_of("Quote"@) == 11825908,
        mark_of("KeyX"@) == 9628793,
        mark_of("KeyN"@) == 9627513,
        mark_of("Slash"@) == 11859059,
        mark_of("AltLeft"@) == 15759974,
        mark_of("ContextMenu"@) == 24181486,
        mark_of("PageUp"@) == 13908053,
        mark_of("ArrowUp"@) == 15759445,
        mark_of("NumLock"@) == 15971811,
        mark_of("Numpad7"@) == 15965156,
        mark_of("Numpad4"@) == 15964772,
        mark_of("Numpad2"@) == 15964516,
        mark_of("NumpadEnter"@) == 24361317,
{
    reveal_strlit("Escape");
    reveal_strlit("F4");
    reveal_strlit("F8");
    reveal_strlit("F12");
    reveal_strlit("Digit3");
    reveal_strlit("Digit7");
    reveal_strlit("Minus");
    reveal_strlit("KeyQ");
    reveal_strlit("KeyT");
    reveal_strlit("KeyO");
    reveal_strlit("Enter");
    reveal_strlit("KeyD");
    reveal_strlit("KeyJ");
    reveal_strlit("Quote");
    reveal_strlit("KeyX");
    reveal_strlit("KeyN");
    reveal_strlit("Slash");
    reveal_strlit("AltLeft");
    reveal_strlit("ContextMenu");
    reveal_strlit("PageUp");
    reveal_strlit("ArrowUp");
    reveal_strlit("NumLock");
    reveal_strlit("Numpad7");
    reveal_strlit("Numpad4");
    reveal_strlit("Numpad2");
    reveal_strlit("NumpadEnter");
}

proof fn marks_b()
    ensures
        mark_of("F1"@) == 5347526,
        mark_of("F5"@) == 5348038,
        mark_of("F9"@) == 5348550,
        mark_of("Backquote"@) == 19968756,
        mark_of("Digit4"@) == 13703796,
        mark_of("Digit8"@) == 13704308,
        mark_of("Equal"@) == 11630177,
        mark_of("KeyW"@) == 9628665,
        mark_of("KeyY"@) == 9628921,
        mark_of("KeyP"@) == 9627769,
        mark_of("CapsLock"@) == 17888739,
        mark_of("KeyF"@) == 9626489,
        mark_of("KeyK"@) == 9627129,
        mark_of("Backslash"@) == 19969139,
        mark_of("KeyC"@) == 9626105,
        mark_of("KeyM"@) == 9627385,
        mark_of("ShiftRight"@) == 22346344,
        mark_of("Space"@) == 11858659,
        mark_of("ControlRight"@) == 26278504,
        mark_of("Delete"@) == 13710068,
        mark_of("ArrowLeft"@) == 19954278,
        mark_of("NumpadDivide"@) == 26456804,
        mark_of("Numpad8"@) == 15965284,
        mark_of("Numpad5"@) == 15964900,
        mark_of("Numpad3"@) == 15964644,
{
    reveal_strlit("F1");
    reveal_strlit("F5");
    reveal_strlit("F9");
    reveal_strlit("Backquote");
    reveal_strlit("Digit4");
    reveal_strlit("Digit8");
    reveal_strlit("Equal");
    reveal_strlit("KeyW");
    reveal_strlit("KeyY");
    reveal_strlit("KeyP");
    reveal_strlit("CapsLock");
    reveal_strlit("KeyF");
    reveal_strlit("KeyK");
    reveal_strlit("Backslash");
    reveal_strlit("KeyC");
    reveal_strlit("KeyM");
    reveal_strlit("ShiftRight");
    reveal_strlit("Space");
    reveal_strlit("ControlRight");
    reveal_strlit("Delete");
    reveal_strlit("ArrowLeft");
    reveal_strlit("NumpadDivide");
    reveal_strlit("Numpad8");
    reveal_strlit("Numpad5");
    reveal_strlit("Numpad3");
}

proof fn marks_c()
    ensures
        mark_of("F2"@) == 5347654,
        mark_of("F6"@) == 5348166,
        mark_of("F10"@) == 7444529,
        mark_of("Digit1"@) == 13703412,
        mark_of("Digit5"@) == 13703924,
        mark_of("Digit9"@) == 13704436,
        mark_of("Backspace"@) == 19968739,
        mark_of("KeyE"@) == 9626361,
        mark_of("KeyU"@) == 9628409,
        mark_of("BracketLeft"@) == 24164966,
        mark_of("KeyA"@) == 9625849,
        mark_of("KeyG"@) == 9626617,
        mark_of("KeyL"@) == 9627257,
        mark_of("ShiftLeft"@) == 20249190,
        mark_of("KeyV"@) == 9628537,
        mark_of("Comma"@) == 11596013,
        mark_of("ControlLeft"@) == 24181350,
        mark_of("AltRight"@) == 17857128,
        mark_of("Insert"@) == 13793906,
        mark_of("End"@) == 7434862,
        mark_of("ArrowDown"@) == 19953527,
        mark_of("NumpadMultiply"@) == 30653676,
        mark_of("Numpad9"@) == 15965412,
        mark_of("Numpad6"@) == 15965028,
        mark_of("Numpad0"@) == 15964260,
{
    reveal_strlit("F2");
    reveal_strlit("F6");
    reveal_strlit("F10");
    reveal_strlit("Digit1");
    reveal_strlit("Digit5");
    reveal_strlit("Digit9");
    reveal_strlit("Backspace");
    reveal_strlit("KeyE");
    reveal_strlit("KeyU");
    reveal_strlit("BracketLeft");
    reveal_strlit("KeyA");
    reveal_strlit("KeyG");
    reveal_strlit("KeyL");
    reveal_strlit("ShiftLeft");
    reveal_strlit("KeyV");
    reveal_strlit("Comma");
    reveal_strlit("ControlLeft");
    reveal_strlit("AltRight");
    reveal_strlit("Insert");
    reveal_strlit("End");
    reveal_strlit("ArrowDown");
    reveal_strlit("NumpadMultiply");
    reveal_strlit("Numpad9");
    reveal_strlit("Numpad6");
    reveal_strlit("Numpad0");
}

proof fn marks_d()
    ensures
        mark_of("F3"@) == 5347782,
        mark_of("F7"@) == 5348294,
        mark_of("F11"@) == 7444657,
        mark_of("Digit2"@) == 13703540,
        mark_of("Digit6"@) == 13704052,
        mark_of("Digit0"@) == 13703284,
        mark_of("Tab"@) == 7680353,
        mark_of("KeyR"@) == 9628025,
        mark_of("KeyI"@) == 9626873,
        mark_of("BracketRight"@) == 26262120,
        mark_of("KeyS"@) == 9628153,
        mark_of("KeyH"@) == 9626745,
        mark_of("Semicolon"@) == 20248431,
        mark_of("KeyZ"@) == 9629049,
        mark_of("KeyB"@) == 9625977,
        mark_of("Period"@) == 13906543,
        mark_of("MetaLeft"@) == 18053734,
        mark_of("MetaRight"@) == 20150888,
        mark_of("Home"@) == 9581293,
        mark_of("PageDown"@) == 18102135,
        mark_of("ArrowRight"@) == 22051432,
        mark_of("NumpadSubtract"@) == 30653027,
        mark_of("NumpadAdd"@) == 20165220,
        mark_of("Numpad1"@) == 15964388,
        mark_of("NumpadDecimal"@) == 28554849,
{
    reveal_strlit("F3");
    reveal_strlit("F7");
    reveal_strlit("F11");
    reveal_strlit("Digit2");
    reveal_strlit("Digit6");
    reveal_strlit("Digit0");
    reveal_strlit("Tab");
    reveal_strlit("KeyR");
    reveal_strlit("KeyI");
    reveal_strlit("BracketRight");
    reveal_strlit("KeyS");
    reveal_strlit("KeyH");
    reveal_strlit("Semicolon");
    reveal_strlit("KeyZ");
    reveal_strlit("KeyB");
    reveal_strlit("Period");
    reveal_strlit("MetaLeft");
    reveal_strlit("MetaRight");
    reveal_strlit("Home");
    reveal_strlit("PageDown");
    reveal_strlit("ArrowRight");
    reveal_strlit("NumpadSubtract");
    reveal_strlit("NumpadAdd");
    reveal_strlit("Numpad1");
    reveal_strlit("NumpadDecimal");
}

/// The escape key and the row of digits are numbered from 1 on, from left to right.
pub proof fn digit_keys_count_up()
    ensures
        counts_up(
            seq![
                "Escape"@,
                "Digit1"@,
                "Digit2"@,
                "Digit3"@,
                "Digit4"@,
                "Digit5"@,
                "Digit6"@,
                "Digit7"@,
                "Digit8"@,
                "Digit9"@,
                "Digit0"@,
                "Minus"@,
                "Equal"@,
                "Backspace"@,
            ],
            0x01,
            false,
        ),
{
    marks_a();
    marks_b();
    marks_c();
    marks_d();
    let names = seq![
        "Escape"@,
        "Digit1"@,
        "Digit2"@,
        "Digit3"@,
        "Digit4"@,
        "Digit5"@,
        "Digit6"@,
        "Digit7"@,
        "Digit8"@,
        "Digit9"@,
        "Digit0"@,
        "Minus"@,
        "Equal"@,
        "Backspace"@,
    ];
    assert(scancode_of("Escape"@) == Some((0x01u8, false)));
    assert(scancode_of("Digit1"@) == Some((0x02u8, false)));
    assert(scancode_of("Digit2"@) == Some((0x03u8, false)));
    assert(scancode_of("Digit3"@) == Some((0x04u8, false)));
    assert(scancode_of("Digit4"@) == Some((0x05u8, false)));
    assert(scancode_of("Digit5"@) == Some((0x06u8, false)));
    assert(scancode_of("Digit6"@) == Some((0x07u8, false)));
    assert(scancode_of("Digit7"@) == Some((0x08u8, false)));
    assert(scancode_of("Digit8"@) == Some((0x09u8, false)));
    assert(scancode_of("Digit9"@) == Some((0x0Au8, false)));
    assert(scancode_of("Digit0"@) == Some((0x0Bu8, false)));
    assert(scancode_of("Minus"@) == Some((0x0Cu8, false)));
    assert(scancode_of("Equal"@) == Some((0x0Du8, false)));
    assert(scancode_of("Backspace"@) == Some((0x0Eu8, false)));
    assert forall|i: int| 0 <= i < names.len() implies scancode_of(#[trigger] names[i]) == Some(
        ((0x01 + i) as u8, false),
    ) by {
        assert(i == 0 || i == 1 || i == 2 || i == 3 || i == 4 || i == 5 || i == 6 || i == 7 || i == 8 || i == 9 || i == 10 || i == 11 || i == 12 || i == 13);
    }
}

/// The upper row of letters is numbered from 15 on, from left to right, tab and enter included.
pub proof fn upper_letter_keys_count_up()
    ensures
        counts_up(
            seq![
                "Tab"@,
                "KeyQ"@,
                "KeyW"@,
                "KeyE"@,
                "KeyR"@,
                "KeyT"@,
                "KeyY"@,
                "KeyU"@,
                "KeyI"@,
                "KeyO"@,
                "KeyP"@,
                "BracketLeft"@,
                "BracketRight"@,
                "Enter"@,
            ],
            0x0F,
            false,
        ),
{
    marks_a();
    marks_b();
    marks_c();
    marks_d();
    let names = seq![
        "Tab"@,
        "KeyQ"@,
        "KeyW"@,
        "KeyE"@,
        "KeyR"@,
        "KeyT"@,
        "KeyY"@,
        "KeyU"@,
        "KeyI"@,
        "KeyO"@,
        "KeyP"@,
        "BracketLeft"@,
        "BracketRight"@,
        "Enter"@,
    ];
    assert(scancode_of("Tab"@) == Some((0x0Fu8, false)));
    assert(scancode_of("KeyQ"@) == Some((0x10u8, false)));
    assert(scancode_of("KeyW"@) == Some((0x11u8, false)));
    assert(scancode_of("KeyE"@) == Some((0x12u8, false)));
    assert(scancode_of("KeyR"@) == Some((0x13u8, false)));
    assert(scancode_of("KeyT"@) == Some((0x14u8, false)));
    assert(scancode_of("KeyY"@) == Some((0x15u8, false)));
    assert(scancode_of("KeyU"@) == Some((0x16u8, false)));
    assert(scancode_of("KeyI"@) == Some((0x17u8, false)));
    assert(scancode_of("KeyO"@) == Some((0x18u8, false)));
    assert(scancode_of("KeyP"@) == Some((0x19u8, false)));
    assert(scancode_of("BracketLeft"@) == Some((0x1Au8, false)));
    assert(scancode_of("BracketRight"@) == Some((0x1Bu8, false)));
    assert(scancode_of("Enter"@) == Some((0x1Cu8, false)));
    assert forall|i: int| 0 <= i < names.len() implies scancode_of(#[trigger] names[i]) == Some(
        ((0x0F + i) as u8, false),
    ) by {
        assert(i == 0 || i == 1 || i == 2 || i == 3 || i == 4 || i == 5 || i == 6 || i == 7 || i == 8 || i == 9 || i == 10 || i == 11 || i == 12 || i == 13);
    }
}

/// The middle row of letters is numbered from 29 on, with control before and the backquote behind.
pub proof fn middle_letter_keys_count_up()
    ensures
        counts_up(
            seq![
                "ControlLeft"@,
                "KeyA"@,
                "KeyS"@,
                "KeyD"@,
                "KeyF"@,
                "KeyG"@,
                "KeyH"@,
                "KeyJ"@,
                "KeyK"@,
                "KeyL"@,
                "Semicolon"@,
                "Quote"@,
                "Backquote"@,
            ],
            0x1D,
            false,
        ),
{
    marks_a();
    marks_b();
    marks_c();
    marks_d();
    let names = seq![
        "ControlLeft"@,
        "KeyA"@,
        "KeyS"@,
        "KeyD"@,
        "KeyF"@,
        "KeyG"@,
        "KeyH"@,
        "KeyJ"@,
        "KeyK"@,
        "KeyL"@,
        "Semicolon"@,
        "Quote"@,
        "Backquote"@,
    ];
    assert(scancode_of("ControlLeft"@) == Some((0x1Du8, false)));
    assert(scancode_of("KeyA"@) == Some((0x1Eu8, false)));
    assert(scancode_of("KeyS"@) == Some((0x1Fu8, false)));
    assert(scancode_of("KeyD"@) == Some((0x20u8, false)));
    assert(scancode_of("KeyF"@) == Some((0x21u8, false)));
    assert(scancode_of("KeyG"@) == Some((0x22u8, false)));
    assert(scancode_of("KeyH"@) == Some((0x23u8, false)));
    assert(scancode_of("KeyJ"@) == Some((0x24u8, false)));
    assert(scancode_of("KeyK"@) == Some((0x25u8, false)));
    assert(scancode_of("KeyL"@) == Some((0x26u8, false)));
    assert(scancode_of("Semicolon"@) == Some((0x27u8, false)));
    assert(scancode_of("Quote"@) == Some((0x28u8, false)));
    assert(scancode_of("Backquote"@) == Some((0x29u8, false)));
    assert forall|i: int| 0 <= i < names.len() implies scancode_of(#[trigger] names[i]) == Some(
        ((0x1D + i) as u8, false),
    ) by {
        assert(i == 0 || i == 1 || i == 2 || i == 3 || i == 4 || i == 5 || i == 6 || i == 7 || i == 8 || i == 9 || i == 10 || i == 11 || i == 12);
    }
}

/// The lower row of letters is numbered from 42 on, between the two shift keys.
pub proof fn lower_letter_keys_count_up()
    ensures
        counts_up(
            seq![
                "ShiftLeft"@,
                "Backslash"@,
                "KeyZ"@,
                "KeyX"@,
                "KeyC"@,
                "KeyV"@,
                "KeyB"@,
                "KeyN"@,
                "KeyM"@,
                "Comma"@,
                "Period"@,
                "Slash"@,
                "ShiftRight"@,
            ],
            0x2A,
            false,
        ),
{
    marks_a();
    marks_b();
    marks_c();
    marks_d();
    let names = seq![
        "ShiftLeft"@,
        "Backslash"@,
        "KeyZ"@,
        "KeyX"@,
        "KeyC"@,
        "KeyV"@,
        "KeyB"@,
        "KeyN"@,
        "KeyM"@,
        "Comma"@,
        "Period"@,
        "Slash"@,
        "ShiftRight"@,
    ];
    assert(scancode_of("ShiftLeft"@) == Some((0x2Au8, false)));
    assert(scancode_of("Backslash"@) == Some((0x2Bu8, false)));
    assert(scancode_of("KeyZ"@) == Some((0x2Cu8, false)));
    assert(scancode_of("KeyX"@) == Some((0x2Du8, false)));
    assert(scancode_of("KeyC"@) == Some((0x2Eu8, false)));
    assert(scancode_of("KeyV"@) == Some((0x2Fu8, false)));
    assert(scancode_of("KeyB"@) == Some((0x30u8, false)));
    assert(scancode_of("KeyN"@) == Some((0x31u8, false)));
    assert(scancode_of("KeyM"@) == Some((0x32u8, false)));
    assert(scancode_of("Comma"@) == Some((0x33u8, false)));
    assert(scancode_of("Period"@) == Some((0x34u8, false)));
    assert(scancode_of("Slash"@) == Some((0x35u8, false)));
    assert(scancode_of("ShiftRight"@) == Some((0x36u8, false)));
    assert forall|i: int| 0 <= i < names.len() implies scancode_of(#[trigger] names[i]) == Some(
        ((0x2A + i) as u8, false),
    ) by {
        assert(i == 0 || i == 1 || i == 2 || i == 3 || i == 4 || i == 5 || i == 6 || i == 7 || i == 8 || i == 9 || i == 10 || i == 11 || i == 12);
    }
}

/// The keys around the space bar are numbered from 55 on.
pub proof fn space_keys_count_up()
    ensures
        counts_up(
            seq![
                "NumpadMultiply"@,
                "AltLeft"@,
                "Space"@,
                "CapsLock"@,
            ],
            0x37,
            false,
        ),
{
    marks_a();
    marks_b();
    marks_c();
    marks_d();
    let names = seq![
        "NumpadMultiply"@,
        "AltLeft"@,
        "Space"@,
        "CapsLock"@,
    ];
    assert(scancode_of("NumpadMultiply"@) == Some((0x37u8, false)));
    assert(scancode_of("AltLeft"@) == Some((0x38u8, false)));
    assert(scancode_of("Space"@) == Some((0x39u8, false)));
    assert(scancode_of("CapsLock"@) == Some((0x3Au8, false)));
    assert forall|i: int| 0 <= i < names.len() implies scancode_of(#[trigger] names[i]) == Some(
        ((0x37 + i) as u8, false),
    ) by {
        assert(i == 0 || i == 1 || i == 2 || i == 3);
    }
}

/// The function keys are numbered from 59 on, and the keypad's lock comes behind the tenth.
pub proof fn function_keys_count_up()
    ensures
        counts_up(
            seq![
                "F1"@,
                "F2"@,
                "F3"@,
                "F4"@,
                "F5"@,
                "F6"@,
                "F7"@,
                "F8"@,
                "F9"@,
                "F10"@,
                "NumLock"@,
            ],
            0x3B,
            false,
        ),
{
    marks_a();
    marks_b();
    marks_c();
    marks_d();
    let names = seq![
        "F1"@,
        "F2"@,
        "F3"@,
        "F4"@,
        "F5"@,
        "F6"@,
        "F7"@,
        "F8"@,
        "F9"@,
        "F10"@,
        "NumLock"@,
    ];
    assert(scancode_of("F1"@) == Some((0x3Bu8, false)));
    assert(scancode_of("F2"@) == Some((0x3Cu8, false)));
    assert(scancode_of("F3"@) == Some((0x3Du8, false)));
    assert(scancode_of("F4"@) == Some((0x3Eu8, false)));
    assert(scancode_of("F5"@) == Some((0x3Fu8, false)));
    assert(scancode_of("F6"@) == Some((0x40u8, false)));
    assert(scancode_of("F7"@) == Some((0x41u8, false)));
    assert(scancode_of("F8"@) == Some((0x42u8, false)));
    assert(scancode_of("F9"@) == Some((0x43u8, false)));
    assert(scancode_of("F10"@) == Some((0x44u8, false)));
    assert(scancode_of("NumLock"@) == Some((0x45u8, false)));
    assert forall|i: int| 0 <= i < names.len() implies scancode_of(#[trigger] names[i]) == Some(
        ((0x3B + i) as u8, false),
    ) by {
        assert(i == 0 || i == 1 || i == 2 || i == 3 || i == 4 || i == 5 || i == 6 || i == 7 || i == 8 || i == 9 || i == 10);
    }
}

/// The keypad is numbered from 71 on, row by row from the top.
pub proof fn keypad_keys_count_up()
    ensures
        counts_up(
            seq![
                "Numpad7"@,
                "Numpad8"@,
                "Numpad9"@,
                "NumpadSubtract"@,
                "Numpad4"@,
                "Numpad5"@,
                "Numpad6"@,
                "NumpadAdd"@,
                "Numpad1"@,
                "Numpad2"@,
                "Numpad3"@,
                "Numpad0"@,
                "NumpadDecimal"@,
            ],
            0x47,
            false,
        ),
{
    marks_a();
    marks_b();
    marks_c();
    marks_d();
    let names = seq![
        "Numpad7"@,
        "Numpad8"@,
        "Numpad9"@,
        "NumpadSubtract"@,
        "Numpad4"@,
        "Numpad5"@,
        "Numpad6"@,
        "NumpadAdd"@,
        "Numpad1"@,
        "Numpad2"@,
        "Numpad3"@,
        "Numpad0"@,
        "NumpadDecimal"@,
    ];
    assert(scancode_of("Numpad7"@) == Some((0x47u8, false)));
    assert(scancode_of("Numpad8"@) == Some((0x48u8, false)));
    assert(scancode_of("Numpad9"@) == Some((0x49u8, false)));
    assert(scancode_of("NumpadSubtract"@) == Some((0x4Au8, false)));
    assert(scancode_of("Numpad4"@) == Some((0x4Bu8, false)));
    assert(scancode_of("Numpad5"@) == Some((0x4Cu8, false)));
    assert(scancode_of("Numpad6"@) == Some((0x4Du8, false)));
    assert(scancode_of("NumpadAdd"@) == Some((0x4Eu8, false)));
    assert(scancode_of("Numpad1"@) == Some((0x4Fu8, false)));
    assert(scancode_of("Numpad2"@) == Some((0x50u8, false)));
    assert(scancode_of("Numpad3"@) == Some((0x51u8, false)));
    assert(scancode_of("Numpad0"@) == Some((0x52u8, false)));
    assert(scancode_of("NumpadDecimal"@) == Some((0x53u8, false)));
    assert forall|i: int| 0 <= i < names.len() implies scancode_of(#[trigger] names[i]) == Some(
        ((0x47 + i) as u8, false),
    ) by {
        assert(i == 0 || i == 1 || i == 2 || i == 3 || i == 4 || i == 5 || i == 6 || i == 7 || i == 8 || i == 9 || i == 10 || i == 11 || i == 12);
    }
}

/// The last two function keys are numbered from 87 on.
pub proof fn last_function_keys_count_up()
    ensures
        counts_up(
            seq![
                "F11"@,
                "F12"@,
            ],
            0x57,
            false,
        ),
{
    marks_a();
    marks_b();
    marks_c();
    marks_d();
    let names = seq![
        "F11"@,
        "F12"@,
    ];
    assert(scancode_of("F11"@) == Some((0x57u8, false)));
    assert(scancode_of("F12"@) == Some((0x58u8, false)));
    assert forall|i: int| 0 <= i < names.len() implies scancode_of(#[trigger] names[i]) == Some(
        ((0x57 + i) as u8, false),
    ) by {
        assert(i == 0 || i == 1);
    }
}

/// The keys beside the space bar that a window system brought are extended ones, numbered from 91
/// on.
pub proof fn window_keys_count_up()
    ensures
        counts_up(
            seq![
                "MetaLeft"@,
                "MetaRight"@,
                "ContextMenu"@,
            ],
            0x5B,
            true,
        ),
{
    marks_a();
    marks_b();
    marks_c();
    marks_d();
    let names = seq![
        "MetaLeft"@,
        "MetaRight"@,
        "ContextMenu"@,
    ];
    assert(scancode_of("MetaLeft"@) == Some((0x5Bu8, true)));
    assert(scancode_of("MetaRight"@) == Some((0x5Cu8, true)));
    assert(scancode_of("ContextMenu"@) == Some((0x5Du8, true)));
    assert forall|i: int| 0 <= i < names.len() implies scancode_of(#[trigger] names[i]) == Some(
        ((0x5B + i) as u8, true),
    ) by {
        assert(i == 0 || i == 1 || i == 2);
    }
}

/// A key that stands twice on the keyboard: once as an extended key, and once, with the same number,
/// as one that is not.
pub open spec fn is_twin(extended: Seq<char>, plain: Seq<char>) -> bool {
    match scancode_of(plain) {
        Some(key) => !key.1 && scancode_of(extended) == Some((key.0, true)),
        None => false,
    }
}

/// The keys of the navigation block are the keypad's, as extended keys, and so are the right-hand
/// control and alt keys, the keypad's enter key and its slash those of the main block.
pub proof fn extended_keys_have_twins()
    ensures
        is_twin("Home"@, "Numpad7"@),
        is_twin("ArrowUp"@, "Numpad8"@),
        is_twin("PageUp"@, "Numpad9"@),
        is_twin("ArrowLeft"@, "Numpad4"@),
        is_twin("ArrowRight"@, "Numpad6"@),
        is_twin("End"@, "Numpad1"@),
        is_twin("ArrowDown"@, "Numpad2"@),
        is_twin("PageDown"@, "Numpad3"@),
        is_twin("Insert"@, "Numpad0"@),
        is_twin("Delete"@, "NumpadDecimal"@),
        is_twin("NumpadEnter"@, "Enter"@),
        is_twin("ControlRight"@, "ControlLeft"@),
        is_twin("AltRight"@, "AltLeft"@),
        is_twin("NumpadDivide"@, "Slash"@),
{
    marks_a();
    marks_b();
    marks_c();
    marks_d();
}

/// No key beyond those has a scancode: every scancode that is given out belongs to one of them.
pub proof fn no_other_scancodes_are_given_out(code: Seq<char>)
    requires
        scancode_of(code) is Some,
    ensures
        ({
            let n = (scancode_of(code)->0).0;
            if (scancode_of(code)->0).1 {
                n == 0x1C || n == 0x1D || n == 0x35 || n == 0x38 || 0x47 <= n <= 0x49 || n == 0x4B
                    || n == 0x4D || 0x4F <= n <= 0x53 || 0x5B <= n <= 0x5D
            } else {
                1 <= n <= 0x45 || 0x47 <= n <= 0x53 || 0x57 <= n <= 0x58
            }
        }),
{
}

/// The keys of the three-key command have the numbers that they have on every keyboard.
pub proof fn command_keys_are_numbered()
    ensures
        scancode_of("ControlLeft"@) == Some((0x1Du8, false)),
        scancode_of("AltLeft"@) == Some((0x38u8, false)),
        scancode_of("Delete"@) == Some((0x53u8, true)),
{
    marks_a();
    marks_b();
    marks_c();
    marks_d();
}

} // verus!
