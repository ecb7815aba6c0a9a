//! Control commands from the viewer: mouse, keyboard, and the size of the picture.

use crate::daemon::resize::{requested_of, stored_of, ResizeState};
use crate::text::{ascii_lowered, lowercase, same, to_chars};
use vstd::prelude::*;
use vstd::utf8::is_ascii_chars;

verus! {

/// A command from the viewer. What a command does not use is zero, empty or absent.
#[derive(Debug)]
pub struct ControlCmd {
    pub action: String,
    pub x: i32,
    pub y: i32,
    pub button: String,
    pub key: String,
    pub delta_y: i32,
    pub width: Option<u32>,
    pub height: Option<u32>,
}

/// A mouse button.
#[derive(Clone, Copy, Debug, PartialEq, Eq, Structural)]
pub enum Button {
    Left,
    Middle,
    Right,
}

/// A key: one with a name, or the one that types a character.
#[derive(Clone, Copy, Debug, PartialEq, Eq, Structural)]
pub enum Key {
    Return,
    Escape,
    Backspace,
    Tab,
    Delete,
    LeftArrow,
    RightArrow,
    UpArrow,
    DownArrow,
    Home,
    End,
    PageUp,
    PageDown,
    F1,
    F2,
    F3,
    F4,
    F5,
    F6,
    F7,
    F8,
    F9,
    F10,
    F11,
    F12,
    Control,
    Alt,
    Shift,
    Meta,
    Unicode(char),
}

/// What is done with a button or a key.
#[derive(Clone, Copy, Debug, PartialEq, Eq, Structural)]
pub enum Direction {
    Press,
    Release,
    Click,
}

/// What a command does to the machine.
#[derive(Clone, Copy, Debug, PartialEq, Eq, Structural)]
pub enum ControlAction {
    /// The size that is asked for was changed.
    Resize,
    /// Move the pointer to a place on the screen.
    MoveMouse { x: i32, y: i32 },
    /// Do something with a mouse button.
    MouseButton { button: Button, direction: Direction },
    /// Turn the wheel.
    Scroll { delta_y: i32 },
    /// Do something with a key.
    Keyboard { key: Key, direction: Direction },
    /// The key is not known: do nothing.
    UnknownKey,
    /// The action is not known: do nothing.
    UnknownAction,
}

/// The button with the given name, in small letters. Any other name is the left one.
pub open spec fn button_named(lower: Seq<char>) -> Button {
    if lower == "right"@ {
        Button::Right
    } else if lower == "middle"@ {
        Button::Middle
    } else {
        Button::Left
    }
}

/// Finds the button with the given name, in small letters.
pub fn named_button(lower: &str) -> (r: Button)
    ensures
        r == button_named(lower@),
{
    if same(lower, "right") {
        Button::Right
    } else if same(lower, "middle") {
        Button::Middle
    } else {
        Button::Left
    }
}

/// Finds the button with the given name, in letters of any size.
pub fn parse_button(s: &str) -> (r: Button)
    ensures
        r == button_named(lowercase(s@)),
        is_ascii_chars(s@) ==> r == button_named(ascii_lowered(s@)),
{
    let lower: String = s.to_lowercase();
    named_button(lower.as_str())
}

/// The key with the given name, in small letters.
pub open spec fn key_named(lower: Seq<char>) -> Option<Key> {
    if lower == "enter"@ || lower == "return"@ {
        Some(Key::Return)
    } else if lower == "escape"@ || lower == "esc"@ {
        Some(Key::Escape)
    } else if lower == "backspace"@ {
        Some(Key::Backspace)
    } else if lower == "tab"@ {
        Some(Key::Tab)
    } else if lower == "delete"@ || lower == "del"@ {
        Some(Key::Delete)
    } else if lower == "arrowleft"@ || lower == "left"@ {
        Some(Key::LeftArrow)
    } else if lower == "arrowright"@ || lower == "right"@ {
        Some(Key::RightArrow)
    } else if lower == "arrowup"@ || lower == "up"@ {
        Some(Key::UpArrow)
    } else if lower == "arrowdown"@ || lower == "down"@ {
        Some(Key::DownArrow)
    } else if lower == "home"@ {
        Some(Key::Home)
    } else if lower == "end"@ {
        Some(Key::End)
    } else if lower == "pageup"@ {
        Some(Key::PageUp)
    } else if lower == "pagedown"@ {
        Some(Key::PageDown)
    } else if lower == "f1"@ {
        Some(Key::F1)
    } else if lower == "f2"@ {
        Some(Key::F2)
    } else if lower == "f3"@ {
        Some(Key::F3)
    } else if lower == "f4"@ {
        Some(Key::F4)
    } else if lower == "f5"@ {
        Some(Key::F5)
    } else if lower == "f6"@ {
        Some(Key::F6)
    } else if lower == "f7"@ {
        Some(Key::F7)
    } else if lower == "f8"@ {
        Some(Key::F8)
    } else if lower == "f9"@ {
        Some(Key::F9)
    } else if lower == "f10"@ {
        Some(Key::F10)
    } else if lower == "f11"@ {
        Some(Key::F11)
    } else if lower == "f12"@ {
        Some(Key::F12)
    } else if lower == "control"@ || lower == "ctrl"@ {
        Some(Key::Control)
    } else if lower == "alt"@ {
        Some(Key::Alt)
    } else if lower == "shift"@ {
        Some(Key::Shift)
    } else if lower == "meta"@ || lower == "super"@ {
        Some(Key::Meta)
    } else {
        None
    }
}

/// The key that a text stands for: the one with that name, in letters of any size, or the one
/// that types the text's only character.
pub open spec fn key_of(text: Seq<char>, lower: Seq<char>) -> Option<Key> {
    match key_named(lower) {
        Some(key) => Some(key),
        None => if text.len() == 1 {
            Some(Key::Unicode(text[0]))
        } else {
            None
        },
    }
}

fn named_key(lower: &str) -> (r: Option<Key>)
    ensures
        r == key_named(lower@),
{
    if same(lower, "enter") || same(lower, "return") {
        Some(Key::Return)
    } else if same(lower, "escape") || same(lower, "esc") {
        Some(Key::Escape)
    } else if same(lower, "backspace") {
        Some(Key::Backspace)
    } else if same(lower, "tab") {
        Some(Key::Tab)
    } else if same(lower, "delete") || same(lower, "del") {
        Some(Key::Delete)
    } else if same(lower, "arrowleft") || same(lower, "left") {
        Some(Key::LeftArrow)
    } else if same(lower, "arrowright") || same(lower, "right") {
        Some(Key::RightArrow)
    } else if same(lower, "arrowup") || same(lower, "up") {
        Some(Key::UpArrow)
    } else if same(lower, "arrowdown") || same(lower, "down") {
        Some(Key::DownArrow)
    } else if same(lower, "home") {
        Some(Key::Home)
    } else if same(lower, "end") {
        Some(Key::End)
    } else if same(lower, "pageup") {
        Some(Key::PageUp)
    } else if same(lower, "pagedown") {
        Some(Key::PageDown)
    } else if same(lower, "f1") {
        Some(Key::F1)
    } else if same(lower, "f2") {
        Some(Key::F2)
    } else if same(lower, "f3") {
        Some(Key::F3)
    } else if same(lower, "f4") {
        Some(Key::F4)
    } else if same(lower, "f5") {
        Some(Key::F5)
    } else if same(lower, "f6") {
        Some(Key::F6)
    } else if same(lower, "f7") {
        Some(Key::F7)
    } else if same(lower, "f8") {
        Some(Key::F8)
    } else if same(lower, "f9") {
        Some(Key::F9)
    } else if same(lower, "f10") {
        Some(Key::F10)
    } else if same(lower, "f11") {
        Some(Key::F11)
    } else if same(lower, "f12") {
        Some(Key::F12)
    } else if same(lower, "control") || same(lower, "ctrl") {
        Some(Key::Control)
    } else if same(lower, "alt") {
        Some(Key::Alt)
    } else if same(lower, "shift") {
        Some(Key::Shift)
    } else if same(lower, "meta") || same(lower, "super") {
        Some(Key::Meta)
    } else {
        None
    }
}

/// Finds the key that a text stands for. `lower` is the text in small letters.
pub fn find_key(text: &str, lower: &str) -> (r: Option<Key>)
    ensures
        r == key_of(text@, lower@),
{
    match named_key(lower) {
        Some(key) => Some(key),
        None => {
            let chars: Vec<char> = to_chars(text);
            if chars.len() == 1 {
                Some(Key::Unicode(chars[0]))
            } else {
                None
            }
        },
    }
}

/// Finds the key that a text stands for.
pub fn parse_key(s: &str) -> (r: Option<Key>)
    ensures
        r == key_of(s@, lowercase(s@)),
        is_ascii_chars(s@) ==> r == key_of(s@, ascii_lowered(s@)),
{
    let lower: String = s.to_lowercase();
    find_key(s, lower.as_str())
}

/// A key press or release, where the key is known.
pub open spec fn keyboard_action(key: Option<Key>, direction: Direction) -> ControlAction {
    match key {
        Some(key) => ControlAction::Keyboard { key, direction },
        None => ControlAction::UnknownKey,
    }
}

/// What a command does, with the button and the key that it names.
pub open spec fn action_of(cmd: ControlCmd, button: Button, key: Option<Key>) -> ControlAction {
    if cmd.action@ == "resize"@ {
        ControlAction::Resize
    } else if cmd.action@ == "mousemove"@ {
        ControlAction::MoveMouse { x: cmd.x, y: cmd.y }
    } else if cmd.action@ == "mousedown"@ {
        ControlAction::MouseButton { button, direction: Direction::Press }
    } else if cmd.action@ == "mouseup"@ {
        ControlAction::MouseButton { button, direction: Direction::Release }
    } else if cmd.action@ == "click"@ {
        ControlAction::MouseButton { button, direction: Direction::Click }
    } else if cmd.action@ == "scroll"@ {
        ControlAction::Scroll { delta_y: cmd.delta_y }
    } else if cmd.action@ == "keydown"@ {
        keyboard_action(key, Direction::Press)
    } else if cmd.action@ == "keyup"@ {
        keyboard_action(key, Direction::Release)
    } else {
        ControlAction::UnknownAction
    }
}

fn keyboard(key: Option<Key>, direction: Direction) -> (r: ControlAction)
    ensures
        r == keyboard_action(key, direction),
{
    match key {
        Some(key) => ControlAction::Keyboard { key, direction },
        None => ControlAction::UnknownKey,
    }
}

/// Says what a command does, with the button and the key that it names.
pub fn decide_control(cmd: &ControlCmd, button: Button, key: Option<Key>) -> (r: ControlAction)
    ensures
        r == action_of(*cmd, button, key),
{
    let action: &str = cmd.action.as_str();
    if same(action, "resize") {
        ControlAction::Resize
    } else if same(action, "mousemove") {
        ControlAction::MoveMouse { x: cmd.x, y: cmd.y }
    } else if same(action, "mousedown") {
        ControlAction::MouseButton { button, direction: Direction::Press }
    } else if same(action, "mouseup") {
        ControlAction::MouseButton { button, direction: Direction::Release }
    } else if same(action, "click") {
        ControlAction::MouseButton { button, direction: Direction::Click }
    } else if same(action, "scroll") {
        ControlAction::Scroll { delta_y: cmd.delta_y }
    } else if same(action, "keydown") {
        keyboard(key, Direction::Press)
    } else if same(action, "keyup") {
        keyboard(key, Direction::Release)
    } else {
        ControlAction::UnknownAction
    }
}

/// Takes a command: changes the size that is asked for where it asks for one, and says what else
/// to do.
pub fn execute_control(cmd: ControlCmd, resize_state: &mut ResizeState) -> (r: ControlAction)
    ensures
        r == action_of(
            cmd,
            button_named(lowercase(cmd.button@)),
            key_of(cmd.key@, lowercase(cmd.key@)),
        ),
        is_ascii_chars(cmd.button@) ==> r == action_of(
            cmd,
            button_named(ascii_lowered(cmd.button@)),
            key_of(cmd.key@, lowercase(cmd.key@)),
        ),
        is_ascii_chars(cmd.key@) ==> r == action_of(
            cmd,
            button_named(lowercase(cmd.button@)),
            key_of(cmd.key@, ascii_lowered(cmd.key@)),
        ),
        cmd.action@ != "resize"@ ==> *final(resize_state) == *old(resize_state),
        cmd.action@ == "resize"@ ==> final(resize_state).wanted_width() == requested_of(
            stored_of(cmd.width),
        ) && final(resize_state).wanted_height() == requested_of(stored_of(cmd.height)),
{
    let button: Button = parse_button(cmd.button.as_str());
    let key: Option<Key> = parse_key(cmd.key.as_str());
    let action: ControlAction = decide_control(&cmd, button, key);
    if same(cmd.action.as_str(), "resize") {
        resize_state.set_target(cmd.width, cmd.height);
    }
    action
}

/// Whatever a key-down command presses, the key-up command with the same key releases, and it is
/// pressed if and only if it is released.
pub proof fn keys_that_go_down_come_up(
    down: ControlCmd,
    up: ControlCmd,
    button: Button,
    key: Option<Key>,
    pressed: Key,
)
    requires
        down.action@ == "keydown"@,
        up.action@ == "keyup"@,
    ensures
        action_of(down, button, key) == (ControlAction::Keyboard {
            key: pressed,
            direction: Direction::Press,
        }) <==> action_of(up, button, key) == (ControlAction::Keyboard {
            key: pressed,
            direction: Direction::Release,
        }),
{
    reveal_strlit("resize");
    reveal_strlit("mousemove");
    reveal_strlit("mousedown");
    reveal_strlit("mouseup");
    reveal_strlit("click");
    reveal_strlit("scroll");
    reveal_strlit("keydown");
    reveal_strlit("keyup");
    assert("keydown"@.len() == 7 && "keyup"@.len() == 5);
    assert("mouseup"@[0] != "keydown"@[0]);
    assert("click"@[0] != "keyup"@[0]);
}

/// A text of a single character is the key that types it, as it was written, wherever its small
/// form is a single character too: no name of a key is that short.
pub proof fn single_characters_are_typed(c: char, lower: Seq<char>)
    requires
        lower.len() == 1,
    ensures
        key_of(seq![c], lower) == Some(Key::Unicode(c)),
{
    reveal_strlit("enter");
    reveal_strlit("return");
    reveal_strlit("escape");
    reveal_strlit("esc");
    reveal_strlit("backspace");
    reveal_strlit("tab");
    reveal_strlit("delete");
    reveal_strlit("del");
    reveal_strlit("arrowleft");
    reveal_strlit("left");
    reveal_strlit("arrowright");
    reveal_strlit("right");
    reveal_strlit("arrowup");
    reveal_strlit("up");
    reveal_strlit("arrowdown");
    reveal_strlit("down");
    reveal_strlit("home");
    reveal_strlit("end");
    reveal_strlit("pageup");
    reveal_strlit("pagedown");
    reveal_strlit("f1");
    reveal_strlit("f2");
    reveal_strlit("f3");
    reveal_strlit("f4");
    reveal_strlit("f5");
    reveal_strlit("f6");
    reveal_strlit("f7");
    reveal_strlit("f8");
    reveal_strlit("f9");
    reveal_strlit("f10");
    reveal_strlit("f11");
    reveal_strlit("f12");
    reveal_strlit("control");
    reveal_strlit("ctrl");
    reveal_strlit("alt");
    reveal_strlit("shift");
    reveal_strlit("meta");
    reveal_strlit("super");
}

/// A number that tells names apart: made of the length, the first character and the last two.
spec fn mark_of(name: Seq<char>) -> int {
    ((name.len() * 128 + name[0] as int) * 128 + name[name.len() - 1] as int) * 128 + name[name.len()
        - 2] as int
}

proof fn marks_of_keys()
    ensures
        mark_of("enter"@) == 12155237,
        mark_of("return"@) == 14464882,
        mark_of("escape"@) == 14250736,
        mark_of("esc"@) == 7959027,
        mark_of("backspace"@) == 20493027,
        mark_of("tab"@) == 8204641,
        mark_of("delete"@) == 14234356,
        mark_of("del"@) == 7943781,
        mark_of("arrowleft"@) == 20478566,
        mark_of("left"@) == 10173030,
        mark_of("arrowright"@) == 22575720,
        mark_of("right"@) == 12368488,
        mark_of("arrowup"@) == 16283765,
        mark_of("up"@) == 6125685,
        mark_of("arrowdown"@) == 20477815,
        mark_of("down"@) == 10041207,
        mark_of("home"@) == 10105581,
        mark_of("end"@) == 7959150,
        mark_of("pageup"@) == 14432373,
        mark_of("pagedown"@) == 18626423,
        mark_of("f1"@) == 5871846,
        mark_of("f2"@) == 5871974,
        mark_of("f3"@) == 5872102,
        mark_of("f4"@) == 5872230,
        mark_of("f5"@) == 5872358,
        mark_of("f6"@) == 5872486,
        mark_of("f7"@) == 5872614,
        mark_of("f8"@) == 5872742,
        mark_of("f9"@) == 5872870,
        mark_of("f10"@) == 7968817,
        mark_of("f11"@) == 7968945,
        mark_of("f12"@) == 7969073,
        mark_of("control"@) == 16316015,
        mark_of("ctrl"@) == 10024562,
        mark_of("alt"@) == 7895660,
        mark_of("shift"@) == 12384870,
        mark_of("meta"@) == 10186996,
        mark_of("super"@) == 12384613,
{
    reveal_strlit("enter");
    reveal_strlit("return");
    reveal_strlit("escape");
    reveal_strlit("esc");
    reveal_strlit("backspace");
    reveal_strlit("tab");
    reveal_strlit("delete");
    reveal_strlit("del");
    reveal_strlit("arrowleft");
    reveal_strlit("left");
    reveal_strlit("arrowright");
    reveal_strlit("right");
    reveal_strlit("arrowup");
    reveal_strlit("up");
    reveal_strlit("arrowdown");
    reveal_strlit("down");
    reveal_strlit("home");
    reveal_strlit("end");
    reveal_strlit("pageup");
    reveal_strlit("pagedown");
    reveal_strlit("f1");
    reveal_strlit("f2");
    reveal_strlit("f3");
    reveal_strlit("f4");
    reveal_strlit("f5");
    reveal_strlit("f6");
    reveal_strlit("f7");
    reveal_strlit("f8");
    reveal_strlit("f9");
    reveal_strlit("f10");
    reveal_strlit("f11");
    reveal_strlit("f12");
    reveal_strlit("control");
    reveal_strlit("ctrl");
    reveal_strlit("alt");
    reveal_strlit("shift");
    reveal_strlit("meta");
    reveal_strlit("super");
}

/// Every key with a name is found by it, and those that are known by two names by either one.
pub proof fn keys_are_found_by_their_names()
    ensures
        key_named("enter"@) == Some(Key::Return),
        key_named("return"@) == Some(Key::Return),
        key_named("escape"@) == Some(Key::Escape),
        key_named("esc"@) == Some(Key::Escape),
        key_named("backspace"@) == Some(Key::Backspace),
        key_named("tab"@) == Some(Key::Tab),
        key_named("delete"@) == Some(Key::Delete),
        key_named("del"@) == Some(Key::Delete),
        key_named("arrowleft"@) == Some(Key::LeftArrow),
        key_named("left"@) == Some(Key::LeftArrow),
        key_named("arrowright"@) == Some(Key::RightArrow),
        key_named("right"@) == Some(Key::RightArrow),
        key_named("arrowup"@) == Some(Key::UpArrow),
        key_named("up"@) == Some(Key::UpArrow),
        key_named("arrowdown"@) == Some(Key::DownArrow),
        key_named("down"@) == Some(Key::DownArrow),
        key_named("home"@) == Some(Key::Home),
        key_named("end"@) == Some(Key::End),
        key_named("pageup"@) == Some(Key::PageUp),
        key_named("pagedown"@) == Some(Key::PageDown),
        key_named("f1"@) == Some(Key::F1),
        key_named("f2"@) == Some(Key::F2),
        key_named("f3"@) == Some(Key::F3),
        key_named("f4"@) == Some(Key::F4),
        key_named("f5"@) == Some(Key::F5),
        key_named("f6"@) == Some(Key::F6),
        key_named("f7"@) == Some(Key::F7),
        key_named("f8"@) == Some(Key::F8),
        key_named("f9"@) == Some(Key::F9),
        key_named("f10"@) == Some(Key::F10),
        key_named("f11"@) == Some(Key::F11),
        key_named("f12"@) == Some(Key::F12),
        key_named("control"@) == Some(Key::Control),
        key_named("ctrl"@) == Some(Key::Control),
        key_named("alt"@) == Some(Key::Alt),
        key_named("shift"@) == Some(Key::Shift),
        key_named("meta"@) == Some(Key::Meta),
        key_named("super"@) == Some(Key::Meta),
{
    marks_of_keys();
}

/// No other name is that of a key: a key that is found is called what was asked for.
pub proof fn keys_have_no_other_names(lower: Seq<char>)
    ensures
        key_named(lower) == Some(Key::Return) ==> lower == "enter"@ || lower == "return"@,
        key_named(lower) == Some(Key::Escape) ==> lower == "escape"@ || lower == "esc"@,
        key_named(lower) == Some(Key::Backspace) ==> lower == "backspace"@,
        key_named(lower) == Some(Key::Tab) ==> lower == "tab"@,
        key_named(lower) == Some(Key::Delete) ==> lower == "delete"@ || lower == "del"@,
        key_named(lower) == Some(Key::LeftArrow) ==> lower == "arrowleft"@ || lower == "left"@,
        key_named(lower) == Some(Key::RightArrow) ==> lower == "arrowright"@ || lower == "right"@,
        key_named(lower) == Some(Key::UpArrow) ==> lower == "arrowup"@ || lower == "up"@,
        key_named(lower) == Some(Key::DownArrow) ==> lower == "arrowdown"@ || lower == "down"@,
        key_named(lower) == Some(Key::Home) ==> lower == "home"@,
        key_named(lower) == Some(Key::End) ==> lower == "end"@,
        key_named(lower) == Some(Key::PageUp) ==> lower == "pageup"@,
        key_named(lower) == Some(Key::PageDown) ==> lower == "pagedown"@,
        key_named(lower) == Some(Key::F1) ==> lower == "f1"@,
        key_named(lower) == Some(Key::F2) ==> lower == "f2"@,
        key_named(lower) == Some(Key::F3) ==> lower == "f3"@,
        key_named(lower) == Some(Key::F4) ==> lower == "f4"@,
        key_named(lower) == Some(Key::F5) ==> lower == "f5"@,
        key_named(lower) == Some(Key::F6) ==> lower == "f6"@,
        key_named(lower) == Some(Key::F7) ==> lower == "f7"@,
        key_named(lower) == Some(Key::F8) ==> lower == "f8"@,
        key_named(lower) == Some(Key::F9) ==> lower == "f9"@,
        key_named(lower) == Some(Key::F10) ==> lower == "f10"@,
        key_named(lower) == Some(Key::F11) ==> lower == "f11"@,
        key_named(lower) == Some(Key::F12) ==> lower == "f12"@,
        key_named(lower) == Some(Key::Control) ==> lower == "control"@ || lower == "ctrl"@,
        key_named(lower) == Some(Key::Alt) ==> lower == "alt"@,
        key_named(lower) == Some(Key::Shift) ==> lower == "shift"@,
        key_named(lower) == Some(Key::Meta) ==> lower == "meta"@ || lower == "super"@,
{
}

/// A name that is not that of a key stands for its only character, as it was written, and for
/// nothing where it has more than one or none; a name of a key stands for that key.
pub proof fn texts_stand_for_keys(text: Seq<char>, lower: Seq<char>)
    ensures
        key_named(lower) is Some ==> key_of(text, lower) == key_named(lower),
        key_named(lower) is None && text.len() == 1 ==> key_of(text, lower) == Some(
            Key::Unicode(text[0]),
        ),
        key_named(lower) is None && text.len() != 1 ==> key_of(text, lower) is None,
        key_named(lower) != Some(Key::Unicode(text[0])),
{
}

/// The right and the middle button are found by their names, and every other name is that of the
/// left one.
pub proof fn buttons_are_found_by_their_names(lower: Seq<char>)
    ensures
        button_named("right"@) == Button::Right,
        button_named("middle"@) == Button::Middle,
        button_named(lower) == Button::Left <==> lower != "right"@ && lower != "middle"@,
{
    reveal_strlit("right");
    reveal_strlit("middle");
    assert("right"@.len() == 5 && "middle"@.len() == 6);
}

proof fn marks_of_actions()
    ensures
        mark_of("resize"@) == 14463738,
        mark_of("mousemove"@) == 20673270,
        mark_of("mousedown"@) == 20674423,
        mark_of("mouseup"@) == 16480373,
        mark_of("click"@) == 12121571,
        mark_of("scroll"@) == 14481004,
        mark_of("keydown"@) == 16447351,
        mark_of("keyup"@) == 12253301,
{
    reveal_strlit("resize");
    reveal_strlit("mousemove");
    reveal_strlit("mousedown");
    reveal_strlit("mouseup");
    reveal_strlit("click");
    reveal_strlit("scroll");
    reveal_strlit("keydown");
    reveal_strlit("keyup");
}

/// A command does what its action says: the pointer goes to the place that the command names, the
/// wheel turns as far as it says, and a button or a key goes down, up, or down and up again.
pub proof fn commands_do_what_they_say(cmd: ControlCmd, button: Button, key: Key)
    ensures
        cmd.action@ == "resize"@ ==> action_of(cmd, button, Some(key)) == ControlAction::Resize,
        cmd.action@ == "mousemove"@ ==> action_of(cmd, button, Some(key)) == (
        ControlAction::MoveMouse { x: cmd.x, y: cmd.y }),
        cmd.action@ == "mousedown"@ ==> action_of(cmd, button, Some(key)) == (
        ControlAction::MouseButton { button, direction: Direction::Press }),
        cmd.action@ == "mouseup"@ ==> action_of(cmd, button, Some(key)) == (
        ControlAction::MouseButton { button, direction: Direction::Release }),
        cmd.action@ == "click"@ ==> action_of(cmd, button, Some(key)) == (
        ControlAction::MouseButton { button, direction: Direction::Click }),
        cmd.action@ == "scroll"@ ==> action_of(cmd, button, Some(key)) == (ControlAction::Scroll {
            delta_y: cmd.delta_y,
        }),
        cmd.action@ == "keydown"@ ==> action_of(cmd, button, Some(key)) == (
        ControlAction::Keyboard { key, direction: Direction::Press }),
        cmd.action@ == "keyup"@ ==> action_of(cmd, button, Some(key)) == (ControlAction::Keyboard {
            key,
            direction: Direction::Release,
        }),
        cmd.action@ == "keydown"@ || cmd.action@ == "keyup"@ ==> action_of(cmd, button, None)
            == ControlAction::UnknownKey,
        action_of(cmd, button, Some(key)) == ControlAction::UnknownAction <==> cmd.action@
            != "resize"@ && cmd.action@ != "mousemove"@ && cmd.action@ != "mousedown"@
            && cmd.action@ != "mouseup"@ && cmd.action@ != "click"@ && cmd.action@ != "scroll"@
            && cmd.action@ != "keydown"@ && cmd.action@ != "keyup"@,
{
    marks_of_actions();
}

} // verus!
