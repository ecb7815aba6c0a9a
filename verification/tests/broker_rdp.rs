//! Input events, fast-path PDUs, frames and the active stage.

use sremote::broker::active::{spawn_ffmpeg, Stage, StageAction, StageOutput, VideoFeed};
use sremote::broker::fast_path::{build_fast_path_input, kev, write_pdu, FastPathEvent};
use sremote::broker::frame::{encode_frame, encode_pointer, graphics_frame, pointer_frame, video_packet, Rect};
use sremote::broker::input::{browser_cmd_to_rdp_input, channel_input, session_input, BrowserCommand, RdpInput};
use sremote::broker::scancode::scancode_from_code;

const MS: u64 = 1_000_000;

fn button(x: i32, y: i32, button: &str, down: bool) -> BrowserCommand {
    BrowserCommand::MouseButton { x, y, button: button.to_string(), down }
}

fn key(code: &str, down: bool) -> BrowserCommand {
    BrowserCommand::Key { code: code.to_string(), down }
}

#[test]
fn scancodes_of_keys() {
    assert_eq!(scancode_from_code("Escape"), Some((0x01, false)));
    assert_eq!(scancode_from_code("KeyA"), Some((0x1E, false)));
    assert_eq!(scancode_from_code("ControlLeft"), Some((0x1D, false)));
    assert_eq!(scancode_from_code("ControlRight"), Some((0x1D, true)));
    assert_eq!(scancode_from_code("Delete"), Some((0x53, true)));
    assert_eq!(scancode_from_code("NumpadDecimal"), Some((0x53, false)));
    assert_eq!(scancode_from_code("NumpadEnter"), Some((0x1C, true)));
    assert_eq!(scancode_from_code("F12"), Some((0x58, false)));
    assert_eq!(scancode_from_code("keya"), None);
    assert_eq!(scancode_from_code(""), None);
}

#[test]
fn commands_become_input_events() {
    assert_eq!(
        browser_cmd_to_rdp_input(BrowserCommand::MouseMove { x: -5, y: 70_000 }),
        Some(RdpInput::MouseMove { x: 0, y: 4464 })
    );
    assert_eq!(
        browser_cmd_to_rdp_input(button(10, 20, "left", true)),
        Some(RdpInput::MouseButton { x: 10, y: 20, flags: 0x9000 })
    );
    assert_eq!(
        browser_cmd_to_rdp_input(button(10, 20, "right", false)),
        Some(RdpInput::MouseButton { x: 10, y: 20, flags: 0x2000 })
    );
    assert_eq!(
        browser_cmd_to_rdp_input(button(10, 20, "middle", true)),
        Some(RdpInput::MouseButton { x: 10, y: 20, flags: 0xC000 })
    );
    assert_eq!(browser_cmd_to_rdp_input(button(10, 20, "back", true)), None);
    assert_eq!(
        browser_cmd_to_rdp_input(key("ArrowUp", false)),
        Some(RdpInput::Key { scancode: 0x48, extended: true, down: false })
    );
    assert_eq!(browser_cmd_to_rdp_input(key("Nope", true)), None);
    assert_eq!(browser_cmd_to_rdp_input(BrowserCommand::SendCtrlAltDel), Some(RdpInput::CtrlAltDel));
    assert_eq!(browser_cmd_to_rdp_input(BrowserCommand::FrameAck), None);
    assert_eq!(browser_cmd_to_rdp_input(BrowserCommand::StartInteractive), None);
}

#[test]
fn sessions_pass_buttons_and_keys_on() {
    let event = |x: u16, y: u16, flags: u16| Some(RdpInput::MouseButton { x, y, flags });
    assert_eq!(session_input(button(-1, 65_537, "left", true)), event(65535, 1, 0x9000));
    assert_eq!(session_input(button(1, 2, "right", true)), event(1, 2, 0xA000));
    assert_eq!(session_input(button(1, 2, "left", false)), event(1, 2, 0x1000));
    assert_eq!(session_input(button(1, 2, "middle", true)), event(1, 2, 0xC000));
    assert_eq!(session_input(button(-2, 3, "back", true)), event(65534, 3, 0));
    assert_eq!(channel_input(button(1, 2, "right", false)), event(1, 2, 0x2000));
    assert_eq!(channel_input(button(70_000, -65_536, "back", false)), event(4464, 0, 0));
    assert_eq!(session_input(BrowserCommand::FrameAck), Some(RdpInput::FrameAck));
    assert_eq!(session_input(key("KeyA", true)), Some(RdpInput::Key { scancode: 0x1E, extended: false, down: true }));
    assert_eq!(session_input(key("Nope", true)), None);
    assert_eq!(session_input(BrowserCommand::SendCtrlAltDel), Some(RdpInput::CtrlAltDel));
}

#[test]
fn input_channel_passes_unknown_keys_on() {
    assert_eq!(channel_input(key("Nope", true)), Some(RdpInput::Key { scancode: 0, extended: false, down: true }));
    assert_eq!(channel_input(BrowserCommand::MouseMove { x: -1, y: 3 }), Some(RdpInput::MouseMove { x: 65535, y: 3 }));
    assert_eq!(channel_input(BrowserCommand::SendCtrlAltDel), None);
    assert_eq!(channel_input(BrowserCommand::StartInteractive), None);
}

#[test]
fn mouse_events_as_bytes() {
    assert_eq!(
        build_fast_path_input(RdpInput::MouseMove { x: 0x0102, y: 0x0304 }),
        Ok(Some(vec![0x04, 9, 0x20, 0x00, 0x08, 0x02, 0x01, 0x04, 0x03]))
    );
    assert_eq!(
        build_fast_path_input(RdpInput::MouseButton { x: 1, y: 2, flags: 0x9000 }),
        Ok(Some(vec![0x04, 9, 0x20, 0x00, 0x90, 1, 0, 2, 0]))
    );
}

#[test]
fn keyboard_events_as_bytes() {
    let press = RdpInput::Key { scancode: 0x1E, extended: false, down: true };
    let release = RdpInput::Key { scancode: 0x48, extended: true, down: false };
    assert_eq!(build_fast_path_input(press), Ok(Some(vec![0x04, 4, 0x00, 0x1E])));
    assert_eq!(build_fast_path_input(release), Ok(Some(vec![0x04, 4, 0x03, 0x48])));
    assert_eq!(build_fast_path_input(RdpInput::FrameAck), Ok(None));
}

#[test]
fn three_keys_go_down_and_up() {
    assert_eq!(
        build_fast_path_input(RdpInput::CtrlAltDel),
        Ok(Some(vec![
            4, 4, 0, 0x1D, 4, 4, 0, 0x38, 4, 4, 2, 0x53, 4, 4, 3, 0x53, 4, 4, 1, 0x38, 4, 4, 1, 0x1D
        ]))
    );
}

#[test]
fn single_pdu_replaces_the_buffer() {
    let mut out = vec![9; 20];
    assert_eq!(kev(0x53, true, false), FastPathEvent::Keyboard { key_flags: 3, scancode: 0x53 });
    assert!(write_pdu(kev(0x1D, false, true), &mut out).is_ok());
    assert_eq!(out, vec![4, 4, 0, 0x1D]);
}

#[test]
fn graphics_frame_has_its_header() {
    assert_eq!(graphics_frame(0x0201, 3, 4, 5, &[7, 8]), vec![1, 2, 3, 0, 4, 0, 5, 0, 7, 8]);
    assert_eq!(pointer_frame(1, 0x0203, &[7]), vec![1, 1, 0, 3, 2, 7]);
    assert_eq!(video_packet(&[5, 6]), vec![4, 5, 6]);
}

fn desktop() -> Vec<u8> {
    // Four by three pixels, each with its own colour.
    (0u8..12).flat_map(|i| [i * 20, 255 - i * 20, i, 255]).collect()
}

#[test]
fn dirty_rectangle_is_cut_out_without_loss() {
    let rect = Rect { left: 1, top: 1, right: 2, bottom: 2 };
    let frame = encode_frame(4, 3, &desktop(), rect).unwrap();
    assert_eq!(&frame[..8], &[2, 0, 2, 0, 1, 0, 1, 0]);
    assert_eq!(&frame[8..12], b"RIFF");
    let image = webp::Decoder::new(&frame[8..]).decode().unwrap();
    assert_eq!((image.width(), image.height()), (2, 2));
    let expected: Vec<u8> = [5u8, 6, 9, 10].iter().flat_map(|i| [i * 20, 255 - i * 20, *i]).collect();
    let got: Vec<u8> = if image.len() == 12 {
        image.to_vec()
    } else {
        image.chunks(4).flat_map(|p| [p[0], p[1], p[2]]).collect()
    };
    assert_eq!(got, expected);
}

#[test]
fn rectangle_is_kept_on_the_desktop() {
    let beyond = Rect { left: 3, top: 2, right: 100, bottom: 100 };
    let frame = encode_frame(4, 3, &desktop(), beyond).unwrap();
    assert_eq!(&frame[..8], &[1, 0, 1, 0, 3, 0, 2, 0]);
    let reversed = Rect { left: 3, top: 0, right: 1, bottom: 0 };
    assert_eq!(encode_frame(4, 3, &desktop(), reversed), None);
}

#[test]
fn pointer_is_compressed() {
    let rgba = vec![200u8; 2 * 2 * 4];
    let frame = encode_pointer(2, 2, 1, 0, &rgba).unwrap();
    assert_eq!(&frame[..5], &[1, 1, 0, 0, 0]);
    assert_eq!(&frame[5..9], b"RIFF");
    assert!(webp::Decoder::new(&frame[5..]).decode().is_some());
    assert_eq!(encode_pointer(0, 2, 1, 0, &rgba), None);
    assert_eq!(encode_pointer(2, 0, 1, 0, &rgba), None);
    assert_eq!(encode_pointer(2, 2, 1, 0, &[]), None);
}

#[test]
fn changes_gather_until_they_are_shown() {
    let mut stage = Stage::new(0);
    stage.on_update(Rect { left: 5, top: 5, right: 6, bottom: 6 });
    stage.on_update(Rect { left: 1, top: 7, right: 2, bottom: 9 });
    assert_eq!(stage.on_idle(15 * MS), None);
    assert_eq!(stage.on_idle(16 * MS), Some(Rect { left: 1, top: 5, right: 6, bottom: 9 }));
    assert_eq!(stage.on_idle(100 * MS), None);
}

#[test]
fn video_waits_for_the_acknowledgement() {
    let mut stage = Stage::new(0);
    let rect = Rect { left: 0, top: 0, right: 1, bottom: 1 };
    assert!(!stage.flush_video(100 * MS));
    stage.on_update(rect);
    assert!(stage.flush_video(100 * MS));
    stage.on_update(rect);
    assert!(!stage.flush_video(200 * MS));
    assert_eq!(stage.on_input(RdpInput::FrameAck), Ok(None));
    assert!(stage.flush_video(200 * MS));
    stage.on_update(rect);
    stage.check_ack(400 * MS);
    assert!(!stage.flush_video(400 * MS));
    stage.check_ack(401 * MS);
    assert!(stage.flush_video(401 * MS));
    stage.on_update(rect);
    assert_eq!(stage.on_idle(500 * MS), Some(rect));
    stage.on_update(rect);
    stage.check_ack(602 * MS);
    assert!(!stage.flush_video(602 * MS));
    stage.check_ack(701 * MS);
    assert!(stage.flush_video(701 * MS));
}

#[test]
fn answers_of_the_host_are_acted_on() {
    let mut stage = Stage::new(0);
    assert!(matches!(stage.on_output(StageOutput::Response(vec![1])), StageAction::Write(b) if b == vec![1]));
    let rect = Rect { left: 0, top: 0, right: 1, bottom: 1 };
    assert!(matches!(stage.on_output(StageOutput::Update(rect)), StageAction::Nothing));
    assert_eq!(stage.dirty, Some(rect));
    assert!(matches!(stage.on_output(StageOutput::Terminate), StageAction::Stop));
    assert!(matches!(stage.on_output(StageOutput::Other), StageAction::Nothing));
    let pointer = StageOutput::Pointer { width: 1, height: 1, hotspot_x: 2, hotspot_y: 3, rgba: vec![9; 4] };
    match stage.on_output(pointer) {
        StageAction::Send(frame) => assert_eq!(&frame[..5], &[1, 2, 0, 3, 0]),
        other => panic!("{:?}", other),
    }
    assert_eq!(
        stage.on_input(RdpInput::Key { scancode: 1, extended: false, down: true }),
        Ok(Some(vec![4, 4, 0, 1]))
    );
}

#[test]
fn video_encoder_is_started_for_each_size_once() {
    let mut feed = VideoFeed::new();
    assert!(feed.wants_encoder(1280, 1024));
    feed.on_started(1280, 1024);
    assert!(feed.running && !feed.wants_encoder(1280, 1024));
    feed.on_broken();
    assert!(!feed.running && !feed.wants_encoder(1280, 1024));
    assert!(feed.wants_encoder(1280, 720));
}

#[test]
fn video_encoder_arguments() {
    assert_eq!(
        spawn_ffmpeg(1280, 720),
        vec![
            "-f", "rawvideo", "-pixel_format", "rgba", "-video_size", "1280x720", "-i", "-", "-c:v", "libx264",
            "-preset", "ultrafast", "-tune", "zerolatency", "-f", "h264", "-an", "-"
        ]
    );
}

#[test]
fn union_of_rectangles() {
    let a = Rect { left: 4, top: 1, right: 5, bottom: 2 };
    let b = Rect { left: 0, top: 3, right: 1, bottom: 9 };
    assert_eq!(a.union(b), Rect { left: 0, top: 1, right: 5, bottom: 9 });
}
