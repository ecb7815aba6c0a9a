//! Capture, sizes, control commands, configuration and the session.

use sremote::broker::ice::{build_ice_servers, config_message, IceServer};
use sremote::broker::relay::peer_joined;
use sremote::daemon::capture::{
    upload_fits, Acquired, CaptureAction, CaptureLoop, CaptureStage, HardwareRun, Pace, SoftwareTick,
};
use sremote::daemon::config::{load_config, runs_as_service, DaemonConfig, Environment};
use sremote::daemon::control::{
    execute_control, find_key, named_button, parse_button, parse_key, Button, ControlAction, ControlCmd, Direction, Key,
};
use sremote::daemon::encode_loop::EncodedFrame;
use sremote::daemon::hw_capture::{
    align_to_16, buffer_size, on_output_error, output_format, pending_rebuild, pipeline_size, Acquisition, CaptureNext,
    HardwareLoop, HardwareStage, OutputError, StreamClock,
};
use sremote::daemon::resize::{
    cap_size_preserving_aspect, display_size_or_usual, first_display_size, normalize_dimension,
    normalize_requested_dimension, resolve_target_size, stored_dimension, DesktopRect, ResizeState,
};
use sremote::daemon::session::{
    before_session, frame_to_send, mint_jwt, next_service_step, next_ws_message, plan_session,
    recommended_bitrate_kbps, should_shutdown, ws_url, Backoff, Reconnect, SessionEnd, WsOutcome, WsStep,
};
use sremote::daemon::signalling::{
    ice_message, make_server, make_signal, offer_message, read_broker_config, read_signal, BrokerConfigError,
    Progress, Signal, SignalAction,
};
use sremote::broker::auth::validate_jwt;
use sremote::text::{join_reasons, parse_u32, same_ignoring_ascii_case};

const MS: u64 = 1_000_000;

#[test]
fn sizes_are_even() {
    assert_eq!(normalize_dimension(0), 2);
    assert_eq!(normalize_dimension(721), 720);
    assert_eq!(normalize_requested_dimension(None), 0);
    assert_eq!(normalize_requested_dimension(Some(0)), 2);
    assert_eq!(stored_dimension(0), None);
    assert_eq!(stored_dimension(7), Some(7));
}

#[test]
fn target_sizes() {
    assert_eq!(resolve_target_size(1920, 1080, None, None, 0), (1920, 1080));
    assert_eq!(resolve_target_size(3840, 2160, None, None, 1080), (1920, 1080));
    assert_eq!(resolve_target_size(1920, 1080, Some(1280), None, 0), (1280, 720));
    assert_eq!(resolve_target_size(1920, 1080, None, Some(720), 0), (1280, 720));
    assert_eq!(resolve_target_size(1366, 768, Some(1000), None, 0), (1000, 562));
    assert_eq!(resolve_target_size(1920, 1080, Some(801), Some(601), 0), (800, 600));
    assert_eq!(resolve_target_size(0, 0, Some(800), None, 0), (800, 2));
    assert_eq!(resolve_target_size(0, 0, None, None, 0), (2, 2));
}

#[test]
fn requests_are_kept() {
    let mut state = ResizeState::new(Some(1281), None);
    assert_eq!(state.target_size(1920, 1080, 0), (1280, 720));
    state.set_target(None, None);
    assert_eq!(state.target_size(1920, 1080, 0), (1920, 1080));
}

#[test]
fn size_within_a_limit() {
    assert_eq!(cap_size_preserving_aspect(1280, 719, 1280, 720, (9, 9)), (1280, 719));
    assert_eq!(cap_size_preserving_aspect(1920, 1080, 1280, 720, (1280, 721)), (1280, 720));
    assert_eq!(cap_size_preserving_aspect(1920, 1, 1280, 720, (1280, 1)), (1280, 2));
}

#[test]
fn displays_are_measured() {
    let rect = |left, top, right, bottom| DesktopRect { left, top, right, bottom };
    assert_eq!(first_display_size(&[rect(5, 5, 5, 9), rect(-1920, 0, 0, 1080), rect(0, 0, 1, 1)]), Some((1920, 1080)));
    assert_eq!(first_display_size(&[]), None);
    assert_eq!(display_size_or_usual(rect(0, 0, 800, 600)), (800, 600));
    assert_eq!(display_size_or_usual(rect(0, 0, 0, 600)), (1920, 1080));
}

#[test]
fn hardware_pictures_keep_the_pace() {
    let mut pace = Pace::new(10, 0);
    assert_eq!(pace.interval, 100 * MS);
    let mut run = HardwareRun::start(3, 0).unwrap();
    assert_eq!(run.on_acquire(&mut pace, Acquired::Picture, 0), CaptureAction::Send { slot: 0 });
    assert_eq!(run.on_acquire(&mut pace, Acquired::Picture, 99 * MS), CaptureAction::Skip);
    assert_eq!(run.on_acquire(&mut pace, Acquired::Picture, 100 * MS), CaptureAction::Send { slot: 1 });
    assert_eq!(run.on_acquire(&mut pace, Acquired::TimedOut, 199 * MS), CaptureAction::Skip);
    assert_eq!(run.on_acquire(&mut pace, Acquired::TimedOut, 200 * MS), CaptureAction::Repeat { slot: 1 });
    assert_eq!(run.on_acquire(&mut pace, Acquired::Picture, 300 * MS), CaptureAction::Send { slot: 2 });
    assert_eq!(run.on_acquire(&mut pace, Acquired::Empty, 400 * MS), CaptureAction::Skip);
    assert_eq!(run.on_acquire(&mut pace, Acquired::Picture, 450 * MS), CaptureAction::Skip);
    assert_eq!(run.on_acquire(&mut pace, Acquired::Picture, 500 * MS), CaptureAction::Send { slot: 0 });
    assert_eq!(run.on_acquire(&mut pace, Acquired::Failed, 500 * MS), CaptureAction::Pause { ms: 100 });
    assert_eq!(run.on_acquire(&mut pace, Acquired::AccessLost, 500 * MS), CaptureAction::FallBack);
    assert_eq!(HardwareRun::start(0, 0), None);
}

#[test]
fn fast_rates_repeat_after_a_while() {
    let mut pace = Pace::new(100, 0);
    let mut run = HardwareRun::start(2, 0).unwrap();
    assert_eq!(run.on_acquire(&mut pace, Acquired::TimedOut, 0), CaptureAction::Skip);
    assert_eq!(run.on_acquire(&mut pace, Acquired::Picture, 0), CaptureAction::Send { slot: 0 });
    assert_eq!(run.on_acquire(&mut pace, Acquired::TimedOut, 89 * MS), CaptureAction::Skip);
    assert_eq!(run.on_acquire(&mut pace, Acquired::TimedOut, 90 * MS), CaptureAction::Repeat { slot: 0 });
}

#[test]
fn capture_falls_back_to_software() {
    let mut capture = CaptureLoop::new(10, 0);
    capture.on_probe(Some((800, 600)));
    capture.on_announced(0, 0);
    assert_eq!(capture.stage, CaptureStage::Probe);
    capture.on_probe(Some((800, 600)));
    capture.on_announced(2, 0);
    assert!(matches!(capture.stage, CaptureStage::Hardware { width: 800, height: 600, .. }));
    assert_eq!(capture.on_acquire(Acquired::AccessLost, 0), CaptureAction::FallBack);
    capture.on_software(None, false);
    assert_eq!(capture.stage, CaptureStage::Wait { ms: 500 });
    capture.on_waited();
    capture.on_probe(None);
    capture.on_software(Some((4, 2)), true);
    let small = ResizeState::new(Some(2), Some(2));
    assert_eq!(capture.on_tick(&small, 0, 0), SoftwareTick::Rebuild { width: 2, height: 2 });
    let raw: Vec<u8> = (0u8..32).collect();
    let (slot, data) = capture.on_read(Some(raw.clone()), 0).unwrap();
    assert_eq!((slot, data), (0, vec![0, 1, 2, 3, 8, 9, 10, 11, 16, 17, 18, 19, 24, 25, 26, 27]));
    assert_eq!(capture.on_tick(&small, 0, 99 * MS), SoftwareTick::Idle);
    assert_eq!(capture.on_tick(&small, 0, 100 * MS), SoftwareTick::Read);
    let full = ResizeState::new(None, None);
    assert_eq!(capture.on_tick(&full, 0, 100 * MS), SoftwareTick::Rebuild { width: 4, height: 2 });
    assert_eq!(capture.on_read(Some(raw.clone()), 100 * MS), Some((1, raw)));
    assert_eq!(capture.on_read(None, 200 * MS), None);
    assert_eq!(capture.stage, CaptureStage::Wait { ms: 500 });
    capture.on_stop();
    assert_eq!(capture.stage, CaptureStage::Exit);
}

#[test]
fn uploads_must_fit() {
    assert!(upload_fits(32, 4, 2));
    assert!(!upload_fits(31, 4, 2));
}

#[test]
fn alignment() {
    assert_eq!((align_to_16(0), align_to_16(1), align_to_16(16), align_to_16(1080)), (0, 16, 16, 1088));
    assert_eq!(pipeline_size((Some(1000), None), (1920, 1080)), (1008, 1088));
}

#[test]
fn last_request_counts() {
    assert_eq!(pending_rebuild(&[], (1920, 1080), (1920, 1088)), None);
    assert_eq!(pending_rebuild(&[(Some(800), None), (None, None)], (1920, 1080), (1920, 1088)), None);
    assert_eq!(
        pending_rebuild(&[(None, None), (Some(800), None)], (1920, 1080), (1920, 1088)),
        Some((Some(800), None))
    );
}

#[test]
fn hardware_loop_rebuilds() {
    let mut hw = HardwareLoop::new(10, 0);
    hw.on_set_up(None);
    assert_eq!(hw.stage, HardwareStage::Wait { ms: 2000 });
    hw.on_waited();
    hw.on_set_up(Some((1920, 1080)));
    assert_eq!(hw.stage, HardwareStage::BuildEncoder { source: (1920, 1080), target: (1920, 1088) });
    hw.on_encoder(false, 0);
    assert_eq!(hw.stage, HardwareStage::Wait { ms: 2000 });
    hw.on_waited();
    hw.on_set_up(Some((1920, 1080)));
    hw.on_encoder(true, 50 * MS);
    assert_eq!(hw.on_acquire(Acquisition::Picture, 40 * MS), CaptureNext::Encode);
    assert_eq!(hw.on_acquire(Acquisition::Picture, 139 * MS), CaptureNext::Release);
    assert_eq!(hw.on_acquire(Acquisition::TimedOut, 140 * MS), CaptureNext::Again);
    assert_eq!(hw.on_acquire(Acquisition::TimedOut, 10_001 * MS), CaptureNext::Report { timeouts: 2 });
    assert_eq!(hw.on_acquire(Acquisition::Failed, 10_001 * MS), CaptureNext::Pause { ms: 100 });
    assert_eq!(hw.on_acquire(Acquisition::Picture, 10_001 * MS), CaptureNext::Encode);
    assert_eq!(hw.clock.timeouts, 0);
    assert!(hw.on_requests(&[(Some(640), Some(480))]));
    assert_eq!((hw.stage, hw.asked), (HardwareStage::SetUp, (Some(640), Some(480))));
    hw.on_set_up(Some((1920, 1080)));
    hw.on_encoder(true, 0);
    assert!(!hw.on_requests(&[(Some(640), Some(480))]));
    assert_eq!(hw.on_acquire(Acquisition::AccessLost, 0), CaptureNext::Rebuild);
    assert_eq!(hw.stage, HardwareStage::SetUp);
    hw.on_stop();
    assert_eq!(hw.stage, HardwareStage::Exit);
}

#[test]
fn failed_encoding_rebuilds() {
    let mut hw = HardwareLoop::new(10, 0);
    hw.on_set_up(Some((640, 480)));
    hw.on_encoder(true, 0);
    hw.on_encode_failed();
    assert_eq!(hw.stage, HardwareStage::SetUp);
}

#[test]
fn output_formats_to_try() {
    let first = output_format(1920, 1080, 30, 3000, 0).unwrap();
    assert_eq!(first.frame_size, (1920 << 32) + 1088);
    assert_eq!((first.bits_per_second, first.profile, first.level), (3_072_000, 66, 40));
    assert_eq!((first.frame_rate, first.pixel_aspect, first.all_independent), ((30 << 32) + 1, (1 << 32) + 1, 1));
    assert_eq!(output_format(1920, 1080, 30, 3000, 1).unwrap().frame_size, (1280 << 32) + 720);
    assert_eq!(output_format(1920, 1080, 30, 3000, 2), None);
}

#[test]
fn output_errors_of_the_hardware_loop() {
    assert_eq!(on_output_error(0xC00D_36B0u32 as i32), OutputError::Done);
    assert_eq!(on_output_error(0xC00D_6D72u32 as i32), OutputError::Done);
    assert_eq!(on_output_error(0xC00D_36B1u32 as i32), OutputError::Again);
    assert_eq!(on_output_error(-2147018576), OutputError::Fail);
    assert_eq!(on_output_error(0), OutputError::Fail);
    assert_eq!(buffer_size(1), 4_194_304);
    assert_eq!(buffer_size(5_000_000), 5_000_000);
}

#[test]
fn stream_clock_counts() {
    let mut clock = StreamClock::new();
    assert_eq!(clock.next_picture(50), (0, 200_000));
    assert_eq!(clock.next_picture(50), (200_000, 200_000));
    for _ in 0..59 {
        assert!(!clock.count_output());
    }
    assert!(clock.count_output());
}

fn command(action: &str) -> ControlCmd {
    ControlCmd {
        action: action.to_string(),
        x: 3,
        y: -4,
        button: "Right".to_string(),
        key: "Enter".to_string(),
        delta_y: -2,
        width: Some(801),
        height: None,
    }
}

#[test]
fn control_commands() {
    let mut state = ResizeState::new(None, None);
    let press = |button| ControlAction::MouseButton { button, direction: Direction::Press };
    assert_eq!(execute_control(command("mousemove"), &mut state), ControlAction::MoveMouse { x: 3, y: -4 });
    assert_eq!(execute_control(command("mousedown"), &mut state), press(Button::Right));
    assert_eq!(
        execute_control(command("mouseup"), &mut state),
        ControlAction::MouseButton { button: Button::Right, direction: Direction::Release }
    );
    assert_eq!(
        execute_control(command("click"), &mut state),
        ControlAction::MouseButton { button: Button::Right, direction: Direction::Click }
    );
    assert_eq!(execute_control(command("scroll"), &mut state), ControlAction::Scroll { delta_y: -2 });
    assert_eq!(
        execute_control(command("keydown"), &mut state),
        ControlAction::Keyboard { key: Key::Return, direction: Direction::Press }
    );
    assert_eq!(
        execute_control(command("keyup"), &mut state),
        ControlAction::Keyboard { key: Key::Return, direction: Direction::Release }
    );
    assert_eq!(execute_control(command("dance"), &mut state), ControlAction::UnknownAction);
    let mut unknown = command("keydown");
    unknown.key = "nope".to_string();
    assert_eq!(execute_control(unknown, &mut state), ControlAction::UnknownKey);
    assert_eq!(state.target_size(1920, 1080, 0), (1920, 1080));
    assert_eq!(execute_control(command("resize"), &mut state), ControlAction::Resize);
    assert_eq!(state.target_size(1600, 1200, 0), (800, 600));
}

#[test]
fn names_of_buttons_and_keys() {
    assert_eq!(parse_button("MIDDLE"), Button::Middle);
    assert_eq!(parse_button("whatever"), Button::Left);
    assert_eq!(named_button("right"), Button::Right);
    assert_eq!(named_button("RIGHT"), Button::Left);
    assert_eq!(parse_key("ESC"), Some(Key::Escape));
    assert_eq!(parse_key("ArrowLeft"), Some(Key::LeftArrow));
    assert_eq!(parse_key("F12"), Some(Key::F12));
    assert_eq!(parse_key("Super"), Some(Key::Meta));
    assert_eq!(parse_key("A"), Some(Key::Unicode('A')));
    assert_eq!(parse_key("\u{e9}"), Some(Key::Unicode('\u{e9}')));
    assert_eq!(parse_key(""), None);
    assert_eq!(parse_key("ab"), None);
    assert_eq!(find_key("X", "alt"), Some(Key::Alt));
}

fn environment() -> Environment {
    Environment {
        jwt_secret: Some("secret".to_string()),
        broker_ws_url: None,
        agent_room: None,
        agent_subject: None,
        capture_fps: None,
        initial_bitrate_kbps: None,
        capture_width: None,
        capture_height: None,
    }
}

fn args(list: &[&str]) -> Vec<String> {
    list.iter().map(|s| s.to_string()).collect()
}

#[test]
fn configuration_defaults() {
    let c = load_config(environment(), &args(&["daemon"])).unwrap();
    assert_eq!(c.broker_url, "ws://127.0.0.1:5695");
    assert_eq!((c.room.as_str(), c.subject.as_str()), ("room-001", "daemon-01"));
    assert_eq!((c.fps, c.bitrate_kbps, c.width, c.height), (30, 3000, None, None));
    assert!(load_config(Environment { jwt_secret: None, ..environment() }, &args(&[])).is_none());
}

#[test]
fn command_line_wins_over_the_environment() {
    let env = || Environment {
        capture_fps: Some("15".to_string()),
        initial_bitrate_kbps: Some("2000".to_string()),
        capture_width: Some("640".to_string()),
        capture_height: Some("x".to_string()),
        ..environment()
    };
    let c = load_config(env(), &args(&["daemon", "--fps", "+60", "--height", "480"])).unwrap();
    assert_eq!((c.fps, c.bitrate_kbps, c.width, c.height), (60, 2000, Some(640), Some(480)));
    let c = load_config(env(), &args(&["--fps", "fast", "--fps", "5", "--width"])).unwrap();
    assert_eq!((c.fps, c.width, c.height), (15, Some(640), None));
    assert!(runs_as_service(&args(&["daemon", "--service"])));
    assert!(!runs_as_service(&args(&["daemon"])));
}

#[test]
fn numbers_are_read() {
    assert_eq!(parse_u32("4294967295"), Some(u32::MAX));
    assert_eq!(parse_u32("4294967296"), None);
    assert_eq!(parse_u32("+7"), Some(7));
    assert_eq!((parse_u32("-7"), parse_u32("+"), parse_u32(""), parse_u32(" 7")), (None, None, None, None));
    assert!(same_ignoring_ascii_case("TuRn", "tUrN"));
    assert!(!same_ignoring_ascii_case("\u{c9}", "\u{e9}"));
    assert_eq!(join_reasons(&vec!["a".to_string(), "b".to_string()]), "a | b");
}

fn daemon() -> DaemonConfig {
    load_config(environment(), &args(&[])).unwrap()
}

#[test]
fn agents_token_is_accepted_by_the_broker() {
    let now = std::time::SystemTime::now().duration_since(std::time::UNIX_EPOCH).unwrap().as_secs();
    let token = mint_jwt(&daemon(), now).unwrap();
    let expected = format!(
        "{{\"sub\":\"daemon-01\",\"role\":\"agent\",\"room\":\"room-001\",\"exp\":{}}}",
        now + 604_800
    );
    assert_eq!(validate_jwt(&token, "secret", now), Ok(expected.clone()));
    assert_eq!(validate_jwt(&token, "secret", now + 604_800), Ok(expected));
    assert!(validate_jwt(&token, "secret", now + 604_861).is_err());
    assert_eq!(ws_url(&daemon(), "T"), "ws://127.0.0.1:5695/ws/room-001?token=T");
    let old = mint_jwt(&daemon(), 0).unwrap();
    assert!(validate_jwt(&old, "secret", now).is_err());
}

#[test]
fn subjects_are_escaped_in_claims() {
    let now = std::time::SystemTime::now().duration_since(std::time::UNIX_EPOCH).unwrap().as_secs();
    let mut config = daemon();
    config.subject = "a\"b\\c\u{1}\n\u{e9}".to_string();
    let token = mint_jwt(&config, now).unwrap();
    let text = validate_jwt(&token, "secret", now).unwrap();
    assert!(text.starts_with("{\"sub\":\"a\\\"b\\\\c\\u0001\\n\u{e9}\","));
    let value: serde_json::Value = serde_json::from_str(&text).unwrap();
    assert_eq!(value["sub"].as_str(), Some("a\"b\\c\u{1}\n\u{e9}"));
}

#[test]
fn bit_rates() {
    assert_eq!(recommended_bitrate_kbps(1920, 1080, 30), 4700);
    assert_eq!(recommended_bitrate_kbps(1920, 1080, 60), 5400);
    assert_eq!(recommended_bitrate_kbps(1280, 720, 29), 2800);
    assert_eq!(recommended_bitrate_kbps(960, 540, 30), 2500);
    assert_eq!(recommended_bitrate_kbps(640, 480, 15), 1200);
    assert_eq!(recommended_bitrate_kbps(u32::MAX, u32::MAX, 15), 4000);
}

#[test]
fn session_is_planned() {
    let plan = plan_session(&daemon(), 1920, 1080, 0);
    assert_eq!((plan.encoder.width, plan.encoder.height), (1920, 1080));
    assert_eq!((plan.encoder.fps, plan.encoder.bitrate_kbps), (30, 4700));
    assert_eq!(plan.fmtp, "level-asymmetry-allowed=1;packetization-mode=1;profile-level-id=42e028");
    let mut wide = daemon();
    wide.bitrate_kbps = 9000;
    let plan = plan_session(&wide, 3840, 2160, 1080);
    assert_eq!((plan.encoder.width, plan.encoder.height, plan.encoder.bitrate_kbps), (1920, 1080, 9000));
    assert_eq!(plan.fmtp, "level-asymmetry-allowed=1;packetization-mode=1;profile-level-id=42e033");
}

#[test]
fn daemon_stops_on_its_flag() {
    assert!(should_shutdown(Some(true)));
    assert!(!should_shutdown(Some(false)));
    assert!(!should_shutdown(None));
}

#[test]
fn servers_of_the_broker_are_read() {
    let sent = build_ice_servers("turn:a", "u\"", "p");
    let read = read_broker_config(&config_message(&sent)).unwrap();
    assert_eq!(read.len(), 2);
    assert_eq!((read[0].urls.clone(), read[0].username.as_str()), (vec!["turn:a".to_string()], "u\""));
    assert_eq!(read[0].credential, "p");
    assert_eq!((read[1].urls.len(), read[1].username.as_str()), (1, ""));
    let odd = r#"{"ice_servers":[{"urls":[1,"stun:x"],"username":5},{"urls":"stun:y"},7]}"#;
    let read = read_broker_config(odd).unwrap();
    assert_eq!(read[0].urls, vec!["".to_string(), "stun:x".to_string()]);
    assert_eq!((read[0].username.as_str(), read[1].urls.len(), read[2].urls.len()), ("", 0, 0));
    assert!(matches!(read_broker_config("nonsense"), Err(BrokerConfigError::NotJson)));
    assert!(matches!(read_broker_config("{\"a\":1}"), Err(BrokerConfigError::NoIceServers)));
    assert!(matches!(read_broker_config("{\"ice_servers\":{}}"), Err(BrokerConfigError::NoIceServers)));
}

#[test]
fn servers_are_made_of_what_is_found() {
    let server = make_server(vec![None, Some("b".to_string())], None, Some("c".to_string()));
    assert_eq!(server.urls, vec!["".to_string(), "b".to_string()]);
    assert_eq!((server.username.as_str(), server.credential.as_str()), ("", "c"));
}

#[test]
fn signals_are_read() {
    assert!(matches!(read_signal(r#"{"type":"peer_joined","role":"technician"}"#), Signal::PeerJoined));
    match read_signal(r#"{"type":"answer","sdp":"v=0"}"#) {
        Signal::Answer { sdp } => assert_eq!(sdp, "v=0"),
        other => panic!("{:?}", other),
    }
    assert!(matches!(read_signal(r#"{"type":"answer"}"#), Signal::Answer { sdp } if sdp.is_empty()));
    match read_signal(r#"{"type":"ice","candidate":"c","sdpMid":"0","sdpMLineIndex":65537}"#) {
        Signal::Ice { candidate, sdp_mid, sdp_mline_index } => {
            assert_eq!((candidate.as_str(), sdp_mid.as_deref(), sdp_mline_index), ("c", Some("0"), Some(1)));
        }
        other => panic!("{:?}", other),
    }
    assert!(matches!(read_signal(r#"{"type":"ice"}"#), Signal::Other));
    assert!(matches!(read_signal(r#"{"type":5}"#), Signal::Other));
    assert!(matches!(read_signal("[]"), Signal::Other));
    assert!(matches!(read_signal("nonsense"), Signal::Other));
    assert!(matches!(make_signal(None, None, None, None, None), Signal::Other));
}

#[test]
fn one_offer_and_one_pipeline() {
    let mut progress = Progress::new();
    let answer = || Signal::Answer { sdp: "s".to_string() };
    assert!(matches!(progress.on_signal(Signal::PeerJoined), SignalAction::SendOffer));
    assert!(matches!(progress.on_signal(Signal::PeerJoined), SignalAction::Ignore));
    assert!(matches!(progress.on_signal(answer()), SignalAction::TakeAnswer { start_pipeline: true, .. }));
    assert!(matches!(progress.on_signal(answer()), SignalAction::TakeAnswer { start_pipeline: false, .. }));
    assert!(matches!(progress.on_signal(Signal::Other), SignalAction::Ignore));
    let ice = Signal::Ice { candidate: "c".to_string(), sdp_mid: None, sdp_mline_index: None };
    assert!(matches!(progress.on_signal(ice), SignalAction::AddCandidate { sdp_mline_index: None, .. }));
}

#[test]
fn messages_to_the_viewer() {
    assert_eq!(offer_message("a\r\n"), r#"{"sdp":"a\r\n","type":"offer"}"#);
    assert_eq!(
        ice_message("c", &Some("0".to_string()), Some(3)),
        r#"{"candidate":"c","sdpMLineIndex":3,"sdpMid":"0","type":"ice"}"#
    );
    assert_eq!(
        ice_message("c", &None, None),
        r#"{"candidate":"c","sdpMLineIndex":null,"sdpMid":null,"type":"ice"}"#
    );
}

#[test]
fn messages_are_read_as_they_were_written() {
    match read_signal(&ice_message("a\"b\\c\u{1}\u{e9}", &Some("\u{1f600}".to_string()), Some(65535))) {
        Signal::Ice { candidate, sdp_mid, sdp_mline_index } => {
            assert_eq!(candidate, "a\"b\\c\u{1}\u{e9}");
            assert_eq!((sdp_mid.as_deref(), sdp_mline_index), (Some("\u{1f600}"), Some(65535)));
        }
        other => panic!("{:?}", other),
    }
    match read_signal(&ice_message("", &None, None)) {
        Signal::Ice { candidate, sdp_mid, sdp_mline_index } => {
            assert_eq!((candidate.as_str(), sdp_mid, sdp_mline_index), ("", None, None));
        }
        other => panic!("{:?}", other),
    }
    assert!(matches!(read_signal(&offer_message("v=0")), Signal::Other));
    assert!(matches!(read_signal(&peer_joined("technician").1), Signal::PeerJoined));
}

#[test]
fn servers_of_any_kind_are_read_as_they_were_written() {
    let make = |urls: &[&str], username: &str, credential: &str| IceServer {
        urls: urls.iter().map(|u| u.to_string()).collect(),
        username: username.to_string(),
        credential: credential.to_string(),
    };
    let sent = vec![
        make(&[], "", ""),
        make(&["a", "\u{7f}\t\"", ""], "", "only a credential"),
        make(&["b"], "only a user", ""),
    ];
    let read = read_broker_config(&config_message(&sent)).unwrap();
    assert_eq!(read.len(), sent.len());
    for (r, s) in read.iter().zip(sent.iter()) {
        assert_eq!((&r.urls, &r.username, &r.credential), (&s.urls, &s.username, &s.credential));
    }
    assert!(read_broker_config(&config_message(&Vec::new())).unwrap().is_empty());
    let many: Vec<IceServer> = (0..12).map(|i| make(&["x"; 11], &i.to_string(), "c")).collect();
    let read = read_broker_config(&config_message(&many)).unwrap();
    assert_eq!((read.len(), read[11].urls.len(), read[11].username.as_str()), (12, 11, "11"));
}

#[test]
fn waiting_for_messages() {
    assert_eq!(next_ws_message(None, false, false), WsStep::Wait);
    assert_eq!(next_ws_message(None, true, false), WsStep::End);
    assert_eq!(next_ws_message(Some(WsOutcome::TimedOut), false, true), WsStep::End);
    assert_eq!(next_ws_message(Some(WsOutcome::TimedOut), false, false), WsStep::Wait);
    assert_eq!(next_ws_message(Some(WsOutcome::Message), true, true), WsStep::Deliver);
    assert_eq!(next_ws_message(Some(WsOutcome::Failed), false, false), WsStep::Fail);
    assert_eq!(next_ws_message(Some(WsOutcome::Ended), false, false), WsStep::End);
}

#[test]
fn waits_double_up_to_a_minute() {
    let mut backoff = Backoff::new();
    let waits: Vec<Reconnect> = (0..7).map(|_| backoff.on_session_end(SessionEnd::Failed, false)).collect();
    let expected: Vec<Reconnect> = [2, 4, 8, 16, 32, 60, 60].iter().map(|s| Reconnect::After { secs: *s }).collect();
    assert_eq!(waits, expected);
    assert_eq!(backoff.on_session_end(SessionEnd::Clean, false), Reconnect::Now);
    assert_eq!(backoff.on_session_end(SessionEnd::Failed, false), Reconnect::After { secs: 2 });
    assert_eq!(backoff.on_session_end(SessionEnd::Failed, true), Reconnect::Quit);
}

#[test]
fn sessions_begin_unless_the_daemon_is_to_stop() {
    assert_eq!(before_session(false), Reconnect::Now);
    assert_eq!(before_session(true), Reconnect::Quit);
    assert_eq!(next_service_step(None, false), Reconnect::Now);
    assert_eq!(next_service_step(None, true), Reconnect::Quit);
    assert_eq!(next_service_step(Some(SessionEnd::Clean), false), Reconnect::Now);
    assert_eq!(next_service_step(Some(SessionEnd::Clean), true), Reconnect::Quit);
    assert_eq!(next_service_step(Some(SessionEnd::Failed), false), Reconnect::After { secs: 4 });
    assert_eq!(next_service_step(Some(SessionEnd::Failed), true), Reconnect::After { secs: 4 });
}

#[test]
fn latest_frame_is_sent() {
    let frame = |n: u8, duration_ms: u64, captured_at: u64| EncodedFrame { data: vec![n], duration_ms, captured_at };
    assert_eq!(frame_to_send(vec![frame(1, 33, 0), frame(2, 20, 0)], 30, 180 * MS), Some((vec![2], 33)));
    assert_eq!(frame_to_send(vec![frame(1, 50, 0)], 30, 0), Some((vec![1], 50)));
    assert_eq!(frame_to_send(vec![frame(1, 50, 0)], 30, 180 * MS + 1), None);
    assert_eq!(frame_to_send(vec![], 30, 0), None);
}
