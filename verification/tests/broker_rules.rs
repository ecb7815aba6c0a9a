//! Admission, rooms, relay, ICE servers and the messages of the broker.

use sremote::broker::auth::{claims_or_reject, validate_jwt, ws_handler, Admission, Claims, RdpTarget, Rejection};
use sremote::broker::config::{load_config, BrokerEnvironment};
use sremote::broker::ice::{build_ice_servers, config_message};
use sremote::broker::native::{
    after_connect, await_credentials, bridge, connector_settings, enables_nla, input_channel, key_or_error, notice_text,
    server_public_key, session_ends_if_not_done, stored_credentials, BridgeAction, BridgeEvent, BrowserEvent,
    CertificateError, ChannelStep, LoginStep, Notice,
};
use sremote::broker::input::{BrowserCommand, RdpInput};
use sremote::broker::relay::{ends_if_not_done, keep_alive, peer_joined, relay, PeerAction, PeerEvent};
use sremote::broker::rooms::{announces, Rooms};
use sremote::jwt::{is_in_time, sign_claims};

const CERTIFICATE: [u8; 310] = [
    0x30, 0x82, 0x01, 0x32, 0x30, 0x81, 0xe5, 0xa0, 0x03, 0x02, 0x01, 0x02, 0x02, 0x14,
    0x6b, 0xe9, 0xa0, 0x4f, 0x73, 0x22, 0x30, 0xa8, 0x5b, 0xfe, 0x13, 0x45, 0x10, 0x32,
    0xda, 0x69, 0x45, 0x71, 0xda, 0xae, 0x30, 0x05, 0x06, 0x03, 0x2b, 0x65, 0x70, 0x30,
    0x0f, 0x31, 0x0d, 0x30, 0x0b, 0x06, 0x03, 0x55, 0x04, 0x03, 0x0c, 0x04, 0x68, 0x6f,
    0x73, 0x74, 0x30, 0x1e, 0x17, 0x0d, 0x32, 0x36, 0x31, 0x31, 0x31, 0x35, 0x31, 0x34,
    0x33, 0x30, 0x35, 0x39, 0x5a, 0x17, 0x0d, 0x33, 0x36, 0x31, 0x31, 0x31, 0x32, 0x31,
    0x34, 0x33, 0x30, 0x35, 0x39, 0x5a, 0x30, 0x0f, 0x31, 0x0d, 0x30, 0x0b, 0x06, 0x03,
    0x55, 0x04, 0x03, 0x0c, 0x04, 0x68, 0x6f, 0x73, 0x74, 0x30, 0x2a, 0x30, 0x05, 0x06,
    0x03, 0x2b, 0x65, 0x70, 0x03, 0x21, 0x00, 0x96, 0xfb, 0x4b, 0x0c, 0x11, 0x88, 0xcc,
    0xe5, 0xca, 0x49, 0xb0, 0x53, 0x8e, 0xc0, 0x3a, 0x23, 0x47, 0x1a, 0x01, 0x8a, 0xb8,
    0x80, 0x51, 0xd1, 0x27, 0x45, 0x57, 0x34, 0xde, 0xde, 0x28, 0xa4, 0xa3, 0x53, 0x30,
    0x51, 0x30, 0x1d, 0x06, 0x03, 0x55, 0x1d, 0x0e, 0x04, 0x16, 0x04, 0x14, 0xe2, 0x84,
    0x08, 0x7e, 0x10, 0xca, 0x5c, 0xa5, 0x06, 0x56, 0xb7, 0xb5, 0xc6, 0x37, 0xc9, 0x9b,
    0x86, 0x9d, 0x40, 0x3a, 0x30, 0x1f, 0x06, 0x03, 0x55, 0x1d, 0x23, 0x04, 0x18, 0x30,
    0x16, 0x80, 0x14, 0xe2, 0x84, 0x08, 0x7e, 0x10, 0xca, 0x5c, 0xa5, 0x06, 0x56, 0xb7,
    0xb5, 0xc6, 0x37, 0xc9, 0x9b, 0x86, 0x9d, 0x40, 0x3a, 0x30, 0x0f, 0x06, 0x03, 0x55,
    0x1d, 0x13, 0x01, 0x01, 0xff, 0x04, 0x05, 0x30, 0x03, 0x01, 0x01, 0xff, 0x30, 0x05,
    0x06, 0x03, 0x2b, 0x65, 0x70, 0x03, 0x41, 0x00, 0xc5, 0xce, 0x21, 0x74, 0x37, 0x5a,
    0xfb, 0x10, 0xad, 0x37, 0x71, 0x54, 0x61, 0x75, 0x37, 0xc8, 0x9c, 0x99, 0x85, 0x30,
    0xfc, 0xe1, 0x8c, 0x40, 0x8f, 0x9d, 0xd9, 0xe3, 0xac, 0xda, 0x5c, 0x62, 0x0e, 0x3a,
    0xc2, 0xdd, 0x21, 0xae, 0xeb, 0x36, 0x8e, 0x9c, 0xce, 0x6b, 0xe4, 0x65, 0xa9, 0x76,
    0xdf, 0x2c, 0x98, 0xed, 0x56, 0xed, 0x4d, 0x32, 0xdb, 0x8c, 0xdc, 0x07, 0x00, 0xeb,
    0x07, 0x09
];

const PUBLIC_KEY: [u8; 32] = [
    0x96, 0xfb, 0x4b, 0x0c, 0x11, 0x88, 0xcc, 0xe5, 0xca, 0x49, 0xb0, 0x53, 0x8e, 0xc0,
    0x3a, 0x23, 0x47, 0x1a, 0x01, 0x8a, 0xb8, 0x80, 0x51, 0xd1, 0x27, 0x45, 0x57, 0x34,
    0xde, 0xde, 0x28, 0xa4
];

fn target(username: &str) -> RdpTarget {
    RdpTarget {
        host: "10.0.0.7".to_string(),
        port: 3389,
        username: username.to_string(),
        password: "secret".to_string(),
        domain: None,
    }
}

fn claims(room: &str, rdp_target: Option<RdpTarget>, auth_mode: Option<&str>) -> Claims {
    Claims {
        sub: "tech-001".to_string(),
        role: "technician".to_string(),
        room: room.to_string(),
        exp: 1,
        rdp_target,
        auth_mode: auth_mode.map(String::from),
    }
}

fn now() -> u64 {
    std::time::SystemTime::now().duration_since(std::time::UNIX_EPOCH).unwrap().as_secs()
}

fn in_an_hour() -> u64 {
    let now = std::time::SystemTime::now().duration_since(std::time::UNIX_EPOCH).unwrap();
    now.as_secs() + 3600
}

#[test]
fn token_is_read_back_as_it_was_signed() {
    let text = format!("{{\"sub\":\"tech-001\",\"role\":\"technician\",\"room\":\"room-001\",\"exp\":{}}}", in_an_hour());
    let token = sign_claims(&text, "a secret").unwrap();
    assert_ne!(token, text);
    assert_eq!(token.split('.').count(), 3);
    assert_eq!(validate_jwt(&token, "a secret", now()), Ok(text));
}

#[test]
fn token_signed_with_another_secret_is_not_authorized() {
    let text = format!("{{\"exp\":{}}}", in_an_hour());
    let token = sign_claims(&text, "a secret").unwrap();
    assert_eq!(validate_jwt(&token, "another secret", now()), Err(Rejection::Unauthorized));
}

#[test]
fn expired_token_is_not_authorized() {
    let token = sign_claims("{\"exp\":1000000}", "a secret").unwrap();
    assert_eq!(validate_jwt(&token, "a secret", now()), Err(Rejection::Unauthorized));
}

#[test]
fn token_without_expiry_is_not_authorized() {
    let token = sign_claims("{\"sub\":\"x\"}", "a secret").unwrap();
    assert_eq!(validate_jwt(&token, "a secret", now()), Err(Rejection::Unauthorized));
}

#[test]
fn audience_of_a_token_is_not_looked_at() {
    let text = format!("{{\"aud\":\"django\",\"exp\":{}}}", in_an_hour());
    let token = sign_claims(&text, "a secret").unwrap();
    assert_eq!(validate_jwt(&token, "a secret", now()), Ok(text));
}

#[test]
fn token_is_taken_until_a_minute_after_its_expiry() {
    let text = "{\"sub\":\"tech-001\",\"role\":\"technician\",\"room\":\"room-001\",\"exp\":1086400}".to_string();
    let token = sign_claims(&text, "a secret").unwrap();
    for now in [0, 60, 61, 1_000_000, 1_086_400, 1_086_460] {
        assert_eq!(validate_jwt(&token, "a secret", now), Ok(text.clone()));
    }
    assert_eq!(validate_jwt(&token, "a secret", 1_086_461), Err(Rejection::Unauthorized));
    let mut deep = "[".repeat(300);
    deep.push_str(&"]".repeat(300));
    for extra in ["1e400", "\"\\ud800\"", "{\"a\":[null,true]}", deep.as_str()] {
        let text = format!("{{\"iat\":{},\"exp\":1086400,\"note\":{}}}", extra, extra);
        let token = sign_claims(&text, "a secret").unwrap();
        assert_eq!(validate_jwt(&token, "a secret", 1_086_460), Ok(text.clone()));
        assert_eq!(validate_jwt(&token, "a secret", 1_086_461), Err(Rejection::Unauthorized));
    }
    let fraction = sign_claims("{\"exp\":1086400.5}", "a secret").unwrap();
    assert_eq!(validate_jwt(&fraction, "a secret", 0), Err(Rejection::Unauthorized));
    assert!(is_in_time(Some(u64::MAX), u64::MAX) && is_in_time(Some(0), 60));
    assert!(!is_in_time(Some(0), 61) && !is_in_time(None, 0));
}

#[test]
fn token_with_the_last_expiry_is_always_accepted() {
    let text = "{\"aud\":[\"a\",\"b\"],\"exp\":18446744073709551615}".to_string();
    let token = sign_claims(&text, "a secret").unwrap();
    assert_eq!(validate_jwt(&token, "a secret", now()), Ok(text));
}

#[test]
fn text_that_is_no_token_is_not_authorized() {
    assert_eq!(validate_jwt("abc", "a secret", now()), Err(Rejection::Unauthorized));
    assert_eq!(validate_jwt("", "a secret", now()), Err(Rejection::Unauthorized));
    assert_eq!(sign_claims("not json", "a secret"), None);
}

#[test]
fn claims_or_their_absence_decide() {
    assert_eq!(claims_or_reject(Some(7u8)), Ok(7u8));
    assert_eq!(claims_or_reject::<u8>(None), Err(Rejection::Unauthorized));
    assert_eq!(Rejection::Unauthorized.status(), 401);
    assert_eq!(Rejection::Forbidden.status(), 403);
}

#[test]
fn peer_is_let_into_the_room_of_its_token_only() {
    assert!(matches!(ws_handler(claims("room-001", None, None), "room-002"), Err(Rejection::Forbidden)));
    match ws_handler(claims("room-001", None, None), "room-001") {
        Ok(Admission::Relay { sub, role }) => {
            assert_eq!(sub, "tech-001");
            assert_eq!(role, "technician");
        }
        other => panic!("{:?}", other),
    }
}

#[test]
fn token_with_a_target_leads_to_the_bridge() {
    match ws_handler(claims("r", Some(target("")), None), "r") {
        Ok(Admission::Bridge { target, auth_mode }) => {
            assert_eq!(target.host, "10.0.0.7");
            assert_eq!(auth_mode, "nla");
        }
        other => panic!("{:?}", other),
    }
    match ws_handler(claims("r", Some(target("")), Some("interactive")), "r") {
        Ok(Admission::Bridge { auth_mode, .. }) => assert_eq!(auth_mode, "interactive"),
        other => panic!("{:?}", other),
    }
}

#[test]
fn rooms_open_and_close_with_their_peers() {
    let mut rooms = Rooms::new();
    assert_eq!(rooms.count("a"), 0);
    assert_eq!(rooms.join("a", 10), (&10, 1));
    assert!(!announces(rooms.count("a")));
    assert_eq!(rooms.join("a", 20), (&10, 2));
    assert!(announces(rooms.count("a")));
    assert_eq!(rooms.join("b", 30), (&30, 1));
    assert!(!rooms.leave("a"));
    assert_eq!(rooms.count("a"), 1);
    assert!(rooms.leave("a"));
    assert_eq!(rooms.count("a"), 0);
    assert!(!rooms.leave("a"));
    assert_eq!(rooms.count("b"), 1);
    assert_eq!(rooms.join("a", 40), (&40, 1));
    assert_eq!(rooms.join("a", 50), (&40, 2));
    assert!(!rooms.leave("a"));
    assert_eq!(rooms.join("a", 60), (&40, 2));
    assert_eq!(rooms.join("b", 70), (&30, 2));
}

#[test]
fn texts_reach_everyone_but_the_speaker() {
    match relay("alice", PeerEvent::Text("hello".to_string())) {
        PeerAction::Broadcast(text) => assert_eq!(text, "hello"),
        other => panic!("{:?}", other),
    }
    let from_alice = || PeerEvent::Relayed { from: "alice".to_string(), text: "hello".to_string() };
    assert!(matches!(relay("alice", from_alice()), PeerAction::Ignore));
    match relay("bob", from_alice()) {
        PeerAction::Send(text) => assert_eq!(text, "hello"),
        other => panic!("{:?}", other),
    }
}

#[test]
fn slow_and_broken_connections_end() {
    assert!(matches!(relay("a", PeerEvent::Lagged), PeerAction::Leave));
    assert!(matches!(relay("a", PeerEvent::RoomGone), PeerAction::Leave));
    assert!(matches!(relay("a", PeerEvent::Closed), PeerAction::Leave));
    assert!(matches!(relay("a", PeerEvent::Failed), PeerAction::Leave));
    assert!(matches!(relay("a", PeerEvent::Other), PeerAction::Ignore));
    assert!(matches!(relay("a", PeerEvent::Tick), PeerAction::KeepAlive));
    match relay("a", PeerEvent::Ping(vec![1, 2])) {
        PeerAction::Pong(data) => assert_eq!(data, vec![1, 2]),
        other => panic!("{:?}", other),
    }
    assert!(ends_if_not_done(&PeerAction::KeepAlive));
    assert!(!ends_if_not_done(&PeerAction::Pong(vec![])));
    assert_eq!(keep_alive(), b"ka".to_vec());
}

#[test]
fn joining_is_announced_by_the_broker() {
    let (from, text) = peer_joined("technician");
    assert_eq!(from, "broker");
    assert_eq!(text, r#"{"type":"peer_joined","role":"technician"}"#);
}

#[test]
fn turn_server_comes_before_stun() {
    let servers = build_ice_servers("turn:turn.example.com:3478", "user", "pass");
    assert_eq!(servers.len(), 2);
    assert_eq!(servers[0].urls, vec!["turn:turn.example.com:3478".to_string()]);
    assert_eq!(servers[0].username, "user");
    assert_eq!(servers[0].credential, "pass");
    assert_eq!(servers[1].urls, vec!["stun:stun.l.google.com:19302".to_string()]);
    assert_eq!(
        config_message(&servers),
        concat_text(&[
            r#"{"type":"config","ice_servers":[{"urls":["turn:turn.example.com:3478"],"username":"user","#,
            r#""credential":"pass"},{"urls":["stun:stun.l.google.com:19302"]}]}"#,
        ])
    );
}

fn concat_text(parts: &[&str]) -> String {
    parts.concat()
}

#[test]
fn unconfigured_turn_leaves_stun_alone() {
    assert_eq!(build_ice_servers("", "sremote", "x").len(), 1);
    assert_eq!(build_ice_servers(" \t", "sremote", "x").len(), 1);
    assert_eq!(build_ice_servers("turn:a", "sremote", "\u{3000}").len(), 1);
    assert_eq!(build_ice_servers("turn:localhost:3478", "sremote", "coturn-static-secret").len(), 1);
    assert_eq!(build_ice_servers("TURN:LocalHost:3478", "sremote", "coturn-static-secret").len(), 1);
    assert_eq!(build_ice_servers("turn:localhost:3478", "other", "coturn-static-secret").len(), 2);
    assert_eq!(build_ice_servers("turn:localhost:3478", "sremote", "other").len(), 2);
    assert_eq!(
        config_message(&build_ice_servers("", "", "")),
        r#"{"type":"config","ice_servers":[{"urls":["stun:stun.l.google.com:19302"]}]}"#
    );
}

#[test]
fn secrets_in_the_configuration_are_escaped() {
    let servers = build_ice_servers("turn:a", "u\"ser", "p\\w");
    let text = config_message(&servers);
    assert!(text.contains(r#""username":"u\"ser""#));
    assert!(text.contains(r#""credential":"p\\w""#));
}

#[test]
fn broker_configuration_has_defaults() {
    let none = || BrokerEnvironment {
        jwt_secret: None,
        turn_url: None,
        turn_user: None,
        turn_secret: None,
        broker_addr: None,
    };
    assert!(load_config(none()).is_none());
    let config = load_config(BrokerEnvironment { jwt_secret: Some("s".to_string()), ..none() }).unwrap();
    assert_eq!(config.jwt_secret, "s");
    assert_eq!(config.turn_url, "");
    assert_eq!(config.turn_user, "sremote");
    assert_eq!(config.turn_secret, "");
    assert_eq!(config.addr, "127.0.0.1:5695");
}

#[test]
fn credentials_are_asked_for_only_where_there_are_none() {
    assert!(stored_credentials("nla", &target("")).is_none());
    assert_eq!(stored_credentials("nla", &target("bob")).unwrap().username, "bob");
    assert_eq!(stored_credentials("interactive", &target("")).unwrap().password, "secret");
    assert!(enables_nla("nla"));
    assert!(!enables_nla("interactive"));
}

#[test]
fn waiting_for_credentials() {
    let given = BrowserCommand::NlaCredentials {
        username: "bob".to_string(),
        password: "pw".to_string(),
        domain: None,
    };
    match await_credentials(BrowserEvent::Text(Some(given))) {
        LoginStep::Use(c) => assert_eq!((c.username.as_str(), c.password.as_str()), ("bob", "pw")),
        other => panic!("{:?}", other),
    }
    assert!(matches!(await_credentials(BrowserEvent::Text(Some(BrowserCommand::FrameAck))), LoginStep::Wait));
    assert!(matches!(await_credentials(BrowserEvent::Text(None)), LoginStep::Wait));
    assert!(matches!(await_credentials(BrowserEvent::Other), LoginStep::GiveUp));
}

#[test]
fn notices_are_json() {
    assert_eq!(
        notice_text(&Notice::AuthRequired),
        r#"{"auth_mode":"nla","message":"Enter credentials for NLA authentication","type":"auth_required"}"#
    );
    assert_eq!(
        notice_text(&Notice::Connecting),
        "{\"message\":\"Establishing RDP session\u{2026}\",\"type\":\"rdp_connecting\"}"
    );
    assert_eq!(
        notice_text(&Notice::Connected { width: 1280, height: 1024, auth_mode: "nla".to_string() }),
        r#"{"auth_mode":"nla","height":1024,"type":"rdp_connected","width":1280}"#
    );
    assert_eq!(
        notice_text(&Notice::HandshakeFailed { reason: "bad\n".to_string() }),
        r#"{"message":"RDP handshake failed: bad\n","type":"error"}"#
    );
}

#[test]
fn outcome_of_connecting_is_told() {
    match after_connect(Ok((1280, 1024)), "nla") {
        (Some(Notice::Connected { width: 1280, height: 1024, auth_mode }), true) => assert_eq!(auth_mode, "nla"),
        other => panic!("{:?}", other),
    }
    match after_connect(Err(Some("refused".to_string())), "nla") {
        (Some(Notice::HandshakeFailed { reason }), false) => assert_eq!(reason, "refused"),
        other => panic!("{:?}", other),
    }
    assert!(matches!(after_connect(Err(None), "nla"), (None, false)));
}

#[test]
fn bridge_passes_frames_and_input() {
    assert!(matches!(bridge(BridgeEvent::Frame(vec![1])), BridgeAction::Send(f) if f == vec![1]));
    assert!(matches!(bridge(BridgeEvent::FramesEnded), BridgeAction::End));
    assert!(matches!(bridge(BridgeEvent::Closed), BridgeAction::End));
    assert!(matches!(bridge(BridgeEvent::Tick), BridgeAction::KeepAlive));
    assert!(matches!(bridge(BridgeEvent::Other), BridgeAction::Ignore));
    assert!(matches!(bridge(BridgeEvent::Text(None)), BridgeAction::Ignore));
    assert!(matches!(
        bridge(BridgeEvent::Text(Some(BrowserCommand::StartInteractive))),
        BridgeAction::Ignore
    ));
    assert!(matches!(
        bridge(BridgeEvent::Text(Some(BrowserCommand::MouseMove { x: 3, y: 4 }))),
        BridgeAction::Input(RdpInput::MouseMove { x: 3, y: 4 })
    ));
    assert!(matches!(bridge(BridgeEvent::Ping(vec![9])), BridgeAction::Pong(p) if p == vec![9]));
    assert!(session_ends_if_not_done(&BridgeAction::Send(vec![])));
    assert!(!session_ends_if_not_done(&BridgeAction::Input(RdpInput::FrameAck)));
}

#[test]
fn input_channel_needs_a_session() {
    let ack = || BrowserEvent::Text(Some(BrowserCommand::FrameAck));
    assert_eq!(input_channel(ack(), true), ChannelStep::Input(RdpInput::FrameAck));
    assert_eq!(input_channel(ack(), false), ChannelStep::Skip);
    assert_eq!(input_channel(BrowserEvent::Text(None), true), ChannelStep::Skip);
    assert_eq!(
        input_channel(BrowserEvent::Text(Some(BrowserCommand::SendCtrlAltDel)), true),
        ChannelStep::Skip
    );
    assert_eq!(input_channel(BrowserEvent::Other, true), ChannelStep::End);
}

#[test]
fn connector_settings_are_fixed() {
    let s = connector_settings(true);
    assert!(s.enable_credssp && !s.enable_tls);
    assert_eq!((s.width, s.height), (1280, 1024));
    assert_eq!(s.client_name, "sRemote-Broker");
    assert_eq!(s.client_dir, "C:\\Windows\\System32\\mstscax.dll");
    assert_eq!(s.keyboard_functional_keys_count, 12);
    assert!(!connector_settings(false).enable_credssp);
}

#[test]
fn public_key_comes_from_the_first_certificate() {
    let chain = vec![CERTIFICATE.to_vec(), vec![1, 2, 3]];
    assert_eq!(server_public_key(&chain), Ok(PUBLIC_KEY.to_vec()));
    assert_eq!(server_public_key(&vec![]), Err(CertificateError::Missing));
    assert_eq!(server_public_key(&vec![vec![1, 2, 3], CERTIFICATE.to_vec()]), Err(CertificateError::Malformed));
    assert_eq!(key_or_error(Some(None)), Err(CertificateError::NoKey));
    assert_eq!(key_or_error(None), Err(CertificateError::Malformed));
    assert_eq!(key_or_error(Some(Some(vec![5]))), Ok(vec![5]));
}
