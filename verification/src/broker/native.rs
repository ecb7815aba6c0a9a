//! The bridge to an RDP host: logging in, what the browser is told, and what the connection does
//! with what it hears.

use crate::broker::auth::RdpTarget;
use crate::broker::input::{
    channel_input, channel_input_of, session_input, session_input_of, BrowserCommand, RdpInput,
};
use crate::json::{
    flat_object, json_string, number_member, object_text, pairs, text_member, write_object, Member,
};
use crate::text::{decimal, same};
use vstd::prelude::*;

verus! {

/// The frames that wait for the browser.
pub const FRAME_CAPACITY: usize = 1;

/// The input events that wait for the host.
pub const INPUT_CAPACITY: usize = 100;

/// How long the host may take to answer while the session is set up, in seconds.
pub const HANDSHAKE_TIMEOUT_SECS: u64 = 5;

/// A user and a password.
#[derive(Debug)]
pub struct Credentials {
    pub username: String,
    pub password: String,
}

/// The login is done on the host's own screen, not beforehand.
pub open spec fn interactive(auth_mode: Seq<char>) -> bool {
    auth_mode == "interactive"@
}

/// The credentials that come with the target are used: the login is interactive, or there is a
/// user.
pub open spec fn has_credentials(auth_mode: Seq<char>, target: RdpTarget) -> bool {
    interactive(auth_mode) || target.username@.len() > 0
}

/// The credentials to use, or none where the browser is to be asked for them.
pub fn stored_credentials(auth_mode: &str, target: &RdpTarget) -> (r: Option<Credentials>)
    ensures
        r is Some <==> has_credentials(auth_mode@, *target),
        r is Some ==> r->0.username@ == target.username@ && r->0.password@ == target.password@,
{
    let empty: bool = same(target.username.as_str(), "");
    proof {
        reveal_strlit("");
        if target.username@.len() == 0 {
            assert(target.username@ =~= ""@);
        }
    }
    if same(auth_mode, "interactive") || !empty {
        Some(
            Credentials {
                username: target.username.as_str().to_owned(),
                password: target.password.as_str().to_owned(),
            },
        )
    } else {
        None
    }
}

/// What is heard from the browser while credentials are waited for, or on an input channel.
#[derive(Debug)]
pub enum BrowserEvent {
    /// A text, with the command that it spells, if it spells one.
    Text(Option<BrowserCommand>),
    /// Anything else.
    Other,
}

/// What to do while credentials are waited for.
#[derive(Debug)]
pub enum LoginStep {
    /// Use the credentials.
    Use(Credentials),
    /// Go on waiting.
    Wait,
    /// End the session.
    GiveUp,
}

/// Takes what is heard while credentials are waited for.
pub fn await_credentials(event: BrowserEvent) -> (r: LoginStep)
    ensures
        r == (match event {
            BrowserEvent::Text(Some(BrowserCommand::NlaCredentials { username, password, .. })) =>
                LoginStep::Use(Credentials { username, password }),
            BrowserEvent::Text(_) => LoginStep::Wait,
            BrowserEvent::Other => LoginStep::GiveUp,
        }),
{
    match event {
        BrowserEvent::Text(Some(BrowserCommand::NlaCredentials { username, password, .. })) =>
            LoginStep::Use(Credentials { username, password }),
        BrowserEvent::Text(_) => LoginStep::Wait,
        BrowserEvent::Other => LoginStep::GiveUp,
    }
}

/// What a dedicated input channel does.
#[derive(Clone, Copy, Debug, PartialEq, Eq, Structural)]
pub enum ChannelStep {
    /// Pass the input event on to the session of the room.
    Input(RdpInput),
    /// Do nothing.
    Skip,
    /// End the channel.
    End,
}

/// Takes what is heard on a dedicated input channel, for a room that has a session or has none.
pub fn input_channel(event: BrowserEvent, has_session: bool) -> (r: ChannelStep)
    ensures
        r == (match event {
            BrowserEvent::Text(Some(cmd)) => match channel_input_of(cmd) {
                Some(input) => if has_session {
                    ChannelStep::Input(input)
                } else {
                    ChannelStep::Skip
                },
                None => ChannelStep::Skip,
            },
            BrowserEvent::Text(None) => ChannelStep::Skip,
            BrowserEvent::Other => ChannelStep::End,
        }),
{
    match event {
        BrowserEvent::Text(Some(cmd)) => match channel_input(cmd) {
            Some(input) => {
                if has_session {
                    ChannelStep::Input(input)
                } else {
                    ChannelStep::Skip
                }
            },
            None => ChannelStep::Skip,
        },
        BrowserEvent::Text(None) => ChannelStep::Skip,
        BrowserEvent::Other => ChannelStep::End,
    }
}

/// Says whether network level authentication is used.
pub fn enables_nla(auth_mode: &str) -> (r: bool)
    ensures
        r == !interactive(auth_mode@),
{
    !same(auth_mode, "interactive")
}

/// What the browser is told of the state of the session.
#[derive(Debug)]
pub enum Notice {
    AuthRequired,
    Connecting,
    Connected { width: u16, height: u16, auth_mode: String },
    HandshakeFailed { reason: String },
}

/// The members of a notice, in the order of their names.
pub open spec fn notice_members(notice: Notice) -> Seq<(Seq<char>, Seq<char>)> {
    match notice {
        Notice::AuthRequired => seq![
            ("auth_mode"@, json_string("nla"@)),
            ("message"@, json_string("Enter credentials for NLA authentication"@)),
            ("type"@, json_string("auth_required"@)),
        ],
        Notice::Connecting => seq![
            ("message"@, json_string("Establishing RDP session…"@)),
            ("type"@, json_string("rdp_connecting"@)),
        ],
        Notice::Connected { width, height, auth_mode } => seq![
            ("auth_mode"@, json_string(auth_mode@)),
            ("height"@, decimal(height as nat)),
            ("type"@, json_string("rdp_connected"@)),
            ("width"@, decimal(width as nat)),
        ],
        Notice::HandshakeFailed { reason } => seq![
            ("message"@, json_string("RDP handshake failed: "@ + reason@)),
            ("type"@, json_string("error"@)),
        ],
    }
}

/// Writes a notice as the browser gets it.
pub fn notice_text(notice: &Notice) -> (r: String)
    ensures
        r@ == object_text(notice_members(*notice)),
        flat_object(r@),
{
    let mut members: Vec<Member> = Vec::new();
    match notice {
        Notice::AuthRequired => {
            members.push(text_member("auth_mode", "nla"));
            members.push(text_member("message", "Enter credentials for NLA authentication"));
            members.push(text_member("type", "auth_required"));
        },
        Notice::Connecting => {
            members.push(text_member("message", "Establishing RDP session…"));
            members.push(text_member("type", "rdp_connecting"));
        },
        Notice::Connected { width, height, auth_mode } => {
            members.push(text_member("auth_mode", auth_mode.as_str()));
            members.push(number_member("height", *height as u64));
            members.push(text_member("type", "rdp_connected"));
            members.push(number_member("width", *width as u64));
        },
        Notice::HandshakeFailed { reason } => {
            let mut message: String = "RDP handshake failed: ".to_owned();
            message.append(reason.as_str());
            members.push(text_member("message", message.as_str()));
            members.push(text_member("type", "error"));
        },
    }
    assert(pairs(members@) =~= notice_members(*notice));
    write_object(&members)
}

/// What is told to the browser once the host has been tried, and whether the session goes on. A
/// try that broke off without a word is told of by nothing.
pub fn after_connect(outcome: Result<(u16, u16), Option<String>>, auth_mode: &str) -> (r: (
    Option<Notice>,
    bool,
))
    ensures
        match outcome {
            Ok(size) => {
                &&& r.1
                &&& r.0 is Some && r.0->0 is Connected
                &&& r.0->0->width == size.0 && r.0->0->height == size.1
                &&& r.0->0->auth_mode@ == auth_mode@
            },
            Err(Some(reason)) => !r.1 && r.0 == Some(Notice::HandshakeFailed { reason }),
            Err(None) => !r.1 && r.0 is None,
        },
{
    match outcome {
        Ok(size) => (
            Some(
                Notice::Connected { width: size.0, height: size.1, auth_mode: auth_mode.to_owned() },
            ),
            true,
        ),
        Err(Some(reason)) => (Some(Notice::HandshakeFailed { reason }), false),
        Err(None) => (None, false),
    }
}

/// What a bridged connection hears, from the host, from the browser or from the clock.
#[derive(Debug)]
pub enum BridgeEvent {
    /// A frame for the browser.
    Frame(Vec<u8>),
    /// There will be no more frames.
    FramesEnded,
    /// The browser sends a text, with the command that it spells, if it spells one.
    Text(Option<BrowserCommand>),
    /// The browser asks for a sign of life.
    Ping(Vec<u8>),
    /// The browser closes the connection, or it ends.
    Closed,
    /// Anything else.
    Other,
    /// It is time for a sign of life.
    Tick,
}

/// What a bridged connection does.
#[derive(Debug)]
pub enum BridgeAction {
    /// Send the frame to the browser.
    Send(Vec<u8>),
    /// Pass the input event on to the host.
    Input(RdpInput),
    /// Give a sign of life.
    Pong(Vec<u8>),
    /// Ask for a sign of life.
    KeepAlive,
    /// Do nothing.
    Ignore,
    /// End the session.
    End,
}

/// What a bridged connection does with what it hears.
pub open spec fn bridge_of(event: BridgeEvent) -> BridgeAction {
    match event {
        BridgeEvent::Frame(data) => BridgeAction::Send(data),
        BridgeEvent::FramesEnded => BridgeAction::End,
        BridgeEvent::Text(Some(cmd)) => match session_input_of(cmd) {
            Some(input) => BridgeAction::Input(input),
            None => BridgeAction::Ignore,
        },
        BridgeEvent::Text(None) => BridgeAction::Ignore,
        BridgeEvent::Ping(data) => BridgeAction::Pong(data),
        BridgeEvent::Closed => BridgeAction::End,
        BridgeEvent::Other => BridgeAction::Ignore,
        BridgeEvent::Tick => BridgeAction::KeepAlive,
    }
}

/// Says what a bridged connection does with what it hears.
pub fn bridge(event: BridgeEvent) -> (r: BridgeAction)
    ensures
        r == bridge_of(event),
{
    match event {
        BridgeEvent::Frame(data) => BridgeAction::Send(data),
        BridgeEvent::FramesEnded => BridgeAction::End,
        BridgeEvent::Text(Some(cmd)) => match session_input(cmd) {
            Some(input) => BridgeAction::Input(input),
            None => BridgeAction::Ignore,
        },
        BridgeEvent::Text(None) => BridgeAction::Ignore,
        BridgeEvent::Ping(data) => BridgeAction::Pong(data),
        BridgeEvent::Closed => BridgeAction::End,
        BridgeEvent::Other => BridgeAction::Ignore,
        BridgeEvent::Tick => BridgeAction::KeepAlive,
    }
}

/// Says whether the session ends when the action cannot be carried out. A sign of life that could
/// not be given is let go, and so is an input event that the host does not take.
pub fn session_ends_if_not_done(action: &BridgeAction) -> (r: bool)
    ensures
        r == (action is Send || action is KeepAlive || action is End),
{
    match action {
        BridgeAction::Send(_) => true,
        BridgeAction::KeepAlive => true,
        BridgeAction::End => true,
        _ => false,
    }
}

/// What the host is told when a session is set up.
#[derive(Debug)]
pub struct ConnectorSettings {
    pub enable_tls: bool,
    pub enable_credssp: bool,
    pub keyboard_subtype: u32,
    pub keyboard_layout: u32,
    pub keyboard_functional_keys_count: u32,
    pub ime_file_name: String,
    pub dig_product_id: String,
    pub width: u16,
    pub height: u16,
    pub desktop_scale_factor: u32,
    pub client_build: u32,
    pub client_name: String,
    pub client_dir: String,
    pub autologon: bool,
    pub enable_audio_playback: bool,
    pub enable_server_pointer: bool,
    pub pointer_software_rendering: bool,
}

/// What the host is told when a session is set up. TLS is not negotiated, since the connection is
/// upgraded in any case.
pub fn connector_settings(enable_nla: bool) -> (r: ConnectorSettings)
    ensures
        !r.enable_tls && r.enable_credssp == enable_nla,
        r.keyboard_subtype == 0 && r.keyboard_layout == 0 && r.keyboard_functional_keys_count == 12,
        r.ime_file_name@ == Seq::<char>::empty() && r.dig_product_id@ == Seq::<char>::empty(),
        r.width == 1280 && r.height == 1024 && r.desktop_scale_factor == 0,
        r.client_build == 0 && r.client_name@ == "sRemote-Broker"@,
        r.client_dir@ == "C:\\Windows\\System32\\mstscax.dll"@,
        !r.autologon && !r.enable_audio_playback,
        r.enable_server_pointer && !r.pointer_software_rendering,
{
    ConnectorSettings {
        enable_tls: false,
        enable_credssp: enable_nla,
        keyboard_subtype: 0,
        keyboard_layout: 0,
        keyboard_functional_keys_count: 12,
        ime_file_name: String::new(),
        dig_product_id: String::new(),
        width: 1280,
        height: 1024,
        desktop_scale_factor: 0,
        client_build: 0,
        client_name: "sRemote-Broker".to_owned(),
        client_dir: "C:\\Windows\\System32\\mstscax.dll".to_owned(),
        autologon: false,
        enable_audio_playback: false,
        enable_server_pointer: true,
        pointer_software_rendering: false,
    }
}

/// Of a certificate in DER form, the public key as a bit string: nothing where the bytes are no
/// certificate, and no key where the bit string does not end with a byte.
pub uninterp spec fn certificate_key(der: Seq<u8>) -> Option<Option<Seq<u8>>>;

/// `x509_cert::Certificate::from_der`, and the bytes of its subject public key.
#[verifier::external_body]
fn parse_certificate(der: &[u8]) -> (r: Option<Option<Vec<u8>>>)
    ensures
        r is Some <==> certificate_key(der@) is Some,
        r is Some ==> (r->0 is Some <==> certificate_key(der@)->0 is Some),
        r is Some && r->0 is Some ==> r->0->0@ == certificate_key(der@)->0->0,
{
    let parsed = <x509_cert::Certificate as x509_cert::der::Decode>::from_der(der).ok()?;
    let key = parsed.tbs_certificate.subject_public_key_info.subject_public_key;
    Some(key.as_bytes().map(<[u8]>::to_vec))
}

/// Why the host's public key is not known.
#[derive(Clone, Copy, Debug, PartialEq, Eq, Structural)]
pub enum CertificateError {
    /// The host showed no certificate.
    Missing,
    /// What it showed is no certificate.
    Malformed,
    /// The certificate holds no key.
    NoKey,
}

/// The key of a certificate that was looked into, or why there is none.
pub fn key_or_error(parsed: Option<Option<Vec<u8>>>) -> (r: Result<Vec<u8>, CertificateError>)
    ensures
        r == (match parsed {
            Some(Some(key)) => Ok::<Vec<u8>, CertificateError>(key),
            Some(None) => Err(CertificateError::NoKey),
            None => Err(CertificateError::Malformed),
        }),
{
    match parsed {
        Some(Some(key)) => Ok(key),
        Some(None) => Err(CertificateError::NoKey),
        None => Err(CertificateError::Malformed),
    }
}

/// The host's public key, from the first of the certificates that it showed.
pub fn server_public_key(certificates: &Vec<Vec<u8>>) -> (r: Result<Vec<u8>, CertificateError>)
    ensures
        certificates@.len() == 0 ==> r == Err::<Vec<u8>, CertificateError>(
            CertificateError::Missing,
        ),
        certificates@.len() > 0 ==> match certificate_key(certificates@[0]@) {
            Some(Some(key)) => r is Ok && r->Ok_0@ == key,
            Some(None) => r == Err::<Vec<u8>, CertificateError>(CertificateError::NoKey),
            None => r == Err::<Vec<u8>, CertificateError>(CertificateError::Malformed),
        },
{
    if certificates.len() == 0 {
        return Err(CertificateError::Missing);
    }
    key_or_error(parse_certificate(certificates[0].as_slice()))
}

/// The browser is asked for credentials exactly where the login is not interactive and the target
/// names no user.
pub proof fn credentials_are_asked_for(auth_mode: Seq<char>, target: RdpTarget)
    ensures
        !has_credentials(auth_mode, target) <==> auth_mode != "interactive"@
            && target.username@.len() == 0,
        interactive(auth_mode) <==> auth_mode == "interactive"@,
{
}

/// A bridged session ends with its frames or its browser, and in no other case; frames go to the
/// browser as they are, signs of life go back as they came, and what a command stands for goes to
/// the host.
pub proof fn bridges_pass_on_what_they_hear(event: BridgeEvent)
    ensures
        bridge_of(event) is End <==> event is FramesEnded || event is Closed,
        event is Frame ==> bridge_of(event) is Send && bridge_of(event)->Send_0 == event->Frame_0,
        event is Ping ==> bridge_of(event) is Pong && bridge_of(event)->Pong_0 == event->Ping_0,
        bridge_of(event) is Send <==> event is Frame,
        bridge_of(event) is KeepAlive <==> event is Tick,
        event is Other ==> bridge_of(event) is Ignore,
        event is Text && event->Text_0 is Some && session_input_of(event->Text_0->0) is Some
            ==> bridge_of(event) is Input && bridge_of(event)->Input_0 == session_input_of(
            event->Text_0->0,
        )->0,
        bridge_of(event) is Input ==> event is Text && event->Text_0 is Some && session_input_of(
            event->Text_0->0,
        ) is Some,
{
}

/// A notice says of what type it is, and what belongs to that type: the size of the desktop with
/// its width and its height, and the way of logging in; or why the host could not be reached.
pub proof fn notices_say_what_they_are(width: u16, height: u16, auth_mode: String, reason: String)
    ensures
        notice_members(Notice::Connected { width, height, auth_mode }) == seq![
            ("auth_mode"@, json_string(auth_mode@)),
            ("height"@, decimal(height as nat)),
            ("type"@, json_string("rdp_connected"@)),
            ("width"@, decimal(width as nat)),
        ],
        notice_members(Notice::HandshakeFailed { reason }).contains(
            ("message"@, json_string("RDP handshake failed: "@ + reason@)),
        ),
        notice_members(Notice::HandshakeFailed { reason }).last() == (
            "type"@,
            json_string("error"@),
        ),
        notice_members(Notice::AuthRequired).last() == ("type"@, json_string("auth_required"@)),
        notice_members(Notice::AuthRequired)[0] == ("auth_mode"@, json_string("nla"@)),
        notice_members(Notice::Connecting).last() == ("type"@, json_string("rdp_connecting"@)),
{
    let failed = notice_members(Notice::HandshakeFailed { reason });
    assert(failed[0] == ("message"@, json_string("RDP handshake failed: "@ + reason@)));
}

} // verus!
