//! A session with the broker: the token, what is encoded, what is sent, and when to connect again.

use crate::daemon::annexb::{level_for, level_idc};
use crate::daemon::config::DaemonConfig;
use crate::daemon::encode_loop::{rate_of, EncodedFrame};
use crate::daemon::encoder::EncoderConfig;
use crate::daemon::resize::{requested_of, stored_of, target_of, ResizeState};
use crate::json::{
    json_string, json_strings_are_delimited, members_text, number_member, pairs, scalar,
    text_member, write_object, Member,
};
use crate::jwt::{
    agent_claims, agent_members, claim_members, claims_text, sign_claims, signed_token,
    token_claims,
};
use crate::text::{append_hex2, decimal, decimal_spells_the_number, hex2};
use crate::time::{elapsed, since};
use vstd::prelude::*;

verus! {

/// How long a token is valid, in seconds: a week.
pub const TOKEN_LIFETIME_SECS: u64 = 604_800;

proof fn agent_claims_are_claims(subject: Seq<char>, room: Seq<char>, exp: nat)
    requires
        exp <= u64::MAX,
    ensures
        claims_text(agent_claims(subject, room, exp)),
{
    let m = agent_members(subject, room, exp);
    reveal_strlit("sub");
    reveal_strlit("role");
    reveal_strlit("room");
    reveal_strlit("exp");
    assert(m[0].0.len() == 3 && m[1].0.len() == 4 && m[2].0.len() == 4 && m[3].0.len() == 3);
    assert(m[0].0[0] == 's' && m[3].0[0] == 'e');
    assert(m[1].0[1] == 'o' && m[1].0[2] == 'l' && m[2].0[2] == 'o');
    assert(scalar(m[0].1) && scalar(m[1].1) && scalar(m[2].1) && scalar(m[3].1));
    assert forall|i: int| 0 <= i < m.len() implies scalar(#[trigger] m[i].1) by {
        assert(i == 0 || i == 1 || i == 2 || i == 3);
    }
    assert(m[3] == ("exp"@, decimal(exp)));
    assert(claim_members(m));
}

/// The claims of an agent as one run of text.
proof fn agent_claims_spelled(subject: Seq<char>, room: Seq<char>, exp: nat)
    ensures
        agent_claims(subject, room, exp) == seq!['{'] + json_string("sub"@) + seq![':'] + (
        json_string(subject) + (seq![','] + json_string("role"@) + seq![':'] + json_string(
            "agent"@,
        ) + seq![','] + json_string("room"@) + seq![':'] + (json_string(room) + (seq![',']
            + json_string("exp"@) + seq![':'] + decimal(exp) + seq!['}'])))),
{
    let m = agent_members(subject, room, exp);
    let m3 = m.drop_last();
    let m2 = m3.drop_last();
    let m1 = m2.drop_last();
    assert(m.last() == m[3] && m3.last() == m[2] && m2.last() == m[1] && m1.last() == m[0]);
    assert(members_text(m1) == Seq::<char>::empty() + json_string("sub"@) + seq![':']
        + json_string(subject));
    assert(members_text(m2) == members_text(m1).push(',') + json_string("role"@) + seq![':']
        + json_string("agent"@));
    assert(members_text(m3) == members_text(m2).push(',') + json_string("room"@) + seq![':']
        + json_string(room));
    assert(members_text(m) == members_text(m3).push(',') + json_string("exp"@) + seq![':']
        + decimal(exp));
    assert(agent_claims(subject, room, exp) =~= seq!['{'] + json_string("sub"@) + seq![':'] + (
    json_string(subject) + (seq![','] + json_string("role"@) + seq![':'] + json_string("agent"@)
        + seq![','] + json_string("room"@) + seq![':'] + (json_string(room) + (seq![',']
        + json_string("exp"@) + seq![':'] + decimal(exp) + seq!['}'])))));
}

/// What is signed tells agents, rooms and times of expiry apart: the claims are the same only
/// where all three are.
pub proof fn claims_tell_agents_apart(
    subject: Seq<char>,
    room: Seq<char>,
    exp: nat,
    subject2: Seq<char>,
    room2: Seq<char>,
    exp2: nat,
)
    requires
        agent_claims(subject, room, exp) == agent_claims(subject2, room2, exp2),
    ensures
        subject == subject2,
        room == room2,
        exp == exp2,
{
    agent_claims_spelled(subject, room, exp);
    agent_claims_spelled(subject2, room2, exp2);
    let front = seq!['{'] + json_string("sub"@) + seq![':'];
    let middle = seq![','] + json_string("role"@) + seq![':'] + json_string("agent"@) + seq![',']
        + json_string("room"@) + seq![':'];
    let back = seq![','] + json_string("exp"@) + seq![':'];
    let end = back + decimal(exp) + seq!['}'];
    let end2 = back + decimal(exp2) + seq!['}'];
    let all = agent_claims(subject, room, exp);
    let after_front = json_string(subject) + (middle + (json_string(room) + end));
    let after_front2 = json_string(subject2) + (middle + (json_string(room2) + end2));
    assert(after_front =~= all.subrange(front.len() as int, all.len() as int));
    assert(after_front2 =~= all.subrange(front.len() as int, all.len() as int));
    json_strings_are_delimited(
        subject,
        subject2,
        middle + (json_string(room) + end),
        middle + (json_string(room2) + end2),
    );
    let rest = middle + (json_string(room) + end);
    assert(json_string(room) + end =~= rest.subrange(middle.len() as int, rest.len() as int));
    assert(json_string(room2) + end2 =~= rest.subrange(middle.len() as int, rest.len() as int));
    json_strings_are_delimited(room, room2, end, end2);
    assert(decimal(exp) =~= end.subrange(back.len() as int, end.len() - 1));
    assert(decimal(exp2) =~= end.subrange(back.len() as int, end.len() - 1));
    decimal_spells_the_number(exp);
    decimal_spells_the_number(exp2);
}

/// Makes the token that the agent shows to the broker, valid for a week from now. What is read
/// back of it under the same secret is the agent's claims.
pub fn mint_jwt(config: &DaemonConfig, now_secs: u64) -> (r: Option<String>)
    requires
        now_secs + TOKEN_LIFETIME_SECS <= u64::MAX,
    ensures
        r is Some,
        ({
            let claims = agent_claims(
                config.subject@,
                config.room@,
                (now_secs + TOKEN_LIFETIME_SECS) as nat,
            );
            &&& r->0@ == signed_token(claims, config.jwt_secret@)
            &&& token_claims(r->0@, config.jwt_secret@) == Some(claims)
        }),
{
    let exp: u64 = now_secs + TOKEN_LIFETIME_SECS;
    let mut members: Vec<Member> = Vec::new();
    members.push(text_member("sub", config.subject.as_str()));
    members.push(text_member("role", "agent"));
    members.push(text_member("room", config.room.as_str()));
    members.push(number_member("exp", exp));
    assert(pairs(members@) =~= agent_members(config.subject@, config.room@, exp as nat));
    let claims: String = write_object(&members);
    proof {
        agent_claims_are_claims(config.subject@, config.room@, exp as nat);
    }
    sign_claims(claims.as_str(), config.jwt_secret.as_str())
}

/// The address that the agent connects to.
pub open spec fn ws_url_of(broker: Seq<char>, room: Seq<char>, token: Seq<char>) -> Seq<char> {
    broker + "/ws/"@ + room + "?token="@ + token
}

/// Puts together the address that the agent connects to.
pub fn ws_url(config: &DaemonConfig, token: &str) -> (r: String)
    ensures
        r@ == ws_url_of(config.broker_url@, config.room@, token@),
{
    let mut url: String = config.broker_url.as_str().to_owned();
    url.append("/ws/");
    url.append(config.room.as_str());
    url.append("?token=");
    url.append(token);
    url
}

/// Says whether the daemon is to stop: the flag is there, and it is set.
pub fn should_shutdown(flag: Option<bool>) -> (r: bool)
    ensures
        r == (flag == Some(true)),
{
    match flag {
        Some(set) => set,
        None => false,
    }
}

/// The bit rate for pictures of the given number of pixels that do not move much.
pub open spec fn base_kbps(pixels: int) -> u32 {
    if pixels >= 1920 * 1080 {
        4000
    } else if pixels >= 1280 * 720 {
        2800
    } else if pixels >= 960 * 540 {
        1800
    } else {
        1200
    }
}

/// What a frame rate adds to the bit rate.
pub open spec fn motion_kbps(fps: u32) -> u32 {
    if fps >= 60 {
        1400
    } else if fps >= 30 {
        700
    } else {
        0
    }
}

/// The bit rate that goes with a picture size and a frame rate.
pub open spec fn recommended_of(width: u32, height: u32, fps: u32) -> u32 {
    (base_kbps(width as int * height as int) + motion_kbps(fps)) as u32
}

/// The bit rate that goes with a picture size and a frame rate.
pub fn recommended_bitrate_kbps(width: u32, height: u32, fps: u32) -> (r: u32)
    ensures
        r == recommended_of(width, height, fps),
{
    assert(0 <= width as int * height as int <= 0xFFFF_FFFF * 0xFFFF_FFFF) by (nonlinear_arith)
        requires
            0 <= width <= 0xFFFF_FFFF,
            0 <= height <= 0xFFFF_FFFF,
    ;
    let pixels: u64 = width as u64 * height as u64;
    let boost: u32 = if fps >= 60 {
        1400
    } else if fps >= 30 {
        700
    } else {
        0
    };
    let base: u32 = if pixels >= 2_073_600 {
        4000
    } else if pixels >= 921_600 {
        2800
    } else if pixels >= 518_400 {
        1800
    } else {
        1200
    };
    base + boost
}

/// A larger picture or a higher frame rate is never given a lower bit rate.
pub proof fn bitrate_grows_with_the_picture(w: u32, h: u32, fps: u32, w2: u32, h2: u32, fps2: u32)
    requires
        w <= w2,
        h <= h2,
        fps <= fps2,
    ensures
        recommended_of(w, h, fps) <= recommended_of(w2, h2, fps2),
        1200 <= recommended_of(w, h, fps) <= 5400,
{
    assert(w as int * h as int <= w2 as int * h2 as int) by (nonlinear_arith)
        requires
            0 <= w <= w2,
            0 <= h <= h2,
    ;
}

/// What a session encodes, and how it says so.
#[derive(Debug)]
pub struct SessionPlan {
    pub resize: ResizeState,
    pub encoder: EncoderConfig,
    pub fmtp: String,
}

/// The format parameters of the video: constrained baseline, at the given level.
pub open spec fn fmtp_text(level: u8) -> Seq<char> {
    "level-asymmetry-allowed=1;packetization-mode=1;profile-level-id=42e0"@ + hex2(level)
}

/// The larger of two numbers.
pub open spec fn larger(a: u32, b: u32) -> u32 {
    if a < b {
        b
    } else {
        a
    }
}

/// Works out what a session encodes for a screen of the given size: the picture size, the bit
/// rate, which is never less than recommended, and the level.
pub fn plan_session(config: &DaemonConfig, real_w: u32, real_h: u32, capped_h: u32) -> (r:
    SessionPlan)
    ensures
        r.resize.wanted_width() == requested_of(stored_of(config.width)),
        r.resize.wanted_height() == requested_of(stored_of(config.height)),
        ({
            let size = target_of(
                real_w,
                real_h,
                requested_of(stored_of(config.width)),
                requested_of(stored_of(config.height)),
                capped_h,
            );
            &&& r.encoder == (EncoderConfig {
                width: size.0,
                height: size.1,
                fps: config.fps,
                bitrate_kbps: larger(
                    config.bitrate_kbps,
                    recommended_of(size.0, size.1, config.fps),
                ),
            })
            &&& r.fmtp@ == fmtp_text(level_for(larger(real_w, size.0), config.fps))
        }),
{
    let resize: ResizeState = ResizeState::new(config.width, config.height);
    let size: (u32, u32) = resize.target_size(real_w, real_h, capped_h);
    let profile_w: u32 = if real_w < size.0 {
        size.0
    } else {
        real_w
    };
    let mut fmtp: String =
        "level-asymmetry-allowed=1;packetization-mode=1;profile-level-id=42e0".to_owned();
    append_hex2(&mut fmtp, level_idc(profile_w, config.fps));
    let recommended: u32 = recommended_bitrate_kbps(size.0, size.1, config.fps);
    let bitrate_kbps: u32 = if config.bitrate_kbps < recommended {
        recommended
    } else {
        config.bitrate_kbps
    };
    SessionPlan {
        resize,
        encoder: EncoderConfig { width: size.0, height: size.1, fps: config.fps, bitrate_kbps },
        fmtp,
    }
}

/// How long to wait for a message before the flags are looked at again, in milliseconds.
pub const MESSAGE_WAIT_MS: u64 = 500;

/// What came of waiting for a message.
#[derive(Clone, Copy, Debug, PartialEq, Eq, Structural)]
pub enum WsOutcome {
    Message,
    Failed,
    Ended,
    TimedOut,
}

/// What to do next.
#[derive(Clone, Copy, Debug, PartialEq, Eq, Structural)]
pub enum WsStep {
    /// Wait for a message.
    Wait,
    /// Hand the message on.
    Deliver,
    /// Hand the error on.
    Fail,
    /// There are no more messages.
    End,
}

/// Says what to do next, before anything was waited for or after. A session or a daemon that is
/// to stop waits for nothing; what was already heard is still handed on.
pub fn next_ws_message(outcome: Option<WsOutcome>, stop: bool, shutdown: bool) -> (r: WsStep)
    ensures
        r == (match outcome {
            Some(WsOutcome::Message) => WsStep::Deliver,
            Some(WsOutcome::Failed) => WsStep::Fail,
            Some(WsOutcome::Ended) => WsStep::End,
            _ => if stop || shutdown {
                WsStep::End
            } else {
                WsStep::Wait
            },
        }),
{
    match outcome {
        Some(WsOutcome::Message) => WsStep::Deliver,
        Some(WsOutcome::Failed) => WsStep::Fail,
        Some(WsOutcome::Ended) => WsStep::End,
        _ => {
            if stop || shutdown {
                WsStep::End
            } else {
                WsStep::Wait
            }
        },
    }
}

/// The first wait before connecting again, in seconds.
pub const FIRST_BACKOFF: u64 = 2;

/// The longest wait before connecting again, in seconds.
pub const LONGEST_BACKOFF: u64 = 60;

/// How long a service waits after a session that failed, in seconds.
pub const SERVICE_RETRY_SECS: u64 = 4;

/// How a session came to its end.
#[derive(Clone, Copy, Debug, PartialEq, Eq, Structural)]
pub enum SessionEnd {
    /// It ended as it should.
    Clean,
    /// It failed, or never came about.
    Failed,
}

/// What to do between two sessions.
#[derive(Clone, Copy, Debug, PartialEq, Eq, Structural)]
pub enum Reconnect {
    /// Connect at once.
    Now,
    /// Wait, and then connect.
    After { secs: u64 },
    /// Stop.
    Quit,
}

/// How long to wait before connecting again.
#[derive(Clone, Copy, Debug, PartialEq, Eq, Structural)]
pub struct Backoff {
    pub secs: u64,
}

impl Backoff {
    /// The wait is within its limits.
    pub open spec fn wf(self) -> bool {
        FIRST_BACKOFF <= self.secs <= LONGEST_BACKOFF
    }

    /// The wait that comes after this one.
    pub open spec fn doubled(self) -> Backoff {
        Backoff {
            secs: if self.secs * 2 < LONGEST_BACKOFF {
                (self.secs * 2) as u64
            } else {
                LONGEST_BACKOFF
            },
        }
    }

    /// The wait of a daemon that has just begun.
    pub fn new() -> (r: Backoff)
        ensures
            r.wf(),
            r == (Backoff { secs: FIRST_BACKOFF }),
    {
        Backoff { secs: FIRST_BACKOFF }
    }

    /// Takes the end of a session, and says what to do. After a clean end the daemon connects at
    /// once, and the waits begin anew.
    pub fn on_session_end(&mut self, end: SessionEnd, shutdown: bool) -> (r: Reconnect)
        requires
            old(self).wf(),
        ensures
            final(self).wf(),
            end == SessionEnd::Clean ==> r == Reconnect::Now && *final(self) == (Backoff {
                secs: FIRST_BACKOFF,
            }),
            end == SessionEnd::Failed && shutdown ==> r == Reconnect::Quit && *final(self) == *old(
                self,
            ),
            end == SessionEnd::Failed && !shutdown ==> r == (Reconnect::After {
                secs: old(self).secs,
            }) && *final(self) == old(self).doubled(),
    {
        match end {
            SessionEnd::Clean => {
                self.secs = FIRST_BACKOFF;
                Reconnect::Now
            },
            SessionEnd::Failed => {
                if shutdown {
                    return Reconnect::Quit;
                }
                let secs: u64 = self.secs;
                self.secs = if secs * 2 < LONGEST_BACKOFF {
                    secs * 2
                } else {
                    LONGEST_BACKOFF
                };
                Reconnect::After { secs }
            },
        }
    }
}

/// What a daemon does before it connects, the first time or any other.
pub fn before_session(shutdown: bool) -> (r: Reconnect)
    ensures
        r == (if shutdown {
            Reconnect::Quit
        } else {
            Reconnect::Now
        }),
{
    if shutdown {
        Reconnect::Quit
    } else {
        Reconnect::Now
    }
}

/// What a service does next, with how its last session ended, if one ended since it last waited.
/// After a failure it waits, even where it is then to stop.
pub fn next_service_step(last: Option<SessionEnd>, shutdown: bool) -> (r: Reconnect)
    ensures
        r == (if last == Some(SessionEnd::Failed) {
            Reconnect::After { secs: SERVICE_RETRY_SECS }
        } else if shutdown {
            Reconnect::Quit
        } else {
            Reconnect::Now
        }),
{
    match last {
        Some(SessionEnd::Failed) => Reconnect::After { secs: SERVICE_RETRY_SECS },
        _ => before_session(shutdown),
    }
}

/// The wait after so many failures in a row.
pub open spec fn backoff_after(failures: nat) -> Backoff
    decreases failures,
{
    if failures == 0 {
        Backoff { secs: FIRST_BACKOFF }
    } else {
        backoff_after((failures - 1) as nat).doubled()
    }
}

/// The waits never get shorter from one failure to the next, are never longer than a minute, and
/// are a minute from the sixth on.
pub proof fn waits_grow_up_to_a_minute(failures: nat)
    ensures
        backoff_after(failures).wf(),
        backoff_after(failures).secs <= backoff_after(failures + 1).secs,
        failures >= 5 ==> backoff_after(failures).secs == LONGEST_BACKOFF,
    decreases failures,
{
    if failures > 0 {
        waits_grow_up_to_a_minute((failures - 1) as nat);
        if failures == 5 {
            assert(backoff_after(0).secs == 2);
            assert(backoff_after(1).secs == 4);
            assert(backoff_after(2).secs == 8);
            assert(backoff_after(3).secs == 16);
            assert(backoff_after(4).secs == 32);
        }
    }
}

/// The oldest frame that is still sent, in nanoseconds.
pub const MAX_SEND_AGE: u64 = 180_000_000;

/// The frames that wait to be sent.
pub const FRAMES_WAITING: usize = 2;

/// The captured pictures that wait to be encoded.
pub const PICTURES_WAITING: usize = 4;

/// The shortest duration of a frame that is sent, in milliseconds.
pub open spec fn least_duration(fps: u32) -> u64 {
    (1000int / rate_of(fps)) as u64
}

/// The frame to send of those that wait, which is the last one, with its duration in
/// milliseconds. One that is too old is not sent.
pub fn frame_to_send(waiting: Vec<EncodedFrame>, fps: u32, now: u64) -> (r: Option<(Vec<u8>, u64)>)
    ensures
        r == (if waiting@.len() == 0 || elapsed(waiting@.last().captured_at, now) > MAX_SEND_AGE {
            None
        } else {
            Some(
                (
                    waiting@.last().data,
                    if waiting@.last().duration_ms < least_duration(fps) {
                        least_duration(fps)
                    } else {
                        waiting@.last().duration_ms
                    },
                ),
            )
        }),
{
    let mut waiting = waiting;
    let latest: EncodedFrame = match waiting.pop() {
        Some(frame) => frame,
        None => {
            return None;
        },
    };
    if since(latest.captured_at, now) > MAX_SEND_AGE {
        return None;
    }
    let rate: u32 = if fps == 0 {
        1
    } else {
        fps
    };
    let least: u64 = (1000 / rate) as u64;
    let duration_ms: u64 = if latest.duration_ms < least {
        least
    } else {
        latest.duration_ms
    };
    Some((latest.data, duration_ms))
}

/// The bit rate goes up in steps: a full HD picture, an HD picture and one of 960 by 540 begin the
/// upper three, and 30 and 60 frames a second add 700 and 1400.
pub proof fn bitrates_go_up_in_steps(width: u32, height: u32, fps: u32)
    ensures
        ({
            let pixels = width as int * height as int;
            let still = recommended_of(width, height, 0);
            &&& still == 1200 || still == 1800 || still == 2800 || still == 4000
            &&& still >= 1800 <==> pixels >= 518_400
            &&& still >= 2800 <==> pixels >= 921_600
            &&& still >= 4000 <==> pixels >= 2_073_600
            &&& fps < 30 ==> recommended_of(width, height, fps) == still
            &&& 30 <= fps < 60 ==> recommended_of(width, height, fps) == still + 700
            &&& fps >= 60 ==> recommended_of(width, height, fps) == still + 1400
        }),
{
}

/// A session asks for no less than is recommended, and for no less than is configured.
pub proof fn the_larger_is_one_of_two(a: u32, b: u32)
    ensures
        larger(a, b) >= a,
        larger(a, b) >= b,
        larger(a, b) == a || larger(a, b) == b,
{
}

/// The format parameters end with the constrained baseline profile, which is 42 and then e0, and the
/// level in two digits; before that they say how the stream is cut into packets.
pub proof fn format_parameters_name_the_level(level: u8)
    ensures
        ({
            let text = fmtp_text(level);
            let n = text.len() as int;
            &&& n == 70
            &&& text.subrange(0, 64)
                == "level-asymmetry-allowed=1;packetization-mode=1;profile-level-id="@
            &&& text.subrange(64, 68) == seq!['4', '2', 'e', '0']
            &&& text.subrange(68, 70) == hex2(level)
        }),
{
    reveal_strlit("level-asymmetry-allowed=1;packetization-mode=1;profile-level-id=42e0");
    reveal_strlit("level-asymmetry-allowed=1;packetization-mode=1;profile-level-id=");
    let text = fmtp_text(level);
    assert(text.subrange(0, 64)
        =~= "level-asymmetry-allowed=1;packetization-mode=1;profile-level-id="@);
    assert(text.subrange(64, 68) =~= seq!['4', '2', 'e', '0']);
    assert(text.subrange(68, 70) =~= hex2(level));
}

/// The waits begin with two seconds, and each is twice as long as the one before, or a minute where
/// that is less.
pub proof fn waits_double_up_to_a_minute(failures: nat)
    ensures
        backoff_after(0).secs == 2,
        backoff_after(failures).secs <= 30 ==> backoff_after(failures + 1).secs == 2
            * backoff_after(failures).secs,
        backoff_after(failures).secs > 30 ==> backoff_after(failures + 1).secs == 60,
        FIRST_BACKOFF == 2,
        LONGEST_BACKOFF == 60,
        SERVICE_RETRY_SECS == 4,
{
    waits_grow_up_to_a_minute(failures);
}

/// A token is made for seven days, a frame is sent up to 180 milliseconds after it was captured, and
/// for no shorter than the time that a frame has at the frame rate.
pub proof fn times_of_a_session(fps: u32)
    requires
        fps > 0,
    ensures
        TOKEN_LIFETIME_SECS == 7 * 24 * 60 * 60,
        MAX_SEND_AGE == 180 * 1_000_000,
        fps * least_duration(fps) <= 1000 < fps * (least_duration(fps) + 1),
        least_duration(0) == 1000,
        FRAMES_WAITING == 2,
        PICTURES_WAITING == 4,
        MESSAGE_WAIT_MS == 500,
{
    let n = fps as int;
    let ms = 1000int / n;
    vstd::arithmetic::div_mod::lemma_fundamental_div_mod(1000, n);
    assert(0 <= ms <= 1000) by (nonlinear_arith)
        requires
            n > 0,
            ms == 1000int / n,
    ;
    assert(n * (ms + 1) == n * ms + n) by (nonlinear_arith);
}

/// The agent connects to the broker's address, to the path of its room below "ws", and shows its
/// token as the query.
pub proof fn addresses_name_the_room_and_the_token(
    broker: Seq<char>,
    room: Seq<char>,
    token: Seq<char>,
)
    ensures
        ws_url_of(broker, room, token) == broker + seq!['/', 'w', 's', '/'] + room + seq![
            '?',
            't',
            'o',
            'k',
            'e',
            'n',
            '=',
        ] + token,
{
    reveal_strlit("/ws/");
    reveal_strlit("?token=");
    assert("/ws/"@ =~= seq!['/', 'w', 's', '/']);
    assert("?token="@ =~= seq!['?', 't', 'o', 'k', 'e', 'n', '=']);
}

} // verus!
