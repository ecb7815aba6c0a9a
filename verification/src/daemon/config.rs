//! The daemon's configuration: environment and command line.

use crate::text::{parse_u32, same, string_or, text_or, u32_of, views};
use vstd::prelude::*;

verus! {

/// What a daemon works with.
#[derive(Debug)]
pub struct DaemonConfig {
    pub jwt_secret: String,
    pub broker_url: String,
    pub room: String,
    pub subject: String,
    pub fps: u32,
    pub bitrate_kbps: u32,
    pub width: Option<u32>,
    pub height: Option<u32>,
}

/// The values of the environment variables that are looked at, as far as they are set.
#[derive(Debug)]
pub struct Environment {
    pub jwt_secret: Option<String>,
    pub broker_ws_url: Option<String>,
    pub agent_room: Option<String>,
    pub agent_subject: Option<String>,
    pub capture_fps: Option<String>,
    pub initial_bitrate_kbps: Option<String>,
    pub capture_width: Option<String>,
    pub capture_height: Option<String>,
}

/// The frame rate where none is given.
pub const DEFAULT_FPS: u32 = 30;

/// The bit rate where none is given.
pub const DEFAULT_BITRATE_KBPS: u32 = 3000;

/// The place of the first argument with the given text, or the number of arguments where there
/// is none.
pub open spec fn place_of(args: Seq<Seq<char>>, name: Seq<char>, from: int) -> int
    decreases args.len() - from,
{
    if from >= args.len() {
        args.len() as int
    } else if args[from] == name {
        from
    } else {
        place_of(args, name, from + 1)
    }
}

/// The number behind the first argument with the given text, where one stands there.
pub open spec fn flag_number(args: Seq<Seq<char>>, name: Seq<char>) -> Option<u32> {
    let at = place_of(args, name, 0);
    if at + 1 < args.len() {
        u32_of(args[at + 1])
    } else {
        None
    }
}

/// The number that a variable holds, where it is set and holds one.
pub open spec fn variable_number(value: Option<String>) -> Option<u32> {
    match value {
        Some(text) => u32_of(text@),
        None => None,
    }
}

/// The first of two values that is there.
pub open spec fn either(first: Option<u32>, second: Option<u32>) -> Option<u32> {
    match first {
        Some(v) => Some(v),
        None => second,
    }
}

fn find_flag(args: &Vec<String>, name: &str) -> (r: Option<u32>)
    ensures
        r == flag_number(views(args@), name@),
{
    let ghost all = views(args@);
    let mut i: usize = 0;
    while i < args.len()
        invariant
            i <= args@.len(),
            all == views(args@),
            place_of(all, name@, 0) == place_of(all, name@, i as int),
        decreases args@.len() - i,
    {
        if same(args[i].as_str(), name) {
            assert(all[i as int] == name@);
            if i < args.len() - 1 {
                return parse_u32(args[i + 1].as_str());
            }
            return None;
        }
        assert(all[i as int] != name@);
        i = i + 1;
    }
    None
}

fn read_variable(value: &Option<String>) -> (r: Option<u32>)
    ensures
        r == variable_number(*value),
{
    match value {
        Some(text) => parse_u32(text.as_str()),
        None => None,
    }
}

fn choose_first(first: Option<u32>, second: Option<u32>) -> (r: Option<u32>)
    ensures
        r == either(first, second),
{
    match first {
        Some(v) => Some(v),
        None => second,
    }
}

fn number_or(value: Option<u32>, default: u32) -> (r: u32)
    ensures
        r == (match value {
            Some(v) => v,
            None => default,
        }),
{
    match value {
        Some(v) => v,
        None => default,
    }
}

/// Puts the configuration together. The secret must be set; for the frame rate, the width and
/// the height the command line comes before the environment; what is not given has a default,
/// and a text that is no number counts as not given.
pub fn load_config(env: Environment, args: &Vec<String>) -> (r: Option<DaemonConfig>)
    ensures
        r is Some <==> env.jwt_secret is Some,
        r is Some ==> ({
            let c = r->0;
            let a = views(args@);
            &&& c.jwt_secret@ == env.jwt_secret->0@
            &&& c.broker_url@ == text_or(env.broker_ws_url, "ws://127.0.0.1:5695"@)
            &&& c.room@ == text_or(env.agent_room, "room-001"@)
            &&& c.subject@ == text_or(env.agent_subject, "daemon-01"@)
            &&& Some(c.fps) == either(
                either(flag_number(a, "--fps"@), variable_number(env.capture_fps)),
                Some(DEFAULT_FPS),
            )
            &&& Some(c.bitrate_kbps) == either(
                variable_number(env.initial_bitrate_kbps),
                Some(DEFAULT_BITRATE_KBPS),
            )
            &&& c.width == either(flag_number(a, "--width"@), variable_number(env.capture_width))
            &&& c.height == either(flag_number(a, "--height"@), variable_number(env.capture_height))
        }),
{
    let jwt_secret: String = match env.jwt_secret {
        Some(secret) => secret,
        None => {
            return None;
        },
    };
    let fps: u32 = number_or(
        choose_first(find_flag(args, "--fps"), read_variable(&env.capture_fps)),
        DEFAULT_FPS,
    );
    let bitrate_kbps: u32 = number_or(
        read_variable(&env.initial_bitrate_kbps),
        DEFAULT_BITRATE_KBPS,
    );
    let width: Option<u32> = choose_first(
        find_flag(args, "--width"),
        read_variable(&env.capture_width),
    );
    let height: Option<u32> = choose_first(
        find_flag(args, "--height"),
        read_variable(&env.capture_height),
    );
    Some(
        DaemonConfig {
            jwt_secret,
            broker_url: string_or(env.broker_ws_url, "ws://127.0.0.1:5695"),
            room: string_or(env.agent_room, "room-001"),
            subject: string_or(env.agent_subject, "daemon-01"),
            fps,
            bitrate_kbps,
            width,
            height,
        },
    )
}

/// Says whether the daemon is to run as a service.
pub fn runs_as_service(args: &Vec<String>) -> (r: bool)
    ensures
        r == views(args@).contains("--service"@),
{
    let ghost all = views(args@);
    let mut i: usize = 0;
    while i < args.len()
        invariant
            i <= args@.len(),
            all == views(args@),
            forall|j: int| 0 <= j < i ==> all[j] != "--service"@,
        decreases args@.len() - i,
    {
        if same(args[i].as_str(), "--service") {
            assert(all[i as int] == "--service"@);
            return true;
        }
        assert(all[i as int] != "--service"@);
        i = i + 1;
    }
    false
}

/// A number on the command line is the one right behind the first argument with its name; where
/// that argument is missing or the last one, there is none.
pub proof fn numbers_stand_behind_their_names(args: Seq<Seq<char>>, name: Seq<char>, i: int)
    requires
        0 <= i <= args.len(),
        i < args.len() ==> args[i] == name,
        forall|j: int| 0 <= j < i ==> args[j] != name,
    ensures
        i + 1 < args.len() ==> flag_number(args, name) == u32_of(args[i + 1]),
        i + 1 >= args.len() ==> flag_number(args, name) is None,
{
    place_is_the_first(args, name, 0, i);
}

proof fn place_is_the_first(args: Seq<Seq<char>>, name: Seq<char>, from: int, i: int)
    requires
        0 <= from <= i <= args.len(),
        i < args.len() ==> args[i] == name,
        forall|j: int| 0 <= j < i ==> args[j] != name,
    ensures
        place_of(args, name, from) == i,
    decreases i - from,
{
    if from < i {
        place_is_the_first(args, name, from + 1, i);
    }
}

/// What comes first counts, and what comes second only where the first is missing.
pub proof fn the_first_value_counts(first: Option<u32>, second: Option<u32>)
    ensures
        first is Some ==> either(first, second) == first,
        first is None ==> either(first, second) == second,
        variable_number(None) is None,
        DEFAULT_FPS == 30,
        DEFAULT_BITRATE_KBPS == 3000,
{
}

} // verus!
