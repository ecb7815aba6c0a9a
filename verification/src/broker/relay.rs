//! The signalling relay: what a peer's connection does with what it hears.

use crate::text::same;
use vstd::prelude::*;

verus! {

/// The time between two signs of life, in seconds.
pub const KEEP_ALIVE_SECS: u64 = 20;

/// The messages that a room holds for a peer that is slow.
pub const ROOM_CAPACITY: usize = 256;

/// What a sign of life carries.
pub open spec fn keep_alive_bytes() -> Seq<u8> {
    seq![0x6Bu8, 0x61u8]
}

/// What a sign of life carries.
pub fn keep_alive() -> (r: Vec<u8>)
    ensures
        r@ == keep_alive_bytes(),
{
    let mut out: Vec<u8> = Vec::new();
    out.push(0x6B);
    out.push(0x61);
    assert(out@ =~= keep_alive_bytes());
    out
}

/// What a connection hears, from its peer, from the room or from the clock.
#[derive(Debug)]
pub enum PeerEvent {
    /// The peer sends a text.
    Text(String),
    /// The peer asks for a sign of life.
    Ping(Vec<u8>),
    /// The peer sends something else that is not acted on.
    Other,
    /// The peer closes the connection, or it ends.
    Closed,
    /// The connection fails.
    Failed,
    /// The room passes on a message.
    Relayed { from: String, text: String },
    /// The peer was too slow to hear everything.
    Lagged,
    /// The room is gone.
    RoomGone,
    /// It is time for a sign of life.
    Tick,
}

/// What a connection does.
#[derive(Debug)]
pub enum PeerAction {
    /// Pass the text on to the room.
    Broadcast(String),
    /// Give a sign of life.
    Pong(Vec<u8>),
    /// Send the text to the peer.
    Send(String),
    /// Ask for a sign of life.
    KeepAlive,
    /// Do nothing.
    Ignore,
    /// End the connection.
    Leave,
}

/// What the connection of the peer `me` does with what it hears.
pub open spec fn relay_of(me: Seq<char>, event: PeerEvent) -> PeerAction {
    match event {
        PeerEvent::Text(text) => PeerAction::Broadcast(text),
        PeerEvent::Ping(data) => PeerAction::Pong(data),
        PeerEvent::Other => PeerAction::Ignore,
        PeerEvent::Closed => PeerAction::Leave,
        PeerEvent::Failed => PeerAction::Leave,
        PeerEvent::Relayed { from, text } => if from@ == me {
            PeerAction::Ignore
        } else {
            PeerAction::Send(text)
        },
        PeerEvent::Lagged => PeerAction::Leave,
        PeerEvent::RoomGone => PeerAction::Leave,
        PeerEvent::Tick => PeerAction::KeepAlive,
    }
}

/// Says what the connection of the peer `me` does with what it hears.
pub fn relay(me: &str, event: PeerEvent) -> (r: PeerAction)
    ensures
        r == relay_of(me@, event),
{
    match event {
        PeerEvent::Text(text) => PeerAction::Broadcast(text),
        PeerEvent::Ping(data) => PeerAction::Pong(data),
        PeerEvent::Other => PeerAction::Ignore,
        PeerEvent::Closed => PeerAction::Leave,
        PeerEvent::Failed => PeerAction::Leave,
        PeerEvent::Relayed { from, text } => {
            if same(from.as_str(), me) {
                PeerAction::Ignore
            } else {
                PeerAction::Send(text)
            }
        },
        PeerEvent::Lagged => PeerAction::Leave,
        PeerEvent::RoomGone => PeerAction::Leave,
        PeerEvent::Tick => PeerAction::KeepAlive,
    }
}

/// Says whether the connection ends when the action cannot be carried out. A sign of life that
/// could not be given is let go, and so is a text that nobody in the room hears.
pub fn ends_if_not_done(action: &PeerAction) -> (r: bool)
    ensures
        r == (action is Send || action is KeepAlive || action is Leave),
{
    match action {
        PeerAction::Send(_) => true,
        PeerAction::KeepAlive => true,
        PeerAction::Leave => true,
        _ => false,
    }
}

/// What one peer says reaches every other peer as it was said, and does not come back to the one
/// that said it.
pub proof fn texts_reach_the_others(
    speaker: String,
    listener: Seq<char>,
    text: String,
)
    ensures
        relay_of(speaker@, PeerEvent::Text(text)) == PeerAction::Broadcast(text),
        relay_of(listener, PeerEvent::Relayed { from: speaker, text }) == (if speaker@
            == listener {
            PeerAction::Ignore
        } else {
            PeerAction::Send(text)
        }),
{
}

/// The name under which the broker itself speaks in a room.
pub open spec fn broker_name() -> Seq<char> {
    "broker"@
}

/// The message that tells a room that a peer in the given role has joined.
pub open spec fn joined_text(role: Seq<char>) -> Seq<char> {
    "{\"type\":\"peer_joined\",\"role\":\""@ + role + "\"}"@
}

/// The message that tells a room that a peer has joined, and who says so.
pub fn peer_joined(role: &str) -> (r: (String, String))
    ensures
        r.0@ == broker_name(),
        r.1@ == joined_text(role@),
{
    let mut text: String = "{\"type\":\"peer_joined\",\"role\":\"".to_owned();
    text.append(role);
    text.append("\"}");
    ("broker".to_owned(), text)
}

/// A connection ends where the peer or the room is gone, the line fails or the peer is too slow,
/// and in no other case; it gives back what it is asked for a sign of life with.
pub proof fn connections_end_with_their_peers(me: Seq<char>, event: PeerEvent)
    ensures
        relay_of(me, event) is Leave <==> event is Closed || event is Failed || event is Lagged
            || event is RoomGone,
        event is Ping ==> relay_of(me, event) is Pong && relay_of(me, event)->Pong_0
            == event->Ping_0,
        relay_of(me, event) is KeepAlive <==> event is Tick,
        relay_of(me, event) is Broadcast <==> event is Text,
        relay_of(me, event) is Send <==> event is Relayed && event->from@ != me,
        event is Other ==> relay_of(me, event) is Ignore,
        keep_alive_bytes() == seq![107u8, 97u8],
        KEEP_ALIVE_SECS == 20,
        ROOM_CAPACITY == 256,
{
}

/// The notice that a peer has joined is spoken by the broker and names the role between its last
/// pair of quotes, as it is.
pub proof fn notices_name_the_role(role: Seq<char>)
    ensures
        broker_name() == seq!['b', 'r', 'o', 'k', 'e', 'r'],
        joined_text(role).len() == 32 + role.len(),
        joined_text(role).subrange(30, (30 + role.len()) as int) == role,
        joined_text(role)[29] == '"' && joined_text(role)[(30 + role.len()) as int] == '"',
{
    reveal_strlit("broker");
    reveal_strlit("{\"type\":\"peer_joined\",\"role\":\"");
    reveal_strlit("\"}");
    assert("broker"@ =~= seq!['b', 'r', 'o', 'k', 'e', 'r']);
    assert(joined_text(role).subrange(30, (30 + role.len()) as int) =~= role);
}

} // verus!
