//! The rooms, the channel that each one speaks on, and how many peers are in each.

use vstd::hash_map::StringHashMap;
use vstd::prelude::*;

verus! {

/// A room: the channel that its peers share, and how many they are.
pub struct Room<C> {
    pub channel: C,
    pub peers: usize,
}

/// The rooms that have peers in them.
#[verifier::reject_recursive_types(C)]
pub struct Rooms<C> {
    channels: StringHashMap<C>,
    counts: StringHashMap<usize>,
}

impl<C> View for Rooms<C> {
    type V = Map<Seq<char>, Room<C>>;

    closed spec fn view(&self) -> Map<Seq<char>, Room<C>> {
        Map::new(
            |room: Seq<char>| self.counts@.contains_key(room),
            |room: Seq<char>| Room { channel: self.channels@[room], peers: self.counts@[room] },
        )
    }
}

/// No room is empty.
pub open spec fn no_empty_room<C>(rooms: Map<Seq<char>, Room<C>>) -> bool {
    forall|room: Seq<char>| rooms.contains_key(room) ==> (#[trigger] rooms[room]).peers > 0
}

/// The number of peers in a room.
pub open spec fn peers_in<C>(rooms: Map<Seq<char>, Room<C>>, room: Seq<char>) -> int {
    if rooms.contains_key(room) {
        rooms[room].peers as int
    } else {
        0
    }
}

/// The channel that a peer finds in a room: the one that is there, or the fresh one where the
/// room is new.
pub open spec fn channel_in<C>(rooms: Map<Seq<char>, Room<C>>, room: Seq<char>, fresh: C) -> C {
    if rooms.contains_key(room) {
        rooms[room].channel
    } else {
        fresh
    }
}

/// The rooms with one peer more in a room.
pub open spec fn joined_by_one<C>(
    rooms: Map<Seq<char>, Room<C>>,
    room: Seq<char>,
    fresh: C,
) -> Map<Seq<char>, Room<C>> {
    rooms.insert(
        room,
        Room {
            channel: channel_in(rooms, room, fresh),
            peers: (peers_in(rooms, room) + 1) as usize,
        },
    )
}

/// The rooms with one peer less in a room. A room that is left empty goes, and its channel with
/// it.
pub open spec fn left_by_one<C>(rooms: Map<Seq<char>, Room<C>>, room: Seq<char>) -> Map<
    Seq<char>,
    Room<C>,
> {
    if peers_in(rooms, room) <= 1 {
        rooms.remove(room)
    } else {
        rooms.insert(
            room,
            Room {
                channel: rooms[room].channel,
                peers: (peers_in(rooms, room) - 1) as usize,
            },
        )
    }
}

impl<C> Rooms<C> {
    /// Every room has a channel and a peer.
    pub closed spec fn well_formed(&self) -> bool {
        &&& self.channels@.dom() == self.counts@.dom()
        &&& no_empty_room(self@)
    }

    /// No rooms.
    pub fn new() -> (r: Rooms<C>)
        ensures
            r.well_formed(),
            r@ == Map::<Seq<char>, Room<C>>::empty(),
    {
        let r: Rooms<C> = Rooms { channels: StringHashMap::new(), counts: StringHashMap::new() };
        assert(r.channels@.dom() =~= r.counts@.dom());
        assert(r@ =~= Map::<Seq<char>, Room<C>>::empty());
        r
    }

    /// Lets a peer into a room, which is opened with the fresh channel where there is none. Gives
    /// the room's channel, and the number of peers that are now in it.
    pub fn join(&mut self, room: &str, fresh: C) -> (r: (&C, usize))
        requires
            old(self).well_formed(),
            peers_in(old(self)@, room@) < usize::MAX,
        ensures
            final(self).well_formed(),
            no_empty_room(final(self)@),
            final(self)@ == joined_by_one(old(self)@, room@, fresh),
            *r.0 == channel_in(old(self)@, room@, fresh),
            r.1 == peers_in(old(self)@, room@) + 1,
    {
        let before: usize = match self.counts.get(room) {
            Some(n) => *n,
            None => 0,
        };
        if before == 0 {
            self.channels.insert(room.to_owned(), fresh);
        }
        self.counts.insert(room.to_owned(), before + 1);
        assert(self.channels@.dom() =~= self.counts@.dom());
        assert(self@ =~= joined_by_one(old(self)@, room@, fresh));
        (self.channels.get(room).unwrap(), before + 1)
    }

    /// Lets a peer out of a room. Says whether the room is gone.
    pub fn leave(&mut self, room: &str) -> (r: bool)
        requires
            old(self).well_formed(),
        ensures
            final(self).well_formed(),
            no_empty_room(final(self)@),
            final(self)@ == left_by_one(old(self)@, room@),
            r == (old(self)@.contains_key(room@) && !final(self)@.contains_key(room@)),
    {
        let before: usize = match self.counts.get(room) {
            Some(n) => *n,
            None => {
                assert(self@.remove(room@) =~= self@);
                return false;
            },
        };
        if before <= 1 {
            self.counts.remove(room);
            self.channels.remove(room);
        } else {
            self.counts.insert(room.to_owned(), before - 1);
        }
        assert(self.channels@.dom() =~= self.counts@.dom());
        assert(self@ =~= left_by_one(old(self)@, room@));
        before <= 1
    }

    /// The number of peers in a room.
    pub fn count(&self, room: &str) -> (r: usize)
        ensures
            r == peers_in(self@, room@),
    {
        match self.counts.get(room) {
            Some(n) => *n,
            None => 0,
        }
    }
}

/// A room with this many peers tells them that one has joined.
pub open spec fn tells_of_peer(peers: usize) -> bool {
    peers >= 2
}

/// Says whether a room with this many peers tells them that one has joined.
pub fn announces(peers: usize) -> (r: bool)
    ensures
        r == tells_of_peer(peers),
{
    peers >= 2
}

/// A peer that joins and leaves again leaves no trace.
pub proof fn leaving_undoes_joining<C>(
    rooms: Map<Seq<char>, Room<C>>,
    room: Seq<char>,
    fresh: C,
)
    requires
        no_empty_room(rooms),
        peers_in(rooms, room) < usize::MAX,
    ensures
        left_by_one(joined_by_one(rooms, room, fresh), room) == rooms,
{
    if rooms.contains_key(room) {
        assert(rooms[room].peers > 0);
    }
    assert(left_by_one(joined_by_one(rooms, room, fresh), room) =~= rooms);
}

/// What happens in one room changes no other.
pub proof fn rooms_are_separate<C>(
    rooms: Map<Seq<char>, Room<C>>,
    room: Seq<char>,
    other: Seq<char>,
    fresh: C,
)
    requires
        room != other,
    ensures
        joined_by_one(rooms, room, fresh).contains_key(other) <==> rooms.contains_key(other),
        joined_by_one(rooms, room, fresh)[other] == rooms[other],
        left_by_one(rooms, room).contains_key(other) <==> rooms.contains_key(other),
        left_by_one(rooms, room)[other] == rooms[other],
{
}

/// A peer that joins, with the channel that a new room would have, or one that leaves.
pub enum RoomEvent<C> {
    Join(C),
    Leave,
}

/// The rooms once the events have happened in a room, with as many leaving as are there.
pub open spec fn after_events<C>(
    rooms: Map<Seq<char>, Room<C>>,
    room: Seq<char>,
    events: Seq<RoomEvent<C>>,
) -> Map<Seq<char>, Room<C>>
    decreases events.len(),
{
    if events.len() == 0 {
        rooms
    } else {
        let before = after_events(rooms, room, events.drop_last());
        match events.last() {
            RoomEvent::Join(fresh) => joined_by_one(before, room, fresh),
            RoomEvent::Leave => left_by_one(before, room),
        }
    }
}

/// How many of the events are joins, less how many are leaves.
pub open spec fn balance<C>(events: Seq<RoomEvent<C>>) -> int
    decreases events.len(),
{
    if events.len() == 0 {
        0
    } else {
        balance(events.drop_last()) + (match events.last() {
            RoomEvent::Join(_) => 1int,
            RoomEvent::Leave => -1int,
        })
    }
}

/// With so many peers at the start, there are at no point fewer than the least number, nor more
/// than can be counted.
pub open spec fn balanced<C>(start: int, least: int, events: Seq<RoomEvent<C>>) -> bool {
    forall|n: int|
        0 <= n <= events.len() ==> least <= start + #[trigger] balance(events.take(n))
            <= usize::MAX
}

proof fn front_is_balanced<C>(start: int, least: int, events: Seq<RoomEvent<C>>)
    requires
        events.len() > 0,
        balanced(start, least, events),
    ensures
        balanced(start, least, events.drop_last()),
        least <= start + balance(events.drop_last()) <= usize::MAX,
        least <= start + balance(events) <= usize::MAX,
{
    let front = events.drop_last();
    assert forall|n: int| 0 <= n <= front.len() implies least <= start + #[trigger] balance(
        front.take(n),
    ) <= usize::MAX by {
        assert(front.take(n) =~= events.take(n));
    }
    assert(front.take(front.len() as int) =~= front);
    assert(events.take(events.len() as int) =~= events);
    assert(least <= start + balance(front.take(front.len() as int)));
    assert(least <= start + balance(events.take(events.len() as int)));
}

/// A room is there exactly as long as someone is in it, and knows how many are: as many as were
/// there or joined, and have not left.
pub proof fn rooms_count_their_peers<C>(
    rooms: Map<Seq<char>, Room<C>>,
    room: Seq<char>,
    events: Seq<RoomEvent<C>>,
)
    requires
        no_empty_room(rooms),
        balanced(peers_in(rooms, room), 0, events),
    ensures
        no_empty_room(after_events(rooms, room, events)),
        peers_in(after_events(rooms, room, events), room) == peers_in(rooms, room) + balance(
            events,
        ),
        after_events(rooms, room, events).contains_key(room) <==> peers_in(rooms, room) + balance(
            events,
        ) > 0,
    decreases events.len(),
{
    if events.len() > 0 {
        front_is_balanced(peers_in(rooms, room), 0, events);
        rooms_count_their_peers(rooms, room, events.drop_last());
    }
}

/// All peers that are in a room share one channel, whoever joins and leaves meanwhile, until the
/// room is empty: every one that joins finds the channel that was there at the start.
pub proof fn peers_share_a_channel<C>(
    rooms: Map<Seq<char>, Room<C>>,
    room: Seq<char>,
    events: Seq<RoomEvent<C>>,
)
    requires
        no_empty_room(rooms),
        rooms.contains_key(room),
        balanced(peers_in(rooms, room), 1, events),
    ensures
        after_events(rooms, room, events).contains_key(room),
        after_events(rooms, room, events)[room].channel == rooms[room].channel,
        forall|fresh: C| #[trigger]
            channel_in(after_events(rooms, room, events), room, fresh) == rooms[room].channel,
    decreases events.len(),
{
    assert(balanced(peers_in(rooms, room), 0, events));
    rooms_count_their_peers(rooms, room, events);
    if events.len() > 0 {
        front_is_balanced(peers_in(rooms, room), 1, events);
        peers_share_a_channel(rooms, room, events.drop_last());
        rooms_count_their_peers(rooms, room, events.drop_last());
    } else {
        assert(rooms[room].peers > 0);
    }
}

/// Once a room has become empty, the next peer that joins opens it with a fresh channel.
pub proof fn an_emptied_room_begins_anew<C>(
    rooms: Map<Seq<char>, Room<C>>,
    room: Seq<char>,
    fresh: C,
)
    requires
        peers_in(rooms, room) <= 1,
    ensures
        !left_by_one(rooms, room).contains_key(room),
        joined_by_one(left_by_one(rooms, room), room, fresh)[room] == (Room {
            channel: fresh,
            peers: 1,
        }),
{
}

/// A room is told of a peer that joins as soon as someone is there to hear it.
pub proof fn second_peers_are_announced(peers: usize)
    ensures
        tells_of_peer(peers) <==> peers > 1,
{
}

/// A peer that joins is one more, and one that leaves one less, as long as there are any.
pub proof fn peers_come_and_go_one_by_one<C>(
    rooms: Map<Seq<char>, Room<C>>,
    room: Seq<char>,
    fresh: C,
)
    requires
        peers_in(rooms, room) < usize::MAX,
    ensures
        peers_in(joined_by_one(rooms, room, fresh), room) == peers_in(rooms, room) + 1,
        joined_by_one(rooms, room, fresh)[room].channel == (if rooms.contains_key(room) {
            rooms[room].channel
        } else {
            fresh
        }),
        peers_in(rooms, room) > 0 ==> peers_in(left_by_one(rooms, room), room) == peers_in(
            rooms,
            room,
        ) - 1,
        peers_in(rooms, room) > 1 ==> left_by_one(rooms, room)[room].channel == rooms[room].channel,
{
}

} // verus!
