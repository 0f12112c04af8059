//! The registry of rooms: anonymous groups of at most `ROOM_CAPACITY`
//! connections, made when no room has a free place and removed when empty.

use vstd::prelude::*;
use std::collections::HashMap;
use std::sync::Arc;
use tokio::sync::broadcast::{Receiver, Sender};
use crate::channel::{
    clone_sender, feeding_sender, open_channel, send_to_channel, subscribe_to_channel,
};
use crate::ident::{is_random_uuid, random_uuid};
use crate::limits::{ROOM_BUFFER, ROOM_CAPACITY};
use crate::message::BroadcastMsg;

verus! {

/// A room: its broadcast channel and the number of its members.
struct Room {
    tx: Sender<Arc<BroadcastMsg>>,
    count: usize,
}

/// What a connection holds of the room it was assigned to.
pub struct RoomHandle {
    room_id: u128,
    tx: Sender<Arc<BroadcastMsg>>,
}

/// The rooms of the server, by identifier.
pub struct RoomRegistry {
    rooms: HashMap<u128, Room>,
}

/// Whether no room of `rooms` has more than `ROOM_CAPACITY` members.
pub open spec fn within_capacity(rooms: Map<u128, usize>) -> bool {
    forall|id: u128| #[trigger] rooms.contains_key(id) ==> rooms[id] <= ROOM_CAPACITY
}

/// The number of members that `rooms` records for the room `id`; none for a
/// room that it does not hold.
pub open spec fn occupancy_of(rooms: Map<u128, usize>, id: u128) -> nat {
    if rooms.contains_key(id) {
        rooms[id] as nat
    } else {
        0
    }
}

/// Whether `rooms` holds a room `id` with a free place.
pub open spec fn has_space(rooms: Map<u128, usize>, id: u128) -> bool {
    rooms.contains_key(id) && rooms[id] < ROOM_CAPACITY
}

/// Whether some room of `rooms` has a free place.
pub open spec fn some_space(rooms: Map<u128, usize>) -> bool {
    exists|id: u128| has_space(rooms, id)
}

/// `rooms` after one more connection has joined the room `id`.
pub open spec fn joined(rooms: Map<u128, usize>, id: u128) -> Map<u128, usize> {
    rooms.insert(id, (rooms[id] + 1) as usize)
}

/// `rooms` after a room `id` has been made for its first member.
pub open spec fn created(rooms: Map<u128, usize>, id: u128) -> Map<u128, usize> {
    rooms.insert(id, 1)
}

/// `rooms` after a member of the room `id` has left. A room that is unknown
/// or already empty stays as it is.
pub open spec fn departed(rooms: Map<u128, usize>, id: u128) -> Map<u128, usize> {
    if rooms.contains_key(id) && rooms[id] > 0 {
        rooms.insert(id, (rooms[id] - 1) as usize)
    } else {
        rooms
    }
}

/// `rooms` without the room `id`, where that room is empty; else `rooms`.
pub open spec fn pruned(rooms: Map<u128, usize>, id: u128) -> Map<u128, usize> {
    if rooms.contains_key(id) && rooms[id] == 0 {
        rooms.remove(id)
    } else {
        rooms
    }
}

/// No room grows beyond `ROOM_CAPACITY`: a connection joins only a room with
/// a free place, a new room begins with one member, and departures and
/// removals take members away.
pub proof fn law_capacity_is_kept(rooms: Map<u128, usize>, id: u128)
    requires
        within_capacity(rooms),
    ensures
        has_space(rooms, id) ==> within_capacity(joined(rooms, id)),
        within_capacity(created(rooms, id)),
        within_capacity(departed(rooms, id)),
        within_capacity(pruned(rooms, id)),
{
}

/// A connection that joins the room `id` and leaves it again leaves every
/// room with the members it had before. Where the connection was alone in the
/// room, the room is gone afterwards.
pub proof fn law_room_is_restored_after_join(rooms: Map<u128, usize>, id: u128, other: u128)
    requires
        has_space(rooms, id),
    ensures
        occupancy_of(pruned(departed(joined(rooms, id), id), id), other) == occupancy_of(
            rooms,
            other,
        ),
        rooms[id] > 0 ==> pruned(departed(joined(rooms, id), id), id) == rooms,
        rooms[id] == 0 ==> !pruned(departed(joined(rooms, id), id), id).contains_key(id),
{
    if rooms[id] > 0 {
        assert(pruned(departed(joined(rooms, id), id), id) =~= rooms);
    }
}

/// A connection for which the room `id` was made, under an identifier that no
/// room had, leaves the registry as it was when it leaves.
pub proof fn law_room_is_restored_after_create(rooms: Map<u128, usize>, id: u128)
    requires
        !rooms.contains_key(id),
    ensures
        pruned(departed(created(rooms, id), id), id) == rooms,
{
    assert(pruned(departed(created(rooms, id), id), id) =~= rooms);
}

/// An empty room does not outlive the next cleanup or admission that touches
/// it: after a removal the room `id` is gone or has members, the last member
/// to leave takes the room with it, and a room that was joined has members.
pub proof fn law_empty_room_is_removed(rooms: Map<u128, usize>, id: u128)
    ensures
        occupancy_of(pruned(rooms, id), id) > 0 || !pruned(rooms, id).contains_key(id),
        rooms.contains_key(id) && rooms[id] <= 1 ==> !pruned(departed(rooms, id), id).contains_key(
            id,
        ),
        has_space(rooms, id) ==> occupancy_of(joined(rooms, id), id) > 0,
{
}

impl RoomHandle {
    /// The room that the connection belongs to.
    pub closed spec fn spec_room_id(&self) -> u128 {
        self.room_id
    }

    /// The sending half of the room's channel.
    pub closed spec fn spec_sender(&self) -> Sender<Arc<BroadcastMsg>> {
        self.tx
    }

    /// The room that the connection belongs to.
    pub fn room_id(&self) -> (id: u128)
        ensures
            id == self.spec_room_id(),
    {
        self.room_id
    }

    /// Hands `msg` to every subscriber of the room. With no subscriber the
    /// message is lost, silently.
    pub fn publish(&self, msg: BroadcastMsg) {
        send_to_channel(&self.tx, msg);
    }

    /// A new subscription to the room: a receiver on the channel that this
    /// handle publishes to. It sees what is published from now on.
    pub fn subscribe(&self) -> (rx: Receiver<Arc<BroadcastMsg>>)
        ensures
            feeding_sender(rx) == self.spec_sender(),
    {
        subscribe_to_channel(&self.tx)
    }
}

impl RoomRegistry {
    /// The number of members of each room.
    pub closed spec fn view(&self) -> Map<u128, usize> {
        Map::new(|id: u128| self.rooms@.contains_key(id), |id: u128| self.rooms@[id].count)
    }

    /// The sending half of the channel of the room `id`.
    pub closed spec fn sender_of(&self, id: u128) -> Sender<Arc<BroadcastMsg>> {
        self.rooms@[id].tx
    }

    /// No room has more than `ROOM_CAPACITY` members.
    pub open spec fn wf(&self) -> bool {
        within_capacity(self@)
    }

    /// A registry without rooms.
    pub fn new() -> (registry: RoomRegistry)
        ensures
            registry.wf(),
            registry@ == Map::<u128, usize>::empty(),
    {
        let registry = RoomRegistry { rooms: HashMap::new() };
        assert(registry@ =~= Map::<u128, usize>::empty());
        registry
    }

    /// The number of rooms.
    pub fn room_count(&self) -> (n: usize)
        ensures
            n == self@.dom().len(),
    {
        assert(self@.dom() =~= self.rooms@.dom());
        self.rooms.len()
    }

    /// The number of members of the room `id`, or `None` where there is no
    /// such room.
    pub fn occupancy(&self, id: u128) -> (members: Option<usize>)
        ensures
            members == if self@.contains_key(id) {
                Some(self@[id])
            } else {
                None
            },
    {
        match self.rooms.get(&id) {
            Some(room) => Some(room.count),
            None => None,
        }
    }

    /// A room with a free place, if there is one.
    pub fn find_space(&self) -> (found: Option<u128>)
        ensures
            match found {
                Some(id) => has_space(self@, id),
                None => !some_space(self@),
            },
    {
        let mut found: Option<u128> = None;
        for (id, room) in it: self.rooms.iter()
            invariant
                match found {
                    Some(id) => self.rooms@.contains_key(id) && self.rooms@[id].count
                        < ROOM_CAPACITY,
                    None => forall|i: int|
                        0 <= i < it.index() ==> (#[trigger] it.seq()[i]).1.count >= ROOM_CAPACITY,
                },
        {
            if found.is_none() && room.count < ROOM_CAPACITY {
                found = Some(*id);
            }
        }
        found
    }

    /// Places a connection: in a room with a free place where there is one,
    /// else in a new room under `fresh_id`.
    pub fn assign_with(&mut self, fresh_id: u128) -> (handle: RoomHandle)
        requires
            old(self).wf(),
        ensures
            final(self).wf(),
            some_space(old(self)@) ==> {
                &&& has_space(old(self)@, handle.spec_room_id())
                &&& final(self)@ == joined(old(self)@, handle.spec_room_id())
            },
            !some_space(old(self)@) ==> {
                &&& handle.spec_room_id() == fresh_id
                &&& final(self)@ == created(old(self)@, fresh_id)
            },
            handle.spec_sender() == final(self).sender_of(handle.spec_room_id()),
    {
        match self.find_space() {
            Some(id) => {
                let room = self.rooms.remove(&id).unwrap();
                let tx = clone_sender(&room.tx);
                self.rooms.insert(id, Room { tx: room.tx, count: room.count + 1 });
                assert(self@ =~= joined(old(self)@, id));
                RoomHandle { room_id: id, tx }
            },
            None => {
                let tx = open_channel(ROOM_BUFFER);
                let copy = clone_sender(&tx);
                self.rooms.insert(fresh_id, Room { tx, count: 1 });
                assert(self@ =~= created(old(self)@, fresh_id));
                RoomHandle { room_id: fresh_id, tx: copy }
            },
        }
    }

    /// Places a connection, with a random identifier at hand for a new room.
    pub fn assign(&mut self) -> (handle: RoomHandle)
        requires
            old(self).wf(),
        ensures
            final(self).wf(),
            some_space(old(self)@) ==> {
                &&& has_space(old(self)@, handle.spec_room_id())
                &&& final(self)@ == joined(old(self)@, handle.spec_room_id())
            },
            !some_space(old(self)@) ==> {
                &&& is_random_uuid(handle.spec_room_id())
                &&& final(self)@ == created(old(self)@, handle.spec_room_id())
            },
            handle.spec_sender() == final(self).sender_of(handle.spec_room_id()),
    {
        let fresh_id: u128 = random_uuid();
        self.assign_with(fresh_id)
    }

    /// Takes one member off the room `id`.
    pub fn depart(&mut self, id: u128)
        requires
            old(self).wf(),
        ensures
            final(self).wf(),
            final(self)@ == departed(old(self)@, id),
    {
        match self.rooms.remove(&id) {
            Some(room) => {
                let count: usize = if room.count > 0 {
                    room.count - 1
                } else {
                    0
                };
                self.rooms.insert(id, Room { tx: room.tx, count });
            },
            None => {},
        }
        assert(self@ =~= departed(old(self)@, id));
    }

    /// Removes the room `id` where it is empty, and says whether it did.
    pub fn prune(&mut self, id: u128) -> (removed: bool)
        requires
            old(self).wf(),
        ensures
            final(self).wf(),
            final(self)@ == pruned(old(self)@, id),
            removed == (old(self)@.contains_key(id) && old(self)@[id] == 0),
    {
        let empty: bool = match self.rooms.get(&id) {
            Some(room) => room.count == 0,
            None => false,
        };
        if empty {
            self.rooms.remove(&id);
        }
        assert(self@ =~= pruned(old(self)@, id));
        empty
    }
}

} // verus!
