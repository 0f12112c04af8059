//! One connection from admission to its end: identity, the inbound and the
//! outbound side of the relay, and the cleanup that runs once.
//!
//! The caller owns the socket and the subscription. It hands each thing that
//! happens to the session and does what the session answers.

use vstd::prelude::*;
use crate::admission::{entered, left, LiveCounter};
use crate::ident::{is_connection_id, is_random_uuid, new_connection_id};
use crate::message::{
    identity_frame, identity_frame_text, leave_message, process_client_text, relayed_payload,
    should_forward, BroadcastMsg,
};
use crate::rate::{check_rate_limit, verdict, RateLimitAction, RateLimitWindow};
use crate::rooms::{
    created, departed, has_space, joined, pruned, some_space, RoomHandle, RoomRegistry,
};

verus! {

/// Where a session stands in its life.
#[derive(Clone, Copy, Debug, PartialEq, Eq, Structural)]
pub enum SessionState {
    /// Admitted and placed in a room; the peer does not know its identity yet.
    Admitted,
    /// The identity frame has gone out.
    Identified,
    /// Frames are relayed in both directions.
    Active,
    /// The relay has stopped; the cleanup is still to run.
    Draining,
    /// The cleanup has run.
    Closed,
}

/// What the socket brings from the peer.
#[derive(Debug, PartialEq, Eq)]
pub enum Inbound {
    /// A text frame.
    Text(String),
    /// A binary frame.
    Binary,
    /// A ping.
    Ping,
    /// A pong.
    Pong,
    /// The peer closes the connection.
    Close,
    /// The socket failed to read.
    ReadError,
}

/// A session.
pub struct Session {
    id: String,
    room: RoomHandle,
    state: SessionState,
    window: RateLimitWindow,
}

/// What a session is, for the contracts.
pub struct SessionView {
    /// The identity that the server gave the connection.
    pub id: Seq<char>,
    /// The room that the connection was placed in.
    pub room_id: u128,
    pub state: SessionState,
    /// The rate-limit window of the inbound side.
    pub window: RateLimitWindow,
}

/// The session `s` after `frame` has arrived at `now`. Only an active session
/// reads frames. A close frame and a read error end the relay; a text frame
/// is counted and ends the relay where it breaks the hard limit; binary
/// frames, pings and pongs change nothing.
pub open spec fn after_inbound(s: SessionView, frame: Inbound, now: u128) -> SessionView {
    if s.state != SessionState::Active {
        s
    } else {
        match frame {
            Inbound::Text(_) => {
                let window = s.window.tick(now);
                SessionView {
                    id: s.id,
                    room_id: s.room_id,
                    state: if verdict(window.count as int) == RateLimitAction::Disconnect {
                        SessionState::Draining
                    } else {
                        SessionState::Active
                    },
                    window,
                }
            },
            Inbound::Close | Inbound::ReadError => SessionView {
                id: s.id,
                room_id: s.room_id,
                state: SessionState::Draining,
                window: s.window,
            },
            _ => s,
        }
    }
}

/// The payload that the session `s` publishes to its room for `frame`, which
/// arrived at `now`: that of a text frame which the rate limiter lets proceed
/// and which is a JSON object of an accepted size.
pub open spec fn published_for(s: SessionView, frame: Inbound, now: u128) -> Option<Seq<char>> {
    match frame {
        Inbound::Text(text) => if s.state == SessionState::Active && verdict(
            s.window.tick(now).count as int,
        ) == RateLimitAction::Proceed {
            relayed_payload(text@, s.id)
        } else {
            None
        },
        _ => None,
    }
}

/// The payload that the session `s` writes to its peer for `msg`, which came
/// from its room: that of every message but its own.
pub open spec fn forwarded_for(s: SessionView, msg: BroadcastMsg) -> Option<Seq<char>> {
    if s.state == SessionState::Active && msg.sender_id@ != s.id {
        Some(msg.payload@)
    } else {
        None
    }
}

/// The rooms after the cleanup of the session `s`: on a closed session it
/// changes nothing; else the connection leaves its room, and the room is
/// removed where that leaves it empty.
pub open spec fn rooms_after_cleanup(s: SessionView, rooms: Map<u128, usize>) -> Map<u128, usize> {
    if s.state == SessionState::Closed {
        rooms
    } else {
        pruned(departed(rooms, s.room_id), s.room_id)
    }
}

/// The count of running sessions after the cleanup of the session `s`.
pub open spec fn live_after_cleanup(s: SessionView, live: usize) -> usize {
    if s.state == SessionState::Closed {
        live
    } else {
        left(live)
    }
}

/// The session `s` after its cleanup.
pub open spec fn closed(s: SessionView) -> SessionView {
    SessionView { state: SessionState::Closed, ..s }
}

/// The cleanup counts once: run again on the session that it has closed, it
/// leaves the rooms and the count of running sessions as the first run left
/// them.
pub proof fn law_cleanup_runs_once(s: SessionView, rooms: Map<u128, usize>, live: usize)
    ensures
        rooms_after_cleanup(closed(s), rooms_after_cleanup(s, rooms)) == rooms_after_cleanup(s, rooms),
        live_after_cleanup(closed(s), live_after_cleanup(s, live)) == live_after_cleanup(s, live),
        closed(closed(s)) == closed(s),
{
}

/// A sender never receives its own frames: what a session publishes carries
/// its identity, and a message that carries its identity is not forwarded to
/// it, whatever state it is in.
pub proof fn law_no_echo(s: SessionView, msg: BroadcastMsg)
    requires
        msg.sender_id@ == s.id,
    ensures
        forwarded_for(s, msg) is None,
{
}

impl View for Session {
    type V = SessionView;

    closed spec fn view(&self) -> SessionView {
        SessionView {
            id: self.id@,
            room_id: self.room.spec_room_id(),
            state: self.state,
            window: self.window,
        }
    }
}

impl Session {
    /// What the session holds of its room.
    pub closed spec fn spec_room(&self) -> RoomHandle {
        self.room
    }

    /// Begins a session for an admitted connection under the identity `id`:
    /// counts it among the running sessions and places it in a room, a new one
    /// under `fresh_room_id` where no room has a free place.
    pub fn open_with(
        live: &mut LiveCounter,
        rooms: &mut RoomRegistry,
        id: String,
        fresh_room_id: u128,
    ) -> (session: Session)
        requires
            old(rooms).wf(),
        ensures
            final(rooms).wf(),
            final(live)@ == entered(old(live)@),
            session@.id == id@,
            session@.state == SessionState::Admitted,
            session@.window == (RateLimitWindow { count: 0, start: 0 }),
            session@.room_id == session.spec_room().spec_room_id(),
            some_space(old(rooms)@) ==> {
                &&& has_space(old(rooms)@, session@.room_id)
                &&& final(rooms)@ == joined(old(rooms)@, session@.room_id)
            },
            !some_space(old(rooms)@) ==> {
                &&& session@.room_id == fresh_room_id
                &&& final(rooms)@ == created(old(rooms)@, fresh_room_id)
            },
            session.spec_room().spec_sender() == final(rooms).sender_of(session@.room_id),
    {
        live.enter();
        let room = rooms.assign_with(fresh_room_id);
        Session { id, room, state: SessionState::Admitted, window: RateLimitWindow::new(0) }
    }

    /// Begins a session for an admitted connection. Its identity is a random
    /// UUID that the server picks, and so is the identifier of a room that is
    /// made for it.
    pub fn open(live: &mut LiveCounter, rooms: &mut RoomRegistry) -> (session: Session)
        requires
            old(rooms).wf(),
        ensures
            final(rooms).wf(),
            final(live)@ == entered(old(live)@),
            is_connection_id(session@.id),
            session@.state == SessionState::Admitted,
            session@.window == (RateLimitWindow { count: 0, start: 0 }),
            session@.room_id == session.spec_room().spec_room_id(),
            some_space(old(rooms)@) ==> {
                &&& has_space(old(rooms)@, session@.room_id)
                &&& final(rooms)@ == joined(old(rooms)@, session@.room_id)
            },
            !some_space(old(rooms)@) ==> {
                &&& is_random_uuid(session@.room_id)
                &&& final(rooms)@ == created(old(rooms)@, session@.room_id)
            },
            session.spec_room().spec_sender() == final(rooms).sender_of(session@.room_id),
    {
        let id = new_connection_id();
        live.enter();
        let room = rooms.assign();
        Session { id, room, state: SessionState::Admitted, window: RateLimitWindow::new(0) }
    }

    /// The identity that the server gave the connection.
    pub fn id(&self) -> (id: &str)
        ensures
            id@ == self@.id,
    {
        self.id.as_str()
    }

    /// Where the session stands.
    pub fn state(&self) -> (state: SessionState)
        ensures
            state == self@.state,
    {
        self.state
    }

    /// Whether the relay runs.
    pub fn is_active(&self) -> (active: bool)
        ensures
            active == (self@.state == SessionState::Active),
    {
        self.state == SessionState::Active
    }

    /// What the session holds of its room.
    pub fn room(&self) -> (room: &RoomHandle)
        ensures
            *room == self.spec_room(),
            room.spec_room_id() == self@.room_id,
    {
        &self.room
    }

    /// The first frame that goes to the peer.
    pub fn identity(&self) -> (frame: String)
        ensures
            frame@ == identity_frame_text(self@.id),
    {
        identity_frame(self.id.as_str())
    }

    /// Records whether the identity frame went out. An admitted session is
    /// identified by it, or drains where the frame could not be written.
    pub fn identity_sent(&mut self, delivered: bool)
        ensures
            final(self).spec_room() == old(self).spec_room(),
            final(self)@ == (SessionView {
                state: if old(self)@.state != SessionState::Admitted {
                    old(self)@.state
                } else if delivered {
                    SessionState::Identified
                } else {
                    SessionState::Draining
                },
                ..old(self)@
            }),
    {
        if self.state == SessionState::Admitted {
            if delivered {
                self.state = SessionState::Identified;
            } else {
                self.state = SessionState::Draining;
            }
        }
    }

    /// Starts the relay of an identified session, with an empty rate-limit
    /// window that begins at `now`.
    pub fn activate(&mut self, now: u128)
        ensures
            final(self).spec_room() == old(self).spec_room(),
            final(self)@ == if old(self)@.state == SessionState::Identified {
                SessionView {
                    state: SessionState::Active,
                    window: RateLimitWindow { count: 0, start: now },
                    ..old(self)@
                }
            } else {
                old(self)@
            },
    {
        if self.state == SessionState::Identified {
            self.state = SessionState::Active;
            self.window = RateLimitWindow::new(now);
        }
    }

    /// Takes what the socket brought at `now`, and gives the message that is
    /// to be published to the room, if any.
    pub fn on_inbound(&mut self, frame: Inbound, now: u128) -> (publish: Option<BroadcastMsg>)
        ensures
            final(self).spec_room() == old(self).spec_room(),
            final(self)@ == after_inbound(old(self)@, frame, now),
            match published_for(old(self)@, frame, now) {
                Some(payload) => {
                    &&& publish matches Some(msg)
                    &&& msg.sender_id@ == old(self)@.id
                    &&& msg.payload@ == payload
                },
                None => publish is None,
            },
    {
        if self.state != SessionState::Active {
            return None;
        }
        match frame {
            Inbound::Text(text) => {
                match check_rate_limit(&mut self.window, now) {
                    RateLimitAction::Disconnect => {
                        self.state = SessionState::Draining;
                        None
                    },
                    RateLimitAction::Drop => None,
                    RateLimitAction::Proceed => process_client_text(text, self.id.as_str()),
                }
            },
            Inbound::Close => {
                self.state = SessionState::Draining;
                None
            },
            Inbound::ReadError => {
                self.state = SessionState::Draining;
                None
            },
            Inbound::Binary => None,
            Inbound::Ping => None,
            Inbound::Pong => None,
        }
    }

    /// Takes a message that came from the room, and gives the payload that is
    /// to be written to the peer, if any. A session never hears itself.
    pub fn on_broadcast(&self, msg: &BroadcastMsg) -> (write: Option<String>)
        ensures
            match forwarded_for(self@, *msg) {
                Some(payload) => write matches Some(text) && text@ == payload,
                None => write is None,
            },
    {
        if self.state == SessionState::Active && should_forward(msg, self.id.as_str()) {
            Some(msg.payload.clone())
        } else {
            None
        }
    }

    /// Records that a payload could not be written to the peer: the relay of
    /// an active session stops.
    pub fn write_failed(&mut self)
        ensures
            final(self).spec_room() == old(self).spec_room(),
            final(self)@ == (SessionView {
                state: if old(self)@.state == SessionState::Active {
                    SessionState::Draining
                } else {
                    old(self)@.state
                },
                ..old(self)@
            }),
    {
        if self.state == SessionState::Active {
            self.state = SessionState::Draining;
        }
    }

    /// Ends the session, once: announces the departure to the room, takes the
    /// connection off its room, removes the room where it is left empty, and
    /// takes the session off the running ones. On a closed session nothing
    /// happens. Says whether the cleanup ran.
    pub fn cleanup(&mut self, live: &mut LiveCounter, rooms: &mut RoomRegistry) -> (ran: bool)
        requires
            old(rooms).wf(),
        ensures
            final(rooms).wf(),
            final(self).spec_room() == old(self).spec_room(),
            final(self)@ == closed(old(self)@),
            ran == (old(self)@.state != SessionState::Closed),
            final(rooms)@ == rooms_after_cleanup(old(self)@, old(rooms)@),
            final(live)@ == live_after_cleanup(old(self)@, old(live)@),
    {
        if self.state == SessionState::Closed {
            return false;
        }
        self.room.publish(leave_message(self.id.as_str()));
        let room_id: u128 = self.room.room_id();
        rooms.depart(room_id);
        rooms.prune(room_id);
        live.leave();
        self.state = SessionState::Closed;
        true
    }
}

} // verus!
