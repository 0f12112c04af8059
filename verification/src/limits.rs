//! The fixed limits of the relay.

use vstd::prelude::*;

verus! {

/// Most members a room can have.
pub const ROOM_CAPACITY: usize = 100;

/// Most sessions the server runs at once.
pub const MAX_GLOBAL_CONNECTIONS: usize = 1000;

/// Most sessions one remote address may hold at once.
pub const MAX_CONNS_PER_IP: usize = 10;

/// Largest text frame, in bytes of UTF-8, that is relayed.
pub const MAX_MSG_SIZE: usize = 16 * 1024;

/// Frames per window that are relayed; the ones after them are dropped.
pub const RATE_LIMIT_WARN: usize = 10;

/// Frames per window that are tolerated; the one after them ends the session.
pub const RATE_LIMIT_MAX: usize = 50;

/// Length of the rate-limit window, in nanoseconds.
pub const RATE_LIMIT_WINDOW_NANOS: u128 = 1_000_000_000;

/// Lifetime of a TURN credential, in seconds.
pub const TURN_TTL: u64 = 3600;

/// Slots in the ring buffer of a room's broadcast channel.
pub const ROOM_BUFFER: usize = 100;

} // verus!
