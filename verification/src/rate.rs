//! The per-session rate limiter: a fixed window of one second with a soft and
//! a hard threshold.

use vstd::prelude::*;
use crate::limits::{RATE_LIMIT_MAX, RATE_LIMIT_WARN, RATE_LIMIT_WINDOW_NANOS};

verus! {

/// What becomes of a text frame once it has been counted.
#[derive(Clone, Copy, Debug, PartialEq, Eq, Structural)]
pub enum RateLimitAction {
    /// Relay the frame.
    Proceed,
    /// Discard the frame and keep the session.
    Drop,
    /// End the session.
    Disconnect,
}

/// The frames counted in the current window, and the instant at which the
/// window began. Instants are nanoseconds on a monotonic clock of the caller.
#[derive(Clone, Copy, Debug, PartialEq, Eq, Structural)]
pub struct RateLimitWindow {
    pub count: usize,
    pub start: u128,
}

/// Nanoseconds from `start` to `now`; zero when the clock reads earlier than
/// `start`.
pub open spec fn elapsed(start: u128, now: u128) -> int {
    if now >= start {
        now - start
    } else {
        0
    }
}

/// Whether a window begun at `start` is over at `now`.
pub open spec fn window_expired(start: u128, now: u128) -> bool {
    elapsed(start, now) >= RATE_LIMIT_WINDOW_NANOS
}

/// What becomes of the frame that brings the count of its window to `count`.
pub open spec fn verdict(count: int) -> RateLimitAction {
    if count > RATE_LIMIT_MAX {
        RateLimitAction::Disconnect
    } else if count > RATE_LIMIT_WARN {
        RateLimitAction::Drop
    } else {
        RateLimitAction::Proceed
    }
}

impl RateLimitWindow {
    /// The window after a frame that arrived at `now` has been counted. A
    /// window that is over makes way for one that begins at `now`, before the
    /// frame is counted. The count stops growing at `usize::MAX`, far beyond
    /// the hard threshold.
    pub open spec fn tick(self, now: u128) -> RateLimitWindow {
        if window_expired(self.start, now) {
            RateLimitWindow { count: 1, start: now }
        } else if self.count < usize::MAX {
            RateLimitWindow { count: (self.count + 1) as usize, start: self.start }
        } else {
            self
        }
    }

    /// An empty window that begins at `now`.
    pub fn new(now: u128) -> (window: RateLimitWindow)
        ensures
            window == (RateLimitWindow { count: 0, start: now }),
    {
        RateLimitWindow { count: 0, start: now }
    }
}

/// Counts one text frame that arrived at `now` in `window` and says what
/// becomes of it: the first `RATE_LIMIT_WARN` frames of a window proceed, the
/// frames up to `RATE_LIMIT_MAX` are dropped, the one after them disconnects.
pub fn check_rate_limit(window: &mut RateLimitWindow, now: u128) -> (action: RateLimitAction)
    ensures
        *final(window) == old(window).tick(now),
        action == verdict(final(window).count as int),
{
    let since: u128 = if now >= window.start {
        now - window.start
    } else {
        0
    };
    if since >= RATE_LIMIT_WINDOW_NANOS {
        window.count = 0;
        window.start = now;
    }
    if window.count < usize::MAX {
        window.count = window.count + 1;
    }
    if window.count > RATE_LIMIT_MAX {
        RateLimitAction::Disconnect
    } else if window.count > RATE_LIMIT_WARN {
        RateLimitAction::Drop
    } else {
        RateLimitAction::Proceed
    }
}

} // verus!
