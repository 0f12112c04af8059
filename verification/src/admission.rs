//! Admission of upgrade requests: the origin check, the global ceiling and the
//! ceiling per remote address.

use vstd::prelude::*;
use std::collections::HashMap;
use crate::limits::{MAX_CONNS_PER_IP, MAX_GLOBAL_CONNECTIONS};

verus! {

/// Why an upgrade request was turned away.
#[derive(Clone, Copy, Debug, PartialEq, Eq, Structural)]
pub enum Rejection {
    /// The request names an origin other than the one that is allowed.
    Forbidden,
    /// The server runs as many sessions as it may.
    ServiceUnavailable,
    /// The remote address holds as many sessions as it may.
    TooManyRequests,
    /// The table of addresses could not be locked.
    InternalServerError,
}

/// The right of one admitted connection to its place in the table of
/// addresses. It is handed out by `try_admit` alone and given back by `release`.
#[derive(Debug)]
pub struct AdmissionTicket {
    ip: u128,
}

/// The sessions held per remote address. An address is its 128-bit IPv6
/// value; an IPv4 address stands in its IPv4-mapped form.
pub struct AdmissionController {
    ip_counts: HashMap<u128, usize>,
}

/// The number of sessions that run. It is counted as an atomic counter
/// counts: one up wraps from `usize::MAX` to zero, one down from zero to
/// `usize::MAX`.
#[derive(Debug)]
pub struct LiveCounter {
    live: usize,
}

/// `live` after one more session has begun.
pub open spec fn entered(live: usize) -> usize {
    if live == usize::MAX {
        0
    } else {
        (live + 1) as usize
    }
}

/// `live` after one session has ended.
pub open spec fn left(live: usize) -> usize {
    if live == 0 {
        usize::MAX
    } else {
        (live - 1) as usize
    }
}

/// The sessions that `counts` records for `ip`.
pub open spec fn live_from(counts: Map<u128, usize>, ip: u128) -> nat {
    if counts.contains_key(ip) {
        counts[ip] as nat
    } else {
        0
    }
}

/// `counts` after one more session from `ip`.
pub open spec fn acquired(counts: Map<u128, usize>, ip: u128) -> Map<u128, usize> {
    counts.insert(ip, (live_from(counts, ip) + 1) as usize)
}

/// `counts` after one session from `ip` has ended: one less, never below
/// zero, and no entry for an address without sessions.
pub open spec fn released(counts: Map<u128, usize>, ip: u128) -> Map<u128, usize> {
    if live_from(counts, ip) <= 1 {
        counts.remove(ip)
    } else {
        counts.insert(ip, (live_from(counts, ip) - 1) as usize)
    }
}

/// Whether every address in `counts` holds at least one session and at most
/// `MAX_CONNS_PER_IP`.
pub open spec fn within_limits(counts: Map<u128, usize>) -> bool {
    forall|ip: u128| #[trigger] counts.contains_key(ip) ==> 1 <= counts[ip] <= MAX_CONNS_PER_IP
}

/// Whether the request names an origin and the server allows another one.
/// A request without an origin passes, whatever the server allows.
pub open spec fn origin_mismatch(allowed_origin: Option<&str>, origin: Option<&str>) -> bool {
    allowed_origin matches Some(allowed) && origin matches Some(named) && named@ != allowed@
}

/// The checks of admission in their order; the first that fails decides.
/// `live` is the number of running sessions, `held` the number that the
/// remote address holds. `None` means that the request is admitted.
pub open spec fn admission_verdict(mismatch: bool, live: nat, held: nat) -> Option<Rejection> {
    if mismatch {
        Some(Rejection::Forbidden)
    } else if live >= MAX_GLOBAL_CONNECTIONS {
        Some(Rejection::ServiceUnavailable)
    } else if held >= MAX_CONNS_PER_IP {
        Some(Rejection::TooManyRequests)
    } else {
        None
    }
}

/// No address holds more than `MAX_CONNS_PER_IP` sessions: a request is
/// admitted only below the ceiling of its address, and a release takes a
/// session away.
pub proof fn law_per_ip_ceiling_is_kept(
    counts: Map<u128, usize>,
    ip: u128,
    any: u128,
    mismatch: bool,
    live: nat,
)
    requires
        within_limits(counts),
    ensures
        live_from(counts, any) <= MAX_CONNS_PER_IP,
        admission_verdict(mismatch, live, live_from(counts, ip)) is None ==> within_limits(
            acquired(counts, ip),
        ),
        within_limits(released(counts, ip)),
{
}

/// A session that begins on the count at which its request was admitted
/// leaves the running sessions within `MAX_GLOBAL_CONNECTIONS`.
pub proof fn law_global_ceiling_is_kept(live: usize, mismatch: bool, held: nat)
    requires
        admission_verdict(mismatch, live as nat, held) is None,
    ensures
        entered(live) <= MAX_GLOBAL_CONNECTIONS,
{
}

/// A session that is admitted, begins and ends leaves the count of its
/// address and the count of running sessions as they were before.
pub proof fn law_counters_are_restored(counts: Map<u128, usize>, ip: u128, live: usize)
    requires
        within_limits(counts),
        live_from(counts, ip) < MAX_CONNS_PER_IP,
    ensures
        released(acquired(counts, ip), ip) == counts,
        left(entered(live)) == live,
{
    assert(released(acquired(counts, ip), ip) =~= counts);
}

impl Rejection {
    /// The HTTP status that answers the request.
    pub open spec fn spec_status(self) -> u16 {
        match self {
            Rejection::Forbidden => 403,
            Rejection::ServiceUnavailable => 503,
            Rejection::TooManyRequests => 429,
            Rejection::InternalServerError => 500,
        }
    }

    /// The HTTP status that answers the request.
    pub fn status(&self) -> (code: u16)
        ensures
            code == self.spec_status(),
    {
        match self {
            Rejection::Forbidden => 403,
            Rejection::ServiceUnavailable => 503,
            Rejection::TooManyRequests => 429,
            Rejection::InternalServerError => 500,
        }
    }

    /// The body of the answer.
    pub fn reason(&self) -> (text: &'static str)
        ensures
            text@ == match self {
                Rejection::Forbidden => "Forbidden Origin"@,
                Rejection::ServiceUnavailable => "Server Busy"@,
                Rejection::TooManyRequests => "Rate Limit Exceeded"@,
                Rejection::InternalServerError => "Lock Poisoned"@,
            },
    {
        match self {
            Rejection::Forbidden => "Forbidden Origin",
            Rejection::ServiceUnavailable => "Server Busy",
            Rejection::TooManyRequests => "Rate Limit Exceeded",
            Rejection::InternalServerError => "Lock Poisoned",
        }
    }
}

impl LiveCounter {
    /// The number of sessions that run.
    pub closed spec fn view(&self) -> usize {
        self.live
    }

    /// A counter at zero.
    pub fn new() -> (counter: LiveCounter)
        ensures
            counter@ == 0,
    {
        LiveCounter { live: 0 }
    }

    /// The number of sessions that run.
    pub fn count(&self) -> (live: usize)
        ensures
            live == self@,
    {
        self.live
    }

    /// Counts a session that has begun.
    pub fn enter(&mut self)
        ensures
            final(self)@ == entered(old(self)@),
    {
        self.live = self.live.wrapping_add(1);
    }

    /// Counts a session that has ended.
    pub fn leave(&mut self)
        ensures
            final(self)@ == left(old(self)@),
    {
        self.live = self.live.wrapping_sub(1);
    }
}

impl AdmissionTicket {
    /// The remote address that the ticket was issued to.
    pub closed spec fn spec_ip(&self) -> u128 {
        self.ip
    }

    /// The remote address that the ticket was issued to.
    pub fn ip(&self) -> (ip: u128)
        ensures
            ip == self.spec_ip(),
    {
        self.ip
    }
}

impl AdmissionController {
    /// The sessions held per remote address; an address without sessions has
    /// no entry.
    pub closed spec fn view(&self) -> Map<u128, usize> {
        self.ip_counts@
    }

    /// Every address in the table holds at least one session and at most
    /// `MAX_CONNS_PER_IP`.
    pub open spec fn wf(&self) -> bool {
        within_limits(self@)
    }

    /// A table without sessions.
    pub fn new() -> (table: AdmissionController)
        ensures
            table.wf(),
            table@ == Map::<u128, usize>::empty(),
    {
        AdmissionController { ip_counts: HashMap::new() }
    }

    /// The sessions that `ip` holds.
    pub fn held_by(&self, ip: u128) -> (held: usize)
        ensures
            held == live_from(self@, ip),
    {
        match self.ip_counts.get(&ip) {
            Some(held) => *held,
            None => 0,
        }
    }

    /// Decides on an upgrade request from `ip` that names `origin`, while
    /// `live` sessions run and the server allows `allowed_origin`. An admitted
    /// request is counted for its address and gets a ticket; a rejected one
    /// leaves the table as it was.
    pub fn try_admit(
        &mut self,
        ip: u128,
        origin: Option<&str>,
        allowed_origin: Option<&str>,
        live: usize,
    ) -> (outcome: Result<AdmissionTicket, Rejection>)
        requires
            old(self).wf(),
        ensures
            final(self).wf(),
            match admission_verdict(
                origin_mismatch(allowed_origin, origin),
                live as nat,
                live_from(old(self)@, ip),
            ) {
                Some(rejection) => {
                    &&& outcome == Err::<AdmissionTicket, Rejection>(rejection)
                    &&& final(self)@ == old(self)@
                },
                None => {
                    &&& outcome matches Ok(ticket)
                    &&& ticket.spec_ip() == ip
                    &&& final(self)@ == acquired(old(self)@, ip)
                },
            },
    {
        if let Some(allowed) = allowed_origin {
            if let Some(named) = origin {
                if !(*named == *allowed) {
                    return Err(Rejection::Forbidden);
                }
            }
        }
        if live >= MAX_GLOBAL_CONNECTIONS {
            return Err(Rejection::ServiceUnavailable);
        }
        let held: usize = self.held_by(ip);
        if held >= MAX_CONNS_PER_IP {
            return Err(Rejection::TooManyRequests);
        }
        self.ip_counts.insert(ip, held + 1);
        Ok(AdmissionTicket { ip })
    }

    /// Gives back the place that `ticket` stands for: its address holds one
    /// session less, and leaves the table with its last one.
    pub fn release(&mut self, ticket: AdmissionTicket)
        requires
            old(self).wf(),
        ensures
            final(self).wf(),
            final(self)@ == released(old(self)@, ticket.spec_ip()),
    {
        let ip: u128 = ticket.ip;
        let held: usize = self.held_by(ip);
        if held <= 1 {
            self.ip_counts.remove(&ip);
        } else {
            self.ip_counts.insert(ip, held - 1);
        }
    }
}

} // verus!
