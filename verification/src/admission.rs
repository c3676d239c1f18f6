//! Connection and request admission: which peers and listener addresses are
//! trusted, which connections are served, rejected or dropped, the per-source
//! rate limit, and how an inherited deadline narrows a request's own.
//!
//! Instants are readings of one monotonic clock taken by the caller, so every
//! rule below holds for every reading: deadlines count milliseconds, and the
//! rate limit counts nanoseconds, the clock's own resolution.
use vstd::prelude::*;
use std::collections::HashMap;
use crate::startup::StartupError;

verus! {

/// A peer or listener IP address.
#[derive(Clone, Copy, Debug, PartialEq, Eq, Structural)]
pub enum SourceAddress {
    /// An IPv4 address, most significant octet first.
    V4(u32),
    /// An IPv6 address, most significant octet first.
    V6(u128),
}

pub open spec fn ipv4_localhost() -> u32 {
    0x7f00_0001u32
}

pub open spec fn ipv6_localhost() -> u128 {
    1u128
}

/// Only the two loopback host addresses are trusted peers.
pub open spec fn trusted_peer(peer: SourceAddress) -> bool {
    peer == SourceAddress::V4(ipv4_localhost()) || peer == SourceAddress::V6(ipv6_localhost())
}

/// Whether the peer is the IPv4 or IPv6 localhost address.
pub fn is_trusted_loopback_peer(peer: SourceAddress) -> (trusted: bool)
    ensures
        trusted == trusted_peer(peer),
{
    match peer {
        SourceAddress::V4(address) => address == 0x7f00_0001u32,
        SourceAddress::V6(address) => address == 1u128,
    }
}

/// A loopback address: any in 127.0.0.0/8, or `::1`.
pub open spec fn is_loopback(address: SourceAddress) -> bool {
    match address {
        SourceAddress::V4(a) => a / 0x0100_0000 == 127,
        SourceAddress::V6(a) => a == 1,
    }
}

/// The sole HTTPS listener binds a nonzero port on a loopback address.
pub fn check_listener_address(address: SourceAddress, port: u16) -> (r: Result<(), StartupError>)
    ensures
        r == if port != 0 && is_loopback(address) {
            Ok::<(), StartupError>(())
        } else {
            Err(StartupError::ListenerAddressInvalid)
        },
{
    let loopback = match address {
        SourceAddress::V4(a) => a / 0x0100_0000 == 127,
        SourceAddress::V6(a) => a == 1,
    };
    if port == 0 || !loopback {
        Err(StartupError::ListenerAddressInvalid)
    } else {
        Ok(())
    }
}

/// What the listener does with one accepted connection.
#[derive(Clone, Copy, Debug, PartialEq, Eq, Structural)]
pub enum ConnectionAdmission {
    /// Serve it in a normal connection slot.
    Serve,
    /// Answer it with the fixed unavailable response in the rejection slot.
    Reject,
    /// Close it unanswered.
    Drop,
}

pub open spec fn admission_for(peer: SourceAddress, normal_slot: bool, rejection_slot: bool) -> ConnectionAdmission {
    if !trusted_peer(peer) {
        ConnectionAdmission::Drop
    } else if normal_slot {
        ConnectionAdmission::Serve
    } else if rejection_slot {
        ConnectionAdmission::Reject
    } else {
        ConnectionAdmission::Drop
    }
}

/// Decides an accepted connection from its peer and which slot was free.
pub fn admit_connection(peer: SourceAddress, normal_slot: bool, rejection_slot: bool) -> (admission: ConnectionAdmission)
    ensures
        admission == admission_for(peer, normal_slot, rejection_slot),
{
    if !is_trusted_loopback_peer(peer) {
        ConnectionAdmission::Drop
    } else if normal_slot {
        ConnectionAdmission::Serve
    } else if rejection_slot {
        ConnectionAdmission::Reject
    } else {
        ConnectionAdmission::Drop
    }
}

/// Narrows a deadline to an inherited remainder, and never widens it.
pub fn capped_deadline(deadline: u64, inherited: Option<u64>) -> (capped: u64)
    ensures
        capped == match inherited {
            Some(i) => if i < deadline { i } else { deadline },
            None => deadline,
        },
        capped <= deadline,
        inherited matches Some(i) ==> capped <= i,
{
    match inherited {
        Some(inherited) => if inherited < deadline { inherited } else { deadline },
        None => deadline,
    }
}

/// How a route's body is read: under the default profile the body shares
/// the head's absolute deadline; a registered admission reads it on its own
/// budget, counted from the moment it was admitted.
#[derive(Clone, Copy, Debug, PartialEq, Eq, Structural)]
pub enum BodyBudget {
    Default,
    Admitted { body_read: u64 },
}

/// The head's absolute deadline and the deadline for everything between the
/// head and the body, both counted from the request's start.
pub fn request_deadlines(started: u64, request_read: u64, processing: u64) -> (deadlines: (u64, u64))
    requires
        started + request_read <= u64::MAX,
        started + processing <= u64::MAX,
    ensures
        deadlines.0 == started + request_read,
        deadlines.1 == started + processing,
{
    (started + request_read, started + processing)
}

/// The body read's deadline, cut to an inherited remainder.
pub fn body_deadline(budget: BodyBudget, head_deadline: u64, admitted_at: u64, inherited: Option<u64>) -> (deadline: u64)
    requires
        budget matches BodyBudget::Admitted { body_read } ==> admitted_at + body_read <= u64::MAX,
    ensures
        deadline == match (budget, inherited) {
            (BodyBudget::Default, None) => head_deadline as int,
            (BodyBudget::Default, Some(i)) => if i < head_deadline { i as int } else { head_deadline as int },
            (BodyBudget::Admitted { body_read }, None) => admitted_at + body_read,
            (BodyBudget::Admitted { body_read }, Some(i)) => if i < admitted_at + body_read { i as int } else { admitted_at + body_read },
        },
        budget == BodyBudget::Default ==> deadline <= head_deadline,
        inherited matches Some(i) ==> deadline <= i,
{
    let own = match budget {
        BodyBudget::Default => head_deadline,
        BodyBudget::Admitted { body_read } => admitted_at + body_read,
    };
    capped_deadline(own, inherited)
}

/// The default profile's processing deadline: the request's start plus the
/// connection's processing budget, cut to an inherited remainder.
pub fn default_processing_deadline(started: u64, processing: u64, inherited: Option<u64>) -> (deadline: u64)
    requires
        started + processing <= u64::MAX,
    ensures
        deadline == match inherited {
            None => started + processing,
            Some(i) => if i < started + processing { i as int } else { started + processing },
        },
{
    capped_deadline(started + processing, inherited)
}

/// Requests one source may make per minute once its burst is spent.
pub const RATE_LIMIT_REQUESTS_PER_MINUTE: u64 = 20;
/// Requests one source may make at once: a Web UI page load is one document,
/// two assets and one status request, plus two immediate reloads.
pub const RATE_LIMIT_BURST: u64 = 12;
/// Nanoseconds in which one request's allowance is replenished: sixty
/// seconds shared by the requests of one minute.
pub const REPLENISH_NANOSECONDS: u64 = 3_000_000_000;
/// A full burst, in nanoseconds of replenishment.
pub const BURST_NANOSECONDS: u64 = 36_000_000_000;

/// One source's allowance, counted in nanoseconds of replenishment: one
/// request costs `REPLENISH_NANOSECONDS`, and the allowance never exceeds a
/// full burst. `last_updated` is the instant, in nanoseconds, of the source's
/// last request.
#[derive(Clone, Copy, Debug, PartialEq, Eq, Structural)]
pub struct RateLimit {
    pub available: u64,
    pub last_updated: u64,
}

/// One request from a source at `now`: the replenished allowance, and
/// whether it covers the request.
pub open spec fn rate_step(limit: Option<RateLimit>, now: u64) -> (RateLimit, bool) {
    let base = match limit {
        Some(l) => l,
        None => RateLimit { available: BURST_NANOSECONDS, last_updated: now },
    };
    let elapsed: int = if now >= base.last_updated { now - base.last_updated } else { 0 };
    let replenished: int = if base.available + elapsed < BURST_NANOSECONDS {
        base.available + elapsed
    } else {
        BURST_NANOSECONDS as int
    };
    if replenished < REPLENISH_NANOSECONDS {
        (RateLimit { available: replenished as u64, last_updated: now }, false)
    } else {
        (RateLimit { available: (replenished - REPLENISH_NANOSECONDS) as u64, last_updated: now }, true)
    }
}

/// Per-source token buckets, one table per address family.
pub struct RateLimiter {
    v4: HashMap<u32, RateLimit>,
    v6: HashMap<u128, RateLimit>,
}

impl View for RateLimiter {
    type V = (Map<u32, RateLimit>, Map<u128, RateLimit>);

    closed spec fn view(&self) -> (Map<u32, RateLimit>, Map<u128, RateLimit>) {
        (self.v4@, self.v6@)
    }
}

/// The allowance the limiter holds for a source.
pub open spec fn limit_of(view: (Map<u32, RateLimit>, Map<u128, RateLimit>), source: SourceAddress) -> Option<RateLimit> {
    match source {
        SourceAddress::V4(a) => if view.0.contains_key(a) { Some(view.0[a]) } else { None },
        SourceAddress::V6(a) => if view.1.contains_key(a) { Some(view.1[a]) } else { None },
    }
}

/// The limiter after recording a source's allowance.
pub open spec fn with_limit(view: (Map<u32, RateLimit>, Map<u128, RateLimit>), source: SourceAddress, limit: RateLimit) -> (Map<u32, RateLimit>, Map<u128, RateLimit>) {
    match source {
        SourceAddress::V4(a) => (view.0.insert(a, limit), view.1),
        SourceAddress::V6(a) => (view.0, view.1.insert(a, limit)),
    }
}

fn replenish(limit: Option<RateLimit>, now: u64) -> (r: (RateLimit, bool))
    requires
        limit matches Some(l) ==> l.available <= BURST_NANOSECONDS,
    ensures
        r == rate_step(limit, now),
        r.0.available <= BURST_NANOSECONDS,
{
    let base = match limit {
        Some(l) => l,
        None => RateLimit { available: BURST_NANOSECONDS, last_updated: now },
    };
    let elapsed = if now >= base.last_updated { now - base.last_updated } else { 0 };
    let replenished = if elapsed < BURST_NANOSECONDS - base.available {
        base.available + elapsed
    } else {
        BURST_NANOSECONDS
    };
    if replenished < REPLENISH_NANOSECONDS {
        (RateLimit { available: replenished, last_updated: now }, false)
    } else {
        (RateLimit { available: replenished - REPLENISH_NANOSECONDS, last_updated: now }, true)
    }
}

impl RateLimiter {
    /// Every held allowance is at most a full burst.
    pub closed spec fn wf(&self) -> bool {
        &&& forall|a: u32| #[trigger] self.v4@.contains_key(a) ==> self.v4@[a].available <= BURST_NANOSECONDS
        &&& forall|a: u128| #[trigger] self.v6@.contains_key(a) ==> self.v6@[a].available <= BURST_NANOSECONDS
    }

    /// A limiter that has seen no source.
    pub fn new() -> (limiter: Self)
        ensures
            limiter.wf(),
            limiter@.0 == Map::<u32, RateLimit>::empty(),
            limiter@.1 == Map::<u128, RateLimit>::empty(),
    {
        RateLimiter { v4: HashMap::new(), v6: HashMap::new() }
    }

    /// Records one request from `source` at the instant `now`, in nanoseconds,
    /// and says whether it is admitted.
    ///
    /// A source's first request finds a full burst. The allowance is replenished
    /// by the time since the source's last request, up to a full burst, and is
    /// updated whether or not the request is admitted.
    pub fn allows(&mut self, source: SourceAddress, now: u64) -> (admitted: bool)
        requires
            old(self).wf(),
        ensures
            final(self).wf(),
            ({
                let (limit, allowed) = rate_step(limit_of(old(self)@, source), now);
                &&& admitted == allowed
                &&& final(self)@ == with_limit(old(self)@, source, limit)
            }),
    {
        match source {
            SourceAddress::V4(a) => {
                let held = match self.v4.get(&a) {
                    Some(l) => Some(*l),
                    None => None,
                };
                let (limit, allowed) = replenish(held, now);
                self.v4.insert(a, limit);
                allowed
            },
            SourceAddress::V6(a) => {
                let held = match self.v6.get(&a) {
                    Some(l) => Some(*l),
                    None => None,
                };
                let (limit, allowed) = replenish(held, now);
                self.v6.insert(a, limit);
                allowed
            },
        }
    }
}

/// `n` requests from one source at one instant: the allowance left and how
/// many were admitted.
pub open spec fn requests_at(limit: Option<RateLimit>, now: u64, n: nat) -> (Option<RateLimit>, nat)
    decreases n,
{
    if n == 0 {
        (limit, 0)
    } else {
        let (next, allowed) = rate_step(limit, now);
        let (last, count) = requests_at(Some(next), now, (n - 1) as nat);
        (last, count + if allowed { 1nat } else { 0nat })
    }
}

/// A source seen for the first time is admitted a full burst of requests at
/// once, and the request after the burst is refused.
pub proof fn lemma_fresh_source_gets_one_burst(now: u64)
    ensures
        requests_at(None, now, RATE_LIMIT_BURST as nat).1 == RATE_LIMIT_BURST,
        requests_at(None, now, (RATE_LIMIT_BURST + 1) as nat).1 == RATE_LIMIT_BURST,
{
    reveal_with_fuel(requests_at, 14);
}

/// A refused source is admitted again once one request's replenishment time
/// has passed: twenty requests a minute.
pub proof fn lemma_refused_source_recovers(limit: Option<RateLimit>, now: u64, later: u64)
    requires
        limit matches Some(l) ==> l.available <= BURST_NANOSECONDS,
        !rate_step(limit, now).1,
        later >= now + REPLENISH_NANOSECONDS,
    ensures
        rate_step(Some(rate_step(limit, now).0), later).1,
{
}

/// Sources are limited independently: a request from one source leaves every
/// other source's allowance as it was.
pub proof fn lemma_sources_are_independent(view: (Map<u32, RateLimit>, Map<u128, RateLimit>), source: SourceAddress, other: SourceAddress, limit: RateLimit)
    requires
        source != other,
    ensures
        limit_of(with_limit(view, source, limit), other) == limit_of(view, other),
        limit_of(with_limit(view, source, limit), source) == Some(limit),
{
}

/// The answers to `n` requests from one source at one instant, in order.
pub open spec fn rate_answers(limit: Option<RateLimit>, now: u64, n: nat) -> Seq<bool>
    decreases n,
{
    if n == 0 {
        Seq::empty()
    } else {
        let (next, allowed) = rate_step(limit, now);
        seq![allowed] + rate_answers(Some(next), now, (n - 1) as nat)
    }
}

/// A source seen for the first time has its first twelve requests at one
/// instant admitted, each spending one request's allowance, and the
/// thirteenth refused.
pub proof fn lemma_burst_answers(now: u64)
    ensures
        rate_answers(None, now, (RATE_LIMIT_BURST + 1) as nat).len() == RATE_LIMIT_BURST + 1,
        forall|k: int| 0 <= k < RATE_LIMIT_BURST ==> #[trigger] rate_answers(None, now, (RATE_LIMIT_BURST + 1) as nat)[k],
        !rate_answers(None, now, (RATE_LIMIT_BURST + 1) as nat)[RATE_LIMIT_BURST as int],
{
    reveal_with_fuel(rate_answers, 14);
    assert(rate_answers(None, now, 13) =~= seq![true, true, true, true, true, true, true, true, true, true, true, true, false]);
}

/// Connections served at once in normal slots.
pub const MAX_NORMAL_CONNECTIONS: usize = 15;
/// Connections answered at once with the fixed unavailable response.
pub const MAX_REJECTION_CONNECTIONS: usize = 1;

/// Connection slots: normal ones, and one lane reserved for answering
/// connections that found every normal slot taken.
pub struct ConnectionSlots {
    normal: usize,
    rejection: usize,
}

impl View for ConnectionSlots {
    type V = (nat, nat);

    closed spec fn view(&self) -> (nat, nat) {
        (self.normal as nat, self.rejection as nat)
    }
}

impl ConnectionSlots {
    /// Slots in use never exceed their capacities.
    pub closed spec fn wf(&self) -> bool {
        self.normal <= MAX_NORMAL_CONNECTIONS && self.rejection <= MAX_REJECTION_CONNECTIONS
    }

    /// No slot in use.
    pub fn new() -> (slots: Self)
        ensures
            slots.wf(),
            slots@ == (0nat, 0nat),
    {
        ConnectionSlots { normal: 0, rejection: 0 }
    }

    /// Takes a normal slot if one is free.
    pub fn try_acquire_normal(&mut self) -> (acquired: bool)
        requires
            old(self).wf(),
        ensures
            final(self).wf(),
            acquired == (old(self)@.0 < MAX_NORMAL_CONNECTIONS),
            final(self)@ == if acquired { (old(self)@.0 + 1, old(self)@.1) } else { old(self)@ },
    {
        if self.normal < MAX_NORMAL_CONNECTIONS {
            self.normal = self.normal + 1;
            true
        } else {
            false
        }
    }

    /// Takes the rejection slot if it is free.
    pub fn try_acquire_rejection(&mut self) -> (acquired: bool)
        requires
            old(self).wf(),
        ensures
            final(self).wf(),
            acquired == (old(self)@.1 < MAX_REJECTION_CONNECTIONS),
            final(self)@ == if acquired { (old(self)@.0, old(self)@.1 + 1) } else { old(self)@ },
    {
        if self.rejection < MAX_REJECTION_CONNECTIONS {
            self.rejection = self.rejection + 1;
            true
        } else {
            false
        }
    }

    /// Frees a normal slot when its connection ends.
    pub fn release_normal(&mut self)
        requires
            old(self).wf(),
            old(self)@.0 > 0,
        ensures
            final(self).wf(),
            final(self)@ == ((old(self)@.0 - 1) as nat, old(self)@.1),
    {
        self.normal = self.normal - 1;
    }

    /// Frees the rejection slot when its connection ends.
    pub fn release_rejection(&mut self)
        requires
            old(self).wf(),
            old(self)@.1 > 0,
        ensures
            final(self).wf(),
            final(self)@ == (old(self)@.0, (old(self)@.1 - 1) as nat),
    {
        self.rejection = self.rejection - 1;
    }
}

} // verus!
