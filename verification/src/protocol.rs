//! The instrumentation protocol, as a state machine over observable events.
//!
//! The underlying reader-writer lock owns the real wait queue and fairness
//! policy; this module records what the instrumentation layer observes of it:
//! acquisition attempts, grants, cancellations of attempts still waiting, and
//! releases. The ledger counts those events per flavour, and the proof
//! functions at the end state the laws the protocol obeys: release records
//! pair exactly with grants however a holder's scope ends, cancelled attempts
//! are never paired, and no reachable state holds an exclusive guard
//! alongside any other guard.

use vstd::prelude::*;
use crate::record::OpKind;

verus! {

/// How a holder's scope ended: ordinary completion, an early return, or an
/// unwinding panic. Release accounting must not depend on this.
#[derive(Clone, Copy, PartialEq, Eq, Structural, Debug)]
pub enum ExitPath {
    Normal,
    EarlyReturn,
    Unwind,
}

/// One observable event in the life of an instrumented lock.
#[derive(Clone, Copy, PartialEq, Eq, Structural, Debug)]
pub enum TraceEvent {
    /// A caller asked for shared access; an acquire record is emitted now,
    /// before the caller suspends.
    AttemptShared,
    /// The underlying lock granted shared access to a waiting attempt.
    GrantShared,
    /// A shared guard's scope ended.
    ReleaseShared(ExitPath),
    /// A waiting shared attempt was cancelled before it was granted.
    CancelShared,
    /// A caller asked for exclusive access.
    AttemptExclusive,
    /// The underlying lock granted exclusive access to a waiting attempt.
    GrantExclusive,
    /// An exclusive guard's scope ended.
    ReleaseExclusive(ExitPath),
    /// A waiting exclusive attempt was cancelled before it was granted.
    CancelExclusive,
}

/// The instrumentation ledger for one lock: how many attempts, grants,
/// cancellations and releases of each flavour have been observed.
#[derive(Clone, Copy, PartialEq, Eq, Structural, Debug)]
pub struct TraceState {
    pub shared_attempts: u64,
    pub shared_grants: u64,
    pub shared_cancels: u64,
    pub shared_releases: u64,
    pub exclusive_attempts: u64,
    pub exclusive_grants: u64,
    pub exclusive_cancels: u64,
    pub exclusive_releases: u64,
}

impl TraceState {
    /// Shared guards currently outstanding.
    pub open spec fn shared_held(self) -> int {
        self.shared_grants - self.shared_releases
    }

    /// Exclusive guards currently outstanding.
    pub open spec fn exclusive_held(self) -> int {
        self.exclusive_grants - self.exclusive_releases
    }

    /// Shared attempts still waiting: asked for, neither granted nor
    /// cancelled.
    pub open spec fn shared_waiting(self) -> int {
        self.shared_attempts - self.shared_grants - self.shared_cancels
    }

    /// Exclusive attempts still waiting.
    pub open spec fn exclusive_waiting(self) -> int {
        self.exclusive_attempts - self.exclusive_grants - self.exclusive_cancels
    }

    /// The ledger of a freshly constructed lock: nothing observed yet.
    pub fn new() -> (s: TraceState)
        ensures
            s == spec_init(),
    {
        TraceState {
            shared_attempts: 0,
            shared_grants: 0,
            shared_cancels: 0,
            shared_releases: 0,
            exclusive_attempts: 0,
            exclusive_grants: 0,
            exclusive_cancels: 0,
            exclusive_releases: 0,
        }
    }

    /// The ledger after observing `e`, or `None` when `e` cannot occur in
    /// this state.
    pub fn try_step(&self, e: TraceEvent) -> (r: Option<TraceState>)
        ensures
            r is Some <==> enabled(*self, e),
            r matches Some(s2) ==> s2 == step(*self, e),
    {
        match e {
            TraceEvent::AttemptShared => {
                if self.shared_attempts < u64::MAX {
                    Some(TraceState { shared_attempts: self.shared_attempts + 1, ..*self })
                } else {
                    None
                }
            },
            TraceEvent::GrantShared => {
                if self.shared_grants < self.shared_attempts
                    && self.shared_cancels < self.shared_attempts - self.shared_grants
                    && self.exclusive_releases == self.exclusive_grants {
                    Some(TraceState { shared_grants: self.shared_grants + 1, ..*self })
                } else {
                    None
                }
            },
            TraceEvent::ReleaseShared(_) => {
                if self.shared_releases < self.shared_grants {
                    Some(TraceState { shared_releases: self.shared_releases + 1, ..*self })
                } else {
                    None
                }
            },
            TraceEvent::CancelShared => {
                if self.shared_grants < self.shared_attempts
                    && self.shared_cancels < self.shared_attempts - self.shared_grants {
                    Some(TraceState { shared_cancels: self.shared_cancels + 1, ..*self })
                } else {
                    None
                }
            },
            TraceEvent::AttemptExclusive => {
                if self.exclusive_attempts < u64::MAX {
                    Some(TraceState { exclusive_attempts: self.exclusive_attempts + 1, ..*self })
                } else {
                    None
                }
            },
            TraceEvent::GrantExclusive => {
                if self.exclusive_grants < self.exclusive_attempts
                    && self.exclusive_cancels < self.exclusive_attempts - self.exclusive_grants
                    && self.exclusive_releases == self.exclusive_grants
                    && self.shared_releases == self.shared_grants {
                    Some(TraceState { exclusive_grants: self.exclusive_grants + 1, ..*self })
                } else {
                    None
                }
            },
            TraceEvent::ReleaseExclusive(_) => {
                if self.exclusive_releases < self.exclusive_grants {
                    Some(TraceState { exclusive_releases: self.exclusive_releases + 1, ..*self })
                } else {
                    None
                }
            },
            TraceEvent::CancelExclusive => {
                if self.exclusive_grants < self.exclusive_attempts
                    && self.exclusive_cancels < self.exclusive_attempts - self.exclusive_grants {
                    Some(TraceState { exclusive_cancels: self.exclusive_cancels + 1, ..*self })
                } else {
                    None
                }
            },
        }
    }
}

/// The ledger of a freshly constructed lock.
pub open spec fn spec_init() -> TraceState {
    TraceState {
        shared_attempts: 0,
        shared_grants: 0,
        shared_cancels: 0,
        shared_releases: 0,
        exclusive_attempts: 0,
        exclusive_grants: 0,
        exclusive_cancels: 0,
        exclusive_releases: 0,
    }
}

/// Whether event `e` can occur in state `s`: a grant or a cancellation needs
/// a waiting attempt, a release needs an outstanding guard, a grant respects
/// reader-writer exclusion, and an attempt needs room in its counter.
pub open spec fn enabled(s: TraceState, e: TraceEvent) -> bool {
    match e {
        TraceEvent::AttemptShared => s.shared_attempts < u64::MAX,
        TraceEvent::GrantShared => s.shared_waiting() > 0 && s.exclusive_held() == 0,
        TraceEvent::ReleaseShared(_) => s.shared_held() > 0,
        TraceEvent::CancelShared => s.shared_waiting() > 0,
        TraceEvent::AttemptExclusive => s.exclusive_attempts < u64::MAX,
        TraceEvent::GrantExclusive => s.exclusive_waiting() > 0 && s.exclusive_held() == 0
            && s.shared_held() == 0,
        TraceEvent::ReleaseExclusive(_) => s.exclusive_held() > 0,
        TraceEvent::CancelExclusive => s.exclusive_waiting() > 0,
    }
}

/// The ledger after event `e`: the one counter the event concerns advances.
pub open spec fn step(s: TraceState, e: TraceEvent) -> TraceState {
    match e {
        TraceEvent::AttemptShared => TraceState {
            shared_attempts: (s.shared_attempts + 1) as u64,
            ..s
        },
        TraceEvent::GrantShared => TraceState { shared_grants: (s.shared_grants + 1) as u64, ..s },
        TraceEvent::ReleaseShared(_) => TraceState {
            shared_releases: (s.shared_releases + 1) as u64,
            ..s
        },
        TraceEvent::CancelShared => TraceState {
            shared_cancels: (s.shared_cancels + 1) as u64,
            ..s
        },
        TraceEvent::AttemptExclusive => TraceState {
            exclusive_attempts: (s.exclusive_attempts + 1) as u64,
            ..s
        },
        TraceEvent::GrantExclusive => TraceState {
            exclusive_grants: (s.exclusive_grants + 1) as u64,
            ..s
        },
        TraceEvent::ReleaseExclusive(_) => TraceState {
            exclusive_releases: (s.exclusive_releases + 1) as u64,
            ..s
        },
        TraceEvent::CancelExclusive => TraceState {
            exclusive_cancels: (s.exclusive_cancels + 1) as u64,
            ..s
        },
    }
}

/// The access record that observing `e` emits, if any: attempts and releases
/// are recorded, grants and cancellations emit nothing of their own.
pub open spec fn record_of(e: TraceEvent) -> Option<OpKind> {
    match e {
        TraceEvent::AttemptShared => Some(OpKind::AcquireShared),
        TraceEvent::GrantShared => None,
        TraceEvent::ReleaseShared(_) => Some(OpKind::ReleaseShared),
        TraceEvent::CancelShared => None,
        TraceEvent::AttemptExclusive => Some(OpKind::AcquireExclusive),
        TraceEvent::GrantExclusive => None,
        TraceEvent::ReleaseExclusive(_) => Some(OpKind::ReleaseExclusive),
        TraceEvent::CancelExclusive => None,
    }
}

/// The access record that observing `e` emits, if any.
pub fn emitted_record(e: TraceEvent) -> (r: Option<OpKind>)
    ensures
        r == record_of(e),
{
    match e {
        TraceEvent::AttemptShared => Some(OpKind::AcquireShared),
        TraceEvent::GrantShared => None,
        TraceEvent::ReleaseShared(_) => Some(OpKind::ReleaseShared),
        TraceEvent::CancelShared => None,
        TraceEvent::AttemptExclusive => Some(OpKind::AcquireExclusive),
        TraceEvent::GrantExclusive => None,
        TraceEvent::ReleaseExclusive(_) => Some(OpKind::ReleaseExclusive),
        TraceEvent::CancelExclusive => None,
    }
}

/// The state after running the events of `evs` in order from `s0`.
pub open spec fn run(s0: TraceState, evs: Seq<TraceEvent>) -> TraceState
    decreases evs.len(),
{
    if evs.len() == 0 {
        s0
    } else {
        run(step(s0, evs[0]), evs.drop_first())
    }
}

/// Whether every event of `evs` is enabled in the state it runs from.
pub open spec fn valid_from(s0: TraceState, evs: Seq<TraceEvent>) -> bool
    decreases evs.len(),
{
    evs.len() == 0 || (enabled(s0, evs[0]) && valid_from(step(s0, evs[0]), evs.drop_first()))
}

/// Whether `evs` is a history an instrumented lock can actually have: a valid
/// run from the fresh ledger.
pub open spec fn reachable(evs: Seq<TraceEvent>) -> bool {
    valid_from(spec_init(), evs)
}

/// The well-formedness invariant of the ledger: no counter outruns the one
/// that feeds it, and grants respect reader-writer exclusion.
pub open spec fn inv(s: TraceState) -> bool {
    &&& s.shared_releases <= s.shared_grants
    &&& s.shared_grants + s.shared_cancels <= s.shared_attempts
    &&& s.exclusive_releases <= s.exclusive_grants
    &&& s.exclusive_grants + s.exclusive_cancels <= s.exclusive_attempts
    &&& s.exclusive_held() <= 1
    &&& s.exclusive_held() > 0 ==> s.shared_held() == 0
}

/// The fresh ledger is well formed.
pub proof fn lemma_inv_init()
    ensures
        inv(spec_init()),
{
}

/// Every enabled event preserves well-formedness.
pub proof fn lemma_inv_step(s: TraceState, e: TraceEvent)
    requires
        inv(s),
        enabled(s, e),
    ensures
        inv(step(s, e)),
{
}

/// Every valid run from a well-formed state ends in a well-formed state.
pub proof fn lemma_inv_run(s0: TraceState, evs: Seq<TraceEvent>)
    requires
        inv(s0),
        valid_from(s0, evs),
    ensures
        inv(run(s0, evs)),
    decreases evs.len(),
{
    if evs.len() > 0 {
        lemma_inv_step(s0, evs[0]);
        lemma_inv_run(step(s0, evs[0]), evs.drop_first());
    }
}

/// A prefix of a valid run is itself a valid run.
proof fn lemma_valid_prefix(s0: TraceState, evs: Seq<TraceEvent>, i: int)
    requires
        valid_from(s0, evs),
        0 <= i <= evs.len(),
    ensures
        valid_from(s0, evs.take(i)),
    decreases evs.len(),
{
    if i > 0 {
        assert(evs.take(i)[0] == evs[0]);
        assert(evs.take(i).drop_first() =~= evs.drop_first().take(i - 1));
        lemma_valid_prefix(step(s0, evs[0]), evs.drop_first(), i - 1);
    }
}

/// Mutual exclusion: at every instant of every history an instrumented lock
/// can have, at most one exclusive guard is outstanding, and never alongside
/// any shared guard.
pub proof fn lemma_mutual_exclusion(evs: Seq<TraceEvent>, i: int)
    requires
        reachable(evs),
        0 <= i <= evs.len(),
    ensures
        run(spec_init(), evs.take(i)).exclusive_held() <= 1,
        run(spec_init(), evs.take(i)).exclusive_held() > 0 ==> run(
            spec_init(),
            evs.take(i),
        ).shared_held() == 0,
{
    lemma_valid_prefix(spec_init(), evs, i);
    lemma_inv_init();
    lemma_inv_run(spec_init(), evs.take(i));
}

/// Pairing: in any history whose guards' scopes have all ended, exactly as
/// many release records were emitted as acquisitions were granted, flavour by
/// flavour; and at no instant were there ever more releases than grants.
pub proof fn lemma_release_pairing(evs: Seq<TraceEvent>, i: int)
    requires
        reachable(evs),
        0 <= i <= evs.len(),
    ensures
        run(spec_init(), evs.take(i)).shared_releases <= run(
            spec_init(),
            evs.take(i),
        ).shared_grants,
        run(spec_init(), evs.take(i)).exclusive_releases <= run(
            spec_init(),
            evs.take(i),
        ).exclusive_grants,
        run(spec_init(), evs).shared_held() == 0 ==> run(spec_init(), evs).shared_releases == run(
            spec_init(),
            evs,
        ).shared_grants,
        run(spec_init(), evs).exclusive_held() == 0 ==> run(spec_init(), evs).exclusive_releases
            == run(spec_init(), evs).exclusive_grants,
{
    lemma_valid_prefix(spec_init(), evs, i);
    lemma_inv_init();
    lemma_inv_run(spec_init(), evs.take(i));
    assert(evs.take(evs.len() as int) =~= evs);
    lemma_valid_prefix(spec_init(), evs, evs.len() as int);
    lemma_inv_run(spec_init(), evs);
}

/// Release accounting is blind to the exit path: a release observed on an
/// early return or an unwind is enabled under the same condition, advances
/// the ledger identically, and emits the same record as a release observed
/// on ordinary completion.
pub proof fn lemma_exit_path_irrelevant(s: TraceState, p: ExitPath, q: ExitPath)
    ensures
        enabled(s, TraceEvent::ReleaseShared(p)) == enabled(s, TraceEvent::ReleaseShared(q)),
        enabled(s, TraceEvent::ReleaseExclusive(p)) == enabled(s, TraceEvent::ReleaseExclusive(q)),
        step(s, TraceEvent::ReleaseShared(p)) == step(s, TraceEvent::ReleaseShared(q)),
        step(s, TraceEvent::ReleaseExclusive(p)) == step(s, TraceEvent::ReleaseExclusive(q)),
        record_of(TraceEvent::ReleaseShared(p)) == record_of(TraceEvent::ReleaseShared(q)),
        record_of(TraceEvent::ReleaseExclusive(p)) == record_of(TraceEvent::ReleaseExclusive(q)),
{
}

/// Cancellation pairs with nothing: a cancelled attempt emits no record of
/// its own and moves neither the grant nor the release counters, so no
/// release record is ever emitted for an attempt cancelled while waiting.
pub proof fn lemma_cancellation_unpaired(s: TraceState)
    ensures
        record_of(TraceEvent::CancelShared) is None,
        record_of(TraceEvent::CancelExclusive) is None,
        step(s, TraceEvent::CancelShared).shared_grants == s.shared_grants,
        step(s, TraceEvent::CancelShared).shared_releases == s.shared_releases,
        step(s, TraceEvent::CancelExclusive).exclusive_grants == s.exclusive_grants,
        step(s, TraceEvent::CancelExclusive).exclusive_releases == s.exclusive_releases,
{
}

/// Full accounting of a finished history: once every guard's scope has ended
/// and no attempt is still waiting, each attempt was either granted and then
/// released exactly once, or cancelled and never released.
pub proof fn lemma_attempt_accounting(evs: Seq<TraceEvent>)
    requires
        reachable(evs),
        run(spec_init(), evs).shared_held() == 0,
        run(spec_init(), evs).shared_waiting() == 0,
        run(spec_init(), evs).exclusive_held() == 0,
        run(spec_init(), evs).exclusive_waiting() == 0,
    ensures
        run(spec_init(), evs).shared_releases + run(spec_init(), evs).shared_cancels == run(
            spec_init(),
            evs,
        ).shared_attempts,
        run(spec_init(), evs).exclusive_releases + run(spec_init(), evs).exclusive_cancels == run(
            spec_init(),
            evs,
        ).exclusive_attempts,
{
    lemma_inv_init();
    lemma_inv_run(spec_init(), evs);
}

} // verus!
