//! Interleaved-execution models of the two synchronization protocols.
//!
//! The executable lock and lazy singleton are sequential code; what makes
//! them correct is a protocol argument about any number of hardware execution
//! contexts — other cores, interrupt handlers — interleaving their steps.
//! This module states those protocols as transition systems over ghost state
//! and proves their safety invariants for every execution: no two contexts
//! ever hold the lock at once, and the lazy initializer runs exactly once,
//! with every finished context observing the same value.
//!
//! Each step below mirrors one atomic instruction of the executable code: a
//! successful compare-and-swap on the lock flag, the release store, the
//! unlocked fast-path read of the lazy slot, the re-check under the lock, and
//! the single initializing write.

use vstd::prelude::*;

verus! {

// ---------------------------------------------------------------------------
// The spin-lock protocol.
// ---------------------------------------------------------------------------

/// What one execution context is doing with the lock.
pub ghost enum LockPhase {
    /// Not holding the lock (idle or still spinning on a failed swap).
    Outside,
    /// Between a successful acquire and the release.
    Critical,
}

/// A snapshot of the whole system: the shared lock flag and the phase of
/// every execution context.
pub ghost struct LockState {
    pub flag: bool,
    pub phases: Map<int, LockPhase>,
}

/// At the start the flag is down and every context is outside.
pub open spec fn lock_init(s: LockState) -> bool {
    &&& !s.flag
    &&& forall|c: int| s.phases.dom().contains(c) ==> #[trigger] s.phases[c] is Outside
}

/// Context `c` wins a compare-and-swap: only possible while the flag is
/// down, and it raises the flag as it enters the critical phase. A failed
/// swap changes nothing and is covered by the stutter step of [`lock_next`].
pub open spec fn acquire_step(pre: LockState, post: LockState, c: int) -> bool {
    &&& pre.phases.dom().contains(c)
    &&& pre.phases[c] is Outside
    &&& !pre.flag
    &&& post.flag
    &&& post.phases == pre.phases.insert(c, LockPhase::Critical)
}

/// Context `c` releases: the flag is stored back down as it leaves the
/// critical phase.
pub open spec fn release_step(pre: LockState, post: LockState, c: int) -> bool {
    &&& pre.phases.dom().contains(c)
    &&& pre.phases[c] is Critical
    &&& !post.flag
    &&& post.phases == pre.phases.insert(c, LockPhase::Outside)
}

/// One interleaving step: some context acquires or releases, or nothing
/// observable happens (a failed swap, a spin iteration).
pub open spec fn lock_next(pre: LockState, post: LockState) -> bool {
    ||| post == pre
    ||| exists|c: int| acquire_step(pre, post, c) || release_step(pre, post, c)
}

/// The safety invariant: every critical context sees the flag up, and no two
/// contexts are critical at once.
pub open spec fn lock_inv(s: LockState) -> bool {
    &&& (forall|c: int|
        s.phases.dom().contains(c) && #[trigger] s.phases[c] is Critical ==> s.flag)
    &&& (forall|c1: int, c2: int|
        s.phases.dom().contains(c1) && #[trigger] s.phases[c1] is Critical
            && s.phases.dom().contains(c2) && #[trigger] s.phases[c2] is Critical ==> c1 == c2)
}

/// The initial state satisfies the lock invariant.
pub proof fn lemma_lock_init_inv(s: LockState)
    requires
        lock_init(s),
    ensures
        lock_inv(s),
{
}

/// Every step preserves the lock invariant.
pub proof fn lemma_lock_next_inv(pre: LockState, post: LockState)
    requires
        lock_inv(pre),
        lock_next(pre, post),
    ensures
        lock_inv(post),
{
    if post != pre {
        let c = choose|c: int| acquire_step(pre, post, c) || release_step(pre, post, c);
        if acquire_step(pre, post, c) {
            assert forall|d: int|
                post.phases.dom().contains(d) && #[trigger] post.phases[d] is Critical
                implies d == c by {
                if d != c {
                    assert(pre.phases[d] is Critical);
                }
            }
        }
    }
}

/// A finite interleaving of lock steps, starting from the initial state.
pub open spec fn lock_execution(tr: Seq<LockState>) -> bool {
    &&& tr.len() > 0
    &&& lock_init(tr[0])
    &&& forall|i: int| 0 <= i < tr.len() - 1 ==> lock_next(#[trigger] tr[i], tr[i + 1])
}

/// The lock invariant holds at every point of every execution.
pub proof fn lemma_lock_execution_inv(tr: Seq<LockState>, i: int)
    requires
        lock_execution(tr),
        0 <= i < tr.len(),
    ensures
        lock_inv(tr[i]),
    decreases i,
{
    if i == 0 {
        lemma_lock_init_inv(tr[0]);
    } else {
        lemma_lock_execution_inv(tr, i - 1);
        lemma_lock_next_inv(tr[i - 1], tr[i]);
    }
}

/// Mutual exclusion: however many contexts interleave acquires and releases,
/// no two of them are ever inside the critical phase at the same instant.
pub proof fn lemma_mutual_exclusion(tr: Seq<LockState>, i: int, c1: int, c2: int)
    requires
        lock_execution(tr),
        0 <= i < tr.len(),
        tr[i].phases.dom().contains(c1),
        tr[i].phases[c1] is Critical,
        tr[i].phases.dom().contains(c2),
        tr[i].phases[c2] is Critical,
    ensures
        c1 == c2,
{
    lemma_lock_execution_inv(tr, i);
}

// ---------------------------------------------------------------------------
// The double-checked lazy-initialization protocol.
// ---------------------------------------------------------------------------

/// Where one execution context stands in the double-checked protocol.
pub ghost enum InitPhase {
    /// Has not read the slot yet.
    Start,
    /// The unlocked fast-path read found the slot empty.
    FastMissed,
    /// Holds the initializer lock, before the second check.
    Holding,
    /// Finished, having observed this value.
    Done(int),
}

/// A snapshot of the lazy singleton under concurrent first-time access: the
/// initializer lock's flag, the once-written slot, how often the initializer
/// has run, and every context's phase.
pub ghost struct LazyState {
    pub flag: bool,
    pub stored: Option<int>,
    pub runs: nat,
    pub phases: Map<int, InitPhase>,
}

/// At the start nothing is initialized and every context has yet to look.
pub open spec fn lazy_init(s: LazyState) -> bool {
    &&& !s.flag
    &&& s.stored is None
    &&& s.runs == 0
    &&& forall|c: int| s.phases.dom().contains(c) ==> #[trigger] s.phases[c] is Start
}

/// The unlocked fast-path read finds the slot already written: the context is
/// done at once with the value it read.
pub open spec fn fast_hit_step(pre: LazyState, post: LazyState, c: int) -> bool {
    &&& pre.phases.dom().contains(c)
    &&& pre.phases[c] is Start
    &&& pre.stored is Some
    &&& post == (LazyState { phases: pre.phases.insert(c, InitPhase::Done(pre.stored->0)), ..pre })
}

/// The unlocked fast-path read finds the slot empty: the context moves on to
/// take the lock.
pub open spec fn fast_miss_step(pre: LazyState, post: LazyState, c: int) -> bool {
    &&& pre.phases.dom().contains(c)
    &&& pre.phases[c] is Start
    &&& pre.stored is None
    &&& post == (LazyState { phases: pre.phases.insert(c, InitPhase::FastMissed), ..pre })
}

/// The context wins the compare-and-swap on the initializer lock.
pub open spec fn take_lock_step(pre: LazyState, post: LazyState, c: int) -> bool {
    &&& pre.phases.dom().contains(c)
    &&& pre.phases[c] is FastMissed
    &&& !pre.flag
    &&& post == (LazyState { flag: true, phases: pre.phases.insert(c, InitPhase::Holding), ..pre })
}

/// The second check, under the lock, still finds the slot empty: the
/// initializer runs — producing some value `v` — the slot is written for the
/// first and only time, and the lock is released.
pub open spec fn run_init_step(pre: LazyState, post: LazyState, c: int, v: int) -> bool {
    &&& pre.phases.dom().contains(c)
    &&& pre.phases[c] is Holding
    &&& pre.stored is None
    &&& post == (LazyState {
        flag: false,
        stored: Some(v),
        runs: pre.runs + 1,
        phases: pre.phases.insert(c, InitPhase::Done(v)),
    })
}

/// The second check finds the slot written after all — another context raced
/// in between the fast read and the lock — so the initializer is skipped and
/// the lock released.
pub open spec fn skip_init_step(pre: LazyState, post: LazyState, c: int) -> bool {
    &&& pre.phases.dom().contains(c)
    &&& pre.phases[c] is Holding
    &&& pre.stored is Some
    &&& post == (LazyState {
        flag: false,
        phases: pre.phases.insert(c, InitPhase::Done(pre.stored->0)),
        ..pre
    })
}

/// One interleaving step of the lazy protocol, or an unobservable stutter.
pub open spec fn lazy_next(pre: LazyState, post: LazyState) -> bool {
    ||| post == pre
    ||| exists|c: int|
        {
            ||| fast_hit_step(pre, post, c)
            ||| fast_miss_step(pre, post, c)
            ||| take_lock_step(pre, post, c)
            ||| (exists|v: int| run_init_step(pre, post, c, v))
            ||| skip_init_step(pre, post, c)
        }
}

/// The safety invariant: the initializer has run at most once, and exactly
/// once the moment the slot is written; the lock discipline holds for the
/// `Holding` phase; and every finished context observed exactly the stored
/// value.
pub open spec fn lazy_inv(s: LazyState) -> bool {
    &&& s.runs <= 1
    &&& (s.stored is Some <==> s.runs == 1)
    &&& (forall|c: int|
        s.phases.dom().contains(c) && #[trigger] s.phases[c] is Holding ==> s.flag)
    &&& (forall|c1: int, c2: int|
        s.phases.dom().contains(c1) && #[trigger] s.phases[c1] is Holding
            && s.phases.dom().contains(c2) && #[trigger] s.phases[c2] is Holding ==> c1 == c2)
    &&& (forall|c: int|
        s.phases.dom().contains(c) && #[trigger] s.phases[c] is Done ==> s.stored == Some(
            s.phases[c]->0,
        ))
}

/// The initial state satisfies the lazy invariant.
pub proof fn lemma_lazy_init_inv(s: LazyState)
    requires
        lazy_init(s),
    ensures
        lazy_inv(s),
{
}

/// Every step preserves the lazy invariant.
pub proof fn lemma_lazy_next_inv(pre: LazyState, post: LazyState)
    requires
        lazy_inv(pre),
        lazy_next(pre, post),
    ensures
        lazy_inv(post),
{
    if post != pre {
        let c = choose|c: int|
            {
                ||| fast_hit_step(pre, post, c)
                ||| fast_miss_step(pre, post, c)
                ||| take_lock_step(pre, post, c)
                ||| (exists|v: int| run_init_step(pre, post, c, v))
                ||| skip_init_step(pre, post, c)
            };
        if take_lock_step(pre, post, c) {
            assert forall|d: int|
                post.phases.dom().contains(d) && #[trigger] post.phases[d] is Holding
                implies d == c by {
                if d != c {
                    assert(pre.phases[d] is Holding);
                }
            }
        } else if exists|v: int| run_init_step(pre, post, c, v) {
            let v = choose|v: int| run_init_step(pre, post, c, v);
            assert forall|d: int|
                post.phases.dom().contains(d) && #[trigger] post.phases[d] is Done
                implies post.stored == Some(post.phases[d]->0) by {
                if d != c {
                    assert(pre.phases[d] is Done);
                    assert(pre.stored == Some(pre.phases[d]->0));
                }
            }
        }
    }
}

/// A finite interleaving of lazy-protocol steps from the initial state.
pub open spec fn lazy_execution(tr: Seq<LazyState>) -> bool {
    &&& tr.len() > 0
    &&& lazy_init(tr[0])
    &&& forall|i: int| 0 <= i < tr.len() - 1 ==> lazy_next(#[trigger] tr[i], tr[i + 1])
}

/// The lazy invariant holds at every point of every execution.
pub proof fn lemma_lazy_execution_inv(tr: Seq<LazyState>, i: int)
    requires
        lazy_execution(tr),
        0 <= i < tr.len(),
    ensures
        lazy_inv(tr[i]),
    decreases i,
{
    if i == 0 {
        lemma_lazy_init_inv(tr[0]);
    } else {
        lemma_lazy_execution_inv(tr, i - 1);
        lemma_lazy_next_inv(tr[i - 1], tr[i]);
    }
}

/// Exactly-once initialization: at any instant of any interleaving, the
/// initializer has run at most once, and once any context has finished it has
/// run exactly once.
pub proof fn lemma_initializer_runs_once(tr: Seq<LazyState>, i: int, c: int)
    requires
        lazy_execution(tr),
        0 <= i < tr.len(),
        tr[i].phases.dom().contains(c),
        tr[i].phases[c] is Done,
    ensures
        tr[i].runs == 1,
{
    lemma_lazy_execution_inv(tr, i);
}

/// Agreement: any two contexts that have finished — however many interleaved
/// first-time accesses there were — observed the same value, the one the
/// single initializer run stored.
pub proof fn lemma_all_observe_same_value(tr: Seq<LazyState>, i: int, c1: int, c2: int)
    requires
        lazy_execution(tr),
        0 <= i < tr.len(),
        tr[i].phases.dom().contains(c1),
        tr[i].phases[c1] is Done,
        tr[i].phases.dom().contains(c2),
        tr[i].phases[c2] is Done,
    ensures
        tr[i].phases[c1]->0 == tr[i].phases[c2]->0,
        tr[i].stored == Some(tr[i].phases[c1]->0),
{
    lemma_lazy_execution_inv(tr, i);
}

} // verus!
