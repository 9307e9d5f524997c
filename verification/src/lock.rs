//! Priority-ceiling resource locking.
//!
//! Every shared peripheral has a static ceiling: the highest priority of any
//! execution context that ever locks it, fixed by the task/resource binding
//! table at build time. Taking a lock never waits: it only raises the
//! executing context's effective priority to the ceiling, so that no context
//! able to touch the resource can preempt the critical section. Releasing
//! restores the exact prior priority, on every exit path.

use crate::{PRIO_HANDLER, PRIO_IDLE, PRIO_TASK_A, PRIO_TASK_B};
use vstd::prelude::*;

verus! {

/// The shared peripherals guarded by the lock protocol.
#[derive(Clone, Copy, PartialEq, Eq, Structural, Debug)]
pub enum ResourceId {
    /// The button edge-detect unit, touched only by the interrupt handler.
    Gpiote,
    /// The LED matrix, shared by both animation tasks and the idle loop.
    Display,
    /// The frame timer, always locked together with the display.
    Timer,
}

/// The static binding table: which execution contexts (by priority) ever
/// lock which resource.
pub open spec fn spec_binds(prio: u8, r: ResourceId) -> bool {
    match r {
        ResourceId::Gpiote => prio == PRIO_HANDLER,
        ResourceId::Display => prio == PRIO_IDLE || prio == PRIO_TASK_A || prio == PRIO_TASK_B,
        ResourceId::Timer => prio == PRIO_IDLE || prio == PRIO_TASK_A || prio == PRIO_TASK_B,
    }
}

/// The ceiling of each resource, computed once from the binding table.
pub open spec fn spec_ceiling(r: ResourceId) -> u8 {
    match r {
        ResourceId::Gpiote => PRIO_HANDLER,
        ResourceId::Display => PRIO_TASK_B,
        ResourceId::Timer => PRIO_TASK_B,
    }
}

/// The ceiling table is exactly the maximum of the binding table: every
/// resource is bound to a context at its ceiling, and to none above it.
pub proof fn lemma_ceiling_is_max_of_bindings(r: ResourceId)
    ensures
        spec_binds(spec_ceiling(r), r),
        forall|p: u8| spec_binds(p, r) ==> p <= spec_ceiling(r),
{
}

/// Executable form of the ceiling table.
pub fn ceiling(r: ResourceId) -> (c: u8)
    ensures
        c == spec_ceiling(r),
{
    match r {
        ResourceId::Gpiote => PRIO_HANDLER,
        ResourceId::Display => PRIO_TASK_B,
        ResourceId::Timer => PRIO_TASK_B,
    }
}

/// The larger of two priorities.
pub open spec fn prio_max(a: u8, b: u8) -> u8 {
    if a >= b {
        a
    } else {
        b
    }
}

/// The effective priority demanded by a base priority and the resources
/// held, innermost acquisition last.
pub open spec fn elevated(base: u8, held: Seq<ResourceId>) -> u8
    decreases held.len(),
{
    if held.len() == 0 {
        base
    } else {
        prio_max(elevated(base, held.drop_last()), spec_ceiling(held.last()))
    }
}

/// The highest ceiling among a set of held resources (the base priority
/// when none is held).
pub open spec fn max_ceiling(base: u8, held: Seq<ResourceId>) -> u8
    decreases held.len(),
{
    if held.len() == 0 {
        base
    } else {
        prio_max(max_ceiling(base, held.drop_last()), spec_ceiling(held.last()))
    }
}

/// Scoped, nestable priority-ceiling acquisition state of one executing
/// context.
pub struct LockManager {
    /// The context's own static priority, before any acquisition.
    pub base: u8,
    /// The resources currently held, innermost acquisition last.
    pub held: Vec<ResourceId>,
    /// For each held resource, the effective priority to restore when it is
    /// released.
    pub saved: Vec<u8>,
    /// The current effective priority of the context.
    pub effective: u8,
}

impl LockManager {
    /// The lock state is consistent: one saved priority per held resource,
    /// the effective priority is the one the held resources demand, and
    /// each saved priority is the elevation before its acquisition.
    pub open spec fn wf(self) -> bool {
        &&& self.saved@.len() == self.held@.len()
        &&& self.effective == elevated(self.base, self.held@)
        &&& forall|i: int|
            0 <= i < self.held@.len() ==> self.saved@[i] == elevated(
                self.base,
                self.held@.take(i),
            )
    }

    /// Whether the context currently holds a lock on `r`.
    pub open spec fn holds(self, r: ResourceId) -> bool {
        self.held@.contains(r)
    }

    /// A fresh lock state for a context of priority `base`: nothing held,
    /// no elevation.
    pub fn new(base: u8) -> (m: LockManager)
        ensures
            m.wf(),
            m.base == base,
            m.held@ == Seq::<ResourceId>::empty(),
            m.effective == base,
    {
        LockManager { base, held: Vec::new(), saved: Vec::new(), effective: base }
    }

    /// Enters a critical section on `r`: raises the effective priority to
    /// the ceiling of `r` if it is higher. Never waits.
    pub fn acquire(&mut self, r: ResourceId)
        requires
            old(self).wf(),
        ensures
            final(self).wf(),
            final(self).base == old(self).base,
            final(self).held@ == old(self).held@.push(r),
            final(self).effective == prio_max(old(self).effective, spec_ceiling(r)),
    {
        proof {
            assert(old(self).held@.push(r).drop_last() =~= old(self).held@);
            assert(old(self).held@.push(r).take(old(self).held@.len() as int) =~= old(
                self,
            ).held@);
            assert(forall|i: int|
                0 <= i < old(self).held@.len() ==> old(self).held@.push(r).take(i)
                    =~= old(self).held@.take(i));
        }
        self.saved.push(self.effective);
        self.held.push(r);
        let c = ceiling(r);
        if c > self.effective {
            self.effective = c;
        }
    }

    /// Leaves the innermost critical section, restoring the effective
    /// priority that was in force before its acquisition.
    pub fn release(&mut self) -> (r: ResourceId)
        requires
            old(self).wf(),
            old(self).held@.len() > 0,
        ensures
            final(self).wf(),
            final(self).base == old(self).base,
            final(self).held@ == old(self).held@.drop_last(),
            r == old(self).held@.last(),
            final(self).effective == elevated(old(self).base, old(self).held@.drop_last()),
    {
        proof {
            assert(old(self).held@.take(old(self).held@.len() - 1) =~= old(
                self,
            ).held@.drop_last());
            assert(forall|i: int|
                0 <= i < old(self).held@.len() - 1 ==> old(self).held@.drop_last().take(i)
                    =~= old(self).held@.take(i));
        }
        let r = self.held.pop().unwrap();
        self.effective = self.saved.pop().unwrap();
        r
    }
}

/// A context holding no lock runs at exactly its own priority: a completed
/// scoped acquisition has restored the pre-acquisition value.
pub proof fn lemma_no_locks_no_elevation(m: LockManager)
    requires
        m.wf(),
        m.held@.len() == 0,
    ensures
        m.effective == m.base,
{
}

/// While `r` is held, the effective priority is at least the ceiling of
/// `r`, and never below the context's own priority.
pub proof fn lemma_elevated_at_least(base: u8, held: Seq<ResourceId>, r: ResourceId)
    requires
        held.contains(r),
    ensures
        elevated(base, held) >= spec_ceiling(r),
        elevated(base, held) >= base,
    decreases held.len(),
{
    lemma_elevated_at_least_base(base, held);
    if held.last() != r {
        assert(held.drop_last().contains(r)) by {
            let i = choose|i: int| 0 <= i < held.len() && held[i] == r;
            assert(held.drop_last()[i] == r);
        }
        lemma_elevated_at_least(base, held.drop_last(), r);
    }
}

/// Elevation never drops below the context's own priority.
pub proof fn lemma_elevated_at_least_base(base: u8, held: Seq<ResourceId>)
    ensures
        elevated(base, held) >= base,
    decreases held.len(),
{
    if held.len() > 0 {
        lemma_elevated_at_least_base(base, held.drop_last());
    }
}

/// Lock nesting is deadlock-free by construction: however many resources a
/// scoped acquisition has taken, the elevated priority is exactly the
/// maximum ceiling among the held resources (or the context's own priority
/// when that is higher) — no acquisition ever waits.
pub proof fn lemma_elevation_is_max_ceiling(base: u8, held: Seq<ResourceId>)
    ensures
        elevated(base, held) == max_ceiling(base, held),
    decreases held.len(),
{
    if held.len() > 0 {
        lemma_elevation_is_max_ceiling(base, held.drop_last());
    }
}

/// The elevation is determined by which resources are held, not by the
/// order in which they were acquired: any two acquisition orders of the
/// same resources elevate to the same priority.
pub proof fn lemma_elevation_order_independent(base: u8, h1: Seq<ResourceId>, h2: Seq<ResourceId>)
    requires
        forall|r: ResourceId| h1.contains(r) <==> h2.contains(r),
    ensures
        elevated(base, h1) == elevated(base, h2),
{
    lemma_elevated_characterization(base, h1);
    lemma_elevated_characterization(base, h2);
    let e1 = elevated(base, h1);
    let e2 = elevated(base, h2);
    if e1 != base {
        let r = choose|r: ResourceId| h1.contains(r) && spec_ceiling(r) == e1;
        assert(h2.contains(r));
    }
    if e2 != base {
        let r = choose|r: ResourceId| h2.contains(r) && spec_ceiling(r) == e2;
        assert(h1.contains(r));
    }
}

/// The elevation is the least priority at or above the base that dominates
/// every held resource's ceiling, and it is attained by one of them.
pub proof fn lemma_elevated_characterization(base: u8, held: Seq<ResourceId>)
    ensures
        elevated(base, held) >= base,
        forall|r: ResourceId| held.contains(r) ==> spec_ceiling(r) <= elevated(base, held),
        elevated(base, held) == base || exists|r: ResourceId|
            held.contains(r) && spec_ceiling(r) == elevated(base, held),
    decreases held.len(),
{
    lemma_elevated_at_least_base(base, held);
    if held.len() > 0 {
        lemma_elevated_characterization(base, held.drop_last());
        assert forall|r: ResourceId| held.contains(r) implies spec_ceiling(r) <= elevated(
            base,
            held,
        ) by {
            if r != held.last() {
                let i = choose|i: int| 0 <= i < held.len() && held[i] == r;
                if i < held.len() - 1 {
                    assert(held.drop_last()[i] == r);
                    assert(held.drop_last().contains(r));
                }
            }
        }
        if elevated(base, held) != base {
            if elevated(base, held) == spec_ceiling(held.last()) {
                assert(held.contains(held.last()));
            } else {
                let r = choose|r: ResourceId|
                    held.drop_last().contains(r) && spec_ceiling(r) == elevated(
                        base,
                        held.drop_last(),
                    );
                let i = choose|i: int|
                    0 <= i < held.drop_last().len() && held.drop_last()[i] == r;
                assert(held[i] == r);
                assert(held.contains(r));
            }
        }
    }
}

} // verus!
