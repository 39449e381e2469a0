//! Task identifiers.

use vstd::prelude::*;

verus! {

/// The counter from which task identifiers are drawn. A process keeps one.
pub struct TaskIds {
    next: usize,
}

impl View for TaskIds {
    type V = nat;

    /// The identifier that the next draw yields.
    closed spec fn view(&self) -> nat {
        self.next as nat
    }
}

impl TaskIds {
    /// Identifiers are drawn from the lower half of the integer range only.
    pub open spec fn limit() -> nat {
        (usize::MAX / 2) as nat
    }

    /// The identifier that the `n`-th draw from now yields, counting from
    /// zero.
    pub open spec fn drawn(&self, n: nat) -> nat {
        self@ + n
    }

    /// A counter from which nothing has been drawn.
    pub fn new() -> (ids: Self)
        ensures
            ids@ == 0,
    {
        TaskIds { next: 0 }
    }

    /// A counter whose next draw yields `first`.
    pub fn starting_at(first: usize) -> (ids: Self)
        ensures
            ids@ == first,
    {
        TaskIds { next: first }
    }

    /// Whether the lower half of the integer range is used up, so that no
    /// identifier can be drawn.
    pub fn exhausted(&self) -> (b: bool)
        ensures
            b == (self@ >= Self::limit()),
    {
        self.next >= usize::MAX / 2
    }
}

/// Draws the next identifier. Identifiers are never taken back.
///
/// The counter must not be exhausted: a process that has used up the lower
/// half of the integer range cannot create another task.
pub fn fresh_task_id(ids: &mut TaskIds) -> (id: usize)
    requires
        old(ids)@ < TaskIds::limit(),
    ensures
        id == old(ids).drawn(0),
        final(ids)@ == old(ids)@ + 1,
        forall|n: nat| #[trigger] final(ids).drawn(n) == old(ids).drawn(n + 1),
{
    let id = ids.next;
    ids.next = id + 1;
    id
}

/// Identifiers are unique: two different draws from one counter never yield
/// the same identifier.
pub proof fn law_unique_ids(ids: TaskIds, i: nat, j: nat)
    requires
        i != j,
    ensures
        ids.drawn(i) != ids.drawn(j),
{
}

} // verus!
