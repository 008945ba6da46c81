//! The snapshot that the acquisition task publishes and the control task
//! reads.
//!
//! Both tasks reach it only through the platform's lock, and only through the
//! two operations below: a publish replaces the whole snapshot, and a read
//! copies the whole snapshot out. Neither hands out a reference into it, so a
//! reader never sees fields of two different cycles.
use vstd::prelude::*;
use crate::flight::DroneCoreState;

verus! {

/// The guarded shared snapshot.
pub struct SharedState {
    state: DroneCoreState,
}

impl SharedState {
    /// The snapshot currently held.
    pub closed spec fn current(&self) -> DroneCoreState {
        self.state
    }

    pub fn new(initial: DroneCoreState) -> (r: SharedState)
        ensures
            r.current() == initial,
    {
        SharedState { state: initial }
    }

    /// Replaces the whole snapshot.
    pub fn publish(&mut self, state: DroneCoreState)
        ensures
            final(self).current() == state,
    {
        self.state = state;
    }

    /// A copy of the whole snapshot.
    pub fn snapshot(&self) -> (r: DroneCoreState)
        ensures
            r == self.current(),
    {
        self.state
    }
}

/// The snapshot held after a sequence of accesses, each a publish (`Some`)
/// or a read (`None`).
pub open spec fn held_after(initial: DroneCoreState, ops: Seq<Option<DroneCoreState>>) -> DroneCoreState
    decreases ops.len(),
{
    if ops.len() == 0 {
        initial
    } else {
        match ops.last() {
            Some(s) => s,
            None => held_after(initial, ops.drop_last()),
        }
    }
}

/// Atomicity of the snapshot: in any interleaving of publishes and reads, a
/// read returns, field for field, the state of the latest publish before it,
/// or the initial state when there was none; in either case a single whole
/// state that some cycle produced.
pub proof fn lemma_read_is_whole(initial: DroneCoreState, ops: Seq<Option<DroneCoreState>>)
    ensures
        held_after(initial, ops) == initial || exists|j: int|
            0 <= j < ops.len() && ops[j] == Some(held_after(initial, ops)),
        forall|j: int|
            0 <= j < ops.len() && ops[j] is Some && (forall|k: int| j < k < ops.len() ==> ops[k] is None)
                ==> ops[j] == Some(held_after(initial, ops)),
    decreases ops.len(),
{
    if ops.len() > 0 {
        let prefix = ops.drop_last();
        lemma_read_is_whole(initial, prefix);
        match ops.last() {
            Some(s) => {
                assert(ops[ops.len() - 1] == Some(held_after(initial, ops)));
            },
            None => {
                assert forall|j: int|
                    0 <= j < ops.len() && ops[j] is Some && (forall|k: int| j < k < ops.len() ==> ops[k] is None)
                    implies ops[j] == Some(held_after(initial, ops)) by {
                    assert(j < ops.len() - 1);
                    assert(prefix[j] == ops[j]);
                    assert forall|k: int| j < k < prefix.len() implies prefix[k] is None by {
                        assert(prefix[k] == ops[k]);
                    }
                }
                if held_after(initial, ops) != initial {
                    let j = choose|j: int| 0 <= j < prefix.len() && prefix[j] == Some(held_after(initial, prefix));
                    assert(ops[j] == prefix[j]);
                }
            },
        }
    }
}

} // verus!
