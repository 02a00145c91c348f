//! What holds of the handles on tasks.

use crate::join::Joins;
use vstd::prelude::*;

verus! {

/// Aborting, through either kind of handle, takes away the one task and no other.
pub proof fn law_abort_takes_one_task<T>(joins: Joins<T>, slot: usize, other: usize)
    requires
        other != slot,
    ensures
        joins.without(slot).task(slot) is None,
        joins.without(slot).task(other) == joins.task(other),
        joins.without(slot).aborters(slot) == joins.aborters(slot),
{
}

/// Aborting a task twice is aborting it once.
pub proof fn law_abort_is_idempotent<T>(joins: Joins<T>, slot: usize)
    ensures
        joins.without(slot).without(slot) == joins.without(slot),
{
    assert(joins.without(slot).without(slot) =~= joins.without(slot));
}

/// An abort handle outlives the join handle: as long as one is held, the task is there, whoever
/// else gives up a handle, and can be asked and aborted.
pub proof fn law_abort_handle_outlives_the_join_handle<T>(joins: Joins<T>, slot: usize)
    requires
        joins.aborters(slot) > 0,
    ensures
        joins.join_handle_gone(slot).task(slot) == joins.task(slot),
        joins.join_handle_gone(slot).aborters(slot) == joins.aborters(slot),
        joins.aborters(slot) > 1 ==> joins.abort_handle_gone(slot).task(slot) == joins.task(slot),
        joins.entries[slot as int].joined ==> joins.abort_handle_gone(slot).task(slot)
            == joins.task(slot),
{
}

/// When the last handle on a task is given up, in whatever order, the task is let go.
pub proof fn law_last_handle_lets_go<T>(joins: Joins<T>, slot: usize)
    requires
        joins.entries[slot as int].joined,
    ensures
        joins.aborters(slot) == 0 ==> joins.join_handle_gone(slot).task(slot) is None,
        joins.aborters(slot) == 1 ==> {
            &&& joins.join_handle_gone(slot).abort_handle_gone(slot).task(slot) is None
            &&& joins.abort_handle_gone(slot).join_handle_gone(slot).task(slot) is None
        },
{
}

/// Giving up an abort handle undoes making it, as long as the join handle is held.
pub proof fn law_abort_handle_leaves_no_trace<T>(joins: Joins<T>, slot: usize)
    requires
        slot < joins.entries.len(),
        joins.entries[slot as int].joined,
        joins.aborters(slot) < u64::MAX,
    ensures
        joins.shared(slot).aborters(slot) == joins.aborters(slot) + 1,
        joins.shared(slot).task(slot) == joins.task(slot),
        joins.shared(slot).abort_handle_gone(slot) == joins,
{
    assert(joins.shared(slot).abort_handle_gone(slot).entries =~= joins.entries);
}

/// A new handle is a handle on the new task alone, and has an identifier of its own: the tasks
/// that have a handle keep it.
pub proof fn law_handles_are_distinct<T>(
    joins: Joins<T>,
    task: async_task::FallibleTask<T>,
    slot: usize,
)
    requires
        joins.entries.len() < usize::MAX,
    ensures
        joins.registered(task).task(joins.entries.len() as usize) == Some(task),
        slot < joins.entries.len() ==> joins.registered(task).task(slot) == joins.task(slot)
            && joins.registered(task).aborters(slot) == joins.aborters(slot)
            && joins.first_id.wrapping_add(slot as u64) != joins.first_id.wrapping_add(
            joins.entries.len() as u64,
        ),
{
}

/// The task at a place is what its entry holds, as long as there is such a place, and so is the
/// number of abort handles.
pub proof fn law_what_stands_at_a_place<T>(joins: Joins<T>, slot: usize, finished: bool)
    ensures
        slot < joins.entries.len() ==> joins.task(slot) == joins.entries[slot as int].task,
        slot >= joins.entries.len() ==> joins.task(slot) is None,
        slot < joins.entries.len() ==> joins.aborters(slot) == joins.entries[slot as int].aborters,
        slot >= joins.entries.len() ==> joins.aborters(slot) == 0,
        joins.task(slot) is None ==> (joins.answers(slot, finished) <==> finished),
        joins.task(slot) is Some ==> (joins.answers(slot, finished) <==> Joins::reports(
            joins.task(slot)->0,
            finished,
        )),
{
}

/// A task that is registered stands behind all others, with its join handle held and no abort
/// handle; the others stay as they are.
pub proof fn law_what_registering_does<T>(
    joins: Joins<T>,
    task: async_task::FallibleTask<T>,
    i: int,
)
    ensures
        ({
            let after = joins.registered(task);
            let added = after.entries[joins.entries.len() as int];
            &&& after.entries.len() == joins.entries.len() + 1
            &&& 0 <= i < joins.entries.len() ==> after.entries[i] == joins.entries[i]
            &&& added.task == Some(task) && added.joined && added.aborters == 0
            &&& after.first_id == joins.first_id
        }),
{
}

/// Aborting, making an abort handle and giving up a handle of either kind concern the one place. An
/// abort takes the task and no handle. An abort handle that is made is counted, and nothing else
/// changes. A join handle that is given up is no longer held, and an abort handle that is given up
/// is counted no longer; the task stays exactly if a handle of either kind is left.
pub proof fn law_what_handles_do<T>(joins: Joins<T>, slot: usize, i: int)
    requires
        slot < joins.entries.len(),
    ensures
        joins.without(slot).entries.len() == joins.entries.len(),
        joins.shared(slot).entries.len() == joins.entries.len(),
        joins.join_handle_gone(slot).entries.len() == joins.entries.len(),
        joins.abort_handle_gone(slot).entries.len() == joins.entries.len(),
        joins.without(slot).first_id == joins.first_id,
        joins.shared(slot).first_id == joins.first_id,
        joins.join_handle_gone(slot).first_id == joins.first_id,
        joins.abort_handle_gone(slot).first_id == joins.first_id,
        0 <= i < joins.entries.len() && i != slot ==> {
            &&& joins.without(slot).entries[i] == joins.entries[i]
            &&& joins.shared(slot).entries[i] == joins.entries[i]
            &&& joins.join_handle_gone(slot).entries[i] == joins.entries[i]
            &&& joins.abort_handle_gone(slot).entries[i] == joins.entries[i]
        },
        ({
            let entry = joins.entries[slot as int];
            let aborted = joins.without(slot).entries[slot as int];
            let shared = joins.shared(slot).entries[slot as int];
            let unjoined = joins.join_handle_gone(slot).entries[slot as int];
            let unshared = joins.abort_handle_gone(slot).entries[slot as int];
            &&& aborted.task is None
            &&& aborted.joined == entry.joined && aborted.aborters == entry.aborters
            &&& shared.task == entry.task && shared.joined == entry.joined
            &&& entry.aborters < u64::MAX ==> shared.aborters == entry.aborters + 1
            &&& !unjoined.joined && unjoined.aborters == entry.aborters
            &&& entry.aborters > 0 ==> unjoined.task == entry.task
            &&& entry.aborters == 0 ==> unjoined.task is None
            &&& unshared.joined == entry.joined
            &&& entry.aborters > 0 ==> unshared.aborters == entry.aborters - 1
            &&& entry.aborters == 0 ==> unshared.aborters == 0
            &&& entry.joined || entry.aborters > 1 ==> unshared.task == entry.task
            &&& !entry.joined && entry.aborters <= 1 ==> unshared.task is None
        }),
{
}

/// A task that is no longer at its place after a handle was given up was detached.
pub proof fn law_what_goes_is_detached<T>(joins: Joins<T>, slot: usize, after: Joins<T>)
    requires
        joins.lets_go(slot, after),
        joins.task(slot) is Some,
        after.task(slot) is None,
    ensures
        Joins::was_detached(joins.task(slot)->0),
{
}

/// What is done with handles.
#[verifier::reject_recursive_types(T)]
pub enum JoinOp<T> {
    Register(async_task::FallibleTask<T>),
    Abort(usize),
    Share(usize),
    GiveUpJoin(usize),
    GiveUpAbort(usize),
}

impl<T> Joins<T> {
    /// What is left when all of `ops` has been done.
    pub open spec fn after(self, ops: Seq<JoinOp<T>>) -> Joins<T>
        decreases ops.len(),
    {
        if ops.len() == 0 {
            self
        } else {
            let before = self.after(ops.drop_last());
            match ops.last() {
                JoinOp::Register(task) => before.registered(task),
                JoinOp::Abort(slot) => before.without(slot),
                JoinOp::Share(slot) => before.shared(slot),
                JoinOp::GiveUpJoin(slot) => before.join_handle_gone(slot),
                JoinOp::GiveUpAbort(slot) => before.abort_handle_gone(slot),
            }
        }
    }
}

/// From the moment a task is registered until its join handle is given up or the task is aborted,
/// the task is there to be waited for: however many abort handles on it are made and given up, and
/// whatever is done with other handles.
pub proof fn law_registered_task_can_be_waited_for<T>(
    joins: Joins<T>,
    task: async_task::FallibleTask<T>,
    slot: usize,
    ops: Seq<JoinOp<T>>,
)
    requires
        slot == joins.entries.len(),
        forall|i: int|
            0 <= i < ops.len() ==> #[trigger] ops[i] != JoinOp::<T>::Abort(slot) && ops[i]
                != JoinOp::<T>::GiveUpJoin(slot),
    ensures
        joins.registered(task).after(ops).task(slot) == Some(task),
        joins.registered(task).after(ops).entries[slot as int].joined,
        joins.registered(task).after(ops).entries.len() > slot,
        joins.registered(task).shared(slot).abort_handle_gone(slot).task(slot) == Some(task),
    decreases ops.len(),
{
    if ops.len() > 0 {
        assert forall|i: int| 0 <= i < ops.drop_last().len() implies #[trigger] ops.drop_last()[i]
            != JoinOp::<T>::Abort(slot) && ops.drop_last()[i] != JoinOp::<T>::GiveUpJoin(slot) by {
            assert(ops.drop_last()[i] == ops[i]);
        }
        law_registered_task_can_be_waited_for(joins, task, slot, ops.drop_last());
        assert(ops.last() == ops[ops.len() - 1]);
    }
}

/// A registered task is let go exactly when its join handle and all its abort handles are given up:
/// if as many abort handles are made as are given up, then giving up the join handle lets it go, and
/// if one more is made, it stays.
pub proof fn law_registered_task_is_let_go_in_the_end<T>(
    joins: Joins<T>,
    task: async_task::FallibleTask<T>,
    slot: usize,
)
    requires
        slot == joins.entries.len(),
    ensures
        joins.registered(task).join_handle_gone(slot).task(slot) is None,
        joins.registered(task).shared(slot).join_handle_gone(slot).task(slot) == Some(task),
        joins.registered(task).shared(slot).join_handle_gone(slot).abort_handle_gone(slot).task(
            slot,
        ) is None,
        joins.registered(task).shared(slot).abort_handle_gone(slot).join_handle_gone(slot).task(
            slot,
        ) is None,
{
}

} // verus!
