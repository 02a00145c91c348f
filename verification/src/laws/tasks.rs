//! What holds of tasks and nodes, over any number of operations.

use crate::id::NodeId;
use crate::model::{Picked, TaskRef, Tasks};
use vstd::multiset::Multiset;
use vstd::prelude::*;

verus! {

/// An operation on the tasks and nodes.
#[verifier::reject_recursive_types(R)]
#[verifier::reject_recursive_types(I)]
pub enum Op<R, I> {
    Send(R, TaskRef),
    Pick(int),
    Clear,
    Kill(NodeId),
    Pause(NodeId),
    Resume(NodeId),
    ResumeNoted,
    Note(NodeId),
    Delete(NodeId),
    Allocate(Option<Seq<char>>),
    Install(TaskRef, Option<I>),
    Spawn(TaskRef),
    SpawnMain,
}

impl<R, I> Tasks<R, I> {
    /// The operation may be called, and there is room for one more task.
    pub open spec fn enabled(self, op: Op<R, I>) -> bool {
        self.infos.len() < usize::MAX && match op {
            Op::Send(_, task) => self.has_task(task),
            Op::Pick(index) => 0 <= index < self.ready.len(),
            Op::Kill(id) => self.has_node(id),
            Op::Pause(id) => self.has_node(id),
            Op::Resume(id) => self.has_node(id),
            Op::ResumeNoted => self.has_noted_nodes(),
            Op::Delete(id) => self.has_node(id),
            Op::Install(task, _) => self.has_task(task),
            Op::Spawn(task) => self.has_task(task),
            _ => true,
        }
    }

    /// What the operation makes of the tasks and nodes.
    pub open spec fn apply(self, op: Op<R, I>) -> Tasks<R, I> {
        match op {
            Op::Send(runnable, task) => Tasks { ready: self.ready.push((runnable, task)), ..self },
            Op::Pick(index) => self.pick(index).0,
            Op::Clear => Tasks { ready: Seq::empty(), ..self },
            Op::Kill(id) => self.kill(id),
            Op::Pause(id) => self.pause(id),
            Op::Resume(id) => self.resume(id),
            Op::ResumeNoted => self.resume_all(self.paused_node_ids),
            Op::Note(id) => Tasks { paused_node_ids: self.paused_node_ids.push(id), ..self },
            Op::Delete(id) => self.delete_node(id),
            Op::Allocate(name) => self.allocate_node(name),
            Op::Install(task, init) => self.install_node(task, init),
            Op::Spawn(task) => self.spawn(task),
            Op::SpawnMain => self.with_main_task(),
        }
    }

    /// Each of the operations may be called when its turn comes.
    pub open spec fn all_enabled(self, ops: Seq<Op<R, I>>) -> bool
        decreases ops.len(),
    {
        ops.len() == 0 || self.all_enabled(ops.drop_last()) && self.run(ops.drop_last()).enabled(
            ops.last(),
        )
    }

    /// What the operations make of the tasks and nodes, one after the other.
    pub open spec fn run(self, ops: Seq<Op<R, I>>) -> Tasks<R, I>
        decreases ops.len(),
    {
        if ops.len() == 0 {
            self
        } else {
            self.run(ops.drop_last()).apply(ops.last())
        }
    }
}

/// What resuming nodes leaves as it is.
proof fn lemma_resume_all<R, I>(tasks: Tasks<R, I>, ids: Seq<NodeId>)
    requires
        tasks.wf(),
        forall|i: int| 0 <= i < ids.len() ==> tasks.has_node(#[trigger] ids[i]),
    ensures
        tasks.resume_all(ids).wf(),
        tasks.resume_all(ids).infos.len() == tasks.infos.len(),
        tasks.resume_all(ids).nodes.dom() =~= tasks.nodes.dom(),
        tasks.resume_all(ids).next_node_id == tasks.next_node_id,
        tasks.resume_all(ids).next_task_id == tasks.next_task_id,
        tasks.resume_all(ids).paused_node_ids == tasks.paused_node_ids,
        forall|i: int|
            0 <= i < tasks.infos.len() ==> (#[trigger] tasks.resume_all(ids).infos[i]) == (
            crate::info::InfoView {
                paused: tasks.resume_all(ids).infos[i].paused,
                ..tasks.infos[i]
            }),
        forall|id: u64| #[trigger]
            tasks.nodes.contains_key(id) ==> tasks.resume_all(ids).nodes[id].info
                == tasks.nodes[id].info,
    decreases ids.len(),
{
    if ids.len() > 0 {
        lemma_resume_all(tasks, ids.drop_last());
        assert(ids.last() == ids[ids.len() - 1]);
    }
}

/// Every operation leaves the tasks and nodes well formed.
pub proof fn law_operations_keep_wf<R, I>(tasks: Tasks<R, I>, op: Op<R, I>)
    requires
        tasks.wf(),
        tasks.enabled(op),
    ensures
        tasks.apply(op).wf(),
{
    match op {
        Op::ResumeNoted => {
            lemma_resume_all(tasks, tasks.paused_node_ids);
        },
        _ => {},
    }
}

/// A task once known is known forever, and never changes its node, its name and its identifier.
/// Once killed, it stays killed.
pub proof fn law_tasks_stay<R, I>(tasks: Tasks<R, I>, op: Op<R, I>, task: TaskRef)
    requires
        tasks.wf(),
        tasks.enabled(op),
        tasks.has_task(task),
    ensures
        tasks.apply(op).has_task(task),
        tasks.apply(op).info(task).node == tasks.info(task).node,
        tasks.apply(op).info(task).name == tasks.info(task).name,
        tasks.apply(op).info(task).task_id == tasks.info(task).task_id,
        tasks.info(task).killed ==> tasks.apply(op).info(task).killed,
{
    match op {
        Op::ResumeNoted => {
            lemma_resume_all(tasks, tasks.paused_node_ids);
            assert(tasks.apply(op).infos[task.index as int].killed
                == tasks.infos[task.index as int].killed);
        },
        _ => {},
    }
}

/// What holds after any operations: everything is still well formed, and every task that was
/// known is known, as killed as it was.
pub proof fn law_every_state<R, I>(tasks: Tasks<R, I>, ops: Seq<Op<R, I>>, task: TaskRef)
    requires
        tasks.wf(),
        tasks.all_enabled(ops),
        tasks.has_task(task),
    ensures
        tasks.run(ops).wf(),
        tasks.run(ops).has_task(task),
        tasks.run(ops).info(task).node == tasks.info(task).node,
        tasks.run(ops).info(task).task_id == tasks.info(task).task_id,
        tasks.info(task).killed ==> tasks.run(ops).info(task).killed,
    decreases ops.len(),
{
    if ops.len() > 0 {
        law_every_state(tasks, ops.drop_last(), task);
        law_operations_keep_wf(tasks.run(ops.drop_last()), ops.last());
        law_tasks_stay(tasks.run(ops.drop_last()), ops.last(), task);
    }
}

/// Every state that can be reached from an executor without tasks is well formed.
pub proof fn law_every_reachable_state_is_wf<R, I>(ops: Seq<Op<R, I>>)
    requires
        Tasks::<R, I>::empty().all_enabled(ops),
    ensures
        Tasks::<R, I>::empty().run(ops).wf(),
    decreases ops.len(),
{
    if ops.len() > 0 {
        law_every_reachable_state_is_wf(ops.drop_last());
        law_operations_keep_wf(Tasks::<R, I>::empty().run(ops.drop_last()), ops.last());
    }
}

/// Only what belongs to a task that is neither paused nor killed is ever run.
pub proof fn law_only_runnable_tasks_run<R, I>(tasks: Tasks<R, I>, index: int)
    requires
        tasks.wf(),
        0 <= index < tasks.ready.len(),
    ensures
        tasks.pick(index).1 matches Picked::Run(_, task) ==> tasks.info(task).runnable()
            && tasks.pick(index).0.info(task).runnable(),
{
}

/// Once its node has been killed, a task never runs again, whatever happens.
pub proof fn law_killed_tasks_never_run<R, I>(
    tasks: Tasks<R, I>,
    id: NodeId,
    task: TaskRef,
    ops: Seq<Op<R, I>>,
    index: int,
)
    requires
        tasks.wf(),
        tasks.enabled(Op::Kill(id)),
        tasks.has_task(task),
        tasks.info(task).node == id,
        tasks.kill(id).all_enabled(ops),
        0 <= index < tasks.kill(id).run(ops).ready.len(),
    ensures
        tasks.kill(id).run(ops).pick(index).1 matches Picked::Run(_, other) ==> other != task,
{
    law_operations_keep_wf(tasks, Op::Kill(id));
    law_every_state(tasks.kill(id), ops, task);
}

/// Killing a node kills all its tasks, and leaves the tasks of other nodes and the other nodes
/// as they are. The node is still there, with a fresh task that stands for it and with nothing
/// held back; what starts its initial task is kept.
pub proof fn law_kill<R, I>(tasks: Tasks<R, I>, id: NodeId, task: TaskRef, other: NodeId)
    requires
        tasks.wf(),
        tasks.enabled(Op::Kill(id)),
        tasks.has_task(task),
        other != id,
    ensures
        tasks.info(task).node == id ==> tasks.kill(id).info(task).killed,
        tasks.info(task).node != id ==> tasks.kill(id).info(task) == tasks.info(task),
        tasks.kill(id).has_node(other) <==> tasks.has_node(other),
        tasks.has_node(other) ==> tasks.kill(id).node(other) == tasks.node(other),
        tasks.kill(id).has_node(id),
        tasks.kill(id).info(tasks.kill(id).node(id).info).runnable(),
        tasks.kill(id).node(id).paused.len() == 0,
        tasks.kill(id).node(id).init == tasks.node(id).init,
{
}

/// Deleting a node kills all its tasks and leaves no such node.
pub proof fn law_delete<R, I>(tasks: Tasks<R, I>, id: NodeId, task: TaskRef, other: NodeId)
    requires
        tasks.wf(),
        tasks.enabled(Op::Delete(id)),
        tasks.has_task(task),
        other != id,
    ensures
        !tasks.delete_node(id).has_node(id),
        tasks.has_node(other) ==> tasks.delete_node(id).has_node(other)
            && tasks.delete_node(id).node(other) == tasks.node(other),
        tasks.info(task).node == id ==> tasks.delete_node(id).info(task).killed,
        tasks.info(task).node != id ==> tasks.delete_node(id).info(task) == tasks.info(task),
{
}

/// While a node is paused, none of the tasks that it had runs: what is ready for them is held
/// back, or dropped if they are killed.
pub proof fn law_paused_tasks_do_not_run<R, I>(tasks: Tasks<R, I>, id: NodeId, index: int)
    requires
        tasks.wf(),
        tasks.has_node(id),
        0 <= index < tasks.ready.len(),
        tasks.info(tasks.ready[index].1).node == id,
    ensures
        !(tasks.pause(id).pick(index).1 is Run),
{
}

/// No operation but resuming a node makes a paused task of it run again.
pub proof fn law_paused_until_resumed<R, I>(tasks: Tasks<R, I>, op: Op<R, I>, task: TaskRef)
    requires
        tasks.wf(),
        tasks.enabled(op),
        tasks.has_task(task),
        tasks.info(task).paused,
        op != Op::<R, I>::Resume(tasks.info(task).node),
        op is ResumeNoted ==> !tasks.paused_node_ids.contains(tasks.info(task).node),
    ensures
        tasks.apply(op).info(task).paused,
{
    if op is ResumeNoted {
        lemma_resume_all_keeps_others_paused(tasks, tasks.paused_node_ids, task);
    }
}

proof fn lemma_resume_all_keeps_others_paused<R, I>(
    tasks: Tasks<R, I>,
    ids: Seq<NodeId>,
    task: TaskRef,
)
    requires
        tasks.wf(),
        forall|i: int| 0 <= i < ids.len() ==> tasks.has_node(#[trigger] ids[i]),
        tasks.has_task(task),
        tasks.info(task).paused,
        !ids.contains(tasks.info(task).node),
    ensures
        tasks.resume_all(ids).info(task).paused,
    decreases ids.len(),
{
    if ids.len() > 0 {
        assert forall|i: int| 0 <= i < ids.drop_last().len() implies tasks.has_node(
            #[trigger] ids.drop_last()[i],
        ) by {
            assert(ids.drop_last()[i] == ids[i]);
        }
        assert(!ids.drop_last().contains(tasks.info(task).node)) by {
            if ids.drop_last().contains(tasks.info(task).node) {
                let i = choose|i: int|
                    0 <= i < ids.drop_last().len() && ids.drop_last()[i] == tasks.info(task).node;
                assert(ids[i] == tasks.info(task).node);
            }
        }
        lemma_resume_all_keeps_others_paused(tasks, ids.drop_last(), task);
        lemma_resume_all(tasks, ids.drop_last());
        assert(tasks.resume_all(ids.drop_last()).infos[task.index as int].node
            == tasks.infos[task.index as int].node);
        assert(ids.contains(ids.last()));
    }
}

impl<R, I> Tasks<R, I> {
    /// None of the operations resumes the node `id`.
    pub open spec fn never_resumes(self, id: NodeId, ops: Seq<Op<R, I>>) -> bool
        decreases ops.len(),
    {
        ops.len() > 0 ==> {
            &&& self.never_resumes(id, ops.drop_last())
            &&& ops.last() != Op::<R, I>::Resume(id)
            &&& ops.last() is ResumeNoted ==> !self.run(
                ops.drop_last(),
            ).paused_node_ids.contains(id)
        }
    }
}

/// A task whose node has been paused does not run, whatever happens, until the node is resumed.
pub proof fn law_paused_tasks_never_run<R, I>(
    tasks: Tasks<R, I>,
    id: NodeId,
    task: TaskRef,
    ops: Seq<Op<R, I>>,
    index: int,
)
    requires
        tasks.wf(),
        tasks.enabled(Op::Pause(id)),
        tasks.has_task(task),
        tasks.info(task).node == id,
        tasks.pause(id).all_enabled(ops),
        tasks.pause(id).never_resumes(id, ops),
    ensures
        tasks.pause(id).run(ops).info(task).paused,
        0 <= index < tasks.pause(id).run(ops).ready.len() ==> (tasks.pause(id).run(ops).pick(
            index,
        ).1 matches Picked::Run(_, other) ==> other != task),
    decreases ops.len(),
{
    law_operations_keep_wf(tasks, Op::Pause(id));
    if ops.len() > 0 {
        law_paused_tasks_never_run(tasks, id, task, ops.drop_last(), index);
        law_every_state(tasks.pause(id), ops.drop_last(), task);
        law_paused_until_resumed(tasks.pause(id).run(ops.drop_last()), ops.last(), task);
    }
    law_every_state(tasks.pause(id), ops, task);
}

/// Pausing a node twice is pausing it once, and so is resuming.
pub proof fn law_pause_and_resume_are_idempotent<R, I>(tasks: Tasks<R, I>, id: NodeId)
    requires
        tasks.wf(),
        tasks.has_node(id),
    ensures
        tasks.pause(id).pause(id) == tasks.pause(id),
        tasks.resume(id).resume(id) == tasks.resume(id),
{
    assert(tasks.pause(id).pause(id) =~= tasks.pause(id));
    assert(tasks.resume(id).resume(id) =~= tasks.resume(id));
}

/// Resuming undoes pausing: if no task of the node was paused and nothing was held back, all is
/// as before.
pub proof fn law_resume_undoes_pause<R, I>(tasks: Tasks<R, I>, id: NodeId)
    requires
        tasks.wf(),
        tasks.has_node(id),
        tasks.node(id).paused.len() == 0,
        forall|i: int|
            0 <= i < tasks.infos.len() && (#[trigger] tasks.infos[i]).node == id
                ==> !tasks.infos[i].paused,
    ensures
        tasks.pause(id).resume(id) == tasks,
{
    let after = tasks.pause(id).resume(id);
    assert(after.infos =~= tasks.infos);
    assert(after.node(id).paused =~= tasks.node(id).paused);
    assert(after.nodes =~= tasks.nodes);
    assert(after.ready =~= tasks.ready);
}

/// When a node is resumed, none of its tasks is paused any longer, and all that it held back can
/// run.
pub proof fn law_resumed_tasks_can_run<R, I>(
    tasks: Tasks<R, I>,
    id: NodeId,
    task: TaskRef,
    index: int,
)
    requires
        tasks.wf(),
        tasks.has_node(id),
        tasks.has_task(task),
        tasks.info(task).node == id,
    ensures
        !tasks.resume(id).info(task).paused,
        tasks.ready.len() <= index < tasks.resume(id).ready.len() ==> tasks.resume(id).pick(
            index,
        ).1 is Run,
{
}

/// Killing a node a second time kills no task that was not killed, but the one that stood for
/// the node.
pub proof fn law_kill_twice<R, I>(tasks: Tasks<R, I>, id: NodeId, task: TaskRef)
    requires
        tasks.wf(),
        tasks.enabled(Op::Kill(id)),
        tasks.kill(id).enabled(Op::Kill(id)),
        tasks.has_task(task),
    ensures
        tasks.kill(id).kill(id).info(task) == tasks.kill(id).info(task),
        tasks.kill(id).kill(id).node(id).init == tasks.node(id).init,
        tasks.kill(id).kill(id).info(tasks.kill(id).kill(id).node(id).info).runnable(),
{
}

impl<R, I> Tasks<R, I> {
    /// What is ready and what the node `id` holds back, each with the task that it is for.
    pub open spec fn ready_or_held_back(self, id: NodeId) -> Multiset<(R, TaskRef)> {
        self.ready.to_multiset().add(self.node(id).paused.to_multiset())
    }
}

/// `s` without its item `i` has every other item as often as `s`.
pub(crate) proof fn lemma_swap_removed<A>(s: Seq<A>, i: int)
    requires
        0 <= i < s.len(),
    ensures
        crate::model::swap_removed(s, i).to_multiset().insert(s[i]) == s.to_multiset(),
{
    broadcast use vstd::seq_lib::group_to_multiset_ensures;

    let last = s.len() - 1;
    assert(s =~= s.drop_last().push(s.last()));
    if i == last {
        assert(crate::model::swap_removed(s, i) =~= s.drop_last());
    } else {
        assert(crate::model::swap_removed(s, i) =~= s.drop_last().update(i, s.last()));
        vstd::seq_lib::to_multiset_update(s.drop_last(), i, s.last());
        assert(crate::model::swap_removed(s, i).to_multiset().insert(s[i]) =~= s.to_multiset());
    }
}

/// Nothing is lost by being held back, and all of it stays what it was ready for: as long as a
/// task of the node `id` is paused, what is taken for it is still there, and resuming the node
/// makes all of it ready.
pub proof fn law_holding_back_loses_nothing<R, I>(tasks: Tasks<R, I>, id: NodeId, index: int)
    requires
        tasks.wf(),
        tasks.has_node(id),
        0 <= index < tasks.ready.len(),
        tasks.info(tasks.ready[index].1).node == id,
    ensures
        tasks.pick(index).1 is HeldBack ==> tasks.pick(index).0.ready_or_held_back(id)
            == tasks.ready_or_held_back(id),
        tasks.resume(id).ready_or_held_back(id) == tasks.ready_or_held_back(id),
        tasks.resume(id).node(id).paused.len() == 0,
{
    broadcast use vstd::seq_lib::group_to_multiset_ensures;

    if tasks.pick(index).1 is HeldBack {
        let rest = tasks.pick(index).0;
        lemma_swap_removed(tasks.ready, index);
        assert(rest.ready_or_held_back(id) =~= tasks.ready_or_held_back(id));
    }
    let paused = tasks.node(id).paused;
    vstd::seq_lib::lemma_multiset_commutative(tasks.ready, paused);
    assert(tasks.resume(id).node(id).paused =~= Seq::empty());
    assert(tasks.resume(id).ready_or_held_back(id) =~= tasks.ready_or_held_back(id));
}

/// What is held back comes back as it was: it waits as the task that it was ready for, and when
/// the node is resumed, it is run as that task.
pub proof fn law_held_back_comes_back_as_it_was<R, I>(
    tasks: Tasks<R, I>,
    index: int,
    place: int,
)
    requires
        tasks.wf(),
        0 <= index < tasks.ready.len(),
        tasks.pick(index).1 is HeldBack,
    ensures
        ({
            let id = tasks.info(tasks.ready[index].1).node;
            let held = tasks.pick(index).0;
            let back = held.resume(id);
            &&& held.has_node(id)
            &&& held.node(id).paused == tasks.node(id).paused.push(tasks.ready[index])
            &&& back.ready.last() == tasks.ready[index]
            &&& back.pick(back.ready.len() - 1).1 == Picked::Run(
                tasks.ready[index].0,
                tasks.ready[index].1,
            )
            &&& 0 <= place < held.node(id).paused.len() ==> back.ready[held.ready.len() + place]
                == held.node(id).paused[place]
        }),
{
    let id = tasks.info(tasks.ready[index].1).node;
    let held = tasks.pick(index).0;
    assert(held.node(id).paused.last() == tasks.ready[index]);
}

/// The items of `s` in the order in which they are taken, if the places `picks` are drawn.
pub open spec fn taken_in_order<A>(s: Seq<A>, picks: Seq<int>) -> Seq<A>
    decreases s.len(),
{
    if s.len() == 0 {
        Seq::empty()
    } else {
        seq![s[picks[0]]] + taken_in_order(crate::model::swap_removed(s, picks[0]), picks.drop_first())
    }
}

/// Whatever places of the ready queue are drawn, everything in it is taken exactly once.
pub proof fn law_everything_ready_is_taken_once<A>(s: Seq<A>, picks: Seq<int>)
    requires
        picks.len() == s.len(),
        forall|k: int| 0 <= k < picks.len() ==> 0 <= #[trigger] picks[k] < s.len() - k,
    ensures
        taken_in_order(s, picks).to_multiset() == s.to_multiset(),
    decreases s.len(),
{
    broadcast use vstd::seq_lib::group_to_multiset_ensures;

    if s.len() == 0 {
        assert(s =~= taken_in_order(s, picks));
    } else {
        let rest = crate::model::swap_removed(s, picks[0]);
        assert forall|k: int| 0 <= k < picks.drop_first().len() implies 0 <= #[trigger] picks.drop_first()[k]
            < rest.len() - k by {
            assert(picks.drop_first()[k] == picks[k + 1]);
        }
        law_everything_ready_is_taken_once(rest, picks.drop_first());
        lemma_swap_removed(s, picks[0]);
        let after = taken_in_order(rest, picks.drop_first());
        vstd::seq_lib::lemma_multiset_commutative(seq![s[picks[0]]], after);
        assert(seq![s[picks[0]]] =~= Seq::empty().push(s[picks[0]]));
        assert(taken_in_order(s, picks).to_multiset() =~= s.to_multiset());
    }
}

impl<R, I> Tasks<R, I> {
    /// No identifier that is in use will be given again, as long as there are some left.
    pub open spec fn identifiers_are_fresh(self) -> bool {
        &&& 0 < self.next_node_id
        &&& 0 < self.next_task_id
        &&& forall|id: u64| #[trigger] self.nodes.contains_key(id) ==> id < self.next_node_id
        &&& forall|i: int|
            0 <= i < self.infos.len() ==> (#[trigger] self.infos[i]).node.0 < self.next_node_id
                && self.infos[i].task_id.0 < self.next_task_id
    }
}

/// A new node and a new task get identifiers that no node and no task has had. What is in use
/// stays in use, as long as the identifiers have not all been given.
pub proof fn law_identifiers_are_unique<R, I>(tasks: Tasks<R, I>, op: Op<R, I>)
    requires
        tasks.wf(),
        tasks.enabled(op),
        tasks.identifiers_are_fresh(),
        tasks.next_node_id < u64::MAX,
        tasks.next_task_id < u64::MAX,
    ensures
        tasks.apply(op).identifiers_are_fresh(),
        op is Allocate ==> {
            let info = tasks.apply(op).infos.last();
            &&& !tasks.has_node(info.node)
            &&& forall|i: int|
                0 <= i < tasks.infos.len() ==> (#[trigger] tasks.infos[i]).node != info.node
                    && tasks.infos[i].task_id != info.task_id
        },
        op is Spawn ==> {
            let info = tasks.apply(op).infos.last();
            forall|i: int|
                0 <= i < tasks.infos.len() ==> (#[trigger] tasks.infos[i]).task_id != info.task_id
        },
{
    match op {
        Op::ResumeNoted => {
            lemma_resume_all(tasks, tasks.paused_node_ids);
            let next = tasks.resume_all(tasks.paused_node_ids);
            assert(tasks.apply(op) == next);
            assert forall|i: int| 0 <= i < next.infos.len() implies (
            #[trigger] next.infos[i]).node.0 < next.next_node_id && next.infos[i].task_id.0
                < next.next_task_id by {
                assert(tasks.infos[i].node.0 < tasks.next_node_id);
            }
            assert forall|id: u64| #[trigger]
                next.nodes.contains_key(id) implies id < next.next_node_id by {
                assert(next.nodes.dom().contains(id));
                assert(tasks.nodes.contains_key(id));
            }
        },
        _ => {},
    }
}

/// The executor without tasks has not given any identifier yet.
pub proof fn law_first_identifiers_are_fresh<R, I>()
    ensures
        Tasks::<R, I>::empty().identifiers_are_fresh(),
{
}

impl<R, I> Tasks<R, I> {
    /// The task that stands for a node is not killed, so that the tasks started from its handle
    /// can run.
    pub open spec fn nodes_are_alive(self) -> bool {
        forall|id: u64| #[trigger]
            self.nodes.contains_key(id) ==> !self.info(self.nodes[id].info).killed
    }
}

/// However often nodes are killed, restarted and deleted, those that there are are alive.
pub proof fn law_nodes_stay_alive<R, I>(tasks: Tasks<R, I>, op: Op<R, I>)
    requires
        tasks.wf(),
        tasks.enabled(op),
        tasks.nodes_are_alive(),
        op matches Op::Install(task, _) ==> !tasks.info(task).killed,
    ensures
        tasks.apply(op).nodes_are_alive(),
{
    if op is ResumeNoted {
        lemma_resume_all(tasks, tasks.paused_node_ids);
        let next = tasks.resume_all(tasks.paused_node_ids);
        assert forall|id: u64| #[trigger] next.nodes.contains_key(id) implies !next.info(
            next.nodes[id].info,
        ).killed by {
            assert(next.nodes.dom().contains(id));
            assert(tasks.nodes.contains_key(id));
            assert(!next.infos[tasks.nodes[id].info.index as int].killed);
        }
    }
}

} // verus!
