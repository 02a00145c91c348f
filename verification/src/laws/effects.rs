//! What each operation on the tasks and nodes does to every part of them, and what it leaves alone.

use crate::id::{NodeId, TaskId};
use crate::model::{Picked, ReadyStep, TaskRef, Tasks};
use crate::rng::RngHistory;
use crate::tasks::TaskHandle;
use vstd::prelude::*;

verus! {

/// A task is known if its place is among those of the tasks that there have been, and a node if
/// there is one under its identifier; nothing else decides.
pub proof fn law_lookup<R, I>(tasks: Tasks<R, I>, task: TaskRef, id: NodeId)
    ensures
        tasks.has_task(task) <==> task.index < tasks.infos.len(),
        tasks.has_node(id) <==> tasks.nodes.contains_key(id.0),
        tasks.info(task) == tasks.infos[task.index as int],
        tasks.node(id) == tasks.nodes[id.0],
        tasks.has_noted_nodes() <==> forall|i: int|
            0 <= i < tasks.paused_node_ids.len() ==> tasks.nodes.contains_key(
                (#[trigger] tasks.paused_node_ids[i]).0,
            ),
        tasks.infos.len() <= usize::MAX ==> tasks.next_task().index == tasks.infos.len(),
{
    if tasks.has_noted_nodes() {
        assert forall|i: int| 0 <= i < tasks.paused_node_ids.len() implies tasks.nodes.contains_key(
            (#[trigger] tasks.paused_node_ids[i]).0,
        ) by {
            assert(tasks.has_node(tasks.paused_node_ids[i]));
        }
    }
}

/// At the start there is nothing, and the first node and the first task are numbered one.
pub proof fn law_start_is_empty<R, I>()
    ensures
        Tasks::<R, I>::empty().infos.len() == 0,
        Tasks::<R, I>::empty().ready.len() == 0,
        Tasks::<R, I>::empty().paused_node_ids.len() == 0,
        forall|id: u64| !(#[trigger] Tasks::<R, I>::empty().nodes.contains_key(id)),
        Tasks::<R, I>::empty().next_node_id == 1,
        Tasks::<R, I>::empty().next_task_id == 1,
{
}

/// Killing, deleting, pausing, creating and installing nodes and starting tasks leave the ready
/// queue exactly as it was, and so what is ready for tasks of other nodes: the same entries, for
/// the same tasks, in the same order. They also leave the nodes that were noted as they were.
pub proof fn law_ready_queue_is_left_alone<R, I>(
    tasks: Tasks<R, I>,
    id: NodeId,
    task: TaskRef,
    name: Option<Seq<char>>,
    init: Option<I>,
)
    ensures
        tasks.kill(id).ready == tasks.ready,
        tasks.delete_node(id).ready == tasks.ready,
        tasks.pause(id).ready == tasks.ready,
        tasks.allocate_node(name).ready == tasks.ready,
        tasks.install_node(task, init).ready == tasks.ready,
        tasks.spawn(task).ready == tasks.ready,
        tasks.with_main_task().ready == tasks.ready,
        tasks.kill(id).paused_node_ids == tasks.paused_node_ids,
        tasks.delete_node(id).paused_node_ids == tasks.paused_node_ids,
        tasks.pause(id).paused_node_ids == tasks.paused_node_ids,
        tasks.resume(id).paused_node_ids == tasks.paused_node_ids,
        tasks.allocate_node(name).paused_node_ids == tasks.paused_node_ids,
        tasks.install_node(task, init).paused_node_ids == tasks.paused_node_ids,
        tasks.spawn(task).paused_node_ids == tasks.paused_node_ids,
        tasks.with_main_task().paused_node_ids == tasks.paused_node_ids,
{
}

/// Identifiers are used up by creating nodes and by spawning tasks alone: one for the node, and
/// one for the task that stands for it or is spawned.
pub proof fn law_identifiers_are_used_up<R, I>(
    tasks: Tasks<R, I>,
    id: NodeId,
    task: TaskRef,
    name: Option<Seq<char>>,
    init: Option<I>,
    index: int,
)
    ensures
        tasks.next_node_id < u64::MAX ==> tasks.allocate_node(name).next_node_id
            == tasks.next_node_id + 1,
        tasks.next_task_id < u64::MAX ==> tasks.allocate_node(name).next_task_id
            == tasks.next_task_id + 1,
        tasks.next_task_id < u64::MAX ==> tasks.spawn(task).next_task_id == tasks.next_task_id + 1,
        tasks.spawn(task).next_node_id == tasks.next_node_id,
        tasks.kill(id).next_node_id == tasks.next_node_id,
        tasks.kill(id).next_task_id == tasks.next_task_id,
        tasks.delete_node(id).next_node_id == tasks.next_node_id,
        tasks.delete_node(id).next_task_id == tasks.next_task_id,
        tasks.pause(id).next_node_id == tasks.next_node_id,
        tasks.pause(id).next_task_id == tasks.next_task_id,
        tasks.resume(id).next_node_id == tasks.next_node_id,
        tasks.resume(id).next_task_id == tasks.next_task_id,
        tasks.install_node(task, init).next_node_id == tasks.next_node_id,
        tasks.install_node(task, init).next_task_id == tasks.next_task_id,
        tasks.with_main_task().next_node_id == tasks.next_node_id,
        tasks.with_main_task().next_task_id == tasks.next_task_id,
        tasks.pick(index).0.next_node_id == tasks.next_node_id,
        tasks.pick(index).0.next_task_id == tasks.next_task_id,
{
}

/// Killing a node marks exactly its tasks as killed, and changes no task otherwise. One task is
/// added, which is not killed and not paused and goes by the name and the identifier of the task
/// that stood for the node. The node is represented by it and holds nothing back any longer, and
/// no other node changes.
pub proof fn law_what_kill_does<R, I>(tasks: Tasks<R, I>, id: NodeId, i: int, other: u64)
    requires
        tasks.nodes.contains_key(id.0),
        tasks.infos.len() < usize::MAX,
    ensures
        ({
            let after = tasks.kill(id);
            let added = after.infos[tasks.infos.len() as int];
            let stood = tasks.infos[tasks.nodes[id.0].info.index as int];
            &&& after.infos.len() == tasks.infos.len() + 1
            &&& 0 <= i < tasks.infos.len() ==> {
                &&& after.infos[i].killed <==> tasks.infos[i].killed || tasks.infos[i].node == id
                &&& after.infos[i].paused == tasks.infos[i].paused
                &&& after.infos[i].node == tasks.infos[i].node
                &&& after.infos[i].name == tasks.infos[i].name
                &&& after.infos[i].task_id == tasks.infos[i].task_id
            }
            &&& !added.killed && !added.paused
            &&& added.node == id && added.name == stood.name && added.task_id == stood.task_id
            &&& after.nodes.contains_key(other) <==> tasks.nodes.contains_key(other)
            &&& other != id.0 ==> after.nodes[other] == tasks.nodes[other]
            &&& after.nodes[id.0].info.index == tasks.infos.len()
            &&& after.nodes[id.0].paused.len() == 0
            &&& after.nodes[id.0].init == tasks.nodes[id.0].init
        }),
{
}

/// Deleting a node does to the tasks what killing it does, and takes away the one node and no
/// other.
pub proof fn law_what_delete_does<R, I>(tasks: Tasks<R, I>, id: NodeId, i: int, other: u64)
    requires
        tasks.nodes.contains_key(id.0),
        tasks.infos.len() < usize::MAX,
    ensures
        ({
            let after = tasks.delete_node(id);
            &&& after.infos == tasks.kill(id).infos
            &&& after.infos.len() == tasks.infos.len() + 1
            &&& 0 <= i < tasks.infos.len() ==> {
                &&& after.infos[i].killed <==> tasks.infos[i].killed || tasks.infos[i].node == id
                &&& after.infos[i].paused == tasks.infos[i].paused
                &&& after.infos[i].node == tasks.infos[i].node
                &&& after.infos[i].name == tasks.infos[i].name
                &&& after.infos[i].task_id == tasks.infos[i].task_id
            }
            &&& after.nodes.contains_key(other) <==> tasks.nodes.contains_key(other) && other
                != id.0
            &&& other != id.0 ==> after.nodes[other] == tasks.nodes[other]
        }),
{
}

/// What is ready for a runnable task of another node is run all the same when a node has been
/// killed, paused, resumed or deleted, if it is picked; and what is ready for a task of a node that
/// has been killed is dropped.
pub proof fn law_other_nodes_go_on<R, I>(tasks: Tasks<R, I>, id: NodeId, index: int)
    requires
        tasks.wf(),
        tasks.nodes.contains_key(id.0),
        tasks.infos.len() < usize::MAX,
        0 <= index < tasks.ready.len(),
    ensures
        ({
            let (runnable, task) = tasks.ready[index];
            let info = tasks.infos[task.index as int];
            &&& info.node != id && !info.paused && !info.killed ==> {
                &&& tasks.kill(id).pick(index).1 == Picked::Run(runnable, task)
                &&& tasks.delete_node(id).pick(index).1 == Picked::Run(runnable, task)
                &&& tasks.pause(id).pick(index).1 == Picked::Run(runnable, task)
                &&& tasks.resume(id).pick(index).1 == Picked::Run(runnable, task)
            }
            &&& info.node == id ==> {
                &&& tasks.kill(id).pick(index).1 == Picked::Drop(runnable, task)
                &&& tasks.delete_node(id).pick(index).1 == Picked::Drop(runnable, task)
            }
        }),
{
    let task = tasks.ready[index].1;
    assert(tasks.has_task(task));
    assert(tasks.resume(id).ready[index] == tasks.ready[index]);
}

/// Pausing a node marks exactly its tasks as paused, and changes nothing else.
pub proof fn law_what_pause_does<R, I>(tasks: Tasks<R, I>, id: NodeId, i: int)
    ensures
        ({
            let after = tasks.pause(id);
            &&& after.infos.len() == tasks.infos.len()
            &&& 0 <= i < tasks.infos.len() ==> {
                &&& after.infos[i].paused <==> tasks.infos[i].paused || tasks.infos[i].node == id
                &&& after.infos[i].killed == tasks.infos[i].killed
                &&& after.infos[i].node == tasks.infos[i].node
                &&& after.infos[i].name == tasks.infos[i].name
                &&& after.infos[i].task_id == tasks.infos[i].task_id
            }
            &&& after.nodes == tasks.nodes
        }),
{
}

/// Resuming a node marks exactly its tasks as not paused. What it held back is ready, behind what
/// was ready, each for the task that it was held back for and in the order in which it was; the
/// node holds nothing back any longer. Nothing else changes.
pub proof fn law_what_resume_does<R, I>(
    tasks: Tasks<R, I>,
    id: NodeId,
    i: int,
    other: u64,
    place: int,
)
    requires
        tasks.nodes.contains_key(id.0),
    ensures
        ({
            let after = tasks.resume(id);
            let held = tasks.nodes[id.0].paused;
            &&& after.infos.len() == tasks.infos.len()
            &&& 0 <= i < tasks.infos.len() ==> {
                &&& after.infos[i].paused <==> tasks.infos[i].paused && tasks.infos[i].node != id
                &&& after.infos[i].killed == tasks.infos[i].killed
                &&& after.infos[i].node == tasks.infos[i].node
                &&& after.infos[i].name == tasks.infos[i].name
                &&& after.infos[i].task_id == tasks.infos[i].task_id
            }
            &&& after.ready.len() == tasks.ready.len() + held.len()
            &&& 0 <= place < tasks.ready.len() ==> after.ready[place] == tasks.ready[place]
            &&& 0 <= place < held.len() ==> after.ready[tasks.ready.len() + place] == held[place]
            &&& after.nodes.contains_key(other) <==> tasks.nodes.contains_key(other)
            &&& other != id.0 ==> after.nodes[other] == tasks.nodes[other]
            &&& after.nodes[id.0].info == tasks.nodes[id.0].info
            &&& after.nodes[id.0].init == tasks.nodes[id.0].init
            &&& after.nodes[id.0].paused.len() == 0
        }),
{
}

/// Resuming several nodes resumes each of them, the earlier ones before the later ones: a task
/// is paused afterwards if it was before and its node is none of them, and nothing is held back by
/// any of them. What was ready stays in its place.
pub proof fn law_what_resuming_several_does<R, I>(
    tasks: Tasks<R, I>,
    ids: Seq<NodeId>,
    id: NodeId,
    i: int,
    other: u64,
    place: int,
)
    requires
        forall|j: int| 0 <= j < ids.len() ==> tasks.nodes.contains_key((#[trigger] ids[j]).0),
    ensures
        tasks.resume_all(Seq::empty()) == tasks,
        tasks.resume_all(ids.push(id)) == tasks.resume_all(ids).resume(id),
        ({
            let after = tasks.resume_all(ids);
            &&& after.infos.len() == tasks.infos.len()
            &&& 0 <= i < tasks.infos.len() ==> {
                &&& after.infos[i].paused <==> tasks.infos[i].paused && !ids.contains(
                    tasks.infos[i].node,
                )
                &&& after.infos[i].killed == tasks.infos[i].killed
                &&& after.infos[i].node == tasks.infos[i].node
                &&& after.infos[i].name == tasks.infos[i].name
                &&& after.infos[i].task_id == tasks.infos[i].task_id
            }
            &&& tasks.ready.len() <= after.ready.len()
            &&& 0 <= place < tasks.ready.len() ==> after.ready[place] == tasks.ready[place]
            &&& after.nodes.contains_key(other) <==> tasks.nodes.contains_key(other)
            &&& !ids.contains(NodeId(other)) ==> after.nodes[other] == tasks.nodes[other]
            &&& tasks.nodes.contains_key(other) ==> {
                &&& after.nodes[other].info == tasks.nodes[other].info
                &&& after.nodes[other].init == tasks.nodes[other].init
                &&& ids.contains(NodeId(other)) ==> after.nodes[other].paused.len() == 0
            }
            &&& after.next_node_id == tasks.next_node_id
            &&& after.next_task_id == tasks.next_task_id
            &&& after.paused_node_ids == tasks.paused_node_ids
        }),
    decreases ids.len(),
{
    assert(ids.push(id).drop_last() =~= ids);
    if ids.len() > 0 {
        let earlier = ids.drop_last();
        let last = ids.last();
        assert forall|j: int| 0 <= j < earlier.len() implies tasks.nodes.contains_key(
            (#[trigger] earlier[j]).0,
        ) by {
            assert(earlier[j] == ids[j]);
        }
        law_what_resuming_several_does(tasks, earlier, id, i, other, place);
        law_what_resuming_several_does(tasks, earlier, id, i, last.0, place);
        let before = tasks.resume_all(earlier);
        law_what_resume_does(before, last, i, other, place);
        assert(ids =~= earlier.push(last));
        assert forall|node: NodeId| ids.contains(node) <==> earlier.contains(node) || node == last by {
            vstd::seq_lib::lemma_seq_contains_after_push(earlier, last, node);
        }
    }
}

/// A new node gets the next identifier, and the task that stands for it the next task identifier.
/// It is called as is asked, or by its number if nothing is. The task is neither paused nor killed.
/// No task that there was changes, and there is no node yet.
pub proof fn law_what_allocating_a_node_does<R, I>(
    tasks: Tasks<R, I>,
    name: Option<Seq<char>>,
    i: int,
)
    ensures
        ({
            let after = tasks.allocate_node(name);
            let added = after.infos[tasks.infos.len() as int];
            &&& after.infos.len() == tasks.infos.len() + 1
            &&& 0 <= i < tasks.infos.len() ==> after.infos[i] == tasks.infos[i]
            &&& added.node == NodeId(tasks.next_node_id)
            &&& added.task_id == TaskId(tasks.next_task_id)
            &&& !added.paused && !added.killed
            &&& name matches Some(name) ==> added.name == name
            &&& name is None ==> added.name == "node-"@ + crate::id::decimal(
                tasks.next_node_id as nat,
            )
            &&& after.nodes == tasks.nodes
        }),
{
}

/// Installing a node adds the one node, under the identifier that the task which stands for it has,
/// with nothing held back; no task and no other node changes.
pub proof fn law_what_installing_a_node_does<R, I>(
    tasks: Tasks<R, I>,
    task: TaskRef,
    init: Option<I>,
    other: u64,
)
    ensures
        ({
            let after = tasks.install_node(task, init);
            let id = tasks.infos[task.index as int].node.0;
            &&& after.infos == tasks.infos
            &&& after.nodes.contains_key(id)
            &&& after.nodes[id].info == task
            &&& after.nodes[id].init == init
            &&& after.nodes[id].paused.len() == 0
            &&& other != id ==> {
                &&& after.nodes.contains_key(other) <==> tasks.nodes.contains_key(other)
                &&& after.nodes[other] == tasks.nodes[other]
            }
        }),
{
}

/// A spawned task belongs to the node of the task that spawns it, goes by its name, gets the next
/// task identifier and is neither paused nor killed. A task of the main node belongs to the node
/// zero, is the task zero and is called `main`. No other task and no node changes.
pub proof fn law_what_starting_a_task_does<R, I>(tasks: Tasks<R, I>, parent: TaskRef, i: int)
    ensures
        ({
            let after = tasks.spawn(parent);
            let added = after.infos[tasks.infos.len() as int];
            let by = tasks.infos[parent.index as int];
            &&& after.infos.len() == tasks.infos.len() + 1
            &&& 0 <= i < tasks.infos.len() ==> after.infos[i] == tasks.infos[i]
            &&& added.node == by.node && added.name == by.name
            &&& added.task_id == TaskId(tasks.next_task_id)
            &&& !added.paused && !added.killed
            &&& after.nodes == tasks.nodes
        }),
        ({
            let after = tasks.with_main_task();
            let added = after.infos[tasks.infos.len() as int];
            &&& after.infos.len() == tasks.infos.len() + 1
            &&& 0 <= i < tasks.infos.len() ==> after.infos[i] == tasks.infos[i]
            &&& added.node == NodeId(0) && added.task_id == TaskId(0) && added.name == "main"@
            &&& !added.paused && !added.killed
            &&& after.nodes == tasks.nodes
        }),
{
}

/// What is picked is what stands at the place. It is to be dropped exactly if its task is killed,
/// held back exactly if its task is paused and not killed, and to be run exactly if neither. The
/// last that is ready takes its place, and the rest of the ready queue stays where it is. The node
/// of a task whose entry is held back gets that entry at the end of its list. Nothing else changes.
pub proof fn law_what_pick_does<R, I>(tasks: Tasks<R, I>, index: int, place: int, other: u64)
    requires
        0 <= index < tasks.ready.len(),
    ensures
        ({
            let (after, picked) = tasks.pick(index);
            let (runnable, task) = tasks.ready[index];
            let info = tasks.infos[task.index as int];
            &&& info.killed <==> picked == Picked::Drop(runnable, task)
            &&& info.paused && !info.killed <==> picked == Picked::<R>::HeldBack
            &&& !info.paused && !info.killed <==> picked == Picked::Run(runnable, task)
            &&& after.ready.len() == tasks.ready.len() - 1
            &&& 0 <= place < after.ready.len() && place != index ==> after.ready[place]
                == tasks.ready[place]
            &&& index < after.ready.len() ==> after.ready[index] == tasks.ready[tasks.ready.len()
                - 1]
            &&& after.infos == tasks.infos
            &&& after.paused_node_ids == tasks.paused_node_ids
            &&& !(picked is HeldBack) ==> after.nodes == tasks.nodes
            &&& picked is HeldBack ==> {
                let id = info.node.0;
                &&& after.nodes[id].info == tasks.nodes[id].info
                &&& after.nodes[id].init == tasks.nodes[id].init
                &&& after.nodes[id].paused == tasks.nodes[id].paused.push((runnable, task))
                &&& other != id ==> {
                    &&& after.nodes.contains_key(other) <==> tasks.nodes.contains_key(other)
                    &&& after.nodes[other] == tasks.nodes[other]
                }
            }
        }),
{
}

/// What comes next is found by drawing one place, from the first of the ready queue up to the last.
/// If what stands there is held back, what comes next is found in the same way in what is
/// left; if not, that is what comes next. Of an empty queue nothing is drawn.
pub proof fn law_what_comes_next<R, I>(tasks: Tasks<R, I>, rand: RngHistory)
    ensures
        tasks.ready.len() == 0 ==> tasks.next_ready(rand) == (rand, tasks, ReadyStep::<R>::Idle),
        0 < tasks.ready.len() ==> ({
            let len = tasks.ready.len() as u64;
            let place = crate::rng::nth_draw(rand.seed, rand.drawn, 0, len) as int;
            let later = RngHistory { seed: rand.seed, drawn: rand.drawn.push((0u64, len)) };
            let (runnable, task) = tasks.ready[place];
            let info = tasks.infos[task.index as int];
            let (after_rand, after, step) = tasks.next_ready(rand);
            &&& info.killed ==> {
                &&& step == ReadyStep::Drop(runnable, task)
                &&& after == tasks.pick(place).0
                &&& after_rand == later
            }
            &&& !info.killed && !info.paused ==> {
                &&& step == ReadyStep::Run(runnable, task)
                &&& after == tasks.pick(place).0
                &&& after_rand == later
            }
            &&& !info.killed && info.paused ==> (after_rand, after, step) == tasks.pick(
                place,
            ).0.next_ready(later)
        }),
        tasks.ready.len() > 0 ==> tasks.draws_in_queue(rand) ==> crate::rng::nth_draw(
            rand.seed,
            rand.drawn,
            0,
            tasks.ready.len() as u64,
        ) < tasks.ready.len(),
{
}

/// Drawing from a range looks at the seed and at what was drawn before, and is remembered.
pub proof fn law_draws_are_remembered(rand: RngHistory, low: u64, high: u64)
    ensures
        rand.draw(low, high) == crate::rng::nth_draw(rand.seed, rand.drawn, low, high),
        rand.after(low, high).seed == rand.seed,
        rand.after(low, high).drawn == rand.drawn.push((low, high)),
{
}

/// Where tasks keep their receivers, each task that there was has the receiver that it had. When a
/// node is killed, each of its tasks that was not killed is told, and every other task keeps its
/// receiver.
pub proof fn law_who_is_told<R, I>(
    before: TaskHandle<R, I>,
    after: TaskHandle<R, I>,
    id: NodeId,
    task: TaskRef,
)
    requires
        task.index < before@.infos.len(),
    ensures
        after.keeps_receivers_of(before) ==> after.killed_receiver(task) == before.killed_receiver(
            task,
        ),
        after.tells_of_kill(before, id) && before@.infos[task.index as int].node == id
            && !before@.infos[task.index as int].killed ==> after.tells(before, task),
        after.tells_of_kill(before, id) && (before@.infos[task.index as int].node != id
            || before@.infos[task.index as int].killed) ==> after.killed_receiver(task)
            == before.killed_receiver(task),
{
}

} // verus!
