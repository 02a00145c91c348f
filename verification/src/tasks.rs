//! The tasks and nodes of a simulation: which tasks are ready, which are held back, and which
//! must no longer run.

use crate::id::{labelled, NodeId, TaskId};
use crate::info::TaskInfo;
use crate::model::{NodeView, Picked, TaskRef, Tasks};
use std::collections::HashMap;
use vstd::prelude::*;

verus! {

broadcast use vstd::std_specs::hash::group_hash_axioms;

struct Node<R, I> {
    info: TaskRef,
    paused: Vec<(R, TaskRef)>,
    init: Option<I>,
}

impl<R, I> Node<R, I> {
    spec fn view(self) -> NodeView<R, I> {
        NodeView { info: self.info, paused: self.paused@, init: self.init }
    }
}

/// The tasks and nodes.
///
/// `R` is what runs a task once, and `I` is what starts the initial task of a node. They are
/// kept and handed back, and never looked into.
pub struct TaskHandle<R, I> {
    infos: Vec<TaskInfo>,
    nodes: HashMap<u64, Node<R, I>>,
    ready: Vec<(R, TaskRef)>,
    next_node_id: u64,
    next_task_id: u64,
    paused_node_ids: Vec<NodeId>,
}

impl<R, I> View for TaskHandle<R, I> {
    type V = Tasks<R, I>;

    closed spec fn view(&self) -> Tasks<R, I> {
        Tasks {
            infos: self.infos@.map_values(|info: TaskInfo| info@),
            nodes: self.nodes@.map_values(|node: Node<R, I>| node.view()),
            ready: self.ready@,
            next_node_id: self.next_node_id,
            next_task_id: self.next_task_id,
            paused_node_ids: self.paused_node_ids@,
        }
    }
}

/// What is left to do when a node has been killed.
pub struct KillActions<R> {
    /// The node. Its timers are to be cancelled and disabled along with the kill.
    pub disable_timers: NodeId,
    /// What the node held back, and for which tasks. It is to be dropped.
    pub dropped: Vec<(R, TaskRef)>,
}

impl<R, I> TaskHandle<R, I> {
    /// No task and no node yet.
    pub fn new() -> (h: TaskHandle<R, I>)
        ensures
            h@ == Tasks::<R, I>::empty(),
            h@.wf(),
    {
        let h = TaskHandle {
            infos: Vec::new(),
            nodes: HashMap::new(),
            ready: Vec::new(),
            next_node_id: 1,
            next_task_id: 1,
            paused_node_ids: Vec::new(),
        };
        assert(h@ =~= Tasks::<R, I>::empty());
        h
    }

    fn add_info(&mut self, info: TaskInfo) -> (task: TaskRef)
        ensures
            final(self)@ == old(self)@.with_info(info@),
            final(self).nodes@ == old(self).nodes@,
            final(self).infos@ == old(self).infos@.push(info),
            task.index == old(self)@.infos.len(),
    {
        let task = TaskRef { index: self.infos.len() };
        self.infos.push(info);
        assert(self@ =~= old(self)@.with_info(info@));
        task
    }

    /// Marks every task of the node `id` as killed.
    fn kill_infos(&mut self, id: NodeId)
        ensures
            final(self)@ == (Tasks { infos: Tasks::<R, I>::with_killed(old(self)@.infos, id), ..old(self)@ }),
            final(self).nodes@ == old(self).nodes@,
            final(self).tells_of_kill(*old(self), id),
    {
        let mut i: usize = 0;
        while i < self.infos.len()
            invariant
                i <= self.infos.len(),
                self.infos.len() == old(self).infos.len(),
                forall|j: int|
                    0 <= j < i ==> (#[trigger] self.infos@[j])@ == Tasks::<R, I>::with_killed(
                        old(self)@.infos,
                        id,
                    )[j],
                forall|j: int|
                    0 <= j < i ==> if old(self).infos@[j]@.node == id && !old(
                        self,
                    ).infos@[j]@.killed {
                        (#[trigger] self.infos@[j]).keeps_channel_of(old(self).infos@[j])
                    } else {
                        self.infos@[j] == old(self).infos@[j]
                    },
                forall|j: int|
                    i <= j < self.infos.len() ==> #[trigger] self.infos@[j] == old(
                        self,
                    ).infos@[j],
                self@ == (Tasks { infos: self@.infos, ..old(self)@ }),
                self.nodes@ == old(self).nodes@,
            decreases self.infos.len() - i,
        {
            if self.infos[i].node() == id && !self.infos[i].is_killed() {
                self.infos[i].set_killed();
            }
            i += 1;
        }
        assert(self@.infos =~= Tasks::<R, I>::with_killed(old(self)@.infos, id));
    }

    /// Marks every task of the node `id` as paused, or not.
    fn pause_infos(&mut self, id: NodeId, paused: bool)
        ensures
            final(self)@ == (Tasks {
                infos: Tasks::<R, I>::with_paused(old(self)@.infos, id, paused),
                ..old(self)@
            }),
            final(self).nodes@ == old(self).nodes@,
            final(self).keeps_receivers_of(*old(self)),
    {
        let mut i: usize = 0;
        while i < self.infos.len()
            invariant
                i <= self.infos.len(),
                self.infos.len() == old(self).infos.len(),
                forall|j: int|
                    0 <= j < i ==> (#[trigger] self.infos@[j])@ == Tasks::<R, I>::with_paused(
                        old(self)@.infos,
                        id,
                        paused,
                    )[j],
                forall|j: int|
                    0 <= j < i ==> (#[trigger] self.infos@[j]).killed_receiver() == old(
                        self,
                    ).infos@[j].killed_receiver(),
                forall|j: int|
                    i <= j < self.infos.len() ==> #[trigger] self.infos@[j] == old(
                        self,
                    ).infos@[j],
                self@ == (Tasks { infos: self@.infos, ..old(self)@ }),
                self.nodes@ == old(self).nodes@,
            decreases self.infos.len() - i,
        {
            if self.infos[i].node() == id {
                self.infos[i].set_paused(paused);
            }
            i += 1;
        }
        assert(self@.infos =~= Tasks::<R, I>::with_paused(old(self)@.infos, id, paused));
    }

    /// The receiver on which the task `task` can wait for being killed.
    pub closed spec fn killed_receiver(
        &self,
        task: TaskRef,
    ) -> tokio::sync::watch::Receiver<bool> {
        self.infos@[task.index as int].killed_receiver()
    }

    /// Every task that there was before can wait for being killed on the receiver that it had.
    pub open spec fn keeps_receivers_of(&self, before: TaskHandle<R, I>) -> bool {
        forall|task: TaskRef|
            before@.has_task(task) ==> #[trigger] self.killed_receiver(task)
                == before.killed_receiver(task)
    }

    /// That the task `task` is killed was sent on the channel that it had before, so that the
    /// receivers on which it waits were told.
    pub closed spec fn tells(&self, before: TaskHandle<R, I>, task: TaskRef) -> bool {
        self.infos@[task.index as int].keeps_channel_of(before.infos@[task.index as int])
    }

    /// Every task of the node `id` that was not killed before was told that it is. The other tasks
    /// keep their receivers.
    pub open spec fn tells_of_kill(&self, before: TaskHandle<R, I>, id: NodeId) -> bool {
        forall|task: TaskRef|
            #![trigger self.killed_receiver(task)]
            #![trigger self.tells(before, task)]
            before@.has_task(task) ==> if before@.info(task).node == id && !before@.info(
                task,
            ).killed {
                self.tells(before, task)
            } else {
                self.killed_receiver(task) == before.killed_receiver(task)
            }
    }

    /// The task `task`.
    pub fn info(&self, task: TaskRef) -> (info: &TaskInfo)
        requires
            self@.has_task(task),
        ensures
            info@ == self@.info(task),
            info.killed_receiver() == self.killed_receiver(task),
    {
        &self.infos[task.index]
    }

    /// Whether there is a node `id`.
    pub fn has_node(&self, id: NodeId) -> (has: bool)
        ensures
            has == self@.has_node(id),
    {
        self.nodes.contains_key(&id.0)
    }

    /// Notes that the node `id` is to be resumed when the main task is done.
    pub fn push_paused_node_id(&mut self, id: NodeId)
        requires
            old(self)@.wf(),
        ensures
            final(self)@ == (Tasks {
                paused_node_ids: old(self)@.paused_node_ids.push(id),
                ..old(self)@
            }),
            final(self)@.wf(),
            final(self).keeps_receivers_of(*old(self)),
    {
        self.paused_node_ids.push(id);
    }

    /// Whether there are all the nodes that were noted.
    pub fn has_noted_nodes(&self) -> (has: bool)
        ensures
            has == self@.has_noted_nodes(),
    {
        let mut i: usize = 0;
        while i < self.paused_node_ids.len()
            invariant
                i <= self.paused_node_ids.len(),
                forall|j: int|
                    0 <= j < i ==> self@.has_node(#[trigger] self@.paused_node_ids[j]),
            decreases self.paused_node_ids.len() - i,
        {
            let id = self.paused_node_ids[i];
            if !self.has_node(id) {
                assert(!self@.has_node(self@.paused_node_ids[i as int]));
                return false;
            }
            i += 1;
        }
        true
    }

    /// Makes `runnable` ready to run, for the task `task`.
    pub fn send(&mut self, runnable: R, task: TaskRef)
        requires
            old(self)@.wf(),
            old(self)@.has_task(task),
        ensures
            final(self)@ == (Tasks {
                ready: old(self)@.ready.push((runnable, task)),
                ..old(self)@
            }),
            final(self)@.wf(),
            final(self).keeps_receivers_of(*old(self)),
    {
        self.ready.push((runnable, task));
    }

    /// How many are ready to run.
    pub fn ready_len(&self) -> (len: usize)
        ensures
            len == self@.ready.len(),
    {
        self.ready.len()
    }

    /// Takes what is ready at `index`. What belongs to a paused task goes to the waiting list
    /// of its node.
    pub fn pick(&mut self, index: usize) -> (picked: Picked<R>)
        requires
            old(self)@.wf(),
            index < old(self)@.ready.len(),
        ensures
            (final(self)@, picked) == old(self)@.pick(index as int),
            final(self)@.wf(),
            final(self).keeps_receivers_of(*old(self)),
    {
        let (runnable, task) = self.ready.swap_remove(index);
        assert(self@ =~= old(self)@.take_ready(index as int));
        assert(self@.wf());
        if self.infos[task.index].is_killed() {
            return Picked::Drop(runnable, task);
        }
        if self.infos[task.index].is_paused() {
            let id = self.infos[task.index].node();
            assert(self@.has_node(self@.infos[task.index as int].node));
            let mut node = self.nodes.remove(&id.0).unwrap();
            node.paused.push((runnable, task));
            self.nodes.insert(id.0, node);
            assert(self@ =~= old(self)@.take_ready(index as int).hold_back(id, runnable, task));
            return Picked::HeldBack;
        }
        Picked::Run(runnable, task)
    }

    /// Empties the ready queue, and returns what was in it.
    pub fn clear_inner(&mut self) -> (dropped: Vec<(R, TaskRef)>)
        requires
            old(self)@.wf(),
        ensures
            final(self)@ == (Tasks { ready: Seq::empty(), ..old(self)@ }),
            final(self)@.wf(),
            final(self).keeps_receivers_of(*old(self)),
            dropped@ == old(self)@.ready,
    {
        let mut dropped = Vec::new();
        std::mem::swap(&mut dropped, &mut self.ready);
        dropped
    }

    /// Kill all tasks of the node.
    pub fn kill(&mut self, id: NodeId) -> (actions: KillActions<R>)
        requires
            old(self)@.wf(),
            old(self)@.has_node(id),
        ensures
            final(self)@ == old(self)@.kill(id),
            final(self)@.wf(),
            final(self)@.ready == old(self)@.ready,
            final(self).tells_of_kill(*old(self), id),
            actions.disable_timers == id,
            actions.dropped@ == old(self)@.node(id).paused,
    {
        let node = self.nodes.remove(&id.0).unwrap();
        let old_info = &self.infos[node.info.index];
        let new_info = TaskInfo::new(id, old_info.task_id(), old_info.name());
        self.kill_infos(id);
        let ghost killed = *self;
        let info = self.add_info(new_info);
        self.nodes.insert(id.0, Node { info, paused: Vec::new(), init: node.init });
        assert(self@ =~= old(self)@.kill(id));
        assert forall|task: TaskRef|
            #![trigger self.killed_receiver(task)]
            #![trigger self.tells(*old(self), task)]
            old(self)@.has_task(task) implies killed.killed_receiver(task) == self.killed_receiver(
            task,
        ) && killed.tells(*old(self), task) == self.tells(*old(self), task) by {}
        KillActions { disable_timers: id, dropped: node.paused }
    }

    /// Pause all tasks of the node.
    pub fn pause(&mut self, id: NodeId)
        requires
            old(self)@.wf(),
            old(self)@.has_node(id),
        ensures
            final(self)@ == old(self)@.pause(id),
            final(self)@.wf(),
            final(self)@.ready == old(self)@.ready,
            final(self).keeps_receivers_of(*old(self)),
    {
        self.pause_infos(id, true);
    }

    /// Resume the execution of the node.
    pub fn resume(&mut self, id: NodeId)
        requires
            old(self)@.wf(),
            old(self)@.has_node(id),
        ensures
            final(self)@ == old(self)@.resume(id),
            final(self)@.wf(),
            final(self).keeps_receivers_of(*old(self)),
    {
        let mut node = self.nodes.remove(&id.0).unwrap();
        self.ready.append(&mut node.paused);
        self.nodes.insert(id.0, node);
        self.pause_infos(id, false);
        assert(self@ =~= old(self)@.resume(id));
    }

    /// Resume the nodes that were noted, in the order in which they were noted.
    pub fn resume_paused_node_id(&mut self)
        requires
            old(self)@.wf(),
            old(self)@.has_noted_nodes(),
        ensures
            final(self)@ == old(self)@.resume_all(old(self)@.paused_node_ids),
            final(self)@.wf(),
            final(self).keeps_receivers_of(*old(self)),
    {
        let ghost ids = self@.paused_node_ids;
        let mut i: usize = 0;
        while i < self.paused_node_ids.len()
            invariant
                i <= self.paused_node_ids.len(),
                self.paused_node_ids@ == ids,
                self@ == old(self)@.resume_all(ids.take(i as int)),
                self@.wf(),
                self@.infos.len() == old(self)@.infos.len(),
                self.keeps_receivers_of(*old(self)),
                forall|j: int| 0 <= j < ids.len() ==> self@.has_node(#[trigger] ids[j]),
            decreases self.paused_node_ids.len() - i,
        {
            let id = self.paused_node_ids[i];
            assert(ids.take(i + 1).drop_last() =~= ids.take(i as int));
            self.resume(id);
            i += 1;
        }
        assert(ids.take(ids.len() as int) =~= ids);
    }

    /// Kill all tasks of the node and restart the initial task.
    pub fn restart(&mut self, id: NodeId) -> (actions: RestartActions<R>)
        requires
            old(self)@.wf(),
            old(self)@.has_node(id),
        ensures
            final(self)@ == old(self)@.kill(id),
            final(self)@.wf(),
            final(self)@.ready == old(self)@.ready,
            final(self).tells_of_kill(*old(self), id),
            actions.killed.disable_timers == id,
            actions.killed.dropped@ == old(self)@.node(id).paused,
            actions.enable_timers == id,
            actions.init == match old(self)@.node(id).init {
                Some(_) => Some(TaskNodeHandle { info: final(self)@.node(id).info }),
                None => None,
            },
    {
        let killed = self.kill(id);
        assert(self@.has_node(id));
        let node = self.nodes.get(&id.0).unwrap();
        let init = match &node.init {
            Some(_) => Some(TaskNodeHandle { info: node.info }),
            None => None,
        };
        RestartActions { killed, enable_timers: id, init }
    }

    /// What starts the initial task of the node `id`.
    pub fn init_of(&self, id: NodeId) -> (init: Option<&I>)
        ensures
            init == if self@.has_node(id) {
                match self@.node(id).init {
                    Some(init) => Some(&init),
                    None => None,
                }
            } else {
                None
            },
    {
        match self.nodes.get(&id.0) {
            Some(node) => node.init.as_ref(),
            None => None,
        }
    }

    /// Takes the identifiers of a new node, and adds the task that stands for it. The node
    /// itself is there once it has been installed; what starts its initial task runs before.
    pub fn allocate_node(&mut self, name: Option<String>) -> (handle: TaskNodeHandle)
        requires
            old(self)@.wf(),
        ensures
            final(self)@ == old(self)@.allocate_node(
                match name {
                    Some(name) => Some(name@),
                    None => None,
                },
            ),
            final(self)@.wf(),
            final(self)@.ready == old(self)@.ready,
            final(self).keeps_receivers_of(*old(self)),
            handle.info.index == old(self)@.infos.len(),
    {
        let id = NodeId(self.next_node_id);
        self.next_node_id = self.next_node_id.wrapping_add(1);
        let name = match name {
            Some(name) => name,
            None => {
                proof {
                    reveal_strlit("");
                }
                let name = labelled("node-", id.0, "");
                assert(name@ =~= Tasks::<R, I>::default_name(id));
                name
            },
        };
        let task_id = TaskId(self.next_task_id);
        self.next_task_id = self.next_task_id.wrapping_add(1);
        let info = self.add_info(TaskInfo::new(id, task_id, name));
        proof {
            old(self)@.lemma_adding_a_task_keeps_wf(self@, self@.infos.last());
        }
        TaskNodeHandle { info }
    }

    /// Adds the node of `handle`. Returns what a node of that identifier held back until now;
    /// it is to be dropped.
    pub fn install_node(&mut self, handle: &TaskNodeHandle, init: Option<I>) -> (dropped: Vec<(R, TaskRef)>)
        requires
            old(self)@.wf(),
            old(self)@.has_task(handle.info),
        ensures
            final(self)@ == old(self)@.install_node(handle.info, init),
            final(self)@.wf(),
            final(self)@.ready == old(self)@.ready,
            final(self).keeps_receivers_of(*old(self)),
            dropped@ == if old(self)@.has_node(old(self)@.info(handle.info).node) {
                old(self)@.node(old(self)@.info(handle.info).node).paused
            } else {
                Seq::empty()
            },
    {
        let id = self.infos[handle.info.index].node();
        let node = Node { info: handle.info, paused: Vec::new(), init };
        let replaced = self.nodes.insert(id.0, node);
        assert(self@ =~= old(self)@.install_node(handle.info, init));
        match replaced {
            Some(node) => node.paused,
            None => Vec::new(),
        }
    }

    /// Create a new node that has no initial task.
    pub fn create_node(&mut self, name: Option<String>) -> (handle: TaskNodeHandle)
        requires
            old(self)@.wf(),
        ensures
            final(self)@ == old(self)@.allocate_node(
                match name {
                    Some(name) => Some(name@),
                    None => None,
                },
            ).install_node(handle.info, None),
            final(self)@.wf(),
            final(self)@.ready == old(self)@.ready,
            final(self).keeps_receivers_of(*old(self)),
            handle.info.index == old(self)@.infos.len(),
    {
        let handle = self.allocate_node(name);
        let _dropped = self.install_node(&handle, None);
        handle
    }

    /// Kill all tasks of the node and forget the node.
    pub fn delete_node(&mut self, id: NodeId) -> (actions: KillActions<R>)
        requires
            old(self)@.wf(),
            old(self)@.has_node(id),
        ensures
            final(self)@ == old(self)@.delete_node(id),
            final(self)@.wf(),
            final(self)@.ready == old(self)@.ready,
            final(self).tells_of_kill(*old(self), id),
            actions.disable_timers == id,
            actions.dropped@ == old(self)@.node(id).paused,
    {
        let actions = self.kill(id);
        let ghost killed = *self;
        let _node = self.nodes.remove(&id.0);
        assert forall|task: TaskRef|
            #![trigger self.killed_receiver(task)]
            #![trigger self.tells(*old(self), task)]
            killed.killed_receiver(task) == self.killed_receiver(task) && killed.tells(
                *old(self),
                task,
            ) == self.tells(*old(self), task) by {}
        assert(self@ =~= old(self)@.delete_node(id));
        actions
    }

    /// Get the node handle.
    pub fn get_node(&self, id: NodeId) -> (handle: Option<TaskNodeHandle>)
        ensures
            handle == if self@.has_node(id) {
                Some(TaskNodeHandle { info: self@.node(id).info })
            } else {
                None
            },
    {
        match self.nodes.get(&id.0) {
            Some(node) => Some(TaskNodeHandle { info: node.info }),
            None => None,
        }
    }

    /// Adds a task of the main node.
    pub fn spawn_on_main_task(&mut self) -> (task: TaskRef)
        requires
            old(self)@.wf(),
        ensures
            final(self)@ == old(self)@.with_main_task(),
            final(self)@.wf(),
            final(self)@.ready == old(self)@.ready,
            final(self).keeps_receivers_of(*old(self)),
            task.index == old(self)@.infos.len(),
    {
        self.add_info(TaskInfo::new(NodeId::zero(), TaskId(0), "main".to_owned()))
    }
}

/// What is left to do when a node has been killed and is to be started again, in this order.
pub struct RestartActions<R> {
    pub killed: KillActions<R>,
    /// The node whose timers are to be enabled.
    pub enable_timers: NodeId,
    /// The handle for which the initial task is to be started, if the node has one.
    pub init: Option<TaskNodeHandle>,
}

/// What a task is started with.
pub struct SpawnTicket {
    /// The task.
    pub info: TaskRef,
    /// Where the task can wait for being killed.
    pub killed: tokio::sync::watch::Receiver<bool>,
}

/// What a task that is being polled has come to.
pub enum WaitEvent<T> {
    /// Its flag of being killed was set, to this.
    KilledChanged(bool),
    /// It has its output.
    Output(T),
}

/// The output of a task, if that is what it has come to. A killed task is dropped and never
/// polled, so that it is not told that it is killed.
pub fn output_of<T>(event: WaitEvent<T>) -> (output: Option<T>)
    requires
        event != WaitEvent::<T>::KilledChanged(true),
    ensures
        output == match event {
            WaitEvent::Output(output) => Some(output),
            WaitEvent::KilledChanged(_) => None,
        },
{
    match event {
        WaitEvent::Output(output) => Some(output),
        WaitEvent::KilledChanged(_) => None,
    }
}

/// A node, as seen by one of its tasks.
#[derive(Debug, PartialEq, Eq, Clone, Copy, Structural)]
pub struct TaskNodeHandle {
    pub info: TaskRef,
}

impl TaskNodeHandle {
    /// The handle of the task that runs, if one does and a simulation is running.
    pub fn try_current(task: Option<TaskRef>, in_simulation: bool) -> (handle: Option<
        TaskNodeHandle,
    >)
        ensures
            handle == match task {
                Some(info) if in_simulation => Some(TaskNodeHandle { info }),
                _ => None,
            },
    {
        match task {
            Some(info) if in_simulation => Some(TaskNodeHandle { info }),
            _ => None,
        }
    }

    /// The handle of the task that runs.
    pub fn current(task: Option<TaskRef>, in_simulation: bool) -> (handle: TaskNodeHandle)
        requires
            task is Some,
            in_simulation,
        ensures
            task == Some(handle.info),
    {
        Self::try_current(task, in_simulation).unwrap()
    }

    /// The node.
    pub fn id<R, I>(&self, tasks: &TaskHandle<R, I>) -> (id: NodeId)
        requires
            tasks@.has_task(self.info),
        ensures
            id == tasks@.info(self.info).node,
    {
        tasks.info(self.info).node()
    }

    /// Adds a task to the node, with an identifier of its own.
    pub fn spawn<R, I>(&self, tasks: &mut TaskHandle<R, I>) -> (ticket: SpawnTicket)
        requires
            old(tasks)@.wf(),
            old(tasks)@.has_task(self.info),
        ensures
            final(tasks)@ == old(tasks)@.spawn(self.info),
            final(tasks)@.wf(),
            final(tasks)@.ready == old(tasks)@.ready,
            ticket.info.index == old(tasks)@.infos.len(),
            ticket.killed == final(tasks).killed_receiver(ticket.info),
            final(tasks).keeps_receivers_of(*old(tasks)),
    {
        let info = &tasks.infos[self.info.index];
        let new_task_id = TaskId(tasks.next_task_id);
        let new_info = TaskInfo::new(info.node(), new_task_id, info.name());
        tasks.next_task_id = tasks.next_task_id.wrapping_add(1);
        let new_info = tasks.add_info(new_info);
        proof {
            old(tasks)@.lemma_adding_a_task_keeps_wf(tasks@, tasks@.infos.last());
        }
        self.spawn_local(tasks, Some(new_info))
    }

    /// Starts the task `new_info`, or if there is none, one more part of the task that the
    /// handle belongs to.
    pub fn spawn_local<R, I>(
        &self,
        tasks: &TaskHandle<R, I>,
        new_info: Option<TaskRef>,
    ) -> (ticket: SpawnTicket)
        requires
            tasks@.has_task(self.info),
            new_info matches Some(info) ==> tasks@.has_task(info),
        ensures
            ticket.info == match new_info {
                Some(info) => info,
                None => self.info,
            },
            ticket.killed == tasks.killed_receiver(ticket.info),
    {
        let info = match new_info {
            Some(info) => info,
            None => self.info,
        };
        SpawnTicket { info, killed: tasks.info(info).subscribe_killed() }
    }
}

} // verus!
