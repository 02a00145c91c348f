//! The tasks and nodes of a simulation, as contracts speak of them, and what each operation
//! makes of them.

use crate::id::{NodeId, TaskId};
use crate::info::InfoView;
use crate::rng::RngHistory;
use vstd::prelude::*;

verus! {

/// Which task: its place among the tasks that a `TaskHandle` has ever known.
#[derive(Debug, PartialEq, Eq, Clone, Copy, Structural)]
pub struct TaskRef {
    pub index: usize,
}

/// What became of something that was ready.
pub enum Picked<R> {
    /// Its task is killed: it is to be dropped, as that task.
    Drop(R, TaskRef),
    /// Its task is paused: it waits until the node is resumed.
    HeldBack,
    /// It is to be run, as that task.
    Run(R, TaskRef),
}

/// What is to be done next with the ready queue.
pub enum ReadyStep<R> {
    /// The queue is empty.
    Idle,
    /// Drop this, as that task.
    Drop(R, TaskRef),
    /// Run this, as that task.
    Run(R, TaskRef),
}

/// A node, as contracts speak of it.
#[verifier::ext_equal]
#[verifier::reject_recursive_types(R)]
#[verifier::reject_recursive_types(I)]
pub struct NodeView<R, I> {
    /// The task that stands for the node: tasks that are started from the node's handle take
    /// its node and name.
    pub info: TaskRef,
    /// What was ready to run while its task was paused, and for which task, oldest first.
    pub paused: Seq<(R, TaskRef)>,
    /// What starts the initial task of the node.
    pub init: Option<I>,
}

/// The tasks and nodes, as contracts speak of them.
#[verifier::ext_equal]
#[verifier::reject_recursive_types(R)]
#[verifier::reject_recursive_types(I)]
pub struct Tasks<R, I> {
    /// Every task that there has ever been.
    pub infos: Seq<InfoView>,
    pub nodes: Map<u64, NodeView<R, I>>,
    /// What is ready to run, and for which task.
    pub ready: Seq<(R, TaskRef)>,
    pub next_node_id: u64,
    pub next_task_id: u64,
    /// The nodes that are resumed when the main task is done.
    pub paused_node_ids: Seq<NodeId>,
}

/// `s` without its item `i`, whose place the last item takes.
pub open spec fn swap_removed<A>(s: Seq<A>, i: int) -> Seq<A> {
    Seq::new(
        (s.len() - 1) as nat,
        |j: int|
            if j == i {
                s.last()
            } else {
                s[j]
            },
    )
}

impl<R, I> Tasks<R, I> {
    /// `infos`, with every task of the node `id` killed.
    pub open spec fn with_killed(infos: Seq<InfoView>, id: NodeId) -> Seq<InfoView> {
        Seq::new(
            infos.len(),
            |i: int|
                if infos[i].node == id {
                    InfoView { killed: true, ..infos[i] }
                } else {
                    infos[i]
                },
        )
    }

    /// `infos`, with every task of the node `id` paused, or not.
    pub open spec fn with_paused(infos: Seq<InfoView>, id: NodeId, paused: bool) -> Seq<InfoView> {
        Seq::new(
            infos.len(),
            |i: int|
                if infos[i].node == id {
                    InfoView { paused, ..infos[i] }
                } else {
                    infos[i]
                },
        )
    }

    /// The name of a node that was given none.
    pub open spec fn default_name(id: NodeId) -> Seq<char> {
        "node-"@ + crate::id::decimal(id.0 as nat)
    }

    /// No task and no node yet.
    pub open spec fn empty() -> Tasks<R, I> {
        Tasks {
            infos: Seq::empty(),
            nodes: Map::empty(),
            ready: Seq::empty(),
            next_node_id: 1,
            next_task_id: 1,
            paused_node_ids: Seq::empty(),
        }
    }

    /// There is such a task.
    pub open spec fn has_task(self, task: TaskRef) -> bool {
        task.index < self.infos.len()
    }

    /// There is such a node.
    pub open spec fn has_node(self, id: NodeId) -> bool {
        self.nodes.contains_key(id.0)
    }

    /// There are all the nodes that are to be resumed when the main task is done.
    pub open spec fn has_noted_nodes(self) -> bool {
        forall|i: int|
            0 <= i < self.paused_node_ids.len() ==> self.has_node(
                #[trigger] self.paused_node_ids[i],
            )
    }

    /// The task `task`.
    pub open spec fn info(self, task: TaskRef) -> InfoView {
        self.infos[task.index as int]
    }

    /// The node `id`.
    pub open spec fn node(self, id: NodeId) -> NodeView<R, I> {
        self.nodes[id.0]
    }

    /// The task `task` is one of the node `id`, and is not killed.
    pub open spec fn may_wait(self, id: NodeId, task: TaskRef) -> bool {
        self.has_task(task) && self.info(task).node == id && !self.info(task).killed
    }

    /// Every task that is spoken of exists, each node is represented by a task of its own and
    /// holds back tasks of its own that may still run, and a paused task that may still run
    /// belongs to a node that can hold it back.
    pub open spec fn wf(self) -> bool {
        &&& forall|id: u64| #[trigger]
            self.nodes.contains_key(id) ==> self.has_task(self.nodes[id].info) && self.info(
                self.nodes[id].info,
            ).node == NodeId(id)
        &&& forall|i: int| 0 <= i < self.ready.len() ==> self.has_task((#[trigger] self.ready[i]).1)
        &&& forall|i: int|
            0 <= i < self.infos.len() && (#[trigger] self.infos[i]).paused && !self.infos[i].killed
                ==> self.has_node(self.infos[i].node)
        &&& forall|id: u64, i: int|
            self.nodes.contains_key(id) && 0 <= i < self.nodes[id].paused.len() ==> self.may_wait(
                NodeId(id),
                (#[trigger] self.nodes[id].paused[i]).1,
            )
    }

    /// The task that is added next.
    pub open spec fn next_task(self) -> TaskRef {
        TaskRef { index: self.infos.len() as usize }
    }

    /// Adds a task.
    pub open spec fn with_info(self, info: InfoView) -> Tasks<R, I> {
        Tasks { infos: self.infos.push(info), ..self }
    }

    /// Adds a task of the main node.
    pub open spec fn with_main_task(self) -> Tasks<R, I> {
        self.with_info(InfoView::fresh(NodeId(0), TaskId(0), "main"@))
    }

    /// Takes what is ready at `index`; the last of what is ready takes its place.
    pub open spec fn take_ready(self, index: int) -> Tasks<R, I> {
        Tasks { ready: swap_removed(self.ready, index), ..self }
    }

    /// Puts `runnable`, which is for the task `task`, in the waiting list of the node `id`.
    pub open spec fn hold_back(self, id: NodeId, runnable: R, task: TaskRef) -> Tasks<R, I> {
        let node = self.node(id);
        Tasks {
            nodes: self.nodes.insert(
                id.0,
                NodeView { paused: node.paused.push((runnable, task)), ..node },
            ),
            ..self
        }
    }

    /// What becomes of what is ready at `index`, once it has been taken: it is for dropping if
    /// its task is killed, held back if its task is paused, and for running if neither.
    pub open spec fn pick(self, index: int) -> (Tasks<R, I>, Picked<R>) {
        let (runnable, task) = self.ready[index];
        let rest = self.take_ready(index);
        let info = self.info(task);
        if info.killed {
            (rest, Picked::Drop(runnable, task))
        } else if info.paused {
            (rest.hold_back(info.node, runnable, task), Picked::HeldBack)
        } else {
            (rest, Picked::Run(runnable, task))
        }
    }

    /// What comes next, if places in the ready queue are drawn from `rand` until what is found
    /// there need not be held back.
    pub open spec fn next_ready(self, rand: RngHistory) -> (RngHistory, Tasks<R, I>, ReadyStep<R>)
        decreases self.ready.len(),
    {
        if self.ready.len() == 0 {
            (rand, self, ReadyStep::Idle)
        } else {
            let len = self.ready.len() as u64;
            let (rest, picked) = self.pick(rand.draw(0, len) as int);
            match picked {
                Picked::Drop(runnable, task) => (
                    rand.after(0, len),
                    rest,
                    ReadyStep::Drop(runnable, task),
                ),
                Picked::Run(runnable, task) => (
                    rand.after(0, len),
                    rest,
                    ReadyStep::Run(runnable, task),
                ),
                Picked::HeldBack => rest.next_ready(rand.after(0, len)),
            }
        }
    }

    /// The places that are drawn from `rand` to find what comes next lie in the ready queue.
    pub open spec fn draws_in_queue(self, rand: RngHistory) -> bool
        decreases self.ready.len(),
    {
        self.ready.len() > 0 ==> {
            let len = self.ready.len() as u64;
            let place = rand.draw(0, len) as int;
            &&& 0 <= place < self.ready.len()
            &&& self.pick(place).1 is HeldBack ==> self.pick(place).0.draws_in_queue(
                rand.after(0, len),
            )
        }
    }

    /// Kills all tasks of the node `id`; a new task stands for the node.
    pub open spec fn kill(self, id: NodeId) -> Tasks<R, I> {
        let node = self.node(id);
        let info = self.info(node.info);
        Tasks {
            infos: Self::with_killed(self.infos, id).push(InfoView::fresh(id, info.task_id, info.name)),
            nodes: self.nodes.insert(
                id.0,
                NodeView {
                    info: self.next_task(),
                    paused: Seq::empty(),
                    init: node.init,
                },
            ),
            ..self
        }
    }

    /// Pauses all tasks of the node `id`.
    pub open spec fn pause(self, id: NodeId) -> Tasks<R, I> {
        Tasks { infos: Self::with_paused(self.infos, id, true), ..self }
    }

    /// Resumes all tasks of the node `id`, and makes ready what it held back, as it was.
    pub open spec fn resume(self, id: NodeId) -> Tasks<R, I> {
        let node = self.node(id);
        Tasks {
            infos: Self::with_paused(self.infos, id, false),
            nodes: self.nodes.insert(id.0, NodeView { paused: Seq::empty(), ..node }),
            ready: self.ready + node.paused,
            ..self
        }
    }

    /// Resumes the nodes `ids`, in this order.
    pub open spec fn resume_all(self, ids: Seq<NodeId>) -> Tasks<R, I>
        decreases ids.len(),
    {
        if ids.len() == 0 {
            self
        } else {
            self.resume_all(ids.drop_last()).resume(ids.last())
        }
    }

    /// Kills all tasks of the node `id` and forgets the node.
    pub open spec fn delete_node(self, id: NodeId) -> Tasks<R, I> {
        let killed = self.kill(id);
        Tasks { nodes: killed.nodes.remove(id.0), ..killed }
    }

    /// The name of the next node, if it is asked to be called `name`.
    pub open spec fn next_node_name(self, name: Option<Seq<char>>) -> Seq<char> {
        match name {
            Some(name) => name,
            None => Self::default_name(NodeId(self.next_node_id)),
        }
    }

    /// Takes an identifier for a node and one for the task that stands for it.
    pub open spec fn allocate_node(self, name: Option<Seq<char>>) -> Tasks<R, I> {
        Tasks {
            infos: self.infos.push(
                InfoView::fresh(
                    NodeId(self.next_node_id),
                    TaskId(self.next_task_id),
                    self.next_node_name(name),
                ),
            ),
            next_node_id: self.next_node_id.wrapping_add(1),
            next_task_id: self.next_task_id.wrapping_add(1),
            ..self
        }
    }

    /// Adds the node that the task `info` stands for.
    pub open spec fn install_node(self, info: TaskRef, init: Option<I>) -> Tasks<R, I> {
        Tasks {
            nodes: self.nodes.insert(
                self.info(info).node.0,
                NodeView { info, paused: Seq::empty(), init },
            ),
            ..self
        }
    }

    /// Adds a task to the node of the task `parent`, with an identifier of its own.
    pub open spec fn spawn(self, parent: TaskRef) -> Tasks<R, I> {
        let info = self.info(parent);
        Tasks {
            infos: self.infos.push(
                InfoView::fresh(info.node, TaskId(self.next_task_id), info.name),
            ),
            next_task_id: self.next_task_id.wrapping_add(1),
            ..self
        }
    }

    /// Adding a task that is not paused leaves everything well formed.
    pub(crate) proof fn lemma_adding_a_task_keeps_wf(self, next: Tasks<R, I>, info: InfoView)
        requires
            self.wf(),
            next.infos == self.infos.push(info),
            !info.paused,
            next.nodes == self.nodes,
            next.ready == self.ready,
        ensures
            next.wf(),
    {
    }
}

} // verus!
