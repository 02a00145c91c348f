//! The executor: what it does next, and how a node goes down and comes back.

use crate::id::NodeId;
use crate::model::{Picked, ReadyStep, TaskRef, Tasks};
use crate::rng::{GlobalRng, RngHistory};
use crate::tasks::{KillActions, TaskHandle};
use crate::time::Duration;
use vstd::prelude::*;

verus! {

/// The executor, as contracts speak of it.
#[verifier::ext_equal]
#[verifier::reject_recursive_types(R)]
#[verifier::reject_recursive_types(I)]
pub struct ExecutorView<R, I> {
    pub tasks: Tasks<R, I>,
    pub rand: RngHistory,
    pub time_limit: Option<Duration>,
}

impl<R, I> ExecutorView<R, I> {
    /// An executor that draws from a generator with the history `rand`.
    pub open spec fn start(rand: RngHistory) -> ExecutorView<R, I> {
        ExecutorView { tasks: Tasks::empty(), rand, time_limit: None }
    }

    /// What comes next from the ready queue.
    pub open spec fn run_all_ready(self) -> (ExecutorView<R, I>, ReadyStep<R>) {
        let (rand, tasks, step) = self.tasks.next_ready(self.rand);
        (ExecutorView { tasks, rand, ..self }, step)
    }

    /// What is to be done once something has been run as a task of the node `node_id`: if the
    /// node was taken down and is to come back, a task of the main node restarts it, and time
    /// passes, from 50 to 100 nanoseconds; after any other panic all that is ready is dropped.
    pub open spec fn after_run(self, node_id: NodeId, outcome: RunOutcome) -> (
        ExecutorView<R, I>,
        AfterRunView<R>,
    ) {
        let advance = Duration { nanos: self.rand.draw(50, 100) as u128 };
        let rand = self.rand.after(50, 100);
        match outcome {
            RunOutcome::NodeKilled(PanicWrapper { restart_after: Some(delay) }) => (
                ExecutorView { tasks: self.tasks.with_main_task(), rand, ..self },
                AfterRunView::Continue {
                    restart: Some(
                        Restart { task: self.tasks.next_task(), node: node_id, delay },
                    ),
                    advance,
                },
            ),
            RunOutcome::Panicked => (
                ExecutorView { tasks: Tasks { ready: Seq::empty(), ..self.tasks }, ..self },
                AfterRunView::Rethrow { dropped: self.tasks.ready },
            ),
            _ => (
                ExecutorView { rand, ..self },
                AfterRunView::Continue { restart: None, advance },
            ),
        }
    }

    /// What is to be done next to drive the main task to its end.
    pub open spec fn block_on(self, event: BlockOnEvent) -> (ExecutorView<R, I>, BlockOnAction) {
        match event {
            BlockOnEvent::Started => (
                ExecutorView { tasks: self.tasks.with_main_task(), ..self },
                BlockOnAction::SpawnMain(self.tasks.next_task()),
            ),
            BlockOnEvent::MainSpawned => (self, BlockOnAction::RunAllReady),
            BlockOnEvent::ReadyQueueEmpty => (self, BlockOnAction::PollMain),
            BlockOnEvent::MainPolled { ready: true } => (
                ExecutorView {
                    tasks: self.tasks.resume_all(self.tasks.paused_node_ids),
                    ..self
                },
                BlockOnAction::Return,
            ),
            BlockOnEvent::MainPolled { ready: false } => (self, BlockOnAction::AdvanceToNextEvent),
            BlockOnEvent::TimeAdvanced { going: false, .. } => (self, BlockOnAction::NoEvents),
            BlockOnEvent::TimeAdvanced { going: true, elapsed } => (
                self,
                match self.time_limit {
                    Some(limit) if elapsed.nanos >= limit.nanos =>
                        BlockOnAction::TimeLimitExceeded(limit),
                    _ => BlockOnAction::RunAllReady,
                },
            ),
        }
    }

    /// The node of the task `current` is killed, and its task is to panic so that it comes back
    /// after `restart_after`, or never.
    pub open spec fn take_down(self, current: TaskRef, restart_after: Option<Duration>) -> (
        ExecutorView<R, I>,
        KillCurrentView<R>,
    ) {
        let node = self.tasks.info(current).node;
        (
            ExecutorView { tasks: self.tasks.kill(node), ..self },
            KillCurrentView {
                disable_timers: node,
                dropped: self.tasks.node(node).paused,
                restart_after,
            },
        )
    }

    /// The node of the task `current` is killed. It comes back after `restart_after`; if that is
    /// not given, after one to three seconds.
    pub open spec fn kill_current_node(self, current: TaskRef, restart_after: Option<Duration>) -> (
        ExecutorView<R, I>,
        KillCurrentView<R>,
    ) {
        match restart_after {
            Some(_) => self.take_down(current, restart_after),
            None => ExecutorView { rand: self.rand.after(1000, 3000), ..self }.take_down(
                current,
                Some(Duration { nanos: (self.rand.draw(1000, 3000) * 1_000_000) as u128 }),
            ),
        }
    }
}

/// Runs the tasks of a simulation.
///
/// It says what is to be done; running a task, polling and passing time is done outside.
pub struct Executor<R, I> {
    handle: TaskHandle<R, I>,
    rand: GlobalRng,
    time_limit: Option<Duration>,
}

impl<R, I> View for Executor<R, I> {
    type V = ExecutorView<R, I>;

    closed spec fn view(&self) -> ExecutorView<R, I> {
        ExecutorView { tasks: self.handle@, rand: self.rand@, time_limit: self.time_limit }
    }
}

impl<R, I> Executor<R, I> {
    /// An executor without tasks, nodes and time limit.
    pub fn new(rand: GlobalRng) -> (executor: Executor<R, I>)
        ensures
            executor@ == ExecutorView::<R, I>::start(rand@),
            executor@.tasks.wf(),
    {
        Executor { handle: TaskHandle::new(), rand, time_limit: None }
    }

    /// The tasks and nodes.
    pub closed spec fn task_handle(&self) -> TaskHandle<R, I> {
        self.handle
    }

    /// The tasks and nodes.
    pub fn handle(&self) -> (handle: &TaskHandle<R, I>)
        ensures
            handle@ == self@.tasks,
            *handle == self.task_handle(),
    {
        &self.handle
    }

    /// The tasks and nodes, to be changed.
    pub fn handle_mut(&mut self) -> (handle: &mut TaskHandle<R, I>)
        ensures
            handle@ == old(self)@.tasks,
            *handle == old(self).task_handle(),
            final(self).task_handle() == *final(handle),
            final(self)@ == (ExecutorView { tasks: final(handle)@, ..old(self)@ }),
    {
        &mut self.handle
    }

    /// Sets the time that the main task may take.
    pub fn set_time_limit(&mut self, limit: Duration)
        ensures
            final(self)@ == (ExecutorView { time_limit: Some(limit), ..old(self)@ }),
            final(self).task_handle().keeps_receivers_of(old(self).task_handle()),
    {
        self.time_limit = Some(limit);
    }

    /// Takes from the ready queue, at random, until there is something to run or to drop.
    pub fn run_all_ready(&mut self) -> (step: ReadyStep<R>)
        requires
            old(self)@.tasks.wf(),
        ensures
            (final(self)@, step) == old(self)@.run_all_ready(),
            old(self)@.tasks.draws_in_queue(old(self)@.rand),
            final(self)@.tasks.wf(),
            final(self).task_handle().keeps_receivers_of(old(self).task_handle()),
            match step {
                ReadyStep::Idle => final(self)@.tasks.ready.len() == 0,
                ReadyStep::Drop(_, task) => final(self)@.tasks.has_task(task)
                    && final(self)@.tasks.info(task).killed,
                ReadyStep::Run(_, task) => final(self)@.tasks.has_task(task)
                    && final(self)@.tasks.info(task).runnable(),
            },
    {
        while self.handle.ready_len() > 0
            invariant
                self@.tasks.wf(),
                self@.time_limit == old(self)@.time_limit,
                self@.tasks.next_ready(self@.rand) == old(self)@.tasks.next_ready(old(self)@.rand),
                self@.tasks.draws_in_queue(self@.rand) ==> old(self)@.tasks.draws_in_queue(
                    old(self)@.rand,
                ),
                self@.tasks.infos.len() == old(self)@.tasks.infos.len(),
                self.handle.keeps_receivers_of(old(self).handle),
            decreases self@.tasks.ready.len(),
        {
            let len = self.handle.ready_len() as u64;
            let index = self.rand.gen_range(0, len) as usize;
            match self.handle.pick(index) {
                Picked::Drop(runnable, task) => {
                    return ReadyStep::Drop(runnable, task);
                },
                Picked::Run(runnable, task) => {
                    return ReadyStep::Run(runnable, task);
                },
                Picked::HeldBack => {},
            }
        }
        ReadyStep::Idle
    }

    /// What is to be done once something has been run as a task of the node `node_id`.
    pub fn after_run(&mut self, node_id: NodeId, outcome: RunOutcome) -> (after: AfterRun<R>)
        requires
            old(self)@.tasks.wf(),
        ensures
            (final(self)@, after@) == old(self)@.after_run(node_id, outcome),
            final(self)@.tasks.wf(),
            match after {
                AfterRun::Rethrow { dropped } => {
                    &&& outcome is Panicked
                    &&& dropped@ == old(self)@.tasks.ready
                    &&& final(self)@.tasks.ready.len() == 0
                },
                AfterRun::Continue { .. } => {
                    &&& !(outcome is Panicked)
                    &&& final(self)@.tasks.ready == old(self)@.tasks.ready
                },
            },
            after matches AfterRun::Continue { advance, .. } ==> 50 <= advance.nanos < 100,
            final(self).task_handle().keeps_receivers_of(old(self).task_handle()),
    {
        let restart = match outcome {
            RunOutcome::Completed => None,
            RunOutcome::NodeKilled(killed) => match killed.restart_after {
                Some(delay) => {
                    let task = self.handle.spawn_on_main_task();
                    Some(Restart { task, node: node_id, delay })
                },
                None => None,
            },
            RunOutcome::Panicked => {
                return AfterRun::Rethrow { dropped: self.handle.clear_inner() };
            },
        };
        let advance = Duration::from_nanos(self.rand.gen_range(50, 100));
        AfterRun::Continue { restart, advance }
    }

    /// What is to be done next to drive the main task to its end.
    pub fn block_on(&mut self, event: BlockOnEvent) -> (action: BlockOnAction)
        requires
            old(self)@.tasks.wf(),
            event == (BlockOnEvent::MainPolled { ready: true })
                ==> old(self)@.tasks.has_noted_nodes(),
        ensures
            (final(self)@, action) == old(self)@.block_on(event),
            final(self)@.tasks.wf(),
            event matches BlockOnEvent::TimeAdvanced { going, elapsed } ==> {
                &&& !going ==> action == BlockOnAction::NoEvents
                &&& going ==> match old(self)@.time_limit {
                    Some(limit) => if elapsed.nanos < limit.nanos {
                        action == BlockOnAction::RunAllReady
                    } else {
                        action == BlockOnAction::TimeLimitExceeded(limit)
                    },
                    None => action == BlockOnAction::RunAllReady,
                }
            },
            final(self).task_handle().keeps_receivers_of(old(self).task_handle()),
    {
        match event {
            BlockOnEvent::Started => BlockOnAction::SpawnMain(self.handle.spawn_on_main_task()),
            BlockOnEvent::MainSpawned => BlockOnAction::RunAllReady,
            BlockOnEvent::ReadyQueueEmpty => BlockOnAction::PollMain,
            BlockOnEvent::MainPolled { ready } => {
                if ready {
                    self.handle.resume_paused_node_id();
                    BlockOnAction::Return
                } else {
                    BlockOnAction::AdvanceToNextEvent
                }
            },
            BlockOnEvent::TimeAdvanced { going, elapsed } => {
                if !going {
                    return BlockOnAction::NoEvents;
                }
                match self.time_limit {
                    Some(limit) if elapsed.nanos >= limit.nanos =>
                        BlockOnAction::TimeLimitExceeded(limit),
                    _ => BlockOnAction::RunAllReady,
                }
            },
        }
    }
}

/// With what a task goes down, to take its node down with it.
#[derive(Debug, PartialEq, Eq, Clone, Copy, Structural)]
pub struct PanicWrapper {
    /// How long the node should stay down. If there is none, the node does not reboot.
    pub restart_after: Option<Duration>,
}

/// Whether a panic is reported, by the hook that was there before the tasks were run. It is not
/// if it is only to take a node down, and cannot be once that hook is gone.
pub fn reports_panic(is_panic_wrapper: bool, old_hook_is_alive: bool) -> (reports: bool)
    ensures
        reports == (!is_panic_wrapper && old_hook_is_alive),
{
    !is_panic_wrapper && old_hook_is_alive
}

/// How running something has ended.
pub enum RunOutcome {
    Completed,
    /// It went down with a `PanicWrapper`.
    NodeKilled(PanicWrapper),
    /// It went down with anything else.
    Panicked,
}

/// A node that is to be restarted.
#[derive(Debug, PartialEq, Eq, Clone, Copy, Structural)]
pub struct Restart {
    /// The task that restarts it.
    pub task: TaskRef,
    pub node: NodeId,
    pub delay: Duration,
}

/// What is to be done once something has been run.
pub enum AfterRun<R> {
    /// Start the task that restarts a node, if there is one, let time pass, and go on.
    Continue { restart: Option<Restart>, advance: Duration },
    /// Drop all that was ready, while the task is still entered, and let the panic go on.
    Rethrow { dropped: Vec<(R, TaskRef)> },
}

/// What is to be done once something has been run, as contracts speak of it.
#[verifier::ext_equal]
#[verifier::reject_recursive_types(R)]
pub enum AfterRunView<R> {
    Continue { restart: Option<Restart>, advance: Duration },
    Rethrow { dropped: Seq<(R, TaskRef)> },
}

impl<R> View for AfterRun<R> {
    type V = AfterRunView<R>;

    open spec fn view(&self) -> AfterRunView<R> {
        match *self {
            AfterRun::Continue { restart, advance } => AfterRunView::Continue { restart, advance },
            AfterRun::Rethrow { dropped } => AfterRunView::Rethrow { dropped: dropped@ },
        }
    }
}

/// What has happened while the main task is driven to its end.
#[derive(Debug, PartialEq, Eq, Clone, Copy, Structural)]
pub enum BlockOnEvent {
    Started,
    /// The main task has been started.
    MainSpawned,
    /// All that was ready has been run.
    ReadyQueueEmpty,
    /// The main task has been polled for its output.
    MainPolled { ready: bool },
    /// Time has moved on to the next event, if there was one.
    TimeAdvanced { going: bool, elapsed: Duration },
}

/// What is to be done to drive the main task to its end.
#[derive(Debug, PartialEq, Eq, Clone, Copy, Structural)]
pub enum BlockOnAction {
    /// Start the main task; the executor knows it by this reference.
    SpawnMain(TaskRef),
    RunAllReady,
    PollMain,
    AdvanceToNextEvent,
    /// Return the output.
    Return,
    /// Panic: there are no events, the task will block forever.
    NoEvents,
    /// Panic: more time has passed than is allowed.
    TimeLimitExceeded(Duration),
}

/// What is left to do when a task has killed its own node.
pub struct KillCurrent<R> {
    pub kill: KillActions<R>,
    /// What the task is to panic with.
    pub panic: PanicWrapper,
}

/// What is left to do when a task has killed its own node, as contracts speak of it.
#[verifier::ext_equal]
#[verifier::reject_recursive_types(R)]
pub struct KillCurrentView<R> {
    pub disable_timers: NodeId,
    pub dropped: Seq<(R, TaskRef)>,
    pub restart_after: Option<Duration>,
}

impl<R> View for KillCurrent<R> {
    type V = KillCurrentView<R>;

    open spec fn view(&self) -> KillCurrentView<R> {
        KillCurrentView {
            disable_timers: self.kill.disable_timers,
            dropped: self.kill.dropped@,
            restart_after: self.panic.restart_after,
        }
    }
}

/// Kill the current node, that of the task `current`. It stays down for `restart_after`; if that
/// is not given, for one to three seconds.
pub fn kill_current_node<R, I>(
    executor: &mut Executor<R, I>,
    current: TaskRef,
    restart_after: Option<Duration>,
) -> (killed: KillCurrent<R>)
    requires
        old(executor)@.tasks.wf(),
        old(executor)@.tasks.has_task(current),
        old(executor)@.tasks.has_node(old(executor)@.tasks.info(current).node),
    ensures
        (final(executor)@, killed@) == old(executor)@.kill_current_node(current, restart_after),
        final(executor)@.tasks.wf(),
        final(executor)@.tasks.ready == old(executor)@.tasks.ready,
        killed.panic.restart_after is Some,
        restart_after is Some ==> killed.panic.restart_after == restart_after,
        restart_after is None ==> 1_000_000_000 <= killed.panic.restart_after->0.nanos
            < 3_000_000_000,
        final(executor).task_handle().tells_of_kill(
            old(executor).task_handle(),
            old(executor)@.tasks.info(current).node,
        ),
{
    let restart_after = match restart_after {
        Some(restart_after) => restart_after,
        None => Duration::from_millis(executor.rand.gen_range(1000, 3000)),
    };
    kill_current_node_impl(executor, current, Some(restart_after))
}

/// Kill the current node, that of the task `current`, and do not restart it automatically.
pub fn shutdown_current_node<R, I>(executor: &mut Executor<R, I>, current: TaskRef) -> (killed:
    KillCurrent<R>)
    requires
        old(executor)@.tasks.wf(),
        old(executor)@.tasks.has_task(current),
        old(executor)@.tasks.has_node(old(executor)@.tasks.info(current).node),
    ensures
        (final(executor)@, killed@) == old(executor)@.take_down(current, None),
        final(executor)@.tasks.wf(),
        final(executor)@.tasks.ready == old(executor)@.tasks.ready,
        killed.panic.restart_after is None,
        final(executor).task_handle().tells_of_kill(
            old(executor).task_handle(),
            old(executor)@.tasks.info(current).node,
        ),
{
    kill_current_node_impl(executor, current, None)
}

fn kill_current_node_impl<R, I>(
    executor: &mut Executor<R, I>,
    current: TaskRef,
    restart_after: Option<Duration>,
) -> (killed: KillCurrent<R>)
    requires
        old(executor)@.tasks.wf(),
        old(executor)@.tasks.has_task(current),
        old(executor)@.tasks.has_node(old(executor)@.tasks.info(current).node),
    ensures
        (final(executor)@, killed@) == old(executor)@.take_down(current, restart_after),
        final(executor)@.tasks.wf(),
        final(executor).task_handle().tells_of_kill(
            old(executor).task_handle(),
            old(executor)@.tasks.info(current).node,
        ),
{
    let cur_node_id = executor.handle.info(current).node();
    let kill = executor.handle.kill(cur_node_id);
    KillCurrent { kill, panic: PanicWrapper { restart_after } }
}

} // verus!
