//! What holds of whole runs: a run can be repeated from its seed.

use crate::executor::{
    AfterRunView, BlockOnAction, BlockOnEvent, ExecutorView, KillCurrentView, RunOutcome,
};
use crate::id::NodeId;
use crate::laws::tasks::Op;
use crate::model::{Picked, ReadyStep, TaskRef, Tasks};
use crate::rng::RngHistory;
use crate::time::Duration;
use crate::yields::{Capture, HeldTask, YieldToScheduler, Yields};
use vstd::prelude::*;

verus! {

/// What a simulation can be called for.
#[verifier::reject_recursive_types(R)]
#[verifier::reject_recursive_types(I)]
#[verifier::reject_recursive_types(W)]
pub enum Event<R, I, W> {
    /// `Executor::run_all_ready`
    RunAllReady,
    /// `Executor::after_run`
    AfterRun(NodeId, RunOutcome),
    /// `Executor::block_on`
    BlockOn(BlockOnEvent),
    /// `kill_current_node`
    KillCurrentNode(TaskRef, Option<Duration>),
    /// `shutdown_current_node`
    ShutdownCurrentNode(TaskRef),
    /// `Executor::set_time_limit`
    SetTimeLimit(Duration),
    /// An operation on the tasks and nodes.
    Tasks(Op<R, I>),
    /// `set_input_schedule`
    SetInputSchedule(Seq<usize>),
    /// `instrumented_yield_id`
    ReachPoint(HeldTask, NodeId, usize),
    /// `YieldToSchedulerX::poll`
    PollPoint(usize, W),
    /// `YieldToScheduler::poll`, with the stack trace that there is to capture.
    PollPlainPoint(YieldToScheduler, TaskRef, W, backtrace::Backtrace),
    /// `take_last_capture`
    TakeLastCapture,
    /// `return_to_scheduler`
    ReturnToScheduler,
}

/// What a simulation answers.
#[verifier::reject_recursive_types(R)]
#[verifier::reject_recursive_types(W)]
pub enum Answer<R, W> {
    Nothing,
    Step(ReadyStep<R>),
    AfterRun(AfterRunView<R>),
    Action(BlockOnAction),
    Killed(KillCurrentView<R>),
    Picked(Picked<R>),
    Dropped(Seq<(R, TaskRef)>),
    Task(TaskRef),
    /// The task is held or not, and this is to be woken.
    Held(bool, Option<W>),
    /// The poll is ready or not, and this is to be woken.
    Polled(bool, Option<W>),
    Capture(Option<Capture<W>>),
    /// This is to be woken.
    Wake(Option<W>),
}

impl<R, I> Tasks<R, I> {
    /// What the operation answers.
    pub open spec fn answer<W>(self, op: Op<R, I>) -> Answer<R, W> {
        match op {
            Op::Pick(index) => Answer::Picked(self.pick(index).1),
            Op::Clear => Answer::Dropped(self.ready),
            Op::Kill(id) => Answer::Dropped(self.node(id).paused),
            Op::Delete(id) => Answer::Dropped(self.node(id).paused),
            Op::Allocate(_) => Answer::Task(self.next_task()),
            Op::Install(task, _) => Answer::Dropped(
                if self.has_node(self.info(task).node) {
                    self.node(self.info(task).node).paused
                } else {
                    Seq::empty()
                },
            ),
            Op::Spawn(_) => Answer::Task(self.next_task()),
            Op::SpawnMain => Answer::Task(self.next_task()),
            _ => Answer::Nothing,
        }
    }
}

/// All that a simulation knows.
#[verifier::ext_equal]
#[verifier::reject_recursive_types(R)]
#[verifier::reject_recursive_types(I)]
#[verifier::reject_recursive_types(W)]
pub struct Simulation<R, I, W> {
    pub executor: ExecutorView<R, I>,
    pub schedule: Seq<usize>,
    pub yields: Yields<W>,
}

impl<R, I, W> Simulation<R, I, W> {
    /// A simulation whose generator starts from `seed`, with the input schedule `schedule`.
    pub open spec fn start(seed: u64, schedule: Seq<usize>) -> Simulation<R, I, W> {
        Simulation {
            executor: ExecutorView::start(RngHistory { seed, drawn: Seq::empty() }),
            schedule,
            yields: Yields::start(),
        }
    }

    /// What an event makes of the simulation, and what the answer is.
    pub open spec fn step(self, event: Event<R, I, W>) -> (Simulation<R, I, W>, Answer<R, W>) {
        match event {
            Event::RunAllReady => {
                let (executor, step) = self.executor.run_all_ready();
                (Simulation { executor, ..self }, Answer::Step(step))
            },
            Event::AfterRun(node, outcome) => {
                let (executor, after) = self.executor.after_run(node, outcome);
                (Simulation { executor, ..self }, Answer::AfterRun(after))
            },
            Event::BlockOn(event) => {
                let (executor, action) = self.executor.block_on(event);
                (Simulation { executor, ..self }, Answer::Action(action))
            },
            Event::KillCurrentNode(current, restart_after) => {
                let (executor, killed) = self.executor.kill_current_node(current, restart_after);
                (Simulation { executor, ..self }, Answer::Killed(killed))
            },
            Event::ShutdownCurrentNode(current) => {
                let (executor, killed) = self.executor.take_down(current, None);
                (Simulation { executor, ..self }, Answer::Killed(killed))
            },
            Event::SetTimeLimit(limit) => (
                Simulation {
                    executor: ExecutorView { time_limit: Some(limit), ..self.executor },
                    ..self
                },
                Answer::Nothing,
            ),
            Event::Tasks(op) => (
                Simulation {
                    executor: ExecutorView {
                        tasks: self.executor.tasks.apply(op),
                        ..self.executor
                    },
                    ..self
                },
                self.executor.tasks.answer(op),
            ),
            Event::SetInputSchedule(schedule) => (
                Simulation { schedule, ..self },
                Answer::Nothing,
            ),
            Event::ReachPoint(task, node, id) => if Yields::<W>::holds(self.schedule, node, id) {
                (
                    Simulation { yields: self.yields.reach(self.schedule, task, id), ..self },
                    Answer::Held(true, self.yields.reach_wakes(self.schedule)),
                )
            } else {
                (self, Answer::Held(false, None))
            },
            Event::PollPoint(id, waker) => (
                Simulation {
                    yields: self.yields.after_poll(self.schedule, id, waker),
                    schedule: self.yields.schedule_after(self.schedule, id),
                    ..self
                },
                Answer::Polled(
                    self.yields.released(self.schedule, id),
                    self.yields.poll_wakes(self.schedule, id),
                ),
            ),
            Event::PollPlainPoint(future, task, waker, backtrace) => (
                Simulation {
                    yields: self.yields.after_plain_poll(future, task, waker, backtrace),
                    ..self
                },
                Answer::Polled(future.ready(self.yields.last_capture), None),
            ),
            Event::TakeLastCapture => (
                Simulation { yields: Yields { last_capture: None, ..self.yields }, ..self },
                Answer::Capture(self.yields.last_capture),
            ),
            Event::ReturnToScheduler => (
                Simulation { yields: Yields { last_capture: None, ..self.yields }, ..self },
                Answer::Wake(self.yields.return_wakes()),
            ),
        }
    }
}

/// A run: what the simulation was in turn, and what it answered in between.
#[verifier::reject_recursive_types(R)]
#[verifier::reject_recursive_types(I)]
#[verifier::reject_recursive_types(W)]
pub struct Run<R, I, W> {
    pub states: Seq<Simulation<R, I, W>>,
    pub answers: Seq<Answer<R, W>>,
}

impl<R, I, W> Run<R, I, W> {
    /// The run is one of the program `program`, which says what comes next from what has been
    /// answered so far.
    pub open spec fn follows(
        self,
        seed: u64,
        schedule: Seq<usize>,
        program: spec_fn(Seq<Answer<R, W>>) -> Event<R, I, W>,
    ) -> bool {
        &&& self.states.len() == self.answers.len() + 1
        &&& self.states[0] == Simulation::<R, I, W>::start(seed, schedule)
        &&& forall|i: int|
            0 <= i < self.answers.len() ==> (self.states[i + 1], #[trigger] self.answers[i])
                == self.states[i].step(program(self.answers.take(i)))
    }
}

/// A run can be repeated: two runs of the same program, from the same seed and with the same
/// schedule, go through the same states and get the same answers, for as long as both last. What
/// is run, and in which order, how much time passes, and when nodes come back is all among the
/// answers.
pub proof fn law_same_seed_same_run<R, I, W>(
    a: Run<R, I, W>,
    b: Run<R, I, W>,
    seed: u64,
    schedule: Seq<usize>,
    program: spec_fn(Seq<Answer<R, W>>) -> Event<R, I, W>,
    n: nat,
)
    requires
        a.follows(seed, schedule, program),
        b.follows(seed, schedule, program),
        n <= a.answers.len(),
        n <= b.answers.len(),
    ensures
        a.answers.take(n as int) == b.answers.take(n as int),
        a.states.take(n as int + 1) == b.states.take(n as int + 1),
    decreases n,
{
    if n == 0 {
        assert(a.answers.take(0) =~= b.answers.take(0));
        assert(a.states.take(1) =~= b.states.take(1));
    } else {
        let last = (n - 1) as int;
        law_same_seed_same_run(a, b, seed, schedule, program, last as nat);
        assert(a.states.take(last + 1)[last] == b.states.take(last + 1)[last]);
        assert((a.states[last + 1], a.answers[last]) == (b.states[last + 1], b.answers[last]));
        assert(a.answers.take(n as int) =~= a.answers.take(last).push(a.answers[last]));
        assert(b.answers.take(n as int) =~= b.answers.take(last).push(b.answers[last]));
        assert(a.states.take(n as int + 1) =~= a.states.take(n as int).push(a.states[n as int]));
        assert(b.states.take(n as int + 1) =~= b.states.take(n as int).push(b.states[n as int]));
    }
}

} // verus!
