//! Points in the code of a task at which it yields to the scheduler.
//!
//! There are two kinds. At a plain one the task's stack trace is captured, and the task goes
//! on when the scheduler has taken the capture. At a numbered one the task is held until all
//! the points of the input schedule have been reached; then the tasks are released in the
//! order of the schedule.

use crate::id::{NodeId, TaskId};
use crate::model::TaskRef;
use std::collections::HashMap;
use vstd::prelude::*;

verus! {

broadcast use vstd::std_specs::hash::group_hash_axioms;

/// Whether the tasks that were held are tracked while they run.
pub const DEBUG: bool = false;

/// The node whose tasks are held at numbered points.
pub const HELD_NODE: u64 = 2;

#[verifier::external_type_specification]
#[verifier::external_body]
pub struct ExBacktrace(backtrace::Backtrace);

/// The stack trace of here and now.
///
/// Trusted: `backtrace::Backtrace::new`. What it captures depends on the running program, so
/// that the contract says nothing.
#[verifier::external_body]
fn capture_backtrace() -> (trace: backtrace::Backtrace) {
    backtrace::Backtrace::new()
}

/// What a poll comes to.
#[derive(Debug, PartialEq, Eq, Clone, Copy, Structural)]
pub enum Polled {
    Ready,
    Pending,
}

/// The numbers of the points that are to be passed, in this order.
pub struct InputSchedule {
    ids: Vec<usize>,
}

impl View for InputSchedule {
    type V = Seq<usize>;

    closed spec fn view(&self) -> Seq<usize> {
        self.ids@
    }
}

impl InputSchedule {
    /// No schedule.
    pub fn new() -> (input: InputSchedule)
        ensures
            input@ == Seq::<usize>::empty(),
    {
        InputSchedule { ids: Vec::new() }
    }

    fn contains(&self, id: usize) -> (found: bool)
        ensures
            found == self@.contains(id),
    {
        let mut i: usize = 0;
        while i < self.ids.len()
            invariant
                i <= self.ids.len(),
                forall|j: int| 0 <= j < i ==> self.ids@[j] != id,
            decreases self.ids.len() - i,
        {
            if self.ids[i] == id {
                return true;
            }
            i += 1;
        }
        false
    }
}

/// Sets the schedule for this iteration.
pub fn set_input_schedule(input_schedule: &mut InputSchedule, test_schedule: Vec<usize>)
    ensures
        final(input_schedule)@ == test_schedule@,
{
    input_schedule.ids = test_schedule;
}

/// A stack trace that was captured when a task yielded. `W` is what wakes the task.
pub struct Capture<W> {
    /// Which capture this is.
    pub id: u64,
    /// The task that yielded.
    pub task: TaskRef,
    pub waker: W,
    pub backtrace: backtrace::Backtrace,
}

/// A task that was held at a numbered point.
#[derive(Debug, PartialEq, Eq, Clone, Copy, Structural)]
pub struct HeldTask {
    pub task: TaskRef,
    pub task_id: TaskId,
}

/// Which tasks have yielded, as contracts speak of it.
#[verifier::ext_equal]
#[verifier::reject_recursive_types(W)]
pub struct Yields<W> {
    /// What wakes the tasks that are held, by the number of the point.
    pub waiting: Map<usize, W>,
    /// The numbers of the points that were reached, oldest first.
    pub reached: Seq<usize>,
    /// It is the time to release the tasks that are held.
    pub releasing: bool,
    /// The tasks that were held, oldest first.
    pub held: Seq<HeldTask>,
    /// The capture that the scheduler has yet to take.
    pub last_capture: Option<Capture<W>>,
    pub next_capture: u64,
}

impl<W> Yields<W> {
    /// No task has yielded.
    pub open spec fn start() -> Yields<W> {
        Yields {
            waiting: Map::empty(),
            reached: Seq::empty(),
            releasing: false,
            held: Seq::empty(),
            last_capture: None,
            next_capture: 0,
        }
    }

    /// What wakes the task that is held at the first point of `schedule`, if there is one.
    pub open spec fn first_waker(self, schedule: Seq<usize>) -> Option<W> {
        if schedule.len() > 0 && self.waiting.contains_key(schedule[0]) {
            Some(self.waiting[schedule[0]])
        } else {
            None
        }
    }

    /// The task that is held at the first point of `schedule` is held no longer.
    pub open spec fn without_first(self, schedule: Seq<usize>) -> Yields<W> {
        if schedule.len() > 0 {
            Yields { waiting: self.waiting.remove(schedule[0]), ..self }
        } else {
            self
        }
    }

    /// A task of the node `node` is to be held at the point `id`.
    pub open spec fn holds(schedule: Seq<usize>, node: NodeId, id: usize) -> bool {
        node == NodeId(HELD_NODE) && schedule.contains(id)
    }

    /// The point `id` is reached by a task that is to be held there. When as many points have
    /// been reached as the schedule has, it is the time to release them.
    pub open spec fn reach(self, schedule: Seq<usize>, task: HeldTask, id: usize) -> Yields<W> {
        let reached = self.reached.push(id);
        let held = Yields { reached, held: self.held.push(task), ..self };
        if schedule.len() == reached.len() {
            Yields { releasing: true, ..held.without_first(schedule) }
        } else {
            held
        }
    }

    /// What is to be woken when one more point is reached.
    pub open spec fn reach_wakes(self, schedule: Seq<usize>) -> Option<W> {
        if schedule.len() == self.reached.len() + 1 {
            self.first_waker(schedule)
        } else {
            None
        }
    }

    /// A task that is held at the point `id` may go on.
    pub open spec fn released(self, schedule: Seq<usize>, id: usize) -> bool {
        self.releasing && (schedule.len() == 0 || schedule[0] == id)
    }

    /// The schedule after a poll at the point `id`.
    pub open spec fn schedule_after(self, schedule: Seq<usize>, id: usize) -> Seq<usize> {
        if self.released(schedule, id) && schedule.len() > 0 {
            schedule.drop_first()
        } else {
            schedule
        }
    }

    /// The state after a poll at the point `id`, by a task that `waker` wakes.
    pub open spec fn after_poll(self, schedule: Seq<usize>, id: usize, waker: W) -> Yields<W> {
        if !self.released(schedule, id) {
            Yields { waiting: self.waiting.insert(id, waker), ..self }
        } else if schedule.len() > 0 {
            self.without_first(schedule.drop_first())
        } else {
            self
        }
    }

    /// The state after a poll of the future `future` of a plain point, by the task `task` that
    /// `waker` wakes and whose stack trace is `backtrace`. A capture is made if the future has
    /// made none and there is none that the scheduler has yet to take.
    pub open spec fn after_plain_poll(
        self,
        future: YieldToScheduler,
        task: TaskRef,
        waker: W,
        backtrace: backtrace::Backtrace,
    ) -> Yields<W> {
        if future.capture is None && self.last_capture is None {
            Yields {
                last_capture: Some(Capture { id: self.next_capture, task, waker, backtrace }),
                next_capture: self.next_capture.wrapping_add(1),
                ..self
            }
        } else {
            self
        }
    }

    /// What is to be woken when control returns to the scheduler.
    pub open spec fn return_wakes(self) -> Option<W> {
        match self.last_capture {
            Some(capture) => Some(capture.waker),
            None => None,
        }
    }

    /// What is to be woken after a poll at the point `id`.
    pub open spec fn poll_wakes(self, schedule: Seq<usize>, id: usize) -> Option<W> {
        if self.released(schedule, id) && schedule.len() > 0 {
            self.first_waker(schedule.drop_first())
        } else {
            None
        }
    }
}

/// Which tasks have yielded.
pub struct YieldState<W> {
    waiting: HashMap<usize, W>,
    reached: Vec<usize>,
    releasing: bool,
    held: Vec<HeldTask>,
    last_capture: Option<Capture<W>>,
    next_capture: u64,
}

impl<W> View for YieldState<W> {
    type V = Yields<W>;

    closed spec fn view(&self) -> Yields<W> {
        Yields {
            waiting: self.waiting@,
            reached: self.reached@,
            releasing: self.releasing,
            held: self.held@,
            last_capture: self.last_capture,
            next_capture: self.next_capture,
        }
    }
}

impl<W> YieldState<W> {
    /// No task has yielded.
    pub fn new() -> (yields: YieldState<W>)
        ensures
            yields@ == Yields::<W>::start(),
    {
        YieldState {
            waiting: HashMap::new(),
            reached: Vec::new(),
            releasing: false,
            held: Vec::new(),
            last_capture: None,
            next_capture: 0,
        }
    }

    /// Takes what wakes the task that is held at the first point of `schedule`.
    fn take_first_waker(&mut self, schedule: &InputSchedule) -> (waker: Option<W>)
        ensures
            final(self)@ == old(self)@.without_first(schedule@),
            waker == old(self)@.first_waker(schedule@),
    {
        if schedule.ids.len() > 0 {
            let first_id = schedule.ids[0];
            let waker = self.waiting.remove(&first_id);
            assert(self@ =~= old(self)@.without_first(schedule@));
            waker
        } else {
            None
        }
    }
}

/// The number of points at which a task waits to be woken.
pub fn size_of_yield_tasks<W>(yields: &YieldState<W>) -> (size: usize)
    ensures
        size == yields@.waiting.len(),
{
    yields.waiting.len()
}

/// The future of a numbered point at which the task is not held.
pub struct SkipScheduler;

impl SkipScheduler {
    /// The task goes on.
    pub fn poll(&self) -> (polled: Polled)
        ensures
            polled == Polled::Ready,
    {
        Polled::Ready
    }
}

/// The future of a numbered point at which the task is held.
#[derive(Debug, PartialEq, Eq, Clone, Copy, Structural)]
pub struct YieldToSchedulerX {
    pub id: usize,
}

/// What a poll at a numbered point comes to, and what is to be woken on that account.
pub struct PolledX<W> {
    pub polled: Polled,
    pub wake: Option<W>,
}

impl YieldToSchedulerX {
    /// The task goes on when it is the time to release the tasks and this point is the first of
    /// the schedule, or the schedule has been gone through. It waits otherwise.
    pub fn poll<W>(
        &self,
        input_schedule: &mut InputSchedule,
        yields: &mut YieldState<W>,
        waker: W,
    ) -> (polled: PolledX<W>)
        ensures
            polled.polled == if old(yields)@.released(old(input_schedule)@, self.id) {
                Polled::Ready
            } else {
                Polled::Pending
            },
            polled.wake == old(yields)@.poll_wakes(old(input_schedule)@, self.id),
            final(input_schedule)@ == old(yields)@.schedule_after(
                old(input_schedule)@,
                self.id,
            ),
            final(yields)@ == old(yields)@.after_poll(old(input_schedule)@, self.id, waker),
    {
        if yields.releasing {
            if input_schedule.ids.len() == 0 {
                return PolledX { polled: Polled::Ready, wake: None };
            }
            if input_schedule.ids[0] == self.id {
                let _passed = input_schedule.ids.remove(0);
                assert(input_schedule@ =~= old(input_schedule)@.drop_first());
                let wake = yields.take_first_waker(input_schedule);
                return PolledX { polled: Polled::Ready, wake };
            }
        }
        let _displaced = yields.waiting.insert(self.id, waker);
        assert(yields@ =~= old(yields)@.after_poll(old(input_schedule)@, self.id, waker));
        PolledX { polled: Polled::Pending, wake: None }
    }
}

/// What a numbered point comes to.
pub enum YieldId<W> {
    /// The task is not held.
    Skip(SkipScheduler),
    /// The task is held, and `wake` is to be woken on that account.
    Yield { future: YieldToSchedulerX, wake: Option<W> },
}

/// The task `current`, whose identifier is `task_id`, of the node `node` reaches the numbered
/// point `id`.
pub fn instrumented_yield_id<W>(
    input_schedule: &InputSchedule,
    yields: &mut YieldState<W>,
    current: TaskRef,
    node: NodeId,
    task_id: TaskId,
    id: usize,
) -> (result: YieldId<W>)
    ensures
        result is Yield <==> node == NodeId(2) && input_schedule@.contains(id),
        result is Skip ==> final(yields)@ == old(yields)@,
        if Yields::<W>::holds(input_schedule@, node, id) {
            &&& result matches YieldId::Yield { future, wake }
            &&& future == (YieldToSchedulerX { id })
            &&& wake == old(yields)@.reach_wakes(input_schedule@)
            &&& final(yields)@ == old(yields)@.reach(
                input_schedule@,
                HeldTask { task: current, task_id },
                id,
            )
        } else {
            &&& result is Skip
            &&& final(yields)@ == old(yields)@
        },
{
    if node.0 != HELD_NODE || !input_schedule.contains(id) {
        return YieldId::Skip(SkipScheduler);
    }
    yields.reached.push(id);
    let mut wake = None;
    if input_schedule.ids.len() > 0 && input_schedule.ids.len() == yields.reached.len() {
        yields.releasing = true;
        wake = yields.take_first_waker(input_schedule);
    }
    yields.held.push(HeldTask { task: current, task_id });
    assert(yields@ =~= old(yields)@.reach(
        input_schedule@,
        HeldTask { task: current, task_id },
        id,
    ));
    YieldId::Yield { future: YieldToSchedulerX { id }, wake }
}

/// The future of a plain point. It knows the capture that was made when it was first polled.
#[derive(Debug, PartialEq, Eq, Clone, Copy, Structural)]
pub struct YieldToScheduler {
    pub capture: Option<u64>,
}

/// A plain point: the future, when it is polled, captures the stack trace and yields to the
/// scheduler.
pub fn instrumented_yield() -> (future: YieldToScheduler)
    ensures
        future.capture == None::<u64>,
{
    YieldToScheduler { capture: None }
}

/// Takes the capture of the task that has just yielded.
pub fn take_last_capture<W>(yields: &mut YieldState<W>) -> (capture: Option<Capture<W>>)
    ensures
        capture == old(yields)@.last_capture,
        final(yields)@ == (Yields { last_capture: None, ..old(yields)@ }),
{
    yields.last_capture.take()
}

/// Control has returned to the scheduler, which takes the capture of the task that has just
/// yielded, if one has. Returns what wakes that task; it is to be woken.
pub fn return_to_scheduler<W>(yields: &mut YieldState<W>) -> (wake: Option<W>)
    ensures
        wake == old(yields)@.return_wakes(),
        final(yields)@ == (Yields { last_capture: None, ..old(yields)@ }),
{
    match take_last_capture(yields) {
        Some(capture) => Some(capture.waker),
        None => None,
    }
}

impl YieldToScheduler {
    /// The future may be polled: a capture that the scheduler has yet to take is its own.
    pub open spec fn pollable<W>(self, last_capture: Option<Capture<W>>) -> bool {
        match last_capture {
            Some(last) => self.capture == Some(last.id),
            None => true,
        }
    }

    /// The future once it has been polled, when the next capture is numbered `next_capture`.
    pub open spec fn polled(self, next_capture: u64) -> YieldToScheduler {
        match self.capture {
            Some(_) => self,
            None => YieldToScheduler { capture: Some(next_capture) },
        }
    }

    /// The future is ready: the scheduler has taken the capture that it made.
    pub open spec fn ready<W>(self, last_capture: Option<Capture<W>>) -> bool {
        self.capture is Some && last_capture is None
    }

    /// Whether the future may be polled. If not, another point has been polled, and control has
    /// not returned to the scheduler since.
    pub fn may_poll<W>(&self, yields: &YieldState<W>) -> (may: bool)
        ensures
            may == self.pollable(yields@.last_capture),
    {
        match &yields.last_capture {
            Some(last) => match self.capture {
                Some(capture) => capture == last.id,
                None => false,
            },
            None => true,
        }
    }

    /// When it is first polled, the future captures the stack trace of the task `current`. It
    /// is then pending until the scheduler has taken the capture.
    pub fn poll<W>(&mut self, yields: &mut YieldState<W>, current: TaskRef, waker: W) -> (polled:
        Polled)
        requires
            old(self).pollable(old(yields)@.last_capture),
        ensures
            polled == Polled::Ready <==> old(self).ready(old(yields)@.last_capture),
            *final(self) == old(self).polled(old(yields)@.next_capture),
            exists|backtrace: backtrace::Backtrace|
                final(yields)@ == #[trigger] old(yields)@.after_plain_poll(
                    *old(self),
                    current,
                    waker,
                    backtrace,
                ),
    {
        match self.capture {
            Some(_) => {
                let ghost unused: backtrace::Backtrace = arbitrary();
                assert(yields@.after_plain_poll(*self, current, waker, unused) == yields@);
                if yields.last_capture.is_some() {
                    Polled::Pending
                } else {
                    Polled::Ready
                }
            },
            None => {
                let backtrace = capture_backtrace();
                let ghost after = yields@.after_plain_poll(*self, current, waker, backtrace);
                let id = yields.next_capture;
                yields.next_capture = id.wrapping_add(1);
                yields.last_capture = Some(Capture { id, task: current, waker, backtrace });
                self.capture = Some(id);
                assert(yields@ == after);
                Polled::Pending
            },
        }
    }
}

impl<W> Yields<W> {
    /// `held` is what `before` is without the first task `task_id` in it, whose place the last
    /// takes; or just that if there is none.
    pub open spec fn struck_off(before: Seq<HeldTask>, task_id: TaskId, held: Seq<HeldTask>) -> bool {
        ||| held == before && forall|i: int|
            0 <= i < before.len() ==> (#[trigger] before[i]).task_id != task_id
        ||| exists|i: int|
            {
                &&& 0 <= i < before.len()
                &&& (#[trigger] before[i]).task_id == task_id
                &&& forall|j: int| 0 <= j < i ==> (#[trigger] before[j]).task_id != task_id
                &&& held == crate::model::swap_removed(before, i)
            }
    }
}

impl<W> YieldState<W> {
    fn strike_off(&mut self, task_id: TaskId)
        ensures
            Yields::<W>::struck_off(old(self)@.held, task_id, final(self)@.held),
            final(self)@ == (Yields { held: final(self)@.held, ..old(self)@ }),
    {
        let mut i: usize = 0;
        while i < self.held.len()
            invariant
                self@ == old(self)@,
                i <= self.held.len(),
                forall|j: int| 0 <= j < i ==> (#[trigger] old(self)@.held[j]).task_id != task_id,
            decreases self.held.len() - i,
        {
            if self.held[i].task_id == task_id {
                assert(old(self)@.held[i as int].task_id == task_id);
                let _held = self.held.swap_remove(i);
                assert(self@.held =~= crate::model::swap_removed(old(self)@.held, i as int));
                return;
            }
            i += 1;
        }
    }
}

/// The task `task_id` of a node called `name` is about to run. If the tasks that were held are
/// tracked, it is struck off their list.
pub fn track_run<W>(yields: &mut YieldState<W>, task_id: TaskId, name: String)
    ensures
        !DEBUG ==> final(yields)@ == old(yields)@,
        final(yields)@ == (Yields { held: final(yields)@.held, ..old(yields)@ }),
        if DEBUG && name@ != "main"@ {
            Yields::<W>::struck_off(old(yields)@.held, task_id, final(yields)@.held)
        } else {
            final(yields)@.held == old(yields)@.held
        },
{
    if DEBUG && name != "main".to_owned() {
        yields.strike_off(task_id);
    }
}

} // verus!
