//! What holds of the points at which tasks yield.

use crate::id::{NodeId, TaskId};
use crate::model::TaskRef;
use crate::yields::{Capture, HeldTask, YieldToScheduler, Yields};
use vstd::prelude::*;

verus! {

/// What happens at the points.
pub enum YieldOp<W> {
    /// A task that is to be held reaches the point.
    Reach(HeldTask, usize),
    /// A task that is held at the point is polled.
    Poll(usize, W),
    /// The future of a plain point is polled, by the task that the waker wakes and that has the
    /// stack trace.
    PollPlain(YieldToScheduler, TaskRef, W, backtrace::Backtrace),
    /// The scheduler takes the capture of the task that has just yielded.
    Take,
}

/// The points at which tasks yield, and how far the schedule has been gone through.
#[verifier::ext_equal]
#[verifier::reject_recursive_types(W)]
pub struct ScheduleRun<W> {
    pub yields: Yields<W>,
    /// What is left of the schedule.
    pub schedule: Seq<usize>,
    /// The points that were passed in the order of the schedule, oldest first.
    pub passed: Seq<usize>,
}

impl<W> ScheduleRun<W> {
    /// Nothing has happened yet.
    pub open spec fn start(yields: Yields<W>, schedule: Seq<usize>) -> ScheduleRun<W> {
        ScheduleRun { yields, schedule, passed: Seq::empty() }
    }

    pub open spec fn apply(self, op: YieldOp<W>) -> ScheduleRun<W> {
        match op {
            YieldOp::Reach(task, id) => ScheduleRun {
                yields: self.yields.reach(self.schedule, task, id),
                ..self
            },
            YieldOp::Poll(id, waker) => ScheduleRun {
                yields: self.yields.after_poll(self.schedule, id, waker),
                schedule: self.yields.schedule_after(self.schedule, id),
                passed: if self.yields.released(self.schedule, id) && self.schedule.len() > 0 {
                    self.passed.push(id)
                } else {
                    self.passed
                },
            },
            YieldOp::PollPlain(future, task, waker, backtrace) => ScheduleRun {
                yields: self.yields.after_plain_poll(future, task, waker, backtrace),
                ..self
            },
            YieldOp::Take => ScheduleRun {
                yields: Yields { last_capture: None, ..self.yields },
                ..self
            },
        }
    }

    /// What the events come to, one after the other.
    pub open spec fn run(self, ops: Seq<YieldOp<W>>) -> ScheduleRun<W>
        decreases ops.len(),
    {
        if ops.len() == 0 {
            self
        } else {
            self.run(ops.drop_last()).apply(ops.last())
        }
    }

    /// Once the tasks are being released, the task whose turn it is is not left waiting.
    pub open spec fn next_is_awake(self) -> bool {
        self.yields.releasing && self.schedule.len() > 0 ==> !self.yields.waiting.contains_key(
            self.schedule[0],
        )
    }
}

/// Tasks pass the points in the order of the schedule, in whatever order they reach them and
/// are polled.
pub proof fn law_points_are_passed_in_order<W>(
    yields: Yields<W>,
    schedule: Seq<usize>,
    ops: Seq<YieldOp<W>>,
)
    ensures
        ScheduleRun::start(yields, schedule).run(ops).passed + ScheduleRun::start(
            yields,
            schedule,
        ).run(ops).schedule == schedule,
    decreases ops.len(),
{
    let start = ScheduleRun::start(yields, schedule);
    if ops.len() == 0 {
        assert(start.passed + start.schedule =~= schedule);
    } else {
        law_points_are_passed_in_order(yields, schedule, ops.drop_last());
        let before = start.run(ops.drop_last());
        let after = start.run(ops);
        assert(after.passed + after.schedule =~= before.passed + before.schedule);
    }
}

/// No task goes on before as many points have been reached as the schedule has. Until then the
/// schedule stays as it is, and every poll is pending.
pub proof fn law_no_task_goes_on_early<W>(
    yields: Yields<W>,
    schedule: Seq<usize>,
    ops: Seq<YieldOp<W>>,
    id: usize,
)
    requires
        !yields.releasing,
        yields.reached.len() == 0,
        schedule.len() > 0,
    ensures
        ({
            let now = ScheduleRun::start(yields, schedule).run(ops);
            &&& now.yields.reached.len() < schedule.len() ==> !now.yields.releasing
            &&& !now.yields.releasing ==> {
                &&& now.yields.reached.len() < schedule.len()
                &&& now.schedule == schedule
                &&& !now.yields.released(now.schedule, id)
            }
        }),
    decreases ops.len(),
{
    if ops.len() > 0 {
        law_no_task_goes_on_early(yields, schedule, ops.drop_last(), id);
    }
}

/// The task whose turn it is is never left waiting: when the last point has been reached, and
/// whenever a point has been passed, what wakes the next task in the schedule is handed out.
pub proof fn law_next_task_is_awake<W>(run: ScheduleRun<W>, op: YieldOp<W>)
    requires
        run.next_is_awake(),
    ensures
        run.apply(op).next_is_awake(),
{
}

/// What wakes a task is handed out when, and only when, its turn comes: no other waker is
/// forgotten.
pub proof fn law_wakers_are_kept_or_handed_out<W>(run: ScheduleRun<W>, op: YieldOp<W>, id: usize)
    requires
        run.yields.waiting.contains_key(id),
    ensures
        match op {
            YieldOp::Reach(task, reached) => {
                ||| run.apply(op).yields.waiting.contains_key(id)
                    && run.apply(op).yields.waiting[id] == run.yields.waiting[id]
                ||| run.yields.reach_wakes(run.schedule) == Some(run.yields.waiting[id])
                    && run.schedule[0] == id
            },
            YieldOp::Poll(polled, waker) => {
                ||| run.apply(op).yields.waiting.contains_key(id)
                    && run.apply(op).yields.waiting[id] == run.yields.waiting[id]
                ||| run.yields.poll_wakes(run.schedule, polled) == Some(run.yields.waiting[id])
                    && run.apply(op).schedule[0] == id
                ||| polled == id && run.apply(op).yields.waiting.contains_key(id)
                    && run.apply(op).yields.waiting[id] == waker
            },
            _ => run.apply(op).yields.waiting == run.yields.waiting,
        },
{
}

impl<W> ScheduleRun<W> {
    /// Polls at the points `ids`, one after the other, by tasks that `waker` wakes.
    pub open spec fn polls(ids: Seq<usize>, waker: W) -> Seq<YieldOp<W>> {
        Seq::new(ids.len(), |i: int| YieldOp::Poll(ids[i], waker))
    }
}

/// The schedule can be gone through: once the tasks are being released, each task that is
/// polled when its turn comes goes on.
pub proof fn law_schedule_can_be_gone_through<W>(
    yields: Yields<W>,
    schedule: Seq<usize>,
    waker: W,
    n: nat,
)
    requires
        yields.releasing,
        n <= schedule.len(),
    ensures
        ({
            let now = ScheduleRun::start(yields, schedule).run(
                ScheduleRun::polls(schedule.take(n as int), waker),
            );
            &&& now.passed == schedule.take(n as int)
            &&& now.schedule == schedule.skip(n as int)
            &&& now.yields.releasing
        }),
    decreases n,
{
    let start = ScheduleRun::start(yields, schedule);
    let ops = ScheduleRun::polls(schedule.take(n as int), waker);
    if n == 0 {
        assert(start.passed =~= schedule.take(0));
        assert(start.schedule =~= schedule.skip(0));
    } else {
        law_schedule_can_be_gone_through(yields, schedule, waker, (n - 1) as nat);
        assert(ops.drop_last() =~= ScheduleRun::polls(schedule.take(n - 1), waker));
        let before = start.run(ops.drop_last());
        assert(before.schedule[0] == schedule[n - 1]);
        assert(start.run(ops).passed =~= schedule.take(n as int));
        assert(start.run(ops).schedule =~= schedule.skip(n as int));
    }
}

/// At a plain point a task waits for the scheduler: once its future has made a capture, nothing
/// that happens at any point but the scheduler's taking the capture makes the future ready, and
/// no other future of a plain point may be polled until then.
pub proof fn law_yielding_waits_for_the_scheduler<W>(
    run: ScheduleRun<W>,
    future: YieldToScheduler,
    capture: Capture<W>,
    ops: Seq<YieldOp<W>>,
    other: YieldToScheduler,
)
    requires
        future.capture == Some(capture.id),
        run.yields.last_capture == Some(capture),
        forall|i: int| 0 <= i < ops.len() ==> !(#[trigger] ops[i] is Take),
        other.capture != future.capture,
    ensures
        ({
            let last_capture = run.run(ops).yields.last_capture;
            &&& last_capture == Some(capture)
            &&& !future.ready(last_capture)
            &&& future.pollable(last_capture)
            &&& !other.pollable(last_capture)
        }),
        future.ready(None::<Capture<W>>),
    decreases ops.len(),
{
    if ops.len() > 0 {
        law_yielding_waits_for_the_scheduler(run, future, capture, ops.drop_last(), other);
    }
}

/// A task that has yielded at a plain point goes on once control has returned to the scheduler:
/// what is then woken is the task that made the capture, and its future is ready.
pub proof fn law_yielded_task_goes_on<W>(
    yields: Yields<W>,
    future: YieldToScheduler,
    task: TaskRef,
    waker: W,
    backtrace: backtrace::Backtrace,
    schedule: Seq<usize>,
    ops: Seq<YieldOp<W>>,
)
    requires
        future.capture is None,
        future.pollable(yields.last_capture),
        forall|i: int| 0 <= i < ops.len() ==> !(#[trigger] ops[i] is Take),
    ensures
        ({
            let polled = future.polled(yields.next_capture);
            let yielded = yields.after_plain_poll(future, task, waker, backtrace);
            let back = ScheduleRun::start(yielded, schedule).run(ops).yields;
            &&& !polled.ready(back.last_capture)
            &&& back.return_wakes() == Some(waker)
            &&& polled.ready((Yields { last_capture: None, ..back }).last_capture)
        }),
{
    let polled = future.polled(yields.next_capture);
    let yielded = yields.after_plain_poll(future, task, waker, backtrace);
    law_yielding_waits_for_the_scheduler(
        ScheduleRun::start(yielded, schedule),
        polled,
        yielded.last_capture->0,
        ops,
        future,
    );
}

/// Once the schedule has been gone through, no task is held any longer.
pub proof fn law_all_go_on_after_the_schedule<W>(yields: Yields<W>, id: usize)
    requires
        yields.releasing,
    ensures
        yields.released(Seq::empty(), id),
{
}

/// Tasks that each come to a point of the schedule of their own, while they are run: a task is
/// polled when it has reached its point, and again when it has been woken.
#[verifier::ext_equal]
#[verifier::reject_recursive_types(W)]
pub struct HeldRun<W> {
    pub run: ScheduleRun<W>,
    /// The points at which a task stands that is to be polled.
    pub awake: Set<usize>,
    /// The points at which a poll was pending, oldest first.
    pub pended: Seq<usize>,
}

impl<W> HeldRun<W> {
    /// No task has come to its point yet.
    pub open spec fn start(schedule: Seq<usize>) -> HeldRun<W> {
        HeldRun {
            run: ScheduleRun::start(Yields::start(), schedule),
            awake: Set::empty(),
            pended: Seq::empty(),
        }
    }

    /// The event can happen: a task comes to a point of `schedule` to which none has come, or a
    /// task that is awake is polled. `stands` says at which point the task stands that a waker
    /// wakes.
    pub open spec fn enabled(
        self,
        schedule: Seq<usize>,
        stands: spec_fn(W) -> usize,
        op: YieldOp<W>,
    ) -> bool {
        match op {
            YieldOp::Reach(_, id) => schedule.contains(id) && !self.run.yields.reached.contains(id),
            YieldOp::Poll(id, waker) => self.awake.contains(id) && stands(waker) == id,
            _ => false,
        }
    }

    /// The tasks that are awake once `wake` has been woken.
    pub open spec fn woken(
        awake: Set<usize>,
        stands: spec_fn(W) -> usize,
        wake: Option<W>,
    ) -> Set<usize> {
        match wake {
            Some(waker) => awake.insert(stands(waker)),
            None => awake,
        }
    }

    pub open spec fn apply(self, stands: spec_fn(W) -> usize, op: YieldOp<W>) -> HeldRun<W> {
        let yields = self.run.yields;
        let schedule = self.run.schedule;
        match op {
            YieldOp::Reach(_, id) => HeldRun {
                run: self.run.apply(op),
                awake: Self::woken(self.awake.insert(id), stands, yields.reach_wakes(schedule)),
                ..self
            },
            YieldOp::Poll(id, _) => HeldRun {
                run: self.run.apply(op),
                awake: Self::woken(
                    self.awake.remove(id),
                    stands,
                    yields.poll_wakes(schedule, id),
                ),
                pended: if yields.released(schedule, id) {
                    self.pended
                } else {
                    self.pended.push(id)
                },
            },
            _ => HeldRun { run: self.run.apply(op), ..self },
        }
    }

    /// What the events come to, one after the other.
    pub open spec fn after(self, stands: spec_fn(W) -> usize, ops: Seq<YieldOp<W>>) -> HeldRun<W>
        decreases ops.len(),
    {
        if ops.len() == 0 {
            self
        } else {
            self.after(stands, ops.drop_last()).apply(stands, ops.last())
        }
    }

    /// Each of the events can happen when its turn comes.
    pub open spec fn all_enabled(
        self,
        schedule: Seq<usize>,
        stands: spec_fn(W) -> usize,
        ops: Seq<YieldOp<W>>,
    ) -> bool
        decreases ops.len(),
    {
        ops.len() > 0 ==> {
            &&& self.all_enabled(schedule, stands, ops.drop_last())
            &&& self.after(stands, ops.drop_last()).enabled(schedule, stands, ops.last())
        }
    }

    /// Every task has come to its point, and none is awake: nothing more happens.
    pub open spec fn at_rest(self, schedule: Seq<usize>) -> bool {
        &&& forall|id: usize|
            schedule.contains(id) ==> #[trigger] self.run.yields.reached.contains(id)
        &&& self.awake == Set::<usize>::empty()
    }

    /// What holds while the tasks are run: each of those that have come to their point has passed
    /// it, is awake or waits, the one whose turn it is does not wait, and one that was pending is
    /// awake only when it is its turn.
    spec fn inv(self, schedule: Seq<usize>, stands: spec_fn(W) -> usize) -> bool {
        let yields = self.run.yields;
        &&& self.run.passed + self.run.schedule == schedule
        &&& yields.reached.no_duplicates()
        &&& self.pended.no_duplicates()
        &&& yields.reached.len() <= schedule.len()
        &&& yields.releasing <==> yields.reached.len() == schedule.len()
        &&& !yields.releasing ==> self.run.schedule == schedule
        &&& forall|id: usize| #[trigger]
            yields.reached.contains(id) ==> schedule.contains(id) && (self.run.passed.contains(id)
                || self.awake.contains(id) || yields.waiting.contains_key(id))
        &&& forall|id: usize| #[trigger]
            yields.waiting.contains_key(id) ==> {
                &&& yields.reached.contains(id)
                &&& !self.run.passed.contains(id)
                &&& !self.awake.contains(id)
                &&& self.pended.contains(id)
                &&& stands(yields.waiting[id]) == id
            }
        &&& forall|id: usize| #[trigger]
            self.awake.contains(id) ==> yields.reached.contains(id) && !self.run.passed.contains(id)
        &&& forall|id: usize| #[trigger]
            self.pended.contains(id) ==> yields.reached.contains(id) && (self.awake.contains(id)
                ==> yields.releasing && self.run.schedule.len() > 0 && self.run.schedule[0] == id)
        &&& self.run.next_is_awake()
    }
}

/// A sequence without duplicates is no longer than one that has all its items.
proof fn lemma_no_longer(a: Seq<usize>, b: Seq<usize>)
    requires
        a.no_duplicates(),
        forall|id: usize| a.contains(id) ==> #[trigger] b.contains(id),
    ensures
        a.len() <= b.len(),
{
    a.unique_seq_to_set();
    vstd::seq_lib::seq_to_set_is_finite(b);
    b.lemma_cardinality_of_set();
    assert(a.to_set().subset_of(b.to_set()));
    vstd::set_lib::lemma_len_subset(a.to_set(), b.to_set());
}

proof fn lemma_reach_keeps_inv<W>(
    held: HeldRun<W>,
    schedule: Seq<usize>,
    stands: spec_fn(W) -> usize,
    task: HeldTask,
    id: usize,
)
    requires
        schedule.no_duplicates(),
        held.inv(schedule, stands),
        held.enabled(schedule, stands, YieldOp::Reach(task, id)),
    ensures
        held.apply(stands, YieldOp::Reach(task, id)).inv(schedule, stands),
        held.run.yields.reached.len() < schedule.len(),
{
    broadcast use vstd::seq_lib::lemma_seq_contains_after_push;

    let reached = held.run.yields.reached;
    assert(reached.push(id).no_duplicates());
    assert forall|other: usize| reached.push(id).contains(other) implies #[trigger] schedule.contains(
        other,
    ) by {}
    lemma_no_longer(reached.push(id), schedule);
    assert(held.run.passed.len() == 0);
}

proof fn lemma_poll_keeps_inv<W>(
    held: HeldRun<W>,
    schedule: Seq<usize>,
    stands: spec_fn(W) -> usize,
    id: usize,
    waker: W,
)
    requires
        schedule.no_duplicates(),
        held.inv(schedule, stands),
        held.enabled(schedule, stands, YieldOp::Poll(id, waker)),
    ensures
        held.apply(stands, YieldOp::Poll(id, waker)).inv(schedule, stands),
{
    broadcast use vstd::seq_lib::lemma_seq_contains_after_push;

    let left = held.run.schedule;
    let passed = held.run.passed;
    assert(held.run.yields.reached.contains(id));
    if held.run.yields.released(left, id) {
        if left.len() == 0 {
            assert(passed =~= schedule);
        } else {
            assert(passed.push(id) + left.drop_first() =~= passed + left);
            if left.len() > 1 {
                assert(schedule[passed.len() as int] == id);
                assert(schedule[passed.len() as int + 1] == left[1]);
            }
        }
    } else {
        assert(!held.pended.contains(id));
        assert(held.pended.push(id).no_duplicates());
    }
}

/// The invariant holds, and every event is one of few: a task comes to its point, is pending or
/// passes, each at most once.
proof fn lemma_held_run<W>(
    schedule: Seq<usize>,
    stands: spec_fn(W) -> usize,
    ops: Seq<YieldOp<W>>,
)
    requires
        schedule.len() > 0,
        schedule.no_duplicates(),
        HeldRun::start(schedule).all_enabled(schedule, stands, ops),
    ensures
        ({
            let now = HeldRun::start(schedule).after(stands, ops);
            &&& now.inv(schedule, stands)
            &&& ops.len() == now.run.yields.reached.len() + now.pended.len() + now.run.passed.len()
        }),
    decreases ops.len(),
{
    let start = HeldRun::<W>::start(schedule);
    if ops.len() == 0 {
        assert(start.run.passed + start.run.schedule =~= schedule);
    } else {
        lemma_held_run(schedule, stands, ops.drop_last());
        let before = start.after(stands, ops.drop_last());
        match ops.last() {
            YieldOp::Reach(task, id) => {
                lemma_reach_keeps_inv(before, schedule, stands, task, id);
            },
            YieldOp::Poll(id, waker) => {
                lemma_poll_keeps_inv(before, schedule, stands, id, waker);
                if before.run.schedule.len() == 0 {
                    assert(before.run.passed =~= schedule);
                    assert(before.run.yields.reached.contains(id));
                }
            },
            _ => {},
        }
    }
}

/// Every schedule is gone through. Let each of several tasks come to a point of its own of a
/// schedule of distinct points, in any order, and let each task that is awake be polled, in any
/// order. Then no more than three events per point happen, so that the tasks come to rest; and
/// when they do, all have passed their points, in the order of the schedule, nothing is left of
/// the schedule, and no task waits.
pub proof fn law_schedule_is_completed<W>(
    schedule: Seq<usize>,
    stands: spec_fn(W) -> usize,
    ops: Seq<YieldOp<W>>,
)
    requires
        schedule.len() > 0,
        schedule.no_duplicates(),
        HeldRun::start(schedule).all_enabled(schedule, stands, ops),
    ensures
        ops.len() <= 3 * schedule.len(),
        ({
            let now = HeldRun::start(schedule).after(stands, ops);
            &&& now.run.yields.reached.len() < schedule.len() ==> now.run.passed.len() == 0
            &&& now.at_rest(schedule) ==> {
                &&& now.run.passed == schedule
                &&& now.run.schedule.len() == 0
                &&& now.run.yields.waiting == Map::<usize, W>::empty()
            }
        }),
{
    let now = HeldRun::start(schedule).after(stands, ops);
    lemma_held_run(schedule, stands, ops);
    assert forall|id: usize| now.pended.contains(id) implies #[trigger] schedule.contains(id) by {
        assert(now.run.yields.reached.contains(id));
    }
    lemma_no_longer(now.pended, schedule);
    if now.at_rest(schedule) {
        let reached = now.run.yields.reached;
        lemma_no_longer(schedule, reached);
        if now.run.schedule.len() > 0 {
            let first = now.run.schedule[0];
            let place = now.run.passed.len() as int;
            assert(schedule[place] == first);
            assert(schedule.contains(first));
            assert(reached.contains(first));
            assert(!now.run.passed.contains(first)) by {
                if now.run.passed.contains(first) {
                    let i = choose|i: int|
                        0 <= i < now.run.passed.len() && now.run.passed[i] == first;
                    assert(schedule[i] == first);
                }
            }
        }
        assert(now.run.passed =~= schedule);
        assert forall|id: usize| !now.run.yields.waiting.contains_key(id) by {
            if now.run.yields.waiting.contains_key(id) {
                assert(reached.contains(id));
                assert(schedule.contains(id));
            }
        }
        assert(now.run.yields.waiting =~= Map::<usize, W>::empty());
    }
}

/// As long as the tasks are not at rest, something can happen: a task can come to its point, or
/// one that is awake can be polled.
pub proof fn law_schedule_does_not_get_stuck<W>(
    held: HeldRun<W>,
    schedule: Seq<usize>,
    stands: spec_fn(W) -> usize,
    task: HeldTask,
    wakers: spec_fn(usize) -> W,
)
    requires
        !held.at_rest(schedule),
        forall|id: usize| stands(#[trigger] wakers(id)) == id,
    ensures
        exists|op: YieldOp<W>| held.enabled(schedule, stands, op),
{
    if exists|id: usize| schedule.contains(id) && !held.run.yields.reached.contains(id) {
        let id = choose|id: usize|
            schedule.contains(id) && !held.run.yields.reached.contains(id);
        assert(held.enabled(schedule, stands, YieldOp::Reach(task, id)));
    } else {
        assert(exists|id: usize| held.awake.contains(id)) by {
            if forall|id: usize| !held.awake.contains(id) {
                assert(held.awake =~= Set::<usize>::empty());
            }
        }
        let id = choose|id: usize| held.awake.contains(id);
        assert(held.enabled(schedule, stands, YieldOp::Poll(id, wakers(id))));
    }
}

/// At the start no task has yielded and none is to be released.
pub proof fn law_yields_start_empty<W>()
    ensures
        forall|id: usize| !(#[trigger] Yields::<W>::start().waiting.contains_key(id)),
        Yields::<W>::start().reached.len() == 0,
        !Yields::<W>::start().releasing,
        Yields::<W>::start().held.len() == 0,
        Yields::<W>::start().last_capture is None,
        Yields::<W>::start().next_capture == 0,
{
}

/// A task is held at a point if it belongs to the node two and the point stands in the schedule, and
/// not otherwise: tasks of every other node, the main node among them, go on.
pub proof fn law_who_is_held<W>(schedule: Seq<usize>, node: NodeId, id: usize)
    ensures
        Yields::<W>::holds(schedule, node, id) <==> node.0 == 2 && exists|i: int|
            0 <= i < schedule.len() && #[trigger] schedule[i] == id,
        node.0 != 2 ==> !Yields::<W>::holds(schedule, node, id),
        schedule.len() == 0 ==> !Yields::<W>::holds(schedule, node, id),
{
    if schedule.contains(id) {
        let i = choose|i: int| 0 <= i < schedule.len() && schedule[i] == id;
        assert(schedule[i] == id);
    }
}

/// A task that is held is counted, as the last, with its point. It is the time to release the tasks
/// if it was before, and when as many have been counted as the schedule has points; the task at the
/// first point of the schedule is then woken, if it waits, and it alone. Nothing else changes.
pub proof fn law_what_reaching_does<W>(
    yields: Yields<W>,
    schedule: Seq<usize>,
    task: HeldTask,
    id: usize,
    other: usize,
)
    requires
        schedule.len() > 0,
    ensures
        ({
            let after = yields.reach(schedule, task, id);
            let complete = yields.reached.len() + 1 == schedule.len();
            &&& after.reached == yields.reached.push(id)
            &&& after.held == yields.held.push(task)
            &&& after.releasing <==> yields.releasing || complete
            &&& after.waiting.contains_key(other) <==> yields.waiting.contains_key(other) && !(
            complete && other == schedule[0])
            &&& after.waiting.contains_key(other) ==> after.waiting[other] == yields.waiting[other]
            &&& yields.reach_wakes(schedule) is Some <==> complete && yields.waiting.contains_key(
                schedule[0],
            )
            &&& yields.reach_wakes(schedule) is Some ==> yields.reach_wakes(schedule)->0
                == yields.waiting[schedule[0]]
            &&& after.last_capture == yields.last_capture
            &&& after.next_capture == yields.next_capture
        }),
{
}

/// A task goes on from its point exactly if it is the time to release the tasks and the point is the
/// first that is left of the schedule, or none is left. The point is then struck off the schedule,
/// and the task at the next one is woken, if it waits, and it alone. A task that does not go on waits
/// to be woken by the waker of this poll. Nothing else changes.
pub proof fn law_what_polling_does<W>(
    yields: Yields<W>,
    schedule: Seq<usize>,
    id: usize,
    waker: W,
    other: usize,
)
    ensures
        ({
            let goes_on = yields.released(schedule, id);
            let after = yields.after_poll(schedule, id, waker);
            let left = yields.schedule_after(schedule, id);
            let wakes = yields.poll_wakes(schedule, id);
            let passes = goes_on && schedule.len() > 0;
            &&& goes_on <==> yields.releasing && (schedule.len() == 0 || schedule[0] == id)
            &&& passes ==> left == schedule.subrange(1, schedule.len() as int)
            &&& !passes ==> left == schedule
            &&& !goes_on ==> {
                &&& after.waiting.contains_key(id) && after.waiting[id] == waker
                &&& other != id ==> (after.waiting.contains_key(other)
                    <==> yields.waiting.contains_key(other))
                &&& other != id ==> after.waiting[other] == yields.waiting[other]
            }
            &&& goes_on ==> {
                &&& after.waiting.contains_key(other) <==> yields.waiting.contains_key(other) && !(
                passes && schedule.len() > 1 && other == schedule[1])
                &&& after.waiting.contains_key(other) ==> after.waiting[other]
                    == yields.waiting[other]
            }
            &&& wakes is Some <==> passes && schedule.len() > 1 && yields.waiting.contains_key(
                schedule[1],
            )
            &&& wakes is Some ==> wakes->0 == yields.waiting[schedule[1]]
            &&& after.reached == yields.reached
            &&& after.releasing == yields.releasing
            &&& after.held == yields.held
            &&& after.last_capture == yields.last_capture
            &&& after.next_capture == yields.next_capture
        }),
{
    assert(yields.released(schedule, id) && schedule.len() > 0 ==> yields.schedule_after(schedule, id)
        =~= schedule.subrange(1, schedule.len() as int));
}

/// The future of a plain point makes one capture, of the task that polls it first and with the waker
/// of that poll, if there is none that the scheduler has yet to take. It may be polled exactly if
/// there is none or it is its own, and is ready exactly if it has made one and there is none. Nothing
/// else changes, and when control returns to the scheduler the task of the capture is woken.
pub proof fn law_what_a_plain_poll_does<W>(
    yields: Yields<W>,
    future: YieldToScheduler,
    task: TaskRef,
    waker: W,
    backtrace: backtrace::Backtrace,
)
    ensures
        ({
            let after = yields.after_plain_poll(future, task, waker, backtrace);
            let polled = future.polled(yields.next_capture);
            let captures = future.capture is None && yields.last_capture is None;
            &&& after.waiting == yields.waiting
            &&& after.reached == yields.reached
            &&& after.releasing == yields.releasing
            &&& after.held == yields.held
            &&& !captures ==> {
                &&& after.last_capture == yields.last_capture
                &&& after.next_capture == yields.next_capture
            }
            &&& captures ==> {
                &&& after.last_capture is Some
                &&& after.last_capture->0.id == yields.next_capture
                &&& after.last_capture->0.task == task
                &&& after.last_capture->0.waker == waker
                &&& after.last_capture->0.backtrace == backtrace
                &&& yields.next_capture < u64::MAX ==> after.next_capture == yields.next_capture + 1
                &&& polled.capture == Some(yields.next_capture)
            }
            &&& future.capture is Some ==> polled == future
            &&& future.capture is None ==> polled.capture == Some(yields.next_capture)
            &&& future.pollable(yields.last_capture) <==> yields.last_capture is None
                || future.capture == Some(yields.last_capture->0.id)
            &&& future.ready(yields.last_capture) <==> future.capture is Some
                && yields.last_capture is None
            &&& yields.return_wakes() is Some <==> yields.last_capture is Some
            &&& yields.return_wakes() is Some ==> yields.return_wakes()->0
                == yields.last_capture->0.waker
        }),
{
}

/// A task that is struck off the list of those that were held is struck off once, and no other is:
/// the tasks with other identifiers are on the list as before.
pub proof fn law_one_task_is_struck_off<W>(
    before: Seq<HeldTask>,
    task_id: TaskId,
    held: Seq<HeldTask>,
    i: int,
)
    requires
        Yields::<W>::struck_off(before, task_id, held),
        0 <= i < before.len(),
    ensures
        before[i].task_id != task_id ==> held.contains(before[i]),
        before[i].task_id == task_id ==> held.len() + 1 == before.len(),
        held.len() <= before.len() <= held.len() + 1,
{
    if held != before {
        let at = choose|at: int|
            {
                &&& 0 <= at < before.len()
                &&& (#[trigger] before[at]).task_id == task_id
                &&& forall|j: int| 0 <= j < at ==> (#[trigger] before[j]).task_id != task_id
                &&& held == crate::model::swap_removed(before, at)
            };
        if i == before.len() - 1 && i != at {
            assert(held[at] == before[i]);
        } else if i != at {
            assert(held[i] == before[i]);
        }
    } else {
        assert(held[i] == before[i]);
    }
}

/// The tasks that were held are not tracked while they run.
pub proof fn law_held_tasks_are_not_tracked()
    ensures
        !crate::yields::DEBUG,
{
}

} // verus!
