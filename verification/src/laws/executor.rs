//! What the executor answers, and what it leaves alone.

use crate::executor::{
    AfterRun, BlockOnAction, BlockOnEvent, ExecutorView, KillCurrent, PanicWrapper,
    RunOutcome,
};
use crate::id::{NodeId, TaskId};
use crate::model::TaskRef;
use crate::rng::RngHistory;
use crate::time::Duration;
use vstd::prelude::*;

verus! {

/// An executor starts without tasks, nodes and time limit, and with the generator that it is given.
pub proof fn law_executor_starts_empty<R, I>(rand: RngHistory)
    ensures
        ExecutorView::<R, I>::start(rand).tasks.infos.len() == 0,
        ExecutorView::<R, I>::start(rand).tasks.ready.len() == 0,
        forall|id: u64|
            !(#[trigger] ExecutorView::<R, I>::start(rand).tasks.nodes.contains_key(id)),
        ExecutorView::<R, I>::start(rand).time_limit is None,
        ExecutorView::<R, I>::start(rand).rand == rand,
{
}

/// What an executor hands out is what contracts speak of, part by part.
pub proof fn law_views_show_what_is_there<R>(after: AfterRun<R>, killed: KillCurrent<R>)
    ensures
        match after {
            AfterRun::Continue { restart, advance } => {
                &&& after@ is Continue
                &&& after@->restart == restart
                &&& after@->advance == advance
            },
            AfterRun::Rethrow { dropped } => after@ is Rethrow && after@->dropped == dropped@,
        },
        killed@.disable_timers == killed.kill.disable_timers,
        killed@.dropped == killed.kill.dropped@,
        killed@.restart_after == killed.panic.restart_after,
{
}

/// Taking what comes next from the ready queue is left to the tasks and to the generator; the time
/// limit stays.
pub proof fn law_run_all_ready_keeps_the_limit<R, I>(executor: ExecutorView<R, I>)
    ensures
        executor.run_all_ready().0.time_limit == executor.time_limit,
        executor.run_all_ready().0.tasks == executor.tasks.next_ready(executor.rand).1,
        executor.run_all_ready().0.rand == executor.tasks.next_ready(executor.rand).0,
        executor.run_all_ready().1 == executor.tasks.next_ready(executor.rand).2,
{
}

/// A panic that is not meant to take a node down ends the simulation, whichever node the task
/// belongs to: it is let through, exactly what was ready is handed back to be dropped, nothing is
/// ready any longer, and nothing else changes. It is the only thing that ends it so.
pub proof fn law_panics_are_let_through<R, I>(
    executor: ExecutorView<R, I>,
    node: NodeId,
    other: NodeId,
    outcome: RunOutcome,
)
    ensures
        outcome is Panicked <==> executor.after_run(node, outcome).1 is Rethrow,
        outcome is Completed || outcome is NodeKilled <==> executor.after_run(
            node,
            outcome,
        ).1 is Continue,
        outcome is Panicked ==> {
            let (after, answer) = executor.after_run(node, outcome);
            &&& answer->dropped == executor.tasks.ready
            &&& after.tasks.ready.len() == 0
            &&& after.tasks.infos == executor.tasks.infos
            &&& after.tasks.nodes == executor.tasks.nodes
            &&& after.tasks.next_node_id == executor.tasks.next_node_id
            &&& after.tasks.next_task_id == executor.tasks.next_task_id
            &&& after.tasks.paused_node_ids == executor.tasks.paused_node_ids
            &&& after.rand == executor.rand
            &&& after.time_limit == executor.time_limit
            &&& executor.after_run(other, outcome) == (after, answer)
        },
{
}

/// After any other run the simulation goes on, and time passes, by as much as is drawn from 50 to
/// 100 nanoseconds. A node is to be restarted exactly if the task has taken it down and said after
/// how long: that node, after that time, by a new task of the main node. Nothing that is ready is
/// lost, and nothing else changes.
pub proof fn law_simulation_goes_on<R, I>(
    executor: ExecutorView<R, I>,
    node: NodeId,
    outcome: RunOutcome,
    i: int,
)
    requires
        !(outcome is Panicked),
        executor.tasks.infos.len() < usize::MAX,
    ensures
        ({
            let (after, answer) = executor.after_run(node, outcome);
            let added = after.tasks.infos[executor.tasks.infos.len() as int];
            let restarts = outcome matches RunOutcome::NodeKilled(killed)
                && killed.restart_after is Some;
            &&& answer is Continue
            &&& answer->advance.nanos == crate::rng::nth_draw(
                executor.rand.seed,
                executor.rand.drawn,
                50,
                100,
            )
            &&& after.rand.seed == executor.rand.seed
            &&& after.rand.drawn == executor.rand.drawn.push((50u64, 100u64))
            &&& after.time_limit == executor.time_limit
            &&& after.tasks.ready == executor.tasks.ready
            &&& after.tasks.nodes == executor.tasks.nodes
            &&& after.tasks.next_node_id == executor.tasks.next_node_id
            &&& after.tasks.next_task_id == executor.tasks.next_task_id
            &&& after.tasks.paused_node_ids == executor.tasks.paused_node_ids
            &&& 0 <= i < executor.tasks.infos.len() ==> after.tasks.infos[i]
                == executor.tasks.infos[i]
            &&& restarts <==> answer->restart is Some
            &&& !restarts ==> after.tasks.infos == executor.tasks.infos
            &&& restarts ==> {
                &&& answer->restart->0.node == node
                &&& Some(answer->restart->0.delay) == outcome->0.restart_after
                &&& answer->restart->0.task.index == executor.tasks.infos.len()
                &&& after.tasks.infos.len() == executor.tasks.infos.len() + 1
                &&& added.node == NodeId(0) && added.task_id == TaskId(0) && added.name == "main"@
                &&& !added.paused && !added.killed
            }
        }),
{
}

/// With a time limit, the run goes on after time has advanced only if less time has passed than the
/// limit. Of every time that is the limit or more the answer is that the limit is exceeded, so that
/// once it is exceeded it stays so. Without a limit the run always goes on. If there was nothing to
/// advance to, the run is stuck, whatever the limit.
pub proof fn law_time_limit_is_kept<R, I>(
    executor: ExecutorView<R, I>,
    elapsed: Duration,
    later: Duration,
    going: bool,
)
    ensures
        ({
            let action = executor.block_on(BlockOnEvent::TimeAdvanced { going, elapsed }).1;
            let next = executor.block_on(BlockOnEvent::TimeAdvanced { going, elapsed: later }).1;
            &&& !going <==> action == BlockOnAction::NoEvents
            &&& going && executor.time_limit is None ==> action == BlockOnAction::RunAllReady
            &&& going && executor.time_limit is Some ==> {
                let limit = executor.time_limit->0;
                &&& action == BlockOnAction::RunAllReady <==> elapsed.nanos < limit.nanos
                &&& action == BlockOnAction::TimeLimitExceeded(limit) <==> limit.nanos
                    <= elapsed.nanos
                &&& action == BlockOnAction::TimeLimitExceeded(limit) && elapsed.nanos
                    <= later.nanos ==> next == BlockOnAction::TimeLimitExceeded(limit)
                &&& next == BlockOnAction::RunAllReady && elapsed.nanos <= later.nanos ==> action
                    == BlockOnAction::RunAllReady
            }
        }),
{
}

/// The main task is started first. Then what is ready is run, the main task is polled, and time
/// advances, in turn, until the main task has its output: that, and nothing else, makes the run
/// return, and the nodes that were noted are then resumed.
pub proof fn law_main_task_is_driven<R, I>(executor: ExecutorView<R, I>, event: BlockOnEvent)
    requires
        executor.tasks.infos.len() < usize::MAX,
    ensures
        executor.block_on(event).1 == BlockOnAction::Return <==> event
            == (BlockOnEvent::MainPolled { ready: true }),
        executor.block_on(event).1 == BlockOnAction::AdvanceToNextEvent <==> event
            == (BlockOnEvent::MainPolled { ready: false }),
        executor.block_on(event).1 == BlockOnAction::PollMain <==> event
            == BlockOnEvent::ReadyQueueEmpty,
        executor.block_on(event).1 is SpawnMain <==> event == BlockOnEvent::Started,
        event == BlockOnEvent::MainSpawned ==> executor.block_on(event).1
            == BlockOnAction::RunAllReady,
        executor.block_on(event).1 == BlockOnAction::RunAllReady ==> event
            == BlockOnEvent::MainSpawned || event is TimeAdvanced,
        event == BlockOnEvent::Started ==> executor.block_on(event).1 == BlockOnAction::SpawnMain(
            TaskRef { index: executor.tasks.infos.len() as usize },
        ),
{
}

/// Driving the main task changes the tasks and nodes only when it starts and when it has its
/// output, and never the generator and the time limit. At the start a task of the main node is
/// added, and no task, no node and nothing that is ready changes. At the end the nodes that were
/// noted are resumed, in the order in which they were.
pub proof fn law_driving_changes_little<R, I>(
    executor: ExecutorView<R, I>,
    event: BlockOnEvent,
    i: int,
)
    ensures
        ({
            let after = executor.block_on(event).0;
            let added = after.tasks.infos[executor.tasks.infos.len() as int];
            &&& after.rand == executor.rand
            &&& after.time_limit == executor.time_limit
            &&& event != BlockOnEvent::Started && event != (BlockOnEvent::MainPolled {
                ready: true,
            }) ==> after.tasks == executor.tasks
            &&& event == BlockOnEvent::Started ==> {
                &&& after.tasks.infos.len() == executor.tasks.infos.len() + 1
                &&& 0 <= i < executor.tasks.infos.len() ==> after.tasks.infos[i]
                    == executor.tasks.infos[i]
                &&& added.node == NodeId(0) && added.task_id == TaskId(0) && added.name == "main"@
                &&& !added.paused && !added.killed
                &&& after.tasks.nodes == executor.tasks.nodes
                &&& after.tasks.ready == executor.tasks.ready
                &&& after.tasks.next_node_id == executor.tasks.next_node_id
                &&& after.tasks.next_task_id == executor.tasks.next_task_id
                &&& after.tasks.paused_node_ids == executor.tasks.paused_node_ids
            }
            &&& event == (BlockOnEvent::MainPolled { ready: true }) ==> after.tasks
                == executor.tasks.resume_all(executor.tasks.paused_node_ids)
        }),
{
}

/// A task that takes its node down takes down exactly that node, as killing it does: what the node
/// held back is handed back, and its timers are those to be disabled. If it says how long the node
/// stays down, it stays down for just that and nothing is drawn; if not, for as much as is drawn
/// from 1000 to 3000 milliseconds. A node that is shut down does not come back. The time limit
/// stays.
pub proof fn law_node_is_taken_down<R, I>(
    executor: ExecutorView<R, I>,
    current: TaskRef,
    restart_after: Option<Duration>,
)
    ensures
        ({
            let node = executor.tasks.infos[current.index as int].node;
            let (after, killed) = executor.kill_current_node(current, restart_after);
            let (down, shut) = executor.take_down(current, None);
            &&& after.tasks == executor.tasks.kill(node)
            &&& down.tasks == executor.tasks.kill(node)
            &&& killed.disable_timers == node && shut.disable_timers == node
            &&& killed.dropped == executor.tasks.nodes[node.0].paused
            &&& shut.dropped == executor.tasks.nodes[node.0].paused
            &&& after.time_limit == executor.time_limit && down.time_limit == executor.time_limit
            &&& shut.restart_after is None
            &&& down.rand == executor.rand
            &&& killed.restart_after is Some
            &&& restart_after is Some ==> killed.restart_after == restart_after && after.rand
                == executor.rand
            &&& restart_after is None ==> {
                let millis = crate::rng::nth_draw(
                    executor.rand.seed,
                    executor.rand.drawn,
                    1000,
                    3000,
                );
                &&& killed.restart_after->0.nanos == millis * 1_000_000
                &&& after.rand.seed == executor.rand.seed
                &&& after.rand.drawn == executor.rand.drawn.push((1000u64, 3000u64))
            }
        }),
{
}

/// A node that has been taken down comes back after the time that was said when it was: what the
/// task panics with is what decides whether and when the node is restarted.
pub proof fn law_node_comes_back_when_it_was_said<R, I>(
    executor: ExecutorView<R, I>,
    later: ExecutorView<R, I>,
    current: TaskRef,
    delay: Duration,
    node: NodeId,
)
    ensures
        ({
            let killed = executor.kill_current_node(current, Some(delay)).1;
            let shut = executor.take_down(current, None).1;
            let back = later.after_run(
                node,
                RunOutcome::NodeKilled(PanicWrapper { restart_after: killed.restart_after }),
            ).1;
            let never = later.after_run(
                node,
                RunOutcome::NodeKilled(PanicWrapper { restart_after: shut.restart_after }),
            ).1;
            &&& back is Continue && back->restart is Some
            &&& back->restart->0.node == node
            &&& back->restart->0.delay == delay
            &&& never is Continue && never->restart is None
        }),
{
}

} // verus!
