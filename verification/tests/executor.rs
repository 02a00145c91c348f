//! What the executor says is to be done.

use msim::executor::{
    kill_current_node, reports_panic, shutdown_current_node, AfterRun, BlockOnAction, BlockOnEvent,
    Executor, PanicWrapper, RunOutcome,
};
use msim::id::{NodeId, TaskId};
use msim::model::{ReadyStep, TaskRef};
use msim::rng::GlobalRng;
use msim::time::Duration;
use rand::{Rng, SeedableRng};

fn executor(seed: u64) -> Executor<u32, ()> {
    Executor::new(GlobalRng::new_with_seed(seed))
}

fn drain(executor: &mut Executor<u32, ()>) -> Vec<u32> {
    let mut order = Vec::new();
    loop {
        match executor.run_all_ready() {
            ReadyStep::Idle => return order,
            ReadyStep::Run(runnable, _) => order.push(runnable),
            ReadyStep::Drop(_, _) => panic!("nothing is killed"),
        }
    }
}

#[test]
fn durations() {
    assert_eq!(Duration::from_millis(1500).nanos, 1_500_000_000);
    assert_eq!(Duration::from_nanos(75).nanos, 75);
    assert_eq!(Duration::from_millis(u64::MAX).nanos, u64::MAX as u128 * 1_000_000);
}

#[test]
fn empty_queue_is_idle() {
    assert!(matches!(executor(1).run_all_ready(), ReadyStep::Idle));
}

#[test]
fn everything_ready_is_taken_once_as_the_generator_draws() {
    for seed in 0..20 {
        let mut executor = executor(seed);
        let main = executor.handle_mut().spawn_on_main_task();
        let mut queue = Vec::new();
        for i in 0..30 {
            executor.handle_mut().send(i, main);
            queue.push(i);
        }
        let mut rng = rand::rngs::StdRng::seed_from_u64(seed);
        let mut expected = Vec::new();
        while !queue.is_empty() {
            let index: u64 = rng.gen_range(0..queue.len() as u64);
            expected.push(queue.swap_remove(index as usize));
        }
        let order = drain(&mut executor);
        assert_eq!(order, expected);
        let mut sorted = order.clone();
        sorted.sort();
        assert_eq!(sorted, (0..30).collect::<Vec<u32>>());
    }
}

#[test]
fn killed_tasks_are_dropped_and_paused_ones_held_back() {
    let mut executor = executor(3);
    let a = executor.handle_mut().create_node(None);
    let b = executor.handle_mut().create_node(None);
    executor.handle_mut().send(1, a.info);
    executor.handle_mut().send(2, b.info);
    executor.handle_mut().kill(NodeId(1));
    executor.handle_mut().pause(NodeId(2));
    match executor.run_all_ready() {
        ReadyStep::Drop(runnable, task) => {
            assert_eq!(runnable, 1);
            assert_eq!(task, a.info);
        }
        _ => panic!("not dropped"),
    }
    assert!(matches!(executor.run_all_ready(), ReadyStep::Idle));
    executor.handle_mut().resume(NodeId(2));
    assert_eq!(drain(&mut executor), vec![2]);
}

#[test]
fn time_passes_when_a_task_has_run() {
    let mut executor = executor(5);
    let mut rng = rand::rngs::StdRng::seed_from_u64(5);
    for _ in 0..20 {
        match executor.after_run(NodeId(1), RunOutcome::Completed) {
            AfterRun::Continue { restart, advance } => {
                assert!(restart.is_none());
                let expected: u64 = rng.gen_range(50..100);
                assert_eq!(advance.nanos, expected as u128);
                assert!((50..100).contains(&advance.nanos));
            }
            AfterRun::Rethrow { .. } => panic!("no panic"),
        }
    }
}

#[test]
fn killed_node_is_restarted_after_its_delay() {
    let mut executor = executor(5);
    let delay = Duration::from_millis(20);
    let killed = PanicWrapper { restart_after: Some(delay) };
    match executor.after_run(NodeId(4), RunOutcome::NodeKilled(killed)) {
        AfterRun::Continue { restart: Some(restart), .. } => {
            assert_eq!(restart.node, NodeId(4));
            assert_eq!(restart.delay, delay);
            let info = executor.handle().info(restart.task);
            assert_eq!(info.node(), NodeId(0));
            assert_eq!(info.task_id(), TaskId(0));
            assert_eq!(info.name(), "main");
        }
        _ => panic!("no restart"),
    }
    let killed = PanicWrapper { restart_after: None };
    assert!(matches!(
        executor.after_run(NodeId(4), RunOutcome::NodeKilled(killed)),
        AfterRun::Continue { restart: None, .. }
    ));
}

#[test]
fn panic_drops_everything_ready() {
    let mut executor = executor(5);
    let main = executor.handle_mut().spawn_on_main_task();
    executor.handle_mut().send(1, main);
    executor.handle_mut().send(2, main);
    match executor.after_run(NodeId(0), RunOutcome::Panicked) {
        AfterRun::Rethrow { dropped } => assert_eq!(dropped, vec![(1, main), (2, main)]),
        _ => panic!("not rethrown"),
    }
    assert!(matches!(executor.run_all_ready(), ReadyStep::Idle));
}

#[test]
fn main_task_is_driven_to_its_end() {
    let mut executor = executor(7);
    let node = executor.handle_mut().create_node(None);
    executor.handle_mut().pause(NodeId(1));
    executor.handle_mut().send(8, node.info);
    assert!(matches!(executor.run_all_ready(), ReadyStep::Idle));
    executor.handle_mut().push_paused_node_id(NodeId(1));

    assert_eq!(
        executor.block_on(BlockOnEvent::Started),
        BlockOnAction::SpawnMain(TaskRef { index: 1 })
    );
    assert_eq!(executor.block_on(BlockOnEvent::MainSpawned), BlockOnAction::RunAllReady);
    assert_eq!(executor.block_on(BlockOnEvent::ReadyQueueEmpty), BlockOnAction::PollMain);
    assert_eq!(
        executor.block_on(BlockOnEvent::MainPolled { ready: false }),
        BlockOnAction::AdvanceToNextEvent
    );
    let elapsed = Duration::from_millis(10);
    assert_eq!(
        executor.block_on(BlockOnEvent::TimeAdvanced { going: true, elapsed }),
        BlockOnAction::RunAllReady
    );
    assert_eq!(
        executor.block_on(BlockOnEvent::TimeAdvanced { going: false, elapsed }),
        BlockOnAction::NoEvents
    );
    assert_eq!(
        executor.block_on(BlockOnEvent::MainPolled { ready: true }),
        BlockOnAction::Return
    );
    assert_eq!(drain(&mut executor), vec![8]);
}

#[test]
fn time_limit() {
    let mut executor = executor(7);
    let limit = Duration::from_millis(10);
    executor.set_time_limit(limit);
    let just_before = Duration { nanos: limit.nanos - 1 };
    assert_eq!(
        executor.block_on(BlockOnEvent::TimeAdvanced { going: true, elapsed: just_before }),
        BlockOnAction::RunAllReady
    );
    assert_eq!(
        executor.block_on(BlockOnEvent::TimeAdvanced { going: true, elapsed: limit }),
        BlockOnAction::TimeLimitExceeded(limit)
    );
}

#[test]
fn task_kills_its_own_node() {
    let mut executor = executor(11);
    let node = executor.handle_mut().create_node(None);
    let task = node.spawn(executor.handle_mut()).info;
    let delay = Duration::from_millis(5);
    let killed = kill_current_node(&mut executor, task, Some(delay));
    assert_eq!(killed.panic, PanicWrapper { restart_after: Some(delay) });
    assert_eq!(killed.kill.disable_timers, NodeId(1));
    assert!(executor.handle().info(task).is_killed());
    assert!(executor.handle().info(node.info).is_killed());
}

#[test]
fn killed_node_stays_down_for_one_to_three_seconds() {
    for seed in 0..20 {
        let mut executor = executor(seed);
        let node = executor.handle_mut().create_node(None);
        let killed = kill_current_node(&mut executor, node.info, None);
        let mut rng = rand::rngs::StdRng::seed_from_u64(seed);
        let millis: u64 = rng.gen_range(1000..3000);
        assert_eq!(killed.panic.restart_after, Some(Duration::from_millis(millis)));
        assert!((1000..3000).contains(&millis));
    }
}

#[test]
fn node_that_is_shut_down_is_not_restarted() {
    let mut executor = executor(11);
    let node = executor.handle_mut().create_node(None);
    let killed = shutdown_current_node(&mut executor, node.info);
    assert_eq!(killed.panic.restart_after, None);
    assert!(executor.handle().info(node.info).is_killed());
    assert!(executor.handle().has_node(NodeId(1)));
}

#[test]
fn which_panics_are_reported() {
    assert!(reports_panic(false, true));
    assert!(!reports_panic(true, true));
    assert!(!reports_panic(false, false));
}

#[test]
fn draining_loses_nothing() {
    for seed in 0..20 {
        let mut executor = executor(seed);
        let main = executor.handle_mut().spawn_on_main_task();
        let killed = executor.handle_mut().create_node(None);
        let paused = executor.handle_mut().create_node(None);
        executor.handle_mut().kill(NodeId(1));
        executor.handle_mut().pause(NodeId(2));
        for i in 0..5 {
            executor.handle_mut().send(i, main);
            executor.handle_mut().send(100 + i, killed.info);
            executor.handle_mut().send(200 + i, paused.info);
        }
        let (mut ran, mut dropped) = (Vec::new(), Vec::new());
        loop {
            match executor.run_all_ready() {
                ReadyStep::Idle => break,
                ReadyStep::Run(runnable, task) => {
                    assert_eq!(task, main);
                    // what runs makes more ready
                    if runnable < 5 {
                        executor.handle_mut().send(10 + runnable, main);
                        executor.handle_mut().send(210 + runnable, paused.info);
                    }
                    ran.push(runnable);
                }
                ReadyStep::Drop(runnable, task) => {
                    assert_eq!(task, killed.info);
                    dropped.push(runnable);
                }
            }
        }
        assert_eq!(executor.handle().ready_len(), 0);
        executor.handle_mut().resume(NodeId(2));
        let mut held = drain(&mut executor);
        ran.sort();
        dropped.sort();
        held.sort();
        assert_eq!(ran, vec![0, 1, 2, 3, 4, 10, 11, 12, 13, 14]);
        assert_eq!(dropped, vec![100, 101, 102, 103, 104]);
        assert_eq!(held, vec![200, 201, 202, 203, 204, 210, 211, 212, 213, 214]);
    }
}
