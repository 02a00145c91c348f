//! Points at which tasks yield to the scheduler.

use msim::id::{NodeId, TaskId};
use msim::model::TaskRef;
use msim::yields::{
    instrumented_yield, instrumented_yield_id, set_input_schedule, size_of_yield_tasks,
    return_to_scheduler, take_last_capture, track_run, InputSchedule, Polled, SkipScheduler, YieldId, YieldState,
    YieldToSchedulerX,
};

type Yields = YieldState<&'static str>;

fn schedule(ids: &[usize]) -> InputSchedule {
    let mut input = InputSchedule::new();
    set_input_schedule(&mut input, ids.to_vec());
    input
}

fn reach(input: &InputSchedule, yields: &mut Yields, id: usize) -> Option<&'static str> {
    let task = TaskRef { index: id };
    match instrumented_yield_id(input, yields, task, NodeId(2), TaskId(id as u64), id) {
        YieldId::Yield { future, wake } => {
            assert_eq!(future, YieldToSchedulerX { id });
            wake
        }
        YieldId::Skip(_) => panic!("not held"),
    }
}

fn poll(
    input: &mut InputSchedule,
    yields: &mut Yields,
    id: usize,
    waker: &'static str,
) -> (Polled, Option<&'static str>) {
    let polled = YieldToSchedulerX { id }.poll(input, yields, waker);
    (polled.polled, polled.wake)
}

#[test]
fn points_are_passed_in_the_order_of_the_schedule() {
    let mut input = schedule(&[11, 22]);
    let mut yields = Yields::new();
    assert_eq!(reach(&input, &mut yields, 22), None);
    assert_eq!(poll(&mut input, &mut yields, 22, "b"), (Polled::Pending, None));
    assert_eq!(size_of_yield_tasks(&yields), 1);
    // the last point: its task goes on at once, and the other after it
    assert_eq!(reach(&input, &mut yields, 11), None);
    assert_eq!(poll(&mut input, &mut yields, 22, "b"), (Polled::Pending, None));
    assert_eq!(poll(&mut input, &mut yields, 11, "a"), (Polled::Ready, Some("b")));
    assert_eq!(size_of_yield_tasks(&yields), 0);
    assert_eq!(poll(&mut input, &mut yields, 22, "b"), (Polled::Ready, None));
    // the schedule has been gone through
    assert_eq!(poll(&mut input, &mut yields, 33, "c"), (Polled::Ready, None));
}

#[test]
fn first_task_of_the_schedule_is_woken_when_all_are_there() {
    let mut input = schedule(&[1, 2, 3]);
    let mut yields = Yields::new();
    assert_eq!(reach(&input, &mut yields, 1), None);
    assert_eq!(poll(&mut input, &mut yields, 1, "a"), (Polled::Pending, None));
    assert_eq!(reach(&input, &mut yields, 3), None);
    assert_eq!(poll(&mut input, &mut yields, 3, "c"), (Polled::Pending, None));
    assert_eq!(size_of_yield_tasks(&yields), 2);
    assert_eq!(reach(&input, &mut yields, 2), Some("a"));
    assert_eq!(size_of_yield_tasks(&yields), 1);
    assert_eq!(poll(&mut input, &mut yields, 2, "b"), (Polled::Pending, None));
    assert_eq!(poll(&mut input, &mut yields, 1, "a"), (Polled::Ready, Some("b")));
    assert_eq!(poll(&mut input, &mut yields, 2, "b"), (Polled::Ready, Some("c")));
    assert_eq!(poll(&mut input, &mut yields, 3, "c"), (Polled::Ready, None));
}

#[test]
fn point_may_stand_twice_in_the_schedule() {
    let mut input = schedule(&[2, 2]);
    let mut yields = Yields::new();
    assert_eq!(reach(&input, &mut yields, 2), None);
    assert_eq!(poll(&mut input, &mut yields, 2, "a"), (Polled::Pending, None));
    assert_eq!(reach(&input, &mut yields, 2), Some("a"));
    assert_eq!(poll(&mut input, &mut yields, 2, "b"), (Polled::Ready, None));
    assert_eq!(poll(&mut input, &mut yields, 2, "a"), (Polled::Ready, None));
}

#[test]
fn other_nodes_and_other_points_are_skipped() {
    let input = schedule(&[11, 22]);
    let mut yields = Yields::new();
    let task = TaskRef { index: 0 };
    for (node, id) in [(NodeId(1), 11), (NodeId(3), 22), (NodeId(2), 33)] {
        match instrumented_yield_id(&input, &mut yields, task, node, TaskId(1), id) {
            YieldId::Skip(future) => assert_eq!(future.poll(), Polled::Ready),
            YieldId::Yield { .. } => panic!("held"),
        }
    }
    let none = InputSchedule::new();
    assert!(matches!(
        instrumented_yield_id(&none, &mut yields, task, NodeId(2), TaskId(1), 11),
        YieldId::Skip(SkipScheduler)
    ));
    // nothing was reached, so that the first task is still held
    assert_eq!(reach(&input, &mut yields, 11), None);
    let mut input = input;
    assert_eq!(poll(&mut input, &mut yields, 11, "a"), (Polled::Pending, None));
}

#[test]
fn plain_point_goes_on_when_its_capture_is_taken() {
    let mut yields = Yields::new();
    let task = TaskRef { index: 3 };
    let mut future = instrumented_yield();
    assert!(future.may_poll(&yields));
    assert_eq!(future.poll(&mut yields, task, "a"), Polled::Pending);
    assert!(future.may_poll(&yields));
    assert_eq!(future.poll(&mut yields, task, "a"), Polled::Pending);
    // another point before control returns to the scheduler
    assert!(!instrumented_yield().may_poll(&yields));
    let capture = take_last_capture(&mut yields).unwrap();
    assert_eq!(capture.task, task);
    assert_eq!(capture.waker, "a");
    assert!(!capture.backtrace.frames().is_empty());
    assert!(take_last_capture(&mut yields).is_none());
    assert_eq!(future.poll(&mut yields, task, "a"), Polled::Ready);

    let mut other = instrumented_yield();
    assert_eq!(other.poll(&mut yields, task, "b"), Polled::Pending);
    assert!(!future.may_poll(&yields));
    assert!(other.may_poll(&yields));
}

#[test]
fn tracking_leaves_the_points_as_they_are() {
    let mut input = schedule(&[11, 22]);
    let mut yields = Yields::new();
    assert_eq!(reach(&input, &mut yields, 22), None);
    track_run(&mut yields, TaskId(22), "node-2".to_string());
    track_run(&mut yields, TaskId(22), "main".to_string());
    assert_eq!(reach(&input, &mut yields, 11), None);
    assert_eq!(poll(&mut input, &mut yields, 11, "a"), (Polled::Ready, None));
    assert_eq!(poll(&mut input, &mut yields, 22, "b"), (Polled::Ready, None));
}

#[test]
fn schedule_is_completed_whatever_the_order_of_arrival() {
    let orders = [
        [11, 22, 33],
        [11, 33, 22],
        [22, 11, 33],
        [22, 33, 11],
        [33, 11, 22],
        [33, 22, 11],
    ];
    for order in orders {
        for late in [false, true] {
            let mut input = schedule(&[22, 33, 11]);
            let mut yields = Yields::new();
            let mut awake: Vec<usize> = Vec::new();
            let mut passed: Vec<usize> = Vec::new();
            let point = |waker: &str| waker.parse::<usize>().unwrap();
            for id in order {
                if let Some(waker) = reach(&input, &mut yields, id) {
                    awake.push(point(waker));
                }
                awake.push(id);
                // a task is polled as soon as it is awake, or when all have arrived
                while !late && !awake.is_empty() {
                    let id = awake.remove(0);
                    let waker = match id {
                        11 => "11",
                        22 => "22",
                        _ => "33",
                    };
                    let (polled, wake) = poll(&mut input, &mut yields, id, waker);
                    if polled == Polled::Ready {
                        passed.push(id);
                    }
                    awake.extend(wake.map(point));
                }
                assert!(passed.is_empty() || id == order[2]);
            }
            while !awake.is_empty() {
                let id = awake.remove(0);
                let waker = match id {
                    11 => "11",
                    22 => "22",
                    _ => "33",
                };
                let (polled, wake) = poll(&mut input, &mut yields, id, waker);
                if polled == Polled::Ready {
                    passed.push(id);
                }
                awake.extend(wake.map(point));
            }
            assert_eq!(passed, vec![22, 33, 11]);
            assert_eq!(size_of_yield_tasks(&yields), 0);
        }
    }
}

#[test]
fn yielded_task_is_woken_when_control_returns_to_the_scheduler() {
    let mut yields = Yields::new();
    assert_eq!(return_to_scheduler(&mut yields), None);
    let task = TaskRef { index: 3 };
    let mut future = instrumented_yield();
    assert_eq!(future.poll(&mut yields, task, "a"), Polled::Pending);
    assert_eq!(return_to_scheduler(&mut yields), Some("a"));
    assert_eq!(return_to_scheduler(&mut yields), None);
    assert_eq!(future.poll(&mut yields, task, "a"), Polled::Ready);
}
