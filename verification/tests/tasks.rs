//! Tasks and nodes, one operation at a time.

use msim::id::{NodeId, TaskId};
use msim::info::TaskInfo;
use msim::model::{Picked, TaskRef};
use msim::tasks::{output_of, TaskHandle, TaskNodeHandle, WaitEvent};

type Tasks = TaskHandle<&'static str, u8>;

fn picked(tasks: &mut Tasks, index: usize) -> (&'static str, &'static str) {
    match tasks.pick(index) {
        Picked::Drop(runnable, _) => ("drop", runnable),
        Picked::HeldBack => ("held back", ""),
        Picked::Run(runnable, _) => ("run", runnable),
    }
}

#[test]
fn nodes_are_numbered_from_one() {
    let mut tasks = Tasks::new();
    let a = tasks.create_node(None);
    let b = tasks.create_node(Some("validator".to_string()));
    assert_eq!(a.id(&tasks), NodeId(1));
    assert_eq!(b.id(&tasks), NodeId(2));
    assert_eq!(tasks.info(a.info).name(), "node-1");
    assert_eq!(tasks.info(b.info).name(), "validator");
    assert_eq!(tasks.info(a.info).task_id(), TaskId(1));
    assert_eq!(tasks.info(b.info).task_id(), TaskId(2));
    assert_eq!(tasks.get_node(NodeId(1)), Some(a));
    assert_eq!(tasks.get_node(NodeId(3)), None);
}

#[test]
fn node_is_there_once_it_is_installed() {
    let mut tasks = Tasks::new();
    let node = tasks.allocate_node(None);
    assert!(!tasks.has_node(NodeId(1)));
    assert_eq!(tasks.get_node(NodeId(1)), None);
    assert!(tasks.install_node(&node, Some(7)).is_empty());
    assert!(tasks.has_node(NodeId(1)));
    assert_eq!(tasks.init_of(NodeId(1)), Some(&7));
    assert_eq!(tasks.init_of(NodeId(2)), None);
}

#[test]
fn installing_a_node_again_gives_up_what_it_held_back() {
    let mut tasks = Tasks::new();
    let node = tasks.create_node(None);
    tasks.pause(NodeId(1));
    tasks.send("a", node.info);
    assert_eq!(picked(&mut tasks, 0), ("held back", ""));
    assert_eq!(tasks.install_node(&node, None), vec![("a", node.info)]);
}

#[test]
fn spawned_task_has_its_own_identifier() {
    let mut tasks = Tasks::new();
    let node = tasks.create_node(Some("n".to_string()));
    let first = node.spawn(&mut tasks);
    let second = node.spawn(&mut tasks);
    assert_eq!(tasks.info(first.info).task_id(), TaskId(2));
    assert_eq!(tasks.info(second.info).task_id(), TaskId(3));
    assert_eq!(tasks.info(second.info).node(), NodeId(1));
    assert_eq!(tasks.info(second.info).name(), "n");
    assert!(tasks.info(first.info) != tasks.info(second.info));
    assert_eq!(node.spawn_local(&tasks, None).info, node.info);
    assert_eq!(node.spawn_local(&tasks, Some(first.info)).info, first.info);
}

#[test]
fn spawned_task_sees_that_its_node_is_killed() {
    let mut tasks = Tasks::new();
    let node = tasks.create_node(None);
    let other = tasks.create_node(None);
    let ticket = node.spawn(&mut tasks);
    let other_ticket = other.spawn(&mut tasks);
    assert!(!*ticket.killed.borrow());
    assert!(!ticket.killed.has_changed().unwrap());
    let actions = tasks.kill(NodeId(1));
    assert_eq!(actions.disable_timers, NodeId(1));
    assert!(*ticket.killed.borrow());
    assert!(ticket.killed.has_changed().unwrap());
    assert!(tasks.info(ticket.info).is_killed());
    assert!(!*other_ticket.killed.borrow());
    assert!(!tasks.info(other_ticket.info).is_killed());
}

#[test]
fn killed_node_drops_what_is_ready_and_what_it_held_back() {
    let mut tasks = Tasks::new();
    let node = tasks.create_node(None);
    let task = node.spawn(&mut tasks).info;
    tasks.pause(NodeId(1));
    tasks.send("held", task);
    tasks.send("ready", node.info);
    assert_eq!(picked(&mut tasks, 0), ("held back", ""));
    assert_eq!(tasks.kill(NodeId(1)).dropped, vec![("held", task)]);
    assert_eq!(picked(&mut tasks, 0), ("drop", "ready"));
    // the node is there, and new tasks of it run
    let fresh = tasks.get_node(NodeId(1)).unwrap();
    assert!(fresh != node);
    assert_eq!(tasks.info(fresh.info).task_id(), TaskId(1));
    tasks.send("new", fresh.info);
    assert_eq!(picked(&mut tasks, 0), ("run", "new"));
    assert_eq!(tasks.kill(NodeId(1)).dropped.len(), 0);
    assert!(tasks.info(fresh.info).is_killed());
    assert!(tasks.info(task).is_killed());
}

#[test]
fn restart_starts_the_initial_task_for_a_fresh_handle() {
    let mut tasks = Tasks::new();
    let node = tasks.allocate_node(None);
    tasks.install_node(&node, Some(9));
    let actions = tasks.restart(NodeId(1));
    assert_eq!(actions.killed.disable_timers, NodeId(1));
    assert_eq!(actions.enable_timers, NodeId(1));
    assert_eq!(actions.init, tasks.get_node(NodeId(1)));
    assert_eq!(tasks.init_of(NodeId(1)), Some(&9));
    assert!(tasks.info(node.info).is_killed());
    assert!(!tasks.info(actions.init.unwrap().info).is_killed());

    tasks.create_node(None);
    assert_eq!(tasks.restart(NodeId(2)).init, None);
}

#[test]
fn paused_tasks_wait_and_are_resumed_in_order() {
    let mut tasks = Tasks::new();
    let node = tasks.create_node(None);
    let other = tasks.create_node(None);
    let task = node.spawn(&mut tasks).info;
    tasks.pause(NodeId(1));
    tasks.pause(NodeId(1));
    assert!(tasks.info(task).is_paused());
    assert!(!tasks.info(other.info).is_paused());
    tasks.send("a", task);
    tasks.send("b", node.info);
    tasks.send("c", other.info);
    assert_eq!(picked(&mut tasks, 0), ("held back", ""));
    // the last has taken the place of the first
    assert_eq!(picked(&mut tasks, 0), ("run", "c"));
    assert_eq!(picked(&mut tasks, 0), ("held back", ""));
    assert_eq!(tasks.ready_len(), 0);
    tasks.resume(NodeId(1));
    tasks.resume(NodeId(1));
    assert_eq!(tasks.ready_len(), 2);
    assert!(!tasks.info(task).is_paused());
    match tasks.pick(0) {
        Picked::Run(runnable, as_task) => {
            assert_eq!(runnable, "a");
            assert_eq!(as_task, task);
        }
        _ => panic!("not run"),
    }
    match tasks.pick(0) {
        Picked::Run(runnable, as_task) => {
            assert_eq!(runnable, "b");
            assert_eq!(as_task, node.info);
        }
        _ => panic!("not run"),
    }
}

#[test]
fn task_that_is_already_killed_is_not_told_again() {
    let mut tasks = Tasks::new();
    let node = tasks.create_node(None);
    let mut first = node.spawn(&mut tasks);
    tasks.pause(NodeId(1));
    tasks.resume(NodeId(1));
    tasks.send("a", first.info);
    assert!(!first.killed.has_changed().unwrap());
    tasks.kill(NodeId(1));
    assert!(*first.killed.borrow_and_update());
    let second = tasks.get_node(NodeId(1)).unwrap().spawn(&mut tasks);
    assert!(!*second.killed.borrow());
    tasks.delete_node(NodeId(1));
    assert!(!first.killed.has_changed().unwrap());
    assert!(second.killed.has_changed().unwrap());
    assert!(*second.killed.borrow());
}

#[test]
fn noted_nodes_are_resumed() {
    let mut tasks = Tasks::new();
    let a = tasks.create_node(None);
    let b = tasks.create_node(None);
    let c = tasks.create_node(None);
    for (id, runnable, node) in [(1, "a", &a), (2, "b", &b), (3, "c", &c)] {
        tasks.pause(NodeId(id));
        tasks.send(runnable, node.info);
        assert_eq!(picked(&mut tasks, 0), ("held back", ""));
    }
    tasks.resume_paused_node_id();
    assert_eq!(tasks.ready_len(), 0);
    tasks.push_paused_node_id(NodeId(2));
    tasks.push_paused_node_id(NodeId(1));
    tasks.push_paused_node_id(NodeId(2));
    assert!(tasks.has_noted_nodes());
    tasks.resume_paused_node_id();
    assert_eq!(tasks.ready_len(), 2);
    assert_eq!(picked(&mut tasks, 0), ("run", "b"));
    assert_eq!(picked(&mut tasks, 0), ("run", "a"));
    assert!(tasks.info(c.info).is_paused());
    tasks.push_paused_node_id(NodeId(9));
    assert!(!tasks.has_noted_nodes());
}

#[test]
fn deleted_node_is_gone() {
    let mut tasks = Tasks::new();
    let node = tasks.create_node(None);
    let actions = tasks.delete_node(NodeId(1));
    assert_eq!(actions.disable_timers, NodeId(1));
    assert_eq!(actions.dropped.len(), 0);
    assert_eq!(tasks.get_node(NodeId(1)), None);
    assert!(tasks.info(node.info).is_killed());
    // its number is not given again
    assert_eq!(tasks.create_node(None).id(&tasks), NodeId(2));
}

#[test]
fn clearing_empties_the_ready_queue() {
    let mut tasks = Tasks::new();
    let main = tasks.spawn_on_main_task();
    assert_eq!(tasks.info(main).node(), NodeId(0));
    assert_eq!(tasks.info(main).task_id(), TaskId(0));
    assert_eq!(tasks.info(main).name(), "main");
    tasks.send("a", main);
    tasks.send("b", main);
    assert_eq!(tasks.clear_inner(), vec![("a", main), ("b", main)]);
    assert_eq!(tasks.ready_len(), 0);
}

#[test]
fn current_handle() {
    let task = TaskRef { index: 4 };
    assert_eq!(TaskNodeHandle::try_current(Some(task), true), Some(TaskNodeHandle { info: task }));
    assert_eq!(TaskNodeHandle::try_current(Some(task), false), None);
    assert_eq!(TaskNodeHandle::try_current(None, true), None);
    assert_eq!(TaskNodeHandle::current(Some(task), true).info, task);
}

#[test]
fn tasks_are_the_same_by_identifier() {
    let a = TaskInfo::new(NodeId(1), TaskId(5), "a".to_string());
    let b = TaskInfo::new(NodeId(2), TaskId(5), "b".to_string());
    let c = TaskInfo::new(NodeId(1), TaskId(6), "a".to_string());
    assert!(a == b);
    assert!(a != c);
    let span = b.span();
    assert_eq!(span.id, NodeId(2));
    assert_eq!(span.task_id, TaskId(5));
    assert_eq!(span.name, "b");
}

#[test]
fn flags_of_a_task() {
    let mut info = TaskInfo::new(NodeId(1), TaskId(5), "a".to_string());
    assert!(!info.is_paused() && !info.is_killed());
    info.set_paused(true);
    assert!(info.is_paused());
    info.set_paused(false);
    assert!(!info.is_paused());
    let receiver = info.subscribe_killed();
    info.set_killed();
    assert!(info.is_killed());
    assert!(*receiver.borrow());
}

#[test]
fn output_of_a_task() {
    assert_eq!(output_of(WaitEvent::Output(3)), Some(3));
    assert_eq!(output_of(WaitEvent::<i32>::KilledChanged(false)), None);
}
