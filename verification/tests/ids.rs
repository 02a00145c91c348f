//! How identifiers are written out.

use msim::id::{NodeId, TaskId};

#[test]
fn task_id_text() {
    assert_eq!(TaskId(0).to_string(), "Task(0)");
    assert_eq!(TaskId(7).to_string(), "Task(7)");
    assert_eq!(TaskId(120).to_string(), "Task(120)");
    assert_eq!(TaskId(u64::MAX).to_string(), "Task(18446744073709551615)");
}

#[test]
fn node_id_text() {
    assert_eq!(NodeId(10).to_string(), "Node(10)");
    assert_eq!(NodeId(9876543210).to_string(), "Node(9876543210)");
}

#[test]
fn node_zero() {
    assert_eq!(NodeId::zero(), NodeId(0));
}
