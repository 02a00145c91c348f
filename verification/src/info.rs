//! What the executor knows of a task.

use crate::id::{NodeId, TaskId};
use vstd::prelude::*;

verus! {

#[verifier::external_type_specification]
#[verifier::external_body]
#[verifier::reject_recursive_types(T)]
pub struct ExWatchSender<T>(tokio::sync::watch::Sender<T>);

#[verifier::external_type_specification]
#[verifier::external_body]
#[verifier::reject_recursive_types(T)]
pub struct ExWatchReceiver<T>(tokio::sync::watch::Receiver<T>);

/// The value that the channel of a `tokio::sync::watch::Sender` holds.
pub uninterp spec fn watched(sender: tokio::sync::watch::Sender<bool>) -> bool;

/// A watch channel that holds `value`.
///
/// Trusted: `tokio::sync::watch::channel`. The channel holds the value that it is made with,
/// and goes on holding it when the receiver is dropped.
#[verifier::external_body]
fn watch_channel(value: bool) -> (sender: tokio::sync::watch::Sender<bool>)
    ensures
        watched(sender) == value,
{
    tokio::sync::watch::channel(value).0
}

/// Trusted: `tokio::sync::watch::Sender::borrow`. It reads the value that the channel holds.
#[verifier::external_body]
fn watch_borrow(sender: &tokio::sync::watch::Sender<bool>) -> (value: bool)
    ensures
        value == watched(*sender),
{
    *sender.borrow()
}

/// Two senders, or one sender at two moments, send on one channel, so that the receivers of the
/// first are told what the second has sent.
pub uninterp spec fn same_channel(
    before: tokio::sync::watch::Sender<bool>,
    after: tokio::sync::watch::Sender<bool>,
) -> bool;

/// Trusted: `tokio::sync::watch::Sender::send_replace`. The channel then holds `value`,
/// whether or not it has receivers; the value that it held is returned. The sender keeps its
/// channel: the receivers that were subscribed to it before are those that are told, and woken if
/// they wait for a change.
#[verifier::external_body]
fn watch_send_replace(sender: &mut tokio::sync::watch::Sender<bool>, value: bool) -> (previous:
    bool)
    ensures
        watched(*final(sender)) == value,
        previous == watched(*old(sender)),
        same_channel(*old(sender), *final(sender)),
{
    sender.send_replace(value)
}

/// The receiver that `tokio::sync::watch::Sender::subscribe` makes on a sender.
pub uninterp spec fn subscribed(
    sender: tokio::sync::watch::Sender<bool>,
) -> tokio::sync::watch::Receiver<bool>;

/// Trusted: `tokio::sync::watch::Sender::subscribe`. The receiver belongs to the channel of the
/// sender, and has seen the value that the channel holds; a sender makes no other kind. What the
/// receiver will see lies in the future, and of that the contract says nothing.
#[verifier::external_body]
fn watch_subscribe(sender: &tokio::sync::watch::Sender<bool>) -> (receiver:
    tokio::sync::watch::Receiver<bool>)
    ensures
        receiver == subscribed(*sender),
{
    sender.subscribe()
}

/// The node that a task runs on.
pub struct NodeInfo {
    pub node: NodeId,
    pub name: String,
}

/// What labels the log records of a task.
pub struct SpanFields {
    pub id: NodeId,
    pub task_id: TaskId,
    pub name: String,
}

/// A task, as contracts speak of it.
#[verifier::ext_equal]
pub struct InfoView {
    pub node: NodeId,
    pub name: Seq<char>,
    pub task_id: TaskId,
    /// The task should be paused.
    pub paused: bool,
    /// The task should no longer be executed.
    pub killed: bool,
}

impl InfoView {
    /// A task that is neither paused nor killed.
    pub open spec fn fresh(node: NodeId, task_id: TaskId, name: Seq<char>) -> InfoView {
        InfoView { node, name, task_id, paused: false, killed: false }
    }

    /// The task may be run.
    pub open spec fn runnable(self) -> bool {
        !self.paused && !self.killed
    }
}

/// A task.
pub struct TaskInfo {
    inner: NodeInfo,
    /// A flag indicating that the task should be paused.
    paused: bool,
    /// A flag indicating that the task should no longer be executed. It can be waited for.
    killed: tokio::sync::watch::Sender<bool>,
    task_id: TaskId,
}

impl View for TaskInfo {
    type V = InfoView;

    closed spec fn view(&self) -> InfoView {
        InfoView {
            node: self.inner.node,
            name: self.inner.name@,
            task_id: self.task_id,
            paused: self.paused,
            killed: watched(self.killed),
        }
    }
}

impl TaskInfo {
    /// A task of the node `node_id`, called `name`, that is neither paused nor killed.
    pub fn new(node_id: NodeId, task_id: TaskId, name: String) -> (info: TaskInfo)
        ensures
            info@ == InfoView::fresh(node_id, task_id, name@),
    {
        TaskInfo {
            inner: NodeInfo { node: node_id, name },
            paused: false,
            killed: watch_channel(false),
            task_id,
        }
    }

    /// The node that the task runs on.
    pub fn node(&self) -> (node: NodeId)
        ensures
            node == self@.node,
    {
        self.inner.node
    }

    /// The name of the node that the task runs on.
    pub fn name(&self) -> (name: String)
        ensures
            name@ == self@.name,
    {
        self.inner.name.clone()
    }

    /// The identifier of the task.
    pub fn task_id(&self) -> (task_id: TaskId)
        ensures
            task_id == self@.task_id,
    {
        self.task_id
    }

    /// What labels the log records of the task.
    pub fn span(&self) -> (span: SpanFields)
        ensures
            span.id == self@.node,
            span.task_id == self@.task_id,
            span.name@ == self@.name,
    {
        SpanFields { id: self.inner.node, task_id: self.task_id, name: self.inner.name.clone() }
    }

    /// Whether the task should no longer be executed.
    pub fn is_killed(&self) -> (killed: bool)
        ensures
            killed == self@.killed,
    {
        watch_borrow(&self.killed)
    }

    /// Whether the task should be paused.
    pub fn is_paused(&self) -> (paused: bool)
        ensures
            paused == self@.paused,
    {
        self.paused
    }

    /// Marks the task as one that should, or should no longer, be paused.
    pub fn set_paused(&mut self, paused: bool)
        ensures
            final(self)@ == (InfoView { paused, ..old(self)@ }),
            final(self).killed_receiver() == old(self).killed_receiver(),
    {
        self.paused = paused;
    }

    /// Marks the task as one that should no longer be executed, and tells the receivers on which
    /// it waits for that.
    pub fn set_killed(&mut self)
        ensures
            final(self)@ == (InfoView { killed: true, ..old(self)@ }),
            final(self).keeps_channel_of(*old(self)),
    {
        watch_send_replace(&mut self.killed, true);
    }

    /// The receiver on which the task can wait for being killed.
    pub closed spec fn killed_receiver(&self) -> tokio::sync::watch::Receiver<bool> {
        subscribed(self.killed)
    }

    /// What was sent to make the task what it is was sent on the channel that it had as `before`:
    /// its receivers were told.
    pub closed spec fn keeps_channel_of(&self, before: TaskInfo) -> bool {
        same_channel(before.killed, self.killed)
    }

    /// A receiver on which the task can wait for being killed.
    pub fn subscribe_killed(&self) -> (receiver: tokio::sync::watch::Receiver<bool>)
        ensures
            receiver == self.killed_receiver(),
    {
        watch_subscribe(&self.killed)
    }
}

impl PartialEq for TaskInfo {
    /// Two tasks are the same task when they have the same identifier.
    fn eq(&self, other: &TaskInfo) -> (same: bool) {
        self.task_id == other.task_id
    }
}

impl Eq for TaskInfo {

}

impl vstd::std_specs::cmp::PartialEqSpecImpl for TaskInfo {
    open spec fn obeys_eq_spec() -> bool {
        true
    }

    open spec fn eq_spec(&self, other: &TaskInfo) -> bool {
        self@.task_id == other@.task_id
    }
}

} // verus!
