//! Handles on tasks: to wait for their output, and to abort them.

use async_task::FallibleTask;
use vstd::prelude::*;

verus! {

#[verifier::external_type_specification]
#[verifier::external_body]
#[verifier::reject_recursive_types(T)]
#[verifier::reject_recursive_types(M)]
pub struct ExFallibleTask<T, M>(FallibleTask<T, M>);

/// Trusted: `async_task::FallibleTask::is_finished`. It reads how far the task has come, which
/// is not a matter of its arguments, so that the contract says nothing.
#[verifier::external_body]
fn task_is_finished<T>(task: &FallibleTask<T>) -> (finished: bool) {
    task.is_finished()
}

/// Trusted: `async_task::FallibleTask::detach`. The task goes on running, and its output is
/// dropped. It returns nothing.
#[verifier::external_body]
fn task_detach<T>(task: FallibleTask<T>) {
    task.detach()
}

/// Trusted: dropping an `async_task::FallibleTask`. The task is cancelled: it is not run again,
/// and its future is dropped. It returns nothing.
#[verifier::external_body]
fn task_cancel<T>(task: FallibleTask<T>) {
    drop(task)
}

/// The error of a task that has no output.
#[derive(Debug, PartialEq, Eq, Clone, Copy, Structural)]
pub struct JoinError {
    /// The task that was cancelled.
    pub cancelled: u64,
}

/// What a poll comes to.
#[derive(Debug, PartialEq, Eq)]
pub enum Poll<T> {
    Ready(T),
    Pending,
}

/// A task that has got handles, and who still holds one.
#[verifier::reject_recursive_types(T)]
pub struct Entry<T> {
    /// The task, until it is aborted, taken or let go.
    pub task: Option<FallibleTask<T>>,
    /// The join handle is still held.
    pub joined: bool,
    /// How many abort handles are still held.
    pub aborters: u64,
}

/// The tasks that have got handles.
#[verifier::reject_recursive_types(T)]
pub struct JoinTable<T> {
    entries: Vec<Entry<T>>,
    first_id: u64,
}

/// The tasks that have got handles, as contracts speak of them.
#[verifier::ext_equal]
#[verifier::reject_recursive_types(T)]
pub struct Joins<T> {
    pub entries: Seq<Entry<T>>,
    /// The identifier of the first handle. The others follow.
    pub first_id: u64,
}

impl<T> View for JoinTable<T> {
    type V = Joins<T>;

    closed spec fn view(&self) -> Joins<T> {
        Joins { entries: self.entries@, first_id: self.first_id }
    }
}

impl<T> Joins<T> {
    /// The task at `slot`, if it is still there.
    pub open spec fn task(self, slot: usize) -> Option<FallibleTask<T>> {
        if slot < self.entries.len() {
            self.entries[slot as int].task
        } else {
            None
        }
    }

    /// How many abort handles on the task at `slot` are held.
    pub open spec fn aborters(self, slot: usize) -> u64 {
        if slot < self.entries.len() {
            self.entries[slot as int].aborters
        } else {
            0
        }
    }

    /// What is known at `slot` is `entry`.
    pub open spec fn with(self, slot: usize, entry: Entry<T>) -> Joins<T> {
        if slot < self.entries.len() {
            Joins { entries: self.entries.update(slot as int, entry), ..self }
        } else {
            self
        }
    }

    /// The tasks once `task` has got a join handle.
    pub open spec fn registered(self, task: FallibleTask<T>) -> Joins<T> {
        Joins {
            entries: self.entries.push(Entry { task: Some(task), joined: true, aborters: 0 }),
            ..self
        }
    }

    /// The task at `slot` is no longer there.
    pub open spec fn without(self, slot: usize) -> Joins<T> {
        self.with(slot, Entry { task: None, ..self.entries[slot as int] })
    }

    /// One more abort handle on the task at `slot` is held.
    pub open spec fn shared(self, slot: usize) -> Joins<T> {
        let entry = self.entries[slot as int];
        self.with(slot, Entry { aborters: (entry.aborters + 1) as u64, ..entry })
    }

    /// `entry`, which is left as it is while anyone holds a handle. When nobody does, the task is
    /// let go.
    pub open spec fn left(entry: Entry<T>) -> Entry<T> {
        if entry.joined || entry.aborters > 0 {
            entry
        } else {
            Entry { task: None, ..entry }
        }
    }

    /// The join handle at `slot` is given up.
    pub open spec fn join_handle_gone(self, slot: usize) -> Joins<T> {
        self.with(slot, Self::left(Entry { joined: false, ..self.entries[slot as int] }))
    }

    /// An abort handle at `slot` is given up.
    pub open spec fn abort_handle_gone(self, slot: usize) -> Joins<T> {
        let entry = self.entries[slot as int];
        let aborters = if entry.aborters > 0 {
            (entry.aborters - 1) as u64
        } else {
            0
        };
        self.with(slot, Self::left(Entry { aborters, ..entry }))
    }

    /// The task at `slot`, if it is there now and is no longer `after`, was let go: it was
    /// detached.
    pub open spec fn lets_go(self, slot: usize, after: Joins<T>) -> bool {
        self.task(slot) is Some && after.task(slot) is None ==> Self::was_detached(
            self.task(slot)->0,
        )
    }

    /// `task` was detached: it goes on running.
    pub closed spec fn was_detached(task: FallibleTask<T>) -> bool {
        call_ensures(task_detach::<T>, (task,), ())
    }

    /// `task` was cancelled: it does not run again.
    pub closed spec fn was_cancelled(task: FallibleTask<T>) -> bool {
        call_ensures(task_cancel::<T>, (task,), ())
    }

    /// `finished` is an answer that `task` gives when it is asked whether it is finished. What it
    /// answers changes as it runs.
    pub closed spec fn reports(task: FallibleTask<T>, finished: bool) -> bool {
        call_ensures(task_is_finished::<T>, (&task,), finished)
    }

    /// `finished` is the answer for the task at `slot`: its own if it is there, and `true` if not.
    pub open spec fn answers(self, slot: usize, finished: bool) -> bool {
        match self.task(slot) {
            Some(task) => Self::reports(task, finished),
            None => finished,
        }
    }
}

/// Whether a task is finished, given what it reports of itself if it is there at all.
pub fn finished_if_gone(reported: Option<bool>) -> (finished: bool)
    ensures
        finished == match reported {
            Some(finished) => finished,
            None => true,
        },
{
    match reported {
        Some(finished) => finished,
        None => true,
    }
}

impl<T> JoinTable<T> {
    /// No task.
    pub fn new() -> (table: JoinTable<T>)
        ensures
            table@ == (Joins::<T> { entries: Seq::empty(), first_id: 1 }),
    {
        Self::starting_at(1)
    }

    /// No task. The first handle gets the identifier `first_id`.
    pub fn starting_at(first_id: u64) -> (table: JoinTable<T>)
        ensures
            table@ == (Joins::<T> { entries: Seq::empty(), first_id }),
    {
        JoinTable { entries: Vec::new(), first_id }
    }

    /// A join handle on `task`.
    pub fn register(&mut self, task: FallibleTask<T>) -> (handle: JoinHandle)
        ensures
            handle.slot == old(self)@.entries.len(),
            handle.id == old(self)@.first_id.wrapping_add(handle.slot as u64),
            final(self)@ == old(self)@.registered(task),
            final(self)@.entries == old(self)@.entries.push(
                Entry { task: Some(task), joined: true, aborters: 0 },
            ),
    {
        let slot = self.entries.len();
        self.entries.push(Entry { task: Some(task), joined: true, aborters: 0 });
        JoinHandle { slot, id: self.first_id.wrapping_add(slot as u64) }
    }

    fn abort(&mut self, slot: usize)
        ensures
            final(self)@ == old(self)@.without(slot),
            old(self)@.task(slot) matches Some(task) ==> Joins::<T>::was_cancelled(task),
    {
        if slot < self.entries.len() {
            if let Some(task) = self.entries[slot].task.take() {
                task_cancel(task);
            }
        }
    }

    fn is_finished(&self, slot: usize) -> (finished: bool)
        ensures
            self@.answers(slot, finished),
    {
        if slot >= self.entries.len() {
            return finished_if_gone(None);
        }
        finished_if_gone(
            match &self.entries[slot].task {
                Some(task) => Some(task_is_finished(task)),
                None => None,
            },
        )
    }

    /// Lets the task at `slot` go if nobody holds a handle on it.
    fn leave(&mut self, slot: usize)
        requires
            slot < old(self)@.entries.len(),
        ensures
            final(self)@ == old(self)@.with(
                slot,
                Joins::<T>::left(old(self)@.entries[slot as int]),
            ),
            old(self)@.lets_go(slot, final(self)@),
    {
        if !self.entries[slot].joined && self.entries[slot].aborters == 0 {
            if let Some(task) = self.entries[slot].task.take() {
                task_detach(task);
            }
        }
    }
}

/// An owned permission to join on a task (await its termination).
#[derive(Debug, PartialEq, Eq, Structural)]
pub struct JoinHandle {
    /// Where the task stands in its table.
    pub slot: usize,
    pub id: u64,
}

impl JoinHandle {
    /// Abort the task associated with the handle.
    pub fn abort<T>(&self, table: &mut JoinTable<T>)
        ensures
            final(table)@ == old(table)@.without(self.slot),
            old(table)@.task(self.slot) matches Some(task) ==> Joins::<T>::was_cancelled(task),
    {
        table.abort(self.slot);
    }

    /// Check if the task associated with the handle is finished. One that has been aborted is.
    pub fn is_finished<T>(&self, table: &JoinTable<T>) -> (finished: bool)
        ensures
            table@.answers(self.slot, finished),
    {
        table.is_finished(self.slot)
    }

    /// Whether the task associated with the handle is still there.
    pub fn has_task<T>(&self, table: &JoinTable<T>) -> (has: bool)
        ensures
            has == table@.task(self.slot) is Some,
    {
        self.slot < table.entries.len() && table.entries[self.slot].task.is_some()
    }

    /// Cancel the task when what is returned is dropped.
    pub fn cancel_on_drop<T>(self, table: &mut JoinTable<T>) -> (task: FallibleTask<T>)
        requires
            old(table)@.task(self.slot) is Some,
        ensures
            old(table)@.task(self.slot) == Some(task),
            final(table)@ == old(table)@.without(self.slot).join_handle_gone(self.slot),
    {
        let task = table.entries[self.slot].task.take().unwrap();
        table.entries[self.slot].joined = false;
        task
    }

    /// How many abort handles on the same task are held.
    pub fn aborters<T>(&self, table: &JoinTable<T>) -> (aborters: u64)
        ensures
            aborters == table@.aborters(self.slot),
    {
        if self.slot < table.entries.len() {
            table.entries[self.slot].aborters
        } else {
            0
        }
    }

    /// Return an AbortHandle for the same task.
    pub fn abort_handle<T>(&self, table: &mut JoinTable<T>) -> (handle: AbortHandle)
        requires
            old(table)@.aborters(self.slot) < u64::MAX,
        ensures
            handle.slot == self.slot,
            handle.id == self.id,
            final(table)@ == old(table)@.shared(self.slot),
    {
        if self.slot < table.entries.len() {
            let aborters = table.entries[self.slot].aborters;
            table.entries[self.slot].aborters = aborters + 1;
        }
        AbortHandle { slot: self.slot, id: self.id }
    }

    /// The task, to be polled where it stands. If it is gone, the poll has come to an error
    /// already.
    pub fn begin_poll<'a, T>(&self, table: &'a mut JoinTable<T>) -> (task: Result<
        &'a mut FallibleTask<T>,
        JoinError,
    >)
        ensures
            match old(table)@.task(self.slot) {
                Some(before) => {
                    &&& task matches Ok(task)
                    &&& *task == before
                    &&& final(table)@ == old(table)@.with(
                        self.slot,
                        Entry {
                            task: Some(*final(task)),
                            ..old(table)@.entries[self.slot as int]
                        },
                    )
                },
                None => {
                    &&& task matches Err(error)
                    &&& error == (JoinError { cancelled: self.id })
                    &&& final(table)@ == old(table)@
                },
            },
    {
        if self.slot >= table.entries.len() {
            return Err(JoinError { cancelled: self.id });
        }
        match &mut table.entries[self.slot].task {
            Some(task) => Ok(task),
            None => Err(JoinError { cancelled: self.id }),
        }
    }

    /// What a poll of the task comes to for the handle: a task that has ended without output was
    /// cancelled.
    pub fn finish_poll<T>(&self, polled: Poll<Option<T>>) -> (result: Poll<Result<T, JoinError>>)
        ensures
            result == match polled {
                Poll::Ready(Some(output)) => Poll::Ready(Ok(output)),
                Poll::Ready(None) => Poll::Ready(Err(JoinError { cancelled: self.id })),
                Poll::Pending => Poll::Pending,
            },
    {
        match polled {
            Poll::Ready(Some(output)) => Poll::Ready(Ok(output)),
            Poll::Ready(None) => Poll::Ready(Err(JoinError { cancelled: self.id })),
            Poll::Pending => Poll::Pending,
        }
    }

    /// The handle is given up. The task goes on running. It can still be aborted as long as an
    /// abort handle on it is held; if none is, it is detached.
    pub fn detach<T>(self, table: &mut JoinTable<T>)
        ensures
            final(table)@ == old(table)@.join_handle_gone(self.slot),
            old(table)@.lets_go(self.slot, final(table)@),
    {
        if self.slot < table.entries.len() {
            table.entries[self.slot].joined = false;
            table.leave(self.slot);
        }
    }
}

/// AbortHandle allows aborting, but not awaiting the return value.
#[derive(Debug, PartialEq, Eq, Structural)]
pub struct AbortHandle {
    /// Where the task stands in its table.
    pub slot: usize,
    pub id: u64,
}

impl AbortHandle {
    /// Abort the task.
    pub fn abort<T>(&self, table: &mut JoinTable<T>)
        ensures
            final(table)@ == old(table)@.without(self.slot),
            old(table)@.task(self.slot) matches Some(task) ==> Joins::<T>::was_cancelled(task),
    {
        table.abort(self.slot);
    }

    /// Check if the task associated with the handle is finished. One that has been aborted is.
    pub fn is_finished<T>(&self, table: &JoinTable<T>) -> (finished: bool)
        ensures
            table@.answers(self.slot, finished),
    {
        table.is_finished(self.slot)
    }

    /// The handle is given up. If it was the last handle on the task, the task is detached, and
    /// goes on running.
    pub fn detach<T>(self, table: &mut JoinTable<T>)
        ensures
            final(table)@ == old(table)@.abort_handle_gone(self.slot),
            old(table)@.lets_go(self.slot, final(table)@),
    {
        if self.slot < table.entries.len() {
            let aborters = table.entries[self.slot].aborters;
            if aborters > 0 {
                table.entries[self.slot].aborters = aborters - 1;
            }
            table.leave(self.slot);
        }
    }
}

} // verus!
