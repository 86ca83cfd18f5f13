//! Utilities to help manage asynchronous tasks.

use tokio::sync::oneshot;
use tokio::task::JoinError;
use vstd::prelude::*;

verus! {

// OUTSIDE TYPES ***************************************************************

/// Reason for which a task did not complete.
#[verifier::external_type_specification]
#[verifier::external_body]
pub struct ExJoinError(JoinError);

/// Whether the given error was caused by a task that panicked.
pub uninterp spec fn caused_by_panic(error: JoinError) -> bool;

/// Determines whether the given error was caused by a task that panicked.
///
/// `tokio::task::JoinError::is_panic` is trusted to depend on the error only.
pub assume_specification[ JoinError::is_panic ](error: &JoinError) -> (r: bool)
    ensures
        r == caused_by_panic(*error),
;

// TYPE DEFINITIONS ************************************************************

/// Wrapper around the handle of a task of type `H` that has the ability to send
/// a graceful shutdown signal to the underlying task, allowing it to clean up
/// before terminating. The task returns values of type `R`.
pub enum ControlledJoinHandle<H, R> {
    ActiveTask(H, oneshot::Sender<()>),
    Returned(R),
}

/// What has to be done in order to obtain the result of a task.
pub enum JoinStep<H, R> {
    /// The given task has to be awaited. If it could not be signaled to quit and
    /// has not finished yet, then it has to be aborted.
    Await { task: H, signaled: bool },

    /// The task has already returned the given result.
    Returned(R),
}

/// Wrapper utility that allows for initialization funcions to return both a
/// value and a handle for a task that was spawned during initialization.
#[derive(Debug)]
pub struct ValueJoinHandle<T, H> {
    value: T,
    task: H,
}

/// Collects the handles of tasks that were spawned elsewhere.
#[derive(Debug)]
pub struct TaskSetBuilder<H> {
    tasks: Vec<H>,
}

/// How a task ended.
#[derive(Clone, Copy, Debug, PartialEq, Eq, Structural)]
pub enum TaskOutcome {
    /// There are no tasks left.
    NoTask,

    /// The task completed.
    Completed,

    /// The task was cancelled.
    Cancelled,

    /// The task panicked.
    Panicked,
}

// TYPE IMPLS ******************************************************************

impl<H, R> ControlledJoinHandle<H, R> {
    /// Creates a handle for the given task, which quits upon receiving a signal
    /// from the given channel.
    pub fn new(task: H, control_tx: oneshot::Sender<()>) -> (r: Self)
        ensures
            r == ControlledJoinHandle::<H, R>::ActiveTask(task, control_tx),
    {
        ControlledJoinHandle::ActiveTask(task, control_tx)
    }

    /// Returns the underlying task, unless it has returned a result.
    pub fn active_task(&self) -> (r: Option<&H>)
        ensures
            match *self {
                ControlledJoinHandle::ActiveTask(task, _) => r == Some(&task),
                ControlledJoinHandle::Returned(_) => r is None,
            },
    {
        match self {
            ControlledJoinHandle::ActiveTask(task, _) => Some(task),
            ControlledJoinHandle::Returned(_) => None,
        }
    }

    /// Returns the underlying task in order to wait for it, unless it has
    /// returned a result.
    pub fn active_task_mut(&mut self) -> (r: Option<&mut H>)
        ensures
            match *old(self) {
                ControlledJoinHandle::ActiveTask(task, tx) => {
                    &&& r matches Some(t)
                    &&& *t == task
                    &&& *final(self) == ControlledJoinHandle::<H, R>::ActiveTask(*final(t), tx)
                },
                ControlledJoinHandle::Returned(_) => r is None && *final(self) == *old(self),
            },
    {
        match self {
            ControlledJoinHandle::ActiveTask(task, _) => Some(task),
            ControlledJoinHandle::Returned(_) => None,
        }
    }

    /// Records the result of the underlying task, unless there already is one.
    pub fn complete(&mut self, result: R)
        ensures
            match *old(self) {
                ControlledJoinHandle::ActiveTask(..) => *final(self) == ControlledJoinHandle::<
                    H,
                    R,
                >::Returned(result),
                ControlledJoinHandle::Returned(_) => *final(self) == *old(self),
            },
    {
        if let ControlledJoinHandle::ActiveTask(..) = self {
            *self = ControlledJoinHandle::Returned(result);
        }
    }

    /// Signals the underlying task to quit over its control channel, unless it has
    /// returned a result already.
    pub fn signal(self) -> (r: JoinStep<H, R>)
        ensures
            match self {
                ControlledJoinHandle::ActiveTask(task, control_tx) => {
                    &&& r matches JoinStep::Await { task: t, signaled }
                    &&& t == task
                    &&& exists|sent: Result<(), ()>|
                        {
                            &&& #[trigger] call_ensures(
                                oneshot::Sender::<()>::send,
                                (control_tx, ()),
                                sent,
                            )
                            &&& signaled == sent is Ok
                        }
                },
                ControlledJoinHandle::Returned(result) => r == JoinStep::<H, R>::Returned(result),
            },
    {
        match self {
            ControlledJoinHandle::ActiveTask(task, control_tx) => {
                let signaled = control_tx.send(()).is_ok();
                JoinStep::Await { task, signaled }
            },
            ControlledJoinHandle::Returned(result) => JoinStep::Returned(result),
        }
    }
}

/// Determines whether a task that was to quit has to be aborted: that is the
/// case if it closed its control handle but is still running.
pub fn needs_abort(signaled: bool, finished: bool) -> (r: bool)
    ensures
        r == (!signaled && !finished),
{
    !signaled && !finished
}

impl<T, H> ValueJoinHandle<T, H> {
    /// The value and the task.
    pub closed spec fn view(&self) -> (T, H) {
        (self.value, self.task)
    }

    /// Creates a new [`ValueJoinHandle`] from the given value and task handle.
    pub fn new(value: T, task: H) -> (r: Self)
        ensures
            r.view() == (value, task),
    {
        ValueJoinHandle { value, task }
    }

    /// Consumes the [`ValueJoinHandle`], returning the underlying value and
    /// task handle.
    pub fn into_tuple(self) -> (r: (T, H))
        ensures
            r == self.view(),
    {
        (self.value, self.task)
    }

    /// Takes an immutable reference to the underlying value.
    pub fn as_ref(&self) -> (r: &T)
        ensures
            *r == self.view().0,
    {
        &self.value
    }

    /// Takes a mutable reference to the underlying value.
    pub fn as_mut(&mut self) -> (r: &mut T)
        ensures
            *r == old(self).view().0,
            final(self).view() == (*final(r), old(self).view().1),
    {
        &mut self.value
    }
}

impl<H> TaskSetBuilder<H> {
    /// The tasks collected so far.
    pub closed spec fn view(&self) -> Seq<H> {
        self.tasks@
    }

    /// Creates an empty [`TaskSetBuilder`].
    pub fn new() -> (r: Self)
        ensures
            r.view() == Seq::<H>::empty(),
    {
        TaskSetBuilder { tasks: Vec::new() }
    }

    /// Adds the given task handle to the list of tasks.
    pub fn insert(&mut self, handle: H)
        ensures
            final(self).view() == old(self).view().push(handle),
    {
        self.tasks.push(handle);
    }

    /// Destructures the given [`ValueJoinHandle`] before inserting just the
    /// task handle into the set, returing the associated value.
    pub fn detaching_insert<T>(&mut self, handle: ValueJoinHandle<T, H>) -> (r: T)
        ensures
            r == handle.view().0,
            final(self).view() == old(self).view().push(handle.view().1),
    {
        self.tasks.push(handle.task);
        handle.value
    }

    /// Consumes this [`TaskSetBuilder`] and returns the collected tasks, unless
    /// there are none.
    pub fn build(self) -> (r: Option<Vec<H>>)
        ensures
            match r {
                Some(tasks) => tasks@ == self.view() && self.view().len() > 0,
                None => self.view().len() == 0,
            },
    {
        if self.tasks.len() > 0 {
            Some(self.tasks)
        } else {
            None
        }
    }
}

impl TaskOutcome {
    /// How the task with the given result ended.
    pub open spec fn of(task: Option<Result<(), JoinError>>) -> TaskOutcome {
        match task {
            Some(Ok(())) => TaskOutcome::Completed,
            Some(Err(e)) => if caused_by_panic(e) {
                TaskOutcome::Panicked
            } else {
                TaskOutcome::Cancelled
            },
            None => TaskOutcome::NoTask,
        }
    }
}

// FUNCTIONS *******************************************************************

/// Determines how a task ended from the result of awaiting it.
pub fn task_outcome(task: Option<Result<(), JoinError>>) -> (r: TaskOutcome)
    ensures
        r == TaskOutcome::of(task),
{
    match task {
        Some(Ok(())) => TaskOutcome::Completed,
        Some(Err(e)) => if e.is_panic() {
            TaskOutcome::Panicked
        } else {
            TaskOutcome::Cancelled
        },
        None => TaskOutcome::NoTask,
    }
}

/// Determines whether a task that ended in the given way needs to initiate a
/// shutdown of the application, and why.
pub fn check_task_outcome(outcome: TaskOutcome) -> (r: Result<(), String>)
    ensures
        if outcome is Panicked {
            r matches Err(e) && e@ == "Fatal error in application task"@
        } else {
            r is Ok
        },
{
    match outcome {
        TaskOutcome::Panicked => Err("Fatal error in application task".to_owned()),
        _ => Ok(()),
    }
}

/// Indicates whether a finished application task panicked and needs to initiate
/// a shutdown.
pub fn handle_task_complete(task: Option<Result<(), JoinError>>) -> (r: Result<(), String>)
    ensures
        if TaskOutcome::of(task) is Panicked {
            r matches Err(e) && e@ == "Fatal error in application task"@
        } else {
            r is Ok
        },
{
    check_task_outcome(task_outcome(task))
}

} // verus!
