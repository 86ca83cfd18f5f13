//! Utility types to help bridge the callbacks of the server with asynchronous
//! tasks.

use tokio::sync::oneshot;
use vstd::prelude::*;

use crate::util;

use super::introspect::OperationState;
use super::stream::StreamState;
use super::ContextState;

verus! {

// TYPE DEFINITIONS ************************************************************

/// Generic representation of state for an entity that initializes
/// asynchronously.
#[derive(Debug)]
pub enum InitializingState<S> {
    /// The entity is currently initializing.
    Initializing,

    /// The entity has initialized and is ready for use.
    Initialized,

    /// The entity failed to properly initialize, with the wrapped value
    /// providing a specific state or error value.
    InitializationFailed(S),
}

/// Trait implemented for the states of entities that initialize asynchronously.
pub trait InitializingEntity: Sized {
    /// The state of initialization that this state represents.
    spec fn initialization(self) -> InitializingState<Self>;

    /// Determines the state of initialization that this state represents.
    fn get_initialization_state(&self) -> (r: InitializingState<Self>)
        ensures
            r == self.initialization(),
    ;
}

/// Tracks an entity that initializes asynchronously. The underlying object is
/// unavailable until its state of initialization is either `Initialized` or
/// `InitializationFailed`, the result of which is returned accordingly as a
/// [`Result`].
#[derive(Debug)]
pub struct InitializingFuture<T> {
    entity: Option<T>,
}

/// What to do after an entity that initializes asynchronously has been polled.
#[derive(Debug)]
pub enum InitializingPoll<S, T> {
    /// The task has to be woken on the next change of state.
    Pending,

    /// The entity has been initialized, or has failed to do so. It must no
    /// longer wake the task.
    Ready(Result<T, S>),
}

/// Helper for asynchronously determining when a recording audio stream has new
/// data to be read, where `W` wakes the task that waits for data.
///
/// Stream handler loops are likely to iterate much faster than PulseAudio can
/// provide data, leading to wasted CPU cycles. This allows handlers to be
/// awoken only when data becomes available.
#[derive(Debug)]
pub struct StreamReadNotifier<W> {
    waker: Option<W>,
}

/// Progress of waiting for data, used in tandem with [`StreamReadNotifier`]. This
/// type should not be instantiated directly.
#[derive(Debug)]
pub struct StreamReadFuture {
    has_polled: bool,
}

/// Reports the result of an operation of the server once.
#[verifier::reject_recursive_types(T)]
pub struct OperationReport<T> {
    tx: Option<oneshot::Sender<Result<T, OperationState>>>,
}

// STATES **********************************************************************

impl InitializingEntity for ContextState {
    open spec fn initialization(self) -> InitializingState<ContextState> {
        match self {
            ContextState::Failed => InitializingState::InitializationFailed(self),
            ContextState::Terminated => InitializingState::InitializationFailed(self),
            ContextState::Ready => InitializingState::Initialized,
            _ => InitializingState::Initializing,
        }
    }

    fn get_initialization_state(&self) -> (r: InitializingState<ContextState>) {
        match *self {
            ContextState::Failed | ContextState::Terminated => {
                InitializingState::InitializationFailed(*self)
            },
            ContextState::Ready => InitializingState::Initialized,
            _ => InitializingState::Initializing,
        }
    }
}

impl InitializingEntity for StreamState {
    open spec fn initialization(self) -> InitializingState<StreamState> {
        match self {
            StreamState::Unconnected => InitializingState::Initializing,
            StreamState::Creating => InitializingState::Initializing,
            StreamState::Failed => InitializingState::InitializationFailed(self),
            StreamState::Terminated => InitializingState::InitializationFailed(self),
            StreamState::Ready => InitializingState::Initialized,
        }
    }

    fn get_initialization_state(&self) -> (r: InitializingState<StreamState>) {
        match *self {
            StreamState::Unconnected | StreamState::Creating => InitializingState::Initializing,
            StreamState::Failed | StreamState::Terminated => {
                InitializingState::InitializationFailed(*self)
            },
            StreamState::Ready => InitializingState::Initialized,
        }
    }
}

// INITIALIZATION **************************************************************

impl<T> InitializingFuture<T> {
    /// The entity, as long as it has not been returned.
    pub closed spec fn view(&self) -> Option<T> {
        self.entity
    }

    /// Begins to wait for the given entity to initialize.
    pub fn new(entity: T) -> (r: Self)
        ensures
            r.view() == Some(entity),
    {
        InitializingFuture { entity: Some(entity) }
    }

    /// Returns the entity, as long as it is not available.
    pub fn entity(&mut self) -> (r: Option<&mut T>)
        ensures
            match old(self).view() {
                Some(entity) => r matches Some(e) && *e == entity && final(self).view() == Some(
                    *final(e),
                ),
                None => r is None && final(self).view() is None,
            },
    {
        self.entity.as_mut()
    }

    /// Checks whether the entity is available, given its current state.
    pub fn poll<S: InitializingEntity>(&mut self, state: S) -> (r: InitializingPoll<S, T>)
        requires
            old(self).view() is Some,
        ensures
            match state.initialization() {
                InitializingState::Initializing => {
                    &&& r is Pending
                    &&& final(self).view() == old(self).view()
                },
                InitializingState::Initialized => {
                    &&& r == InitializingPoll::<S, T>::Ready(Ok(old(self).view()->0))
                    &&& final(self).view() is None
                },
                InitializingState::InitializationFailed(state) => {
                    &&& r == InitializingPoll::<S, T>::Ready(Err(state))
                    &&& final(self).view() == old(self).view()
                },
            },
    {
        match state.get_initialization_state() {
            InitializingState::Initializing => InitializingPoll::Pending,
            InitializingState::Initialized => {
                let entity = self.entity.take().unwrap();
                InitializingPoll::Ready(Ok(entity))
            },
            InitializingState::InitializationFailed(state) => InitializingPoll::Ready(Err(state)),
        }
    }
}

// READ NOTIFICATIONS **********************************************************

impl<W> StreamReadNotifier<W> {
    /// What wakes the task that waits for data, if there is one.
    pub closed spec fn view(&self) -> Option<W> {
        self.waker
    }

    /// Creates a new notifier for an audio recording stream.
    pub fn new() -> (r: Self)
        ensures
            r.view() is None,
    {
        StreamReadNotifier { waker: None }
    }

    /// Begins to wait for new data to become available in the associated
    /// recording stream.
    pub fn await_data(&self) -> (r: StreamReadFuture)
        ensures
            !r.polled(),
    {
        StreamReadFuture::new()
    }

    /// Notifies that new data has become available. Returns what wakes the task
    /// that waits for data, if there is one.
    pub fn notify(&mut self) -> (r: Option<W>)
        ensures
            r == old(self).view(),
            final(self).view() is None,
    {
        self.waker.take()
    }

    /// Abandons to wait for data. This prevents a task from being woken
    /// accidentally that no longer waits for it.
    pub fn cancel(&mut self)
        ensures
            final(self).view() is None,
    {
        self.waker = None;
    }
}

impl StreamReadFuture {
    /// Whether the task has begun to sleep until data becomes available.
    pub closed spec fn polled(&self) -> bool {
        self.has_polled
    }

    /// Begins to wait for data.
    pub fn new() -> (r: Self)
        ensures
            !r.polled(),
    {
        StreamReadFuture { has_polled: false }
    }

    /// Checks whether data is available. The task sleeps the first time, and is
    /// woken by the notifier. Once it has reawoken, there is data.
    pub fn poll<W>(&mut self, notifier: &mut StreamReadNotifier<W>, waker: W) -> (r: bool)
        ensures
            r == old(self).polled(),
            final(self).polled(),
            final(notifier).view() == (if old(self).polled() {
                old(notifier).view()
            } else {
                Some(waker)
            }),
    {
        if self.has_polled {
            true
        } else {
            notifier.waker = Some(waker);
            self.has_polled = true;
            false
        }
    }
}

// OPERATIONS ******************************************************************

/// The outcome of an operation in the given state, if it has ended. There is no
/// state if the handle of the operation has been dropped.
pub open spec fn operation_outcome<T>(state: Option<OperationState>, value: Option<T>) -> Option<
    Result<T, OperationState>,
> {
    match state {
        Some(OperationState::Done) => match value {
            Some(value) => Some(Ok(value)),
            None => Some(Err(OperationState::Done)),
        },
        Some(OperationState::Cancelled) => Some(Err(OperationState::Cancelled)),
        None => Some(Err(OperationState::Cancelled)),
        Some(OperationState::Running) => None,
    }
}

/// Determines the outcome of an operation in the given state, if it has ended.
/// The value that was collected is available unless it is still in use.
pub fn determine_outcome<T>(state: Option<OperationState>, value: Option<T>) -> (r: Option<
    Result<T, OperationState>,
>)
    ensures
        r == operation_outcome(state, value),
{
    match state {
        Some(OperationState::Done) => match value {
            Some(value) => Some(Ok(value)),
            None => Some(Err(OperationState::Done)),
        },
        Some(OperationState::Cancelled) => Some(Err(OperationState::Cancelled)),
        None => Some(Err(OperationState::Cancelled)),
        Some(OperationState::Running) => None,
    }
}

impl<T> OperationReport<T> {
    /// The channel over which the result is going to be reported, unless that has
    /// been done.
    pub closed spec fn channel(&self) -> Option<oneshot::Sender<Result<T, OperationState>>> {
        self.tx
    }

    /// Creates a report that sends the result over the given channel.
    pub fn new(tx: oneshot::Sender<Result<T, OperationState>>) -> (r: Self)
        ensures
            r.channel() == Some(tx),
    {
        OperationReport { tx: Some(tx) }
    }

    /// Handles a change of the state of the operation. Its outcome is reported
    /// if it has ended, unless this was done before. Returns whether the handle
    /// of the operation is no longer needed.
    pub fn state_changed(&mut self, state: Option<OperationState>, value: Option<T>) -> (r: bool)
        ensures
            r == final(self).channel() is None,
            match (old(self).channel(), operation_outcome(state, value)) {
                (Some(tx), Some(outcome)) => {
                    &&& final(self).channel() is None
                    &&& exists|sent: Result<(), Result<T, OperationState>>| #[trigger]
                        call_ensures(
                            oneshot::Sender::<Result<T, OperationState>>::send,
                            (tx, outcome),
                            sent,
                        )
                },
                _ => final(self).channel() == old(self).channel(),
            },
    {
        if let Some(outcome) = determine_outcome(state, value) {
            let _ = util::opt_oneshot_try_send(&mut self.tx, outcome);
        }
        self.tx.is_none()
    }
}

/// Interprets what was received from a report. If nothing was received, then the
/// operation was cancelled.
pub fn received_outcome<T>(received: Option<Result<T, OperationState>>) -> (r: Result<
    T,
    OperationState,
>)
    ensures
        r == (match received {
            Some(outcome) => outcome,
            None => Err(OperationState::Cancelled),
        }),
{
    match received {
        Some(outcome) => outcome,
        None => Err(OperationState::Cancelled),
    }
}

// LAWS ************************************************************************

/// Every operation that is no longer running has an outcome, which is a success
/// if and only if the operation is done and a value is available.
pub proof fn law_operation_outcome<T>(state: Option<OperationState>, value: Option<T>)
    ensures
        operation_outcome(state, value) is None <==> state == Some(OperationState::Running),
        operation_outcome(state, value) matches Some(Ok(_)) <==> state == Some(
            OperationState::Done,
        ) && value is Some,
{
}

/// The outcome of an operation reaches the receiving half of the channel of its
/// report: the value that was collected if the operation completes, and that it
/// was cancelled if it is. Nothing is reported while the operation is running.
pub proof fn law_outcome_is_reported<T>(
    tx: oneshot::Sender<Result<T, OperationState>>,
    rx: oneshot::Receiver<Result<T, OperationState>>,
    state: Option<OperationState>,
    value: Option<T>,
)
    requires
        util::is_channel(tx, rx),
    ensures
        forall|report: &mut OperationReport<T>, reported: bool|
            #![trigger
                call_ensures(OperationReport::<T>::new, (tx,), *report),
                call_ensures(OperationReport::<T>::state_changed, (report, state, value), reported)]
            {
                &&& call_ensures(OperationReport::<T>::new, (tx,), *report)
                &&& call_ensures(
                    OperationReport::<T>::state_changed,
                    (report, state, value),
                    reported,
                )
            } ==> match state {
                Some(OperationState::Running) => !reported && final(report).channel() == Some(tx),
                Some(OperationState::Done) => reported && util::is_returned(
                    match value {
                        Some(value) => Ok(value),
                        None => Err(OperationState::Done),
                    },
                    rx,
                ),
                _ => reported && util::is_returned(
                    Err::<T, OperationState>(OperationState::Cancelled),
                    rx,
                ),
            },
{
}

} // verus!
