//! Utility types and functions that have broad applicable use throughout the
//! application.

pub mod fmt;
pub mod laws;
pub mod task;
pub mod text;
pub mod text_laws;

use tokio::sync::oneshot;
use tokio::sync::watch;
use vstd::prelude::*;

verus! {

// OUTSIDE TYPES ***************************************************************

/// Receiving half of a channel for a single value.
#[verifier::external_type_specification]
#[verifier::external_body]
#[verifier::reject_recursive_types(T)]
pub struct ExOneshotReceiver<T>(oneshot::Receiver<T>);

/// Sending half of a channel for a single value.
#[verifier::external_type_specification]
#[verifier::external_body]
#[verifier::reject_recursive_types(T)]
pub struct ExOneshotSender<T>(oneshot::Sender<T>);

/// Reason for which no value could be received from a channel.
#[verifier::external_type_specification]
#[verifier::external_body]
pub struct ExOneshotRecvError(oneshot::error::RecvError);

/// Receiving half of a channel for the latest of a series of values.
#[verifier::external_type_specification]
#[verifier::external_body]
#[verifier::reject_recursive_types(T)]
pub struct ExWatchReceiver<T>(watch::Receiver<T>);

/// Creates a channel for a single value.
///
/// `tokio::sync::oneshot::channel` returns the two halves of a new channel.
/// Nothing is claimed about them.
pub assume_specification<T>[ oneshot::channel::<T> ]() -> (r: (
    oneshot::Sender<T>,
    oneshot::Receiver<T>,
));

/// Sends a value over a channel for a single value.
///
/// `tokio::sync::oneshot::Sender::send` is trusted to hand back the value that
/// was to be sent if it fails. Whether it fails is left open, since that depends
/// on whether the receiving half still exists.
pub assume_specification<T>[ oneshot::Sender::<T>::send ](tx: oneshot::Sender<T>, t: T) -> (r:
    Result<(), T>)
    ensures
        r matches Err(value) ==> value == t,
;

/// Determines whether there is an unseen value on a channel for the latest of a
/// series of values, or `None` if the sender no longer exists.
///
/// Calls `tokio::sync::watch::Receiver::has_changed`. Nothing is claimed about
/// the result, since it depends on the other half of the channel.
#[verifier::external_body]
fn watch_has_changed(rx: &watch::Receiver<bool>) -> (r: Option<bool>) {
    rx.has_changed().ok()
}

/// Reads the latest value on a channel for the latest of a series of values.
///
/// Calls `tokio::sync::watch::Receiver::borrow_and_update`. Nothing is claimed
/// about the result, since it depends on the other half of the channel.
#[verifier::external_body]
fn watch_latest(rx: &mut watch::Receiver<bool>) -> (r: bool) {
    *rx.borrow_and_update()
}

// TYPE DEFINITIONS ************************************************************

/// Internal state representation used by [`Lessor`].
#[verifier::reject_recursive_types(T)]
enum LessorState<T> {
    Owned(T),
    Leased(oneshot::Receiver<T>),
}

/// Mechanism for sharing ownership over a value without using any form of
/// mutual exclusion.
///
/// By default, the `Lessor` owns the value it wraps, and can be accessed as
/// normal via [`Lessor::as_ref`]. Ownership of the value can be passed using
/// [`Lessor::lease`], which returns the leased value to the `Lessor` when the
/// lease is released. Values cannot be taken from a lease.
#[verifier::reject_recursive_types(T)]
pub struct Lessor<T> {
    state: LessorState<T>,
}

/// Wraps an owned value provided by a [`Lessor`], returning ownership upon
/// being released.
///
/// A raw owned value cannot be taken from a `Lease`.
#[verifier::reject_recursive_types(T)]
pub struct Lease<T> {
    value: T,
    tx: oneshot::Sender<T>,
}

/// What is known about the channel for application shutdown notifications.
#[derive(Clone, Copy, Debug, PartialEq, Eq, Structural)]
pub enum ShutdownSignal {
    /// The sending half of the channel no longer exists.
    Closed,

    /// There was no notification since the last one.
    Unchanged,

    /// There was a notification, which tells whether to keep running.
    Changed(bool),
}

// TYPE IMPLS ******************************************************************

/// Whether the given halves belong to the same channel: they are what the
/// creation of a channel for a single value resulted in.
pub open spec fn is_channel<T>(tx: oneshot::Sender<T>, rx: oneshot::Receiver<T>) -> bool {
    call_ensures(oneshot::channel::<T>, (), (tx, rx))
}

/// Whether the given value was sent over the channel with the given receiving
/// half.
pub open spec fn is_returned<T>(value: T, rx: oneshot::Receiver<T>) -> bool {
    exists|tx: oneshot::Sender<T>, sent: Result<(), T>| #[trigger]
        is_channel(tx, rx) && #[trigger] call_ensures(
            oneshot::Sender::<T>::send,
            (tx, value),
            sent,
        )
}

impl<T> Lessor<T> {
    /// The controlled value, if it is currently owned by the `Lessor`.
    pub closed spec fn view(&self) -> Option<T> {
        match self.state {
            LessorState::Owned(value) => Some(value),
            LessorState::Leased(_) => None,
        }
    }

    /// The channel over which the current lease returns the controlled value, if
    /// the value is leased.
    pub closed spec fn receiver(&self) -> Option<oneshot::Receiver<T>> {
        match self.state {
            LessorState::Owned(_) => None,
            LessorState::Leased(rx) => Some(rx),
        }
    }

    /// The value is either owned, or there is a channel over which it is returned.
    pub proof fn law_owned_or_leased(&self)
        ensures
            self.view() is Some <==> self.receiver() is None,
    {
    }

    /// Creates a new Lessor responsible for the given value.
    pub fn new(value: T) -> (r: Self)
        ensures
            r.view() == Some(value),
            r.receiver() is None,
    {
        Lessor { state: LessorState::Owned(value) }
    }

    /// Takes an immutable reference to the controlled value, if currently
    /// owned by the `Lessor`.
    pub fn as_ref(&self) -> (r: Option<&T>)
        ensures
            match self.view() {
                Some(value) => r == Some(&value),
                None => r is None,
            },
    {
        match &self.state {
            LessorState::Owned(value) => Some(value),
            LessorState::Leased(_) => None,
        }
    }

    /// Creates a [`Lease`] object providing exclusive access to the controlled
    /// value, if the value is currently owned by the `Lessor`. Returns `None`
    /// if the value is currently leased.
    ///
    /// Once called, the value that the lease returns must be given to
    /// [`Lessor::reclaim`] for the `Lessor` to regain ownership of the
    /// controlled value.
    pub fn lease(&mut self) -> (r: Option<Lease<T>>)
        ensures
            final(self).view() is None,
            match old(self).view() {
                Some(value) => {
                    &&& r matches Some(lease)
                    &&& lease.view() == value
                    &&& final(self).receiver() matches Some(rx)
                    &&& is_channel(lease.channel(), rx)
                },
                None => r is None && final(self).receiver() == old(self).receiver(),
            },
    {
        let (tx, rx) = oneshot::channel::<T>();
        let mut state = LessorState::Leased(rx);
        std::mem::swap(&mut state, &mut self.state);

        match state {
            LessorState::Owned(value) => Some(Lease { value, tx }),
            state => {
                self.state = state;
                None
            },
        }
    }

    /// Returns the channel over which the current lease returns the controlled
    /// value. If the value is currently owned by the `Lessor`, there is nothing
    /// to wait for.
    pub fn release_channel(&mut self) -> (r: Option<&mut oneshot::Receiver<T>>)
        ensures
            r is Some <==> old(self).view() is None,
            final(self).view() == old(self).view(),
            match old(self).receiver() {
                Some(rx) => {
                    &&& r matches Some(channel)
                    &&& *channel == rx
                    &&& final(self).receiver() == Some(*final(channel))
                },
                None => r is None && final(self).receiver() is None,
            },
    {
        match &mut self.state {
            LessorState::Owned(_) => None,
            LessorState::Leased(rx) => Some(rx),
        }
    }

    /// Retakes ownership of the controlled value after it has been returned by
    /// the current lease.
    pub fn reclaim(&mut self, value: T)
        requires
            old(self).view() is None,
        ensures
            final(self).view() == Some(value),
            final(self).receiver() is None,
    {
        self.state = LessorState::Owned(value);
    }
}

impl<T> Lease<T> {
    /// The leased value.
    pub closed spec fn view(&self) -> T {
        self.value
    }

    /// The channel over which the leased value is returned.
    pub closed spec fn channel(&self) -> oneshot::Sender<T> {
        self.tx
    }

    /// Takes an immutable reference to the leased value.
    pub fn as_ref(&self) -> (r: &T)
        ensures
            *r == self.view(),
    {
        &self.value
    }

    /// Takes a mutable reference to the leased value.
    pub fn as_mut(&mut self) -> (r: &mut T)
        ensures
            *r == old(self).view(),
            final(self).view() == *final(r),
            final(self).channel() == old(self).channel(),
    {
        &mut self.value
    }

    /// Returns the leased value to the [`Lessor`] by sending it over the channel
    /// of this lease. If the `Lessor` went out of scope while the lease was
    /// active, then the value is handed back instead.
    pub fn release(self) -> (r: Result<(), T>)
        ensures
            call_ensures(oneshot::Sender::<T>::send, (self.channel(), self.view()), r),
            r matches Err(value) ==> value == self.view(),
    {
        self.tx.send(self.value)
    }
}

impl ShutdownSignal {
    /// Whether the application is to keep running.
    pub open spec fn keeps_running(self) -> bool {
        match self {
            ShutdownSignal::Closed => false,
            ShutdownSignal::Unchanged => true,
            ShutdownSignal::Changed(running) => running,
        }
    }

    /// Determines whether the application is to keep running.
    pub fn is_running(&self) -> (r: bool)
        ensures
            r == self.keeps_running(),
    {
        match self {
            ShutdownSignal::Closed => false,
            ShutdownSignal::Unchanged => true,
            ShutdownSignal::Changed(running) => *running,
        }
    }
}

// PUBLIC HELPER FUNCTIONS *****************************************************

/// Whether reading the latest value on the given channel may result in the given
/// value.
pub closed spec fn may_read(rx: watch::Receiver<bool>, value: bool) -> bool {
    exists|latest: &mut watch::Receiver<bool>|
        *latest == rx && #[trigger] call_ensures(watch_latest, (latest,), value)
}

/// Whether checking the given channel for application shutdown notifications may
/// result in the given signal: the channel is asked whether there is an unseen
/// notification, and read only if there is one.
pub closed spec fn may_signal(rx: watch::Receiver<bool>, signal: ShutdownSignal) -> bool {
    match signal {
        ShutdownSignal::Closed => call_ensures(watch_has_changed, (&rx,), None),
        ShutdownSignal::Unchanged => call_ensures(watch_has_changed, (&rx,), Some(false)),
        ShutdownSignal::Changed(running) => {
            &&& call_ensures(watch_has_changed, (&rx,), Some(true))
            &&& may_read(rx, running)
        },
    }
}

/// Checks what is known about the given channel for application shutdown
/// notifications without waiting. Only a notification marks the channel as seen.
fn check_signal(rx: &mut watch::Receiver<bool>) -> (r: ShutdownSignal)
    ensures
        may_signal(*old(rx), r),
        r !is Changed ==> *final(rx) == *old(rx),
{
    match watch_has_changed(rx) {
        Some(has_changed) => if has_changed {
            let running = watch_latest(rx);
            assert(may_read(*old(rx), running));
            ShutdownSignal::Changed(running)
        } else {
            ShutdownSignal::Unchanged
        },
        None => ShutdownSignal::Closed,
    }
}

/// Checks whether the application is to keep running, as far as the given
/// channel for application shutdown has been issued a notification, without
/// waiting.
pub fn check_shutdown_rx(rx: &mut watch::Receiver<bool>) -> (r: bool)
    ensures
        exists|signal: ShutdownSignal|
            {
                &&& #[trigger] may_signal(*old(rx), signal)
                &&& r == signal.keeps_running()
                &&& signal !is Changed ==> *final(rx) == *old(rx)
            },
{
    let signal = check_signal(rx);
    signal.is_running()
}

/// Attempts to send the provided value on the given channel, if it has not yet
/// been closed or dropped, returning the value if unsuccessful.
pub fn opt_oneshot_try_send<T>(tx: &mut Option<oneshot::Sender<T>>, value: T) -> (r: Result<(), T>)
    ensures
        *final(tx) is None,
        match *old(tx) {
            Some(sender) => call_ensures(oneshot::Sender::<T>::send, (sender, value), r),
            None => r == Err::<(), T>(value),
        },
        r matches Err(v) ==> v == value,
{
    match tx.take() {
        Some(tx) => tx.send(value),
        None => Err(value),
    }
}

// LAWS ************************************************************************

/// A leased value comes back with the changes that were made to it.
///
/// If a value is leased, changed and released, then the changed value is sent over
/// the channel from which the lessor receives. Once that value has been received
/// and reclaimed, the lessor owns it, so that it can be leased again.
pub proof fn law_leased_value_returns<T>(value: T, changed: T)
    ensures
        forall|
            lessor: &mut Lessor<T>,
            lease: &mut Lease<T>,
            leased: &mut T,
            sent: Result<(), T>,
            waiting: &mut Lessor<T>,
        |
            #![trigger
                call_ensures(Lessor::<T>::lease, (lessor,), Some(*lease)),
                call_ensures(Lease::<T>::as_mut, (lease,), leased),
                call_ensures(Lease::<T>::release, (*final(lease),), sent),
                call_ensures(Lessor::<T>::reclaim, (waiting, changed), ())]
            {
                &&& lessor.view() == Some(value)
                &&& call_ensures(Lessor::<T>::lease, (lessor,), Some(*lease))
                &&& call_ensures(Lease::<T>::as_mut, (lease,), leased)
                &&& *final(leased) == changed
                &&& call_ensures(Lease::<T>::release, (*final(lease),), sent)
                &&& *waiting == *final(lessor)
                &&& call_ensures(Lessor::<T>::reclaim, (waiting, changed), ())
            } ==> {
                &&& *leased == value
                &&& final(lessor).view() is None
                &&& is_returned(changed, final(lessor).receiver()->0)
                &&& final(waiting).view() == Some(changed)
            },
{
}

} // verus!
