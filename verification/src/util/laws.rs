//! Laws that hold of tasks, of leases, and of the lengths of texts.

use tokio::sync::{oneshot, watch};
use tokio::task::JoinError;
use vstd::prelude::*;

use super::fmt;
use super::fmt::DisplayLength;
use super::task;
use super::task::{ControlledJoinHandle, JoinStep, TaskOutcome, TaskSetBuilder, ValueJoinHandle};
use super::text;
use super::{Lease, Lessor, ShutdownSignal};

verus! {

// LEASES **********************************************************************

/// A value is either with its lessor or lent, and can be lent only while it is there.
/// What is lent is the value itself, and it returns over the channel that the lessor
/// keeps.
pub proof fn law_lending<T>(value: T, lessor: Lessor<T>, r: Option<&T>)
    ensures
        forall|new: Lessor<T>| #[trigger]
            call_ensures(Lessor::<T>::new, (value,), new) ==> new.view() == Some(value),
        forall|l: &mut Lessor<T>, lease: Option<Lease<T>>| #[trigger]
            call_ensures(Lessor::<T>::lease, (l,), lease) ==> {
                &&& lease is Some <==> l.view() is Some
                &&& final(l).view() is None
                &&& lease matches Some(lease) ==> l.view() == Some(lease.view()) && (
                final(l).receiver() matches Some(rx) && super::is_channel(lease.channel(), rx))
                &&& lease is None ==> final(l).receiver() == l.receiver()
            },
        forall|l: &mut Lessor<T>| #[trigger]
            call_ensures(Lessor::<T>::reclaim, (l, value), ()) ==> final(l).view() == Some(value),
        call_ensures(Lessor::<T>::as_ref, (&lessor,), r) ==> {
            &&& r is Some <==> lessor.view() is Some
            &&& r matches Some(v) ==> lessor.view() == Some(*v)
        },
{
}

/// A lease gives access to the value, and hands it back when it is released. If there
/// is nobody left to hand it to, then it is returned.
pub proof fn law_leases<T>(lease: Lease<T>, r: &T, released: Result<(), T>)
    ensures
        call_ensures(Lease::<T>::as_ref, (&lease,), r) ==> *r == lease.view(),
        forall|l: &mut Lease<T>, v: &mut T| #[trigger]
            call_ensures(Lease::<T>::as_mut, (l,), v) ==> *v == l.view() && final(l).view()
                == *final(v) && final(l).channel() == l.channel(),
        call_ensures(Lease::<T>::release, (lease,), released) ==> {
            &&& call_ensures(
                oneshot::Sender::<T>::send,
                (lease.channel(), lease.view()),
                released,
            )
            &&& released matches Err(value) ==> value == lease.view()
        },
{
}

/// A value is sent over an optional channel at most once. If it could not be sent,
/// then it is returned.
pub proof fn law_sent_once<T>(value: T)
    ensures
        forall|tx: &mut Option<oneshot::Sender<T>>, r: Result<(), T>| #[trigger]
            call_ensures(super::opt_oneshot_try_send::<T>, (tx, value), r) ==> {
                &&& *final(tx) is None
                &&& *tx is None ==> r == Err::<(), T>(value)
                &&& *tx matches Some(sender) ==> call_ensures(
                    oneshot::Sender::<T>::send,
                    (sender, value),
                    r,
                )
                &&& r matches Err(v) ==> v == value
            },
{
}

/// The application runs as long as it is not told otherwise, and as long as there is
/// somebody who could tell it.
pub proof fn law_shutdown_signals(signal: ShutdownSignal, r: bool)
    requires
        call_ensures(ShutdownSignal::is_running, (&signal,), r),
    ensures
        signal is Closed ==> !r,
        signal is Unchanged ==> r,
        signal matches ShutdownSignal::Changed(running) ==> r == running,
{
}

/// Whether the application is to keep running is what the channel says: it does not if
/// the channel is closed, it does if there is nothing new, and otherwise the latest
/// value decides.
pub proof fn law_checked_signals()
    ensures
        forall|rx: &mut watch::Receiver<bool>, r: bool| #[trigger]
            call_ensures(super::check_shutdown_rx, (rx,), r) ==> {
                ||| !r && super::may_signal(*rx, ShutdownSignal::Closed)
                ||| r && super::may_signal(*rx, ShutdownSignal::Unchanged)
                ||| super::may_signal(*rx, ShutdownSignal::Changed(r))
            },
{
    assert forall|rx: &mut watch::Receiver<bool>, r: bool| #[trigger]
        call_ensures(super::check_shutdown_rx, (rx,), r) implies {
        ||| !r && super::may_signal(*rx, ShutdownSignal::Closed)
        ||| r && super::may_signal(*rx, ShutdownSignal::Unchanged)
        ||| super::may_signal(*rx, ShutdownSignal::Changed(r))
    } by {
        let signal = choose|signal: ShutdownSignal| #[trigger]
            super::may_signal(*rx, signal) && r == signal.keeps_running();
        assert(super::may_signal(*rx, signal));
    }
}

// TASKS ***********************************************************************

/// A task that is under control is active until its result is there, which is kept
/// from then on. Only an active task is signaled and waited for.
pub proof fn law_controlled_tasks<H, R>(
    task: H,
    tx: oneshot::Sender<()>,
    handle: ControlledJoinHandle<H, R>,
    active: Option<&H>,
    result: R,
    step: JoinStep<H, R>,
)
    ensures
        forall|new: ControlledJoinHandle<H, R>| #[trigger]
            call_ensures(ControlledJoinHandle::<H, R>::new, (task, tx), new) ==> new
                == ControlledJoinHandle::<H, R>::ActiveTask(task, tx),
        call_ensures(ControlledJoinHandle::<H, R>::active_task, (&handle,), active) ==> {
            &&& active is Some <==> handle is ActiveTask
            &&& active matches Some(t) ==> *t == handle->ActiveTask_0
        },
        forall|h: &mut ControlledJoinHandle<H, R>| #[trigger]
            call_ensures(ControlledJoinHandle::<H, R>::complete, (h, result), ()) ==> {
                &&& *h is ActiveTask ==> *final(h) == ControlledJoinHandle::<H, R>::Returned(result)
                &&& *h is Returned ==> *final(h) == *h
            },
        call_ensures(ControlledJoinHandle::<H, R>::signal, (handle,), step) ==> {
            &&& step is Await <==> handle is ActiveTask
            &&& step matches JoinStep::Await { task, signaled } ==> task == handle->ActiveTask_0 && (
            exists|sent: Result<(), ()>| #[trigger]
                call_ensures(
                    oneshot::Sender::<()>::send,
                    (handle->ActiveTask_1, ()),
                    sent,
                ) && signaled == (sent is Ok))
            &&& step matches JoinStep::Returned(r) ==> handle == ControlledJoinHandle::<
                H,
                R,
            >::Returned(r)
        },
{
}

/// A task that has neither ended nor been signaled is aborted, and no other.
pub proof fn law_aborted_tasks(signaled: bool, finished: bool, r: bool)
    requires
        call_ensures(task::needs_abort, (signaled, finished), r),
    ensures
        signaled ==> !r,
        finished ==> !r,
        !signaled && !finished ==> r,
{
}

/// A set of tasks comprises all tasks that were added to it, in order. Values that are
/// attached to tasks are handed back. There is no set without tasks.
pub proof fn law_task_sets<H, T>(
    handle: H,
    value: T,
    pair: ValueJoinHandle<T, H>,
    parts: (T, H),
    builder: TaskSetBuilder<H>,
    built: Option<Vec<H>>,
)
    ensures
        forall|new: ValueJoinHandle<T, H>| #[trigger]
            call_ensures(ValueJoinHandle::<T, H>::new, (value, handle), new) ==> new.view() == (
                value,
                handle,
            ),
        call_ensures(ValueJoinHandle::<T, H>::into_tuple, (pair,), parts) ==> parts == pair.view(),
        forall|new: TaskSetBuilder<H>| #[trigger]
            call_ensures(TaskSetBuilder::<H>::new, (), new) ==> new.view().len() == 0,
        forall|b: &mut TaskSetBuilder<H>| #[trigger]
            call_ensures(TaskSetBuilder::<H>::insert, (b, handle), ()) ==> final(b).view()
                == b.view().push(handle),
        forall|b: &mut TaskSetBuilder<H>, v: T| #[trigger]
            call_ensures(TaskSetBuilder::<H>::detaching_insert::<T>, (b, pair), v) ==> v
                == pair.view().0 && final(b).view() == b.view().push(pair.view().1),
        call_ensures(TaskSetBuilder::<H>::build, (builder,), built) ==> {
            &&& built is Some <==> builder.view().len() > 0
            &&& built matches Some(tasks) ==> tasks@ == builder.view()
        },
{
}

/// A task fails exactly if it panics. One that completes, one that is cancelled and
/// one that is not there do not.
pub proof fn law_task_outcomes(
    ended: Option<Result<(), JoinError>>,
    outcome: TaskOutcome,
    checked: Result<(), String>,
    handled: Result<(), String>,
)
    requires
        call_ensures(task::task_outcome, (ended,), outcome),
        call_ensures(task::check_task_outcome, (outcome,), checked),
        call_ensures(task::handle_task_complete, (ended,), handled),
    ensures
        ended is None ==> outcome is NoTask,
        ended matches Some(Ok(_)) ==> outcome is Completed,
        ended matches Some(Err(e)) ==> (outcome is Panicked <==> task::caused_by_panic(e)) && (
        outcome is Cancelled <==> !task::caused_by_panic(e)),
        checked is Err <==> outcome is Panicked,
        handled is Err <==> outcome is Panicked,
        checked matches Err(e) ==> e@ == "Fatal error in application task"@,
        handled matches Err(e) ==> e@ == "Fatal error in application task"@,
{
}

// LENGTHS *********************************************************************

/// The display length of text is the number of its characters, and that of a number
/// is the number of its digits.
pub proof fn law_display_lengths(
    s: String,
    r: usize,
    n: u64,
    digits: String,
    r2: usize,
)
    requires
        call_ensures(<String as DisplayLength>::display_length, (&s,), r),
        call_ensures(text::decimal_string, (n,), digits),
        call_ensures(<u64 as DisplayLength>::display_length, (&n,), r2),
    ensures
        r == s@.len(),
        r2 == digits@.len(),
{
}

/// The greatest display length of several texts is reached by one of them, and exceeded
/// by none.
pub proof fn law_greatest_length(items: Vec<String>, r: usize, i: int, a: usize, b: usize, c: usize)
    requires
        call_ensures(fmt::max_display_length::<String>, (&items,), r),
        call_ensures(fmt::max_length, (a, b), c),
    ensures
        0 <= i < items@.len() ==> items@[i]@.len() <= r,
        items@.len() == 0 ==> r == 0,
        items@.len() > 0 ==> exists|j: int| 0 <= j < items@.len() && (#[trigger] items@[j])@.len() == r,
        c == a || c == b,
        a <= c && b <= c,
{
    fmt::law_max_display_length(items@);
    if items@.len() > 0 {
        let j = choose|j: int|
            0 <= j < items@.len() && (#[trigger] items@[j]).displayed() == fmt::max_displayed(
                items@,
            );
        assert(items@[j]@.len() == r);
    }
    if 0 <= i < items@.len() {
        assert(items@[i].displayed() <= fmt::max_displayed(items@));
    }
}

/// The task under control can be waited for, which changes nothing but the task.
pub proof fn law_active_tasks_are_awaited<H, R>()
    ensures
        forall|h: &mut ControlledJoinHandle<H, R>, t: Option<&mut H>| #[trigger]
            call_ensures(ControlledJoinHandle::<H, R>::active_task_mut, (h,), t) ==> {
                &&& t is Some <==> *h is ActiveTask
                &&& t matches Some(t) ==> *t == h->ActiveTask_0 && *final(h)
                    == ControlledJoinHandle::<H, R>::ActiveTask(*final(t), h->ActiveTask_1)
                &&& t is None ==> *final(h) == *h
            },
{
}

/// The value that belongs to a task can be looked at and changed, without any effect on
/// the task.
pub proof fn law_values_of_tasks<T, H>(pair: ValueJoinHandle<T, H>, value: &T)
    ensures
        call_ensures(ValueJoinHandle::<T, H>::as_ref, (&pair,), value) ==> *value == pair.view().0,
        forall|p: &mut ValueJoinHandle<T, H>, v: &mut T| #[trigger]
            call_ensures(ValueJoinHandle::<T, H>::as_mut, (p,), v) ==> {
                &&& *v == p.view().0
                &&& final(p).view() == (*final(v), p.view().1)
            },
{
}

} // verus!
