//! Laws that hold of the connection to the server, of record streams, and of the
//! results of operations.

use tokio::sync::oneshot;
use vstd::prelude::*;

use crate::snd::pulse::error::Code;
use crate::snd::pulse::owned;
use crate::snd::pulse::owned::{OwnedSinkInfo, OwnedSinkInputInfo, OwnedSourceInfo};
use crate::util;
use crate::util::text;
use crate::util::Lease;

use super::async_polyfill;
use super::async_polyfill::{
    InitializingEntity, InitializingFuture, InitializingPoll, InitializingState, StreamReadFuture,
    StreamReadNotifier,
};
use super::collect;
use super::collect::{
    CollectListResult, CollectOptionalResult, CollectResult, Collector, ListResult,
};
use super::introspect;
use super::introspect::{MonitorName, OperationState};
use super::stream;
use super::stream::{
    ConnectTarget, CorkStep, Found, ReadStep, ResolvedSinkInput, SinkId, SinkLookup, StreamAction,
    StreamCommand, StreamConfig, StreamEvent, StreamLoop, StreamManager, StreamState,
    StreamWriteResult,
};
use super::{
    ContextAction, ContextEvent, ContextState, IterateResult, Iteration, MainloopTimer,
};

verus! {

// RECORD STREAMS **************************************************************

/// Audio data is written and discarded, a hole is only discarded, and in all other
/// cases nothing is done.
pub proof fn law_found_data_is_moved_on(found: Found, r: ReadStep)
    requires
        call_ensures(Found::read_step, (&found,), r),
    ensures
        r is WriteAndDiscard <==> found is Data,
        r is Discard <==> found is Hole,
        r is Nothing <==> found is Empty || found is Failed,
{
}

/// That data was written is reported exactly if there was data that could be written
/// and discarded. That the handle is closed is reported exactly if there was data
/// that could not be written, whatever else went wrong. Any other problem with the
/// server is reported as such.
pub proof fn law_read_outcomes(
    found: Found,
    written: bool,
    discarded: Result<(), Code>,
    r: StreamWriteResult,
)
    requires
        call_ensures(Found::write_result, (&found, written, discarded), r),
    ensures
        r is DataWritten <==> found is Data && written && discarded is Ok,
        r is HandleClosed <==> found is Data && !written,
        r is NoOp <==> found is Empty || (found is Hole && discarded is Ok),
        r matches StreamWriteResult::PulseError(e) ==> found == Found::Failed(e) || discarded == Err::<
            (),
            Code,
        >(e),
{
}

/// A command to cork the stream is carried out, and a command to shut down, or the
/// end of commands, stops the stream. So does a closed handle. None of these has an
/// influence on how many errors are tolerated.
pub proof fn law_stream_commands(event: StreamEvent)
    ensures
        forall|state: &mut StreamLoop, r: StreamAction| #[trigger]
            call_ensures(StreamLoop::handle, (state, event), r) ==> {
                &&& event matches StreamEvent::Command(command) ==> final(state).errors()
                    == state.errors() && match command {
                    Some(StreamCommand::SetCork(cork)) => r == StreamAction::SetCork(cork),
                    _ => r is Stop,
                }
                &&& event == StreamEvent::Read(StreamWriteResult::HandleClosed) ==> r is Stop
                    && final(state).errors() == state.errors()
            },
{
}

/// A stream stops after three read errors in a row, which is fatal. Anything that
/// can be read makes up for the errors before it.
pub proof fn law_stream_errors(e: Code, state: StreamLoop, fatal: bool)
    ensures
        forall|new: StreamLoop| #[trigger]
            call_ensures(StreamLoop::new, (), new) ==> new.errors() == 0,
        forall|state: &mut StreamLoop, r: StreamAction| #[trigger]
            call_ensures(
                StreamLoop::handle,
                (state, StreamEvent::Read(StreamWriteResult::PulseError(e))),
                r,
            ) ==> {
                &&& final(state).errors() == state.errors() + 1
                &&& state.errors() < 2 ==> r is Continue
                &&& state.errors() == 2 ==> r is Stop
            },
        forall|state: &mut StreamLoop, r: StreamAction| #[trigger]
            call_ensures(
                StreamLoop::handle,
                (state, StreamEvent::Read(StreamWriteResult::DataWritten)),
                r,
            ) ==> r is Continue && final(state).errors() == 0,
        forall|state: &mut StreamLoop, r: StreamAction| #[trigger]
            call_ensures(StreamLoop::handle, (state, StreamEvent::Read(StreamWriteResult::NoOp)), r)
                ==> r is Continue && final(state).errors() == 0,
        call_ensures(StreamLoop::is_fatal, (&state,), fatal) ==> (fatal <==> state.errors() >= 3),
{
}

/// A stream is corked or uncorked only if it is not yet, and a failure to find that
/// out is a failure to do so. Success is reported only if the server does so.
pub proof fn law_corking(
    cork: bool,
    is_corked: Result<bool, Code>,
    step: CorkStep,
    result: Option<Result<bool, OperationState>>,
    r: Result<(), Code>,
)
    requires
        call_ensures(stream::cork_step, (cork, is_corked), step),
        call_ensures(stream::cork_result, (result,), r),
    ensures
        step is Cork <==> cork && is_corked == Ok::<bool, Code>(false),
        step is Uncork <==> !cork && is_corked == Ok::<bool, Code>(true),
        step is AlreadyDone <==> is_corked == Ok::<bool, Code>(cork),
        is_corked matches Err(e) ==> step == CorkStep::Failed(e),
        r is Ok <==> result == Some(Ok::<bool, OperationState>(true)),
        result == Some(Ok::<bool, OperationState>(false)) ==> r == Err::<(), Code>(Code::Unknown),
        result is None || (result matches Some(inner) && inner is Err) ==> r == Err::<(), Code>(
            Code::Killed,
        ),
{
}

/// The index of a sink takes precedence over its name, and without either of them,
/// the default sink is looked up.
pub proof fn law_sink_lookup<'a>(
    index: Option<u32>,
    name: Option<&'a str>,
    id: Option<SinkId<'a>>,
    r: SinkLookup,
)
    requires
        call_ensures(SinkId::<'a>::merged, (index, name), id),
        call_ensures(SinkLookup::for_sink, (id,), r),
    ensures
        index matches Some(i) ==> r == SinkLookup::ByIndex(i),
        index is None && name is Some ==> (r matches SinkLookup::ByName(n) && n@ == name->0@),
        index is None && name is None ==> r is Default,
{
}

/// A stream that records a sink reads from the monitor of that sink. One that records
/// a single application is additionally limited to it. One that records a source
/// reads from that. There is no stream without a source.
pub proof fn law_stream_targets(
    sink: OwnedSinkInfo,
    sink_target: ConnectTarget,
    source: OwnedSourceInfo,
    source_target: ConnectTarget,
    input: ResolvedSinkInput,
    input_target: ConnectTarget,
    target: ConnectTarget,
    r: Result<String, Code>,
)
    requires
        call_ensures(<OwnedSinkInfo as StreamConfig>::connect_target, (&sink,), sink_target),
        call_ensures(<OwnedSourceInfo as StreamConfig>::connect_target, (&source,), source_target),
        call_ensures(<ResolvedSinkInput as StreamConfig>::connect_target, (&input,), input_target),
        call_ensures(ConnectTarget::into_source_name, (target,), r),
    ensures
        sink_target.monitor_stream is None,
        text::opt_view(sink_target.source_name) == text::opt_view(sink.monitor_source_name),
        source_target.monitor_stream is None,
        text::opt_view(source_target.source_name) == text::opt_view(source.name),
        input_target.monitor_stream == Some(input.input),
        text::opt_view(input_target.source_name) == text::opt_view(input.sink.monitor_source_name),
        target.source_name matches Some(name) ==> r == Ok::<String, Code>(name),
        target.source_name is None ==> r == Err::<String, Code>(Code::NoEntity),
{
}

/// A stream can be started only while none is running and the producing end of the
/// internal stream is there. It is lent to the stream, and returns over the channel
/// that it was lent with.
pub proof fn law_streams_are_started<P, T>(task: T)
    ensures
        forall|manager: &mut StreamManager<P, T>, r: Result<Lease<P>, Code>| #[trigger]
            call_ensures(StreamManager::<P, T>::begin_start, (manager,), r) ==> {
                &&& r is Ok <==> manager.producer() is Some && manager.task() is None
                &&& r matches Ok(lease) ==> Some(lease.view()) == manager.producer() && (
                final(manager).receiver() matches Some(rx) && util::is_channel(lease.channel(), rx))
                &&& r matches Err(e) ==> e == Code::Exist
                &&& r is Err && manager.producer() is Some ==> (
                final(manager).receiver() matches Some(rx) && util::is_returned(manager.producer()->0, rx))
                &&& manager.producer() is None ==> final(manager).receiver() == manager.receiver()
                &&& final(manager).task() == manager.task()
                &&& final(manager).producer() is None
            },
        forall|manager: &mut StreamManager<P, T>| #[trigger]
            call_ensures(StreamManager::<P, T>::finish_start, (manager, task), ()) ==> {
                &&& final(manager).task() == Some(task)
                &&& final(manager).producer() == manager.producer()
                &&& final(manager).receiver() == manager.receiver()
            },
        forall|manager: &mut StreamManager<P, T>, r: Option<T>| #[trigger]
            call_ensures(StreamManager::<P, T>::take_task, (manager,), r) ==> r == manager.task()
                && final(manager).task() is None && final(manager).producer() == manager.producer(),
{
}

/// What a manager tells about its stream: whether one is running, and whether the
/// producing end is idle. A producing end that has returned can be lent again.
pub proof fn law_stream_managers<P, T>(
    producer: P,
    manager: StreamManager<P, T>,
    running: bool,
    idle: Option<&P>,
)
    ensures
        forall|new: StreamManager<P, T>| #[trigger]
            call_ensures(StreamManager::<P, T>::new, (producer,), new) ==> new.producer() == Some(
                producer,
            ) && new.task() is None,
        call_ensures(StreamManager::<P, T>::is_running, (&manager,), running) ==> (running
            <==> manager.task() is Some),
        call_ensures(StreamManager::<P, T>::idle_producer, (&manager,), idle) ==> {
            &&& idle is Some <==> manager.producer() is Some
            &&& idle matches Some(p) ==> manager.producer() == Some(*p)
        },
        forall|m: &mut StreamManager<P, T>| #[trigger]
            call_ensures(StreamManager::<P, T>::reclaim, (m, producer), ()) ==> final(m).producer()
                == Some(producer) && final(m).task() == m.task(),
{
}

/// A stream that was terminated was killed, and one that failed is in a bad state.
/// A connection that was terminated is distinguished from one that failed.
pub proof fn law_failure_codes(
    stream: StreamState,
    stream_code: Code,
    context: ContextState,
    context_code: Code,
)
    requires
        call_ensures(stream::stream_failure_code, (stream,), stream_code),
        call_ensures(super::context_failure_code, (context,), context_code),
    ensures
        stream is Terminated ==> stream_code == Code::Killed,
        stream !is Terminated ==> stream_code == Code::BadState,
        context is Terminated ==> context_code == Code::ConnectionTerminated,
        context !is Terminated ==> context_code == Code::Unknown,
{
}

// INITIALIZATION **************************************************************

/// Streams and connections are initialized once they are ready, have failed once they
/// have failed or were terminated, and are being initialized until then.
pub proof fn law_initialization_states(
    stream: StreamState,
    r: InitializingState<StreamState>,
    context: ContextState,
    r2: InitializingState<ContextState>,
)
    requires
        call_ensures(
            <StreamState as InitializingEntity>::get_initialization_state,
            (&stream,),
            r,
        ),
        call_ensures(
            <ContextState as InitializingEntity>::get_initialization_state,
            (&context,),
            r2,
        ),
    ensures
        r is Initialized <==> stream is Ready,
        r is InitializationFailed <==> stream is Failed || stream is Terminated,
        r matches InitializingState::InitializationFailed(state) ==> state == stream,
        r2 is Initialized <==> context is Ready,
        r2 is InitializationFailed <==> context is Failed || context is Terminated,
        r2 matches InitializingState::InitializationFailed(state) ==> state == context,
{
}

/// What is being initialized is handed out once it is ready, and the state in which
/// it failed is reported instead if it does. Until then, nothing is.
pub proof fn law_initialization<T>(state: StreamState, entity: T)
    ensures
        forall|future: InitializingFuture<T>| #[trigger]
            call_ensures(InitializingFuture::<T>::new, (entity,), future) ==> future.view() == Some(
                entity,
            ),
        forall|future: &mut InitializingFuture<T>, r: InitializingPoll<StreamState, T>| #[trigger]
            call_ensures(InitializingFuture::<T>::poll::<StreamState>, (future, state), r)
                && future.view() is Some ==> {
                &&& r is Pending <==> state is Unconnected || state is Creating
                &&& r matches InitializingPoll::Ready(Ok(e)) ==> state is Ready && future.view()
                    == Some(e) && final(future).view() is None
                &&& r matches InitializingPoll::Ready(Err(failed)) ==> failed == state && (state
                    is Failed || state is Terminated)
                &&& r is Pending ==> final(future).view() == future.view()
            },
{
}

/// A task that waits for data is woken exactly once by the next notification, unless
/// it gives up. It waits once, and continues when it is polled again.
pub proof fn law_read_notifications<W>(waker: W)
    ensures
        forall|new: StreamReadNotifier<W>| #[trigger]
            call_ensures(StreamReadNotifier::<W>::new, (), new) ==> new.view() is None,
        forall|new: StreamReadFuture| #[trigger]
            call_ensures(StreamReadFuture::new, (), new) ==> !new.polled(),
        forall|n: StreamReadNotifier<W>, future: StreamReadFuture| #[trigger]
            call_ensures(StreamReadNotifier::<W>::await_data, (&n,), future) ==> !future.polled(),
        forall|n: &mut StreamReadNotifier<W>, r: Option<W>| #[trigger]
            call_ensures(StreamReadNotifier::<W>::notify, (n,), r) ==> r == n.view()
                && final(n).view() is None,
        forall|n: &mut StreamReadNotifier<W>| #[trigger]
            call_ensures(StreamReadNotifier::<W>::cancel, (n,), ()) ==> final(n).view() is None,
        forall|future: &mut StreamReadFuture, n: &mut StreamReadNotifier<W>, r: bool| #[trigger]
            call_ensures(StreamReadFuture::poll::<W>, (future, n, waker), r) ==> {
                &&& r == future.polled()
                &&& final(future).polled()
                &&& !r ==> final(n).view() == Some(waker)
                &&& r ==> final(n).view() == n.view()
            },
{
}

// MAINLOOP ********************************************************************

/// The mainloop ends when it is told to quit and not before, even if an iteration
/// fails. Only iterations that succeed count as such.
pub proof fn law_mainloop_continues(iter_time: u64, result: IterateResult)
    ensures
        forall|timer: &mut MainloopTimer, r: bool| #[trigger]
            call_ensures(MainloopTimer::handle_iteration, (timer, iter_time, result), r) ==> {
                &&& r <==> result !is Quit
                &&& final(timer).max_interval() == timer.max_interval()
                &&& result is Success ==> final(timer).last_iter() == iter_time
                &&& result !is Success ==> final(timer).last_iter() == timer.last_iter()
                    && final(timer).iterations() == timer.iterations()
            },
{
}

/// Of an iteration in which events were processed, the time and their number are
/// kept ahead of earlier ones, up to a fixed number of iterations. Others leave no
/// trace.
pub proof fn law_iterations_are_tracked(iter_time: u64, events: u32, i: int)
    ensures
        forall|timer: &mut MainloopTimer| #[trigger]
            call_ensures(MainloopTimer::save_processed_events, (timer, iter_time, events), ()) ==> {
                let before = timer.iterations();
                let after = final(timer).iterations();
                &&& final(timer).last_iter() == iter_time
                &&& final(timer).max_interval() == timer.max_interval()
                &&& events == 0 ==> after == before
                &&& events > 0 ==> after.len() > 0 && after[0] == (Iteration {
                    time: iter_time,
                    events,
                })
                &&& events > 0 && 0 < i < after.len() ==> after[i] == before[i - 1]
                &&& events > 0 && before.len() < 5 ==> after.len()
                    == before.len() + 1
                &&& events > 0 && before.len() >= 5 ==> after.len()
                    == 5
            },
{
}

/// The next iteration is due no later than the configured interval after the last
/// one, and no later than the time between two earlier iterations divided by the
/// number of events since then.
pub proof fn law_next_iteration(timer: MainloopTimer, r: Option<u64>, i: int)
    requires
        call_ensures(MainloopTimer::compute_next_iteration_instant, (&timer,), r),
        timer.well_formed(),
    ensures
        r is Some <==> timer.iterations().len() >= 2,
        r matches Some(instant) ==> timer.last_iter() <= instant <= timer.last_iter()
            + timer.max_interval(),
        r is Some && 0 <= i < timer.iterations().len() - 1 && timer.iterations()[i].time
            >= timer.iterations()[i + 1].time ==> (r->0 - timer.last_iter())
            * timer.iterations()[i].events <= timer.iterations()[i].time - timer.iterations()[i
            + 1].time,
        r is Some ==> r->0 == timer.last_iter() + timer.max_interval() || exists|j: int|
            0 <= j < timer.iterations().len() - 1 && r->0 - timer.last_iter() == (if (
            #[trigger] timer.iterations()[j]).time >= timer.iterations()[j + 1].time {
                (timer.iterations()[j].time - timer.iterations()[j + 1].time)
                    / timer.iterations()[j].events as int
            } else {
                0
            }),
{
    let all = timer.iterations();
    lemma_smallest_is_one(all);
    if all.len() >= 2 {
        super::law_delay_is_smallest(all, 0);
        if 0 <= i < all.len() - 1 {
            super::law_delay_is_smallest(all, i);
            if all[i].time >= all[i + 1].time {
                let elapsed = (all[i].time - all[i + 1].time) as nat;
                let events = all[i].events as nat;
                let delay = (r->0 - timer.last_iter()) as nat;
                assert(events > 0);
                assert(delay <= elapsed / events);
                assert(delay * events <= elapsed) by (nonlinear_arith)
                    requires
                        delay <= elapsed / events,
                        events > 0,
                ;
            }
        }
    }
}

/// The smallest interval is the interval of some iteration.
proof fn lemma_smallest_is_one(all: Seq<Iteration>)
    ensures
        super::smallest_interval(all) is None <==> all.len() < 2,
        all.len() >= 2 ==> exists|j: int|
            0 <= j < all.len() - 1 && super::smallest_interval(all) == Some(
                super::event_interval(#[trigger] all[j], all[j + 1]),
            ),
    decreases all.len(),
{
    if all.len() >= 2 {
        let before = all.drop_last();
        lemma_smallest_is_one(before);
        let last = all.len() - 2;
        let interval = super::event_interval(all[last], all[last + 1]);
        if super::smallest_interval(all) == Some(interval) {
            assert(super::smallest_interval(all) == Some(
                super::event_interval(all[last], all[last + 1]),
            ));
        } else {
            let j = choose|j: int|
                0 <= j < before.len() - 1 && super::smallest_interval(before) == Some(
                    super::event_interval(#[trigger] before[j], before[j + 1]),
                );
            assert(super::smallest_interval(all) == Some(
                super::event_interval(all[j], all[j + 1]),
            ));
        }
    }
}

/// A timer starts without iterations. The interval is given in microseconds and kept
/// in nanoseconds, and does not exceed what can be represented.
pub proof fn law_new_timer(now: u64, usec: Option<u64>, r: MainloopTimer)
    requires
        call_ensures(MainloopTimer::new, (now, usec), r),
    ensures
        r.iterations().len() == 0,
        r.last_iter() == now,
        usec matches Some(n) && 1000 * n <= u64::MAX ==> r.max_interval() == 1000 * usec->0,
        usec matches Some(n) && 1000 * n > u64::MAX ==> r.max_interval() == u64::MAX,
        usec is None ==> r.max_interval() == 20_000_000,
{
}

/// Work that is submitted is executed. The connection is shut down once no more work
/// can be submitted, and abandoned if the mainloop ends by itself.
pub proof fn law_context_actions(event: ContextEvent, r: ContextAction)
    requires
        call_ensures(super::context_action, (event,), r),
    ensures
        r is Execute <==> event is Submitted,
        r is ShutDown <==> event is QueueClosed,
        r is Abort <==> event is MainloopEnded,
{
}

// OPERATIONS ******************************************************************

/// An operation that is over has an outcome: its value if it was completed and has
/// one, and the reason otherwise. One for which nothing is received was cancelled.
pub proof fn law_operations<T>(
    state: Option<OperationState>,
    value: Option<T>,
    outcome: Option<Result<T, OperationState>>,
    received: Option<Result<T, OperationState>>,
    r: Result<T, OperationState>,
)
    requires
        call_ensures(async_polyfill::determine_outcome::<T>, (state, value), outcome),
        call_ensures(async_polyfill::received_outcome::<T>, (received,), r),
    ensures
        outcome is None <==> state == Some(OperationState::Running),
        outcome matches Some(Ok(v)) ==> state == Some(OperationState::Done) && value == Some(v),
        state == Some(OperationState::Done) && value is Some ==> outcome == Some(
            Ok::<T, OperationState>(value->0),
        ),
        state == Some(OperationState::Done) && value is None ==> outcome == Some(
            Err::<T, OperationState>(OperationState::Done),
        ),
        state is None || state == Some(OperationState::Cancelled) ==> outcome == Some(
            Err::<T, OperationState>(OperationState::Cancelled),
        ),
        received is Some ==> received == Some(r),
        received is None ==> r == Err::<T, OperationState>(OperationState::Cancelled),
{
}

/// What an operation found is returned. An operation that was not completed was
/// killed, one that found nothing found no entity, and one that the server refused
/// failed for an unknown reason.
pub proof fn law_operation_results<T>(
    value: Result<T, OperationState>,
    r: Result<T, Code>,
    found: Result<Option<T>, OperationState>,
    r2: Result<T, Code>,
    status: Result<bool, OperationState>,
    r3: Result<(), Code>,
)
    requires
        call_ensures(introspect::operation_value::<T>, (value,), r),
        call_ensures(introspect::operation_lookup::<T>, (found,), r2),
        call_ensures(introspect::operation_status, (status,), r3),
    ensures
        value matches Ok(v) ==> r == Ok::<T, Code>(v),
        value is Err ==> r == Err::<T, Code>(Code::Killed),
        found matches Ok(Some(v)) ==> r2 == Ok::<T, Code>(v),
        found matches Ok(None) ==> r2 == Err::<T, Code>(Code::NoEntity),
        found is Err ==> r2 == Err::<T, Code>(Code::Killed),
        r3 is Ok <==> status == Ok::<bool, OperationState>(true),
        status == Ok::<bool, OperationState>(false) ==> r3 == Err::<(), Code>(Code::Unknown),
        status is Err ==> r3 == Err::<(), Code>(Code::Killed),
{
}

/// The applications that are attached to a sink are exactly those whose metadata says
/// so.
pub proof fn law_attached_applications(
    inputs: Vec<OwnedSinkInputInfo>,
    sink_idx: u32,
    r: Vec<OwnedSinkInputInfo>,
    input: owned::SinkInputView,
)
    requires
        call_ensures(introspect::sink_inputs_for_sink, (inputs, sink_idx), r),
    ensures
        introspect::input_views(r@).contains(input) <==> introspect::input_views(inputs@).contains(
            input,
        ) && input.sink == sink_idx,
        r@.len() <= inputs@.len(),
{
    let views = introspect::input_views(inputs@);
    let attached = |input: owned::SinkInputView| input.sink == sink_idx;
    let kept = introspect::input_views(r@);
    assert(kept =~= views.filter(attached));
    assert(kept.len() == r@.len());
    views.lemma_filter_len(attached);
    if kept.contains(input) {
        views.lemma_filter_contains_rev(attached, input);
        let i = choose|i: int| 0 <= i < kept.len() && kept[i] == input;
        views.lemma_filter_pred(attached, i);
    }
    if views.contains(input) && input.sink == sink_idx {
        let i = choose|i: int| 0 <= i < views.len() && views[i] == input;
        views.lemma_filter_contains(attached, i);
    }
}

/// Of the sinks whose names start in a given way, each one counts, and no other.
pub proof fn law_prefixed_sinks_are_counted(
    sinks: Vec<OwnedSinkInfo>,
    more: Vec<OwnedSinkInfo>,
    sink: OwnedSinkInfo,
    prefix: &str,
    n: usize,
    m: usize,
)
    requires
        call_ensures(introspect::count_sinks_with_name_prefix, (&sinks, prefix), n),
        call_ensures(introspect::count_sinks_with_name_prefix, (&more, prefix), m),
        more@ == sinks@.push(sink),
    ensures
        sinks@.len() == 0 ==> n == 0,
        sink.name is None ==> m == n,
        sink.name matches Some(name) && name@.len() >= prefix@.len() && name@.take(
            prefix@.len() as int,
        ) == prefix@ ==> m == n + 1,
        sink.name matches Some(name) && !(name@.len() >= prefix@.len() && name@.take(
            prefix@.len() as int,
        ) == prefix@) ==> m == n,
{
    reveal(Seq::filter);
    let views = introspect::sink_views(sinks@);
    let after = introspect::sink_views(more@);
    assert(after =~= views.push(sink@));
    assert(after.drop_last() =~= views);
}

/// The monitor of a sink is known by its name, or has to be looked up. A source that
/// has no name cannot be used.
pub proof fn law_monitor_names(
    sink: OwnedSinkInfo,
    monitor: MonitorName,
    source: Result<OwnedSourceInfo, Code>,
    r: Result<String, Code>,
)
    requires
        call_ensures(introspect::resolve_sink_monitor_name, (sink,), monitor),
        call_ensures(introspect::looked_up_monitor_name, (source,), r),
    ensures
        sink.monitor_source_name matches Some(name) ==> (monitor matches MonitorName::Known(n) && n@
            == name@),
        sink.monitor_source_name is None ==> monitor == MonitorName::Lookup(sink.monitor_source),
        match source {
            Ok(info) => match info.name {
                Some(name) => r matches Ok(n) && n@ == name@,
                None => r == Err::<String, Code>(Code::NoEntity),
            },
            Err(e) => r == Err::<String, Code>(e),
        },
{
}

// COLLECTED RESULTS ***********************************************************

/// A collector yields what was stored in it last. The first of several values stays
/// if the first one is wanted, the last one does if that is wanted, and a list keeps
/// all of them in order.
pub proof fn law_collected_values<T>(
    initial: T,
    value: T,
    collector: Collector<T>,
    r: T,
)
    ensures
        forall|new: Collector<T>| #[trigger]
            call_ensures(Collector::<T>::new, (initial,), new) ==> new.collected() == initial,
        forall|c: &mut Collector<T>| #[trigger]
            call_ensures(<Collector<T> as CollectResult<T>>::store, (c, value), ())
                ==> final(c).collected() == value,
        forall|c: &mut Collector<Option<T>>| #[trigger]
            call_ensures(<Collector<Option<T>> as CollectOptionalResult<T>>::first, (c, value), ())
                ==> {
                &&& c.collected() is None ==> final(c).collected() == Some(value)
                &&& c.collected() is Some ==> final(c).collected() == c.collected()
            },
        forall|c: &mut Collector<Option<T>>| #[trigger]
            call_ensures(<Collector<Option<T>> as CollectOptionalResult<T>>::last, (c, value), ())
                ==> final(c).collected() == Some(value),
        forall|c: &mut Collector<Vec<T>>| #[trigger]
            call_ensures(<Collector<Vec<T>> as CollectListResult<T>>::push, (c, value), ())
                ==> final(c).collected()@ == c.collected()@.push(value),
        call_ensures(Collector::<T>::into_result, (collector,), r) ==> r == collector.collected(),
{
}

/// Only the items of a list are considered, and of those only the ones that are
/// accepted.
pub proof fn law_list_items<'a, T, P: Fn(&'a T) -> bool>(
    list: ListResult<&'a T>,
    predicate: P,
    r: Option<&'a T>,
    filtered: Option<&'a T>,
)
    requires
        call_ensures(collect::with_list::<T>, (list,), r),
        call_ensures(collect::filter_list::<T, P>, (list, predicate), filtered),
    ensures
        r is Some <==> list is Item,
        r matches Some(t) ==> list == ListResult::Item(t),
        list !is Item ==> filtered is None,
        filtered matches Some(t) ==> list == ListResult::Item(t) && call_ensures(
            predicate,
            (t,),
            true,
        ),
        list is Item && filtered is None ==> call_ensures(predicate, (list->Item_0,), false),
{
}

/// The time of the next iteration can be told exactly if it does not lie beyond what
/// can be represented.
pub proof fn law_representable_iterations(timer: MainloopTimer, representable: bool, r: Option<u64>)
    requires
        call_ensures(MainloopTimer::is_next_iteration_representable, (&timer,), representable),
        timer.well_formed(),
    ensures
        timer.iterations().len() < 2 ==> representable,
        timer.last_iter() + timer.max_interval() <= u64::MAX ==> representable,
        call_requires(MainloopTimer::compute_next_iteration_instant, (&timer,)) && call_ensures(
            MainloopTimer::compute_next_iteration_instant,
            (&timer,),
            r,
        ) ==> representable,
        representable ==> call_requires(MainloopTimer::compute_next_iteration_instant, (&timer,)),
{
    lemma_smallest_is_one(timer.iterations());
}

/// The task that reads from a stream can be given commands while there is one, and the
/// channel over which the producing end returns can be waited for while it is in use.
/// Neither changes anything else.
pub proof fn law_active_streams<P, T>()
    ensures
        forall|manager: &mut StreamManager<P, T>, r: Result<&mut T, Code>| #[trigger]
            call_ensures(StreamManager::<P, T>::active_task, (manager,), r) ==> {
                &&& r is Ok <==> manager.task() is Some
                &&& r matches Ok(t) ==> manager.task() == Some(*t) && final(manager).task() == Some(
                    *final(t),
                )
                &&& r matches Err(e) ==> e is NoEntity && final(manager).task() is None
                &&& final(manager).producer() == manager.producer()
                &&& final(manager).receiver() == manager.receiver()
            },
        forall|manager: &mut StreamManager<P, T>, r: Option<&mut oneshot::Receiver<P>>| #[trigger]
            call_ensures(StreamManager::<P, T>::release_channel, (manager,), r) ==> {
                &&& r is Some <==> manager.producer() is None
                &&& r matches Some(rx) ==> manager.receiver() == Some(*rx)
                    && final(manager).receiver() == Some(*final(rx))
                &&& final(manager).producer() == manager.producer()
                &&& final(manager).task() == manager.task()
            },
{
}

} // verus!
