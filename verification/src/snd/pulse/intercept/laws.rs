//! Laws that hold of interceptors as a whole, across the steps of an operation.

use vstd::prelude::*;

use crate::snd::pulse::error::Code;
use crate::snd::pulse::owned;

use super::types;
use super::types::{
    CapturingInterceptor,
    DuplexingInterceptor,
    ErrorView,
    InputState,
    Interceptor,
    LimitingInterceptor,
    MonitorProgressView,
    MonitorState,
    OutcomeView,
    QueueProgress,
    QueuedInterceptor,
    QueuedState,
    Reply,
    Request,
    RouteState,
    SingleInputMonitor,
    StepView,
    StreamOrigin,
};

verus! {

// SINGLE APPLICATION MONITOR **************************************************

/// Recording an application while none is monitored stops the record stream,
/// starts it on the audio of that application, and leaves exactly that
/// application monitored.
pub proof fn law_monitor_records(
    state: MonitorState,
    source: owned::SinkInputView,
    r1: bool,
    r2: bool,
    r3: bool,
)
    requires
        state.progress is Idle,
        state.intercepted is None,
    ensures
        ({
            let origin = StreamOrigin::SinkInput { index: source.index, sink: source.sink };
            let s1 = SingleInputMonitor::record_next(state, source, r1);
            let s2 = SingleInputMonitor::resume_next(s1.0, Reply::Done, r2);
            let s3 = SingleInputMonitor::resume_next(s2.0, Reply::Status(Ok(())), r3);
            &&& s1.1 == StepView::Request(Request::StopStream)
            &&& s2.1 == StepView::Request(Request::StartStream(origin))
            &&& s3.1 == StepView::Done(OutcomeView::Recorded(Ok(())))
            &&& s3.0 == MonitorState {
                intercepted: Some(source),
                progress: MonitorProgressView::Idle,
            }
        }),
{
}

/// While an application is monitored, recording another one is refused without
/// making a request, and hands the other application back.
pub proof fn law_monitor_refuses_second(
    state: MonitorState,
    source: owned::SinkInputView,
    running: bool,
)
    requires
        state.progress is Idle,
        state.intercepted is Some,
    ensures
        SingleInputMonitor::record_next(state, source, running) == (
            state,
            StepView::Done(OutcomeView::Recorded(Err(ErrorView::AtCapacity(1, source)))),
        ),
{
}

/// Stopping the monitored application stops the record stream, and leaves no
/// application monitored.
pub proof fn law_monitor_stops(state: MonitorState, r1: bool, r2: bool)
    requires
        state.progress is Idle,
        state.intercepted is Some,
    ensures
        ({
            let s1 = SingleInputMonitor::stop_next(state, state.intercepted->0.index, r1);
            let s2 = SingleInputMonitor::resume_next(s1.0, Reply::Done, r2);
            &&& s1.1 == StepView::Request(Request::StopStream)
            &&& s2.1 == StepView::Done(OutcomeView::Stopped(Ok(true)))
            &&& s2.0 == MonitorState { intercepted: None, progress: MonitorProgressView::Idle }
        }),
{
}

/// Changes and removals of applications that are not monitored are ignored.
pub proof fn law_monitor_ignores_unknown(
    state: MonitorState,
    source: owned::SinkInputView,
    running: bool,
)
    requires
        state.progress is Idle,
        state.intercepted matches Some(s) ==> s.index != source.index,
    ensures
        SingleInputMonitor::update_next(state, source, running) == (
            state,
            StepView::Done(OutcomeView::Updated(Ok(()))),
        ),
        SingleInputMonitor::stop_next(state, source.index, running) == (
            state,
            StepView::Done(OutcomeView::Stopped(Ok(false))),
        ),
{
}

/// When the monitored application is corked or uncorked, then the record stream
/// is corked or uncorked with it. Whether this succeeds is reported, and the same
/// application is still monitored.
pub proof fn law_monitor_follows_cork(
    state: MonitorState,
    monitored: owned::SinkInputView,
    source: owned::SinkInputView,
    result: Result<(), Code>,
    r1: bool,
    r2: bool,
)
    requires
        state.progress is Idle,
        state.intercepted == Some(monitored),
        monitored.index == source.index,
    ensures
        ({
            let s1 = SingleInputMonitor::update_next(state, source, r1);
            let s2 = SingleInputMonitor::resume_next(s1.0, Reply::Status(result), r2);
            if monitored.corked == source.corked {
                s1 == (state, StepView::Done(OutcomeView::Updated(Ok(()))))
            } else {
                &&& s1.1 == StepView::Request(Request::SetCork(source.corked))
                &&& s2.1 == StepView::Done(OutcomeView::Updated(result))
                &&& s2.0.progress is Idle
                &&& s2.0.intercepted == Some(
                    owned::SinkInputView { corked: !monitored.corked, ..monitored },
                )
            }
        }),
{
}

/// Pausing the monitored application and resuming it uncorks the record stream
/// again, and leaves the interceptor as it was.
pub proof fn law_monitor_pause_and_resume(
    state: MonitorState,
    monitored: owned::SinkInputView,
    paused: owned::SinkInputView,
    resumed: owned::SinkInputView,
    running: bool,
)
    requires
        state.progress is Idle,
        state.intercepted == Some(monitored),
        !monitored.corked,
        paused.index == monitored.index && paused.corked,
        resumed.index == monitored.index && !resumed.corked,
    ensures
        ({
            let s1 = SingleInputMonitor::update_next(state, paused, running);
            let s2 = SingleInputMonitor::resume_next(s1.0, Reply::Status(Ok(())), running);
            let s3 = SingleInputMonitor::update_next(s2.0, resumed, running);
            let s4 = SingleInputMonitor::resume_next(s3.0, Reply::Status(Ok(())), running);
            &&& s1.1 == StepView::Request(Request::SetCork(true))
            &&& s3.1 == StepView::Request(Request::SetCork(false))
            &&& s4.0 == state
        }),
{
}

/// If the record stream cannot be started on the audio of an application, then
/// the error is reported, and no application is monitored.
pub proof fn law_monitor_record_fails(
    state: MonitorState,
    source: owned::SinkInputView,
    e: Code,
    running: bool,
)
    requires
        state.progress is Idle,
        state.intercepted is None,
    ensures
        ({
            let s1 = SingleInputMonitor::record_next(state, source, running);
            let s2 = SingleInputMonitor::resume_next(s1.0, Reply::Done, running);
            let s3 = SingleInputMonitor::resume_next(s2.0, Reply::Status(Err(e)), running);
            s3 == (state, StepView::Done(OutcomeView::Recorded(Err(ErrorView::PulseError(e)))))
        }),
{
}

/// A monitor never has more than one application, and counts it if there is one.
/// Closing it takes no more than stopping the record stream.
pub proof fn law_monitor_holds_one(state: MonitorState)
    ensures
        SingleInputMonitor::limit(state) == Some(1usize),
        SingleInputMonitor::count(state) == 0 <==> state.intercepted is None,
        SingleInputMonitor::count(state) == 1 <==> state.intercepted is Some,
        SingleInputMonitor::closing(state).stop_stream,
        forall|index: u32| !SingleInputMonitor::closing(state).stop.contains(index),
        SingleInputMonitor::closing(state).tear_down.len() == 0,
{
}

// ROUTED APPLICATIONS *********************************************************

/// Recording an application starts the record stream if it is not running, moves
/// the application to the target sink, and then corks the stream if and only if
/// all intercepted applications are corked. If all of this succeeds, then the
/// application is intercepted, and the sink it came from is remembered.
pub proof fn law_route_records(
    state: RouteState,
    source: owned::SinkInputView,
    running: bool,
    target: u32,
)
    requires
        state.progress is Idle,
        state.limit matches Some(n) ==> state.intercepts.len() < n,
    ensures
        ({
            let input = InputState { orig_sink: source.sink, corked: source.corked };
            let after = state.intercepts.insert(source.index, input);
            let s1 = state.record_next(source, running, target);
            let s2 = if running {
                s1
            } else {
                s1.0.resume_next(Reply::Status(Ok(())), target)
            };
            let s3 = s2.0.resume_next(Reply::Status(Ok(())), target);
            let s4 = s3.0.resume_next(Reply::Status(Ok(())), target);
            &&& !running ==> s1.1 == StepView::Request(
                Request::StartStream(StreamOrigin::RecordSink),
            )
            &&& s2.1 == StepView::Request(
                Request::MoveSinkInput { input: source.index, sink: target },
            )
            &&& s3.1 == StepView::Request(
                Request::SetCork(forall|k: u32| #[trigger] after.contains_key(k) ==> after[k].corked),
            )
            &&& s4.1 == StepView::Done(OutcomeView::Recorded(Ok(())))
            &&& s4.0 == RouteState { intercepts: after, ..state }
        }),
{
}

/// If the record stream cannot be started, or the application cannot be moved,
/// then the error is reported and the application is not intercepted.
pub proof fn law_route_record_fails(
    state: RouteState,
    source: owned::SinkInputView,
    e: Code,
    target: u32,
)
    requires
        state.progress is Idle,
        state.limit matches Some(n) ==> state.intercepts.len() < n,
    ensures
        ({
            let failed = (
                state,
                StepView::Done(OutcomeView::Recorded(Err(ErrorView::PulseError(e)))),
            );
            let start = state.record_next(source, false, target);
            let moved = start.0.resume_next(Reply::Status(Ok(())), target);
            let moved_running = state.record_next(source, true, target);
            &&& start.0.resume_next(Reply::Status(Err(e)), target) == failed
            &&& moved.0.resume_next(Reply::Status(Err(e)), target) == failed
            &&& moved_running.0.resume_next(Reply::Status(Err(e)), target) == failed
        }),
{
}

/// At the limit, applications are refused without making a request.
pub proof fn law_route_refuses_at_limit(
    state: RouteState,
    source: owned::SinkInputView,
    running: bool,
    target: u32,
)
    requires
        state.progress is Idle,
        state.limit is Some,
        state.intercepts.len() == state.limit->0,
    ensures
        state.record_next(source, running, target) == (
            state,
            StepView::Done(OutcomeView::Recorded(Err(ErrorView::AtCapacity(state.limit->0, source)))),
        ),
{
}

/// Stopping an application moves it back to the sink it came from, or to the
/// default sink if that no longer exists. If this succeeds, then the application
/// is no longer intercepted, and the record stream is stopped if and only if no
/// intercepted application is left.
pub proof fn law_route_stop_restores(
    state: RouteState,
    index: u32,
    orig_exists: bool,
    sink: u32,
    target: u32,
)
    requires
        state.progress is Idle,
        state.intercepts.contains_key(index),
    ensures
        ({
            let after = state.intercepts.remove(index);
            let s1 = state.stop_next(index, target);
            let s2 = if orig_exists {
                s1
            } else {
                s1.0.resume_next(Reply::Sink(Err(Code::NoEntity)), target)
            };
            let s3 = s2.0.resume_next(Reply::Sink(Ok(sink)), target);
            let s4 = s3.0.resume_next(Reply::Status(Ok(())), target);
            let s5 = s4.0.resume_next(Reply::Status(Ok(())), target);
            let s6 = if after.len() == 0 {
                s5.0.resume_next(Reply::Done, target)
            } else {
                s5
            };
            &&& s1.1 == StepView::Request(Request::GetSink(state.intercepts[index].orig_sink))
            &&& !orig_exists ==> s2.1 == StepView::Request(Request::GetDefaultSink)
            &&& s3.1 == StepView::Request(Request::GetSinkInput(index))
            &&& s4.1 == StepView::Request(Request::MoveSinkInput { input: index, sink })
            &&& after.len() == 0 ==> s5.1 == StepView::Request(Request::StopStream)
            &&& s6.1 == StepView::Done(OutcomeView::Stopped(Ok(true)))
            &&& s6.0 == RouteState { intercepts: after, ..state }
        }),
{
}

/// An application that disappears while it is being stopped is not moved, and is
/// no longer intercepted.
pub proof fn law_route_stop_vanished(state: RouteState, index: u32, sink: u32, target: u32)
    requires
        state.progress is Idle,
        state.intercepts.contains_key(index),
        state.intercepts.remove(index).len() > 0,
    ensures
        ({
            let s1 = state.stop_next(index, target);
            let s2 = s1.0.resume_next(Reply::Sink(Ok(sink)), target);
            let s3 = s2.0.resume_next(Reply::Status(Err(Code::NoEntity)), target);
            s3 == (
                RouteState { intercepts: state.intercepts.remove(index), ..state },
                StepView::Done(OutcomeView::Stopped(Ok(true))),
            )
        }),
{
}

/// If an application cannot be moved back for a reason other than that it no
/// longer exists, then the error is reported, and the application remains
/// intercepted.
pub proof fn law_route_stop_fails(state: RouteState, index: u32, sink: u32, e: Code, target: u32)
    requires
        state.progress is Idle,
        state.intercepts.contains_key(index),
        e !is NoEntity,
    ensures
        ({
            let failed = (state, StepView::Done(OutcomeView::Stopped(Err(e))));
            let s1 = state.stop_next(index, target);
            let s2 = s1.0.resume_next(Reply::Sink(Ok(sink)), target);
            let s3 = s2.0.resume_next(Reply::Status(Ok(())), target);
            &&& s1.0.resume_next(Reply::Sink(Err(e)), target) == failed
            &&& s2.0.resume_next(Reply::Status(Err(e)), target) == failed
            &&& s3.0.resume_next(Reply::Status(Err(e)), target) == failed
        }),
{
}

/// Changes and removals of applications that are not intercepted are ignored.
pub proof fn law_route_ignores_unknown(
    state: RouteState,
    source: owned::SinkInputView,
    target: u32,
)
    requires
        state.progress is Idle,
        !state.intercepts.contains_key(source.index),
    ensures
        state.update_next(source, target) == (
            state,
            StepView::Done(OutcomeView::Updated(Ok(()))),
        ),
        state.stop_next(source.index, target) == (
            state,
            StepView::Done(OutcomeView::Stopped(Ok(false))),
        ),
{
}

/// When an intercepted application is corked or uncorked, then the record stream
/// is corked if and only if all intercepted applications are corked now.
pub proof fn law_route_cork_follows(
    state: RouteState,
    source: owned::SinkInputView,
    result: Result<(), Code>,
    target: u32,
)
    requires
        state.progress is Idle,
        state.intercepts.contains_key(source.index),
        state.intercepts[source.index].corked != source.corked,
    ensures
        ({
            let input = InputState {
                orig_sink: state.intercepts[source.index].orig_sink,
                corked: source.corked,
            };
            let after = state.intercepts.insert(source.index, input);
            let s1 = state.update_next(source, target);
            let s2 = s1.0.resume_next(Reply::Status(result), target);
            &&& s1.1 == StepView::Request(
                Request::SetCork(forall|k: u32| #[trigger] after.contains_key(k) ==> after[k].corked),
            )
            &&& s2 == (
                RouteState { intercepts: after, ..state },
                StepView::Done(OutcomeView::Updated(result)),
            )
        }),
{
}

/// If the record stream cannot be corked or uncorked after an application has been
/// moved, then the error is reported. The application is intercepted nevertheless,
/// so that it is moved back in the end.
pub proof fn law_route_record_cork_fails(
    state: RouteState,
    source: owned::SinkInputView,
    e: Code,
    target: u32,
)
    requires
        state.progress is Idle,
        state.limit matches Some(n) ==> state.intercepts.len() < n,
    ensures
        ({
            let s1 = state.record_next(source, true, target);
            let s2 = s1.0.resume_next(Reply::Status(Ok(())), target);
            let s3 = s2.0.resume_next(Reply::Status(Err(e)), target);
            &&& s3.1 == StepView::Done(OutcomeView::Recorded(Err(ErrorView::PulseError(e))))
            &&& s3.0.progress is Idle
            &&& s3.0.limit == state.limit
            &&& s3.0.intercepts.contains_key(source.index)
            &&& s3.0.intercepts[source.index].orig_sink == source.sink
            &&& forall|k: u32| #[trigger]
                s3.0.intercepts.contains_key(k) <==> state.intercepts.contains_key(k) || k
                    == source.index
        }),
{
}

/// The record stream is uncorked as soon as one intercepted application plays
/// audio, and corked when the last one pauses.
pub proof fn law_route_stream_plays_if_any_does(
    state: RouteState,
    source: owned::SinkInputView,
    other: u32,
    target: u32,
)
    requires
        state.progress is Idle,
        state.intercepts.contains_key(source.index),
        state.intercepts[source.index].corked != source.corked,
    ensures
        ({
            let step = state.update_next(source, target).1;
            &&& !source.corked ==> step == StepView::Request(Request::SetCork(false))
            &&& state.intercepts.contains_key(other) && other != source.index
                && !state.intercepts[other].corked ==> step == StepView::Request(
                Request::SetCork(false),
            )
            &&& source.corked && (forall|k: u32| #[trigger]
                state.intercepts.contains_key(k) && k != source.index ==> state.intercepts[k].corked)
                ==> step == StepView::Request(Request::SetCork(true))
        }),
{
    let input = InputState { corked: source.corked, ..state.intercepts[source.index] };
    let after = state.intercepts.insert(source.index, input);
    assert(after.contains_key(source.index));
    if state.intercepts.contains_key(other) && other != source.index {
        assert(after.contains_key(other) && after[other] == state.intercepts[other]);
    }
    if source.corked && (forall|k: u32| #[trigger]
        state.intercepts.contains_key(k) && k != source.index ==> state.intercepts[k].corked) {
        assert forall|k: u32| #[trigger] after.contains_key(k) implies after[k].corked by {
            if k != source.index {
                assert(state.intercepts.contains_key(k));
            }
        }
        assert(types::all_corked(after));
    }
}

/// An update that does not change whether an intercepted application is corked
/// has no effect.
pub proof fn law_route_update_unchanged(
    state: RouteState,
    source: owned::SinkInputView,
    target: u32,
)
    requires
        state.progress is Idle,
        state.intercepts.contains_key(source.index),
        state.intercepts[source.index].corked == source.corked,
    ensures
        state.update_next(source, target) == (
            state,
            StepView::Done(OutcomeView::Updated(Ok(()))),
        ),
{
}

/// An application that turns out to be gone, before or while it is moved back, is
/// no longer intercepted. The record stream is stopped if and only if it was the
/// last one.
pub proof fn law_route_stop_gone(
    state: RouteState,
    index: u32,
    sink: u32,
    gone_before: bool,
    target: u32,
)
    requires
        state.progress is Idle,
        state.intercepts.contains_key(index),
    ensures
        ({
            let gone = Reply::Status(Err(Code::NoEntity));
            let s1 = state.stop_next(index, target);
            let s2 = s1.0.resume_next(Reply::Sink(Ok(sink)), target);
            let s3 = if gone_before {
                s2
            } else {
                s2.0.resume_next(Reply::Status(Ok(())), target)
            };
            let s4 = s3.0.resume_next(gone, target);
            let s5 = if state.intercepts.remove(index).len() == 0 {
                s4.0.resume_next(Reply::Done, target)
            } else {
                s4
            };
            &&& s4.1 == StepView::Request(Request::StopStream) <==> state.intercepts.remove(
                index,
            ).len() == 0
            &&& s5.1 == StepView::Done(OutcomeView::Stopped(Ok(true)))
            &&& s5.0 == RouteState { intercepts: state.intercepts.remove(index), ..state }
        }),
{
}

/// If neither the sink an application came from nor the default sink can be
/// looked up, then the error is reported, and the application remains intercepted.
pub proof fn law_route_stop_without_sink(
    state: RouteState,
    index: u32,
    e: Code,
    target: u32,
)
    requires
        state.progress is Idle,
        state.intercepts.contains_key(index),
    ensures
        ({
            let s1 = state.stop_next(index, target);
            let s2 = s1.0.resume_next(Reply::Sink(Err(Code::NoEntity)), target);
            let s3 = s2.0.resume_next(Reply::Sink(Err(e)), target);
            &&& s2.1 == StepView::Request(Request::GetDefaultSink)
            &&& s3 == (state, StepView::Done(OutcomeView::Stopped(Err(e))))
        }),
{
}

/// Recording an application and stopping it again moves it back to the sink it
/// was recorded from, and leaves no trace of it.
pub proof fn law_route_round_trip(
    state: RouteState,
    source: owned::SinkInputView,
    target: u32,
)
    requires
        state.progress is Idle,
        !state.intercepts.contains_key(source.index),
        state.intercepts.dom().finite(),
        state.intercepts.len() > 0,
        state.limit matches Some(n) ==> state.intercepts.len() < n,
    ensures
        ({
            let ok = Reply::Status(Ok(()));
            let r1 = state.record_next(source, true, target);
            let r2 = r1.0.resume_next(ok, target);
            let r3 = r2.0.resume_next(ok, target);
            let s1 = r3.0.stop_next(source.index, target);
            let s2 = s1.0.resume_next(Reply::Sink(Ok(source.sink)), target);
            let s3 = s2.0.resume_next(ok, target);
            let s4 = s3.0.resume_next(ok, target);
            &&& r1.1 == StepView::Request(
                Request::MoveSinkInput { input: source.index, sink: target },
            )
            &&& s1.1 == StepView::Request(Request::GetSink(source.sink))
            &&& s3.1 == StepView::Request(
                Request::MoveSinkInput { input: source.index, sink: source.sink },
            )
            &&& s4 == (state, StepView::Done(OutcomeView::Stopped(Ok(true))))
        }),
{
    let input = InputState { orig_sink: source.sink, corked: source.corked };
    assert(state.intercepts.insert(source.index, input).remove(source.index) =~= state.intercepts);
}

/// Capturing interceptors move applications to the record sink, so that they are
/// no longer heard.
pub proof fn law_capture_target(
    state: types::CapturingState,
    source: owned::SinkInputView,
)
    requires
        state.routes.progress is Idle,
        state.routes.limit matches Some(n) ==> state.routes.intercepts.len() < n,
    ensures
        CapturingInterceptor::record_next(state, source, true).1 == StepView::Request(
            Request::MoveSinkInput { input: source.index, sink: state.rec.index },
        ),
{
}

/// Duplexing interceptors move applications to the sink that duplicates their
/// audio.
pub proof fn law_duplex_target(
    state: types::DuplexingState,
    source: owned::SinkInputView,
)
    requires
        state.routes.progress is Idle,
        state.routes.limit matches Some(n) ==> state.routes.intercepts.len() < n,
    ensures
        DuplexingInterceptor::record_next(state, source, true).1 == StepView::Request(
            Request::MoveSinkInput { input: source.index, sink: state.demux.index },
        ),
{
}

/// No operation of a capturing interceptor changes its record sink. All of them route
/// applications to that sink.
pub proof fn law_capture_operations(
    state: types::CapturingState,
    source: owned::SinkInputView,
    index: u32,
    reply: Reply,
    running: bool,
)
    ensures
        ({
            let target = state.rec.index;
            let recorded = CapturingInterceptor::record_next(state, source, running);
            let updated = CapturingInterceptor::update_next(state, source, running);
            let stopped = CapturingInterceptor::stop_next(state, index, running);
            let resumed = CapturingInterceptor::resume_next(state, reply, running);
            &&& recorded == (
                types::CapturingState { routes: recorded.0.routes, ..state },
                state.routes.record_next(source, running, target).1,
            )
            &&& recorded.0.routes == state.routes.record_next(source, running, target).0
            &&& updated == (
                types::CapturingState { routes: updated.0.routes, ..state },
                state.routes.update_next(source, target).1,
            )
            &&& updated.0.routes == state.routes.update_next(source, target).0
            &&& stopped == (
                types::CapturingState { routes: stopped.0.routes, ..state },
                state.routes.stop_next(index, target).1,
            )
            &&& stopped.0.routes == state.routes.stop_next(index, target).0
            &&& resumed == (
                types::CapturingState { routes: resumed.0.routes, ..state },
                state.routes.resume_next(reply, target).1,
            )
            &&& resumed.0.routes == state.routes.resume_next(reply, target).0
            &&& CapturingInterceptor::count(state) == state.routes.intercepts.dom().len()
            &&& CapturingInterceptor::limit(state) == state.routes.limit
        }),
{
}

/// No operation of a duplexing interceptor changes its sinks. All of them route
/// applications to the sink that duplicates their audio.
pub proof fn law_duplex_operations(
    state: types::DuplexingState,
    source: owned::SinkInputView,
    index: u32,
    reply: Reply,
    running: bool,
)
    ensures
        ({
            let target = state.demux.index;
            let recorded = DuplexingInterceptor::record_next(state, source, running);
            let updated = DuplexingInterceptor::update_next(state, source, running);
            let stopped = DuplexingInterceptor::stop_next(state, index, running);
            let resumed = DuplexingInterceptor::resume_next(state, reply, running);
            &&& recorded == (
                types::DuplexingState { routes: recorded.0.routes, ..state },
                state.routes.record_next(source, running, target).1,
            )
            &&& recorded.0.routes == state.routes.record_next(source, running, target).0
            &&& updated == (
                types::DuplexingState { routes: updated.0.routes, ..state },
                state.routes.update_next(source, target).1,
            )
            &&& updated.0.routes == state.routes.update_next(source, target).0
            &&& stopped == (
                types::DuplexingState { routes: stopped.0.routes, ..state },
                state.routes.stop_next(index, target).1,
            )
            &&& stopped.0.routes == state.routes.stop_next(index, target).0
            &&& resumed == (
                types::DuplexingState { routes: resumed.0.routes, ..state },
                state.routes.resume_next(reply, target).1,
            )
            &&& resumed.0.routes == state.routes.resume_next(reply, target).0
            &&& DuplexingInterceptor::count(state) == state.routes.intercepts.dom().len()
            &&& DuplexingInterceptor::limit(state) == state.routes.limit
        }),
{
}

/// Closing a capturing interceptor stops every intercepted application and no
/// other, and tears down the record sink and no other. Applications that are left
/// there are not moved to any sink in particular.
pub proof fn law_capture_closing(state: types::CapturingState)
    ensures
        ({
            let plan = CapturingInterceptor::closing(state);
            &&& forall|index: u32| #[trigger]
                plan.stop.contains(index) <==> state.routes.intercepts.contains_key(index)
            &&& plan.tear_down.len() == 1
            &&& plan.tear_down[0] == (state.rec, None::<u32>)
            &&& !plan.stop_stream
        }),
{
}

/// Closing a duplexing interceptor stops every intercepted application and no
/// other. The sink that duplicates audio is torn down before the record sink that
/// it depends on, and applications that are left at either of them move to the
/// sink where their audio was heard all along.
pub proof fn law_duplex_closing(state: types::DuplexingState)
    ensures
        ({
            let plan = DuplexingInterceptor::closing(state);
            &&& forall|index: u32| #[trigger]
                plan.stop.contains(index) <==> state.routes.intercepts.contains_key(index)
            &&& plan.tear_down.len() == 2
            &&& plan.tear_down[0] == (state.demux, Some(state.orig.index))
            &&& plan.tear_down[1] == (state.rec, Some(state.orig.index))
            &&& !plan.stop_stream
        }),
{
}

/// The plan for closing a capturing interceptor, queued or not, lists each
/// intercepted application exactly once, and the record sink.
pub proof fn law_capture_close_plan(
    interceptor: CapturingInterceptor,
    queued: QueuedInterceptor<CapturingInterceptor>,
    plan: types::ClosePlan,
    state: types::CapturingState,
)
    requires
        ({
            ||| call_ensures(
                <CapturingInterceptor as Interceptor>::close_plan,
                (&interceptor,),
                plan,
            ) && state == interceptor.state()
            ||| call_ensures(
                <QueuedInterceptor<CapturingInterceptor> as Interceptor>::close_plan,
                (&queued,),
                plan,
            ) && state == queued.state().inner
        }),
    ensures
        plan.stop@.no_duplicates(),
        forall|index: u32| #[trigger]
            plan.stop@.contains(index) <==> state.routes.intercepts.contains_key(index),
        plan.tear_down@.len() == 1,
        plan.tear_down@[0].0@ == state.rec,
        plan.tear_down@[0].1 is None,
{
    assert(plan@.tear_down.len() == plan.tear_down@.len());
    assert(plan@.tear_down[0] == (plan.tear_down@[0].0@, plan.tear_down@[0].1));
    assert forall|index: u32| #[trigger] plan.stop@.contains(index) implies plan@.stop.contains(
        index,
    ) by {}
    assert forall|index: u32| plan@.stop.contains(index) implies #[trigger] plan.stop@.contains(
        index,
    ) by {}
}

/// The plan for closing a duplexing interceptor, queued or not, lists each
/// intercepted application exactly once, and both virtual sinks.
pub proof fn law_duplex_close_plan(
    interceptor: DuplexingInterceptor,
    queued: QueuedInterceptor<DuplexingInterceptor>,
    plan: types::ClosePlan,
    state: types::DuplexingState,
)
    requires
        ({
            ||| call_ensures(
                <DuplexingInterceptor as Interceptor>::close_plan,
                (&interceptor,),
                plan,
            ) && state == interceptor.state()
            ||| call_ensures(
                <QueuedInterceptor<DuplexingInterceptor> as Interceptor>::close_plan,
                (&queued,),
                plan,
            ) && state == queued.state().inner
        }),
    ensures
        plan.stop@.no_duplicates(),
        forall|index: u32| #[trigger]
            plan.stop@.contains(index) <==> state.routes.intercepts.contains_key(index),
        plan.tear_down@.len() == 2,
        plan.tear_down@[0].0@ == state.demux,
        plan.tear_down@[1].0@ == state.rec,
        plan.tear_down@[0].1 == Some(state.orig.index),
        plan.tear_down@[1].1 == Some(state.orig.index),
{
    assert(plan@.tear_down.len() == plan.tear_down@.len());
    assert(plan@.tear_down[0] == (plan.tear_down@[0].0@, plan.tear_down@[0].1));
    assert(plan@.tear_down[1] == (plan.tear_down@[1].0@, plan.tear_down@[1].1));
    assert forall|index: u32| #[trigger] plan.stop@.contains(index) implies plan@.stop.contains(
        index,
    ) by {}
    assert forall|index: u32| plan@.stop.contains(index) implies #[trigger] plan.stop@.contains(
        index,
    ) by {}
}

// QUEUED INTERCEPTOR **********************************************************

/// No operation of a queued interceptor ever fails for lack of capacity.
pub proof fn law_queue_never_at_capacity<I: LimitingInterceptor>(
    state: QueuedState<I::State>,
    source: owned::SinkInputView,
    index: u32,
    reply: Reply,
    running: bool,
    n: usize,
    refused: owned::SinkInputView,
)
    ensures
        ({
            let at_capacity = StepView::Done(
                OutcomeView::Recorded(Err(ErrorView::AtCapacity(n, refused))),
            );
            &&& QueuedInterceptor::<I>::record_next(state, source, running).1 != at_capacity
            &&& QueuedInterceptor::<I>::update_next(state, source, running).1 != at_capacity
            &&& QueuedInterceptor::<I>::stop_next(state, index, running).1 != at_capacity
            &&& QueuedInterceptor::<I>::resume_next(state, reply, running).1 != at_capacity
        }),
{
}

/// Corked applications are queued without being passed to the underlying
/// interceptor.
pub proof fn law_queue_holds_corked<I: LimitingInterceptor>(
    state: QueuedState<I::State>,
    source: owned::SinkInputView,
    running: bool,
)
    requires
        state.progress is Idle,
        source.corked,
    ensures
        QueuedInterceptor::<I>::record_next(state, source, running) == (
            QueuedState { queue: state.queue.push(source), ..state },
            StepView::Done(OutcomeView::Recorded(Ok(()))),
        ),
{
}

/// Applications that the underlying interceptor refuses for lack of capacity are
/// added to the end of the queue.
pub proof fn law_queue_holds_refused<I: LimitingInterceptor>(
    state: QueuedState<I::State>,
    source: owned::SinkInputView,
    running: bool,
    n: usize,
)
    requires
        state.progress is Idle,
        !source.corked,
        I::record_next(state.inner, source, running) == (
            state.inner,
            StepView::Done(OutcomeView::Recorded(Err(ErrorView::AtCapacity(n, source)))),
        ),
    ensures
        QueuedInterceptor::<I>::record_next(state, source, running) == (
            QueuedState { queue: state.queue.push(source), ..state },
            StepView::Done(OutcomeView::Recorded(Ok(()))),
        ),
{
}

/// When a recorded application has been stopped, then the first uncorked
/// application in the queue leaves the queue and is passed to the underlying
/// interceptor. The order of the remaining applications is kept.
pub proof fn law_queue_first_takes_place<I: LimitingInterceptor>(
    state: QueuedState<I::State>,
    i: int,
    request: Request,
    running: bool,
)
    requires
        0 <= i < state.queue.len(),
        !state.queue[i].corked,
        forall|j: int| 0 <= j < i ==> (#[trigger] state.queue[j]).corked,
        I::record_next(state.inner, state.queue[i], running).1 == StepView::Request(request),
    ensures
        QueuedInterceptor::<I>::after_stop(
            state,
            StepView::Done(OutcomeView::Stopped(Ok(true))),
            running,
        ) == (
            QueuedState {
                inner: I::record_next(state.inner, state.queue[i], running).0,
                queue: state.queue.remove(i),
                progress: QueueProgress::StopRecording,
            },
            StepView::Request(request),
        ),
{
    types::lemma_first_uncorked(state.queue);
    assert(types::first_uncorked(state.queue) == i) by {
        let k = types::first_uncorked(state.queue) as int;
        if k < i {
            assert(state.queue[k].corked);
        } else if k > i {
            assert(state.queue[i].corked);
        }
    }
}

/// Stopping an application removes it from the queue, and keeps all other
/// queued applications.
pub proof fn law_queue_stop_removes(
    queue: Seq<owned::SinkInputView>,
    index: u32,
    other: owned::SinkInputView,
)
    ensures
        forall|i: int|
            0 <= i < types::without(queue, index).len() ==> (#[trigger] types::without(
                queue,
                index,
            )[i]).index != index,
        queue.contains(other) && other.index != index <==> types::without(queue, index).contains(
            other,
        ),
    decreases queue.len(),
{
    reveal(Seq::filter);
    let kept = types::without(queue, index);
    if queue.len() > 0 {
        let before = queue.drop_last();
        law_queue_stop_removes(before, index, other);
        assert(queue =~= before.push(queue.last()));
        let kept_before = types::without(before, index);
        if queue.contains(other) {
            let i = choose|i: int| 0 <= i < queue.len() && queue[i] == other;
            if i < before.len() {
                assert(before[i] == other);
            }
        }
        if before.contains(other) {
            let i = choose|i: int| 0 <= i < before.len() && before[i] == other;
            assert(queue[i] == other);
        }
        if kept.contains(other) {
            let i = choose|i: int| 0 <= i < kept.len() && kept[i] == other;
            if i < kept_before.len() {
                assert(kept_before[i] == other);
            } else {
                assert(queue[queue.len() - 1] == other);
            }
        }
        if kept_before.contains(other) {
            let i = choose|i: int| 0 <= i < kept_before.len() && kept_before[i] == other;
            assert(kept[i] == other);
        }
        if queue.last() == other && other.index != index {
            assert(kept[kept.len() - 1] == other);
        }
    }
}

/// Updating an application changes neither the order nor the number of queued
/// applications, and affects only the application with the same index.
pub proof fn law_queue_update_refreshes(
    queue: Seq<owned::SinkInputView>,
    source: owned::SinkInputView,
    i: int,
)
    requires
        0 <= i < queue.len(),
    ensures
        types::refreshed(queue, source).len() == queue.len(),
        types::refreshed(queue, source)[i] == (if queue[i].index == source.index {
            source
        } else {
            queue[i]
        }),
{
}

/// The removal of an application that is neither queued nor known to the
/// underlying interceptor is ignored.
pub proof fn law_queue_ignores_unknown_removal<I: LimitingInterceptor>(
    state: QueuedState<I::State>,
    index: u32,
    running: bool,
)
    requires
        state.progress is Idle,
        forall|i: int| 0 <= i < state.queue.len() ==> (#[trigger] state.queue[i]).index != index,
        I::stop_next(state.inner, index, running) == (
            state.inner,
            StepView::Done(OutcomeView::Stopped(Ok(false))),
        ),
    ensures
        QueuedInterceptor::<I>::stop_next(state, index, running) == (
            state,
            StepView::Done(OutcomeView::Stopped(Ok(false))),
        ),
{
    lemma_without_absent(state.queue, index);
}

/// Whether the application at the given position is the first uncorked one.
pub open spec fn is_first_uncorked(queue: Seq<owned::SinkInputView>, i: int) -> bool {
    &&& 0 <= i < queue.len()
    &&& !queue[i].corked
    &&& forall|j: int| 0 <= j < i ==> (#[trigger] queue[j]).corked
}

/// Whether `after` is `before` with the metadata of one application replaced.
pub open spec fn is_refreshed(
    before: Seq<owned::SinkInputView>,
    source: owned::SinkInputView,
    after: Seq<owned::SinkInputView>,
) -> bool {
    &&& after.len() == before.len()
    &&& forall|j: int|
        0 <= j < before.len() ==> #[trigger] after[j] == (if before[j].index == source.index {
            source
        } else {
            before[j]
        })
}

/// The position of the first uncorked application is found.
proof fn lemma_is_first_uncorked(queue: Seq<owned::SinkInputView>, i: int)
    requires
        is_first_uncorked(queue, i),
    ensures
        types::first_uncorked(queue) == i,
{
    types::lemma_first_uncorked(queue);
    let k = types::first_uncorked(queue) as int;
    if k < i {
        assert(queue[k].corked);
    } else if k > i {
        assert(queue[i].corked);
    }
}

/// If all queued applications are corked, then none is found.
proof fn lemma_none_uncorked(queue: Seq<owned::SinkInputView>)
    requires
        forall|j: int| 0 <= j < queue.len() ==> (#[trigger] queue[j]).corked,
    ensures
        types::first_uncorked(queue) == queue.len(),
{
    types::lemma_first_uncorked(queue);
}

/// Once an update has been applied without an error, and there is room for another
/// application, then the first uncorked application in the queue leaves the queue
/// and is recorded. This holds whether or not the update took any requests.
pub proof fn law_queue_update_fills_room<I: LimitingInterceptor>(
    state: QueuedState<I::State>,
    source: owned::SinkInputView,
    queue: Seq<owned::SinkInputView>,
    i: int,
    reply: Reply,
    request: Request,
    running: bool,
)
    requires
        is_first_uncorked(queue, i),
    ensures
        ({
            let inner = I::update_next(state.inner, source, running);
            let recorded = I::record_next(inner.0, queue[i], running);
            state.progress is Idle && is_refreshed(state.queue, source, queue) && inner.1
                == StepView::Done(OutcomeView::Updated(Ok(()))) && (I::limit(inner.0) matches Some(
                n,
            ) ==> I::count(inner.0) < n) && recorded.1 == StepView::Request(request) ==> {
                let next = QueuedInterceptor::<I>::update_next(state, source, running);
                &&& next.1 == StepView::Request(request)
                &&& next.0.inner == recorded.0
                &&& next.0.queue == queue.remove(i)
                &&& next.0.progress is UpdateRecording
            }
        }),
        ({
            let inner = I::resume_next(state.inner, reply, running);
            let recorded = I::record_next(inner.0, queue[i], running);
            state.progress is Updating && state.queue == queue && inner.1 == StepView::Done(
                OutcomeView::Updated(Ok(())),
            ) && (I::limit(inner.0) matches Some(n) ==> I::count(inner.0) < n) && recorded.1
                == StepView::Request(request) ==> {
                let next = QueuedInterceptor::<I>::resume_next(state, reply, running);
                &&& next.1 == StepView::Request(request)
                &&& next.0.inner == recorded.0
                &&& next.0.queue == queue.remove(i)
                &&& next.0.progress is UpdateRecording
            }
        }),
{
    lemma_is_first_uncorked(queue, i);
    if is_refreshed(state.queue, source, queue) {
        assert(types::refreshed(state.queue, source) =~= queue);
    }
}

/// While there is no room, an update has no influence on which applications are
/// queued. Neither has one that fails, or one after which no queued application is
/// uncorked.
pub proof fn law_queue_update_keeps_waiting<I: LimitingInterceptor>(
    state: QueuedState<I::State>,
    source: owned::SinkInputView,
    queue: Seq<owned::SinkInputView>,
    reply: Reply,
    result: Result<(), Code>,
    running: bool,
)
    ensures
        ({
            let inner = I::update_next(state.inner, source, running);
            let full = I::limit(inner.0) matches Some(n) && I::count(inner.0) == n;
            let idle = forall|j: int| 0 <= j < queue.len() ==> (#[trigger] queue[j]).corked;
            state.progress is Idle && is_refreshed(state.queue, source, queue) && inner.1
                == StepView::Done(OutcomeView::Updated(result)) && (full || idle || result is Err)
                ==> QueuedInterceptor::<I>::update_next(state, source, running) == (
                QueuedState { inner: inner.0, queue, progress: QueueProgress::Idle },
                StepView::Done(OutcomeView::Updated(result)),
            )
        }),
        ({
            let inner = I::resume_next(state.inner, reply, running);
            let full = I::limit(inner.0) matches Some(n) && I::count(inner.0) == n;
            let idle = forall|j: int| 0 <= j < queue.len() ==> (#[trigger] queue[j]).corked;
            state.progress is Updating && state.queue == queue && inner.1 == StepView::Done(
                OutcomeView::Updated(result),
            ) && (full || idle || result is Err) ==> QueuedInterceptor::<I>::resume_next(
                state,
                reply,
                running,
            ) == (
                QueuedState { inner: inner.0, queue, progress: QueueProgress::Idle },
                StepView::Done(OutcomeView::Updated(result)),
            )
        }),
{
    if is_refreshed(state.queue, source, queue) {
        assert(types::refreshed(state.queue, source) =~= queue);
    }
    if let Ok(done) = result {
        assert(done == ());
    }
    if forall|j: int| 0 <= j < queue.len() ==> (#[trigger] queue[j]).corked {
        lemma_none_uncorked(queue);
    }
}

/// While fewer applications are captured than the limit allows, uncorking a queued
/// application makes it leave the queue and be moved to the record sink. If the
/// record stream is not running, then that is started first.
pub proof fn law_queue_uncorked_is_captured(
    state: QueuedState<types::CapturingState>,
    source: owned::SinkInputView,
    i: int,
    running: bool,
)
    requires
        state.progress is Idle,
        state.inner.routes.progress is Idle,
        state.inner.routes.limit matches Some(n) ==> state.inner.routes.intercepts.len() < n,
        !state.inner.routes.intercepts.contains_key(source.index),
        0 <= i < state.queue.len(),
        state.queue[i].index == source.index,
        !source.corked,
        forall|j: int|
            0 <= j < i ==> (#[trigger] state.queue[j]).corked && state.queue[j].index
                != source.index,
    ensures
        ({
            let next = QueuedInterceptor::<CapturingInterceptor>::update_next(
                state,
                source,
                running,
            );
            &&& running ==> next.1 == StepView::Request(
                Request::MoveSinkInput { input: source.index, sink: state.inner.rec.index },
            )
            &&& !running ==> next.1 == StepView::Request(
                Request::StartStream(StreamOrigin::RecordSink),
            )
            &&& next.0.queue.len() == state.queue.len() - 1
        }),
{
    let queue = types::refreshed(state.queue, source);
    assert(is_first_uncorked(queue, i));
    lemma_is_first_uncorked(queue, i);
}

/// While fewer applications are duplicated than the limit allows, uncorking a
/// queued application makes it leave the queue and be moved to the sink that
/// duplicates audio. If the record stream is not running, then that is started
/// first.
pub proof fn law_queue_uncorked_is_duplicated(
    state: QueuedState<types::DuplexingState>,
    source: owned::SinkInputView,
    i: int,
    running: bool,
)
    requires
        state.progress is Idle,
        state.inner.routes.progress is Idle,
        state.inner.routes.limit matches Some(n) ==> state.inner.routes.intercepts.len() < n,
        !state.inner.routes.intercepts.contains_key(source.index),
        0 <= i < state.queue.len(),
        state.queue[i].index == source.index,
        !source.corked,
        forall|j: int|
            0 <= j < i ==> (#[trigger] state.queue[j]).corked && state.queue[j].index
                != source.index,
    ensures
        ({
            let next = QueuedInterceptor::<DuplexingInterceptor>::update_next(
                state,
                source,
                running,
            );
            &&& running ==> next.1 == StepView::Request(
                Request::MoveSinkInput { input: source.index, sink: state.inner.demux.index },
            )
            &&& !running ==> next.1 == StepView::Request(
                Request::StartStream(StreamOrigin::RecordSink),
            )
            &&& next.0.queue.len() == state.queue.len() - 1
        }),
{
    let queue = types::refreshed(state.queue, source);
    assert(is_first_uncorked(queue, i));
    lemma_is_first_uncorked(queue, i);
}

/// An uncorked application is passed to the underlying interceptor at once, ahead
/// of any that are queued. How that ends is how recording it ends.
pub proof fn law_queue_passes_uncorked<I: LimitingInterceptor>(
    state: QueuedState<I::State>,
    source: owned::SinkInputView,
    reply: Reply,
    request: Request,
    e: Code,
    running: bool,
)
    requires
        state.progress is Idle,
        !source.corked,
        I::record_next(state.inner, source, running).1 == StepView::Request(request),
    ensures
        ({
            let s1 = QueuedInterceptor::<I>::record_next(state, source, running);
            let s2 = QueuedInterceptor::<I>::resume_next(s1.0, reply, running);
            let inner = I::record_next(state.inner, source, running).0;
            let resumed = I::resume_next(inner, reply, running);
            &&& s1.1 == StepView::Request(request)
            &&& s1.0.inner == inner
            &&& s1.0.queue == state.queue
            &&& s2.0.inner == resumed.0
            &&& resumed.1 is Request ==> s2.1 == resumed.1 && s2.0.queue == state.queue
            &&& resumed.1 == StepView::Done(OutcomeView::Recorded(Ok(()))) ==> s2.1 == resumed.1
                && s2.0.queue == state.queue && s2.0.progress is Idle
            &&& resumed.1 == StepView::Done(OutcomeView::Recorded(Err(ErrorView::PulseError(e))))
                ==> s2.1 == resumed.1 && s2.0.queue == state.queue && s2.0.progress is Idle
        }),
{
}

/// An operation that waits for the underlying interceptor waits for exactly the
/// request that it makes, and remains the same operation.
pub proof fn law_queue_relays_requests<I: LimitingInterceptor>(
    state: QueuedState<I::State>,
    source: owned::SinkInputView,
    index: u32,
    reply: Reply,
    request: Request,
    running: bool,
)
    ensures
        QueuedInterceptor::<I>::pending(state) == I::pending(state.inner),
        QueuedInterceptor::<I>::count(state) == I::count(state.inner),
        I::update_next(state.inner, source, running).1 == StepView::Request(request) ==> ({
            let next = QueuedInterceptor::<I>::update_next(state, source, running);
            &&& next.1 == StepView::Request(request)
            &&& next.0.inner == I::update_next(state.inner, source, running).0
            &&& next.0.progress is Updating
            &&& is_refreshed(state.queue, source, next.0.queue)
        }),
        I::stop_next(state.inner, index, running).1 == StepView::Request(request) ==> ({
            let next = QueuedInterceptor::<I>::stop_next(state, index, running);
            &&& next.1 == StepView::Request(request)
            &&& next.0.inner == I::stop_next(state.inner, index, running).0
            &&& next.0.progress is Stopping
            &&& next.0.queue == types::without(state.queue, index)
        }),
        I::resume_next(state.inner, reply, running).1 == StepView::Request(request)
            && state.progress !is Idle ==> ({
            let next = QueuedInterceptor::<I>::resume_next(state, reply, running);
            &&& next.1 == StepView::Request(request)
            &&& next.0.inner == I::resume_next(state.inner, reply, running).0
            &&& next.0.progress == state.progress
            &&& next.0.queue == state.queue
        }),
{
}

/// Once a recorded application has been stopped, the first uncorked application in
/// the queue takes its place. This holds whether or not stopping it took any
/// requests.
pub proof fn law_queue_stop_fills_place<I: LimitingInterceptor>(
    state: QueuedState<I::State>,
    index: u32,
    i: int,
    reply: Reply,
    request: Request,
    running: bool,
)
    requires
        is_first_uncorked(state.queue, i),
        forall|j: int| 0 <= j < state.queue.len() ==> (#[trigger] state.queue[j]).index != index,
    ensures
        ({
            let inner = I::stop_next(state.inner, index, running);
            let recorded = I::record_next(inner.0, state.queue[i], running);
            state.progress is Idle && inner.1 == StepView::Done(OutcomeView::Stopped(Ok(true)))
                && recorded.1 == StepView::Request(request) ==> {
                let next = QueuedInterceptor::<I>::stop_next(state, index, running);
                &&& next.1 == StepView::Request(request)
                &&& next.0.inner == recorded.0
                &&& next.0.queue == state.queue.remove(i)
                &&& next.0.progress is StopRecording
            }
        }),
        ({
            let inner = I::resume_next(state.inner, reply, running);
            let recorded = I::record_next(inner.0, state.queue[i], running);
            state.progress is Stopping && inner.1 == StepView::Done(OutcomeView::Stopped(Ok(true)))
                && recorded.1 == StepView::Request(request) ==> {
                let next = QueuedInterceptor::<I>::resume_next(state, reply, running);
                &&& next.1 == StepView::Request(request)
                &&& next.0.inner == recorded.0
                &&& next.0.queue == state.queue.remove(i)
                &&& next.0.progress is StopRecording
            }
        }),
{
    lemma_is_first_uncorked(state.queue, i);
    lemma_without_absent(state.queue, index);
}

/// If stopping fails, or the application was not recorded, then this is reported,
/// and no queued application is recorded. If the application was recorded but all
/// queued ones are corked, then none of them takes its place.
pub proof fn law_queue_stop_keeps_waiting<I: LimitingInterceptor>(
    state: QueuedState<I::State>,
    index: u32,
    reply: Reply,
    result: Result<bool, Code>,
    running: bool,
)
    requires
        result == Ok::<bool, Code>(true) ==> (forall|j: int|
            0 <= j < state.queue.len() ==> (#[trigger] state.queue[j]).corked),
    ensures
        ({
            let inner = I::stop_next(state.inner, index, running);
            let next = QueuedInterceptor::<I>::stop_next(state, index, running);
            state.progress is Idle && inner.1 == StepView::Done(OutcomeView::Stopped(result)) && (
            forall|j: int| 0 <= j < state.queue.len() ==> (#[trigger] state.queue[j]).index != index)
                ==> next == (
                QueuedState { inner: inner.0, ..state },
                StepView::Done(OutcomeView::Stopped(result)),
            )
        }),
        ({
            let inner = I::resume_next(state.inner, reply, running);
            let next = QueuedInterceptor::<I>::resume_next(state, reply, running);
            state.progress is Stopping && inner.1 == StepView::Done(OutcomeView::Stopped(result))
                ==> next == (
                QueuedState { inner: inner.0, progress: QueueProgress::Idle, ..state },
                StepView::Done(OutcomeView::Stopped(result)),
            )
        }),
{
    if forall|j: int| 0 <= j < state.queue.len() ==> (#[trigger] state.queue[j]).index != index {
        lemma_without_absent(state.queue, index);
    }
    if result == Ok::<bool, Code>(true) {
        lemma_none_uncorked(state.queue);
    }
}

/// When an application from the queue has been recorded after an update or after
/// another application was stopped, then that operation succeeds, and fails with
/// the error if it could not be recorded. If there turns out to be no room for it,
/// then it is queued again at the end.
pub proof fn law_queue_concludes<I: LimitingInterceptor>(
    state: QueuedState<I::State>,
    reply: Reply,
    e: Code,
    n: usize,
    refused: owned::SinkInputView,
    running: bool,
)
    ensures
        ({
            let inner = I::resume_next(state.inner, reply, running);
            let next = QueuedInterceptor::<I>::resume_next(state, reply, running);
            let idle = QueuedState { inner: inner.0, progress: QueueProgress::Idle, ..state };
            let recorded = StepView::Done(OutcomeView::Recorded(Ok(())));
            let failed = StepView::Done(OutcomeView::Recorded(Err(ErrorView::PulseError(e))));
            let full = StepView::Done(
                OutcomeView::Recorded(Err(ErrorView::AtCapacity(n, refused))),
            );
            let requeued = QueuedState { queue: state.queue.push(refused), ..idle };
            &&& state.progress is UpdateRecording && inner.1 == recorded ==> next == (
                idle,
                StepView::Done(OutcomeView::Updated(Ok(()))),
            )
            &&& state.progress is UpdateRecording && inner.1 == failed ==> next == (
                idle,
                StepView::Done(OutcomeView::Updated(Err(e))),
            )
            &&& state.progress is UpdateRecording && inner.1 == full ==> next == (
                requeued,
                StepView::Done(OutcomeView::Updated(Ok(()))),
            )
            &&& state.progress is StopRecording && inner.1 == recorded ==> next == (
                idle,
                StepView::Done(OutcomeView::Stopped(Ok(true))),
            )
            &&& state.progress is StopRecording && inner.1 == failed ==> next == (
                idle,
                StepView::Done(OutcomeView::Stopped(Err(e))),
            )
            &&& state.progress is StopRecording && inner.1 == full ==> next == (
                requeued,
                StepView::Done(OutcomeView::Stopped(Ok(true))),
            )
        }),
{
}

/// Stopping an application that is queued removes it from the queue. All others
/// keep their order.
pub proof fn law_queue_stop_keeps_order<I: LimitingInterceptor>(
    state: QueuedState<I::State>,
    i: int,
    index: u32,
    request: Request,
    running: bool,
)
    requires
        0 <= i < state.queue.len(),
        forall|j: int|
            0 <= j < state.queue.len() ==> ((#[trigger] state.queue[j]).index == index <==> j == i),
    ensures
        ({
            let inner = I::stop_next(state.inner, index, running);
            let next = QueuedInterceptor::<I>::stop_next(state, index, running);
            inner.1 is Request || inner.1 == StepView::Done(OutcomeView::Stopped(Ok(false)))
                ==> next.0.queue == state.queue.remove(i) && next.1 == inner.1
        }),
{
    let before = state.queue.take(i);
    let after = state.queue.skip(i + 1);
    assert forall|j: int| 0 <= j < before.len() implies (#[trigger] before[j]).index != index by {
        assert(before[j] == state.queue[j]);
    }
    assert forall|j: int| 0 <= j < after.len() implies (#[trigger] after[j]).index != index by {
        assert(after[j] == state.queue[j + i + 1]);
    }
    lemma_without_absent(before, index);
    lemma_without_absent(after, index);
    let keeps = |queued: owned::SinkInputView| queued.index != index;
    let single = seq![state.queue[i]];
    assert(state.queue =~= before + single + after);
    assert(types::without(single, index) =~= Seq::empty()) by {
        reveal_with_fuel(Seq::filter, 2);
        assert(single.last().index == index);
    }
    Seq::filter_distributes_over_add(before, single, keeps);
    Seq::filter_distributes_over_add(before + single, after, keeps);
    assert(types::without(state.queue, index) =~= before + after);
    assert(state.queue.remove(i) =~= before + after);
}

/// Closing a queued interceptor closes the underlying one. Queued applications
/// need not be stopped, as they were never moved.
pub proof fn law_queue_closing<I: LimitingInterceptor>(state: QueuedState<I::State>)
    ensures
        ({
            let plan = QueuedInterceptor::<I>::closing(state);
            let inner = I::closing(state.inner);
            &&& plan.stop_stream == inner.stop_stream
            &&& plan.stop == inner.stop
            &&& plan.tear_down == inner.tear_down
        }),
{
}

/// Removing an application that is not queued leaves the queue as it is.
proof fn lemma_without_absent(queue: Seq<owned::SinkInputView>, index: u32)
    requires
        forall|i: int| 0 <= i < queue.len() ==> (#[trigger] queue[i]).index != index,
    ensures
        types::without(queue, index) == queue,
    decreases queue.len(),
{
    reveal(Seq::filter);
    if queue.len() > 0 {
        let before = queue.drop_last();
        assert forall|i: int| 0 <= i < before.len() implies (#[trigger] before[i]).index != index by {
            assert(queue[i].index != index);
        }
        lemma_without_absent(before, index);
        assert(queue[queue.len() - 1].index != index);
        assert(types::without(queue, index) =~= queue);
    }
}

} // verus!
