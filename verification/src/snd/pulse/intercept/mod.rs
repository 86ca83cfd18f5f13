//! Utilities for intercepting application audio streams for recording.
//!
//! The core abstraction in this module is the [`types::Interceptor`] trait,
//! which allows applications playing audio to be intercepted via their sink
//! input ID. When used in conjunction with the event notification functionality
//! of the [`super::event`] module, this allows applications to be efficiently
//! intercepted as soon as they open an audio stream.

pub mod laws;
pub mod sink_laws;
pub mod types;
pub mod util;
pub mod view_laws;

use vstd::prelude::*;

use crate::cfg::InterceptMode;
use crate::snd::pulse::event::error::{ChannelError, EventListenerError};
use crate::snd::pulse::event::listen::Listened;
use crate::snd::pulse::event::{AudioEntity, ChangeEvent};
use crate::snd::pulse::owned;
use crate::snd::pulse::owned::OwnedSinkInputInfo;

use self::types::{ClosePlan, Interceptor, Reply, Step};

verus! {

// TYPE DEFINITIONS ************************************************************

/// Selects the implementation of [`types::Interceptor`] to use.
#[derive(Debug, Clone, Copy, PartialEq, Eq, Structural)]
pub enum InterceptorKind {
    /// Applications are captured in a dedicated sink.
    Capturing {
        limit: Option<usize>,

        /// Whether applications that exceed the limit are queued.
        queued: bool,
    },

    /// A single application is monitored directly. Further applications are
    /// queued.
    SingleMonitor,

    /// The audio of applications is duplicated, so that it can still be heard.
    Duplexing {
        limit: Option<usize>,

        /// Whether applications that exceed the limit are queued.
        queued: bool,
    },
}

/// What to do about an event.
#[derive(Debug)]
pub enum EventAction {
    /// Start recording the given application.
    Record(OwnedSinkInputInfo),

    /// Update the metadata of the given application.
    Update(OwnedSinkInputInfo),

    /// Stop recording the application with the given index.
    Stop(u32),

    /// Do nothing.
    Ignore,

    /// Stop intercepting applications.
    ShutDown,
}

/// What follows an event.
#[derive(Debug)]
pub enum RunStep {
    /// Wait for the next event.
    Wait,

    /// Proceed with the given step of an operation of the interceptor.
    Operation(Step),

    /// Close the interceptor.
    Close,
}

// MODELS **********************************************************************

impl InterceptorKind {
    /// The kind of interceptor that implements the given mode, and the given
    /// limit to the number of concurrently intercepted applications.
    pub open spec fn selected(mode: InterceptMode, limit: Option<usize>) -> InterceptorKind {
        match mode {
            InterceptMode::Capture => InterceptorKind::Capturing { limit, queued: limit is Some },
            InterceptMode::Monitor => if limit == Some(1usize) {
                InterceptorKind::SingleMonitor
            } else {
                InterceptorKind::Duplexing { limit, queued: limit is Some }
            },
            InterceptMode::Peek => InterceptorKind::Duplexing { limit, queued: limit is Some },
        }
    }

    /// Whether an existing sink is needed for this kind of interceptor.
    pub open spec fn needs_sink(self) -> bool {
        self is Duplexing
    }
}

impl EventAction {
    /// What is done about the given event.
    pub open spec fn for_event(event: Listened<OwnedSinkInputInfo>) -> EventAction {
        match event {
            Ok(ChangeEvent::New(AudioEntity::Info(input))) => EventAction::Record(input),
            Ok(ChangeEvent::Changed(AudioEntity::Info(input))) => EventAction::Update(input),
            Ok(ChangeEvent::Removed(entity)) => EventAction::Stop(entity.spec_index_of()),
            Err(EventListenerError::ChannelError(ChannelError::Closed)) => EventAction::ShutDown,
            _ => EventAction::Ignore,
        }
    }
}

/// Whether handling the given event with an interceptor in the state `before`
/// results in the state `after`, and in the given step: applications are recorded,
/// updated or stopped by the interceptor as the event demands.
pub open spec fn is_handled<I: Interceptor>(
    before: I::State,
    event: Listened<OwnedSinkInputInfo>,
    running: bool,
    after: I::State,
    r: RunStep,
) -> bool {
    match EventAction::for_event(event) {
        EventAction::Record(input) => {
            &&& r matches RunStep::Operation(step)
            &&& (after, step@) == I::record_next(before, input@, running)
            &&& I::pending(after) == types::request_of(step@)
        },
        EventAction::Update(input) => {
            &&& r matches RunStep::Operation(step)
            &&& (after, step@) == I::update_next(before, input@, running)
            &&& I::pending(after) == types::request_of(step@)
        },
        EventAction::Stop(index) => {
            &&& r matches RunStep::Operation(step)
            &&& (after, step@) == I::stop_next(before, index, running)
            &&& I::pending(after) == types::request_of(step@)
        },
        EventAction::Ignore => r is Wait && after == before,
        EventAction::ShutDown => r is Close && after == before,
    }
}

/// A call of an interceptor.
pub enum RunCall {
    Record(owned::SinkInputView),
    Update(owned::SinkInputView),
    Stop(u32),
    Close,
}

/// The call of the interceptor that the given event leads to, if there is one.
pub open spec fn call_for(event: Listened<OwnedSinkInputInfo>) -> Option<RunCall> {
    match EventAction::for_event(event) {
        EventAction::Record(input) => Some(RunCall::Record(input@)),
        EventAction::Update(input) => Some(RunCall::Update(input@)),
        EventAction::Stop(index) => Some(RunCall::Stop(index)),
        EventAction::Ignore => None,
        EventAction::ShutDown => None,
    }
}

/// The calls of the interceptor that the given events lead to, in order.
pub open spec fn calls_for(events: Seq<Listened<OwnedSinkInputInfo>>) -> Seq<RunCall>
    decreases events.len(),
{
    if events.len() == 0 {
        Seq::empty()
    } else {
        let before = calls_for(events.drop_last());
        match call_for(events.last()) {
            Some(call) => before.push(call),
            None => before,
        }
    }
}

/// Whether there may be further events after the given ones, because none of them
/// is that the event listener shut down.
pub open spec fn may_continue(events: Seq<Listened<OwnedSinkInputInfo>>) -> bool {
    forall|i: int|
        0 <= i < events.len() ==> !(EventAction::for_event(#[trigger] events[i]) is ShutDown)
}

// FUNCTIONS *******************************************************************

impl InterceptorKind {
    /// Determines the appropriate interceptor implementation from the intercept
    /// mode and the limit to the number of concurrently intercepted
    /// applications.
    pub fn select(mode: InterceptMode, limit: Option<usize>) -> (r: InterceptorKind)
        ensures
            r == InterceptorKind::selected(mode, limit),
    {
        match mode {
            InterceptMode::Capture => InterceptorKind::Capturing { limit, queued: limit.is_some() },
            InterceptMode::Monitor => match limit {
                Some(1) => InterceptorKind::SingleMonitor,
                _ => InterceptorKind::Duplexing { limit, queued: limit.is_some() },
            },
            InterceptMode::Peek => InterceptorKind::Duplexing { limit, queued: limit.is_some() },
        }
    }

    /// Determines whether an existing sink is needed for this kind of
    /// interceptor to function properly.
    pub fn requires_sink(&self) -> (r: bool)
        ensures
            r == self.needs_sink(),
    {
        match self {
            InterceptorKind::Duplexing { .. } => true,
            _ => false,
        }
    }
}

impl EventAction {
    /// Determines what to do about an event that concerns an application.
    ///
    /// New and changed applications can only be handled if their metadata is
    /// known. Failures to look up metadata and lost events are ignored. If the
    /// event listener shuts down, that is an indication to shut down too.
    pub fn from_event(event: Listened<OwnedSinkInputInfo>) -> (r: EventAction)
        ensures
            r == EventAction::for_event(event),
    {
        match event {
            Ok(ChangeEvent::New(AudioEntity::Info(input))) => EventAction::Record(input),
            Ok(ChangeEvent::Changed(AudioEntity::Info(input))) => EventAction::Update(input),
            Ok(ChangeEvent::Removed(entity)) => EventAction::Stop(entity.index()),
            Ok(ChangeEvent::New(AudioEntity::Index(_))) => EventAction::Ignore,
            Ok(ChangeEvent::Changed(AudioEntity::Index(_))) => EventAction::Ignore,
            Err(EventListenerError::LookupError(_)) => EventAction::Ignore,
            Err(EventListenerError::ChannelError(ChannelError::Closed)) => EventAction::ShutDown,
            Err(EventListenerError::ChannelError(ChannelError::Lagged(_))) => EventAction::Ignore,
        }
    }
}

/// Handles an event that concerns an application with the given interceptor,
/// which must not be in the middle of another operation.
///
/// Changes to and removals of applications that are not intercepted are ignored
/// by the interceptor itself.
pub fn handle_event<I: Interceptor>(
    intercept: &mut I,
    event: Listened<OwnedSinkInputInfo>,
    running: bool,
) -> (r: RunStep)
    requires
        I::valid(old(intercept).state()),
        I::pending(old(intercept).state()) is None,
    ensures
        I::valid(final(intercept).state()),
        is_handled::<I>(
            old(intercept).state(),
            event,
            running,
            final(intercept).state(),
            r,
        ),
{
    match EventAction::from_event(event) {
        EventAction::Record(input) => RunStep::Operation(intercept.record(input, running)),
        EventAction::Update(input) => RunStep::Operation(
            intercept.update_intercept(&input, running),
        ),
        EventAction::Stop(index) => RunStep::Operation(intercept.stop(index, running)),
        EventAction::Ignore => RunStep::Wait,
        EventAction::ShutDown => RunStep::Close,
    }
}

// RUNS ************************************************************************

/// A run of an interceptor, from its creation until it is closed.
pub struct InterceptRun<I> {
    intercept: I,
    listening: bool,
    events: Ghost<Seq<Listened<OwnedSinkInputInfo>>>,
}

impl<I: Interceptor> InterceptRun<I> {
    /// The state of the interceptor.
    pub closed spec fn state(&self) -> I::State {
        self.intercept.state()
    }

    /// The events that have been handled so far.
    pub closed spec fn events(&self) -> Seq<Listened<OwnedSinkInputInfo>> {
        self.events@
    }

    /// What holds of a run at all times.
    pub closed spec fn well_formed(&self) -> bool {
        &&& I::valid(self.intercept.state())
        &&& self.listening == may_continue(self.events@)
    }

    /// The calls of the interceptor that have been made so far.
    pub open spec fn calls(&self) -> Seq<RunCall> {
        calls_for(self.events())
    }

    /// Begins a run of the given interceptor.
    pub fn new(intercept: I) -> (r: Self)
        requires
            I::valid(intercept.state()),
            I::pending(intercept.state()) is None,
        ensures
            r.well_formed(),
            r.state() == intercept.state(),
            r.events() == Seq::<Listened<OwnedSinkInputInfo>>::empty(),
    {
        InterceptRun { intercept, listening: true, events: Ghost(Seq::empty()) }
    }

    /// Determines whether to wait for another event, given whether the consuming
    /// end of the stream has closed. Otherwise, the interceptor has to be closed.
    ///
    /// Neither errors nor events that are ignored end the run.
    pub fn needs_event(&self, stream_closed: bool) -> (r: bool)
        requires
            self.well_formed(),
        ensures
            r == (may_continue(self.events()) && !stream_closed),
    {
        self.listening && !stream_closed
    }

    /// Handles an event that concerns an application.
    pub fn handle(&mut self, event: Listened<OwnedSinkInputInfo>, running: bool) -> (r: RunStep)
        requires
            old(self).well_formed(),
            may_continue(old(self).events()),
            I::pending(old(self).state()) is None,
        ensures
            final(self).well_formed(),
            final(self).events() == old(self).events().push(event),
            is_handled::<I>(old(self).state(), event, running, final(self).state(), r),
    {
        let ghost before = self.events@;
        let step = handle_event(&mut self.intercept, event, running);
        if let RunStep::Close = step {
            self.listening = false;
        }
        self.events = Ghost(before.push(event));
        proof {
            let after = before.push(event);
            assert(after[before.len() as int] == event);
            assert(may_continue(after) == !(EventAction::for_event(event) is ShutDown)) by {
                assert forall|i: int| 0 <= i < after.len() && i < before.len() implies !(
                EventAction::for_event(#[trigger] after[i]) is ShutDown) by {
                    assert(after[i] == before[i]);
                }
            }
        }
        step
    }

    /// Continues the current operation of the interceptor with the reply to its
    /// pending request. How the operation ends has no influence on the run.
    pub fn resume(&mut self, reply: Reply, running: bool) -> (r: Step)
        requires
            old(self).well_formed(),
            I::pending(old(self).state()) matches Some(request) && types::answers(request, reply),
        ensures
            final(self).well_formed(),
            final(self).events() == old(self).events(),
            I::pending(final(self).state()) == types::request_of(r@),
            (final(self).state(), r@) == I::resume_next(old(self).state(), reply, running),
    {
        self.intercept.resume(reply, running)
    }

    /// Ends the run, and determines how to close the interceptor.
    pub fn close(self) -> (r: (I, ClosePlan))
        ensures
            r.0.state() == self.state(),
            r.1.stop@.no_duplicates(),
            r.1@ == I::closing(self.state()),
    {
        let plan = self.intercept.close_plan();
        (self.intercept, plan)
    }
}

/// The calls that are made during a whole run in which the given events are
/// handled: those that the events lead to, before the interceptor is closed.
pub open spec fn run_calls(events: Seq<Listened<OwnedSinkInputInfo>>) -> Seq<RunCall> {
    calls_for(events).push(RunCall::Close)
}

// LAWS ************************************************************************

/// During a whole run, the interceptor is called as each event demands, in the
/// order of the events: new applications are recorded, changed ones are updated,
/// and removed ones are stopped. Events without metadata, failed lookups and lost
/// events lead to no call. The interceptor is closed exactly once, after
/// everything else.
pub proof fn law_run(
    before: Seq<Listened<OwnedSinkInputInfo>>,
    event: Listened<OwnedSinkInputInfo>,
    after: Seq<Listened<OwnedSinkInputInfo>>,
)
    ensures
        run_calls(before.push(event) + after) == calls_for(before) + (match event {
            Ok(ChangeEvent::New(AudioEntity::Info(input))) => seq![RunCall::Record(input@)],
            Ok(ChangeEvent::Changed(AudioEntity::Info(input))) => seq![RunCall::Update(input@)],
            Ok(ChangeEvent::Removed(entity)) => seq![RunCall::Stop(entity.spec_index_of())],
            _ => Seq::empty(),
        }) + run_calls(after),
        forall|i: int|
            0 <= i < calls_for(after).len() ==> !((#[trigger] run_calls(after)[i]) is Close),
        run_calls(after).last() is Close,
    decreases after.len(),
{
    let through = before.push(event);
    assert(through.drop_last() =~= before);
    if after.len() == 0 {
        assert(through + after =~= through);
        assert(run_calls(through) =~= calls_for(before) + (match call_for(event) {
            Some(call) => seq![call],
            None => Seq::empty(),
        }) + run_calls(after));
    } else {
        let fewer = after.drop_last();
        law_run(before, event, fewer);
        assert((through + after).drop_last() =~= through + fewer);
        assert((through + after).last() == after.last());
        let middle = match call_for(event) {
            Some(call) => seq![call],
            None => Seq::empty(),
        };
        assert(run_calls(through + fewer).drop_last() =~= calls_for(through + fewer));
        assert(run_calls(through + fewer).drop_last() =~= calls_for(before) + middle + calls_for(
            fewer,
        ));
        assert(run_calls(through + after) =~= calls_for(before) + middle + run_calls(after));
        assert forall|i: int| 0 <= i < calls_for(after).len() implies !((
        #[trigger] run_calls(after)[i]) is Close) by {
            if i < calls_for(fewer).len() {
                assert(run_calls(fewer)[i] == calls_for(fewer)[i]);
                assert(calls_for(after)[i] == calls_for(fewer)[i]);
            }
        }
    }
}

/// Only the end of the event listener, or of the stream, ends a run: after any
/// other event, errors included, further events are waited for.
pub proof fn law_run_continues(
    events: Seq<Listened<OwnedSinkInputInfo>>,
    event: Listened<OwnedSinkInputInfo>,
)
    requires
        may_continue(events),
    ensures
        may_continue(events.push(event)) <==> !(event matches Err(
            EventListenerError::ChannelError(ChannelError::Closed),
        )),
{
    let after = events.push(event);
    assert(after[events.len() as int] == event);
    assert forall|i: int| 0 <= i < events.len() implies after[i] == events[i] by {}
}

/// Interceptors that have a limit queue applications that exceed it.
pub proof fn law_limited_interceptors_queue(mode: InterceptMode, limit: Option<usize>)
    ensures
        match InterceptorKind::selected(mode, limit) {
            InterceptorKind::Capturing { limit: l, queued } => l == limit && queued == (limit
                is Some),
            InterceptorKind::Duplexing { limit: l, queued } => l == limit && queued == (limit
                is Some),
            InterceptorKind::SingleMonitor => limit == Some(1usize),
        },
{
}

/// No existing sink is needed to capture applications, or to monitor a single
/// application.
pub proof fn law_sink_not_needed(limit: Option<usize>)
    ensures
        !InterceptorKind::selected(InterceptMode::Capture, limit).needs_sink(),
        !InterceptorKind::selected(InterceptMode::Monitor, Some(1usize)).needs_sink(),
{
}

/// Only the capture mode prevents the audio of applications from being heard.
pub proof fn law_only_capture_silences(mode: InterceptMode, limit: Option<usize>)
    ensures
        InterceptorKind::selected(mode, limit) is Capturing <==> mode is Capture,
{
}

} // verus!
