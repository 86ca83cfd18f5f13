//! Interceptors: the state kept about intercepted applications, and the requests
//! that have to be made to the audio server and the record stream in order to
//! change it.
//!
//! An operation on an interceptor proceeds in steps. Each step either is the
//! outcome of the operation, or a request for which the interceptor has to be
//! given the reply before it can proceed.

use std::collections::{HashMap, VecDeque};

use vstd::prelude::*;

use crate::snd::pulse::error::Code;
use crate::snd::pulse::owned::{OwnedSinkInfo, OwnedSinkInputInfo};
use crate::snd::pulse::owned;
use crate::util::text;

verus! {

broadcast use vstd::std_specs::hash::group_hash_axioms;

// REQUESTS ********************************************************************

/// Identifies where the record stream is to read audio from.
#[derive(Debug, Clone, Copy, PartialEq, Eq, Structural)]
pub enum StreamOrigin {
    /// The monitor of the sink that is dedicated to recording.
    RecordSink,

    /// The audio of a single application, which is attached to the given sink.
    SinkInput { index: u32, sink: u32 },
}

/// Something that an operation on an interceptor needs to be done before it can
/// proceed.
#[derive(Debug, Clone, Copy, PartialEq, Eq, Structural)]
pub enum Request {
    /// Stop the record stream, if it is running.
    StopStream,

    /// Start the record stream.
    StartStream(StreamOrigin),

    /// Cork or uncork the record stream.
    SetCork(bool),

    /// Attach the given sink input to the given sink.
    MoveSinkInput { input: u32, sink: u32 },

    /// Look up the given sink input.
    GetSinkInput(u32),

    /// Look up the sink with the given index.
    GetSink(u32),

    /// Look up the default sink of the system.
    GetDefaultSink,
}

/// The reply to a [`Request`].
#[derive(Debug, Clone, Copy)]
pub enum Reply {
    /// The request was carried out. There is no way for it to fail.
    Done,

    /// Whether the request was successful.
    Status(Result<(), Code>),

    /// The index of the sink that was looked up.
    Sink(Result<u32, Code>),
}

/// Whether `reply` is of the form that is given in reply to `request`.
pub open spec fn answers(request: Request, reply: Reply) -> bool {
    match request {
        Request::StopStream => reply is Done,
        Request::StartStream(_) => reply is Status,
        Request::SetCork(_) => reply is Status,
        Request::MoveSinkInput { .. } => reply is Status,
        Request::GetSinkInput(_) => reply is Status,
        Request::GetSink(_) => reply is Sink,
        Request::GetDefaultSink => reply is Sink,
    }
}

// OUTCOMES ********************************************************************

/// Represents possible error modes for recording an application.
#[derive(Debug)]
pub enum InterceptError {
    /// PulseAudio returned an error while attempting to intercept the
    /// application.
    PulseError(Code),

    /// The interceptor cannot concurrently intercept any more applications.
    AtCapacity(usize, OwnedSinkInputInfo),
}

impl InterceptError {
    /// The error returned by PulseAudio, if any.
    pub open spec fn spec_code(self) -> Option<Code> {
        match self {
            InterceptError::PulseError(code) => Some(code),
            InterceptError::AtCapacity(..) => None,
        }
    }

    /// Returns the error returned by PulseAudio, if any.
    pub fn code(&self) -> (r: Option<Code>)
        ensures
            r == self.spec_code(),
    {
        match self {
            InterceptError::PulseError(code) => Some(*code),
            InterceptError::AtCapacity(..) => None,
        }
    }

    /// Renders this error, given the description of its code.
    pub fn message(&self, code_text: &str) -> (r: String)
        ensures
            r@ == (match *self {
                InterceptError::PulseError(_) => code_text@,
                InterceptError::AtCapacity(limit, source) => "Cannot intercept application "@
                    + owned::entity_label(source@.name, source.index)
                    + ", interceptor at limit ("@ + text::decimal(limit as nat) + ")"@,
            }),
    {
        match self {
            InterceptError::PulseError(_) => code_text.to_owned(),
            InterceptError::AtCapacity(limit, source) => {
                let mut r = "Cannot intercept application ".to_owned();
                r.append(source.label().as_str());
                r.append(", interceptor at limit (");
                r.append(text::decimal_string(*limit as u64).as_str());
                r.append(")");
                r
            },
        }
    }
}

impl vstd::std_specs::convert::FromSpecImpl<Code> for InterceptError {
    open spec fn obeys_from_spec() -> bool {
        true
    }

    open spec fn from_spec(code: Code) -> InterceptError {
        InterceptError::PulseError(code)
    }
}

impl From<Code> for InterceptError {
    fn from(code: Code) -> (r: Self) {
        InterceptError::PulseError(code)
    }
}

/// The outcome of an operation on an interceptor.
#[derive(Debug)]
pub enum Outcome {
    /// Result of starting to record an application.
    Recorded(Result<(), InterceptError>),

    /// Result of updating the metadata of an application.
    Updated(Result<(), Code>),

    /// Result of ceasing to record an application, which tells whether the
    /// application was recorded in the first place.
    Stopped(Result<bool, Code>),
}

/// A step of an operation on an interceptor.
#[derive(Debug)]
pub enum Step {
    /// The operation needs the reply to the given request before it can proceed.
    Request(Request),

    /// The operation is complete.
    Done(Outcome),
}

/// The contents of an [`InterceptError`].
pub enum ErrorView {
    PulseError(Code),
    AtCapacity(usize, owned::SinkInputView),
}

/// The contents of an [`Outcome`].
pub enum OutcomeView {
    Recorded(Result<(), ErrorView>),
    Updated(Result<(), Code>),
    Stopped(Result<bool, Code>),
}

/// The contents of a [`Step`].
pub enum StepView {
    Request(Request),
    Done(OutcomeView),
}

impl View for InterceptError {
    type V = ErrorView;

    open spec fn view(&self) -> ErrorView {
        match *self {
            InterceptError::PulseError(code) => ErrorView::PulseError(code),
            InterceptError::AtCapacity(n, source) => ErrorView::AtCapacity(n, source@),
        }
    }
}

impl View for Outcome {
    type V = OutcomeView;

    open spec fn view(&self) -> OutcomeView {
        match *self {
            Outcome::Recorded(Ok(())) => OutcomeView::Recorded(Ok(())),
            Outcome::Recorded(Err(e)) => OutcomeView::Recorded(Err(e@)),
            Outcome::Updated(r) => OutcomeView::Updated(r),
            Outcome::Stopped(r) => OutcomeView::Stopped(r),
        }
    }
}

impl View for Step {
    type V = StepView;

    open spec fn view(&self) -> StepView {
        match *self {
            Step::Request(request) => StepView::Request(request),
            Step::Done(outcome) => StepView::Done(outcome@),
        }
    }
}

/// The request that the given step makes, if any.
pub open spec fn request_of(step: StepView) -> Option<Request> {
    match step {
        StepView::Request(request) => Some(request),
        StepView::Done(_) => None,
    }
}

/// What has to be done in order to close an interceptor.
#[derive(Debug)]
pub struct ClosePlan {
    /// Whether the record stream has to be stopped in any case.
    pub stop_stream: bool,

    /// The indices of applications that have to be stopped, in no particular
    /// order.
    pub stop: Vec<u32>,

    /// The virtual sinks that have to be torn down afterwards, in this order,
    /// and the sinks to which applications that are attached to them have to be
    /// moved.
    pub tear_down: Vec<(OwnedSinkInfo, Option<u32>)>,
}

/// The contents of a [`ClosePlan`].
pub struct ClosePlanView {
    pub stop_stream: bool,
    pub stop: Set<u32>,
    pub tear_down: Seq<(owned::SinkView, Option<u32>)>,
}

impl View for ClosePlan {
    type V = ClosePlanView;

    open spec fn view(&self) -> ClosePlanView {
        ClosePlanView {
            stop_stream: self.stop_stream,
            stop: self.stop@.to_set(),
            tear_down: self.tear_down@.map_values(
                |t: (OwnedSinkInfo, Option<u32>)| (t.0@, t.1),
            ),
        }
    }
}

// TRAIT DEFINITIONS ***********************************************************

/// Core abstraction for intercepting application audio.
///
/// The operations [`Interceptor::record`], [`Interceptor::update_intercept`] and
/// [`Interceptor::stop`] take the first step of an operation; while a request is
/// pending, [`Interceptor::resume`] takes the next one.
///
/// Whether the record stream is running is determined by the stream itself, so
/// it is provided to those steps that depend on it.
pub trait Interceptor: Sized {
    /// What the state of an interceptor consists of.
    type State;

    /// The state of this interceptor.
    spec fn state(&self) -> Self::State;

    /// What holds of the state of an interceptor at all times.
    spec fn valid(state: Self::State) -> bool;

    /// The request to which the interceptor needs a reply, if any.
    spec fn pending(state: Self::State) -> Option<Request>;

    /// The number of intercepted applications.
    spec fn count(state: Self::State) -> nat;

    /// The first step of recording an application.
    spec fn record_next(
        state: Self::State,
        source: owned::SinkInputView,
        running: bool,
    ) -> (Self::State, StepView);

    /// The first step of updating the metadata of an application.
    spec fn update_next(
        state: Self::State,
        source: owned::SinkInputView,
        running: bool,
    ) -> (Self::State, StepView);

    /// The first step of ceasing to record an application.
    spec fn stop_next(state: Self::State, source_idx: u32, running: bool) -> (Self::State, StepView);

    /// The step that follows the reply to the pending request.
    spec fn resume_next(state: Self::State, reply: Reply, running: bool) -> (Self::State, StepView);

    /// Starts recording audio from the given application.
    fn record(&mut self, source: OwnedSinkInputInfo, running: bool) -> (r: Step)
        requires
            Self::valid(old(self).state()),
            Self::pending(old(self).state()) is None,
        ensures
            Self::valid(final(self).state()),
            Self::pending(final(self).state()) == request_of(r@),
            (final(self).state(), r@) == Self::record_next(old(self).state(), source@, running),
    ;

    /// Updates the stream metadata for the given intercepted stream. This may
    /// cork or uncork the stream depending on the cork state of all intercepted
    /// applications.
    fn update_intercept(&mut self, source: &OwnedSinkInputInfo, running: bool) -> (r: Step)
        requires
            Self::valid(old(self).state()),
            Self::pending(old(self).state()) is None,
        ensures
            Self::valid(final(self).state()),
            Self::pending(final(self).state()) == request_of(r@),
            (final(self).state(), r@) == Self::update_next(old(self).state(), source@, running),
    ;

    /// Stops recording audio from the given application.
    fn stop(&mut self, source_idx: u32, running: bool) -> (r: Step)
        requires
            Self::valid(old(self).state()),
            Self::pending(old(self).state()) is None,
        ensures
            Self::valid(final(self).state()),
            Self::pending(final(self).state()) == request_of(r@),
            (final(self).state(), r@) == Self::stop_next(old(self).state(), source_idx, running),
    ;

    /// Continues the current operation with the reply to the pending request.
    fn resume(&mut self, reply: Reply, running: bool) -> (r: Step)
        requires
            Self::valid(old(self).state()),
            Self::pending(old(self).state()) matches Some(request) && answers(request, reply),
        ensures
            Self::valid(final(self).state()),
            Self::pending(final(self).state()) == request_of(r@),
            (final(self).state(), r@) == Self::resume_next(old(self).state(), reply, running),
    ;

    /// Returns the number of applications that have been intercepted by this
    /// interceptor.
    fn len(&self) -> (r: usize)
        requires
            Self::valid(self.state()),
        ensures
            r == Self::count(self.state()),
    ;

    /// How an interceptor in the given state is closed gracefully.
    spec fn closing(state: Self::State) -> ClosePlanView;

    /// Determines what has to be done in order to gracefully close any system
    /// resources that are used by the interceptor, and to return any intercepted
    /// streams to another audio device if needed.
    fn close_plan(&self) -> (r: ClosePlan)
        ensures
            r.stop@.no_duplicates(),
            r@ == Self::closing(self.state()),
    ;
}

/// Specialization of [`Interceptor`] that allows for limits on the number of
/// concurrently captured applications.
pub trait LimitingInterceptor: Interceptor {
    /// The number of applications that can be intercepted concurrently, if there
    /// is a limit.
    spec fn limit(state: Self::State) -> Option<usize>;

    /// The limit is never exceeded.
    proof fn within_limit(state: Self::State)
        requires
            Self::valid(state),
        ensures
            Self::limit(state) matches Some(n) ==> Self::count(state) <= n,
    ;

    /// Returns the number of concurrent applications that can be intercepted
    /// by this instance.
    ///
    /// Returns `None` if there is no limit applied to this interceptor.
    fn capacity(&self) -> (r: Option<usize>)
        ensures
            r == Self::limit(self.state()),
    ;

    /// Returns the number of additional applications that can be concurrently
    /// intercepted by this instance.
    ///
    /// Returns `None` if there is no limit applied to this interceptor.
    fn remaining(&self) -> (r: Option<usize>)
        requires
            Self::valid(self.state()),
        ensures
            match Self::limit(self.state()) {
                Some(n) => r matches Some(k) && k + Self::count(self.state()) == n,
                None => r is None,
            },
    {
        match self.capacity() {
            Some(capacity) => {
                proof {
                    Self::within_limit(self.state());
                }
                Some(capacity - self.len())
            },
            None => None,
        }
    }

    /// Determines whether this interceptor has intercepted the maximum number
    /// of concurrent applications.
    ///
    /// This will always be `false` for interceptors with no limit.
    fn is_full(&self) -> (r: bool)
        requires
            Self::valid(self.state()),
        ensures
            r == (Self::limit(self.state()) matches Some(n) && Self::count(self.state()) == n),
    {
        match self.remaining() {
            Some(remaining) => remaining == 0,
            None => false,
        }
    }
}

// SINGLE APPLICATION MONITOR **************************************************

/// Progress of the current operation of a [`SingleInputMonitor`].
enum MonitorProgress {
    Idle,
    RecordStopping(OwnedSinkInputInfo),
    RecordStarting(OwnedSinkInputInfo),
    Updating,
    Stopping,
}

/// Implementation of [`Interceptor`] that directly monitors a single application
/// without the need for creating virtual sinks. This inherently only allows
/// a single application to be intercepted at a time.
pub struct SingleInputMonitor {
    intercepted: Option<OwnedSinkInputInfo>,
    progress: MonitorProgress,
}

/// The contents of a [`MonitorProgress`].
pub enum MonitorProgressView {
    Idle,
    RecordStopping(owned::SinkInputView),
    RecordStarting(owned::SinkInputView),
    Updating,
    Stopping,
}

/// The state of a [`SingleInputMonitor`].
pub struct MonitorState {
    pub intercepted: Option<owned::SinkInputView>,
    pub progress: MonitorProgressView,
}

impl View for MonitorProgress {
    type V = MonitorProgressView;

    closed spec fn view(&self) -> MonitorProgressView {
        match *self {
            MonitorProgress::Idle => MonitorProgressView::Idle,
            MonitorProgress::RecordStopping(s) => MonitorProgressView::RecordStopping(s@),
            MonitorProgress::RecordStarting(s) => MonitorProgressView::RecordStarting(s@),
            MonitorProgress::Updating => MonitorProgressView::Updating,
            MonitorProgress::Stopping => MonitorProgressView::Stopping,
        }
    }
}

impl MonitorState {
    /// This state with a different progress of the current operation.
    pub open spec fn at(self, progress: MonitorProgressView) -> MonitorState {
        MonitorState { progress, ..self }
    }
}

impl SingleInputMonitor {
    /// Creates a new `SingleInputMonitor` that does not intercept an
    /// application.
    pub fn new() -> (r: Self)
        ensures
            Self::valid(r.state()),
            r.state() == (MonitorState { intercepted: None, progress: MonitorProgressView::Idle }),
    {
        SingleInputMonitor { intercepted: None, progress: MonitorProgress::Idle }
    }
}

impl Interceptor for SingleInputMonitor {
    type State = MonitorState;

    closed spec fn state(&self) -> MonitorState {
        MonitorState {
            intercepted: match self.intercepted {
                Some(s) => Some(s@),
                None => None,
            },
            progress: self.progress@,
        }
    }

    open spec fn valid(state: MonitorState) -> bool {
        match state.progress {
            MonitorProgressView::RecordStopping(_) => state.intercepted is None,
            MonitorProgressView::RecordStarting(_) => state.intercepted is None,
            MonitorProgressView::Updating => state.intercepted is Some,
            MonitorProgressView::Stopping => state.intercepted is Some,
            MonitorProgressView::Idle => true,
        }
    }

    open spec fn pending(state: MonitorState) -> Option<Request> {
        match state.progress {
            MonitorProgressView::Idle => None,
            MonitorProgressView::RecordStopping(_) => Some(Request::StopStream),
            MonitorProgressView::RecordStarting(s) => Some(
                Request::StartStream(StreamOrigin::SinkInput { index: s.index, sink: s.sink }),
            ),
            MonitorProgressView::Updating => Some(
                Request::SetCork(state.intercepted->0.corked),
            ),
            MonitorProgressView::Stopping => Some(Request::StopStream),
        }
    }

    open spec fn count(state: MonitorState) -> nat {
        if state.intercepted is Some {
            1
        } else {
            0
        }
    }

    open spec fn record_next(
        state: MonitorState,
        source: owned::SinkInputView,
        running: bool,
    ) -> (MonitorState, StepView) {
        if state.intercepted is Some {
            (state, StepView::Done(OutcomeView::Recorded(Err(ErrorView::AtCapacity(1, source)))))
        } else {
            (
                state.at(MonitorProgressView::RecordStopping(source)),
                StepView::Request(Request::StopStream),
            )
        }
    }

    open spec fn update_next(
        state: MonitorState,
        source: owned::SinkInputView,
        running: bool,
    ) -> (MonitorState, StepView) {
        match state.intercepted {
            Some(s) if s.index == source.index && s.corked != source.corked => (
                MonitorState {
                    intercepted: Some(owned::SinkInputView { corked: source.corked, ..s }),
                    progress: MonitorProgressView::Updating,
                },
                StepView::Request(Request::SetCork(source.corked)),
            ),
            _ => (state, StepView::Done(OutcomeView::Updated(Ok(())))),
        }
    }

    open spec fn stop_next(
        state: MonitorState,
        source_idx: u32,
        running: bool,
    ) -> (MonitorState, StepView) {
        match state.intercepted {
            Some(s) if s.index == source_idx => (
                state.at(MonitorProgressView::Stopping),
                StepView::Request(Request::StopStream),
            ),
            _ => (state, StepView::Done(OutcomeView::Stopped(Ok(false)))),
        }
    }

    open spec fn resume_next(
        state: MonitorState,
        reply: Reply,
        running: bool,
    ) -> (MonitorState, StepView) {
        let idle = state.at(MonitorProgressView::Idle);
        match state.progress {
            MonitorProgressView::Idle => (state, StepView::Request(Request::StopStream)),
            MonitorProgressView::RecordStopping(s) => (
                state.at(MonitorProgressView::RecordStarting(s)),
                StepView::Request(
                    Request::StartStream(StreamOrigin::SinkInput { index: s.index, sink: s.sink }),
                ),
            ),
            MonitorProgressView::RecordStarting(s) => match reply->Status_0 {
                Ok(()) => (
                    MonitorState { intercepted: Some(s), ..idle },
                    StepView::Done(OutcomeView::Recorded(Ok(()))),
                ),
                Err(e) => (
                    idle,
                    StepView::Done(OutcomeView::Recorded(Err(ErrorView::PulseError(e)))),
                ),
            },
            MonitorProgressView::Updating => (
                idle,
                StepView::Done(OutcomeView::Updated(reply->Status_0)),
            ),
            MonitorProgressView::Stopping => (
                MonitorState { intercepted: None, ..idle },
                StepView::Done(OutcomeView::Stopped(Ok(true))),
            ),
        }
    }

    fn record(&mut self, source: OwnedSinkInputInfo, running: bool) -> (r: Step) {
        if self.intercepted.is_some() {
            return Step::Done(Outcome::Recorded(Err(InterceptError::AtCapacity(1, source))));
        }

        // Make sure there isn't a running stream already before starting it
        self.progress = MonitorProgress::RecordStopping(source);
        Step::Request(Request::StopStream)
    }

    fn update_intercept(&mut self, source: &OwnedSinkInputInfo, running: bool) -> (r: Step) {
        match self.intercepted.take() {
            Some(mut intercepted) => {
                if intercepted.index == source.index && intercepted.corked != source.corked {
                    intercepted.corked = source.corked;
                    self.intercepted = Some(intercepted);
                    self.progress = MonitorProgress::Updating;
                    Step::Request(Request::SetCork(source.corked))
                } else {
                    self.intercepted = Some(intercepted);
                    Step::Done(Outcome::Updated(Ok(())))
                }
            },
            None => Step::Done(Outcome::Updated(Ok(()))),
        }
    }

    fn stop(&mut self, source_idx: u32, running: bool) -> (r: Step) {
        match &self.intercepted {
            Some(intercepted) => {
                if source_idx != intercepted.index {
                    return Step::Done(Outcome::Stopped(Ok(false)));
                }

                self.progress = MonitorProgress::Stopping;
                Step::Request(Request::StopStream)
            },
            None => Step::Done(Outcome::Stopped(Ok(false))),
        }
    }

    fn resume(&mut self, reply: Reply, running: bool) -> (r: Step) {
        let mut progress = MonitorProgress::Idle;
        std::mem::swap(&mut progress, &mut self.progress);

        match (progress, reply) {
            (MonitorProgress::RecordStopping(source), _) => {
                let origin = StreamOrigin::SinkInput { index: source.index, sink: source.sink };
                self.progress = MonitorProgress::RecordStarting(source);
                Step::Request(Request::StartStream(origin))
            },
            (MonitorProgress::RecordStarting(source), Reply::Status(Ok(()))) => {
                self.intercepted = Some(source);
                Step::Done(Outcome::Recorded(Ok(())))
            },
            (MonitorProgress::RecordStarting(_), Reply::Status(Err(e))) => {
                Step::Done(Outcome::Recorded(Err(InterceptError::PulseError(e))))
            },
            (MonitorProgress::Updating, Reply::Status(result)) => {
                Step::Done(Outcome::Updated(result))
            },
            (MonitorProgress::Stopping, _) => {
                self.intercepted = None;
                Step::Done(Outcome::Stopped(Ok(true)))
            },
            _ => {
                assert(false);
                Step::Request(Request::StopStream)
            },
        }
    }

    fn len(&self) -> (r: usize) {
        if self.intercepted.is_some() {
            1
        } else {
            0
        }
    }

    open spec fn closing(state: MonitorState) -> ClosePlanView {
        ClosePlanView { stop_stream: true, stop: Set::empty(), tear_down: Seq::empty() }
    }

    fn close_plan(&self) -> (r: ClosePlan) {
        let r = ClosePlan { stop_stream: true, stop: Vec::new(), tear_down: Vec::new() };
        assert(r@.stop =~= Set::empty());
        assert(r@.tear_down =~= Seq::empty());
        r
    }
}

impl LimitingInterceptor for SingleInputMonitor {
    open spec fn limit(state: MonitorState) -> Option<usize> {
        Some(1)
    }

    proof fn within_limit(state: MonitorState) {
    }

    fn capacity(&self) -> (r: Option<usize>) {
        Some(1)
    }
}

// ROUTED APPLICATIONS *********************************************************

/// Caches the original sink ID and cork state of an intercepted audio stream.
#[derive(Debug, Clone, Copy, PartialEq, Eq, Structural)]
pub struct InputState {
    pub orig_sink: u32,
    pub corked: bool,
}

/// Progress of the current operation of a [`RouteTable`].
#[derive(Debug, Clone, Copy, PartialEq, Eq, Structural)]
pub enum RouteProgress {
    /// There is no current operation.
    Idle,

    /// Recording, waiting for the record stream to start.
    RecordStarting { index: u32, input: InputState },

    /// Recording, waiting for the application to be moved.
    RecordMoving { index: u32, input: InputState },

    /// Recording, waiting for the record stream to be corked or uncorked.
    RecordCorking,

    /// Updating, waiting for the record stream to be corked or uncorked.
    Updating,

    /// Stopping, waiting for the lookup of the original sink.
    StopLookup { index: u32, orig_sink: u32 },

    /// Stopping, waiting for the lookup of the default sink.
    StopDefault { index: u32 },

    /// Stopping, waiting for the lookup of the application.
    StopChecking { index: u32, sink: u32 },

    /// Stopping, waiting for the application to be moved back.
    StopMoving { index: u32, sink: u32 },

    /// Stopping, waiting for the record stream to stop.
    StopStream,
}

/// Bookkeeping for interceptors that attach applications to a sink of their own.
pub struct RouteTable {
    intercepts: HashMap<u32, InputState>,
    limit: Option<usize>,
    progress: RouteProgress,
}

/// The state of a [`RouteTable`].
#[verifier::ext_equal]
pub struct RouteState {
    pub intercepts: Map<u32, InputState>,
    pub limit: Option<usize>,
    pub progress: RouteProgress,
}

/// Whether all of the given applications are corked.
pub open spec fn all_corked(intercepts: Map<u32, InputState>) -> bool {
    forall|index: u32| #[trigger] intercepts.contains_key(index) ==> intercepts[index].corked
}

impl RouteState {
    /// The state of interceptors that have not intercepted an application yet.
    pub open spec fn empty(limit: Option<usize>) -> RouteState {
        RouteState { intercepts: Map::empty(), limit, progress: RouteProgress::Idle }
    }

    /// This state with a different progress of the current operation.
    pub open spec fn at(self, progress: RouteProgress) -> RouteState {
        RouteState { progress, ..self }
    }

    /// Whether there is room for another application.
    pub open spec fn has_room(self) -> bool {
        self.limit matches Some(n) ==> self.intercepts.len() < n
    }

    /// What holds of the state at all times: the limit is never exceeded, there
    /// is room for an application that is about to be recorded, and only
    /// intercepted applications are being stopped.
    pub open spec fn valid(self) -> bool {
        &&& self.intercepts.dom().finite()
        &&& self.limit matches Some(n) ==> self.intercepts.len() <= n
        &&& match self.progress {
            RouteProgress::RecordStarting { .. } => self.has_room(),
            RouteProgress::RecordMoving { .. } => self.has_room(),
            RouteProgress::StopLookup { index, orig_sink } => self.intercepts.contains_key(index)
                && orig_sink == self.intercepts[index].orig_sink,
            RouteProgress::StopDefault { index } => self.intercepts.contains_key(index),
            RouteProgress::StopChecking { index, .. } => self.intercepts.contains_key(index),
            RouteProgress::StopMoving { index, .. } => self.intercepts.contains_key(index),
            RouteProgress::StopStream => self.intercepts.len() == 0,
            _ => true,
        }
    }

    /// The request to which a reply is needed, where applications are moved to
    /// the sink with index `target` when they are recorded.
    pub open spec fn pending(self, target: u32) -> Option<Request> {
        match self.progress {
            RouteProgress::Idle => None,
            RouteProgress::RecordStarting { .. } => Some(
                Request::StartStream(StreamOrigin::RecordSink),
            ),
            RouteProgress::RecordMoving { index, .. } => Some(
                Request::MoveSinkInput { input: index, sink: target },
            ),
            RouteProgress::RecordCorking => Some(Request::SetCork(all_corked(self.intercepts))),
            RouteProgress::Updating => Some(Request::SetCork(all_corked(self.intercepts))),
            RouteProgress::StopLookup { orig_sink, .. } => Some(Request::GetSink(orig_sink)),
            RouteProgress::StopDefault { .. } => Some(Request::GetDefaultSink),
            RouteProgress::StopChecking { index, .. } => Some(Request::GetSinkInput(index)),
            RouteProgress::StopMoving { index, sink } => Some(
                Request::MoveSinkInput { input: index, sink },
            ),
            RouteProgress::StopStream => Some(Request::StopStream),
        }
    }

    /// Proceeds to the given point of the current operation, making the request
    /// for which a reply is needed there.
    pub open spec fn ask(self, progress: RouteProgress, target: u32) -> (RouteState, StepView) {
        let next = self.at(progress);
        (next, StepView::Request(next.pending(target)->0))
    }

    /// Completes the current operation with the given outcome.
    pub open spec fn finish(self, outcome: OutcomeView) -> (RouteState, StepView) {
        (self.at(RouteProgress::Idle), StepView::Done(outcome))
    }

    /// Discards the given application. The record stream stops with the last
    /// one.
    pub open spec fn discard(self, index: u32, target: u32) -> (RouteState, StepView) {
        let next = RouteState { intercepts: self.intercepts.remove(index), ..self };
        if next.intercepts.len() == 0 {
            next.ask(RouteProgress::StopStream, target)
        } else {
            next.finish(OutcomeView::Stopped(Ok(true)))
        }
    }

    /// The first step of recording an application: the stream is started if it
    /// is not running, before the application is moved.
    pub open spec fn record_next(
        self,
        source: owned::SinkInputView,
        running: bool,
        target: u32,
    ) -> (RouteState, StepView) {
        let index = source.index;
        let input = InputState { orig_sink: source.sink, corked: source.corked };
        if !self.has_room() {
            self.finish(OutcomeView::Recorded(Err(ErrorView::AtCapacity(self.limit->0, source))))
        } else if running {
            self.ask(RouteProgress::RecordMoving { index, input }, target)
        } else {
            self.ask(RouteProgress::RecordStarting { index, input }, target)
        }
    }

    /// The first step of updating an application: the stream needs to be corked
    /// or uncorked only if the application is intercepted, and was corked or
    /// uncorked itself.
    pub open spec fn update_next(
        self,
        source: owned::SinkInputView,
        target: u32,
    ) -> (RouteState, StepView) {
        let index = source.index;
        if self.intercepts.contains_key(index) && self.intercepts[index].corked != source.corked {
            let input = InputState { corked: source.corked, ..self.intercepts[index] };
            RouteState { intercepts: self.intercepts.insert(index, input), ..self }.ask(
                RouteProgress::Updating,
                target,
            )
        } else {
            self.finish(OutcomeView::Updated(Ok(())))
        }
    }

    /// The first step of stopping an application: the sink to which it was
    /// attached is looked up.
    pub open spec fn stop_next(self, index: u32, target: u32) -> (RouteState, StepView) {
        if self.intercepts.contains_key(index) {
            let orig_sink = self.intercepts[index].orig_sink;
            self.ask(RouteProgress::StopLookup { index, orig_sink }, target)
        } else {
            self.finish(OutcomeView::Stopped(Ok(false)))
        }
    }

    /// The step that follows the reply to the pending request.
    pub open spec fn resume_next(self, reply: Reply, target: u32) -> (RouteState, StepView) {
        match self.progress {
            RouteProgress::Idle => self.finish(OutcomeView::Updated(Ok(()))),
            RouteProgress::RecordStarting { index, input } => match reply->Status_0 {
                Ok(()) => self.ask(RouteProgress::RecordMoving { index, input }, target),
                Err(e) => self.finish(OutcomeView::Recorded(Err(ErrorView::PulseError(e)))),
            },
            RouteProgress::RecordMoving { index, input } => match reply->Status_0 {
                Ok(()) => RouteState {
                    intercepts: self.intercepts.insert(index, input),
                    ..self
                }.ask(RouteProgress::RecordCorking, target),
                Err(e) => self.finish(OutcomeView::Recorded(Err(ErrorView::PulseError(e)))),
            },
            RouteProgress::RecordCorking => match reply->Status_0 {
                Ok(()) => self.finish(OutcomeView::Recorded(Ok(()))),
                Err(e) => self.finish(OutcomeView::Recorded(Err(ErrorView::PulseError(e)))),
            },
            RouteProgress::Updating => self.finish(OutcomeView::Updated(reply->Status_0)),
            RouteProgress::StopLookup { index, .. } => match reply->Sink_0 {
                Ok(sink) => self.ask(RouteProgress::StopChecking { index, sink }, target),
                Err(Code::NoEntity) => self.ask(RouteProgress::StopDefault { index }, target),
                Err(e) => self.finish(OutcomeView::Stopped(Err(e))),
            },
            RouteProgress::StopDefault { index } => match reply->Sink_0 {
                Ok(sink) => self.ask(RouteProgress::StopChecking { index, sink }, target),
                Err(e) => self.finish(OutcomeView::Stopped(Err(e))),
            },
            RouteProgress::StopChecking { index, sink } => match reply->Status_0 {
                Ok(()) => self.ask(RouteProgress::StopMoving { index, sink }, target),
                Err(Code::NoEntity) => self.discard(index, target),
                Err(e) => self.finish(OutcomeView::Stopped(Err(e))),
            },
            RouteProgress::StopMoving { index, .. } => match reply->Status_0 {
                Ok(()) => self.discard(index, target),
                Err(Code::NoEntity) => self.discard(index, target),
                Err(e) => self.finish(OutcomeView::Stopped(Err(e))),
            },
            RouteProgress::StopStream => self.finish(OutcomeView::Stopped(Ok(true))),
        }
    }
}

impl RouteTable {
    /// The state of this table.
    pub closed spec fn state(&self) -> RouteState {
        RouteState { intercepts: self.intercepts@, limit: self.limit, progress: self.progress }
    }

    /// Creates a table that holds no applications, and at most `limit` in the
    /// future.
    pub fn new(limit: Option<usize>) -> (r: Self)
        ensures
            r.state() == RouteState::empty(limit),
            r.state().valid(),
    {
        let r = RouteTable { intercepts: HashMap::new(), limit, progress: RouteProgress::Idle };
        assert(r.state() =~= RouteState::empty(limit));
        r
    }

    /// Determines whether all intercepted applications are corked.
    fn corked(&self) -> (r: bool)
        ensures
            r == all_corked(self.intercepts@),
    {
        for input in it: self.intercepts.values()
            invariant
                it.seq().unref().to_set() == self.intercepts@.values(),
                forall|i: int| 0 <= i < it.index() ==> (#[trigger] it.seq()[i]).corked,
        {
            if !input.corked {
                proof {
                    assert(it.seq().unref()[it.index()] == *input);
                    assert(it.seq().unref().to_set().contains(*input));
                    let k = choose|k: u32|
                        self.intercepts@.contains_key(k) && self.intercepts@[k] == *input;
                    assert(!self.intercepts@[k].corked);
                }
                return false;
            }
        }
        proof {
            assert forall|index: u32| self.intercepts@.contains_key(index) implies
                self.intercepts@[index].corked by {
                assert(self.intercepts@.values().contains(self.intercepts@[index]));
            }
        }
        true
    }

    /// Takes the first step of recording an application, which is moved to the
    /// sink with index `target`.
    fn record(&mut self, source: OwnedSinkInputInfo, running: bool, target: u32) -> (r: Step)
        requires
            old(self).state().valid(),
            old(self).state().progress is Idle,
        ensures
            final(self).state().valid(),
            final(self).state().pending(target) == request_of(r@),
            (final(self).state(), r@) == old(self).state().record_next(source@, running, target),
    {
        if let Some(limit) = self.limit {
            if self.intercepts.len() == limit {
                return Step::Done(Outcome::Recorded(Err(InterceptError::AtCapacity(limit, source))));
            }
        }

        let index: u32 = source.index;
        let input = InputState { orig_sink: source.sink, corked: source.corked };

        if running {
            self.progress = RouteProgress::RecordMoving { index, input };
            Step::Request(Request::MoveSinkInput { input: index, sink: target })
        } else {
            self.progress = RouteProgress::RecordStarting { index, input };
            Step::Request(Request::StartStream(StreamOrigin::RecordSink))
        }
    }

    /// Takes the first step of updating the metadata of an application.
    fn update_intercept(&mut self, source: &OwnedSinkInputInfo, target: u32) -> (r: Step)
        requires
            old(self).state().valid(),
            old(self).state().progress is Idle,
        ensures
            final(self).state().valid(),
            final(self).state().pending(target) == request_of(r@),
            (final(self).state(), r@) == old(self).state().update_next(source@, target),
    {
        let intercept = match self.intercepts.get(&source.index) {
            Some(intercept) => *intercept,
            None => {
                return Step::Done(Outcome::Updated(Ok(())));
            },
        };

        if intercept.corked == source.corked {
            return Step::Done(Outcome::Updated(Ok(())));
        }

        self.intercepts.insert(
            source.index,
            InputState { orig_sink: intercept.orig_sink, corked: source.corked },
        );
        self.progress = RouteProgress::Updating;
        Step::Request(Request::SetCork(self.corked()))
    }

    /// Takes the first step of ceasing to record an application.
    fn stop(&mut self, source_idx: u32, target: u32) -> (r: Step)
        requires
            old(self).state().valid(),
            old(self).state().progress is Idle,
        ensures
            final(self).state().valid(),
            final(self).state().pending(target) == request_of(r@),
            (final(self).state(), r@) == old(self).state().stop_next(source_idx, target),
    {
        match self.intercepts.get(&source_idx) {
            Some(intercept) => {
                let orig_sink: u32 = intercept.orig_sink;
                self.progress = RouteProgress::StopLookup { index: source_idx, orig_sink };
                Step::Request(Request::GetSink(orig_sink))
            },
            None => Step::Done(Outcome::Stopped(Ok(false))),
        }
    }

    /// Discards an intercepted application that has been moved back.
    fn discard(&mut self, index: u32, target: u32) -> (r: Step)
        requires
            old(self).state().valid(),
            old(self).state().intercepts.contains_key(index),
        ensures
            final(self).state().valid(),
            final(self).state().pending(target) == request_of(r@),
            (final(self).state(), r@) == old(self).state().discard(index, target),
    {
        self.intercepts.remove(&index);

        if self.intercepts.len() == 0 {
            self.progress = RouteProgress::StopStream;
            Step::Request(Request::StopStream)
        } else {
            self.progress = RouteProgress::Idle;
            Step::Done(Outcome::Stopped(Ok(true)))
        }
    }

    /// Continues the current operation with the reply to the pending request.
    fn resume(&mut self, reply: Reply, target: u32) -> (r: Step)
        requires
            old(self).state().valid(),
            old(self).state().pending(target) matches Some(request) && answers(request, reply),
        ensures
            final(self).state().valid(),
            final(self).state().pending(target) == request_of(r@),
            (final(self).state(), r@) == old(self).state().resume_next(reply, target),
    {
        let progress = self.progress;
        self.progress = RouteProgress::Idle;

        match (progress, reply) {
            (RouteProgress::RecordStarting { index, input }, Reply::Status(Ok(()))) => {
                self.progress = RouteProgress::RecordMoving { index, input };
                Step::Request(Request::MoveSinkInput { input: index, sink: target })
            },
            (RouteProgress::RecordMoving { index, input }, Reply::Status(Ok(()))) => {
                self.intercepts.insert(index, input);
                self.progress = RouteProgress::RecordCorking;
                Step::Request(Request::SetCork(self.corked()))
            },
            (RouteProgress::RecordCorking, Reply::Status(Ok(()))) => {
                Step::Done(Outcome::Recorded(Ok(())))
            },
            (RouteProgress::RecordStarting { .. }, Reply::Status(Err(e)))
            | (RouteProgress::RecordMoving { .. }, Reply::Status(Err(e)))
            | (RouteProgress::RecordCorking, Reply::Status(Err(e))) => {
                Step::Done(Outcome::Recorded(Err(InterceptError::PulseError(e))))
            },
            (RouteProgress::Updating, Reply::Status(result)) => {
                Step::Done(Outcome::Updated(result))
            },
            (RouteProgress::StopLookup { index, .. }, Reply::Sink(Ok(sink)))
            | (RouteProgress::StopDefault { index }, Reply::Sink(Ok(sink))) => {
                self.progress = RouteProgress::StopChecking { index, sink };
                Step::Request(Request::GetSinkInput(index))
            },
            (RouteProgress::StopLookup { index, .. }, Reply::Sink(Err(Code::NoEntity))) => {
                self.progress = RouteProgress::StopDefault { index };
                Step::Request(Request::GetDefaultSink)
            },
            (RouteProgress::StopChecking { index, sink }, Reply::Status(Ok(()))) => {
                self.progress = RouteProgress::StopMoving { index, sink };
                Step::Request(Request::MoveSinkInput { input: index, sink })
            },
            (RouteProgress::StopMoving { index, .. }, Reply::Status(Ok(())))
            | (RouteProgress::StopMoving { index, .. }, Reply::Status(Err(Code::NoEntity)))
            | (RouteProgress::StopChecking { index, .. }, Reply::Status(Err(Code::NoEntity))) => {
                // The application no longer needs to be restored if it does not
                // exist anymore
                self.discard(index, target)
            },
            (RouteProgress::StopLookup { .. }, Reply::Sink(Err(e)))
            | (RouteProgress::StopDefault { .. }, Reply::Sink(Err(e)))
            | (RouteProgress::StopChecking { .. }, Reply::Status(Err(e)))
            | (RouteProgress::StopMoving { .. }, Reply::Status(Err(e))) => {
                Step::Done(Outcome::Stopped(Err(e)))
            },
            (RouteProgress::StopStream, Reply::Done) => Step::Done(Outcome::Stopped(Ok(true))),
            _ => {
                assert(false);
                Step::Done(Outcome::Updated(Ok(())))
            },
        }
    }

    /// Collects the indices of all intercepted applications.
    fn indices(&self) -> (r: Vec<u32>)
        ensures
            r@.no_duplicates(),
            r@.to_set() == self.state().intercepts.dom(),
    {
        let mut r: Vec<u32> = Vec::new();
        for index in it: self.intercepts.keys()
            invariant
                it.seq().unref().to_set() == self.intercepts@.dom(),
                it.seq().no_duplicates(),
                r@ == it.seq().unref().take(it.index()),
                it.index() == it.seq().len() ==> r@ =~= it.seq().unref(),
        {
            r.push(*index);
        }
        r
    }
}

// CAPTURING INTERCEPTOR *******************************************************

/// Implementation of [`Interceptor`] that captures application audio in a
/// dedicated audio sink, preventing it from reaching any hardware audio
/// devices.
pub struct CapturingInterceptor {
    rec: OwnedSinkInfo,
    routes: RouteTable,
}

/// The state of a [`CapturingInterceptor`].
pub struct CapturingState {
    pub rec: owned::SinkView,
    pub routes: RouteState,
}

impl CapturingState {
    /// This state, after a step of the underlying table.
    pub open spec fn step(self, next: (RouteState, StepView)) -> (CapturingState, StepView) {
        (CapturingState { routes: next.0, ..self }, next.1)
    }
}

impl CapturingInterceptor {
    /// Creates a new `CapturingInterceptor` that moves applications to the given
    /// sink. An optional limit to the number of simultaneously intercepted
    /// streams can be provided.
    pub fn new(rec: OwnedSinkInfo, limit: Option<usize>) -> (r: Self)
        ensures
            Self::valid(r.state()),
            r.state() == (CapturingState { rec: rec@, routes: RouteState::empty(limit) }),
    {
        CapturingInterceptor { rec, routes: RouteTable::new(limit) }
    }

    /// Returns the sink that is dedicated to recording.
    pub fn record_sink(&self) -> (r: &OwnedSinkInfo)
        ensures
            r@ == self.state().rec,
    {
        &self.rec
    }
}

impl Interceptor for CapturingInterceptor {
    type State = CapturingState;

    closed spec fn state(&self) -> CapturingState {
        CapturingState { rec: self.rec@, routes: self.routes.state() }
    }

    open spec fn valid(state: CapturingState) -> bool {
        state.routes.valid()
    }

    open spec fn pending(state: CapturingState) -> Option<Request> {
        state.routes.pending(state.rec.index)
    }

    open spec fn count(state: CapturingState) -> nat {
        state.routes.intercepts.len()
    }

    open spec fn record_next(
        state: CapturingState,
        source: owned::SinkInputView,
        running: bool,
    ) -> (CapturingState, StepView) {
        state.step(state.routes.record_next(source, running, state.rec.index))
    }

    open spec fn update_next(
        state: CapturingState,
        source: owned::SinkInputView,
        running: bool,
    ) -> (CapturingState, StepView) {
        state.step(state.routes.update_next(source, state.rec.index))
    }

    open spec fn stop_next(
        state: CapturingState,
        source_idx: u32,
        running: bool,
    ) -> (CapturingState, StepView) {
        state.step(state.routes.stop_next(source_idx, state.rec.index))
    }

    open spec fn resume_next(
        state: CapturingState,
        reply: Reply,
        running: bool,
    ) -> (CapturingState, StepView) {
        state.step(state.routes.resume_next(reply, state.rec.index))
    }

    fn record(&mut self, source: OwnedSinkInputInfo, running: bool) -> (r: Step) {
        self.routes.record(source, running, self.rec.index)
    }

    fn update_intercept(&mut self, source: &OwnedSinkInputInfo, running: bool) -> (r: Step) {
        self.routes.update_intercept(source, self.rec.index)
    }

    fn stop(&mut self, source_idx: u32, running: bool) -> (r: Step) {
        self.routes.stop(source_idx, self.rec.index)
    }

    fn resume(&mut self, reply: Reply, running: bool) -> (r: Step) {
        self.routes.resume(reply, self.rec.index)
    }

    fn len(&self) -> (r: usize) {
        self.routes.intercepts.len()
    }

    open spec fn closing(state: CapturingState) -> ClosePlanView {
        ClosePlanView {
            stop_stream: false,
            stop: state.routes.intercepts.dom(),
            tear_down: seq![(state.rec, None)],
        }
    }

    fn close_plan(&self) -> (r: ClosePlan) {
        let mut tear_down: Vec<(OwnedSinkInfo, Option<u32>)> = Vec::new();
        tear_down.push((self.rec.clone(), None));
        let r = ClosePlan { stop_stream: false, stop: self.routes.indices(), tear_down };
        assert(r@.tear_down =~= seq![(self.rec@, None)]);
        r
    }
}

impl LimitingInterceptor for CapturingInterceptor {
    open spec fn limit(state: CapturingState) -> Option<usize> {
        state.routes.limit
    }

    proof fn within_limit(state: CapturingState) {
    }

    fn capacity(&self) -> (r: Option<usize>) {
        self.routes.limit
    }
}

// DUPLEXING INTERCEPTOR *******************************************************

/// Implementation of [`Interceptor`] that duplicates application audio streams
/// before reading them to allow the audio to reach a hardware sink in addition
/// to being read by bardcast.
pub struct DuplexingInterceptor {
    demux: OwnedSinkInfo,
    rec: OwnedSinkInfo,
    orig: OwnedSinkInfo,
    routes: RouteTable,
}

/// The state of a [`DuplexingInterceptor`].
pub struct DuplexingState {
    pub demux: owned::SinkView,
    pub rec: owned::SinkView,
    pub orig: owned::SinkView,
    pub routes: RouteState,
}

impl DuplexingState {
    /// This state, after a step of the underlying table.
    pub open spec fn step(self, next: (RouteState, StepView)) -> (DuplexingState, StepView) {
        (DuplexingState { routes: next.0, ..self }, next.1)
    }
}

impl DuplexingInterceptor {
    /// Creates a new `DuplexingInterceptor` that moves applications to the sink
    /// `demux`, which duplicates the audio it receives to the record sink `rec`
    /// and the sink `orig`. An optional limit to the number of simultaneously
    /// intercepted streams can be provided.
    pub fn from_sink(
        demux: OwnedSinkInfo,
        rec: OwnedSinkInfo,
        orig: OwnedSinkInfo,
        limit: Option<usize>,
    ) -> (r: Self)
        ensures
            Self::valid(r.state()),
            r.state() == (DuplexingState {
                demux: demux@,
                rec: rec@,
                orig: orig@,
                routes: RouteState::empty(limit),
            }),
    {
        DuplexingInterceptor { demux, rec, orig, routes: RouteTable::new(limit) }
    }

    /// Returns the sink that is dedicated to recording.
    pub fn record_sink(&self) -> (r: &OwnedSinkInfo)
        ensures
            r@ == self.state().rec,
    {
        &self.rec
    }

    /// Returns the sink that duplicates the audio it receives.
    pub fn demux_sink(&self) -> (r: &OwnedSinkInfo)
        ensures
            r@ == self.state().demux,
    {
        &self.demux
    }

    /// Returns the sink where the audio of intercepted applications can still be
    /// heard.
    pub fn original_sink(&self) -> (r: &OwnedSinkInfo)
        ensures
            r@ == self.state().orig,
    {
        &self.orig
    }
}

impl Interceptor for DuplexingInterceptor {
    type State = DuplexingState;

    closed spec fn state(&self) -> DuplexingState {
        DuplexingState {
            demux: self.demux@,
            rec: self.rec@,
            orig: self.orig@,
            routes: self.routes.state(),
        }
    }

    open spec fn valid(state: DuplexingState) -> bool {
        state.routes.valid()
    }

    open spec fn pending(state: DuplexingState) -> Option<Request> {
        state.routes.pending(state.demux.index)
    }

    open spec fn count(state: DuplexingState) -> nat {
        state.routes.intercepts.len()
    }

    open spec fn record_next(
        state: DuplexingState,
        source: owned::SinkInputView,
        running: bool,
    ) -> (DuplexingState, StepView) {
        state.step(state.routes.record_next(source, running, state.demux.index))
    }

    open spec fn update_next(
        state: DuplexingState,
        source: owned::SinkInputView,
        running: bool,
    ) -> (DuplexingState, StepView) {
        state.step(state.routes.update_next(source, state.demux.index))
    }

    open spec fn stop_next(
        state: DuplexingState,
        source_idx: u32,
        running: bool,
    ) -> (DuplexingState, StepView) {
        state.step(state.routes.stop_next(source_idx, state.demux.index))
    }

    open spec fn resume_next(
        state: DuplexingState,
        reply: Reply,
        running: bool,
    ) -> (DuplexingState, StepView) {
        state.step(state.routes.resume_next(reply, state.demux.index))
    }

    fn record(&mut self, source: OwnedSinkInputInfo, running: bool) -> (r: Step) {
        self.routes.record(source, running, self.demux.index)
    }

    fn update_intercept(&mut self, source: &OwnedSinkInputInfo, running: bool) -> (r: Step) {
        self.routes.update_intercept(source, self.demux.index)
    }

    fn stop(&mut self, source_idx: u32, running: bool) -> (r: Step) {
        self.routes.stop(source_idx, self.demux.index)
    }

    fn resume(&mut self, reply: Reply, running: bool) -> (r: Step) {
        self.routes.resume(reply, self.demux.index)
    }

    fn len(&self) -> (r: usize) {
        self.routes.intercepts.len()
    }

    open spec fn closing(state: DuplexingState) -> ClosePlanView {
        ClosePlanView {
            stop_stream: false,
            stop: state.routes.intercepts.dom(),
            tear_down: seq![
                (state.demux, Some(state.orig.index)),
                (state.rec, Some(state.orig.index)),
            ],
        }
    }

    fn close_plan(&self) -> (r: ClosePlan) {
        let mut tear_down: Vec<(OwnedSinkInfo, Option<u32>)> = Vec::new();
        tear_down.push((self.demux.clone(), Some(self.orig.index)));
        tear_down.push((self.rec.clone(), Some(self.orig.index)));
        let r = ClosePlan { stop_stream: false, stop: self.routes.indices(), tear_down };
        assert(r@.tear_down =~= Self::closing(self.state()).tear_down);
        r
    }
}

impl LimitingInterceptor for DuplexingInterceptor {
    open spec fn limit(state: DuplexingState) -> Option<usize> {
        state.routes.limit
    }

    proof fn within_limit(state: DuplexingState) {
    }

    fn capacity(&self) -> (r: Option<usize>) {
        self.routes.limit
    }
}

// QUEUED INTERCEPTOR **********************************************************

/// Progress of the current operation of a [`QueuedInterceptor`].
#[derive(Debug, Clone, Copy, PartialEq, Eq, Structural)]
pub enum QueueProgress {
    /// There is no current operation.
    Idle,

    /// An application is being recorded.
    Recording,

    /// The metadata of an application is being updated.
    Updating,

    /// An application is being stopped.
    Stopping,

    /// A queued application is being recorded after an update.
    UpdateRecording,

    /// A queued application is being recorded after another one stopped.
    StopRecording,
}

/// Wrapper implementation of [`Interceptor`] that queues intercepted inputs
/// that would otherwise cause the inner [`LimitingInterceptor`] implementation
/// to exceed its limit. Queued inputs are dequeued when inputs that were
/// previously intercepted by the wrapped interceptor are removed.
pub struct QueuedInterceptor<I> {
    inner: I,
    queue: VecDeque<OwnedSinkInputInfo>,
    progress: QueueProgress,
}

/// The state of a [`QueuedInterceptor`] around an interceptor with states of the
/// given type.
#[verifier::ext_equal]
pub struct QueuedState<S> {
    pub inner: S,
    pub queue: Seq<owned::SinkInputView>,
    pub progress: QueueProgress,
}

/// The contents of a sequence of applications.
pub open spec fn contents(sources: Seq<OwnedSinkInputInfo>) -> Seq<owned::SinkInputView> {
    sources.map_values(|source: OwnedSinkInputInfo| source@)
}

/// The position of the first uncorked application in the given queue, or the
/// length of the queue if there is none.
pub open spec fn first_uncorked(queue: Seq<owned::SinkInputView>) -> nat
    decreases queue.len(),
{
    if queue.len() == 0 || !queue[0].corked {
        0
    } else {
        1 + first_uncorked(queue.skip(1))
    }
}

/// The given queue without the application with the given index.
pub open spec fn without(queue: Seq<owned::SinkInputView>, index: u32) -> Seq<
    owned::SinkInputView,
> {
    queue.filter(|queued: owned::SinkInputView| queued.index != index)
}

/// The given queue with the metadata of an application updated.
pub open spec fn refreshed(
    queue: Seq<owned::SinkInputView>,
    source: owned::SinkInputView,
) -> Seq<owned::SinkInputView> {
    queue.map_values(
        |queued: owned::SinkInputView|
            if queued.index == source.index {
                source
            } else {
                queued
            },
    )
}

/// The position computed by [`first_uncorked`] is that of an uncorked
/// application, and all applications before it are corked.
pub proof fn lemma_first_uncorked(queue: Seq<owned::SinkInputView>)
    ensures
        first_uncorked(queue) <= queue.len(),
        first_uncorked(queue) < queue.len() ==> !queue[first_uncorked(queue) as int].corked,
        forall|i: int| 0 <= i < first_uncorked(queue) ==> (#[trigger] queue[i]).corked,
    decreases queue.len(),
{
    if queue.len() > 0 && queue[0].corked {
        let rest = queue.skip(1);
        lemma_first_uncorked(rest);
        assert forall|i: int| 0 <= i < first_uncorked(queue) implies (#[trigger] queue[i]).corked by {
            if i > 0 {
                assert(queue[i] == rest[i - 1]);
            }
        }
        if first_uncorked(queue) < queue.len() {
            assert(queue[first_uncorked(queue) as int] == rest[first_uncorked(rest) as int]);
        }
    }
}

impl<S> QueuedState<S> {
    /// This state with a different progress of the current operation.
    pub open spec fn at(self, progress: QueueProgress) -> QueuedState<S> {
        QueuedState { progress, ..self }
    }

    /// Completes the current operation with the given outcome.
    pub open spec fn finish(self, outcome: OutcomeView) -> (QueuedState<S>, StepView) {
        (self.at(QueueProgress::Idle), StepView::Done(outcome))
    }
}

impl<I: LimitingInterceptor> QueuedInterceptor<I> {
    /// Adapts a step of the underlying interceptor that is part of recording an
    /// application: applications that exceed the limit are queued instead.
    pub open spec fn after_record(
        state: QueuedState<I::State>,
        step: StepView,
        progress: QueueProgress,
    ) -> (QueuedState<I::State>, StepView) {
        match step {
            StepView::Request(_) => (state.at(progress), step),
            StepView::Done(OutcomeView::Recorded(Err(ErrorView::AtCapacity(_, source)))) => {
                let queued = QueuedState { queue: state.queue.push(source), ..state };
                queued.finish(Self::outcome_of(progress, None))
            },
            StepView::Done(OutcomeView::Recorded(Err(ErrorView::PulseError(e)))) => state.finish(
                Self::outcome_of(progress, Some(e)),
            ),
            StepView::Done(_) => state.finish(Self::outcome_of(progress, None)),
        }
    }

    /// The outcome of an operation that ends with an attempt to record an
    /// application.
    pub open spec fn outcome_of(progress: QueueProgress, error: Option<Code>) -> OutcomeView {
        match (progress, error) {
            (QueueProgress::UpdateRecording, None) => OutcomeView::Updated(Ok(())),
            (QueueProgress::UpdateRecording, Some(e)) => OutcomeView::Updated(Err(e)),
            (QueueProgress::StopRecording, None) => OutcomeView::Stopped(Ok(true)),
            (QueueProgress::StopRecording, Some(e)) => OutcomeView::Stopped(Err(e)),
            (_, None) => OutcomeView::Recorded(Ok(())),
            (_, Some(e)) => OutcomeView::Recorded(Err(ErrorView::PulseError(e))),
        }
    }

    /// Passes the first uncorked application in the queue, if any, to the
    /// underlying interceptor.
    pub open spec fn next_queued(
        state: QueuedState<I::State>,
        running: bool,
        progress: QueueProgress,
    ) -> (QueuedState<I::State>, StepView) {
        let i = first_uncorked(state.queue) as int;
        if i < state.queue.len() {
            let (inner, step) = I::record_next(state.inner, state.queue[i], running);
            let next = QueuedState { inner, queue: state.queue.remove(i), ..state };
            Self::after_record(next, step, progress)
        } else {
            state.finish(Self::outcome_of(progress, None))
        }
    }

    /// Adapts a step of the underlying interceptor that is part of updating an
    /// application. If there is capacity after the update, then a queued
    /// application is recorded.
    pub open spec fn after_update(
        state: QueuedState<I::State>,
        step: StepView,
        running: bool,
    ) -> (QueuedState<I::State>, StepView) {
        match step {
            StepView::Request(_) => (state.at(QueueProgress::Updating), step),
            StepView::Done(OutcomeView::Updated(Err(e))) => state.finish(
                OutcomeView::Updated(Err(e)),
            ),
            StepView::Done(_) => {
                if I::limit(state.inner) matches Some(n) && I::count(state.inner) == n {
                    state.finish(OutcomeView::Updated(Ok(())))
                } else {
                    Self::next_queued(state, running, QueueProgress::UpdateRecording)
                }
            },
        }
    }

    /// Adapts a step of the underlying interceptor that is part of stopping an
    /// application. If the application was recorded, then a queued application
    /// takes its place.
    pub open spec fn after_stop(
        state: QueuedState<I::State>,
        step: StepView,
        running: bool,
    ) -> (QueuedState<I::State>, StepView) {
        match step {
            StepView::Request(_) => (state.at(QueueProgress::Stopping), step),
            StepView::Done(OutcomeView::Stopped(Ok(true))) => Self::next_queued(
                state,
                running,
                QueueProgress::StopRecording,
            ),
            StepView::Done(OutcomeView::Stopped(Err(e))) => state.finish(
                OutcomeView::Stopped(Err(e)),
            ),
            StepView::Done(_) => state.finish(OutcomeView::Stopped(Ok(false))),
        }
    }

    /// The applications that are currently queued.
    pub closed spec fn queued(&self) -> Seq<owned::SinkInputView> {
        contents(self.queue@)
    }

    /// Creates a new `QueuedInterceptor` with an empty queue.
    pub fn from_inner(interceptor: I) -> (r: Self)
        requires
            I::valid(interceptor.state()),
            I::pending(interceptor.state()) is None,
        ensures
            Self::valid(r.state()),
            r.state() == (QueuedState {
                inner: interceptor.state(),
                queue: Seq::empty(),
                progress: QueueProgress::Idle,
            }),
    {
        let r = QueuedInterceptor {
            inner: interceptor,
            queue: VecDeque::new(),
            progress: QueueProgress::Idle,
        };
        assert(r.queued() =~= Seq::empty());
        r
    }

    /// Returns the underlying interceptor.
    pub fn inner(&self) -> (r: &I)
        ensures
            r.state() == self.state().inner,
    {
        &self.inner
    }

    /// Returns the underlying interceptor, abandoning all queued applications.
    pub fn into_inner(self) -> (r: I)
        ensures
            r.state() == self.state().inner,
    {
        self.inner
    }

    /// Searches the queue for the first uncorked sink input, removes it, and
    /// returns it. If there are no uncorked sink inputs, or the queue is empty,
    /// returns `None`.
    fn get_top_uncorked_input(&mut self) -> (r: Option<OwnedSinkInputInfo>)
        ensures
            final(self).inner == old(self).inner,
            final(self).progress == old(self).progress,
            match r {
                Some(source) => {
                    let i = first_uncorked(old(self).queued()) as int;
                    &&& i < old(self).queued().len()
                    &&& source@ == old(self).queued()[i]
                    &&& final(self).queued() == old(self).queued().remove(i)
                },
                None => {
                    &&& first_uncorked(old(self).queued()) == old(self).queued().len()
                    &&& final(self).queued() == old(self).queued()
                },
            },
    {
        let ghost queued = self.queued();
        let mut i: usize = 0;
        assert(queued.skip(0) =~= queued);
        while i < self.queue.len()
            invariant
                i <= self.queue.len(),
                *self == *old(self),
                queued == self.queued(),
                first_uncorked(queued) == i + first_uncorked(queued.skip(i as int)),
            decreases self.queue.len() - i,
        {
            let ghost rest = queued.skip(i as int);
            assert(rest[0] == self.queue@[i as int]@);
            assert(rest.skip(1) =~= queued.skip(i + 1));
            if !self.queue[i].corked {
                let r = self.queue.remove(i);
                assert(self.queued() =~= queued.remove(i as int));
                return r;
            }
            i = i + 1;
        }
        assert(queued.skip(i as int).len() == 0);
        None
    }

    /// Adapts a step of the underlying interceptor that is part of recording an
    /// application.
    fn settle_record(&mut self, step: Step, progress: QueueProgress) -> (r: Step)
        requires
            I::valid(old(self).inner.state()),
            I::pending(old(self).inner.state()) == request_of(step@),
            progress !is Idle,
        ensures
            Self::valid(final(self).state()),
            Self::pending(final(self).state()) == request_of(r@),
            (final(self).state(), r@) == Self::after_record(old(self).state(), step@, progress),
    {
        let error: Option<Code> = match step {
            Step::Request(request) => {
                self.progress = progress;
                return Step::Request(request);
            },
            Step::Done(Outcome::Recorded(Err(InterceptError::AtCapacity(_, source)))) => {
                self.queue.push_back(source);
                assert(self.queued() =~= old(self).queued().push(source@));
                None
            },
            Step::Done(Outcome::Recorded(Err(InterceptError::PulseError(e)))) => Some(e),
            Step::Done(_) => None,
        };

        self.progress = QueueProgress::Idle;
        Step::Done(
            match (progress, error) {
                (QueueProgress::UpdateRecording, None) => Outcome::Updated(Ok(())),
                (QueueProgress::UpdateRecording, Some(e)) => Outcome::Updated(Err(e)),
                (QueueProgress::StopRecording, None) => Outcome::Stopped(Ok(true)),
                (QueueProgress::StopRecording, Some(e)) => Outcome::Stopped(Err(e)),
                (_, None) => Outcome::Recorded(Ok(())),
                (_, Some(e)) => Outcome::Recorded(Err(InterceptError::PulseError(e))),
            },
        )
    }

    /// Finds the first uncorked sink input in the queue and passes it to the
    /// underlying interceptor. If the interceptor is at capacity, the sink
    /// input will be requeued at the end.
    fn attempt_queued_intercept(&mut self, running: bool, progress: QueueProgress) -> (r: Step)
        requires
            I::valid(old(self).inner.state()),
            I::pending(old(self).inner.state()) is None,
            progress !is Idle,
        ensures
            Self::valid(final(self).state()),
            Self::pending(final(self).state()) == request_of(r@),
            (final(self).state(), r@) == Self::next_queued(old(self).state(), running, progress),
    {
        match self.get_top_uncorked_input() {
            Some(source) => {
                let step = self.inner.record(source, running);
                self.settle_record(step, progress)
            },
            None => {
                proof {
                    lemma_first_uncorked(old(self).queued());
                }
                let done = Step::Done(Outcome::Recorded(Ok(())));
                self.settle_record(done, progress)
            },
        }
    }

    /// Adapts a step of the underlying interceptor that is part of updating an
    /// application.
    fn settle_update(&mut self, step: Step, running: bool) -> (r: Step)
        requires
            I::valid(old(self).inner.state()),
            I::pending(old(self).inner.state()) == request_of(step@),
        ensures
            Self::valid(final(self).state()),
            Self::pending(final(self).state()) == request_of(r@),
            (final(self).state(), r@) == Self::after_update(old(self).state(), step@, running),
    {
        match step {
            Step::Request(request) => {
                self.progress = QueueProgress::Updating;
                Step::Request(request)
            },
            Step::Done(Outcome::Updated(Err(e))) => {
                self.progress = QueueProgress::Idle;
                Step::Done(Outcome::Updated(Err(e)))
            },
            Step::Done(_) => {
                // If there is capacity and the change is due to an application
                // uncorking, then allow it to be intercepted
                if self.inner.is_full() {
                    self.progress = QueueProgress::Idle;
                    Step::Done(Outcome::Updated(Ok(())))
                } else {
                    self.attempt_queued_intercept(running, QueueProgress::UpdateRecording)
                }
            },
        }
    }

    /// Adapts a step of the underlying interceptor that is part of stopping an
    /// application.
    fn settle_stop(&mut self, step: Step, running: bool) -> (r: Step)
        requires
            I::valid(old(self).inner.state()),
            I::pending(old(self).inner.state()) == request_of(step@),
        ensures
            Self::valid(final(self).state()),
            Self::pending(final(self).state()) == request_of(r@),
            (final(self).state(), r@) == Self::after_stop(old(self).state(), step@, running),
    {
        match step {
            Step::Request(request) => {
                self.progress = QueueProgress::Stopping;
                Step::Request(request)
            },
            Step::Done(Outcome::Stopped(Ok(true))) => {
                self.attempt_queued_intercept(running, QueueProgress::StopRecording)
            },
            Step::Done(Outcome::Stopped(Err(e))) => {
                self.progress = QueueProgress::Idle;
                Step::Done(Outcome::Stopped(Err(e)))
            },
            Step::Done(_) => {
                self.progress = QueueProgress::Idle;
                Step::Done(Outcome::Stopped(Ok(false)))
            },
        }
    }

    /// Replaces the metadata of the given application in the queue.
    fn refresh_queue(&mut self, source: &OwnedSinkInputInfo)
        ensures
            final(self).inner == old(self).inner,
            final(self).progress == old(self).progress,
            final(self).queued() == refreshed(old(self).queued(), source@),
    {
        let mut queue: VecDeque<OwnedSinkInputInfo> = VecDeque::new();
        let ghost before = self.queued();
        let ghost mut done: int = 0;
        assert(before.skip(0) =~= before);
        while self.queue.len() > 0
            invariant
                0 <= done <= before.len(),
                self.inner == old(self).inner,
                self.progress == old(self).progress,
                self.queued() == before.skip(done),
                contents(queue@) =~= refreshed(before, source@).take(done),
            decreases before.len() - done,
        {
            let ghost rest = self.queued();
            assert(rest.len() == self.queue@.len());
            assert(rest.len() == before.len() - done);
            assert(before.skip(done)[0] == before[done]);
            assert(rest[0] == self.queue@[0]@);
            let queued = self.queue.pop_front().unwrap();
            assert(self.queued() =~= rest.skip(1));
            assert(rest.skip(1) =~= before.skip(done + 1));
            let ghost prior = contents(queue@);
            if queued.index == source.index {
                queue.push_back(source.clone());
            } else {
                queue.push_back(queued);
            }
            proof {
                assert(contents(queue@) =~= prior.push(refreshed(before, source@)[done]));
                done = done + 1;
            }
        }
        assert(self.queued().len() == 0);
        self.queue = queue;
    }

    /// Removes the given application from the queue.
    fn remove_from_queue(&mut self, source_idx: u32)
        ensures
            final(self).inner == old(self).inner,
            final(self).progress == old(self).progress,
            final(self).queued() == without(old(self).queued(), source_idx),
    {
        let mut queue: VecDeque<OwnedSinkInputInfo> = VecDeque::new();
        let ghost before = self.queued();
        let ghost mut done: int = 0;
        assert(before.skip(0) =~= before);
        proof {
            reveal(Seq::filter);
        }
        while self.queue.len() > 0
            invariant
                0 <= done <= before.len(),
                self.inner == old(self).inner,
                self.progress == old(self).progress,
                self.queued() == before.skip(done),
                contents(queue@) =~= without(
                    before.take(done),
                    source_idx,
                ),
            decreases before.len() - done,
        {
            let ghost rest = self.queued();
            assert(rest.len() == self.queue@.len());
            assert(rest.len() == before.len() - done);
            assert(before.skip(done)[0] == before[done]);
            assert(rest[0] == self.queue@[0]@);
            let queued = self.queue.pop_front().unwrap();
            assert(self.queued() =~= rest.skip(1));
            assert(rest.skip(1) =~= before.skip(done + 1));
            proof {
                reveal(Seq::filter);
                assert(before.take(done + 1).drop_last() =~= before.take(done));
                assert(before.take(done + 1).last() == queued@);
                done = done + 1;
            }
            if queued.index != source_idx {
                queue.push_back(queued);
            }
        }
        assert(self.queued().len() == 0);
        assert(before.take(done) =~= before);
        self.queue = queue;
    }
}

impl<I: LimitingInterceptor> Interceptor for QueuedInterceptor<I> {
    type State = QueuedState<I::State>;

    closed spec fn state(&self) -> QueuedState<I::State> {
        QueuedState {
            inner: self.inner.state(),
            queue: self.queued(),
            progress: self.progress,
        }
    }

    open spec fn valid(state: QueuedState<I::State>) -> bool {
        &&& I::valid(state.inner)
        &&& state.progress is Idle <==> I::pending(state.inner) is None
    }

    open spec fn pending(state: QueuedState<I::State>) -> Option<Request> {
        I::pending(state.inner)
    }

    open spec fn count(state: QueuedState<I::State>) -> nat {
        I::count(state.inner)
    }

    open spec fn record_next(
        state: QueuedState<I::State>,
        source: owned::SinkInputView,
        running: bool,
    ) -> (QueuedState<I::State>, StepView) {
        if source.corked {
            QueuedState { queue: state.queue.push(source), ..state }.finish(
                OutcomeView::Recorded(Ok(())),
            )
        } else {
            let (inner, step) = I::record_next(state.inner, source, running);
            Self::after_record(QueuedState { inner, ..state }, step, QueueProgress::Recording)
        }
    }

    open spec fn update_next(
        state: QueuedState<I::State>,
        source: owned::SinkInputView,
        running: bool,
    ) -> (QueuedState<I::State>, StepView) {
        let (inner, step) = I::update_next(state.inner, source, running);
        let queue = refreshed(state.queue, source);
        Self::after_update(QueuedState { inner, queue, ..state }, step, running)
    }

    open spec fn stop_next(
        state: QueuedState<I::State>,
        source_idx: u32,
        running: bool,
    ) -> (QueuedState<I::State>, StepView) {
        let (inner, step) = I::stop_next(state.inner, source_idx, running);
        let queue = without(state.queue, source_idx);
        Self::after_stop(QueuedState { inner, queue, ..state }, step, running)
    }

    open spec fn resume_next(
        state: QueuedState<I::State>,
        reply: Reply,
        running: bool,
    ) -> (QueuedState<I::State>, StepView) {
        let (inner, step) = I::resume_next(state.inner, reply, running);
        let next = QueuedState { inner, ..state };
        match state.progress {
            QueueProgress::Updating => Self::after_update(next, step, running),
            QueueProgress::Stopping => Self::after_stop(next, step, running),
            _ => Self::after_record(next, step, state.progress),
        }
    }

    fn record(&mut self, source: OwnedSinkInputInfo, running: bool) -> (r: Step) {
        // Send corked streams straight to the queue if they're corked. The user
        // probably doesn't want corked streams using up interceptor capacity.
        if source.corked {
            self.queue.push_back(source);
            assert(self.queued() =~= old(self).queued().push(source@));
            return Step::Done(Outcome::Recorded(Ok(())));
        }

        let step = self.inner.record(source, running);
        self.settle_record(step, QueueProgress::Recording)
    }

    fn update_intercept(&mut self, source: &OwnedSinkInputInfo, running: bool) -> (r: Step) {
        self.refresh_queue(source);

        let step = self.inner.update_intercept(source, running);
        self.settle_update(step, running)
    }

    fn stop(&mut self, source_idx: u32, running: bool) -> (r: Step) {
        self.remove_from_queue(source_idx);

        let step = self.inner.stop(source_idx, running);
        self.settle_stop(step, running)
    }

    fn resume(&mut self, reply: Reply, running: bool) -> (r: Step) {
        let step = self.inner.resume(reply, running);

        match self.progress {
            QueueProgress::Updating => self.settle_update(step, running),
            QueueProgress::Stopping => self.settle_stop(step, running),
            progress => self.settle_record(step, progress),
        }
    }

    fn len(&self) -> (r: usize) {
        self.inner.len()
    }

    open spec fn closing(state: QueuedState<I::State>) -> ClosePlanView {
        I::closing(state.inner)
    }

    fn close_plan(&self) -> (r: ClosePlan) {
        self.inner.close_plan()
    }
}

} // verus!
