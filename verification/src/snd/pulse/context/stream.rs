//! PulseAudio stream handling.

use tokio::sync::oneshot;
use vstd::prelude::*;

use crate::snd::pulse::error::Code;
use crate::snd::pulse::owned;
use crate::snd::pulse::owned::{OwnedSinkInfo, OwnedSourceInfo};
use crate::util;
use crate::util::text;
use crate::util::{Lease, Lessor};

use super::introspect::OperationState;

verus! {

/// The audio sample rate in Hz. Per the driver specification, this must be
/// 48 kHz.
pub const SAMPLE_RATE: u32 = 48000;

/// The number of channels of the audio stream.
pub const CHANNELS: u8 = 2;

/// The size of the sample buffer in bytes.
pub const SAMPLE_QUEUE_SIZE: usize = 96000;

/// The maximum number of consecutive non-fatal stream read errors that are
/// allowed before the stream task automatically terminates.
pub const MAX_CONSECUTIVE_ERRORS: usize = 3;

/// Capacity of the stream queue.
pub const COMMAND_QUEUE_SIZE: usize = 3;

// STREAM SOURCES **************************************************************

/// Represents a unique identifier for a PulseAudio sink.
#[derive(Debug, Clone, Copy)]
pub enum SinkId<'a> {
    Index(u32),
    Name(&'a str),
}

/// How to look up the metadata of a sink.
#[derive(Debug)]
pub enum SinkLookup {
    /// The sink configured by the user as default.
    Default,

    /// The sink with the given index.
    ByIndex(u32),

    /// The sink with the given name.
    ByName(String),
}

/// What a record stream is connected to.
#[derive(Debug)]
pub struct ConnectTarget {
    /// The sink input to which the stream is limited, if any.
    pub monitor_stream: Option<u32>,

    /// The name of the source that the stream reads from. There is no source to
    /// read from if the name is absent.
    pub source_name: Option<String>,
}

/// Allows a sink input to be used as the source of a stream (sink inputs by
/// themselves do not provide the name of the sink monitor, so this holds the
/// metadata of the associated sink).
#[derive(Debug)]
pub struct ResolvedSinkInput {
    /// The index of the sink input.
    pub input: u32,

    /// The sink that it is attached to.
    pub sink: OwnedSinkInfo,
}

/// Trait for entities that a stream can read audio from.
pub trait StreamConfig {
    /// The sink input to which the stream is limited, if any.
    spec fn monitored(&self) -> Option<u32>;

    /// The name of the source that the stream reads from.
    spec fn source(&self) -> Option<Seq<char>>;

    /// Determines what a stream has to be connected to in order to read audio
    /// from this entity.
    fn connect_target(&self) -> (r: ConnectTarget)
        ensures
            r.monitor_stream == self.monitored(),
            text::opt_view(r.source_name) == self.source(),
    ;
}

impl<'a> SinkId<'a> {
    /// Whether `id` identifies the sink with the given index, or the given name
    /// if there is no index.
    pub open spec fn identifies(
        index: Option<u32>,
        name: Option<String>,
        id: Option<SinkId<'a>>,
    ) -> bool {
        match (index, name) {
            (Some(index), _) => id == Some(SinkId::<'a>::Index(index)),
            (None, Some(name)) => id matches Some(SinkId::Name(n)) && n@ == name@,
            (None, None) => id is None,
        }
    }

    /// Disambiguates between a sink index and a sink name, returning an
    /// optional `SinkId` object accordingly.
    pub fn merged(index: Option<u32>, name: Option<&'a str>) -> (r: Option<SinkId<'a>>)
        ensures
            r == (match (index, name) {
                (Some(index), _) => Some(SinkId::Index(index)),
                (None, Some(name)) => Some(SinkId::Name(name)),
                (None, None) => None,
            }),
    {
        match index {
            Some(index) => Some(SinkId::Index(index)),
            None => match name {
                Some(name) => Some(SinkId::Name(name)),
                None => None,
            },
        }
    }

    /// How this identifier is shown to the user.
    pub open spec fn described(self) -> Seq<char> {
        match self {
            SinkId::Index(index) => "sink index "@ + text::decimal(index as nat),
            SinkId::Name(name) => name@,
        }
    }

    /// Renders this identifier.
    pub fn describe(&self) -> (r: String)
        ensures
            r@ == self.described(),
    {
        match *self {
            SinkId::Index(index) => {
                let mut r = "sink index ".to_owned();
                r.append(text::decimal_string(index as u64).as_str());
                r
            },
            SinkId::Name(name) => name.to_owned(),
        }
    }
}

impl SinkLookup {
    /// Determines how to look up the sink with the given identifier. If there is
    /// none, then the default sink is looked up.
    pub fn for_sink(sink: Option<SinkId>) -> (r: SinkLookup)
        ensures
            match sink {
                Some(SinkId::Index(index)) => r == SinkLookup::ByIndex(index),
                Some(SinkId::Name(name)) => r matches SinkLookup::ByName(n) && n@ == name@,
                None => r == SinkLookup::Default,
            },
    {
        match sink {
            Some(SinkId::Index(index)) => SinkLookup::ByIndex(index),
            Some(SinkId::Name(name)) => SinkLookup::ByName(name.to_owned()),
            None => SinkLookup::Default,
        }
    }
}

impl StreamConfig for OwnedSinkInfo {
    open spec fn monitored(&self) -> Option<u32> {
        None
    }

    open spec fn source(&self) -> Option<Seq<char>> {
        self@.monitor_source_name
    }

    fn connect_target(&self) -> (r: ConnectTarget) {
        ConnectTarget {
            monitor_stream: None,
            source_name: text::clone_opt(&self.monitor_source_name),
        }
    }
}

impl StreamConfig for OwnedSourceInfo {
    open spec fn monitored(&self) -> Option<u32> {
        None
    }

    open spec fn source(&self) -> Option<Seq<char>> {
        self@.name
    }

    fn connect_target(&self) -> (r: ConnectTarget) {
        ConnectTarget { monitor_stream: None, source_name: text::clone_opt(&self.name) }
    }
}

impl StreamConfig for ResolvedSinkInput {
    open spec fn monitored(&self) -> Option<u32> {
        Some(self.input)
    }

    open spec fn source(&self) -> Option<Seq<char>> {
        self.sink@.monitor_source_name
    }

    fn connect_target(&self) -> (r: ConnectTarget) {
        ConnectTarget {
            monitor_stream: Some(self.input),
            source_name: text::clone_opt(&self.sink.monitor_source_name),
        }
    }
}

impl ConnectTarget {
    /// Returns the name of the source to read from.
    pub fn into_source_name(self) -> (r: Result<String, Code>)
        ensures
            match self.source_name {
                Some(name) => r == Ok::<String, Code>(name),
                None => r == Err::<String, Code>(Code::NoEntity),
            },
    {
        match self.source_name {
            Some(name) => Ok(name),
            None => Err(Code::NoEntity),
        }
    }
}

// STREAM MANAGER **************************************************************

/// Manages the producing end of the application-internal stream, allowing one
/// stream handle of type `P` to be reused for different record streams. The task
/// that reads from a record stream is represented by a handle of type `T`.
#[verifier::reject_recursive_types(P)]
pub struct StreamManager<P, T> {
    sample_tx: Lessor<P>,
    task: Option<T>,
}

impl<P, T> StreamManager<P, T> {
    /// The producing end of the stream, unless it is in use.
    pub closed spec fn producer(&self) -> Option<P> {
        self.sample_tx.view()
    }

    /// The channel over which the producing end of the stream is returned, if it
    /// is in use.
    pub closed spec fn receiver(&self) -> Option<oneshot::Receiver<P>> {
        self.sample_tx.receiver()
    }

    /// The task that reads from the record stream, if there is one.
    pub closed spec fn task(&self) -> Option<T> {
        self.task
    }

    /// Creates a new `StreamManager` for the given producing end of the
    /// application-internal stream.
    pub fn new(sample_tx: P) -> (r: Self)
        ensures
            r.producer() == Some(sample_tx),
            r.receiver() is None,
            r.task() is None,
    {
        StreamManager { sample_tx: Lessor::new(sample_tx), task: None }
    }

    /// Checks if the record stream is being actively read.
    pub fn is_running(&self) -> (r: bool)
        ensures
            r == self.task() is Some,
    {
        self.task.is_some()
    }

    /// Returns the producing end of the stream, unless it is in use. The
    /// consuming end of the stream is known to be closed only if this can tell
    /// so; it is assumed to be open otherwise.
    pub fn idle_producer(&self) -> (r: Option<&P>)
        ensures
            match self.producer() {
                Some(producer) => r == Some(&producer),
                None => r is None,
            },
    {
        self.sample_tx.as_ref()
    }

    /// Returns the task that reads from the record stream, which is able to cork
    /// or uncork the stream.
    pub fn active_task(&mut self) -> (r: Result<&mut T, Code>)
        ensures
            final(self).producer() == old(self).producer(),
            final(self).receiver() == old(self).receiver(),
            match old(self).task() {
                Some(task) => r matches Ok(t) && *t == task && final(self).task() == Some(
                    *final(t),
                ),
                None => r == Err::<&mut T, Code>(Code::NoEntity) && final(self).task() is None,
            },
    {
        match &mut self.task {
            Some(task) => Ok(task),
            None => Err(Code::NoEntity),
        }
    }

    /// Begins to record audio into the application-internal stream. This is only
    /// possible if the producing end of the stream is not in use, and provides
    /// access to that. If the record stream is being read, the producing end is
    /// returned right away.
    pub fn begin_start(&mut self) -> (r: Result<Lease<P>, Code>)
        ensures
            final(self).task() == old(self).task(),
            final(self).producer() is None,
            match (old(self).producer(), old(self).task()) {
                (Some(producer), None) => {
                    &&& r matches Ok(lease)
                    &&& lease.view() == producer
                    &&& final(self).receiver() matches Some(rx)
                    &&& util::is_channel(lease.channel(), rx)
                },
                (Some(producer), Some(_)) => {
                    &&& r matches Err(code)
                    &&& code == Code::Exist
                    &&& final(self).receiver() matches Some(rx)
                    &&& util::is_returned(producer, rx)
                },
                (None, _) => {
                    &&& r matches Err(code)
                    &&& code == Code::Exist
                    &&& final(self).receiver() == old(self).receiver()
                },
            },
    {
        match self.sample_tx.lease() {
            Some(sample_tx) => if self.is_running() {
                let ghost tx = sample_tx.channel();
                let _ = sample_tx.release();
                assert(util::is_channel(tx, self.receiver()->0));
                Err(Code::Exist)
            } else {
                Ok(sample_tx)
            },
            None => Err(Code::Exist),
        }
    }

    /// Completes the start of recording with the task that reads from the record
    /// stream.
    pub fn finish_start(&mut self, task: T)
        requires
            old(self).task() is None,
        ensures
            final(self).task() == Some(task),
            final(self).producer() == old(self).producer(),
            final(self).receiver() == old(self).receiver(),
    {
        self.task = Some(task);
    }

    /// Detaches the task that reads from the record stream, in order to stop it
    /// or because it has ended.
    pub fn take_task(&mut self) -> (r: Option<T>)
        ensures
            r == old(self).task(),
            final(self).task() is None,
            final(self).producer() == old(self).producer(),
            final(self).receiver() == old(self).receiver(),
    {
        self.task.take()
    }

    /// Returns the channel over which the producing end of the stream is
    /// returned if it is in use.
    pub fn release_channel(&mut self) -> (r: Option<&mut oneshot::Receiver<P>>)
        ensures
            r is Some <==> old(self).producer() is None,
            final(self).producer() == old(self).producer(),
            final(self).task() == old(self).task(),
            match old(self).receiver() {
                Some(rx) => {
                    &&& r matches Some(channel)
                    &&& *channel == rx
                    &&& final(self).receiver() == Some(*final(channel))
                },
                None => r is None && final(self).receiver() is None,
            },
    {
        self.sample_tx.release_channel()
    }

    /// Retakes ownership of the producing end of the stream after it has been
    /// returned.
    pub fn reclaim(&mut self, sample_tx: P)
        requires
            old(self).producer() is None,
        ensures
            final(self).producer() == Some(sample_tx),
            final(self).receiver() is None,
            final(self).task() == old(self).task(),
    {
        self.sample_tx.reclaim(sample_tx);
    }
}

// STREAM HANDLER **************************************************************

/// States of a record stream.
#[derive(Debug, Clone, Copy, PartialEq, Eq, Structural)]
pub enum StreamState {
    Unconnected,
    Creating,
    Ready,
    Failed,
    Terminated,
}

/// What was found when reading from a record stream.
#[derive(Debug, Clone, Copy, PartialEq, Eq, Structural)]
pub enum Found {
    /// There is audio data.
    Data,

    /// There is a hole.
    Hole,

    /// There is no data.
    Empty,

    /// The stream could not be read.
    Failed(Code),
}

/// What has to be done about something that was found in a record stream.
#[derive(Debug, Clone, Copy, PartialEq, Eq, Structural)]
pub enum ReadStep {
    /// Write the audio data to the internal stream handle. After that, discard it
    /// from the record stream, even if it could not be written.
    WriteAndDiscard,

    /// Discard what was found from the record stream.
    Discard,

    /// Nothing.
    Nothing,
}

/// Represents the possible outcomes of reading from a record stream.
#[derive(Debug, Clone, Copy, PartialEq, Eq, Structural)]
pub enum StreamWriteResult {
    /// Audio data was written to the internal stream handle.
    DataWritten,

    /// A PulseAudio error occurred when attempting to read stream data.
    PulseError(Code),

    /// The receiving end attached to the internal stream handle closed,
    /// preventing any further writes.
    HandleClosed,

    /// No action was performed, nor was any actionable condition encountered.
    NoOp,
}

/// Commands that can be sent to the stream handler task.
#[derive(Debug, Clone, Copy, PartialEq, Eq, Structural)]
pub enum StreamCommand {
    /// Instructs the stream handler task to cork or uncork the stream,
    /// according to the `bool` parameter.
    SetCork(bool),

    /// Instructs the stream handler task to shut down.
    Shutdown,
}

/// Events that the stream handler task reacts to.
#[derive(Debug, Clone, Copy, PartialEq, Eq, Structural)]
pub enum StreamEvent {
    /// A command was received, or no more commands can be received.
    Command(Option<StreamCommand>),

    /// The record stream was read.
    Read(StreamWriteResult),
}

/// What the stream handler task does next.
#[derive(Debug, Clone, Copy, PartialEq, Eq, Structural)]
pub enum StreamAction {
    /// Wait for the next event.
    Continue,

    /// Cork or uncork the stream, and wait for the next event.
    SetCork(bool),

    /// Disconnect the stream and shut down.
    Stop,
}

/// What has to be done in order to cork or uncork a stream.
#[derive(Debug, Clone, Copy, PartialEq, Eq, Structural)]
pub enum CorkStep {
    /// Nothing, report success.
    AlreadyDone,

    /// Nothing, report the given error.
    Failed(Code),

    /// Cork the stream.
    Cork,

    /// Uncork the stream.
    Uncork,
}

/// Main event loop of the stream handler task, apart from the stream.
#[derive(Debug)]
pub struct StreamLoop {
    err_count: usize,
}

impl Found {
    /// The outcome of reading from the stream, given whether audio data could be
    /// written to the internal stream handle, and the result of discarding what
    /// was found. That the receiving end of the internal stream handle is closed
    /// takes precedence over errors.
    pub open spec fn outcome(self, written: bool, discarded: Result<(), Code>) -> StreamWriteResult {
        match (self, discarded) {
            (Found::Data, _) if !written => StreamWriteResult::HandleClosed,
            (Found::Data, Ok(())) => StreamWriteResult::DataWritten,
            (Found::Hole, Ok(())) => StreamWriteResult::NoOp,
            (Found::Data | Found::Hole, Err(e)) => StreamWriteResult::PulseError(e),
            (Found::Empty, _) => StreamWriteResult::NoOp,
            (Found::Failed(e), _) => StreamWriteResult::PulseError(e),
        }
    }

    /// Determines what has to be done about what was found.
    pub fn read_step(&self) -> (r: ReadStep)
        ensures
            r == (match *self {
                Found::Data => ReadStep::WriteAndDiscard,
                Found::Hole => ReadStep::Discard,
                _ => ReadStep::Nothing,
            }),
    {
        match self {
            Found::Data => ReadStep::WriteAndDiscard,
            Found::Hole => ReadStep::Discard,
            Found::Empty | Found::Failed(_) => ReadStep::Nothing,
        }
    }

    /// Determines the outcome of reading from the stream, given whether audio data
    /// could be written to the internal stream handle, and the result of
    /// discarding what was found. What was not due is disregarded.
    pub fn write_result(&self, written: bool, discarded: Result<(), Code>) -> (r: StreamWriteResult)
        ensures
            r == self.outcome(written, discarded),
    {
        match *self {
            Found::Data => {
                if !written {
                    return StreamWriteResult::HandleClosed;
                }
                match discarded {
                    Ok(()) => StreamWriteResult::DataWritten,
                    Err(e) => StreamWriteResult::PulseError(e),
                }
            },
            Found::Hole => match discarded {
                Ok(()) => StreamWriteResult::NoOp,
                Err(e) => StreamWriteResult::PulseError(e),
            },
            Found::Empty => StreamWriteResult::NoOp,
            Found::Failed(e) => StreamWriteResult::PulseError(e),
        }
    }
}

impl StreamLoop {
    /// The number of consecutive errors that were encountered up to now.
    pub closed spec fn errors(&self) -> nat {
        self.err_count as nat
    }

    /// The number of consecutive errors after an event.
    pub open spec fn errors_after(errors: nat, event: StreamEvent) -> nat {
        match event {
            StreamEvent::Command(_) => errors,
            StreamEvent::Read(StreamWriteResult::PulseError(_)) => errors + 1,
            StreamEvent::Read(StreamWriteResult::HandleClosed) => errors,
            StreamEvent::Read(_) => 0,
        }
    }

    /// What is done about an event.
    pub open spec fn action_for(errors: nat, event: StreamEvent) -> StreamAction {
        match event {
            StreamEvent::Command(Some(StreamCommand::SetCork(cork))) => StreamAction::SetCork(cork),
            StreamEvent::Command(_) => StreamAction::Stop,
            StreamEvent::Read(StreamWriteResult::HandleClosed) => StreamAction::Stop,
            StreamEvent::Read(StreamWriteResult::PulseError(_)) => if errors + 1
                >= MAX_CONSECUTIVE_ERRORS {
                StreamAction::Stop
            } else {
                StreamAction::Continue
            },
            StreamEvent::Read(_) => StreamAction::Continue,
        }
    }

    /// Starts the event loop.
    pub fn new() -> (r: Self)
        ensures
            r.errors() == 0,
    {
        StreamLoop { err_count: 0 }
    }

    /// Determines what to do about an event.
    pub fn handle(&mut self, event: StreamEvent) -> (r: StreamAction)
        requires
            old(self).errors() < MAX_CONSECUTIVE_ERRORS,
        ensures
            final(self).errors() == Self::errors_after(old(self).errors(), event),
            r == Self::action_for(old(self).errors(), event),
            r !is Stop ==> final(self).errors() < MAX_CONSECUTIVE_ERRORS,
    {
        match event {
            StreamEvent::Command(Some(StreamCommand::SetCork(cork))) => StreamAction::SetCork(cork),
            StreamEvent::Command(Some(StreamCommand::Shutdown)) => StreamAction::Stop,
            StreamEvent::Command(None) => StreamAction::Stop,
            StreamEvent::Read(StreamWriteResult::HandleClosed) => StreamAction::Stop,
            StreamEvent::Read(StreamWriteResult::PulseError(_)) => {
                self.err_count = self.err_count + 1;
                if self.err_count >= MAX_CONSECUTIVE_ERRORS {
                    StreamAction::Stop
                } else {
                    StreamAction::Continue
                }
            },
            StreamEvent::Read(StreamWriteResult::DataWritten) => {
                self.err_count = 0;
                StreamAction::Continue
            },
            StreamEvent::Read(StreamWriteResult::NoOp) => {
                self.err_count = 0;
                StreamAction::Continue
            },
        }
    }

    /// Determines whether the loop has ended because there were too many
    /// consecutive errors, which is considered fatal.
    pub fn is_fatal(&self) -> (r: bool)
        ensures
            r == (self.errors() >= MAX_CONSECUTIVE_ERRORS),
    {
        self.err_count >= MAX_CONSECUTIVE_ERRORS
    }
}

/// Determines what has to be done in order to cork or uncork a stream, given
/// whether it is currently corked.
pub fn cork_step(cork: bool, is_corked: Result<bool, Code>) -> (r: CorkStep)
    ensures
        r == (match is_corked {
            Ok(state) => if state == cork {
                CorkStep::AlreadyDone
            } else if cork {
                CorkStep::Cork
            } else {
                CorkStep::Uncork
            },
            Err(e) => CorkStep::Failed(e),
        }),
{
    match is_corked {
        Ok(state) => if cork != state {
            if cork {
                CorkStep::Cork
            } else {
                CorkStep::Uncork
            }
        } else {
            CorkStep::AlreadyDone
        },
        Err(e) => CorkStep::Failed(e),
    }
}

/// Interprets the result of the operation that corks or uncorks a stream. There
/// is no result if the operation was abandoned.
pub fn cork_result(result: Option<Result<bool, OperationState>>) -> (r: Result<(), Code>)
    ensures
        match result {
            Some(Ok(true)) => r == Ok::<(), Code>(()),
            Some(Ok(false)) => r == Err::<(), Code>(Code::Unknown),
            _ => r == Err::<(), Code>(Code::Killed),
        },
{
    match result {
        Some(Ok(success)) => if success {
            Ok(())
        } else {
            Err(Code::Unknown)
        },
        _ => Err(Code::Killed),
    }
}

/// Determines the error to report if a stream could not be initialized.
pub fn stream_failure_code(state: StreamState) -> (r: Code)
    ensures
        r == (if state is Terminated {
            Code::Killed
        } else {
            Code::BadState
        }),
{
    match state {
        StreamState::Terminated => Code::Killed,
        _ => Code::BadState,
    }
}

// LAWS ************************************************************************

/// The number of consecutive errors after a series of events.
pub open spec fn errors_after_all(errors: nat, events: Seq<StreamEvent>) -> nat
    decreases events.len(),
{
    if events.len() == 0 {
        errors
    } else {
        StreamLoop::errors_after(errors_after_all(errors, events.drop_last()), events.last())
    }
}

/// A read error shuts the stream down if and only if it is the last of the
/// maximum number of consecutive errors.
pub proof fn law_error_limit(errors: nat, code: Code)
    ensures
        ({
            let failure = StreamEvent::Read(StreamWriteResult::PulseError(code));
            StreamLoop::action_for(errors, failure) is Stop <==> StreamLoop::errors_after(
                errors,
                failure,
            ) >= MAX_CONSECUTIVE_ERRORS
        }),
{
}

/// After a successful read, a stream is shut down by three failures in a row, and
/// not by fewer.
pub proof fn law_three_failures_stop(
    events: Seq<StreamEvent>,
    success: StreamWriteResult,
    a: Code,
    b: Code,
    c: Code,
)
    requires
        success is DataWritten || success is NoOp,
    ensures
        ({
            let fail_a = StreamEvent::Read(StreamWriteResult::PulseError(a));
            let fail_b = StreamEvent::Read(StreamWriteResult::PulseError(b));
            let fail_c = StreamEvent::Read(StreamWriteResult::PulseError(c));
            let e0 = errors_after_all(0, events.push(StreamEvent::Read(success)));
            let e1 = StreamLoop::errors_after(e0, fail_a);
            let e2 = StreamLoop::errors_after(e1, fail_b);
            &&& StreamLoop::action_for(e0, fail_a) is Continue
            &&& StreamLoop::action_for(e1, fail_b) is Continue
            &&& StreamLoop::action_for(e2, fail_c) is Stop
        }),
{
    let all = events.push(StreamEvent::Read(success));
    assert(all.drop_last() =~= events);
}

/// A successful read makes up for all errors before it.
pub proof fn law_success_resets_errors(errors: nat, events: Seq<StreamEvent>)
    requires
        events.len() > 0,
        events.last() == StreamEvent::Read(StreamWriteResult::DataWritten) || events.last()
            == StreamEvent::Read(StreamWriteResult::NoOp),
    ensures
        errors_after_all(errors, events) == 0,
{
}

} // verus!
