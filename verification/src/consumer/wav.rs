//! Audio consumer that streams audio to a .wav file.
//!
//! Writing audio proceeds in steps, which either request something from the
//! input stream or the file, or conclude the procedure.

use vstd::prelude::*;

use crate::util::ShutdownSignal;

verus! {

/// The number of samples per second.
pub const SAMPLE_RATE: u32 = 48000;

/// The number of seconds below which the maximum recording length is worth a
/// warning (1 day).
pub const MAX_RECORDING_WARN_THRESHOLD: u64 = 86400;

/// The number of microseconds per second.
pub const MICROS_PER_SECOND: u128 = 1000000;

// TYPE DEFINITIONS ************************************************************

/// A stereo sample to be written to the file.
#[derive(Debug)]
pub enum Sample<T> {
    /// A sample of zero on both channels.
    Silence,

    /// A sample from the input stream.
    Audio(T),
}

/// Something that has to be done in order to write audio.
#[derive(Debug)]
pub enum WavRequest<T> {
    /// Write the given sample at the given position.
    Write(usize, Sample<T>),

    /// Check whether the application is to keep running.
    CheckShutdown,

    /// Read the next sample from the input stream.
    Read,

    /// Make sure that everything written so far reaches permanent storage.
    Flush,
}

/// The result of reading from the input stream.
#[derive(Debug)]
pub enum ReadOutcome<T> {
    /// A sample was read.
    Sample(T),

    /// There was no sample available in time.
    TimedOut,

    /// The sample could not be read.
    Failed,
}

/// The reply to a [`WavRequest`].
#[derive(Debug)]
pub enum WavReply<T, E> {
    Written(Result<(), E>),
    Running(bool),
    Read(ReadOutcome<T>),
    Flushed(Result<(), E>),
}

/// A reason for which audio could not be written, where problems with the file
/// are of type `E`.
#[derive(Debug)]
pub enum WavError<E> {
    /// The file could not be written to.
    Io(E),

    /// The recording is as long as it can get.
    LengthLimit,
}

/// A step of writing audio.
#[derive(Debug)]
pub enum WavStep<T, E> {
    /// The reply to the given request is needed to proceed.
    Request(WavRequest<T>),

    /// The procedure is complete. If successful, the next sample is to be
    /// written to the given position.
    Done(Result<usize, WavError<E>>),
}

/// Progress of a [`WavStream`].
#[derive(Debug, Clone, Copy, PartialEq, Eq, Structural)]
pub enum WavProgress {
    /// A sample is being written, which is followed by the given number of zero
    /// samples.
    Writing { n_zero_samples: usize },
    Checking,
    Reading,

    /// The recording is as long as it can get.
    Flushing,
    Finished,
}

/// The process of writing audio until there is none left to be read.
///
/// This starts by adding zero samples to fill the time elapsed since the last
/// contentful write. This then repeatedly polls for audio samples until a read
/// times out or the application shuts down.
#[derive(Debug, Clone, Copy, PartialEq, Eq, Structural)]
pub struct WavStream {
    /// The position of the next sample.
    pub n_sample: usize,
    pub progress: WavProgress,
}

/// Something that the recording process waits for.
#[derive(Debug, Clone, Copy, PartialEq, Eq, Structural)]
pub enum OutputEvent {
    /// There was a change to whether the application is to keep running.
    Shutdown(ShutdownSignal),

    /// There is audio to be read.
    Samples,
}

// RECORDING LENGTH ************************************************************

/// Determines the maximum recording length supported on this platform, in
/// seconds.
pub fn max_recording_len() -> (r: u64)
    ensures
        r == usize::MAX as nat / SAMPLE_RATE as nat,
{
    (usize::MAX / (SAMPLE_RATE as usize)) as u64
}

/// Determines whether the given maximum recording length, in seconds, is worth
/// a warning.
pub fn is_recording_len_low(max_len: u64) -> (r: bool)
    ensures
        r == (max_len < MAX_RECORDING_WARN_THRESHOLD),
{
    max_len < MAX_RECORDING_WARN_THRESHOLD
}

/// The number of samples in the given number of microseconds.
pub open spec fn samples_in(micros: nat) -> nat {
    micros * (SAMPLE_RATE as nat) / (MICROS_PER_SECOND as nat)
}

/// Determines the number of zero samples that match the given number of elapsed
/// microseconds, unless there are too many to fit into a recording.
pub fn zero_sample_count(elapsed_micros: u128) -> (r: Option<usize>)
    requires
        elapsed_micros * SAMPLE_RATE <= u128::MAX,
    ensures
        match r {
            Some(count) => count == samples_in(elapsed_micros as nat),
            None => samples_in(elapsed_micros as nat) > usize::MAX,
        },
{
    let count: u128 = elapsed_micros * (SAMPLE_RATE as u128) / MICROS_PER_SECOND;
    if count <= usize::MAX as u128 {
        Some(count as usize)
    } else {
        None
    }
}

// WRITING *********************************************************************

impl<T> WavRequest<T> {
    /// Whether this is a contentful write, which is one of a sample from the input
    /// stream.
    pub open spec fn contentful(self) -> bool {
        self matches WavRequest::Write(_, Sample::Audio(_))
    }

    /// Determines whether this is a contentful write. If it succeeds, then silence
    /// is measured from the time of this write.
    pub fn is_contentful(&self) -> (r: bool)
        ensures
            r == self.contentful(),
    {
        match self {
            WavRequest::Write(_, Sample::Audio(_)) => true,
            _ => false,
        }
    }
}

impl WavStream {
    /// Whether `reply` is of the form that is needed to proceed.
    pub open spec fn expects<T, E>(self, reply: WavReply<T, E>) -> bool {
        match self.progress {
            WavProgress::Writing { .. } => reply is Written,
            WavProgress::Checking => reply is Running,
            WavProgress::Reading => reply is Read,
            WavProgress::Flushing => reply is Flushed,
            WavProgress::Finished => false,
        }
    }

    /// This process at a different point of the procedure.
    pub open spec fn at(self, progress: WavProgress) -> WavStream {
        WavStream { progress, ..self }
    }

    /// Writes the given number of zero samples, then checks whether to continue.
    pub open spec fn fill_next<T, E>(self, n_zero_samples: nat) -> (WavStream, WavStep<T, E>) {
        if n_zero_samples > 0 {
            (
                self.at(WavProgress::Writing { n_zero_samples: (n_zero_samples - 1) as usize }),
                WavStep::Request(WavRequest::Write(self.n_sample, Sample::Silence)),
            )
        } else {
            (self.at(WavProgress::Checking), WavStep::Request(WavRequest::CheckShutdown))
        }
    }

    /// Concludes the procedure with the given result.
    pub open spec fn finish_next<T, E>(self, result: Result<usize, WavError<E>>) -> (
        WavStream,
        WavStep<T, E>,
    ) {
        (self.at(WavProgress::Finished), WavStep::Done(result))
    }

    /// The process and the step at the beginning of the procedure, which starts
    /// at the given position.
    pub open spec fn begin<T, E>(n_sample: usize, elapsed_micros: u128) -> (
        WavStream,
        WavStep<T, E>,
    ) {
        let stream = WavStream { n_sample, progress: WavProgress::Finished };
        let n_zero_samples = samples_in(elapsed_micros as nat);
        if n_zero_samples <= usize::MAX {
            stream.fill_next(n_zero_samples)
        } else {
            stream.finish_next(Err(WavError::LengthLimit))
        }
    }

    /// The step that follows the given reply.
    pub open spec fn resume_next<T, E>(self, reply: WavReply<T, E>) -> (
        WavStream,
        WavStep<T, E>,
    ) {
        match (self.progress, reply) {
            (WavProgress::Writing { n_zero_samples }, WavReply::Written(Ok(()))) => {
                if self.n_sample < usize::MAX {
                    let stream = WavStream { n_sample: (self.n_sample + 1) as usize, ..self };
                    stream.fill_next(n_zero_samples as nat)
                } else {
                    (self.at(WavProgress::Flushing), WavStep::Request(WavRequest::Flush))
                }
            },
            (_, WavReply::Written(Err(e))) => self.finish_next(Err(WavError::Io(e))),
            (_, WavReply::Running(true)) => (
                self.at(WavProgress::Reading),
                WavStep::Request(WavRequest::Read),
            ),
            (_, WavReply::Running(false)) => self.finish_next(Ok(self.n_sample)),
            (_, WavReply::Read(ReadOutcome::Sample(sample))) => (
                self.at(WavProgress::Writing { n_zero_samples: 0 }),
                WavStep::Request(WavRequest::Write(self.n_sample, Sample::Audio(sample))),
            ),
            (_, WavReply::Read(ReadOutcome::TimedOut)) => self.finish_next(Ok(self.n_sample)),
            (_, WavReply::Read(ReadOutcome::Failed)) => (
                self.at(WavProgress::Checking),
                WavStep::Request(WavRequest::CheckShutdown),
            ),
            (_, WavReply::Flushed(Err(e))) => self.finish_next(Err(WavError::Io(e))),
            _ => self.finish_next(Err(WavError::LengthLimit)),
        }
    }

    /// Writes the given number of zero samples, then checks whether to continue.
    fn fill<T, E>(&mut self, n_zero_samples: usize) -> (r: WavStep<T, E>)
        ensures
            (*final(self), r) == old(self).fill_next::<T, E>(n_zero_samples as nat),
    {
        if n_zero_samples > 0 {
            self.progress = WavProgress::Writing { n_zero_samples: n_zero_samples - 1 };
            WavStep::Request(WavRequest::Write(self.n_sample, Sample::Silence))
        } else {
            self.progress = WavProgress::Checking;
            WavStep::Request(WavRequest::CheckShutdown)
        }
    }

    /// Concludes the procedure with the given result.
    fn finish<T, E>(&mut self, result: Result<usize, WavError<E>>) -> (r: WavStep<T, E>)
        ensures
            (*final(self), r) == old(self).finish_next::<T, E>(result),
    {
        self.progress = WavProgress::Finished;
        WavStep::Done(result)
    }

    /// Starts writing audio at the given position, given the number of
    /// microseconds elapsed since the last contentful write.
    pub fn new<T, E>(n_sample: usize, elapsed_micros: u128) -> (r: (WavStream, WavStep<T, E>))
        requires
            elapsed_micros * SAMPLE_RATE <= u128::MAX,
        ensures
            r == Self::begin::<T, E>(n_sample, elapsed_micros),
    {
        let mut stream = WavStream { n_sample, progress: WavProgress::Finished };
        let step = match zero_sample_count(elapsed_micros) {
            Some(n_zero_samples) => stream.fill(n_zero_samples),
            None => stream.finish(Err(WavError::LengthLimit)),
        };
        (stream, step)
    }

    /// Proceeds with the reply to the last request.
    pub fn resume<T, E>(&mut self, reply: WavReply<T, E>) -> (r: WavStep<T, E>)
        requires
            old(self).expects(reply),
        ensures
            (*final(self), r) == old(self).resume_next(reply),
    {
        match (self.progress, reply) {
            (WavProgress::Writing { n_zero_samples }, WavReply::Written(Ok(()))) => {
                match self.n_sample.checked_add(1) {
                    Some(n_sample) => {
                        self.n_sample = n_sample;
                        self.fill(n_zero_samples)
                    },
                    None => {
                        self.progress = WavProgress::Flushing;
                        WavStep::Request(WavRequest::Flush)
                    },
                }
            },
            (_, WavReply::Written(Err(e))) => self.finish(Err(WavError::Io(e))),
            (_, WavReply::Running(true)) => {
                self.progress = WavProgress::Reading;
                WavStep::Request(WavRequest::Read)
            },
            (_, WavReply::Running(false)) => self.finish(Ok(self.n_sample)),
            (_, WavReply::Read(ReadOutcome::Sample(sample))) => {
                self.progress = WavProgress::Writing { n_zero_samples: 0 };
                WavStep::Request(WavRequest::Write(self.n_sample, Sample::Audio(sample)))
            },
            (_, WavReply::Read(ReadOutcome::TimedOut)) => self.finish(Ok(self.n_sample)),
            (_, WavReply::Read(ReadOutcome::Failed)) => {
                self.progress = WavProgress::Checking;
                WavStep::Request(WavRequest::CheckShutdown)
            },
            (_, WavReply::Flushed(Err(e))) => self.finish(Err(WavError::Io(e))),
            _ => self.finish(Err(WavError::LengthLimit)),
        }
    }
}

// MONITORING ******************************************************************

/// Determines whether to continue recording after the given event.
pub fn should_continue_output(event: OutputEvent) -> (r: bool)
    ensures
        r == (match event {
            OutputEvent::Shutdown(signal) => signal.keeps_running(),
            OutputEvent::Samples => true,
        }),
{
    match event {
        OutputEvent::Shutdown(signal) => signal.is_running(),
        OutputEvent::Samples => true,
    }
}

/// Renders the message with which the application shuts down after a problem
/// with the file, or after an unexpected crash if there is no explanation.
pub fn failure_message(problem: Option<&str>) -> (r: String)
    ensures
        r@ == (match problem {
            Some(e) => "Wav writer encountered error: "@ + e@,
            None => "Wav writer crashed unexpectedly"@,
        }),
{
    match problem {
        Some(e) => {
            let mut r = "Wav writer encountered error: ".to_owned();
            r.append(e);
            r
        },
        None => "Wav writer crashed unexpectedly".to_owned(),
    }
}

// LAWS ************************************************************************

/// The given process after the given number of successful writes.
pub open spec fn after_writes<T, E>(stream: WavStream, count: nat) -> WavStream
    decreases count,
{
    if count == 0 {
        stream
    } else {
        after_writes::<T, E>(stream, (count - 1) as nat).resume_next::<T, E>(
            WavReply::Written(Ok(())),
        ).0
    }
}

/// The time elapsed since the last contentful write is filled with silence: for
/// each sample in that time, a zero sample is written right after the one before
/// it. Only then is the input stream considered.
pub proof fn law_silence_fills_time<T, E>(n_sample: usize, elapsed_micros: u128, count: nat)
    requires
        n_sample + samples_in(elapsed_micros as nat) <= usize::MAX,
        count <= samples_in(elapsed_micros as nat),
    ensures
        ({
            let n_zero_samples = samples_in(elapsed_micros as nat);
            let stream = after_writes::<T, E>(
                WavStream::begin::<T, E>(n_sample, elapsed_micros).0,
                count,
            );
            &&& stream.n_sample == n_sample + count
            &&& count < n_zero_samples ==> stream.progress == (WavProgress::Writing {
                n_zero_samples: (n_zero_samples - count - 1) as usize,
            })
            &&& count == n_zero_samples ==> stream.progress is Checking
        }),
    decreases count,
{
    if count > 0 {
        law_silence_fills_time::<T, E>(n_sample, elapsed_micros, (count - 1) as nat);
    }
}

/// The position never moves backwards, and it moves by one for each sample that
/// is written.
pub proof fn law_position_advances<T, E>(stream: WavStream, reply: WavReply<T, E>)
    requires
        stream.expects(reply),
    ensures
        ({
            let next = stream.resume_next(reply).0;
            if reply is Written && reply->Written_0 is Ok && stream.n_sample < usize::MAX {
                next.n_sample == stream.n_sample + 1
            } else {
                next.n_sample == stream.n_sample
            }
        }),
{
}

/// A sample is written to the current position of the recording.
pub proof fn law_writes_at_position<T, E>(stream: WavStream, reply: WavReply<T, E>)
    requires
        stream.expects(reply),
    ensures
        stream.resume_next(reply).1 matches WavStep::Request(WavRequest::Write(position, _))
            ==> position == stream.resume_next(reply).0.n_sample,
{
}

/// A write is contentful exactly if the sample to write has just been read from
/// the input stream. In particular, the silence that a recording is filled with is
/// not contentful.
pub proof fn law_contentful_writes<T, E>(
    n_sample: usize,
    elapsed_micros: u128,
    stream: WavStream,
    reply: WavReply<T, E>,
)
    requires
        stream.expects(reply),
    ensures
        WavStream::begin::<T, E>(n_sample, elapsed_micros).1 matches WavStep::Request(request)
            ==> !request.contentful(),
        stream.resume_next(reply).1 matches WavStep::Request(request) ==> (request.contentful()
            <==> reply matches WavReply::Read(ReadOutcome::Sample(_))),
        reply matches WavReply::Read(ReadOutcome::Sample(sample)) ==> stream.resume_next(reply).1
            == WavStep::<T, E>::Request(WavRequest::Write(stream.n_sample, Sample::Audio(sample))),
{
}

/// A second of silence is as long as a second of audio.
pub proof fn law_silence_keeps_time(seconds: nat)
    ensures
        samples_in(seconds * (MICROS_PER_SECOND as nat)) == seconds * (SAMPLE_RATE as nat),
{
    assert(seconds * 1000000 * 48000 / 1000000 == seconds * 48000) by (nonlinear_arith);
}

} // verus!
