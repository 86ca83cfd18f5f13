//! Laws that hold of writing audio to a file.

use vstd::prelude::*;

use super::wav;
use super::wav::{
    OutputEvent, ReadOutcome, Sample, WavError, WavProgress, WavReply, WavRequest, WavStep,
    WavStream,
};
use crate::util::ShutdownSignal;

verus! {

/// Writing audio repeats four steps: it is checked whether to go on, a sample is
/// read, that very sample is written, and the position moves by one.
pub proof fn law_samples_are_written<T, E>(stream: WavStream, sample: T)
    requires
        stream.progress is Checking,
        stream.n_sample < usize::MAX,
    ensures
        ({
            let s1 = stream.resume_next::<T, E>(WavReply::Running(true));
            let s2 = s1.0.resume_next::<T, E>(WavReply::Read(ReadOutcome::Sample(sample)));
            let s3 = s2.0.resume_next::<T, E>(WavReply::Written(Ok(())));
            &&& s1.1 == WavStep::<T, E>::Request(WavRequest::Read)
            &&& s2.1 == WavStep::<T, E>::Request(
                WavRequest::Write(stream.n_sample, Sample::Audio(sample)),
            )
            &&& s3.1 == WavStep::<T, E>::Request(WavRequest::CheckShutdown)
            &&& s3.0.progress is Checking
            &&& s3.0.n_sample == stream.n_sample + 1
        }),
{
}

/// Writing ends without an error once the application shuts down or there is nothing
/// to be read in time, at the position that has been reached. A sample that cannot be
/// read is left out, and takes up no space in the file.
pub proof fn law_writing_pauses<T, E>(stream: WavStream)
    requires
        stream.progress is Checking,
    ensures
        ({
            let reading = stream.resume_next::<T, E>(WavReply::Running(true)).0;
            let failed = reading.resume_next::<T, E>(WavReply::Read(ReadOutcome::Failed));
            &&& stream.resume_next::<T, E>(WavReply::Running(false)).1 == WavStep::<T, E>::Done(
                Ok(stream.n_sample),
            )
            &&& reading.resume_next::<T, E>(WavReply::Read(ReadOutcome::TimedOut)).1
                == WavStep::<T, E>::Done(Ok(stream.n_sample))
            &&& failed.1 == WavStep::<T, E>::Request(WavRequest::CheckShutdown)
            &&& failed.0 == stream
        }),
{
}

/// Problems with the file end the recording. So does reaching its maximum length,
/// before which everything is written to permanent storage.
pub proof fn law_recording_ends<T, E>(stream: WavStream, e: E)
    requires
        stream.progress is Writing,
    ensures
        stream.resume_next::<T, E>(WavReply::Written(Err(e))).1 == WavStep::<T, E>::Done(
            Err(WavError::Io(e)),
        ),
        stream.n_sample == usize::MAX ==> ({
            let full = stream.resume_next::<T, E>(WavReply::Written(Ok(())));
            &&& full.1 == WavStep::<T, E>::Request(WavRequest::Flush)
            &&& full.0.resume_next::<T, E>(WavReply::Flushed(Ok(()))).1 == WavStep::<T, E>::Done(
                Err(WavError::LengthLimit),
            )
            &&& full.0.resume_next::<T, E>(WavReply::Flushed(Err(e))).1 == WavStep::<T, E>::Done(
                Err(WavError::Io(e)),
            )
        }),
{
}

/// A recording is resumed with as many zero samples as there are in the time that
/// has elapsed, at 48000 per second: the first of them is written at the current
/// position. Without any, it goes on right away, and it cannot be resumed if there
/// are too many of them.
pub proof fn law_recording_resumes<T, E>(
    n_sample: usize,
    elapsed_micros: u128,
    r: (WavStream, WavStep<T, E>),
)
    requires
        call_ensures(WavStream::new::<T, E>, (n_sample, elapsed_micros), r),
    ensures
        ({
            let count = elapsed_micros as nat * 48000 / 1000000;
            &&& count == 0 ==> r.1 == WavStep::<T, E>::Request(WavRequest::CheckShutdown)
            &&& 0 < count <= usize::MAX ==> r.1 == WavStep::<T, E>::Request(
                WavRequest::Write(n_sample, Sample::Silence),
            ) && r.0.progress == (WavProgress::Writing { n_zero_samples: (count - 1) as usize })
            &&& count > usize::MAX ==> r.1 == WavStep::<T, E>::Done(Err(WavError::LengthLimit))
            &&& r.0.n_sample == n_sample
        }),
{
}

/// Zero samples are counted at 48000 per second, and the number of those that fit is
/// exact. A recording cannot be longer than what its positions allow for, which is
/// worth a warning if that is less than a day.
pub proof fn law_recording_length(
    elapsed_micros: u128,
    count: Option<usize>,
    max_len: u64,
    other: u64,
    low: bool,
)
    requires
        call_ensures(wav::zero_sample_count, (elapsed_micros,), count),
        call_ensures(wav::max_recording_len, (), max_len),
        call_ensures(wav::is_recording_len_low, (other,), low),
    ensures
        count matches Some(n) ==> n == elapsed_micros as nat * 48000 / 1000000,
        count is None <==> elapsed_micros as nat * 48000 / 1000000 > usize::MAX,
        max_len * 48000 <= usize::MAX < (max_len + 1) * 48000,
        low <==> other < 24 * 60 * 60,
{
}

/// Recording goes on whenever there is audio, and until the application shuts down.
pub proof fn law_output_continues(event: OutputEvent, r: bool)
    requires
        call_ensures(wav::should_continue_output, (event,), r),
    ensures
        event is Samples ==> r,
        event == OutputEvent::Shutdown(ShutdownSignal::Closed) ==> !r,
        event == OutputEvent::Shutdown(ShutdownSignal::Unchanged) ==> r,
        event == OutputEvent::Shutdown(ShutdownSignal::Changed(true)) ==> r,
        event == OutputEvent::Shutdown(ShutdownSignal::Changed(false)) ==> !r,
{
}

/// Of all requests, only a write of audio is contentful.
pub proof fn law_contentful_requests<T>(request: WavRequest<T>, r: bool)
    requires
        call_ensures(WavRequest::<T>::is_contentful, (&request,), r),
    ensures
        r ==> request is Write,
        request matches WavRequest::Write(_, sample) ==> r == (sample is Audio),
{
}

/// A recording proceeds with each reply, as the laws above tell.
pub proof fn law_recording_proceeds<T, E>(reply: WavReply<T, E>)
    ensures
        forall|stream: &mut WavStream, r: WavStep<T, E>| #[trigger]
            call_ensures(WavStream::resume::<T, E>, (stream, reply), r) ==> (*final(stream), r)
                == stream.resume_next(reply),
{
}

/// What ended a recording is made clear.
pub proof fn law_recording_problems(problem: &str, explained: String, crashed: String)
    requires
        call_ensures(wav::failure_message, (Some(problem),), explained),
        call_ensures(wav::failure_message, (None::<&str>,), crashed),
    ensures
        explained@ == "Wav writer encountered error: "@ + problem@,
        crashed@ == "Wav writer crashed unexpectedly"@,
{
}

} // verus!
