//! Queries about the audio entities managed by a PulseAudio server.

use vstd::prelude::*;

use crate::snd::pulse::error::Code;
use crate::snd::pulse::owned;
use crate::snd::pulse::owned::{OwnedSinkInfo, OwnedSinkInputInfo, OwnedSourceInfo};
use crate::util::text;

verus! {

// TYPE DEFINITIONS ************************************************************

/// States of asynchronous operations of the server.
#[derive(Debug, Clone, Copy, PartialEq, Eq, Structural)]
pub enum OperationState {
    /// The operation is still running.
    Running,

    /// The operation has completed.
    Done,

    /// The operation was cancelled.
    Cancelled,
}

/// Where to find the name of the monitor of a sink.
#[derive(Debug)]
pub enum MonitorName {
    /// The name is known.
    Known(String),

    /// The source with the given index has to be looked up.
    Lookup(u32),
}

// MODELS **********************************************************************

/// The contents of a sequence of sinks.
pub open spec fn sink_views(sinks: Seq<OwnedSinkInfo>) -> Seq<owned::SinkView> {
    sinks.map_values(|sink: OwnedSinkInfo| sink@)
}

/// The contents of a sequence of sink inputs.
pub open spec fn input_views(inputs: Seq<OwnedSinkInputInfo>) -> Seq<owned::SinkInputView> {
    inputs.map_values(|input: OwnedSinkInputInfo| input@)
}

/// Whether the given sink has a name that starts with the given text.
pub open spec fn has_name_prefix(sink: owned::SinkView, prefix: Seq<char>) -> bool {
    sink.name matches Some(name) && text::starts_with(name, prefix)
}

/// The sinks that have names starting with the given text.
pub open spec fn with_name_prefix(sinks: Seq<owned::SinkView>, prefix: Seq<char>) -> Seq<
    owned::SinkView,
> {
    sinks.filter(|sink: owned::SinkView| has_name_prefix(sink, prefix))
}

/// The sink inputs that are attached to the sink with the given index.
pub open spec fn attached_to(inputs: Seq<owned::SinkInputView>, sink_idx: u32) -> Seq<
    owned::SinkInputView,
> {
    inputs.filter(|input: owned::SinkInputView| input.sink == sink_idx)
}

// PUBLIC FUNCTIONS ************************************************************

/// Interprets the result of an operation that produces a list of values, or that
/// always produces a value.
pub fn operation_value<T>(result: Result<T, OperationState>) -> (r: Result<T, Code>)
    ensures
        match result {
            Ok(value) => r == Ok::<T, Code>(value),
            Err(_) => r == Err::<T, Code>(Code::Killed),
        },
{
    match result {
        Ok(value) => Ok(value),
        Err(_) => Err(Code::Killed),
    }
}

/// Interprets the result of an operation that looks up a value.
pub fn operation_lookup<T>(result: Result<Option<T>, OperationState>) -> (r: Result<T, Code>)
    ensures
        match result {
            Ok(Some(value)) => r == Ok::<T, Code>(value),
            Ok(None) => r == Err::<T, Code>(Code::NoEntity),
            Err(_) => r == Err::<T, Code>(Code::Killed),
        },
{
    match operation_value(result) {
        Ok(Some(value)) => Ok(value),
        Ok(None) => Err(Code::NoEntity),
        Err(e) => Err(e),
    }
}

/// Interprets the result of an operation that reports whether it succeeded.
pub fn operation_status(result: Result<bool, OperationState>) -> (r: Result<(), Code>)
    ensures
        match result {
            Ok(true) => r == Ok::<(), Code>(()),
            Ok(false) => r == Err::<(), Code>(Code::Unknown),
            Err(_) => r == Err::<(), Code>(Code::Killed),
        },
{
    match operation_value(result) {
        Ok(success) => if success {
            Ok(())
        } else {
            Err(Code::Unknown)
        },
        Err(e) => Err(e),
    }
}

/// Returns the number of sinks that have names starting with the given text.
pub fn count_sinks_with_name_prefix(sinks: &Vec<OwnedSinkInfo>, prefix: &str) -> (r: usize)
    ensures
        r == with_name_prefix(sink_views(sinks@), prefix@).len(),
{
    let ghost views = sink_views(sinks@);
    let mut count: usize = 0;
    let mut i: usize = 0;
    proof {
        reveal(Seq::filter);
    }
    while i < sinks.len()
        invariant
            i <= sinks.len(),
            count <= i,
            views == sink_views(sinks@),
            count == with_name_prefix(views.take(i as int), prefix@).len(),
        decreases sinks.len() - i,
    {
        proof {
            reveal(Seq::filter);
            assert(views.take(i + 1).drop_last() =~= views.take(i as int));
            assert(views.take(i + 1).last() == sinks@[i as int]@);
        }
        if let Some(name) = &sinks[i].name {
            if text::has_prefix(name.as_str(), prefix) {
                count = count + 1;
            }
        }
        i = i + 1;
    }
    assert(views.take(i as int) =~= views);
    count
}

/// Selects the sink inputs that are currently playing audio to the sink with the
/// given index.
pub fn sink_inputs_for_sink(inputs: Vec<OwnedSinkInputInfo>, sink_idx: u32) -> (r: Vec<
    OwnedSinkInputInfo,
>)
    ensures
        input_views(r@) == attached_to(input_views(inputs@), sink_idx),
{
    let ghost views = input_views(inputs@);
    let mut r: Vec<OwnedSinkInputInfo> = Vec::new();
    let mut i: usize = 0;
    proof {
        reveal(Seq::filter);
    }
    while i < inputs.len()
        invariant
            i <= inputs.len(),
            views == input_views(inputs@),
            input_views(r@) =~= attached_to(views.take(i as int), sink_idx),
        decreases inputs.len() - i,
    {
        proof {
            reveal(Seq::filter);
            assert(views.take(i + 1).drop_last() =~= views.take(i as int));
            assert(views.take(i + 1).last() == inputs@[i as int]@);
        }
        if inputs[i].sink == sink_idx {
            let ghost before = input_views(r@);
            r.push(inputs[i].clone());
            assert(input_views(r@) =~= before.push(inputs@[i as int]@));
        }
        i = i + 1;
    }
    assert(views.take(i as int) =~= views);
    r
}

/// Determines the name of the monitor source for the specified sink, or which
/// source has to be looked up if the name is not present in the entity info
/// object.
pub fn resolve_sink_monitor_name(sink: OwnedSinkInfo) -> (r: MonitorName)
    ensures
        match sink@.monitor_source_name {
            Some(name) => r matches MonitorName::Known(n) && n@ == name,
            None => r == MonitorName::Lookup(sink.monitor_source),
        },
{
    match sink.monitor_source_name {
        Some(name) => MonitorName::Known(name),
        None => MonitorName::Lookup(sink.monitor_source),
    }
}

/// Determines the name of the monitor of a sink from the result of looking up
/// the corresponding source.
pub fn looked_up_monitor_name(source: Result<OwnedSourceInfo, Code>) -> (r: Result<String, Code>)
    ensures
        match source {
            Ok(info) => match info@.name {
                Some(name) => r matches Ok(n) && n@ == name,
                None => r == Err::<String, Code>(Code::NoEntity),
            },
            Err(e) => r == Err::<String, Code>(e),
        },
{
    match source {
        Ok(info) => match info.name {
            Some(name) => Ok(name),
            None => Err(Code::NoEntity),
        },
        Err(e) => Err(e),
    }
}

} // verus!
