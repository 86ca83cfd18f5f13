//! Laws that hold of the creation and removal of virtual sinks as a whole.

use vstd::prelude::*;

use crate::snd::pulse::context::introspect;
use crate::snd::pulse::error::Code;
use crate::snd::pulse::owned;
use crate::util::text;

use super::util;
use super::util::{
    CreationProgressView,
    CreationState,
    DuplexProgressView,
    DuplexSinksView,
    DuplexState,
    Module,
    SinkReplyView,
    SinkRequestView,
    SinkStepView,
    StopAll,
    TeardownProgressView,
    TeardownReplyView,
    TeardownReport,
    TeardownRequestView,
    TeardownState,
    TeardownStepView,
};

verus! {

// SINK NAMES ******************************************************************

/// Whether one of the given sinks has the given name.
pub open spec fn is_taken(sinks: Seq<owned::SinkView>, name: Seq<char>) -> bool {
    exists|i: int| 0 <= i < sinks.len() && (#[trigger] sinks[i]).name == Some(name)
}

/// A name is among the names of sinks exactly if a sink has it.
pub proof fn law_sink_names_are_those_of_sinks(sinks: Seq<owned::SinkView>, name: Seq<char>)
    ensures
        util::sink_names(sinks).contains(name) <==> is_taken(sinks, name),
        util::sink_names(sinks).len() <= sinks.len(),
    decreases sinks.len(),
{
    if sinks.len() > 0 {
        let rest = sinks.drop_last();
        let before = util::sink_names(rest);
        let names = util::sink_names(sinks);
        law_sink_names_are_those_of_sinks(rest, name);
        if names.contains(name) {
            let j = choose|j: int| 0 <= j < names.len() && names[j] == name;
            if j < before.len() {
                assert(before[j] == name);
                let i = choose|i: int| 0 <= i < rest.len() && (#[trigger] rest[i]).name == Some(name);
                assert(sinks[i].name == Some(name));
            } else {
                assert(sinks[sinks.len() - 1].name == Some(name));
            }
        }
        if is_taken(sinks, name) {
            let i = choose|i: int| 0 <= i < sinks.len() && (#[trigger] sinks[i]).name == Some(name);
            if i < rest.len() {
                assert(rest[i].name == Some(name));
                let j = choose|j: int| 0 <= j < before.len() && before[j] == name;
                assert(names[j] == name);
            } else {
                assert(names[before.len() as int] == name);
            }
        }
    }
}

/// The number of a new virtual sink is the number of sinks that already follow the
/// template, unless that name is taken. Otherwise, all smaller numbers are taken.
pub proof fn law_sink_numbers_are_least(
    sinks: Seq<owned::SinkView>,
    template: Seq<char>,
    number: nat,
)
    ensures
        ({
            let count = introspect::with_name_prefix(sinks, template).len();
            let chosen = util::unique_number(sinks, template);
            &&& !is_taken(sinks, template + "-"@ + text::decimal(count)) ==> chosen == count
            &&& is_taken(sinks, template + "-"@ + text::decimal(count)) && number < chosen
                ==> is_taken(sinks, template + "-"@ + text::decimal(number))
        }),
{
    let names = util::sink_names(sinks);
    let count = introspect::with_name_prefix(sinks, template).len();
    law_sink_names_are_those_of_sinks(sinks, util::unique_name(template, count));
    law_sink_names_are_those_of_sinks(sinks, util::unique_name(template, number));
    lemma_smaller_numbers_are_taken(names, template, 0, number);
}

/// All numbers between the one to start from and the least free one are taken.
proof fn lemma_smaller_numbers_are_taken(
    names: Seq<Seq<char>>,
    template: Seq<char>,
    from: nat,
    number: nat,
)
    ensures
        util::free_number(names, template, from) >= from,
        from <= number < util::free_number(names, template, from) ==> names.contains(
            util::unique_name(template, number),
        ),
    decreases names.len() - from,
{
    if from < names.len() && names.contains(util::unique_name(template, from)) {
        lemma_smaller_numbers_are_taken(names, template, from + 1, number);
    }
}

// SINK CREATION ***************************************************************

/// Of several sinks that a new module might have provided, the first one is found.
/// It has to be provided by that module, and to have a name that contains the
/// requested one.
pub proof fn law_first_created_sink_is_found(
    sinks: Seq<owned::SinkView>,
    name: Seq<char>,
    module: u32,
    i: int,
)
    requires
        0 <= i < sinks.len(),
        sinks[i].owner_module == Some(module),
        sinks[i].name matches Some(actual) && text::contains(actual, name),
        forall|j: int|
            0 <= j < i ==> (#[trigger] sinks[j]).owner_module != Some(module) || !(
            sinks[j].name matches Some(actual) && text::contains(actual, name)),
    ensures
        util::created_sink(sinks, name, module) == Ok::<owned::SinkView, Code>(sinks[i]),
    decreases sinks.len(),
{
    if i > 0 {
        let rest = sinks.skip(1);
        assert(rest[i - 1] == sinks[i]);
        assert(!util::is_created(sinks[0], name, module));
        assert forall|j: int| 0 <= j < i - 1 implies (#[trigger] rest[j]).owner_module != Some(
            module,
        ) || !(rest[j].name matches Some(actual) && text::contains(actual, name)) by {
            assert(rest[j] == sinks[j + 1]);
        }
        law_first_created_sink_is_found(rest, name, module, i - 1);
    }
}

/// A sink that is dedicated to recording is created under a name that no sink has
/// yet, by a module that discards all audio.
pub proof fn law_rec_sink_is_created(
    pid: u32,
    sinks: Seq<owned::SinkView>,
    later: Seq<owned::SinkView>,
    module: u32,
    i: int,
)
    ensures
        ({
            let start = CreationState::rec(pid);
            let s1 = start.resume_next(SinkReplyView::Sinks(Ok(sinks)));
            let s2 = s1.0.resume_next(SinkReplyView::Module(Ok(module)));
            let template = "bardcast-"@ + text::decimal(pid as nat) + "_rec"@;
            let name = template + "-"@ + text::decimal(util::unique_number(sinks, template));
            &&& !is_taken(sinks, name)
            &&& s1.1 == SinkStepView::<owned::SinkView>::Request(
                SinkRequestView::LoadModule(Module::NullSink, "sink_name="@ + name),
            )
            &&& s2.1 == SinkStepView::<owned::SinkView>::Request(SinkRequestView::GetSinks)
            &&& 0 <= i < later.len() && later[i].name == Some(name) && later[i].owner_module == Some(
                module,
            ) && (forall|j: int| 0 <= j < i ==> (#[trigger] later[j]).owner_module != Some(module))
                ==> s2.0.resume_next(SinkReplyView::Sinks(Ok(later))).1 == SinkStepView::<
                owned::SinkView,
            >::Done(Ok(later[i]))
        }),
{
    let template = "bardcast-"@ + text::decimal(pid as nat) + "_rec"@;
    lemma_template(pid, "rec"@, "_rec"@);
    util::law_sink_names_are_unique(sinks, template);
    let name = template + "-"@ + text::decimal(util::unique_number(sinks, template));
    if 0 <= i < later.len() && later[i].name == Some(name) && later[i].owner_module == Some(module)
        && (forall|j: int| 0 <= j < i ==> (#[trigger] later[j]).owner_module != Some(module)) {
        lemma_contains_itself(name);
        law_first_created_sink_is_found(later, name, module, i);
    }
}

/// The names of virtual sinks start with the name of the application, the ID of
/// its process, and the type of the sink.
proof fn lemma_template(pid: u32, sink_type: Seq<char>, suffix: Seq<char>)
    requires
        suffix == "_"@ + sink_type || (sink_type == "rec"@ && suffix == "_rec"@) || (sink_type
            == "demux"@ && suffix == "_demux"@),
    ensures
        util::name_template(pid, sink_type) == "bardcast-"@ + text::decimal(pid as nat) + suffix,
{
    reveal_strlit("bardcast");
    reveal_strlit("-");
    reveal_strlit("bardcast-");
    reveal_strlit("_");
    reveal_strlit("rec");
    reveal_strlit("_rec");
    reveal_strlit("demux");
    reveal_strlit("_demux");
    assert("bardcast"@ + "-"@ =~= "bardcast-"@);
    assert("_"@ + "rec"@ =~= "_rec"@);
    assert("_"@ + "demux"@ =~= "_demux"@);
    assert(util::name_template(pid, sink_type) =~= "bardcast-"@ + text::decimal(pid as nat) + (
    "_"@ + sink_type));
}

/// Text contains itself.
proof fn lemma_contains_itself(s: Seq<char>)
    ensures
        text::contains(s, s),
{
    assert(s.subrange(0, s.len() as int) =~= s);
    assert(text::occurs_at(s, s, 0));
}

/// A failure to look up sinks or to load the module is reported, with nothing left
/// to be undone. After that, the module is unloaded before a failure is reported.
/// A failure to unload it supersedes the reason for unloading it.
pub proof fn law_creation_failures(
    state: CreationState,
    name: Seq<char>,
    module: u32,
    sinks: Seq<owned::SinkView>,
    e: Code,
    e2: Code,
)
    ensures
        state.progress is Naming ==> state.resume_next(SinkReplyView::Sinks(Err(e))).1
            == SinkStepView::<owned::SinkView>::Done(Err(e)),
        state.progress is Loading ==> state.resume_next(SinkReplyView::Module(Err(e))).1
            == SinkStepView::<owned::SinkView>::Done(Err(e)),
        state.progress == CreationProgressView::Finding(name, module) ==> ({
            let s1 = state.resume_next(SinkReplyView::Sinks(Err(e)));
            &&& s1.1 == SinkStepView::<owned::SinkView>::Request(
                SinkRequestView::UnloadModule(module),
            )
            &&& s1.0.resume_next(SinkReplyView::Status(Ok(()))).1 == SinkStepView::<
                owned::SinkView,
            >::Done(Err(e))
            &&& s1.0.resume_next(SinkReplyView::Status(Err(e2))).1 == SinkStepView::<
                owned::SinkView,
            >::Done(Err(e2))
        }),
        state.progress == CreationProgressView::Finding(name, module) && (forall|i: int|
            0 <= i < sinks.len() ==> (#[trigger] sinks[i]).owner_module != Some(module)) ==> ({
            let s1 = state.resume_next(SinkReplyView::Sinks(Ok(sinks)));
            &&& s1.1 == SinkStepView::<owned::SinkView>::Request(
                SinkRequestView::UnloadModule(module),
            )
            &&& s1.0.resume_next(SinkReplyView::Status(Ok(()))).1 == SinkStepView::<
                owned::SinkView,
            >::Done(Err(Code::NoEntity))
            &&& s1.0.resume_next(SinkReplyView::Status(Err(e2))).1 == SinkStepView::<
                owned::SinkView,
            >::Done(Err(e2))
        }),
{
    util::law_created_sink_is_provided(sinks, name, module);
}

/// A sink that duplicates audio is created by a module that sends audio to all of
/// those of the given sinks that have a name.
pub proof fn law_demux_sink_is_requested(
    pid: u32,
    first: owned::SinkView,
    second: owned::SinkView,
    existing: Seq<owned::SinkView>,
)
    requires
        first.name is Some,
    ensures
        ({
            let start = CreationState::demux(pid, seq![first, second]);
            let template = "bardcast-"@ + text::decimal(pid as nat) + "_demux"@;
            let name = template + "-"@ + text::decimal(util::unique_number(existing, template));
            let targets = match second.name {
                Some(second) => first.name->0 + ","@ + second,
                None => first.name->0,
            };
            &&& !is_taken(existing, name)
            &&& start.resume_next(SinkReplyView::Sinks(Ok(existing))).1 == SinkStepView::<
                owned::SinkView,
            >::Request(
                SinkRequestView::LoadModule(
                    Module::CombineSink,
                    "sink_name="@ + name + ", slaves="@ + targets,
                ),
            )
        }),
{
    let template = "bardcast-"@ + text::decimal(pid as nat) + "_demux"@;
    lemma_template(pid, "demux"@, "_demux"@);
    util::law_sink_names_are_unique(existing, template);
    let sinks = seq![first, second];
    assert(sinks.drop_last() =~= seq![first]);
    assert(seq![first].drop_last() =~= Seq::empty());
    reveal_with_fuel(util::sink_names, 3);
    reveal_with_fuel(text::joined, 3);
    match second.name {
        Some(name) => {
            assert(util::sink_names(sinks) =~= seq![first.name->0, name]);
            assert(text::joined(seq![first.name->0, name], ","@) =~= first.name->0 + ","@ + name);
        },
        None => {
            assert(util::sink_names(sinks) =~= seq![first.name->0]);
            assert(text::joined(seq![first.name->0], ","@) =~= first.name->0);
        },
    }
}

// DUPLEX SETUP ****************************************************************

/// The sinks of a duplexing interceptor are created one after the other. Requests
/// of the creation of a sink are passed on, and both sinks are returned once the
/// second one has been created.
pub proof fn law_duplex_creates_both(
    state: DuplexState,
    creation: CreationState,
    rec: owned::SinkView,
    sink: owned::SinkView,
    reply: SinkReplyView,
    request: SinkRequestView,
    e: Code,
)
    ensures
        state.progress == DuplexProgressView::CreatingRec(creation) ==> ({
            let step = creation.resume_next(reply);
            let next = state.resume_next(reply);
            &&& next.0.pid == state.pid && next.0.sink == state.sink
            &&& step.1 == SinkStepView::<owned::SinkView>::Request(request) ==> next.1
                == SinkStepView::<DuplexSinksView>::Request(request) && next.0.progress
                == DuplexProgressView::CreatingRec(step.0)
            &&& step.1 == SinkStepView::<owned::SinkView>::Done(Ok(sink)) ==> next.1
                == SinkStepView::<DuplexSinksView>::Request(SinkRequestView::GetSinks)
                && next.0.progress == DuplexProgressView::CreatingDemux(
                CreationState::demux(state.pid, seq![sink, state.sink]),
                sink,
            )
            &&& step.1 == SinkStepView::<owned::SinkView>::Done(Err(e)) ==> next.1
                == SinkStepView::<DuplexSinksView>::Done(Err(e))
        }),
        state.progress == DuplexProgressView::CreatingDemux(creation, rec) ==> ({
            let step = creation.resume_next(reply);
            let next = state.resume_next(reply);
            &&& next.0.pid == state.pid && next.0.sink == state.sink
            &&& step.1 == SinkStepView::<owned::SinkView>::Request(request) ==> next.1
                == SinkStepView::<DuplexSinksView>::Request(request) && next.0.progress
                == DuplexProgressView::CreatingDemux(step.0, rec)
            &&& step.1 == SinkStepView::<owned::SinkView>::Done(Ok(sink)) ==> next.1
                == SinkStepView::<DuplexSinksView>::Done(Ok(DuplexSinksView { rec, demux: sink }))
        }),
{
}

/// If the second sink of a duplexing interceptor cannot be created, then the reason
/// is reported once the first one has been removed. A failure to remove it
/// supersedes that reason. There is nothing to be removed if no module provides the
/// first sink.
pub proof fn law_duplex_failures(
    state: DuplexState,
    creation: CreationState,
    rec: owned::SinkView,
    reply: SinkReplyView,
    e: Code,
    e2: Code,
)
    requires
        state.progress == DuplexProgressView::CreatingDemux(creation, rec),
        creation.resume_next(reply).1 == SinkStepView::<owned::SinkView>::Done(Err(e)),
    ensures
        ({
            let s1 = state.resume_next(reply);
            match rec.owner_module {
                Some(module) => {
                    &&& s1.1 == SinkStepView::<DuplexSinksView>::Request(
                        SinkRequestView::UnloadModule(module),
                    )
                    &&& s1.0.resume_next(SinkReplyView::Status(Ok(()))).1 == SinkStepView::<
                        DuplexSinksView,
                    >::Done(Err(e))
                    &&& s1.0.resume_next(SinkReplyView::Status(Err(e2))).1 == SinkStepView::<
                        DuplexSinksView,
                    >::Done(Err(e2))
                },
                None => s1.1 == SinkStepView::<DuplexSinksView>::Done(Err(e)),
            }
        }),
{
}

// TEARDOWN ********************************************************************

/// The teardown of a sink from its beginning.
pub open spec fn teardown_of(
    index: u32,
    owner_module: Option<u32>,
    move_target: Option<u32>,
) -> TeardownState {
    TeardownState {
        index,
        owner_module,
        move_target,
        report: TeardownReport {
            unknown_inputs: false,
            lookup_error: None,
            target_error: None,
            move_failed: false,
            unloaded: None,
        },
        progress: TeardownProgressView::FindingInputs,
    }
}

/// Whether the given step unloads the module that provides a sink, or completes its
/// teardown if there is none, with what is reported in the end.
pub open spec fn unloads(
    next: (TeardownState, TeardownStepView),
    owner_module: Option<u32>,
    result: Result<(), Code>,
    report: TeardownReport,
) -> bool {
    match owner_module {
        Some(module) => {
            &&& next.1 == TeardownStepView::Request(TeardownRequestView::UnloadModule(module))
            &&& next.0.resume_next(TeardownReplyView::Status(result)).1 == TeardownStepView::Done(
                TeardownReport { unloaded: Some(result), ..report },
            )
        },
        None => next.1 == TeardownStepView::Done(TeardownReport { unloaded: None, ..report }),
    }
}

/// A sink to which no application is attached is torn down at once. So is one whose
/// applications cannot be determined, for which that error is reported.
pub proof fn law_teardown_of_unused_sink(
    index: u32,
    owner_module: Option<u32>,
    move_target: Option<u32>,
    result: Result<(), Code>,
    e: Code,
)
    ensures
        ({
            let start = teardown_of(index, owner_module, move_target);
            let unused = start.resume_next(TeardownReplyView::Inputs(Ok(Seq::empty())));
            let unknown = start.resume_next(TeardownReplyView::Inputs(Err(e)));
            &&& unloads(unused, owner_module, result, start.report)
            &&& unloads(
                unknown,
                owner_module,
                result,
                TeardownReport { lookup_error: Some(e), ..start.report },
            )
        }),
{
}

/// All applications that are attached to a sink are moved before it is torn down:
/// to the given sink or, if there is none, to the default sink. It is torn down even
/// if that fails, and what failed is reported.
pub proof fn law_teardown_of_used_sink(
    index: u32,
    owner_module: Option<u32>,
    move_target: Option<u32>,
    inputs: Seq<u32>,
    default_sink: u32,
    moved: Seq<Result<(), Code>>,
    i: int,
    result: Result<(), Code>,
    e: Code,
)
    requires
        inputs.len() > 0,
    ensures
        ({
            let start = teardown_of(index, owner_module, move_target);
            let found = start.resume_next(TeardownReplyView::Inputs(Ok(inputs)));
            let moving = if move_target is Some {
                found
            } else {
                found.0.resume_next(TeardownReplyView::Sink(Ok(default_sink)))
            };
            let target = match move_target {
                Some(target) => target,
                None => default_sink,
            };
            let used = TeardownReport { unknown_inputs: true, ..start.report };
            let done = moving.0.resume_next(TeardownReplyView::Moved(moved));
            &&& move_target is None ==> found.1 == TeardownStepView::Request(
                TeardownRequestView::GetDefaultSink,
            ) && unloads(
                found.0.resume_next(TeardownReplyView::Sink(Err(e))),
                owner_module,
                result,
                TeardownReport { target_error: Some(e), ..used },
            )
            &&& moving.1 == TeardownStepView::Request(
                TeardownRequestView::MoveInputs(inputs, target),
            )
            &&& (forall|j: int| 0 <= j < moved.len() ==> (#[trigger] moved[j]) is Ok) ==> unloads(
                done,
                owner_module,
                result,
                used,
            )
            &&& 0 <= i < moved.len() && moved[i] is Err ==> unloads(
                done,
                owner_module,
                result,
                TeardownReport { move_failed: true, ..used },
            )
        }),
{
}

/// What the teardown of a sink starts with: looking up the applications that are
/// attached to it.
pub proof fn law_teardown_starts(
    sink: owned::OwnedSinkInfo,
    move_target: Option<u32>,
    r: (util::SinkTeardown, util::TeardownRequest),
)
    requires
        call_ensures(
            util::SinkTeardown::tear_down_virtual_sink,
            (&sink, move_target),
            r,
        ),
    ensures
        r.0.state() == teardown_of(sink.index, sink.owner_module, move_target),
        r.1@ == TeardownRequestView::GetInputs(sink.index),
{
}

// CLOSING *********************************************************************

/// When all applications of an interceptor are stopped, then each of them is handed
/// out exactly once, and exactly those that could not be stopped are reported.
pub proof fn law_all_are_stopped(
    inputs: Vec<u32>,
    input: u32,
    before: StopAll,
    result: Result<bool, Code>,
)
    ensures
        forall|stop: StopAll| #[trigger]
            call_ensures(StopAll::new, (inputs,), stop) ==> stop.remaining() == inputs@
                && stop.failed().len() == 0,
        forall|stop: &mut StopAll, r: Option<u32>| #[trigger]
            call_ensures(StopAll::next_input, (stop,), r) ==> {
                &&& final(stop).failed() == stop.failed()
                &&& r is None <==> stop.remaining().len() == 0
                &&& r matches Some(next) ==> final(stop).remaining().len() + 1
                    == stop.remaining().len() && stop.remaining().to_multiset()
                    == final(stop).remaining().to_multiset().insert(next)
            },
        forall|stop: &mut StopAll| #[trigger]
            call_ensures(StopAll::stopped, (stop, input, result), ()) ==> {
                &&& final(stop).remaining() == stop.remaining()
                &&& result is Ok ==> final(stop).failed() == stop.failed()
                &&& result matches Err(e) ==> final(stop).failed() == stop.failed().push((input, e))
            },
        forall|failures: Vec<(u32, Code)>| #[trigger]
            call_ensures(StopAll::into_failures, (before,), failures) ==> failures@
                == before.failed(),
{
    assert forall|stop: &mut StopAll, r: Option<u32>| #[trigger]
        call_ensures(StopAll::next_input, (stop,), r) && r is Some implies stop.remaining().to_multiset()
        == final(stop).remaining().to_multiset().insert(r->0) by {
        vstd::seq_lib::to_multiset_build(final(stop).remaining(), r->0);
    }
}

} // verus!
