//! Laws that tie the models of interceptors and virtual sinks to the values that they
//! stand for.

use vstd::prelude::*;

use crate::snd::pulse::context::introspect;
use crate::snd::pulse::error::Code;
use crate::snd::pulse::owned;
use crate::snd::pulse::owned::{OwnedSinkInfo, OwnedSinkInputInfo};
use crate::util::text;

use super::sink_laws;
use super::types;
use super::types::{
    CapturingInterceptor, DuplexingInterceptor, InterceptError, Interceptor, LimitingInterceptor,
    Outcome, OutcomeView, QueuedInterceptor, Request, SingleInputMonitor, Step, StepView,
};
use super::util;
use super::util::{
    DuplexProgressView, DuplexSetup, Module, SinkCreation, SinkReply, SinkReplyView, SinkRequest,
    SinkRequestView, SinkStep, SinkStepView, TeardownReply, TeardownReplyView, TeardownReport,
    TeardownRequest, TeardownRequestView, TeardownStep, TeardownStepView,
};

verus! {

// INTERCEPTORS ****************************************************************

/// The model of a step tells exactly what the step is.
pub proof fn law_steps_are_modeled(
    step: Step,
    request: Request,
    updated: Result<(), Code>,
    stopped: Result<bool, Code>,
    code: Code,
    n: usize,
    source: OwnedSinkInputInfo,
)
    ensures
        step@ == StepView::Request(request) <==> step == Step::Request(request),
        step@ == StepView::Done(OutcomeView::Updated(updated)) <==> step == Step::Done(
            Outcome::Updated(updated),
        ),
        step@ == StepView::Done(OutcomeView::Stopped(stopped)) <==> step == Step::Done(
            Outcome::Stopped(stopped),
        ),
        step@ == StepView::Done(OutcomeView::Recorded(Ok(()))) <==> (step matches Step::Done(
            Outcome::Recorded(Ok(_)),
        )),
        step@ == StepView::Done(OutcomeView::Recorded(Err(types::ErrorView::PulseError(code))))
            <==> (step matches Step::Done(Outcome::Recorded(Err(InterceptError::PulseError(c)))) && c
            == code),
        step@ == StepView::Done(
            OutcomeView::Recorded(Err(types::ErrorView::AtCapacity(n, source@))),
        ) <==> (step matches Step::Done(
            Outcome::Recorded(Err(InterceptError::AtCapacity(m, s))),
        ) && m == n && s@ == source@),
{
}

/// A plan for closing an interceptor is modeled by what it says.
pub proof fn law_close_plans_are_modeled(plan: types::ClosePlan, index: u32, i: int)
    ensures
        plan@.stop_stream == plan.stop_stream,
        plan@.stop.contains(index) <==> plan.stop@.contains(index),
        plan@.tear_down.len() == plan.tear_down@.len(),
        0 <= i < plan.tear_down@.len() ==> plan@.tear_down[i] == (
            plan.tear_down@[i].0@,
            plan.tear_down@[i].1,
        ),
{
    assert(plan.stop@.to_set().contains(index) <==> plan.stop@.contains(index));
}

/// Interceptors start without any application, with the limit and the sinks that they
/// were given.
pub proof fn law_new_interceptors(
    rec: OwnedSinkInfo,
    demux: OwnedSinkInfo,
    orig: OwnedSinkInfo,
    limit: Option<usize>,
    monitor: SingleInputMonitor,
    capture: CapturingInterceptor,
    duplex: DuplexingInterceptor,
    n: usize,
    m: usize,
    k: usize,
)
    requires
        call_ensures(SingleInputMonitor::new, (), monitor),
        call_ensures(CapturingInterceptor::new, (rec, limit), capture),
        call_ensures(DuplexingInterceptor::from_sink, (demux, rec, orig, limit), duplex),
        call_ensures(<SingleInputMonitor as Interceptor>::len, (&monitor,), n),
        call_ensures(<CapturingInterceptor as Interceptor>::len, (&capture,), m),
        call_ensures(<DuplexingInterceptor as Interceptor>::len, (&duplex,), k),
    ensures
        n == 0 && m == 0 && k == 0,
        monitor.state().intercepted is None,
        capture.state().routes.intercepts.dom().len() == 0,
        duplex.state().routes.intercepts.dom().len() == 0,
        capture.state().routes.limit == limit,
        duplex.state().routes.limit == limit,
        capture.state().rec == rec@,
        duplex.state().rec == rec@,
        duplex.state().demux == demux@,
        duplex.state().orig == orig@,
{
}

/// The sinks of interceptors can be looked at.
pub proof fn law_interceptor_sinks(
    capture: CapturingInterceptor,
    rec: &OwnedSinkInfo,
    duplex: DuplexingInterceptor,
    rec2: &OwnedSinkInfo,
    demux: &OwnedSinkInfo,
    orig: &OwnedSinkInfo,
)
    requires
        call_ensures(CapturingInterceptor::record_sink, (&capture,), rec),
        call_ensures(DuplexingInterceptor::record_sink, (&duplex,), rec2),
        call_ensures(DuplexingInterceptor::demux_sink, (&duplex,), demux),
        call_ensures(DuplexingInterceptor::original_sink, (&duplex,), orig),
    ensures
        rec@ == capture.state().rec,
        rec2@ == duplex.state().rec,
        demux@ == duplex.state().demux,
        orig@ == duplex.state().orig,
{
}

/// An interceptor is full exactly if it has as many applications as its limit allows.
/// Without a limit, it never is. What remains is the difference.
pub proof fn law_limits<I: LimitingInterceptor>(
    intercept: I,
    len: usize,
    capacity: Option<usize>,
    remaining: Option<usize>,
    full: bool,
)
    requires
        call_ensures(I::len, (&intercept,), len),
        call_ensures(I::capacity, (&intercept,), capacity),
        call_ensures(I::remaining, (&intercept,), remaining),
        call_ensures(I::is_full, (&intercept,), full),
    ensures
        full <==> capacity == Some(len),
        capacity is None <==> remaining is None,
        capacity matches Some(n) ==> n == remaining->0 + len,
{
}

/// A queued interceptor starts with an empty queue around the given interceptor, and
/// gives it back.
pub proof fn law_queued_interceptors<I: LimitingInterceptor>(
    inner: I,
    queued: QueuedInterceptor<I>,
    borrowed: &I,
    returned: I,
)
    ensures
        forall|new: QueuedInterceptor<I>| #[trigger]
            call_ensures(QueuedInterceptor::<I>::from_inner, (inner,), new) ==> new.state().inner
                == inner.state() && new.state().queue.len() == 0,
        call_ensures(QueuedInterceptor::<I>::inner, (&queued,), borrowed) ==> borrowed.state()
            == queued.state().inner,
        call_ensures(QueuedInterceptor::<I>::into_inner, (queued,), returned) ==> returned.state()
            == queued.state().inner,
{
}

// VIRTUAL SINKS ***************************************************************

/// The models of requests, replies and steps of the creation of a sink tell exactly
/// what they are.
pub proof fn law_creation_steps_are_modeled(
    request: SinkRequest,
    reply: SinkReply,
    step: SinkStep<OwnedSinkInfo>,
    module: Module,
    args: Seq<char>,
    index: u32,
    sink: OwnedSinkInfo,
    e: Code,
)
    ensures
        request@ == SinkRequestView::LoadModule(module, args) <==> (
        request matches SinkRequest::LoadModule(m, a) && m == module && a@ == args),
        request@ == SinkRequestView::UnloadModule(index) <==> request == SinkRequest::UnloadModule(
            index,
        ),
        request@ is GetSinks <==> request is GetSinks,
        step matches SinkStep::Request(r) ==> step@ == SinkStepView::<owned::SinkView>::Request(r@),
        step@ == SinkStepView::<owned::SinkView>::Done(Err(e)) <==> (step matches SinkStep::Done(
            Err(e2),
        ) && e2 == e),
        step@ == SinkStepView::<owned::SinkView>::Done(Ok(sink@)) <==> (step matches SinkStep::Done(
            Ok(s),
        ) && s@ == sink@),
        match reply {
            SinkReply::Sinks(Ok(sinks)) => reply@ == SinkReplyView::Sinks(
                Ok(introspect::sink_views(sinks@)),
            ),
            SinkReply::Sinks(Err(e)) => reply@ == SinkReplyView::Sinks(Err(e)),
            SinkReply::Module(r) => reply@ == SinkReplyView::Module(r),
            SinkReply::Status(r) => reply@ == SinkReplyView::Status(r),
        },
{
}

/// The models of requests, replies and steps of the teardown of a sink tell exactly
/// what they are.
pub proof fn law_teardown_steps_are_modeled(
    request: TeardownRequest,
    reply: TeardownReply,
    step: TeardownStep,
    inputs: Seq<u32>,
    sink: u32,
    report: TeardownReport,
)
    ensures
        request@ == TeardownRequestView::MoveInputs(inputs, sink) <==> (
        request matches TeardownRequest::MoveInputs(i, s) && i@ == inputs && s == sink),
        request@ == TeardownRequestView::GetInputs(sink) <==> request == TeardownRequest::GetInputs(
            sink,
        ),
        request@ == TeardownRequestView::UnloadModule(sink) <==> request
            == TeardownRequest::UnloadModule(sink),
        request@ is GetDefaultSink <==> request is GetDefaultSink,
        step@ == TeardownStepView::Done(report) <==> step == TeardownStep::Done(report),
        step matches TeardownStep::Request(r) ==> step@ == TeardownStepView::Request(r@),
        match reply {
            TeardownReply::Inputs(Ok(inputs)) => reply@ == TeardownReplyView::Inputs(Ok(inputs@)),
            TeardownReply::Inputs(Err(e)) => reply@ == TeardownReplyView::Inputs(Err(e)),
            TeardownReply::Sink(r) => reply@ == TeardownReplyView::Sink(r),
            TeardownReply::Moved(r) => reply@ == TeardownReplyView::Moved(r@),
            TeardownReply::Status(r) => reply@ == TeardownReplyView::Status(r),
        },
{
}

/// The creation of a sink starts by looking up all sinks. The arguments with which its
/// module is going to be loaded follow from the type of the sink, and from the sinks
/// that it is to send audio to.
pub proof fn law_creation_starts(
    pid: u32,
    sinks: Vec<OwnedSinkInfo>,
    rec: (SinkCreation, SinkRequest),
    demux: (SinkCreation, SinkRequest),
    sink: OwnedSinkInfo,
    duplex: (DuplexSetup, SinkRequest),
    setup: DuplexSetup,
    kept: OwnedSinkInfo,
)
    requires
        call_ensures(SinkCreation::create_rec_sink, (pid,), rec),
        call_ensures(SinkCreation::create_demux_sink, (pid, &sinks), demux),
        call_ensures(DuplexSetup::new, (pid, sink), duplex),
        call_ensures(DuplexSetup::into_sink, (setup,), kept),
    ensures
        rec.1 is GetSinks && demux.1 is GetSinks && duplex.1 is GetSinks,
        rec.0.state() == util::CreationState::rec(pid),
        demux.0.state() == util::CreationState::demux(pid, introspect::sink_views(sinks@)),
        duplex.0.state().pid == pid,
        duplex.0.state().sink == sink@,
        duplex.0.state().progress == DuplexProgressView::CreatingRec(util::CreationState::rec(pid)),
        kept@ == setup.state().sink,
{
}

/// The name of a new sink consists of its template and a number, and no sink has it
/// yet. The sink that was created is the first one that has a name like it and is
/// provided by the new module.
pub proof fn law_sinks_are_named_and_found(
    template: &str,
    sinks: Vec<OwnedSinkInfo>,
    name: String,
    wanted: &str,
    module: u32,
    r: Result<OwnedSinkInfo, Code>,
    i: int,
)
    requires
        call_ensures(util::get_unique_sink_name, (template, &sinks), name),
        call_ensures(util::get_created_virtual_sink, (&sinks, wanted, module), r),
    ensures
        exists|n: nat| name@ == template@ + "-"@ + #[trigger] text::decimal(n),
        0 <= i < sinks@.len() ==> text::opt_view(sinks@[i].name) != Some(name@),
        0 <= i < sinks@.len() && sinks@[i].owner_module == Some(module) && (
        sinks@[i].name matches Some(actual) && text::contains(actual@, wanted@)) && (forall|j: int|
            0 <= j < i ==> (#[trigger] sinks@[j]).owner_module != Some(module)) ==> (r matches Ok(
            found,
        ) && found@ == sinks@[i]@),
        (forall|j: int| 0 <= j < sinks@.len() ==> (#[trigger] sinks@[j]).owner_module != Some(module))
            ==> r == Err::<OwnedSinkInfo, Code>(Code::NoEntity),
{
    let views = introspect::sink_views(sinks@);
    assert(views.len() == sinks@.len());
    assert forall|j: int| 0 <= j < views.len() implies #[trigger] views[j] == sinks@[j]@ by {}
    let number = util::unique_number(views, template@);
    assert(name@ == template@ + "-"@ + text::decimal(number));
    if 0 <= i < sinks@.len() {
        assert(views[i].name != Some(name@));
        if sinks@[i].owner_module == Some(module) && (sinks@[i].name matches Some(actual)
            && text::contains(actual@, wanted@)) && (forall|j: int|
            0 <= j < i ==> (#[trigger] sinks@[j]).owner_module != Some(module)) {
            assert forall|j: int| 0 <= j < i implies (#[trigger] views[j]).owner_module != Some(
                module,
            ) || !(views[j].name matches Some(actual) && text::contains(actual, wanted@)) by {
                assert(sinks@[j].owner_module != Some(module));
            }
            sink_laws::law_first_created_sink_is_found(views, wanted@, module, i);
        }
    }
    if forall|j: int| 0 <= j < sinks@.len() ==> (#[trigger] sinks@[j]).owner_module != Some(module) {
        util::law_created_sink_is_provided(views, wanted@, module);
        if let Ok(sink) = util::created_sink(views, wanted@, module) {
            let j = choose|j: int| 0 <= j < views.len() && views[j] == sink;
            assert(sinks@[j].owner_module != Some(module));
        }
    }
}

/// Modules are known to the server by their names, and templates are made of the name
/// of the application, the ID of its process and the type of the sink.
pub proof fn law_names(
    pid: u32,
    sink_type: &str,
    template: String,
    module: Module,
    name: &'static str,
)
    requires
        call_ensures(util::get_name_template, (pid, sink_type), template),
        call_ensures(Module::name, (&module,), name),
    ensures
        template@ == "bardcast"@ + "-"@ + text::decimal(pid as nat) + "_"@ + sink_type@,
        module is NullSink ==> name@ == "module-null-sink"@,
        module is CombineSink ==> name@ == "module-combine-sink"@,
{
}

// PROGRESS ********************************************************************

/// Every operation of an interceptor has the effects that the laws on its states tell,
/// and an operation that needs something from the server is pending until it is there.
pub proof fn law_interceptors_proceed<I: Interceptor>(
    source: OwnedSinkInputInfo,
    index: u32,
    reply: types::Reply,
    running: bool,
)
    ensures
        forall|i: &mut I, r: Step| #[trigger]
            call_ensures(I::record, (i, source, running), r) ==> {
                &&& (final(i).state(), r@) == I::record_next(i.state(), source@, running)
                &&& r matches Step::Request(request) ==> I::pending(final(i).state()) == Some(
                    request,
                )
                &&& r is Done ==> I::pending(final(i).state()) is None
            },
        forall|i: &mut I, r: Step| #[trigger]
            call_ensures(I::update_intercept, (i, &source, running), r) ==> {
                &&& (final(i).state(), r@) == I::update_next(i.state(), source@, running)
                &&& r matches Step::Request(request) ==> I::pending(final(i).state()) == Some(
                    request,
                )
                &&& r is Done ==> I::pending(final(i).state()) is None
            },
        forall|i: &mut I, r: Step| #[trigger]
            call_ensures(I::stop, (i, index, running), r) ==> {
                &&& (final(i).state(), r@) == I::stop_next(i.state(), index, running)
                &&& r matches Step::Request(request) ==> I::pending(final(i).state()) == Some(
                    request,
                )
                &&& r is Done ==> I::pending(final(i).state()) is None
            },
        forall|i: &mut I, r: Step| #[trigger]
            call_ensures(I::resume, (i, reply, running), r) ==> {
                &&& (final(i).state(), r@) == I::resume_next(i.state(), reply, running)
                &&& r matches Step::Request(request) ==> I::pending(final(i).state()) == Some(
                    request,
                )
                &&& r is Done ==> I::pending(final(i).state()) is None
            },
{
}

/// The creation of a sink, the setup of a duplicating interceptor and the teardown of a
/// sink proceed with each reply, as the laws on their states tell.
pub proof fn law_sinks_proceed(reply: SinkReply, teardown_reply: TeardownReply)
    ensures
        forall|c: &mut SinkCreation, r: SinkStep<OwnedSinkInfo>| #[trigger]
            call_ensures(SinkCreation::resume, (c, reply), r) ==> (final(c).state(), r@)
                == c.state().resume_next(reply@),
        forall|d: &mut DuplexSetup, r: SinkStep<util::DuplexSinks>| #[trigger]
            call_ensures(DuplexSetup::resume, (d, reply), r) ==> (final(d).state(), r@)
                == d.state().resume_next(reply@),
        forall|t: &mut util::SinkTeardown, r: TeardownStep| #[trigger]
            call_ensures(util::SinkTeardown::resume, (t, teardown_reply), r) ==> (
            final(t).state(),
            r@,
        ) == t.state().resume_next(teardown_reply@),
{
}

} // verus!
