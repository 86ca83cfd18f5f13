//! Laws that hold of how the driver is planned, of the applications that it selects,
//! and of what it knows about them.

use vstd::prelude::*;

use crate::cfg as app_cfg;
use crate::cfg::InterceptMode;
use crate::snd::types::DriverInitError;
use crate::util::text;

use super::cfg::PulseDriverConfig;
use super::context::stream::SinkId;
use super::error::{Code, ComponentError, PulseDriverError};
use super::event::error::{ChannelError, EventListenerError};
use super::event::listen::Listened;
use super::event::{AudioEntity, ChangeEvent};
use super::intercept;
use super::intercept::types;
use super::intercept::types::{ClosePlan, Interceptor, Reply, Step};
use super::intercept::{EventAction, InterceptRun, InterceptorKind, RunStep};
use super::owned;
use super::owned::{
    IntoOwnedInfo, OwnedSinkInfo, OwnedSinkInputInfo, OwnedSourceInfo, Property, SinkInfo,
    SinkInputInfo, SourceInfo,
};
use super::{DriverComponent, DriverPlan, ProplistMatcher, StartStage};

verus! {

// DRIVER PLAN *****************************************************************

/// Applications are intercepted exactly if there is a regular expression to select
/// them. The properties that it is matched against are those that are configured or,
/// if there are none, the name of the application and that of its executable.
pub proof fn law_applications_are_selected<'a, V>(
    config: &'a PulseDriverConfig<V>,
    r: Result<DriverPlan<'a>, PulseDriverError>,
)
    requires
        call_ensures(super::plan_driver::<V>, (config,), r),
    ensures
        config.stream_regex is Some <==> (r matches Ok(plan) && plan is Intercept),
        r matches Ok(DriverPlan::Intercept { matcher, interceptor, sink }) ==> {
            &&& matcher.texts() == app_cfg::regex_texts(config.stream_regex->0)
            &&& config.stream_properties@.len() > 0 ==> matcher.keys() == text::views(
                config.stream_properties@,
            )
            &&& config.stream_properties@.len() == 0 ==> forall|key: Seq<char>| #[trigger]
                matcher.keys().contains(key) <==> key == "application.name"@ || key
                    == "application.process.binary"@
        },
{
    if let Ok(DriverPlan::Intercept { matcher, interceptor, sink }) = r {
        if config.stream_properties@.len() == 0 {
            let keys = matcher.keys();
            assert(keys.len() == 2);
            assert(keys[0] == "application.name"@ && keys[1] == "application.process.binary"@);
            assert forall|key: Seq<char>| #[trigger] keys.contains(key) <==> key
                == "application.name"@ || key == "application.process.binary"@ by {
                if key == "application.name"@ {
                    assert(keys.contains(keys[0]));
                }
                if key == "application.process.binary"@ {
                    assert(keys.contains(keys[1]));
                }
            }
        }
    }
}

/// Without a regular expression, audio can only be obtained by monitoring a sink,
/// for which that mode has to be selected.
pub proof fn law_monitoring_is_selected<'a, V>(
    config: &'a PulseDriverConfig<V>,
    r: Result<DriverPlan<'a>, PulseDriverError>,
)
    requires
        call_ensures(super::plan_driver::<V>, (config,), r),
        config.stream_regex is None,
    ensures
        config.intercept_mode == Some(InterceptMode::Monitor) <==> (r matches Ok(plan) && plan
            is Monitor),
        config.intercept_mode != Some(InterceptMode::Monitor) <==> (r matches Err(e) && e
            is BadConfig),
{
}

/// Whether the sink that is used is the configured one: the one with the configured
/// index, or else the one with the configured name, or else the default sink.
pub proof fn law_configured_sink_is_used<'a, V>(
    config: &'a PulseDriverConfig<V>,
    plan: DriverPlan<'a>,
)
    requires
        call_ensures(super::plan_driver::<V>, (config,), Ok(plan)),
    ensures
        ({
            let used = match plan {
                DriverPlan::Intercept { sink, .. } => sink,
                DriverPlan::Monitor { sink } => sink,
            };
            match (config.sink_index, config.sink_name) {
                (Some(index), _) => used == Some(SinkId::<'a>::Index(index)),
                (None, Some(name)) => used matches Some(SinkId::Name(n)) && n@ == name@,
                (None, None) => used is None,
            }
        }),
{
}

/// How applications are intercepted follows from the mode and the limit. Without a
/// mode, they can still be heard. With a limit, those that exceed it are queued; and
/// a single one is monitored without any virtual sink.
pub proof fn law_interceptor_is_selected<'a, V>(
    config: &'a PulseDriverConfig<V>,
    matcher: ProplistMatcher,
    interceptor: InterceptorKind,
    sink: Option<SinkId<'a>>,
)
    requires
        call_ensures(
            super::plan_driver::<V>,
            (config,),
            Ok(DriverPlan::Intercept { matcher, interceptor, sink }),
        ),
    ensures
        interceptor is Capturing <==> config.intercept_mode == Some(InterceptMode::Capture),
        interceptor is SingleMonitor <==> config.intercept_mode == Some(InterceptMode::Monitor)
            && config.intercept_limit == Some(1usize),
        interceptor matches InterceptorKind::Capturing { limit, queued } ==> limit
            == config.intercept_limit && queued == (config.intercept_limit is Some),
        interceptor matches InterceptorKind::Duplexing { limit, queued } ==> limit
            == config.intercept_limit && queued == (config.intercept_limit is Some),
{
}

/// A sink that exists already is needed exactly if audio has to be sent on to it.
pub proof fn law_sink_is_needed(
    mode: InterceptMode,
    limit: Option<usize>,
    kind: InterceptorKind,
    r: bool,
)
    requires
        call_ensures(InterceptorKind::select, (mode, limit), kind),
        call_ensures(InterceptorKind::requires_sink, (&kind,), r),
    ensures
        mode is Capture ==> kind == (InterceptorKind::Capturing { limit, queued: limit is Some })
            && !r,
        mode is Peek ==> kind == (InterceptorKind::Duplexing { limit, queued: limit is Some }) && r,
        mode is Monitor && limit == Some(1usize) ==> kind is SingleMonitor && !r,
        mode is Monitor && limit != Some(1usize) ==> kind == (InterceptorKind::Duplexing {
            limit,
            queued: limit is Some,
        }) && r,
{
}

/// Only a failure to connect to the server allows for another driver to be tried.
/// Every failure is attributed to the component in which it occurred.
pub proof fn law_start_failures(
    stage: StartStage,
    code: Code,
    r: DriverInitError<PulseDriverError>,
)
    requires
        call_ensures(super::start_failure, (stage, code), r),
    ensures
        r is ConnectionError <==> stage is Connect,
        r.spec_source() matches PulseDriverError::ComponentError(e) && e.code == code
            && e.component == (match stage {
            StartStage::Connect => DriverComponent::Context,
            StartStage::Subscribe => DriverComponent::EventHandler,
            StartStage::Intercept => DriverComponent::Interceptor,
            StartStage::Monitor => DriverComponent::Stream,
        }),
{
}

/// Errors keep the code that they were made from, and are explained by it.
pub proof fn law_driver_errors(
    component: DriverComponent,
    e: ComponentError,
    driver: PulseDriverError,
    code: Code,
    r: Option<Code>,
    text: &str,
    message: String,
)
    requires
        call_ensures(DriverComponent::to_error, (&component, code), e),
        driver == PulseDriverError::ComponentError(e) || driver == PulseDriverError::PulseError(
            code,
        ) || driver is BadConfig,
        call_ensures(PulseDriverError::code, (&driver,), r),
        call_ensures(PulseDriverError::message, (&driver, text), message),
    ensures
        e.component == component && e.code == code,
        driver is BadConfig <==> r is None,
        r matches Some(c) ==> c == code,
        driver is ComponentError ==> message@ == "Error in driver component '"@
            + component.name_spec() + "': "@ + text@,
        driver is PulseError ==> message@ == "PulseAudio error: "@ + text@,
        driver matches PulseDriverError::BadConfig(reason) ==> message@
            == "Invalid driver configuration: "@ + reason@,
{
}

// SELECTED APPLICATIONS *******************************************************

/// An application is selected exactly if one of the properties that are looked at
/// has a value that the regular expression matches. Applications without metadata
/// are never left out.
pub proof fn law_application_is_selected(
    matcher: ProplistMatcher,
    event: ChangeEvent<AudioEntity<OwnedSinkInputInfo>>,
    accepted: bool,
    kept: Option<ChangeEvent<AudioEntity<OwnedSinkInputInfo>>>,
)
    requires
        call_ensures(ProplistMatcher::accepts, (&matcher, &event), accepted),
        call_ensures(ProplistMatcher::filter, (&matcher, event), kept),
    ensures
        kept == (if accepted {
            Some(event)
        } else {
            None
        }),
        event.spec_entity() is Index ==> accepted,
        event.spec_entity() matches AudioEntity::Info(info) ==> (accepted <==> exists|i: int|
            {
                &&& 0 <= i < info.proplist@.len()
                &&& matcher.keys().contains((#[trigger] info.proplist@[i]).key@)
                &&& info.proplist@[i].value is Some
                &&& matcher.texts().contains(info.proplist@[i].value->0@)
            }),
{
    if let AudioEntity::Info(info) = event.spec_entity() {
        let views = owned::properties(info.proplist@);
        assert forall|i: int| 0 <= i < info.proplist@.len() implies #[trigger] views[i]
            == info.proplist@[i]@ by {}
        if accepted {
            let i = choose|i: int|
                0 <= i < views.len() && super::property_matches(
                    matcher.keys(),
                    matcher.texts(),
                    #[trigger] views[i],
                );
            assert(views[i] == info.proplist@[i]@);
            assert(matcher.keys().contains(info.proplist@[i].key@));
        }
        if exists|i: int|
            {
                &&& 0 <= i < info.proplist@.len()
                &&& matcher.keys().contains((#[trigger] info.proplist@[i]).key@)
                &&& info.proplist@[i].value is Some
                &&& matcher.texts().contains(info.proplist@[i].value->0@)
            } {
            let i = choose|i: int|
                {
                    &&& 0 <= i < info.proplist@.len()
                    &&& matcher.keys().contains((#[trigger] info.proplist@[i]).key@)
                    &&& info.proplist@[i].value is Some
                    &&& matcher.texts().contains(info.proplist@[i].value->0@)
                };
            assert(super::property_matches(matcher.keys(), matcher.texts(), views[i]));
        }
    }
}

// RUNS OF INTERCEPTORS ********************************************************

/// New applications are recorded, changed ones are updated, and removed ones are
/// stopped, by the interceptor and in that state. Events without metadata, failed
/// lookups and lost events change nothing, and the end of the listener closes the
/// interceptor without changing it.
pub proof fn law_events_are_handled<I: Interceptor>(
    event: Listened<OwnedSinkInputInfo>,
    running: bool,
)
    ensures
        forall|intercept: &mut I, r: RunStep| #[trigger]
            call_ensures(intercept::handle_event::<I>, (intercept, event, running), r) ==> {
                let before = intercept.state();
                let after = final(intercept).state();
                match event {
                    Ok(ChangeEvent::New(AudioEntity::Info(input))) => r matches RunStep::Operation(
                        step,
                    ) && (after, step@) == I::record_next(before, input@, running),
                    Ok(ChangeEvent::Changed(AudioEntity::Info(input))) => {
                        r matches RunStep::Operation(step) && (after, step@) == I::update_next(
                            before,
                            input@,
                            running,
                        )
                    },
                    Ok(ChangeEvent::Removed(AudioEntity::Info(input))) => {
                        r matches RunStep::Operation(step) && (after, step@) == I::stop_next(
                            before,
                            input.index,
                            running,
                        )
                    },
                    Ok(ChangeEvent::Removed(AudioEntity::Index(index))) => {
                        r matches RunStep::Operation(step) && (after, step@) == I::stop_next(
                            before,
                            index,
                            running,
                        )
                    },
                    Err(EventListenerError::ChannelError(ChannelError::Closed)) => r is Close
                        && after == before,
                    _ => r is Wait && after == before,
                }
            },
        forall|run: &mut InterceptRun<I>, r: RunStep| #[trigger]
            call_ensures(InterceptRun::<I>::handle, (run, event, running), r) ==> {
                let before = run.state();
                let after = final(run).state();
                &&& final(run).events() == run.events().push(event)
                &&& match event {
                    Ok(ChangeEvent::New(AudioEntity::Info(input))) => r matches RunStep::Operation(
                        step,
                    ) && (after, step@) == I::record_next(before, input@, running),
                    Ok(ChangeEvent::Changed(AudioEntity::Info(input))) => {
                        r matches RunStep::Operation(step) && (after, step@) == I::update_next(
                            before,
                            input@,
                            running,
                        )
                    },
                    Ok(ChangeEvent::Removed(AudioEntity::Info(input))) => {
                        r matches RunStep::Operation(step) && (after, step@) == I::stop_next(
                            before,
                            input.index,
                            running,
                        )
                    },
                    Ok(ChangeEvent::Removed(AudioEntity::Index(index))) => {
                        r matches RunStep::Operation(step) && (after, step@) == I::stop_next(
                            before,
                            index,
                            running,
                        )
                    },
                    Err(EventListenerError::ChannelError(ChannelError::Closed)) => r is Close
                        && after == before,
                    _ => r is Wait && after == before,
                }
            },
{
}

/// A run starts without events, and goes on as long as the stream is open and the
/// listener has not ended. Replies are passed on to the interceptor without an
/// influence on that. In the end, the interceptor is closed in the state that it has
/// reached.
pub proof fn law_runs<I: Interceptor>(
    intercept: I,
    run: InterceptRun<I>,
    stream_closed: bool,
    needed: bool,
    reply: Reply,
    running: bool,
    closed: (I, ClosePlan),
)
    ensures
        forall|run: InterceptRun<I>| #[trigger]
            call_ensures(InterceptRun::<I>::new, (intercept,), run) ==> run.state()
                == intercept.state() && run.events().len() == 0,
        call_ensures(InterceptRun::<I>::needs_event, (&run, stream_closed), needed) ==> (needed
            <==> !stream_closed && forall|i: int|
            0 <= i < run.events().len() ==> !((#[trigger] run.events()[i]) matches Err(
                EventListenerError::ChannelError(ChannelError::Closed),
            ))),
        forall|run: &mut InterceptRun<I>, step: Step| #[trigger]
            call_ensures(InterceptRun::<I>::resume, (run, reply, running), step) ==> {
                &&& (final(run).state(), step@) == I::resume_next(run.state(), reply, running)
                &&& final(run).events() == run.events()
            },
        call_ensures(InterceptRun::<I>::close, (run,), closed) ==> closed.0.state() == run.state()
            && closed.1@ == I::closing(run.state()) && closed.1.stop@.no_duplicates(),
{
    if intercept::may_continue(run.events()) {
        assert forall|i: int| 0 <= i < run.events().len() implies !((#[trigger] run.events()[i])
            matches Err(EventListenerError::ChannelError(ChannelError::Closed))) by {
            assert(!(EventAction::for_event(run.events()[i]) is ShutDown));
        }
    } else {
        let i = choose|i: int|
            0 <= i < run.events().len() && EventAction::for_event(#[trigger] run.events()[i])
                is ShutDown;
        assert(run.events()[i] matches Err(EventListenerError::ChannelError(ChannelError::Closed)));
    }
}

// METADATA ********************************************************************

/// Metadata that is copied from the server holds what the server provided, item by
/// item.
pub proof fn law_metadata_is_kept<'a>(
    sink: SinkInfo<'a>,
    input: SinkInputInfo<'a>,
    source: SourceInfo<'a>,
    owned_sink: OwnedSinkInfo,
    owned_input: OwnedSinkInputInfo,
    owned_source: OwnedSourceInfo,
    i: int,
)
    requires
        call_ensures(<SinkInfo as IntoOwnedInfo>::into_owned, (&sink,), owned_sink),
        call_ensures(<SinkInputInfo as IntoOwnedInfo>::into_owned, (&input,), owned_input),
        call_ensures(<SourceInfo as IntoOwnedInfo>::into_owned, (&source,), owned_source),
    ensures
        owned_sink.index == sink.index,
        owned_sink.owner_module == sink.owner_module,
        owned_sink.monitor_source == sink.monitor_source,
        is_text(sink.name, owned_sink.name),
        is_text(sink.monitor_source_name, owned_sink.monitor_source_name),
        owned_input.index == input.index,
        owned_input.sink == input.sink,
        owned_input.corked == input.corked,
        is_text(input.name, owned_input.name),
        owned_input.proplist@.len() == input.proplist@.len(),
        0 <= i < input.proplist@.len() ==> owned_input.proplist@[i]@ == input.proplist@[i]@,
        owned_source.index == source.index,
        is_text(source.name, owned_source.name),
{
    let views = owned::properties(owned_input.proplist@);
    assert(views == owned::properties(input.proplist@));
    assert(views.len() == owned_input.proplist@.len());
    assert(owned::properties(input.proplist@).len() == input.proplist@.len());
    if 0 <= i < input.proplist@.len() {
        assert(views[i] == owned_input.proplist@[i]@);
        assert(views[i] == input.proplist@[i]@);
    }
}

/// Whether the second text is the first one.
pub open spec fn is_text(a: Option<&str>, b: Option<String>) -> bool {
    match (a, b) {
        (Some(a), Some(b)) => a@ == b@,
        (None, None) => true,
        _ => false,
    }
}

/// Copies of metadata hold the same metadata.
pub proof fn law_metadata_copies(
    sink: OwnedSinkInfo,
    sink_copy: OwnedSinkInfo,
    input: OwnedSinkInputInfo,
    input_copy: OwnedSinkInputInfo,
    source: OwnedSourceInfo,
    source_copy: OwnedSourceInfo,
    property: Property,
    property_copy: Property,
)
    requires
        call_ensures(<OwnedSinkInfo as Clone>::clone, (&sink,), sink_copy),
        call_ensures(<OwnedSinkInputInfo as Clone>::clone, (&input,), input_copy),
        call_ensures(<OwnedSourceInfo as Clone>::clone, (&source,), source_copy),
        call_ensures(<Property as Clone>::clone, (&property,), property_copy),
    ensures
        sink_copy.index == sink.index,
        sink_copy.owner_module == sink.owner_module,
        sink_copy.monitor_source == sink.monitor_source,
        text::opt_view(sink_copy.name) == text::opt_view(sink.name),
        text::opt_view(sink_copy.monitor_source_name) == text::opt_view(sink.monitor_source_name),
        input_copy.index == input.index,
        input_copy.sink == input.sink,
        input_copy.corked == input.corked,
        text::opt_view(input_copy.name) == text::opt_view(input.name),
        owned::properties(input_copy.proplist@) == owned::properties(input.proplist@),
        source_copy.index == source.index,
        text::opt_view(source_copy.name) == text::opt_view(source.name),
        property_copy.key@ == property.key@,
        text::opt_view(property_copy.value) == text::opt_view(property.value),
{
    assert(sink_copy@ == sink@);
    assert(input_copy@ == input@);
    assert(source_copy@ == source@);
    assert(property_copy@ == property@);
}

/// An entity is shown by its name, if it has one, and its index.
pub proof fn law_labels(
    sink: OwnedSinkInfo,
    sink_label: String,
    input: OwnedSinkInputInfo,
    input_label: String,
    source: OwnedSourceInfo,
    source_label: String,
)
    requires
        call_ensures(OwnedSinkInfo::label, (&sink,), sink_label),
        call_ensures(OwnedSinkInputInfo::label, (&input,), input_label),
        call_ensures(OwnedSourceInfo::label, (&source,), source_label),
    ensures
        sink.name matches Some(name) ==> sink_label@ == name@ + " (index "@ + text::decimal(
            sink.index as nat,
        ) + ")"@,
        input.name matches Some(name) ==> input_label@ == name@ + " (index "@ + text::decimal(
            input.index as nat,
        ) + ")"@,
        source.name matches Some(name) ==> source_label@ == name@ + " (index "@ + text::decimal(
            source.index as nat,
        ) + ")"@,
        sink.name is None ==> sink_label@ == "[unknown]"@ + " (index "@
            + text::decimal(sink.index as nat) + ")"@,
        input.name is None ==> input_label@ == "[unknown]"@ + " (index "@
            + text::decimal(input.index as nat) + ")"@,
{
}

/// An interceptor error tells the code that the server returned, if any. Its message
/// names the application that was refused, and the limit.
pub proof fn law_intercept_errors(
    e: types::InterceptError,
    code: Option<Code>,
    text: &str,
    message: String,
)
    requires
        call_ensures(types::InterceptError::code, (&e,), code),
        call_ensures(types::InterceptError::message, (&e, text), message),
    ensures
        e matches types::InterceptError::PulseError(c) ==> code == Some(c) && message@ == text@,
        e matches types::InterceptError::AtCapacity(n, source) ==> code is None && message@
            == "Cannot intercept application "@ + owned::entity_label(source@.name, source.index)
            + ", interceptor at limit ("@ + text::decimal(n as nat) + ")"@,
{
}

// MODELS **********************************************************************

/// The model of metadata tells exactly what the metadata does.
pub proof fn law_metadata_is_modeled(
    sink: OwnedSinkInfo,
    input: OwnedSinkInputInfo,
    source: OwnedSourceInfo,
    property: Property,
    i: int,
)
    ensures
        sink@.index == sink.index,
        sink@.owner_module == sink.owner_module,
        sink@.monitor_source == sink.monitor_source,
        sink@.name == text::opt_view(sink.name),
        sink@.monitor_source_name == text::opt_view(sink.monitor_source_name),
        input@.index == input.index,
        input@.sink == input.sink,
        input@.corked == input.corked,
        input@.name == text::opt_view(input.name),
        input@.proplist.len() == input.proplist@.len(),
        0 <= i < input.proplist@.len() ==> input@.proplist[i] == input.proplist@[i]@,
        source@.index == source.index,
        source@.name == text::opt_view(source.name),
        property@.key == property.key@,
        property@.value == text::opt_view(property.value),
{
}

/// What is done about an event follows from what happened, and from whether the
/// metadata of the application is known.
pub proof fn law_event_actions(event: Listened<OwnedSinkInputInfo>, r: EventAction)
    requires
        call_ensures(EventAction::from_event, (event,), r),
    ensures
        match event {
            Ok(ChangeEvent::New(AudioEntity::Info(input))) => r == EventAction::Record(input),
            Ok(ChangeEvent::Changed(AudioEntity::Info(input))) => r == EventAction::Update(input),
            Ok(ChangeEvent::Removed(AudioEntity::Info(input))) => r == EventAction::Stop(
                input.index,
            ),
            Ok(ChangeEvent::Removed(AudioEntity::Index(index))) => r == EventAction::Stop(index),
            Err(EventListenerError::ChannelError(ChannelError::Closed)) => r is ShutDown,
            _ => r is Ignore,
        },
{
}

} // verus!
