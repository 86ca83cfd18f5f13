//! Laws that hold of the way of an event from the server to a listener.

use vstd::prelude::*;

use crate::snd::pulse::context::introspect::OperationState;
use crate::snd::pulse::error::Code;
use crate::snd::pulse::owned::{OwnedSinkInfo, OwnedSinkInputInfo};
use crate::util::fmt::Describe;
use crate::util::text;

use super::error::{ChannelError, EventListenerError, LookupError, MissingEventField, ResolveError};
use super::factory;
use super::factory::{
    EntityLookup, EventListenerFactory, FactoryState, RawChangeEvent, Subscription,
};
use super::listen;
use super::listen::{Listened, NextStep, OwnedEventListener};
use super::{AudioEntity, ChangeEntity, ChangeEvent, EntityInfo, Facility, FacilityOperation};

verus! {

// EVENTS **********************************************************************

/// An event is made of what happened and of the entity to which it happened, and
/// tells both of them.
pub proof fn law_events(
    change: FacilityOperation,
    entity: ChangeEntity,
    event: ChangeEvent<ChangeEntity>,
    r: &ChangeEntity,
    name: &'static str,
)
    requires
        call_ensures(ChangeEvent::<ChangeEntity>::from_change_entity, (change, entity), event),
        call_ensures(ChangeEvent::<ChangeEntity>::entity, (&event,), r),
        call_ensures(ChangeEvent::<ChangeEntity>::name, (&event,), name),
    ensures
        *r == entity,
        change is New <==> event is New,
        change is Changed <==> event is Changed,
        change is Removed <==> event is Removed,
        change is New ==> name@ == "New"@,
        change is Changed ==> name@ == "Changed"@,
        change is Removed ==> name@ == "Removed"@,
{
}

/// Only the entity of an event is changed when it is mapped, and an event without
/// an entity is no event.
pub proof fn law_mapped_events<E, T, F: FnOnce(E) -> T>(
    event: ChangeEvent<E>,
    op: F,
    mapped: ChangeEvent<T>,
    optional: ChangeEvent<Option<E>>,
    r: Option<ChangeEvent<E>>,
)
    requires
        call_ensures(ChangeEvent::<E>::map::<T, F>, (event, op), mapped),
        call_ensures(ChangeEvent::<Option<E>>::transpose, (optional,), r),
    ensures
        event is New <==> mapped is New,
        event is Changed <==> mapped is Changed,
        event is Removed <==> mapped is Removed,
        call_ensures(op, (event.spec_entity(),), mapped.spec_entity()),
        r is None <==> optional.spec_entity() is None,
        r matches Some(e) ==> optional.spec_entity() == Some(e.spec_entity()),
        r matches Some(e) ==> (e is New <==> optional is New) && (e is Changed <==> optional
            is Changed),
{
}

/// Sinks and sink inputs are told apart: an event about one of them is an event for
/// those who are interested in that type only.
pub proof fn law_types_are_told_apart(
    event: ChangeEvent<ChangeEntity>,
    sink: Option<ChangeEvent<AudioEntity<OwnedSinkInfo>>>,
    input: Option<ChangeEvent<AudioEntity<OwnedSinkInputInfo>>>,
)
    requires
        call_ensures(
            ChangeEvent::<ChangeEntity>::try_unwrap::<OwnedSinkInfo>,
            (event,),
            sink,
        ),
        call_ensures(
            ChangeEvent::<ChangeEntity>::try_unwrap::<OwnedSinkInputInfo>,
            (event,),
            input,
        ),
    ensures
        sink is Some <==> input is None,
        event.spec_entity() matches ChangeEntity::Sink(e) ==> (sink matches Some(unwrapped)
            && unwrapped.spec_entity() == e && (unwrapped is New <==> event is New) && (unwrapped
            is Removed <==> event is Removed)),
        event.spec_entity() matches ChangeEntity::SinkInput(e) ==> (input matches Some(unwrapped)
            && unwrapped.spec_entity() == e && (unwrapped is New <==> event is New) && (unwrapped
            is Removed <==> event is Removed)),
{
}

/// An entity is identified by its index and its type, whether or not its metadata is
/// known, and is shown by them.
pub proof fn law_entities(
    sink: AudioEntity<OwnedSinkInfo>,
    input: AudioEntity<OwnedSinkInputInfo>,
    entity: ChangeEntity,
    index: u32,
    facility: Facility,
    described: String,
)
    requires
        call_ensures(ChangeEntity::index, (&entity,), index),
        call_ensures(ChangeEntity::facility, (&entity,), facility),
        call_ensures(<ChangeEntity as Describe>::describe, (&entity,), described),
        entity == ChangeEntity::Sink(sink) || entity == ChangeEntity::SinkInput(input),
    ensures
        entity == ChangeEntity::Sink(sink) ==> facility is Sink && index == (match sink {
            AudioEntity::Info(info) => info.index,
            AudioEntity::Index(index) => index,
        }) && described@ == "Sink (index "@ + text::decimal(index as nat) + ")"@,
        entity == ChangeEntity::SinkInput(input) ==> facility is SinkInput && index == (
        match input {
            AudioEntity::Info(info) => info.index,
            AudioEntity::Index(index) => index,
        }) && described@ == "SinkInput (index "@ + text::decimal(index as nat) + ")"@,
{
    reveal_strlit("Sink");
    reveal_strlit("SinkInput");
    reveal_strlit(" (index ");
    reveal_strlit("Sink (index ");
    reveal_strlit("SinkInput (index ");
    assert("Sink"@ + " (index "@ =~= "Sink (index "@);
    assert("SinkInput"@ + " (index "@ =~= "SinkInput (index "@);
}

// RAW EVENTS ******************************************************************

/// An event is accepted if the server provides both of its parts. Of parts that are
/// missing, the type of the entity is reported first.
pub proof fn law_raw_events(
    facility: Option<Facility>,
    change: Option<FacilityOperation>,
    index: u32,
    r: Result<RawChangeEvent, MissingEventField>,
)
    requires
        call_ensures(RawChangeEvent::try_new, (facility, change, index), r),
    ensures
        r is Ok <==> facility is Some && change is Some,
        r matches Ok(event) ==> Some(event.facility) == facility && Some(event.change) == change
            && event.index == index,
        facility is None ==> (r matches Err(e) && e is Facility),
        facility is Some && change is None ==> (r matches Err(e) && e is ChangeType),
{
}

/// Metadata is looked up for exactly those events that concern a sink or a sink
/// input that still exists.
pub proof fn law_lookups(event: RawChangeEvent, r: EntityLookup)
    requires
        call_ensures(RawChangeEvent::required_lookup, (&event,), r),
    ensures
        event.change is Removed ==> r is Nothing,
        event.change !is Removed && event.facility is Sink ==> r == EntityLookup::Sink(
            event.index,
        ),
        event.change !is Removed && event.facility is SinkInput ==> r == EntityLookup::SinkInput(
            event.index,
        ),
        event.facility !is Sink && event.facility !is SinkInput ==> r is Nothing,
{
}

/// What listeners get to know of an event: the entity with its metadata if that was
/// looked up, the failure to look it up, or the entity without metadata if it no
/// longer exists. Events about anything else than sinks and sink inputs do not reach
/// them.
pub proof fn law_resolved_events(
    event: RawChangeEvent,
    looked_up: Option<Result<ChangeEntity, Code>>,
    resolved: Result<ChangeEvent<ChangeEntity>, ResolveError>,
    r: Option<Result<ChangeEvent<ChangeEntity>, LookupError<ChangeEntity>>>,
)
    requires
        call_ensures(factory::resolve_event, (&event, looked_up), resolved),
        call_ensures(factory::to_broadcast, (resolved,), r),
        looked_up is Some ==> event.facility is Sink || event.facility is SinkInput,
    ensures
        r is None <==> event.facility !is Sink && event.facility !is SinkInput,
        looked_up matches Some(Ok(entity)) ==> (r matches Some(Ok(e)) && e.spec_entity() == entity
            && (e is New <==> event.change is New) && (e is Changed <==> event.change is Changed)),
        looked_up matches Some(Err(code)) ==> (r matches Some(Err(e)) && e.spec_code() == code
            && e.spec_raw_event().spec_entity().spec_index_of() == event.index && (
        e.spec_raw_event() is New <==> event.change is New) && (e.spec_raw_event() is Changed
            <==> event.change is Changed)),
        looked_up is None && event.facility is Sink ==> (r matches Some(Ok(e)) && e.spec_entity()
            == ChangeEntity::Sink(AudioEntity::Index(event.index)) && (e is New <==> event.change
            is New) && (e is Changed <==> event.change is Changed)),
        looked_up is None && event.facility is SinkInput ==> (r matches Some(Ok(e))
            && e.spec_entity() == ChangeEntity::SinkInput(AudioEntity::Index(event.index)) && (e
            is New <==> event.change is New) && (e is Changed <==> event.change is Changed)),
{
}

/// Metadata that was looked up becomes the entity that it describes, and failures
/// remain what they are.
pub proof fn law_looked_up_entities(
    sink: Result<OwnedSinkInfo, Code>,
    input: Result<OwnedSinkInputInfo, Code>,
    r: Result<ChangeEntity, Code>,
    r2: Result<ChangeEntity, Code>,
    subscribed: Result<bool, OperationState>,
    status: Result<(), Code>,
)
    requires
        call_ensures(factory::resolve_sink, (sink,), r),
        call_ensures(factory::resolve_sink_input, (input,), r2),
        call_ensures(factory::subscribe_result, (subscribed,), status),
    ensures
        sink matches Ok(info) ==> r == Ok::<ChangeEntity, Code>(
            ChangeEntity::Sink(AudioEntity::Info(info)),
        ),
        sink matches Err(e) ==> r == Err::<ChangeEntity, Code>(e),
        input matches Ok(info) ==> r2 == Ok::<ChangeEntity, Code>(
            ChangeEntity::SinkInput(AudioEntity::Info(info)),
        ),
        input matches Err(e) ==> r2 == Err::<ChangeEntity, Code>(e),
        status is Ok <==> subscribed == Ok::<bool, OperationState>(true),
        subscribed is Err ==> status == Err::<(), Code>(Code::Killed),
        subscribed == Ok::<bool, OperationState>(false) ==> status == Err::<(), Code>(
            Code::BadState,
        ),
{
}

/// A subscription comprises exactly the types that were listened for, and has to be
/// renewed exactly if a type is new.
pub proof fn law_subscriptions(
    subscription: Subscription,
    entity_type: Facility,
    other: Facility,
    listed: &Vec<Facility>,
)
    ensures
        forall|new: Subscription| #[trigger]
            call_ensures(Subscription::new, (), new) ==> !new.view().contains(other),
        forall|s: &mut Subscription, r: bool| #[trigger]
            call_ensures(Subscription::listen_for_entity_type, (s, entity_type), r) ==> {
                &&& r == !s.view().contains(entity_type)
                &&& final(s).view().contains(entity_type)
                &&& other != entity_type ==> final(s).view().contains(other) == s.view().contains(
                    other,
                )
            },
        call_ensures(Subscription::entity_types, (&subscription,), listed) ==> listed@.contains(
            other,
        ) == subscription.view().contains(other),
{
    assert(listed@.contains(other) == listed@.to_set().contains(other));
}

/// A factory is initialized once, with the configuration that it was created with,
/// and has a state only from then on.
pub proof fn law_factory<U, S>(config: U, state: S, factory: EventListenerFactory<U, S>, r: Option<S>)
    ensures
        forall|f: EventListenerFactory<U, S>| #[trigger]
            call_ensures(EventListenerFactory::<U, S>::new, (config,), f) ==> f.view()
                == FactoryState::<U, S>::Uninitialized(config),
        forall|f: &mut EventListenerFactory<U, S>, c: Option<U>| #[trigger]
            call_ensures(EventListenerFactory::<U, S>::begin_init, (f,), c) ==> {
                &&& c is Some <==> f.view() is Uninitialized
                &&& c matches Some(c) ==> f.view() == FactoryState::<U, S>::Uninitialized(c)
                    && final(f).view() is Initializing
                &&& c is None ==> final(f).view() == f.view()
            },
        forall|f: &mut EventListenerFactory<U, S>| #[trigger]
            call_ensures(EventListenerFactory::<U, S>::finish_init, (f, state), ()) ==> final(f).view()
                == FactoryState::<U, S>::Initialized(state),
        forall|s: Option<&S>| #[trigger]
            call_ensures(EventListenerFactory::<U, S>::initialized, (&factory,), s) ==> {
                &&& s is Some <==> factory.view() is Initialized
                &&& s matches Some(s) ==> factory.view() == FactoryState::<U, S>::Initialized(*s)
            },
        call_ensures(EventListenerFactory::<U, S>::consume, (factory,), r) ==> {
            &&& r is Some <==> factory.view() is Initialized
            &&& r matches Some(s) ==> factory.view() == FactoryState::<U, S>::Initialized(s)
        },
{
}

// LISTENERS *******************************************************************

/// A listener hears every event that concerns entities of its type, as it was
/// broadcast, and no other. It also hears about failed lookups of such entities, and
/// about problems with the channel unless it was told to ignore lost events.
pub proof fn law_listeners_of_inputs(
    received: listen::Received,
    r: Option<Listened<OwnedSinkInputInfo>>,
    r2: Option<Listened<OwnedSinkInputInfo>>,
)
    requires
        call_ensures(OwnedEventListener::<OwnedSinkInputInfo>::receive, (received,), r),
        call_ensures(OwnedEventListener::<OwnedSinkInputInfo>::receive_ignore_lag, (received,), r2),
    ensures
        match received {
            Ok(Ok(event)) => match event.spec_entity() {
                ChangeEntity::Sink(_) => r is None,
                ChangeEntity::SinkInput(entity) => r matches Some(Ok(heard))
                    && heard.spec_entity() == entity && (heard is New <==> event is New) && (heard
                    is Changed <==> event is Changed),
            },
            Ok(Err(e)) => match e.spec_raw_event().spec_entity() {
                ChangeEntity::Sink(_) => r is None,
                ChangeEntity::SinkInput(entity) => r matches Some(
                    Err(EventListenerError::LookupError(heard)),
                ) && heard.spec_code() == e.spec_code() && heard.spec_raw_event().spec_entity()
                    == entity,
            },
            Err(e) => r == Some::<Listened<OwnedSinkInputInfo>>(
                Err(EventListenerError::ChannelError(e)),
            ),
        },
        received matches Err(e) && e is Lagged ==> r2 is None,
        received matches Err(e) && e is Closed ==> r2 == Some::<Listened<OwnedSinkInputInfo>>(
            Err(EventListenerError::ChannelError(ChannelError::Closed)),
        ),
        received is Ok ==> (r is Some <==> r2 is Some),
        received matches Ok(Ok(_)) ==> r == r2,
{
}

/// Existing entities are reported one by one, each of them as new, before anything is
/// received.
pub proof fn law_existing_entities<I: EntityInfo>(existing: Vec<I>)
    ensures
        forall|listener: OwnedEventListener<I>| #[trigger]
            call_ensures(OwnedEventListener::<I>::new, (existing,), listener)
                ==> listener.existing() == existing@,
        forall|listener: &mut OwnedEventListener<I>, r: NextStep<I>| #[trigger]
            call_ensures(OwnedEventListener::<I>::next, (listener,), r) ==> {
                &&& r is Receive <==> listener.existing().len() == 0
                &&& r is Receive ==> final(listener).existing() == listener.existing()
                &&& r matches NextStep::Heard(event) ==> (event matches Ok(ChangeEvent::New(
                    AudioEntity::Info(info),
                )) && listener.existing() == final(listener).existing().push(info))
            },
{
    assert forall|listener: &mut OwnedEventListener<I>, r: NextStep<I>| #[trigger]
        call_ensures(OwnedEventListener::<I>::next, (listener,), r) && r
            is Heard implies listener.existing() == final(listener).existing().push(
        listener.existing().last(),
    ) by {
        assert(listener.existing() =~= listener.existing().drop_last().push(
            listener.existing().last(),
        ));
    }
}

/// A filter lets an event through as what it is mapped to, or not at all. A failed
/// lookup passes unchanged if the filter accepts the entity, and problems with the
/// channel always pass.
pub proof fn law_filters<I: Clone, T, F: Fn(ChangeEvent<AudioEntity<I>>) -> Option<T>>(
    event: Listened<I>,
    filter_map: F,
    r: Option<Result<T, EventListenerError<AudioEntity<I>>>>,
)
    requires
        call_ensures(listen::do_filter_map::<I, T, F>, (event, &filter_map), r),
    ensures
        event matches Ok(e) ==> (r is None && call_ensures(filter_map, (e,), None)) || (r matches Some(
            Ok(value),
        ) && call_ensures(filter_map, (e,), Some(value))),
        event matches Err(EventListenerError::LookupError(e)) ==> r is None || r == Some(
            Err::<T, EventListenerError<AudioEntity<I>>>(EventListenerError::LookupError(e)),
        ),
        event matches Err(EventListenerError::ChannelError(e)) ==> r == Some(
            Err::<T, EventListenerError<AudioEntity<I>>>(EventListenerError::ChannelError(e)),
        ),
{
}

/// A failed lookup keeps the reason and the event that it is about.
pub proof fn law_lookup_errors(
    code: Code,
    event: ChangeEvent<ChangeEntity>,
    e: LookupError<ChangeEntity>,
    r: Code,
    raw: &ChangeEvent<ChangeEntity>,
)
    requires
        call_ensures(LookupError::<ChangeEntity>::new, (code, event), e),
        call_ensures(LookupError::<ChangeEntity>::code, (&e,), r),
        call_ensures(LookupError::<ChangeEntity>::raw_event, (&e,), raw),
    ensures
        r == code,
        *raw == event,
{
}

/// The state of an initialized factory can be changed, and nothing else can.
pub proof fn law_factory_state_changes<U, S>()
    ensures
        forall|f: &mut EventListenerFactory<U, S>, s: Option<&mut S>| #[trigger]
            call_ensures(EventListenerFactory::<U, S>::initialized_mut, (f,), s) ==> {
                &&& s is Some <==> f.view() is Initialized
                &&& s matches Some(s) ==> f.view() == FactoryState::<U, S>::Initialized(*s)
                    && final(f).view() == FactoryState::<U, S>::Initialized(*final(s))
                &&& s is None ==> final(f).view() == f.view()
            },
{
}

/// A failed lookup is of interest to those who listen for the type of its entity, and
/// they learn why it failed, and of which event.
pub proof fn law_lookup_errors_are_mapped(
    e: LookupError<ChangeEntity>,
    sink: Option<LookupError<AudioEntity<OwnedSinkInfo>>>,
    input: Option<LookupError<AudioEntity<OwnedSinkInputInfo>>>,
)
    requires
        call_ensures(LookupError::<ChangeEntity>::try_map_entity::<OwnedSinkInfo>, (e,), sink),
        call_ensures(LookupError::<ChangeEntity>::try_map_entity::<OwnedSinkInputInfo>, (e,), input),
    ensures
        sink is Some <==> e.spec_raw_event().spec_entity() is Sink,
        input is Some <==> e.spec_raw_event().spec_entity() is SinkInput,
        sink matches Some(s) ==> s.spec_code() == e.spec_code() && s.spec_raw_event().change()
            == e.spec_raw_event().change() && e.spec_raw_event().spec_entity()
            == ChangeEntity::Sink(s.spec_raw_event().spec_entity()),
        input matches Some(i) ==> i.spec_code() == e.spec_code() && i.spec_raw_event().change()
            == e.spec_raw_event().change() && e.spec_raw_event().spec_entity()
            == ChangeEntity::SinkInput(i.spec_raw_event().spec_entity()),
{
}

/// Events that concern sinks and sink inputs are supported, and no other. Without its
/// metadata, such an entity is known by its index.
pub proof fn law_raw_entities(event: RawChangeEvent, r: Result<ChangeEntity, Code>, e: ResolveError)
    requires
        call_ensures(RawChangeEvent::to_entity, (&event,), r),
        call_ensures(RawChangeEvent::unsupported, (&event,), e),
    ensures
        event.facility is Sink ==> r == Ok::<ChangeEntity, Code>(
            ChangeEntity::Sink(AudioEntity::Index(event.index)),
        ),
        event.facility is SinkInput ==> r == Ok::<ChangeEntity, Code>(
            ChangeEntity::SinkInput(AudioEntity::Index(event.index)),
        ),
        !(event.facility is Sink) && !(event.facility is SinkInput) ==> r == Err::<
            ChangeEntity,
            Code,
        >(Code::NotSupported),
        e == ResolveError::UnsupportedFacility(event.facility, event.index),
{
}

/// Sinks and sink inputs are of the types that the server knows them by, have the
/// indices that their metadata tells, and are unwrapped from entities of their type.
pub proof fn law_entity_types(
    sink: OwnedSinkInfo,
    input: OwnedSinkInputInfo,
    entity: ChangeEntity,
    sink_type: Facility,
    input_type: Facility,
    sink_index: u32,
    input_index: u32,
    as_sink: Option<AudioEntity<OwnedSinkInfo>>,
    as_input: Option<AudioEntity<OwnedSinkInputInfo>>,
)
    requires
        call_ensures(<OwnedSinkInfo as EntityInfo>::to_entity_type, (), sink_type),
        call_ensures(<OwnedSinkInputInfo as EntityInfo>::to_entity_type, (), input_type),
        call_ensures(<OwnedSinkInfo as EntityInfo>::index, (&sink,), sink_index),
        call_ensures(<OwnedSinkInputInfo as EntityInfo>::index, (&input,), input_index),
        call_ensures(<OwnedSinkInfo as EntityInfo>::from_change_entity, (entity,), as_sink),
        call_ensures(<OwnedSinkInputInfo as EntityInfo>::from_change_entity, (entity,), as_input),
    ensures
        sink_type is Sink,
        input_type is SinkInput,
        sink_index == sink.index,
        input_index == input.index,
        entity matches ChangeEntity::Sink(e) ==> as_sink == Some(e) && as_input is None,
        entity matches ChangeEntity::SinkInput(e) ==> as_input == Some(e) && as_sink is None,
{
}

/// An entity is described by its type and its index, and an event by what happened to
/// which entity.
pub proof fn law_descriptions(
    entity: AudioEntity<OwnedSinkInputInfo>,
    event: ChangeEvent<AudioEntity<OwnedSinkInputInfo>>,
    described: String,
    told: String,
    code: Code,
    e: LookupError<AudioEntity<OwnedSinkInputInfo>>,
    code_text: &str,
    message: String,
)
    requires
        call_ensures(<AudioEntity<OwnedSinkInputInfo> as Describe>::describe, (&entity,), described),
        call_ensures(
            <ChangeEvent<AudioEntity<OwnedSinkInputInfo>> as Describe>::describe,
            (&event,),
            told,
        ),
        event.spec_entity() == entity,
        call_ensures(LookupError::<AudioEntity<OwnedSinkInputInfo>>::new, (code, event), e),
        call_ensures(
            LookupError::<AudioEntity<OwnedSinkInputInfo>>::message,
            (&e, code_text),
            message,
        ),
    ensures
        entity matches AudioEntity::Index(i) ==> described@ == "SinkInput"@
            + " (index "@ + text::decimal(i as nat) + ")"@,
        entity matches AudioEntity::Info(info) ==> described@ == "SinkInput"@
            + " (index "@ + text::decimal(info.index as nat) + ")"@,
        event is New ==> told@ == "New"@ + " "@ + described@,
        event is Changed ==> told@ == "Changed"@ + " "@ + described@,
        event is Removed ==> told@ == "Removed"@ + " "@ + described@,
        message@ == "Lookup failure for event "@ + told@ + ": "@ + code_text@,
{
}

} // verus!
