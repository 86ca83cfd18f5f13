//! Types responsible for establishing the event subscription with the server,
//! and for turning the notifications of the server into events.

use vstd::prelude::*;

use crate::snd::pulse::context::introspect::OperationState;
use crate::snd::pulse::error::Code;
use crate::snd::pulse::owned::{OwnedSinkInfo, OwnedSinkInputInfo};

use super::error::{LookupError, MissingEventField, ResolveError};
use super::{AudioEntity, ChangeEntity, ChangeEvent, Facility, FacilityOperation};

verus! {

/// The maximum length of the event notification queue, for both the internal
/// and external queues.
pub const NOTIFY_QUEUE_LENGTH: usize = 16;

// TYPE DEFINITIONS ************************************************************

/// Lightweight wrapper around the data in the raw notifications of the server.
#[derive(Clone, Copy, Debug, PartialEq, Eq, Structural)]
pub struct RawChangeEvent {
    pub facility: Facility,
    pub change: FacilityOperation,
    pub index: u32,
}

/// The metadata that has to be looked up in order to resolve an event.
#[derive(Clone, Copy, Debug, PartialEq, Eq, Structural)]
pub enum EntityLookup {
    /// No metadata is needed, or none can be looked up.
    Nothing,

    /// The metadata of the sink with the given index.
    Sink(u32),

    /// The metadata of the sink input with the given index.
    SinkInput(u32),
}

/// The types of entities for whose events the server currently provides
/// notifications.
#[derive(Debug)]
pub struct Subscription {
    entity_types: Vec<Facility>,
}

/// Lifecycle of an event listener factory, where `U` is the state data that is
/// needed to establish the event notification mechanism, and `S` is the state
/// data after that.
#[derive(Debug)]
pub enum FactoryState<U, S> {
    /// The factory has not yet established an event subscription with the
    /// server, and is currently being configured.
    Uninitialized(U),

    /// The factory is actively establishing an event subscription with the
    /// server.
    Initializing,

    /// The factory has an established event subscription with the server.
    Initialized(S),
}

/// Factory for creating listeners for audio graph entity change events.
#[derive(Debug)]
pub struct EventListenerFactory<U, S> {
    state: FactoryState<U, S>,
}

// MODELS **********************************************************************

impl RawChangeEvent {
    /// Whether entities of the type affected by this event can be handled.
    pub open spec fn supported(self) -> bool {
        self.facility is Sink || self.facility is SinkInput
    }

    /// The affected entity, without its metadata.
    pub open spec fn raw_entity(self) -> ChangeEntity {
        if self.facility is Sink {
            ChangeEntity::Sink(AudioEntity::Index(self.index))
        } else {
            ChangeEntity::SinkInput(AudioEntity::Index(self.index))
        }
    }

    /// The metadata that has to be looked up in order to resolve this event. The
    /// metadata of removed entities can no longer be looked up.
    pub open spec fn lookup(self) -> EntityLookup {
        if self.change is Removed {
            EntityLookup::Nothing
        } else {
            match self.facility {
                Facility::Sink => EntityLookup::Sink(self.index),
                Facility::SinkInput => EntityLookup::SinkInput(self.index),
                _ => EntityLookup::Nothing,
            }
        }
    }
}

impl Subscription {
    /// The types of entities that are subscribed to.
    pub closed spec fn view(&self) -> Set<Facility> {
        self.entity_types@.to_set()
    }
}

impl<U, S> EventListenerFactory<U, S> {
    /// The current lifecycle state.
    pub closed spec fn view(&self) -> FactoryState<U, S> {
        self.state
    }
}

// TYPE IMPLS ******************************************************************

impl RawChangeEvent {
    /// Attempts to create a `RawChangeEvent` from the raw data returned by an
    /// event notification.
    pub fn try_new(
        facility: Option<Facility>,
        change: Option<FacilityOperation>,
        index: u32,
    ) -> (r: Result<Self, MissingEventField>)
        ensures
            match (facility, change) {
                (Some(facility), Some(change)) => r == Ok::<RawChangeEvent, MissingEventField>(
                    RawChangeEvent { facility, change, index },
                ),
                (None, _) => r == Err::<RawChangeEvent, MissingEventField>(
                    MissingEventField::Facility,
                ),
                (Some(_), None) => r == Err::<RawChangeEvent, MissingEventField>(
                    MissingEventField::ChangeType,
                ),
            },
    {
        match (facility, change) {
            (Some(facility), Some(change)) => Ok(RawChangeEvent { facility, change, index }),
            (None, _) => Err(MissingEventField::Facility),
            (Some(_), None) => Err(MissingEventField::ChangeType),
        }
    }

    /// Creates a [`ResolveError`] for the entity represented by this event.
    pub fn unsupported(&self) -> (r: ResolveError)
        ensures
            r == ResolveError::UnsupportedFacility(self.facility, self.index),
    {
        ResolveError::UnsupportedFacility(self.facility, self.index)
    }

    /// Represents the affected entity without its metadata.
    pub fn to_entity(&self) -> (r: Result<ChangeEntity, Code>)
        ensures
            if self.supported() {
                r == Ok::<ChangeEntity, Code>(self.raw_entity())
            } else {
                r == Err::<ChangeEntity, Code>(Code::NotSupported)
            },
    {
        match self.facility {
            Facility::Sink => Ok(ChangeEntity::Sink(AudioEntity::Index(self.index))),
            Facility::SinkInput => Ok(ChangeEntity::SinkInput(AudioEntity::Index(self.index))),
            _ => Err(Code::NotSupported),
        }
    }

    /// Determines which metadata has to be looked up in order to resolve this
    /// event.
    pub fn required_lookup(&self) -> (r: EntityLookup)
        ensures
            r == self.lookup(),
    {
        match (self.change, self.facility) {
            (FacilityOperation::Removed, _) => EntityLookup::Nothing,
            (_, Facility::Sink) => EntityLookup::Sink(self.index),
            (_, Facility::SinkInput) => EntityLookup::SinkInput(self.index),
            _ => EntityLookup::Nothing,
        }
    }
}

impl Subscription {
    /// Creates an empty subscription.
    pub fn new() -> (r: Self)
        ensures
            r.view() == Set::<Facility>::empty(),
    {
        let r = Subscription { entity_types: Vec::new() };
        assert(r.view() =~= Set::empty());
        r
    }

    /// Checks if the given entity type is part of the current subscription, and
    /// adds it if not. Returns whether the subscription of the server has to be
    /// changed.
    pub fn listen_for_entity_type(&mut self, entity_type: Facility) -> (r: bool)
        ensures
            final(self).view() == old(self).view().insert(entity_type),
            r == !old(self).view().contains(entity_type),
    {
        let mut i: usize = 0;
        while i < self.entity_types.len()
            invariant
                i <= self.entity_types.len(),
                *self == *old(self),
                forall|j: int| 0 <= j < i ==> self.entity_types@[j] != entity_type,
            decreases self.entity_types.len() - i,
        {
            if self.entity_types[i] == entity_type {
                assert(self.view().contains(self.entity_types@[i as int]));
                assert(self.view() =~= self.view().insert(entity_type));
                return false;
            }
            i = i + 1;
        }
        self.entity_types.push(entity_type);
        proof {
            let before = old(self).entity_types@;
            let after = self.entity_types@;
            assert(after[before.len() as int] == entity_type);
            assert forall|f: Facility| self.view().contains(f) <==> old(self).view().insert(
                entity_type,
            ).contains(f) by {
                if before.contains(f) {
                    let j = choose|j: int| 0 <= j < before.len() && before[j] == f;
                    assert(after[j] == f);
                }
                if after.contains(f) {
                    let j = choose|j: int| 0 <= j < after.len() && after[j] == f;
                    if j < before.len() {
                        assert(before[j] == f);
                    }
                }
            }
            assert(self.view() =~= old(self).view().insert(entity_type));
        }
        true
    }

    /// Returns the types of entities that are subscribed to.
    pub fn entity_types(&self) -> (r: &Vec<Facility>)
        ensures
            r@.to_set() == self.view(),
    {
        &self.entity_types
    }
}

impl<U, S> EventListenerFactory<U, S> {
    /// Creates a new factory that has not established an event subscription.
    pub fn new(config: U) -> (r: Self)
        ensures
            r.view() == FactoryState::<U, S>::Uninitialized(config),
    {
        EventListenerFactory { state: FactoryState::Uninitialized(config) }
    }

    /// Begins to establish the event subscription if this has not been done
    /// yet, doing nothing otherwise. Returns the state data that is needed to do
    /// so.
    pub fn begin_init(&mut self) -> (r: Option<U>)
        ensures
            match old(self).view() {
                FactoryState::Uninitialized(config) => r == Some(config) && final(self).view()
                    == FactoryState::<U, S>::Initializing,
                _ => r is None && final(self).view() == old(self).view(),
            },
    {
        let mut state: FactoryState<U, S> = FactoryState::Initializing;
        std::mem::swap(&mut state, &mut self.state);
        match state {
            FactoryState::Uninitialized(config) => Some(config),
            state => {
                self.state = state;
                None
            },
        }
    }

    /// Completes the process of establishing the event subscription.
    pub fn finish_init(&mut self, state: S)
        requires
            old(self).view() is Initializing,
        ensures
            final(self).view() == FactoryState::<U, S>::Initialized(state),
    {
        self.state = FactoryState::Initialized(state);
    }

    /// Returns the state data of an initialized factory. Listeners can only be
    /// created if there is such data.
    pub fn initialized(&self) -> (r: Option<&S>)
        ensures
            match self.view() {
                FactoryState::Initialized(state) => r == Some(&state),
                _ => r is None,
            },
    {
        match &self.state {
            FactoryState::Initialized(state) => Some(state),
            _ => None,
        }
    }

    /// Returns the state data of an initialized factory in order to update it.
    pub fn initialized_mut(&mut self) -> (r: Option<&mut S>)
        ensures
            match old(self).view() {
                FactoryState::Initialized(state) => {
                    &&& r matches Some(s)
                    &&& *s == state
                    &&& final(self).view() == FactoryState::<U, S>::Initialized(*final(s))
                },
                _ => r is None && final(self).view() == old(self).view(),
            },
    {
        match &mut self.state {
            FactoryState::Initialized(state) => Some(state),
            _ => None,
        }
    }

    /// Consumes this factory, returning its state data if the factory was
    /// initialized.
    pub fn consume(self) -> (r: Option<S>)
        ensures
            match self.view() {
                FactoryState::Initialized(state) => r == Some(state),
                _ => r is None,
            },
    {
        match self.state {
            FactoryState::Initialized(state) => Some(state),
            _ => None,
        }
    }
}

// FUNCTIONS *******************************************************************

/// Interprets the result of changing the event subscription.
pub fn subscribe_result(result: Result<bool, OperationState>) -> (r: Result<(), Code>)
    ensures
        match result {
            Ok(true) => r == Ok::<(), Code>(()),
            Ok(false) => r == Err::<(), Code>(Code::BadState),
            Err(_) => r == Err::<(), Code>(Code::Killed),
        },
{
    match result {
        Ok(success) => if success {
            Ok(())
        } else {
            Err(Code::BadState)
        },
        Err(_) => Err(Code::Killed),
    }
}

/// Wraps the metadata of a sink that was looked up.
pub fn resolve_sink(result: Result<OwnedSinkInfo, Code>) -> (r: Result<ChangeEntity, Code>)
    ensures
        match result {
            Ok(info) => r == Ok::<ChangeEntity, Code>(ChangeEntity::Sink(AudioEntity::Info(info))),
            Err(e) => r == Err::<ChangeEntity, Code>(e),
        },
{
    match result {
        Ok(info) => Ok(ChangeEntity::Sink(AudioEntity::Info(info))),
        Err(e) => Err(e),
    }
}

/// Wraps the metadata of a sink input that was looked up.
pub fn resolve_sink_input(result: Result<OwnedSinkInputInfo, Code>) -> (r: Result<
    ChangeEntity,
    Code,
>)
    ensures
        match result {
            Ok(info) => r == Ok::<ChangeEntity, Code>(
                ChangeEntity::SinkInput(AudioEntity::Info(info)),
            ),
            Err(e) => r == Err::<ChangeEntity, Code>(e),
        },
{
    match result {
        Ok(info) => Ok(ChangeEntity::SinkInput(AudioEntity::Info(info))),
        Err(e) => Err(e),
    }
}

/// Converts a [`RawChangeEvent`] into a [`ChangeEvent`] that is more easily
/// consumed by event listeners, given the result of looking up the metadata
/// determined by [`RawChangeEvent::required_lookup`].
pub fn resolve_event(event: &RawChangeEvent, looked_up: Option<Result<ChangeEntity, Code>>) -> (r:
    Result<ChangeEvent<ChangeEntity>, ResolveError>)
    requires
        event.lookup() is Nothing <==> looked_up is None,
    ensures
        match looked_up {
            Some(Ok(entity)) => r == Ok::<ChangeEvent<ChangeEntity>, ResolveError>(
                ChangeEvent::of(event.change, entity),
            ),
            Some(Err(e)) => r matches Err(ResolveError::LookupError(err)) && err.spec_code() == e
                && err.spec_raw_event() == ChangeEvent::of(event.change, event.raw_entity()),
            None => if event.supported() {
                r == Ok::<ChangeEvent<ChangeEntity>, ResolveError>(
                    ChangeEvent::of(event.change, event.raw_entity()),
                )
            } else {
                r == Err::<ChangeEvent<ChangeEntity>, ResolveError>(
                    ResolveError::UnsupportedFacility(event.facility, event.index),
                )
            },
        },
{
    match looked_up {
        Some(Ok(entity)) => Ok(ChangeEvent::from_change_entity(event.change, entity)),
        Some(Err(e)) => match event.to_entity() {
            Ok(raw_entity) => Err(
                ResolveError::LookupError(
                    LookupError::new(e, ChangeEvent::from_change_entity(event.change, raw_entity)),
                ),
            ),
            Err(_) => Err(event.unsupported()),
        },
        None => match event.to_entity() {
            Ok(raw_entity) => Ok(ChangeEvent::from_change_entity(event.change, raw_entity)),
            Err(_) => Err(event.unsupported()),
        },
    }
}

/// Determines what to broadcast to event listeners after an event was resolved.
/// Events of unsupported entity types are skipped.
pub fn to_broadcast(resolved: Result<ChangeEvent<ChangeEntity>, ResolveError>) -> (r: Option<
    Result<ChangeEvent<ChangeEntity>, LookupError<ChangeEntity>>,
>)
    ensures
        r == (match resolved {
            Ok(event) => Some(Ok::<ChangeEvent<ChangeEntity>, LookupError<ChangeEntity>>(event)),
            Err(ResolveError::LookupError(e)) => Some(
                Err::<ChangeEvent<ChangeEntity>, LookupError<ChangeEntity>>(e),
            ),
            Err(ResolveError::UnsupportedFacility(..)) => None,
        }),
{
    match resolved {
        Ok(event) => Some(Ok(event)),
        Err(ResolveError::LookupError(e)) => Some(Err(e)),
        Err(ResolveError::UnsupportedFacility(..)) => None,
    }
}

// LAWS ************************************************************************

/// The notification of every change to a supported entity reaches the listeners,
/// whether its metadata can be looked up or not, with the type of change that
/// the server reported.
pub proof fn law_supported_events_reach_listeners(
    event: RawChangeEvent,
    looked_up: Option<Result<ChangeEntity, Code>>,
    resolved: Result<ChangeEvent<ChangeEntity>, ResolveError>,
)
    requires
        event.supported(),
        event.lookup() is Nothing <==> looked_up is None,
        call_ensures(resolve_event, (&event, looked_up), resolved),
    ensures
        match resolved {
            Ok(e) => e.change() == event.change,
            Err(ResolveError::LookupError(e)) => e.spec_raw_event().change() == event.change
                && e.spec_raw_event().spec_entity().spec_index_of() == event.index,
            Err(ResolveError::UnsupportedFacility(..)) => false,
        },
{
}

} // verus!
