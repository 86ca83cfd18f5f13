//! Abstractions for handling entity status changes received from the
//! PulseAudio server.
//!
//! PulseAudio's capacity to notify applications when and how the audio graph
//! changes is rather simplistic, only providing the entity's type, index, and
//! whether it was added, changed, or removed. This module, its submodules, and
//! its types provide a more thorough event notification system that provides
//! additional entity metadata (if possible) on top of the existing information.

pub mod error;
pub mod factory;
pub mod laws;
pub mod listen;

use vstd::prelude::*;

use crate::snd::pulse::owned::{OwnedSinkInfo, OwnedSinkInputInfo};
use crate::util::fmt::Describe;
use crate::util::text;

verus! {

// TYPE DEFINITIONS ************************************************************

/// Types of entities in the audio graph.
#[derive(Debug, Clone, Copy, PartialEq, Eq, Structural)]
pub enum Facility {
    Sink,
    Source,
    SinkInput,
    SourceOutput,
    Module,
    Client,
    SampleCache,
    Server,
    Card,
}

/// Ways in which entities in the audio graph change.
#[derive(Debug, Clone, Copy, PartialEq, Eq, Structural)]
pub enum FacilityOperation {
    /// A new entity was created.
    New,

    /// A property of an entity changed.
    Changed,

    /// An entity was removed.
    Removed,
}

/// Interface for entity info/metadata types for audio graph entities that
/// PulseAudio can notify about.
pub trait EntityInfo: Sized {
    /// The server index of the entity.
    spec fn entity_index(&self) -> u32;

    /// The entity of this type that the given entity wraps, if any.
    spec fn unwrapped(change_entity: ChangeEntity) -> Option<AudioEntity<Self>>;

    /// The type of audio graph entities that this type describes.
    spec fn entity_type() -> Facility;

    /// Unwraps an [`AudioEntity`] from the given [`ChangeEntity`] if it wraps
    /// an entity of this type.
    fn from_change_entity(change_entity: ChangeEntity) -> (r: Option<AudioEntity<Self>>)
        ensures
            r == Self::unwrapped(change_entity),
    ;

    /// The server index of the entity referred to by this info instance.
    fn index(&self) -> (r: u32)
        ensures
            r == self.entity_index(),
    ;

    /// Gets the [`Facility`] representation of this type.
    fn to_entity_type() -> (r: Facility)
        ensures
            r == Self::entity_type(),
    ;
}

/// Representation of an audio entity as either a full set of metadata or just
/// an index.
#[derive(Debug)]
pub enum AudioEntity<I> {
    /// The entity's full metadata.
    Info(I),

    /// An index referring to the entity's server index.
    Index(u32),
}

/// Wrapper type for all possible audio graph entity types that the `event`
/// module can handle.
#[derive(Debug)]
pub enum ChangeEntity {
    Sink(AudioEntity<OwnedSinkInfo>),
    SinkInput(AudioEntity<OwnedSinkInputInfo>),
}

/// Root event type sent to event listeners, indicating the type of change that
/// occurred to the given audio graph entity.
#[derive(Debug)]
pub enum ChangeEvent<E> {
    New(E),
    Changed(E),
    Removed(E),
}

// MODELS **********************************************************************

impl Facility {
    /// The name of this type of entities.
    pub open spec fn name_spec(self) -> Seq<char> {
        match self {
            Facility::Sink => "Sink"@,
            Facility::Source => "Source"@,
            Facility::SinkInput => "SinkInput"@,
            Facility::SourceOutput => "SourceOutput"@,
            Facility::Module => "Module"@,
            Facility::Client => "Client"@,
            Facility::SampleCache => "SampleCache"@,
            Facility::Server => "Server"@,
            Facility::Card => "Card"@,
        }
    }
}

/// How an entity of the given type is shown to the user.
pub open spec fn entity_text(facility: Facility, index: u32) -> Seq<char> {
    facility.name_spec() + " (index "@ + text::decimal(index as nat) + ")"@
}

impl<I: EntityInfo> AudioEntity<I> {
    /// The server index of the wrapped entity.
    pub open spec fn spec_index_of(self) -> u32 {
        match self {
            AudioEntity::Info(info) => info.entity_index(),
            AudioEntity::Index(index) => index,
        }
    }
}

impl ChangeEntity {
    /// The server index of the wrapped entity.
    pub open spec fn spec_index_of(self) -> u32 {
        match self {
            ChangeEntity::Sink(sink) => sink.spec_index_of(),
            ChangeEntity::SinkInput(sink_input) => sink_input.spec_index_of(),
        }
    }

    /// The type of the wrapped entity.
    pub open spec fn spec_facility(self) -> Facility {
        match self {
            ChangeEntity::Sink(_) => Facility::Sink,
            ChangeEntity::SinkInput(_) => Facility::SinkInput,
        }
    }
}

impl<E> ChangeEvent<E> {
    /// The entity affected by this event.
    pub open spec fn spec_entity(self) -> E {
        match self {
            ChangeEvent::New(entity) => entity,
            ChangeEvent::Changed(entity) => entity,
            ChangeEvent::Removed(entity) => entity,
        }
    }

    /// The type of change that occurred.
    pub open spec fn change(self) -> FacilityOperation {
        match self {
            ChangeEvent::New(_) => FacilityOperation::New,
            ChangeEvent::Changed(_) => FacilityOperation::Changed,
            ChangeEvent::Removed(_) => FacilityOperation::Removed,
        }
    }

    /// The event that represents the given type of change to the given entity.
    pub open spec fn of(change: FacilityOperation, entity: E) -> ChangeEvent<E> {
        match change {
            FacilityOperation::New => ChangeEvent::New(entity),
            FacilityOperation::Changed => ChangeEvent::Changed(entity),
            FacilityOperation::Removed => ChangeEvent::Removed(entity),
        }
    }

    /// The name of the type of change that occurred.
    pub open spec fn name_spec(self) -> Seq<char> {
        match self {
            ChangeEvent::New(_) => "New"@,
            ChangeEvent::Changed(_) => "Changed"@,
            ChangeEvent::Removed(_) => "Removed"@,
        }
    }
}

/// The event that wraps an entity of the specified type, if that is what the
/// given event wraps.
pub open spec fn unwrapped_event<I: EntityInfo>(event: ChangeEvent<ChangeEntity>) -> Option<
    ChangeEvent<AudioEntity<I>>,
> {
    match I::unwrapped(event.spec_entity()) {
        Some(entity) => Some(ChangeEvent::of(event.change(), entity)),
        None => None,
    }
}

// TYPE IMPLS ******************************************************************

impl Facility {
    /// Returns the name of this type of entities.
    pub fn name(&self) -> (r: &'static str)
        ensures
            r@ == self.name_spec(),
    {
        match self {
            Facility::Sink => "Sink",
            Facility::Source => "Source",
            Facility::SinkInput => "SinkInput",
            Facility::SourceOutput => "SourceOutput",
            Facility::Module => "Module",
            Facility::Client => "Client",
            Facility::SampleCache => "SampleCache",
            Facility::Server => "Server",
            Facility::Card => "Card",
        }
    }
}

impl<I: EntityInfo> AudioEntity<I> {
    /// Gets the server index for the wrapped entity.
    pub fn index(&self) -> (r: u32)
        ensures
            r == self.spec_index_of(),
    {
        match self {
            AudioEntity::Info(info) => info.index(),
            AudioEntity::Index(idx) => *idx,
        }
    }
}

impl ChangeEntity {
    /// Gets the server index for the wrapped entity.
    pub fn index(&self) -> (r: u32)
        ensures
            r == self.spec_index_of(),
    {
        match self {
            ChangeEntity::Sink(sink) => sink.index(),
            ChangeEntity::SinkInput(sink_input) => sink_input.index(),
        }
    }

    /// Gets the type of the wrapped audio graph entity as a [`Facility`].
    pub fn facility(&self) -> (r: Facility)
        ensures
            r == self.spec_facility(),
    {
        match self {
            ChangeEntity::Sink(_) => Facility::Sink,
            ChangeEntity::SinkInput(_) => Facility::SinkInput,
        }
    }
}

impl<E> ChangeEvent<E> {
    /// Returns a human-readable name for the type of change that occurred.
    pub fn name(&self) -> (r: &'static str)
        ensures
            r@ == self.name_spec(),
    {
        match self {
            ChangeEvent::New(_) => "New",
            ChangeEvent::Changed(_) => "Changed",
            ChangeEvent::Removed(_) => "Removed",
        }
    }

    /// Returns a reference to the underlying entity affected by this event.
    pub fn entity(&self) -> (r: &E)
        ensures
            *r == self.spec_entity(),
    {
        match self {
            ChangeEvent::New(entity) => entity,
            ChangeEvent::Changed(entity) => entity,
            ChangeEvent::Removed(entity) => entity,
        }
    }

    /// Maps the entity affected by this event according to the given map
    /// function, while preserving the `ChangeEvent` enum variant.
    pub fn map<T, F: FnOnce(E) -> T>(self, op: F) -> (r: ChangeEvent<T>)
        requires
            call_requires(op, (self.spec_entity(),)),
        ensures
            r.change() == self.change(),
            call_ensures(op, (self.spec_entity(),), r.spec_entity()),
    {
        match self {
            ChangeEvent::New(entity) => ChangeEvent::New(op(entity)),
            ChangeEvent::Changed(entity) => ChangeEvent::Changed(op(entity)),
            ChangeEvent::Removed(entity) => ChangeEvent::Removed(op(entity)),
        }
    }
}

impl<E> ChangeEvent<Option<E>> {
    /// Converts a `ChangeEvent<Option<E>>` to an `Option<ChangeEvent<E>>`.
    pub fn transpose(self) -> (r: Option<ChangeEvent<E>>)
        ensures
            match self.spec_entity() {
                Some(entity) => r == Some(ChangeEvent::of(self.change(), entity)),
                None => r is None,
            },
    {
        match self {
            ChangeEvent::New(None) | ChangeEvent::Changed(None) | ChangeEvent::Removed(None) => None,
            ChangeEvent::New(Some(entity)) => Some(ChangeEvent::New(entity)),
            ChangeEvent::Changed(Some(entity)) => Some(ChangeEvent::Changed(entity)),
            ChangeEvent::Removed(Some(entity)) => Some(ChangeEvent::Removed(entity)),
        }
    }
}

impl ChangeEvent<ChangeEntity> {
    /// Wraps a `ChangeEntity` in a change event with the given change type.
    pub fn from_change_entity(change: FacilityOperation, entity: ChangeEntity) -> (r: Self)
        ensures
            r == ChangeEvent::of(change, entity),
    {
        match change {
            FacilityOperation::New => ChangeEvent::New(entity),
            FacilityOperation::Changed => ChangeEvent::Changed(entity),
            FacilityOperation::Removed => ChangeEvent::Removed(entity),
        }
    }

    /// Attempts to unwrap the inner [`ChangeEntity`] into a `ChangeEvent`
    /// directly wrapping the specified audio graph entity type, returning
    /// `None` if the wrapped entity is not of the requested type.
    pub fn try_unwrap<I: EntityInfo>(self) -> (r: Option<ChangeEvent<AudioEntity<I>>>)
        ensures
            r == unwrapped_event::<I>(self),
    {
        let unwrapped = |entity: ChangeEntity| -> (r: Option<AudioEntity<I>>)
            ensures
                r == I::unwrapped(entity),
        {
            I::from_change_entity(entity)
        };
        self.map(unwrapped).transpose()
    }
}

// TRAIT IMPLS *****************************************************************

impl<I: Clone> Clone for AudioEntity<I> {
    fn clone(&self) -> (r: Self)
        ensures
            match *self {
                AudioEntity::Info(info) => r matches AudioEntity::Info(i) && cloned(info, i),
                AudioEntity::Index(index) => r == AudioEntity::<I>::Index(index),
            },
    {
        match self {
            AudioEntity::Info(info) => AudioEntity::Info(info.clone()),
            AudioEntity::Index(index) => AudioEntity::Index(*index),
        }
    }
}

impl Clone for ChangeEntity {
    fn clone(&self) -> (r: Self)
        ensures
            match *self {
                ChangeEntity::Sink(entity) => r matches ChangeEntity::Sink(e) && cloned(entity, e),
                ChangeEntity::SinkInput(entity) => r matches ChangeEntity::SinkInput(e) && cloned(
                    entity,
                    e,
                ),
            },
    {
        match self {
            ChangeEntity::Sink(entity) => ChangeEntity::Sink(entity.clone()),
            ChangeEntity::SinkInput(entity) => ChangeEntity::SinkInput(entity.clone()),
        }
    }
}

impl<E: Clone> Clone for ChangeEvent<E> {
    fn clone(&self) -> (r: Self)
        ensures
            r.change() == self.change(),
            cloned(self.spec_entity(), r.spec_entity()),
    {
        match self {
            ChangeEvent::New(entity) => ChangeEvent::New(entity.clone()),
            ChangeEvent::Changed(entity) => ChangeEvent::Changed(entity.clone()),
            ChangeEvent::Removed(entity) => ChangeEvent::Removed(entity.clone()),
        }
    }
}

impl vstd::std_specs::convert::FromSpecImpl<OwnedSinkInfo> for ChangeEntity {
    open spec fn obeys_from_spec() -> bool {
        true
    }

    open spec fn from_spec(info: OwnedSinkInfo) -> ChangeEntity {
        ChangeEntity::Sink(AudioEntity::Info(info))
    }
}

impl From<OwnedSinkInfo> for ChangeEntity {
    fn from(info: OwnedSinkInfo) -> (r: Self) {
        ChangeEntity::Sink(AudioEntity::Info(info))
    }
}

impl vstd::std_specs::convert::FromSpecImpl<OwnedSinkInputInfo> for ChangeEntity {
    open spec fn obeys_from_spec() -> bool {
        true
    }

    open spec fn from_spec(info: OwnedSinkInputInfo) -> ChangeEntity {
        ChangeEntity::SinkInput(AudioEntity::Info(info))
    }
}

impl From<OwnedSinkInputInfo> for ChangeEntity {
    fn from(info: OwnedSinkInputInfo) -> (r: Self) {
        ChangeEntity::SinkInput(AudioEntity::Info(info))
    }
}

impl EntityInfo for OwnedSinkInfo {
    open spec fn entity_index(&self) -> u32 {
        self.index
    }

    open spec fn unwrapped(change_entity: ChangeEntity) -> Option<AudioEntity<Self>> {
        match change_entity {
            ChangeEntity::Sink(entity) => Some(entity),
            ChangeEntity::SinkInput(_) => None,
        }
    }

    open spec fn entity_type() -> Facility {
        Facility::Sink
    }

    fn from_change_entity(change_entity: ChangeEntity) -> (r: Option<AudioEntity<Self>>) {
        match change_entity {
            ChangeEntity::Sink(entity) => Some(entity),
            ChangeEntity::SinkInput(_) => None,
        }
    }

    fn index(&self) -> (r: u32) {
        self.index
    }

    fn to_entity_type() -> (r: Facility) {
        Facility::Sink
    }
}

impl EntityInfo for OwnedSinkInputInfo {
    open spec fn entity_index(&self) -> u32 {
        self.index
    }

    open spec fn unwrapped(change_entity: ChangeEntity) -> Option<AudioEntity<Self>> {
        match change_entity {
            ChangeEntity::Sink(_) => None,
            ChangeEntity::SinkInput(entity) => Some(entity),
        }
    }

    open spec fn entity_type() -> Facility {
        Facility::SinkInput
    }

    fn from_change_entity(change_entity: ChangeEntity) -> (r: Option<AudioEntity<Self>>) {
        match change_entity {
            ChangeEntity::Sink(_) => None,
            ChangeEntity::SinkInput(entity) => Some(entity),
        }
    }

    fn index(&self) -> (r: u32) {
        self.index
    }

    fn to_entity_type() -> (r: Facility) {
        Facility::SinkInput
    }
}

impl Describe for ChangeEntity {
    open spec fn described(&self) -> Seq<char> {
        entity_text(self.spec_facility(), self.spec_index_of())
    }

    fn describe(&self) -> (r: String) {
        describe_entity(self.facility(), self.index())
    }
}

impl<I: EntityInfo> Describe for AudioEntity<I> {
    open spec fn described(&self) -> Seq<char> {
        entity_text(I::entity_type(), self.spec_index_of())
    }

    fn describe(&self) -> (r: String) {
        describe_entity(I::to_entity_type(), self.index())
    }
}

impl<E: Describe> Describe for ChangeEvent<E> {
    open spec fn described(&self) -> Seq<char> {
        self.name_spec() + " "@ + self.spec_entity().described()
    }

    fn describe(&self) -> (r: String) {
        let mut r = self.name().to_owned();
        r.append(" ");
        r.append(self.entity().describe().as_str());
        r
    }
}

// HELPER FUNCTIONS ************************************************************

/// Renders the type of an entity followed by its index.
fn describe_entity(facility: Facility, index: u32) -> (r: String)
    ensures
        r@ == entity_text(facility, index),
{
    let mut r = facility.name().to_owned();
    r.append(" (index ");
    r.append(text::decimal_string(index as u64).as_str());
    r.append(")");
    r
}

// LAWS ************************************************************************

/// An event is determined by its type of change and the affected entity.
pub proof fn law_event_parts<E>(event: ChangeEvent<E>)
    ensures
        ChangeEvent::of(event.change(), event.spec_entity()) == event,
{
}

/// Wrapping the metadata of a sink and unwrapping it as that of a sink gives it
/// back; unwrapping it as that of a sink input fails.
pub proof fn law_sink_unwraps(change: FacilityOperation, entity: AudioEntity<OwnedSinkInfo>)
    ensures
        unwrapped_event::<OwnedSinkInfo>(
            ChangeEvent::of(change, ChangeEntity::Sink(entity)),
        ) == Some(ChangeEvent::of(change, entity)),
        unwrapped_event::<OwnedSinkInputInfo>(
            ChangeEvent::of(change, ChangeEntity::Sink(entity)),
        ) is None,
{
}

/// Wrapping the metadata of a sink input and unwrapping it as that of a sink
/// input gives it back; unwrapping it as that of a sink fails.
pub proof fn law_sink_input_unwraps(
    change: FacilityOperation,
    entity: AudioEntity<OwnedSinkInputInfo>,
)
    ensures
        unwrapped_event::<OwnedSinkInputInfo>(
            ChangeEvent::of(change, ChangeEntity::SinkInput(entity)),
        ) == Some(ChangeEvent::of(change, entity)),
        unwrapped_event::<OwnedSinkInfo>(
            ChangeEvent::of(change, ChangeEntity::SinkInput(entity)),
        ) is None,
{
}

} // verus!
