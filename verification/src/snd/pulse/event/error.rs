//! Error types used internally and externally by the PulseAudio event handler.

use vstd::prelude::*;

use crate::snd::pulse::error::Code;
use crate::util::fmt::Describe;
use crate::util::text;

use super::{AudioEntity, ChangeEntity, ChangeEvent, EntityInfo, Facility};

verus! {

// TYPE DEFINITIONS ************************************************************

/// Enum representing theoretical (albeit unlikely) error cases where the server
/// fails to provide mandatory event information.
#[derive(Clone, Copy, Debug, PartialEq, Eq, Structural)]
pub enum MissingEventField {
    /// The event had a null audio graph entity type.
    Facility,

    /// The event had a null change type.
    ChangeType,
}

/// Error type returned when the event handler fails to look up the full
/// metadata for an audio graph entity when it might otherwise be expected to.
/// The raw event (without metadata) can be fetched from the error using
/// [`Self::raw_event`].
#[derive(Debug)]
pub struct LookupError<E> {
    error: Code,
    raw_event: ChangeEvent<E>,
}

/// Error type returned when the event handler failed to resolve an event into
/// entity metadata.
#[derive(Debug)]
pub enum ResolveError {
    /// The event handler code doesn't support resolving audio graph entities
    /// of the given type. The index of the entity in question is also provided.
    UnsupportedFacility(Facility, u32),

    /// The event handler failed to look up the entity metadata due to a
    /// runtime error.
    LookupError(LookupError<ChangeEntity>),
}

/// Reasons for which no event could be received from the event handler task.
#[derive(Clone, Copy, Debug, PartialEq, Eq, Structural)]
pub enum ChannelError {
    /// The event handler task has terminated.
    Closed,

    /// The listener was too slow, so that the given number of events was lost.
    Lagged(u64),
}

/// Types of errors that can be returned by an event listener.
#[derive(Debug)]
pub enum EventListenerError<E> {
    /// The event handler failed to look up the entity metadata due to a
    /// runtime error.
    LookupError(LookupError<E>),

    /// A communication error occurred with the event handler task.
    ChannelError(ChannelError),
}

// TYPE IMPLS ******************************************************************

impl<E> LookupError<E> {
    /// The root cause of the error.
    pub closed spec fn spec_code(self) -> Code {
        self.error
    }

    /// The raw, unresolved event that triggered the error.
    pub closed spec fn spec_raw_event(self) -> ChangeEvent<E> {
        self.raw_event
    }

    /// Creates a new error instance from the given root cause and raw event.
    pub fn new(error: Code, raw_event: ChangeEvent<E>) -> (r: Self)
        ensures
            r.spec_code() == error,
            r.spec_raw_event() == raw_event,
    {
        LookupError { error, raw_event }
    }

    /// Gets the raw, unresolved event that triggered the error.
    pub fn raw_event(&self) -> (r: &ChangeEvent<E>)
        ensures
            *r == self.spec_raw_event(),
    {
        &self.raw_event
    }

    /// Gets the root cause of the error.
    pub fn code(&self) -> (r: Code)
        ensures
            r == self.spec_code(),
    {
        self.error
    }

    /// An error is determined by its root cause and raw event.
    pub proof fn law_parts(a: LookupError<E>, b: LookupError<E>)
        requires
            a.spec_code() == b.spec_code(),
            a.spec_raw_event() == b.spec_raw_event(),
        ensures
            a == b,
    {
    }
}

impl<E: Clone> Clone for LookupError<E> {
    fn clone(&self) -> (r: Self)
        ensures
            r.spec_code() == self.spec_code(),
            cloned(self.spec_raw_event(), r.spec_raw_event()),
    {
        LookupError { error: self.error, raw_event: self.raw_event.clone() }
    }
}

impl LookupError<ChangeEntity> {
    /// Attempts to unwrap the raw [`AudioEntity`] from the inner
    /// [`ChangeEvent`] if it matches the specified type, returning `None`
    /// otherwise.
    pub fn try_map_entity<I: EntityInfo>(self) -> (r: Option<LookupError<AudioEntity<I>>>)
        ensures
            match super::unwrapped_event::<I>(self.spec_raw_event()) {
                Some(raw_event) => r matches Some(e) && e.spec_code() == self.spec_code()
                    && e.spec_raw_event() == raw_event,
                None => r is None,
            },
    {
        match self.raw_event.try_unwrap::<I>() {
            Some(raw_event) => Some(LookupError { error: self.error, raw_event }),
            None => None,
        }
    }
}

impl<E: Describe> LookupError<E> {
    /// Renders this error, given the description of its root cause.
    pub fn message(&self, code_text: &str) -> (r: String)
        ensures
            r@ == "Lookup failure for event "@ + self.spec_raw_event().described() + ": "@
                + code_text@,
    {
        let mut r = "Lookup failure for event ".to_owned();
        r.append(self.raw_event.describe().as_str());
        r.append(": ");
        r.append(code_text);
        r
    }
}

impl ChannelError {
    /// The text that represents this error.
    pub open spec fn described(self) -> Seq<char> {
        match self {
            ChannelError::Closed => "channel closed"@,
            ChannelError::Lagged(n) => "channel lagged by "@ + text::decimal(n as nat),
        }
    }

    /// Renders this error.
    pub fn describe(&self) -> (r: String)
        ensures
            r@ == self.described(),
    {
        match self {
            ChannelError::Closed => "channel closed".to_owned(),
            ChannelError::Lagged(n) => {
                let mut r = "channel lagged by ".to_owned();
                r.append(text::decimal_string(*n).as_str());
                r
            },
        }
    }
}

impl<E: Describe> EventListenerError<E> {
    /// Renders this error, given the description of the root cause of a failed
    /// lookup.
    pub fn message(&self, code_text: &str) -> (r: String)
        ensures
            r@ == (match *self {
                EventListenerError::LookupError(e) => "Lookup failure for event "@
                    + e.spec_raw_event().described() + ": "@ + code_text@,
                EventListenerError::ChannelError(e) => "Event broadcast channel error: "@
                    + e.described(),
            }),
    {
        match self {
            EventListenerError::LookupError(e) => e.message(code_text),
            EventListenerError::ChannelError(e) => {
                let mut r = "Event broadcast channel error: ".to_owned();
                r.append(e.describe().as_str());
                r
            },
        }
    }
}

} // verus!
