//! Listener types for consuming audio graph change events from the PulseAudio
//! server.

use vstd::prelude::*;

use super::error::{ChannelError, EventListenerError, LookupError};
use super::{AudioEntity, ChangeEntity, ChangeEvent, EntityInfo};

verus! {

// TYPE DEFINITIONS ************************************************************

/// Events as they are received from the event handler task.
pub type Received = Result<
    Result<ChangeEvent<ChangeEntity>, LookupError<ChangeEntity>>,
    ChannelError,
>;

/// Events as they are returned by event listeners.
pub type Listened<I> = Result<ChangeEvent<AudioEntity<I>>, EventListenerError<AudioEntity<I>>>;

/// Basic event listener implementation that has a single owner.
///
/// The entities that already exist when the listener is created are reported as
/// new before any event is received.
#[derive(Debug)]
pub struct OwnedEventListener<I> {
    existing: Vec<I>,
}

/// What an event listener does in order to return the next event.
#[derive(Debug)]
pub enum NextStep<I> {
    /// Return the given event.
    Heard(Listened<I>),

    /// Receive an event from the event handler task.
    Receive,
}

// MODELS **********************************************************************

/// Whether `listened` is what a listener makes of the event `received`, where
/// `None` means that the listener continues to wait for events.
pub open spec fn heard<I: EntityInfo>(received: Received, listened: Option<Listened<I>>) -> bool {
    match received {
        Ok(Ok(event)) => match super::unwrapped_event::<I>(event) {
            Some(event) => listened == Some::<Listened<I>>(Ok(event)),
            None => listened is None,
        },
        Ok(Err(e)) => match super::unwrapped_event::<I>(e.spec_raw_event()) {
            Some(raw_event) => {
                &&& listened matches Some(Err(EventListenerError::LookupError(err)))
                &&& err.spec_code() == e.spec_code()
                &&& err.spec_raw_event() == raw_event
            },
            None => listened is None,
        },
        Err(e) => listened == Some::<Listened<I>>(Err(EventListenerError::ChannelError(e))),
    }
}

// TYPE IMPLS ******************************************************************

impl<I: EntityInfo> OwnedEventListener<I> {
    /// The existing entities that have not been reported yet, the next one last.
    pub closed spec fn existing(&self) -> Seq<I> {
        self.existing@
    }

    /// Creates a new event listener concerned with audio entities of the given
    /// type, populating the initial set of notifications with the current set
    /// of entities present in the audio graph.
    ///
    /// The existing entities have to be looked up after the listener can receive
    /// events. This ensures that entities that may be created in the meantime
    /// are caught by at least one of the entity lookup or the subscription.
    pub fn new(existing: Vec<I>) -> (r: Self)
        ensures
            r.existing() == existing@,
    {
        OwnedEventListener { existing }
    }

    /// Determines how to obtain the next event. The entities that already existed
    /// when the listener was created come first. Once all of them have been
    /// reported, events have to be received.
    pub fn next(&mut self) -> (r: NextStep<I>)
        ensures
            if old(self).existing().len() > 0 {
                &&& r == NextStep::Heard(
                    Ok(ChangeEvent::New(AudioEntity::Info(old(self).existing().last()))),
                )
                &&& final(self).existing() == old(self).existing().drop_last()
            } else {
                &&& r is Receive
                &&& final(self).existing() == old(self).existing()
            },
    {
        match self.existing.pop() {
            Some(info) => NextStep::Heard(Ok(ChangeEvent::New(AudioEntity::Info(info)))),
            None => NextStep::Receive,
        }
    }

    /// Determines what to do with an event received from the event handler task:
    /// events concerning entities of other types are skipped.
    pub fn receive(received: Received) -> (r: Option<Listened<I>>)
        ensures
            heard::<I>(received, r),
    {
        match received {
            Ok(Ok(event)) => match event.try_unwrap::<I>() {
                Some(event) => Some(Ok(event)),
                None => None,
            },
            Ok(Err(e)) => match e.try_map_entity::<I>() {
                Some(e) => Some(Err(EventListenerError::LookupError(e))),
                None => None,
            },
            Err(e) => Some(Err(EventListenerError::ChannelError(e))),
        }
    }

    /// Determines what to do with an event received from the event handler task
    /// while ignoring any dropped messages due to the listener lagging.
    pub fn receive_ignore_lag(received: Received) -> (r: Option<Listened<I>>)
        ensures
            match received {
                Err(ChannelError::Lagged(_)) => r is None,
                _ => heard::<I>(received, r),
            },
    {
        match received {
            Err(ChannelError::Lagged(_)) => None,
            received => Self::receive(received),
        }
    }
}

// FUNCTIONS *******************************************************************

/// Core logic for applying the filter + map operation: events are replaced by what
/// the operation makes of them, if anything. Failed lookups are dropped unless the
/// operation accepts the event that could not be resolved. Other errors are not
/// subject to the operation.
pub fn do_filter_map<I: Clone, T, F: Fn(ChangeEvent<AudioEntity<I>>) -> Option<T>>(
    event: Listened<I>,
    filter_map: &F,
) -> (r: Option<Result<T, EventListenerError<AudioEntity<I>>>>)
    requires
        forall|e: ChangeEvent<AudioEntity<I>>| call_requires(filter_map, (e,)),
    ensures
        match event {
            Ok(e) => exists|mapped: Option<T>|
                {
                    &&& #[trigger] call_ensures(filter_map, (e,), mapped)
                    &&& r == (match mapped {
                        Some(value) => Some(
                            Ok::<T, EventListenerError<AudioEntity<I>>>(value),
                        ),
                        None => None,
                    })
                },
            Err(EventListenerError::LookupError(e)) => exists|
                raw_event: ChangeEvent<AudioEntity<I>>,
                mapped: Option<T>,
            |
                {
                    &&& cloned(e.spec_raw_event(), raw_event)
                    &&& #[trigger] call_ensures(filter_map, (raw_event,), mapped)
                    &&& r == (match mapped {
                        Some(_) => Some(
                            Err::<T, EventListenerError<AudioEntity<I>>>(
                                EventListenerError::LookupError(e),
                            ),
                        ),
                        None => None,
                    })
                },
            Err(EventListenerError::ChannelError(e)) => r == Some(
                Err::<T, EventListenerError<AudioEntity<I>>>(EventListenerError::ChannelError(e)),
            ),
        },
{
    match event {
        Ok(event) => match filter_map(event) {
            Some(value) => Some(Ok(value)),
            None => None,
        },
        Err(EventListenerError::LookupError(e)) => match filter_map(e.raw_event().clone()) {
            Some(_) => Some(Err(EventListenerError::LookupError(e))),
            None => None,
        },
        Err(EventListenerError::ChannelError(e)) => Some(
            Err(EventListenerError::ChannelError(e)),
        ),
    }
}

// LAWS ************************************************************************

/// Listeners never miss that the event handler task has terminated.
pub proof fn law_closed_is_heard<I: EntityInfo>(listened: Option<Listened<I>>)
    requires
        call_ensures(
            OwnedEventListener::<I>::receive_ignore_lag,
            (Err(ChannelError::Closed),),
            listened,
        ),
    ensures
        listened == Some::<Listened<I>>(Err(EventListenerError::ChannelError(ChannelError::Closed))),
{
}

/// Whether a listener with the given existing entities returns the given events
/// one after the other if it receives the given events in the meantime.
pub open spec fn listens<I: EntityInfo>(
    existing: Seq<I>,
    received: Seq<Received>,
    results: Seq<Listened<I>>,
) -> bool
    decreases existing.len() + received.len(),
{
    if results.len() == 0 {
        true
    } else if existing.len() > 0 {
        &&& results[0] == Ok::<_, EventListenerError<AudioEntity<I>>>(
            ChangeEvent::New(AudioEntity::Info(existing.last())),
        )
        &&& listens(existing.drop_last(), received, results.skip(1))
    } else if received.len() > 0 {
        ||| heard::<I>(received[0], None) && listens(existing, received.skip(1), results)
        ||| heard::<I>(received[0], Some(results[0])) && listens(
            existing,
            received.skip(1),
            results.skip(1),
        )
    } else {
        false
    }
}

/// Each time that the next event is obtained, the listener proceeds as
/// [`listens`] describes: if the events that follow do, then so do these events
/// preceded by the one that was obtained.
pub proof fn law_next_is_listening<I: EntityInfo>(
    received: Seq<Received>,
    results: Seq<Listened<I>>,
)
    ensures
        forall|listener: &mut OwnedEventListener<I>, step: NextStep<I>| #[trigger]
            call_ensures(OwnedEventListener::<I>::next, (listener,), step) ==> match step {
                NextStep::Heard(event) => listens(
                    final(listener).existing(),
                    received,
                    results,
                ) ==> listens(listener.existing(), received, seq![event] + results),
                NextStep::Receive => listener.existing().len() == 0,
            },
        forall|event: Option<Listened<I>>|
            received.len() > 0 && #[trigger] call_ensures(
                OwnedEventListener::<I>::receive,
                (received[0],),
                event,
            ) ==> match event {
                Some(event) => listens(Seq::<I>::empty(), received.skip(1), results) ==> listens(
                    Seq::<I>::empty(),
                    received,
                    seq![event] + results,
                ),
                None => listens(Seq::<I>::empty(), received.skip(1), results) ==> listens(
                    Seq::<I>::empty(),
                    received,
                    results,
                ),
            },
{
    assert forall|event: Listened<I>| (#[trigger] (seq![event] + results)).skip(1) == results by {
        assert((seq![event] + results).skip(1) =~= results);
    }
}

/// A listener reports every entity that already existed when it was created as
/// new, exactly once and before anything else. The event after that is the first
/// one it receives that concerns entities of the right type, or an error of the
/// channel that is met before that.
pub proof fn law_existing_come_first<I: EntityInfo>(
    existing: Seq<I>,
    received: Seq<Received>,
    results: Seq<Listened<I>>,
)
    requires
        listens(existing, received, results),
        results.len() == existing.len() + 1,
    ensures
        forall|i: int|
            0 <= i < existing.len() ==> #[trigger] results[existing.len() - 1 - i] == Ok::<
                _,
                EventListenerError<AudioEntity<I>>,
            >(ChangeEvent::New(AudioEntity::Info(existing[i]))),
        exists|m: int|
            {
                &&& 0 <= m < received.len()
                &&& heard::<I>(#[trigger] received[m], Some(results.last()))
                &&& forall|i: int| 0 <= i < m ==> heard::<I>(#[trigger] received[i], None)
            },
    decreases existing.len() + received.len(),
{
    if existing.len() > 0 {
        let rest = results.skip(1);
        let fewer = existing.drop_last();
        law_existing_come_first(fewer, received, rest);
        assert forall|i: int| 0 <= i < existing.len() implies #[trigger] results[existing.len() - 1
            - i] == Ok::<_, EventListenerError<AudioEntity<I>>>(
            ChangeEvent::New(AudioEntity::Info(existing[i])),
        ) by {
            if i < fewer.len() {
                assert(rest[fewer.len() - 1 - i] == results[existing.len() - 1 - i]);
            }
        }
        assert(rest.last() == results.last());
    } else if heard::<I>(received[0], None) && listens(existing, received.skip(1), results) {
        let later = received.skip(1);
        law_existing_come_first(existing, later, results);
        let m = choose|m: int|
            {
                &&& 0 <= m < later.len()
                &&& heard::<I>(#[trigger] later[m], Some(results.last()))
                &&& forall|i: int| 0 <= i < m ==> heard::<I>(#[trigger] later[i], None)
            };
        assert(received[m + 1] == later[m]);
        assert forall|i: int| 0 <= i < m + 1 implies heard::<I>(#[trigger] received[i], None) by {
            if i > 0 {
                assert(later[i - 1] == received[i]);
            }
        }
    } else {
        assert(results[0] == results.last());
        assert(heard::<I>(received[0], Some(results.last())));
    }
}

} // verus!
