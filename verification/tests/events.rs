use bardcast::snd::pulse::error::Code;
use bardcast::snd::pulse::event::error::{
    ChannelError, EventListenerError, LookupError, MissingEventField, ResolveError,
};
use bardcast::snd::pulse::event::factory::{
    resolve_event, resolve_sink, resolve_sink_input, subscribe_result, to_broadcast, EntityLookup,
    EventListenerFactory, RawChangeEvent, Subscription,
};
use bardcast::snd::pulse::event::listen::{do_filter_map, NextStep, OwnedEventListener};
use bardcast::snd::pulse::event::{
    AudioEntity, ChangeEntity, ChangeEvent, EntityInfo, Facility, FacilityOperation,
};
use bardcast::snd::pulse::context::introspect::OperationState;
use bardcast::snd::pulse::owned::{OwnedSinkInfo, OwnedSinkInputInfo};
use bardcast::util::fmt::Describe;

fn input(index: u32) -> OwnedSinkInputInfo {
    OwnedSinkInputInfo {
        index,
        name: Some("stream".to_string()),
        sink: 1,
        corked: false,
        proplist: Vec::new(),
    }
}

fn sink(index: u32) -> OwnedSinkInfo {
    OwnedSinkInfo {
        name: Some("sink".to_string()),
        index,
        owner_module: None,
        monitor_source: 9,
        monitor_source_name: None,
    }
}

fn raw(facility: Facility, change: FacilityOperation) -> RawChangeEvent {
    RawChangeEvent { facility, change, index: 5 }
}

#[test]
fn event_parts_are_accessible() {
    let event = ChangeEvent::Changed(3);
    assert_eq!(*event.entity(), 3);
    assert_eq!(event.name(), "Changed");
    assert_eq!(ChangeEvent::New(0).name(), "New");
    assert_eq!(ChangeEvent::Removed(0).name(), "Removed");
    assert!(matches!(event.map(|n: i32| n + 1), ChangeEvent::Changed(4)));
}

#[test]
fn optional_entities_are_transposed() {
    assert!(matches!(ChangeEvent::New(Some(2)).transpose(), Some(ChangeEvent::New(2))));
    assert!(matches!(ChangeEvent::Removed(Some(2)).transpose(), Some(ChangeEvent::Removed(2))));
    assert!(ChangeEvent::Changed(None::<i32>).transpose().is_none());
}

#[test]
fn wrapped_entities_unwrap_as_their_type_only() {
    let event = ChangeEvent::New(ChangeEntity::from(sink(4)));
    match event.try_unwrap::<OwnedSinkInfo>() {
        Some(ChangeEvent::New(AudioEntity::Info(info))) => assert_eq!(info.index, 4),
        _ => panic!("sink expected"),
    }
    let event = ChangeEvent::New(ChangeEntity::from(sink(4)));
    assert!(event.try_unwrap::<OwnedSinkInputInfo>().is_none());
    let event = ChangeEvent::Removed(ChangeEntity::from(input(6)));
    match event.try_unwrap::<OwnedSinkInputInfo>() {
        Some(ChangeEvent::Removed(entity)) => assert_eq!(entity.index(), 6),
        _ => panic!("sink input expected"),
    }
    let event = ChangeEvent::Removed(ChangeEntity::from(input(6)));
    assert!(event.try_unwrap::<OwnedSinkInfo>().is_none());
}

#[test]
fn entities_have_index_and_type() {
    let entity = ChangeEntity::SinkInput(AudioEntity::Index(8));
    assert_eq!(entity.index(), 8);
    assert_eq!(entity.facility(), Facility::SinkInput);
    assert_eq!(entity.describe(), "SinkInput (index 8)");
    assert_eq!(ChangeEvent::New(ChangeEntity::from(sink(2))).describe(), "New Sink (index 2)");
    assert_eq!(OwnedSinkInfo::to_entity_type(), Facility::Sink);
    assert_eq!(input(3).index, EntityInfo::index(&input(3)));
    let facilities = [
        (Facility::Source, "Source"),
        (Facility::SourceOutput, "SourceOutput"),
        (Facility::Module, "Module"),
        (Facility::Client, "Client"),
        (Facility::SampleCache, "SampleCache"),
        (Facility::Server, "Server"),
        (Facility::Card, "Card"),
    ];
    for (facility, name) in facilities {
        assert_eq!(facility.name(), name);
    }
}

#[test]
fn incomplete_notifications_are_rejected() {
    let complete = RawChangeEvent::try_new(Some(Facility::Sink), Some(FacilityOperation::New), 1);
    assert_eq!(
        complete,
        Ok(RawChangeEvent { facility: Facility::Sink, change: FacilityOperation::New, index: 1 })
    );
    assert_eq!(
        RawChangeEvent::try_new(None, Some(FacilityOperation::New), 1),
        Err(MissingEventField::Facility)
    );
    assert_eq!(
        RawChangeEvent::try_new(Some(Facility::Sink), None, 1),
        Err(MissingEventField::ChangeType)
    );
}

#[test]
fn metadata_is_looked_up_unless_removed() {
    assert_eq!(
        raw(Facility::Sink, FacilityOperation::New).required_lookup(),
        EntityLookup::Sink(5)
    );
    assert_eq!(
        raw(Facility::SinkInput, FacilityOperation::Changed).required_lookup(),
        EntityLookup::SinkInput(5)
    );
    assert_eq!(
        raw(Facility::Sink, FacilityOperation::Removed).required_lookup(),
        EntityLookup::Nothing
    );
    assert_eq!(
        raw(Facility::Card, FacilityOperation::New).required_lookup(),
        EntityLookup::Nothing
    );
}

#[test]
fn resolved_events_are_broadcast() {
    let event = raw(Facility::SinkInput, FacilityOperation::New);
    let resolved = resolve_event(&event, Some(resolve_sink_input(Ok(input(5)))));
    match to_broadcast(resolved) {
        Some(Ok(ChangeEvent::New(ChangeEntity::SinkInput(AudioEntity::Info(info))))) => {
            assert_eq!(info.index, 5);
        }
        _ => panic!("event expected"),
    }
}

#[test]
fn failed_lookups_are_broadcast_with_the_raw_event() {
    let event = raw(Facility::Sink, FacilityOperation::Changed);
    let resolved = resolve_event(&event, Some(resolve_sink(Err(Code::NoEntity))));
    match to_broadcast(resolved) {
        Some(Err(e)) => {
            assert_eq!(e.code(), Code::NoEntity);
            assert!(matches!(
                e.raw_event(),
                ChangeEvent::Changed(ChangeEntity::Sink(AudioEntity::Index(5)))
            ));
            assert_eq!(
                e.message("No such entity"),
                "Lookup failure for event Changed Sink (index 5): No such entity"
            );
        }
        _ => panic!("lookup error expected"),
    }
}

#[test]
fn removed_entities_are_broadcast_without_lookup() {
    let event = raw(Facility::Sink, FacilityOperation::Removed);
    assert!(matches!(
        to_broadcast(resolve_event(&event, None)),
        Some(Ok(ChangeEvent::Removed(ChangeEntity::Sink(AudioEntity::Index(5)))))
    ));
}

#[test]
fn unsupported_entities_are_skipped() {
    let event = raw(Facility::Card, FacilityOperation::New);
    assert!(event.to_entity().is_err());
    let resolved = resolve_event(&event, None);
    assert!(matches!(resolved, Err(ResolveError::UnsupportedFacility(Facility::Card, 5))));
    assert!(to_broadcast(resolved).is_none());
}

#[test]
fn subscription_results_are_interpreted() {
    assert_eq!(subscribe_result(Ok(true)), Ok(()));
    assert_eq!(subscribe_result(Ok(false)), Err(Code::BadState));
    assert_eq!(subscribe_result(Err(OperationState::Cancelled)), Err(Code::Killed));
}

#[test]
fn subscriptions_only_change_for_new_types() {
    let mut subscription = Subscription::new();
    assert!(subscription.listen_for_entity_type(Facility::SinkInput));
    assert!(!subscription.listen_for_entity_type(Facility::SinkInput));
    assert!(subscription.listen_for_entity_type(Facility::Sink));
    assert_eq!(subscription.entity_types().len(), 2);
}

#[test]
fn factories_are_initialized_once() {
    let mut factory: EventListenerFactory<&str, u8> = EventListenerFactory::new("config");
    assert!(factory.initialized().is_none());
    assert_eq!(factory.begin_init(), Some("config"));
    assert_eq!(factory.begin_init(), None);
    factory.finish_init(7);
    assert_eq!(factory.initialized(), Some(&7));
    assert_eq!(factory.consume(), Some(7));
    let unused: EventListenerFactory<&str, u8> = EventListenerFactory::new("config");
    assert_eq!(unused.consume(), None);
}

#[test]
fn existing_entities_are_reported_as_new() {
    let mut listener = OwnedEventListener::new(vec![input(1), input(2)]);
    let mut seen = Vec::new();
    while let NextStep::Heard(event) = listener.next() {
        match event {
            Ok(ChangeEvent::New(AudioEntity::Info(info))) => seen.push(info.index),
            _ => panic!("new entity expected"),
        }
    }
    seen.sort();
    assert_eq!(seen, [1, 2]);
    assert!(matches!(listener.next(), NextStep::Receive));
}

#[test]
fn listeners_skip_other_types_and_lag() {
    type Listener = OwnedEventListener<OwnedSinkInputInfo>;
    assert!(Listener::receive(Ok(Ok(ChangeEvent::New(ChangeEntity::from(sink(1)))))).is_none());
    assert!(matches!(
        Listener::receive(Ok(Ok(ChangeEvent::New(ChangeEntity::from(input(1)))))),
        Some(Ok(ChangeEvent::New(AudioEntity::Info(_))))
    ));
    assert!(matches!(
        Listener::receive(Err(ChannelError::Lagged(3))),
        Some(Err(EventListenerError::ChannelError(ChannelError::Lagged(3))))
    ));
    assert!(Listener::receive_ignore_lag(Err(ChannelError::Lagged(3))).is_none());
    assert!(matches!(
        Listener::receive_ignore_lag(Err(ChannelError::Closed)),
        Some(Err(EventListenerError::ChannelError(ChannelError::Closed)))
    ));
    let failed = LookupError::new(
        Code::Killed,
        ChangeEvent::New(ChangeEntity::SinkInput(AudioEntity::Index(4))),
    );
    match Listener::receive(Ok(Err(failed))) {
        Some(Err(EventListenerError::LookupError(e))) => {
            assert_eq!(e.code(), Code::Killed);
            assert_eq!(e.raw_event().entity().index(), 4);
        }
        _ => panic!("lookup error expected"),
    }
}

#[test]
fn listener_errors_are_explained() {
    type E = EventListenerError<AudioEntity<OwnedSinkInfo>>;
    assert_eq!(
        E::ChannelError(ChannelError::Closed).message(""),
        "Event broadcast channel error: channel closed"
    );
    assert_eq!(
        E::ChannelError(ChannelError::Lagged(12)).message(""),
        "Event broadcast channel error: channel lagged by 12"
    );
    let e = LookupError::new(Code::Killed, ChangeEvent::New(AudioEntity::Index(2)));
    assert_eq!(
        E::LookupError(e).message("killed"),
        "Lookup failure for event New Sink (index 2): killed"
    );
}

#[test]
fn filters_apply_to_events_and_failed_lookups() {
    let halved = |e: ChangeEvent<AudioEntity<OwnedSinkInfo>>| {
        let index = e.entity().index();
        if index % 2 == 0 {
            Some(index / 2)
        } else {
            None
        }
    };
    let event = |index| Ok(ChangeEvent::New(AudioEntity::Index(index)));
    assert!(matches!(do_filter_map(event(8), &halved), Some(Ok(4))));
    assert!(do_filter_map(event(3), &halved).is_none());
    let failed = |index| {
        let event = ChangeEvent::New(AudioEntity::Index(index));
        Err(EventListenerError::LookupError(LookupError::new(Code::Killed, event)))
    };
    match do_filter_map(failed(2), &halved) {
        Some(Err(EventListenerError::LookupError(e))) => {
            assert_eq!(e.code(), Code::Killed);
            assert_eq!(e.raw_event().entity().index(), 2);
        }
        _ => panic!("lookup error expected"),
    }
    assert!(do_filter_map(failed(3), &halved).is_none());
    let closed = Err(EventListenerError::ChannelError(ChannelError::Closed));
    assert!(matches!(
        do_filter_map(closed, &halved),
        Some(Err(EventListenerError::ChannelError(ChannelError::Closed)))
    ));
}

#[test]
fn initialized_factories_can_be_updated() {
    let mut factory: EventListenerFactory<&str, u8> = EventListenerFactory::new("config");
    assert!(factory.initialized_mut().is_none());
    assert_eq!(factory.begin_init(), Some("config"));
    assert!(factory.initialized_mut().is_none());
    factory.finish_init(7);
    *factory.initialized_mut().unwrap() += 1;
    assert_eq!(factory.initialized(), Some(&8));
}

#[test]
fn events_can_be_sent_to_several_listeners() {
    let event = ChangeEvent::Changed(ChangeEntity::from(input(4)));
    let copy = event.clone();
    assert_eq!(copy.name(), event.name());
    assert_eq!(copy.describe(), event.describe());
    match copy.try_unwrap::<OwnedSinkInputInfo>() {
        Some(ChangeEvent::Changed(AudioEntity::Info(info))) => {
            assert_eq!(info.index, 4);
            assert_eq!(info.name, Some("stream".to_string()));
        }
        _ => panic!("metadata expected"),
    }
    let error = LookupError::new(Code::Killed, event).clone();
    assert_eq!(error.code(), Code::Killed);
    assert_eq!(error.raw_event().entity().index(), 4);
}
