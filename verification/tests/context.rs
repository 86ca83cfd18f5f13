use bardcast::snd::pulse::context::async_polyfill::{
    determine_outcome, received_outcome, InitializingEntity, InitializingFuture, InitializingPoll,
    InitializingState, OperationReport, StreamReadNotifier,
};
use bardcast::snd::pulse::context::collect::{
    filter_list, with_list, CollectListResult, CollectOptionalResult, CollectResult, Collector,
    ListResult,
};
use bardcast::snd::pulse::context::introspect::{
    count_sinks_with_name_prefix, looked_up_monitor_name, operation_lookup, operation_status,
    operation_value, resolve_sink_monitor_name, sink_inputs_for_sink, MonitorName, OperationState,
};
use bardcast::snd::pulse::context::stream::{
    cork_result, cork_step, stream_failure_code, CorkStep, Found, ReadStep, ResolvedSinkInput,
    SinkId, SinkLookup, StreamAction, StreamCommand, StreamConfig, StreamEvent, StreamLoop,
    StreamManager, StreamState, StreamWriteResult,
};
use bardcast::snd::pulse::context::{
    context_action, context_failure_code, ContextAction, ContextEvent, ContextState,
    IterateResult, MainloopTimer,
};
use bardcast::snd::pulse::error::Code;
use bardcast::snd::pulse::owned::{
    IntoOwnedInfo, OwnedSinkInfo, OwnedSinkInputInfo, OwnedSourceInfo, Property, SinkInfo,
    SinkInputInfo, SourceInfo,
};
use tokio::sync::oneshot;

fn sink(name: Option<&str>, monitor_source_name: Option<&str>) -> OwnedSinkInfo {
    OwnedSinkInfo {
        name: name.map(String::from),
        index: 3,
        owner_module: None,
        monitor_source: 9,
        monitor_source_name: monitor_source_name.map(String::from),
    }
}

fn input(index: u32, sink: u32) -> OwnedSinkInputInfo {
    OwnedSinkInputInfo { index, name: None, sink, corked: false, proplist: Vec::new() }
}

#[test]
fn mainloop_is_iterated_as_often_as_events_occur() {
    let mut timer = MainloopTimer::new(0, None);
    assert_eq!(timer.compute_next_iteration_instant(), None);
    timer.save_processed_events(1_000_000, 1);
    assert_eq!(timer.compute_next_iteration_instant(), None);
    timer.save_processed_events(9_000_000, 4);
    assert_eq!(timer.compute_next_iteration_instant(), Some(11_000_000));
    timer.save_processed_events(19_000_000, 0);
    assert_eq!(timer.compute_next_iteration_instant(), Some(21_000_000));
}

#[test]
fn mainloop_delay_is_limited() {
    let mut timer = MainloopTimer::new(0, Some(1_000));
    timer.save_processed_events(10_000_000, 1);
    timer.save_processed_events(30_000_000, 1);
    assert_eq!(timer.compute_next_iteration_instant(), Some(31_000_000));
    let mut timer = MainloopTimer::new(0, None);
    timer.save_processed_events(100_000_000, 1);
    timer.save_processed_events(300_000_000, 1);
    assert_eq!(timer.compute_next_iteration_instant(), Some(320_000_000));
}

#[test]
fn old_iterations_are_forgotten() {
    let mut timer = MainloopTimer::new(0, None);
    timer.save_processed_events(1_000_000, 1);
    timer.save_processed_events(2_000_000, 1);
    for i in 1..5u64 {
        timer.save_processed_events(2_000_000 + i * 10_000_000, 1);
    }
    assert_eq!(timer.compute_next_iteration_instant(), Some(52_000_000));
}

#[test]
fn mainloop_runs_until_it_quits() {
    let mut timer = MainloopTimer::new(0, None);
    assert!(timer.handle_iteration(10, IterateResult::Success(2)));
    assert!(timer.handle_iteration(20, IterateResult::Success(2)));
    assert!(timer.handle_iteration(90, IterateResult::Failed));
    assert_eq!(timer.compute_next_iteration_instant(), Some(25));
    assert!(!timer.handle_iteration(100, IterateResult::Quit));
}

#[test]
fn context_failures_have_codes() {
    assert_eq!(context_failure_code(ContextState::Terminated), Code::ConnectionTerminated);
    assert_eq!(context_failure_code(ContextState::Failed), Code::Unknown);
    assert_eq!(stream_failure_code(StreamState::Terminated), Code::Killed);
    assert_eq!(stream_failure_code(StreamState::Failed), Code::BadState);
}

#[test]
fn context_handler_reacts_to_events() {
    assert_eq!(context_action(ContextEvent::Submitted), ContextAction::Execute);
    assert_eq!(context_action(ContextEvent::QueueClosed), ContextAction::ShutDown);
    assert_eq!(context_action(ContextEvent::MainloopEnded), ContextAction::Abort);
}

#[test]
fn entities_initialize_asynchronously() {
    let mut future = InitializingFuture::new("context");
    assert!(matches!(future.poll(ContextState::Connecting), InitializingPoll::Pending));
    assert!(future.entity().is_some());
    assert!(matches!(
        future.poll(ContextState::Ready),
        InitializingPoll::Ready(Ok("context"))
    ));
    assert!(future.entity().is_none());
    let mut future = InitializingFuture::new("stream");
    assert!(matches!(future.poll(StreamState::Creating), InitializingPoll::Pending));
    assert!(matches!(
        future.poll(StreamState::Failed),
        InitializingPoll::Ready(Err(StreamState::Failed))
    ));
}

#[test]
fn states_represent_initialization() {
    assert!(matches!(
        ContextState::Terminated.get_initialization_state(),
        InitializingState::InitializationFailed(ContextState::Terminated)
    ));
    assert!(matches!(
        ContextState::Authorizing.get_initialization_state(),
        InitializingState::Initializing
    ));
    assert!(matches!(
        StreamState::Ready.get_initialization_state(),
        InitializingState::Initialized
    ));
    assert!(matches!(
        StreamState::Unconnected.get_initialization_state(),
        InitializingState::Initializing
    ));
}

#[test]
fn readers_are_woken_by_data() {
    let mut notifier = StreamReadNotifier::new();
    let mut future = notifier.await_data();
    assert_eq!(notifier.notify(), None);
    assert!(!future.poll(&mut notifier, "waker"));
    assert_eq!(notifier.notify(), Some("waker"));
    assert_eq!(notifier.notify(), None);
    assert!(future.poll(&mut notifier, "other"));
    assert_eq!(notifier.notify(), None);
    let mut future = notifier.await_data();
    assert!(!future.poll(&mut notifier, "waker"));
    notifier.cancel();
    assert_eq!(notifier.notify(), None);
}

#[test]
fn outcomes_follow_from_operation_states() {
    assert_eq!(determine_outcome(Some(OperationState::Running), Some(1)), None);
    assert_eq!(determine_outcome(Some(OperationState::Done), Some(1)), Some(Ok(1)));
    assert_eq!(
        determine_outcome(Some(OperationState::Done), None::<i32>),
        Some(Err(OperationState::Done))
    );
    assert_eq!(
        determine_outcome(Some(OperationState::Cancelled), Some(1)),
        Some(Err(OperationState::Cancelled))
    );
    assert_eq!(determine_outcome(None, Some(1)), Some(Err(OperationState::Cancelled)));
    assert_eq!(received_outcome(Some(Ok(3))), Ok(3));
    assert_eq!(received_outcome(None::<Result<i32, _>>), Err(OperationState::Cancelled));
}

#[test]
fn operations_are_reported_once() {
    let (tx, mut rx) = oneshot::channel();
    let mut report = OperationReport::new(tx);
    assert!(!report.state_changed(Some(OperationState::Running), Some(1)));
    assert!(rx.try_recv().is_err());
    assert!(report.state_changed(Some(OperationState::Done), Some(2)));
    assert!(report.state_changed(Some(OperationState::Cancelled), Some(3)));
    assert_eq!(rx.try_recv().unwrap(), Ok(2));
    let (tx, mut rx) = oneshot::channel();
    let mut report: OperationReport<u8> = OperationReport::new(tx);
    assert!(report.state_changed(Some(OperationState::Cancelled), None));
    assert_eq!(rx.try_recv().unwrap(), Err(OperationState::Cancelled));
}

#[test]
fn values_are_collected() {
    let mut collector = Collector::new(None);
    collector.first(1);
    collector.first(2);
    assert_eq!(collector.into_result(), Some(1));
    let mut collector = Collector::new(Some(1));
    collector.last(2);
    assert_eq!(collector.into_result(), Some(2));
    let mut collector = Collector::new(false);
    collector.store(true);
    assert!(collector.into_result());
    let mut collector = Collector::new(Vec::new());
    collector.push(1);
    CollectListResult::push(&mut collector, 2);
    assert_eq!(collector.into_result(), [1, 2]);
}

#[test]
fn metadata_is_collected_from_lists() {
    let source = SourceInfo { name: Some("mic"), index: 4 };
    let other = SourceInfo { name: None, index: 5 };
    let mut first = Collector::new(None);
    first.first_info_in_list(ListResult::<&SourceInfo>::Error);
    first.first_info_in_list(ListResult::Item(&source));
    first.first_info_in_list(ListResult::Item(&other));
    first.first_info_in_list(ListResult::<&SourceInfo>::End);
    let found = first.into_result().unwrap();
    assert_eq!(found.index, 4);
    assert_eq!(found.name, Some("mic".to_string()));
    let mut all: Collector<Vec<OwnedSourceInfo>> = Collector::new(Vec::new());
    all.push_info_from_list(ListResult::Item(&source));
    all.push_info_from_list(ListResult::<&SourceInfo>::End);
    all.push_info(&other);
    let indices: Vec<u32> = all.into_result().iter().map(|info| info.index).collect();
    assert_eq!(indices, [4, 5]);
}

#[test]
fn lists_are_filtered() {
    assert_eq!(with_list(ListResult::Item(&1)), Some(&1));
    assert_eq!(with_list(ListResult::<&i32>::End), None);
    assert_eq!(filter_list(ListResult::Item(&2), |n| *n % 2 == 0), Some(&2));
    assert_eq!(filter_list(ListResult::Item(&3), |n| *n % 2 == 0), None);
    assert_eq!(filter_list(ListResult::Error, |_: &i32| true), None);
}

#[test]
fn metadata_is_copied() {
    let proplist = vec![Property { key: "k".to_string(), value: Some("v".to_string()) }];
    let info = SinkInputInfo { index: 1, name: Some("n"), sink: 2, corked: true, proplist: &proplist };
    let owned = info.into_owned();
    assert_eq!((owned.index, owned.sink, owned.corked), (1, 2, true));
    assert_eq!(owned.proplist[0].key, "k");
    assert_eq!(owned.proplist[0].value, Some("v".to_string()));
    let info = SinkInfo {
        name: Some("s"),
        index: 3,
        owner_module: Some(4),
        monitor_source: 5,
        monitor_source_name: None,
    };
    let owned = info.into_owned();
    assert_eq!(owned.name, Some("s".to_string()));
    assert_eq!(owned.owner_module, Some(4));
    assert_eq!(owned.monitor_source_name, None);
    assert_eq!(owned.clone().index, 3);
}

#[test]
fn operation_results_have_codes() {
    assert_eq!(operation_value(Ok(1)), Ok(1));
    assert_eq!(operation_value::<i32>(Err(OperationState::Cancelled)), Err(Code::Killed));
    assert_eq!(operation_lookup(Ok(Some(1))), Ok(1));
    assert_eq!(operation_lookup::<i32>(Ok(None)), Err(Code::NoEntity));
    assert_eq!(operation_lookup::<i32>(Err(OperationState::Done)), Err(Code::Killed));
    assert_eq!(operation_status(Ok(true)), Ok(()));
    assert_eq!(operation_status(Ok(false)), Err(Code::Unknown));
    assert_eq!(operation_status(Err(OperationState::Cancelled)), Err(Code::Killed));
}

#[test]
fn sinks_are_counted_by_prefix() {
    let sinks = vec![
        sink(Some("bardcast-0"), None),
        sink(None, None),
        sink(Some("speakers"), None),
        sink(Some("bardcast-1"), None),
    ];
    assert_eq!(count_sinks_with_name_prefix(&sinks, "bardcast"), 2);
    assert_eq!(count_sinks_with_name_prefix(&sinks, ""), 3);
}

#[test]
fn inputs_are_selected_by_sink() {
    let inputs = vec![input(1, 7), input(2, 8), input(3, 7)];
    let indices: Vec<u32> = sink_inputs_for_sink(inputs, 7).iter().map(|i| i.index).collect();
    assert_eq!(indices, [1, 3]);
}

#[test]
fn monitor_names_are_resolved() {
    assert!(matches!(
        resolve_sink_monitor_name(sink(None, Some("m"))),
        MonitorName::Known(name) if name == "m"
    ));
    assert!(matches!(resolve_sink_monitor_name(sink(None, None)), MonitorName::Lookup(9)));
    let source = OwnedSourceInfo { name: Some("m".to_string()), index: 9 };
    assert_eq!(looked_up_monitor_name(Ok(source)), Ok("m".to_string()));
    let unnamed = OwnedSourceInfo { name: None, index: 9 };
    assert_eq!(looked_up_monitor_name(Ok(unnamed)), Err(Code::NoEntity));
    assert_eq!(looked_up_monitor_name(Err(Code::Killed)), Err(Code::Killed));
}

#[test]
fn sinks_are_identified_by_index_or_name() {
    assert!(matches!(SinkId::merged(Some(1), Some("s")), Some(SinkId::Index(1))));
    assert!(matches!(SinkId::merged(None, Some("s")), Some(SinkId::Name("s"))));
    assert!(SinkId::merged(None, None).is_none());
    assert_eq!(SinkId::Index(4).describe(), "sink index 4");
    assert_eq!(SinkId::Name("speakers").describe(), "speakers");
    assert!(matches!(SinkLookup::for_sink(None), SinkLookup::Default));
    assert!(matches!(
        SinkLookup::for_sink(Some(SinkId::Index(2))),
        SinkLookup::ByIndex(2)
    ));
    assert!(matches!(
        SinkLookup::for_sink(Some(SinkId::Name("a"))),
        SinkLookup::ByName(name) if name == "a"
    ));
}

#[test]
fn streams_connect_to_monitors() {
    let target = sink(Some("s"), Some("s.monitor")).connect_target();
    assert_eq!(target.monitor_stream, None);
    assert_eq!(target.into_source_name(), Ok("s.monitor".to_string()));
    assert_eq!(sink(Some("s"), None).connect_target().into_source_name(), Err(Code::NoEntity));
    let source = OwnedSourceInfo { name: Some("mic".to_string()), index: 1 };
    assert_eq!(source.connect_target().source_name, Some("mic".to_string()));
    let resolved =
        ResolvedSinkInput { input: 6, sink: sink(Some("s"), Some("s.monitor")) };
    let target = resolved.connect_target();
    assert_eq!(target.monitor_stream, Some(6));
    assert_eq!(target.source_name, Some("s.monitor".to_string()));
}

#[test]
fn stream_managers_lend_their_producer() {
    let mut manager: StreamManager<&str, u8> = StreamManager::new("producer");
    assert!(!manager.is_running());
    assert_eq!(manager.idle_producer(), Some(&"producer"));
    assert_eq!(manager.active_task().unwrap_err(), Code::NoEntity);
    let lease = manager.begin_start().ok().unwrap();
    assert_eq!(*lease.as_ref(), "producer");
    assert!(manager.idle_producer().is_none());
    assert!(matches!(manager.begin_start(), Err(Code::Exist)));
    manager.finish_start(7);
    assert!(manager.is_running());
    assert_eq!(*manager.active_task().unwrap(), 7);
    assert_eq!(manager.take_task(), Some(7));
    assert!(!manager.is_running());
    assert_eq!(lease.release(), Ok(()));
    let returned = manager.release_channel().unwrap().try_recv().unwrap();
    manager.reclaim(returned);
    assert_eq!(manager.idle_producer(), Some(&"producer"));
    assert!(manager.release_channel().is_none());
}

#[test]
fn reads_have_outcomes() {
    assert_eq!(Found::Data.write_result(true, Ok(())), StreamWriteResult::DataWritten);
    assert_eq!(Found::Data.write_result(false, Ok(())), StreamWriteResult::HandleClosed);
    assert_eq!(
        Found::Data.write_result(false, Err(Code::Killed)),
        StreamWriteResult::HandleClosed
    );
    assert_eq!(
        Found::Data.write_result(true, Err(Code::Killed)),
        StreamWriteResult::PulseError(Code::Killed)
    );
    assert_eq!(Found::Hole.write_result(false, Ok(())), StreamWriteResult::NoOp);
    assert_eq!(
        Found::Hole.write_result(false, Err(Code::Killed)),
        StreamWriteResult::PulseError(Code::Killed)
    );
    assert_eq!(Found::Empty.write_result(false, Ok(())), StreamWriteResult::NoOp);
    assert_eq!(
        Found::Failed(Code::BadState).write_result(false, Ok(())),
        StreamWriteResult::PulseError(Code::BadState)
    );
}

#[test]
fn only_data_is_written_and_only_data_and_holes_are_discarded() {
    assert_eq!(Found::Data.read_step(), ReadStep::WriteAndDiscard);
    assert_eq!(Found::Hole.read_step(), ReadStep::Discard);
    assert_eq!(Found::Empty.read_step(), ReadStep::Nothing);
    assert_eq!(Found::Failed(Code::Killed).read_step(), ReadStep::Nothing);
}

#[test]
fn three_failures_in_a_row_stop_the_stream() {
    let failure = StreamEvent::Read(StreamWriteResult::PulseError(Code::Killed));
    let success = StreamEvent::Read(StreamWriteResult::NoOp);
    let mut stream = StreamLoop::new();
    assert_eq!(stream.handle(failure), StreamAction::Continue);
    assert_eq!(stream.handle(failure), StreamAction::Continue);
    assert_eq!(stream.handle(success), StreamAction::Continue);
    assert_eq!(stream.handle(failure), StreamAction::Continue);
    assert_eq!(stream.handle(failure), StreamAction::Continue);
    assert!(!stream.is_fatal());
    assert_eq!(stream.handle(failure), StreamAction::Stop);
    assert!(stream.is_fatal());
}

#[test]
fn stream_handler_obeys_commands() {
    let mut stream = StreamLoop::new();
    let cork = StreamEvent::Command(Some(StreamCommand::SetCork(true)));
    assert_eq!(stream.handle(cork), StreamAction::SetCork(true));
    let shutdown = StreamEvent::Command(Some(StreamCommand::Shutdown));
    assert_eq!(stream.handle(shutdown), StreamAction::Stop);
    assert_eq!(StreamLoop::new().handle(StreamEvent::Command(None)), StreamAction::Stop);
    let closed = StreamEvent::Read(StreamWriteResult::HandleClosed);
    assert_eq!(StreamLoop::new().handle(closed), StreamAction::Stop);
}

#[test]
fn streams_are_corked_only_if_needed() {
    assert_eq!(cork_step(true, Ok(true)), CorkStep::AlreadyDone);
    assert_eq!(cork_step(true, Ok(false)), CorkStep::Cork);
    assert_eq!(cork_step(false, Ok(true)), CorkStep::Uncork);
    assert_eq!(cork_step(false, Err(Code::BadState)), CorkStep::Failed(Code::BadState));
    assert_eq!(cork_result(Some(Ok(true))), Ok(()));
    assert_eq!(cork_result(Some(Ok(false))), Err(Code::Unknown));
    assert_eq!(cork_result(Some(Err(OperationState::Cancelled))), Err(Code::Killed));
    assert_eq!(cork_result(None), Err(Code::Killed));
}

#[test]
fn mainloop_instants_may_be_out_of_range() {
    let mut timer = MainloopTimer::new(0, None);
    assert!(timer.is_next_iteration_representable());
    timer.save_processed_events(u64::MAX - 9, 1);
    assert!(timer.is_next_iteration_representable());
    timer.save_processed_events(u64::MAX - 4, 1);
    assert!(!timer.is_next_iteration_representable());
    let mut timer = MainloopTimer::new(0, None);
    timer.save_processed_events(u64::MAX - 10, 1);
    timer.save_processed_events(u64::MAX - 5, 1);
    assert!(timer.is_next_iteration_representable());
    assert_eq!(timer.compute_next_iteration_instant(), Some(u64::MAX));
}
