use bardcast::cfg::InterceptMode;
use bardcast::snd::pulse::error::Code;
use bardcast::snd::pulse::event::error::{ChannelError, EventListenerError, LookupError};
use bardcast::snd::pulse::event::{AudioEntity, ChangeEvent};
use bardcast::snd::pulse::intercept::types::{
    CapturingInterceptor, DuplexingInterceptor, InterceptError, Interceptor, LimitingInterceptor,
    Outcome, QueuedInterceptor, Reply, Request, SingleInputMonitor, Step, StreamOrigin,
};
use bardcast::snd::pulse::intercept::util::{
    get_created_virtual_sink, get_name_template, get_unique_sink_name, DuplexSetup, Module,
    SinkCreation, SinkReply, SinkRequest, SinkStep, SinkTeardown, StopAll, TeardownReply,
    TeardownRequest, TeardownStep,
};
use bardcast::snd::pulse::intercept::{
    handle_event, EventAction, InterceptRun, InterceptorKind, RunStep,
};
use bardcast::snd::pulse::owned::{OwnedSinkInfo, OwnedSinkInputInfo};

fn input(index: u32, sink: u32, corked: bool) -> OwnedSinkInputInfo {
    OwnedSinkInputInfo { index, name: None, sink, corked, proplist: Vec::new() }
}

fn sink(name: &str, index: u32, owner_module: Option<u32>) -> OwnedSinkInfo {
    OwnedSinkInfo {
        name: Some(name.to_string()),
        index,
        owner_module,
        monitor_source: index + 100,
        monitor_source_name: Some(format!("{}.monitor", name)),
    }
}

fn request(step: Step) -> Request {
    match step {
        Step::Request(request) => request,
        Step::Done(outcome) => panic!("request expected, got {:?}", outcome),
    }
}

fn outcome(step: Step) -> Outcome {
    match step {
        Step::Done(outcome) => outcome,
        Step::Request(request) => panic!("outcome expected, got {:?}", request),
    }
}

const OK: Reply = Reply::Status(Ok(()));

/// Carries out an operation for which every request succeeds.
fn complete<I: Interceptor>(intercept: &mut I, step: Step, running: bool) -> Outcome {
    let mut step = step;
    loop {
        let request = match step {
            Step::Done(outcome) => return outcome,
            Step::Request(request) => request,
        };
        let reply = match request {
            Request::StopStream => Reply::Done,
            Request::GetSink(index) => Reply::Sink(Ok(index)),
            Request::GetDefaultSink => Reply::Sink(Ok(0)),
            _ => OK,
        };
        step = intercept.resume(reply, running);
    }
}

#[test]
fn single_applications_are_monitored_directly() {
    let mut monitor = SingleInputMonitor::new();
    assert_eq!(monitor.len(), 0);
    assert_eq!(monitor.capacity(), Some(1));
    let step = monitor.record(input(5, 2, false), false);
    assert_eq!(request(step), Request::StopStream);
    let step = monitor.resume(Reply::Done, false);
    assert_eq!(
        request(step),
        Request::StartStream(StreamOrigin::SinkInput { index: 5, sink: 2 })
    );
    let step = monitor.resume(OK, true);
    assert!(matches!(outcome(step), Outcome::Recorded(Ok(()))));
    assert_eq!(monitor.len(), 1);
    assert!(monitor.is_full());
    match outcome(monitor.record(input(6, 2, false), true)) {
        Outcome::Recorded(Err(e)) => {
            assert_eq!(e.code(), None);
            assert!(e.message("").starts_with("Cannot intercept application "));
            assert!(e.message("").ends_with(", interceptor at limit (1)"));
        }
        _ => panic!("error expected"),
    }
}

#[test]
fn monitored_application_corks_the_stream() {
    let mut monitor = SingleInputMonitor::new();
    let step = monitor.record(input(5, 2, false), false);
    complete(&mut monitor, step, false);
    let step = monitor.update_intercept(&input(6, 2, true), true);
    assert!(matches!(outcome(step), Outcome::Updated(Ok(()))));
    let step = monitor.update_intercept(&input(5, 2, true), true);
    assert_eq!(request(step), Request::SetCork(true));
    let step = monitor.resume(Reply::Status(Err(Code::Killed)), true);
    assert!(matches!(outcome(step), Outcome::Updated(Err(Code::Killed))));
    assert!(matches!(outcome(monitor.stop(6, true)), Outcome::Stopped(Ok(false))));
    let step = monitor.stop(5, true);
    assert_eq!(request(step), Request::StopStream);
    let step = monitor.resume(Reply::Done, false);
    assert!(matches!(outcome(step), Outcome::Stopped(Ok(true))));
    assert_eq!(monitor.len(), 0);
    assert!(monitor.close_plan().stop_stream);
}

#[test]
fn failure_to_start_leaves_nothing_intercepted() {
    let mut monitor = SingleInputMonitor::new();
    let _ = monitor.record(input(5, 2, false), false);
    let _ = monitor.resume(Reply::Done, false);
    let step = monitor.resume(Reply::Status(Err(Code::NoEntity)), false);
    match outcome(step) {
        Outcome::Recorded(Err(e)) => assert_eq!(e.code(), Some(Code::NoEntity)),
        _ => panic!("error expected"),
    }
    assert_eq!(monitor.len(), 0);
}

#[test]
fn captured_applications_move_and_return() {
    let mut capture = CapturingInterceptor::new(sink("rec", 10, Some(1)), None);
    assert_eq!(capture.capacity(), None);
    assert_eq!(capture.remaining(), None);
    assert!(!capture.is_full());
    let step = capture.record(input(5, 2, false), false);
    assert_eq!(request(step), Request::StartStream(StreamOrigin::RecordSink));
    let step = capture.resume(OK, true);
    assert_eq!(request(step), Request::MoveSinkInput { input: 5, sink: 10 });
    let step = capture.resume(OK, true);
    assert_eq!(request(step), Request::SetCork(false));
    let step = capture.resume(OK, true);
    assert!(matches!(outcome(step), Outcome::Recorded(Ok(()))));
    assert_eq!(capture.len(), 1);

    let step = capture.stop(5, true);
    assert_eq!(request(step), Request::GetSink(2));
    let step = capture.resume(Reply::Sink(Ok(2)), true);
    assert_eq!(request(step), Request::GetSinkInput(5));
    let step = capture.resume(OK, true);
    assert_eq!(request(step), Request::MoveSinkInput { input: 5, sink: 2 });
    let step = capture.resume(OK, true);
    assert_eq!(request(step), Request::StopStream);
    let step = capture.resume(Reply::Done, false);
    assert!(matches!(outcome(step), Outcome::Stopped(Ok(true))));
    assert_eq!(capture.len(), 0);
}

#[test]
fn missing_sinks_are_replaced_by_the_default() {
    let mut capture = CapturingInterceptor::new(sink("rec", 10, Some(1)), None);
    let step = capture.record(input(5, 2, false), true);
    complete(&mut capture, step, true);
    let _ = capture.stop(5, true);
    let step = capture.resume(Reply::Sink(Err(Code::NoEntity)), true);
    assert_eq!(request(step), Request::GetDefaultSink);
    let step = capture.resume(Reply::Sink(Ok(0)), true);
    assert_eq!(request(step), Request::GetSinkInput(5));
    let step = capture.resume(OK, true);
    assert_eq!(request(step), Request::MoveSinkInput { input: 5, sink: 0 });
    let step = capture.resume(Reply::Status(Err(Code::Killed)), true);
    assert!(matches!(outcome(step), Outcome::Stopped(Err(Code::Killed))));
    assert_eq!(capture.len(), 1);
}

#[test]
fn vanished_applications_are_forgotten() {
    let mut capture = CapturingInterceptor::new(sink("rec", 10, Some(1)), None);
    let step = capture.record(input(5, 2, false), true);
    complete(&mut capture, step, true);
    let step = capture.record(input(6, 2, false), true);
    complete(&mut capture, step, true);
    let _ = capture.stop(5, true);
    let _ = capture.resume(Reply::Sink(Ok(2)), true);
    let step = capture.resume(Reply::Status(Err(Code::NoEntity)), true);
    assert!(matches!(outcome(step), Outcome::Stopped(Ok(true))));
    assert_eq!(capture.len(), 1);
}

#[test]
fn stream_is_corked_while_all_applications_are() {
    let mut capture = CapturingInterceptor::new(sink("rec", 10, Some(1)), None);
    let _ = capture.record(input(5, 2, true), true);
    let step = capture.resume(OK, true);
    assert_eq!(request(step), Request::SetCork(true));
    let _ = capture.resume(OK, true);
    let _ = capture.record(input(6, 2, false), true);
    let step = capture.resume(OK, true);
    assert_eq!(request(step), Request::SetCork(false));
    let _ = capture.resume(OK, true);
    let step = capture.update_intercept(&input(6, 2, true), true);
    assert_eq!(request(step), Request::SetCork(true));
}

#[test]
fn limits_are_never_exceeded() {
    let mut capture = CapturingInterceptor::new(sink("rec", 10, Some(1)), Some(1));
    let step = capture.record(input(5, 2, false), true);
    complete(&mut capture, step, true);
    assert_eq!(capture.remaining(), Some(0));
    let step = capture.record(input(6, 2, false), true);
    assert!(matches!(
        outcome(step),
        Outcome::Recorded(Err(InterceptError::AtCapacity(1, _)))
    ));
    assert_eq!(capture.len(), 1);
}

#[test]
fn capturing_interceptors_are_closed() {
    let mut capture = CapturingInterceptor::new(sink("rec", 10, Some(1)), None);
    for index in [5, 6] {
        let step = capture.record(input(index, 2, false), true);
        complete(&mut capture, step, true);
    }
    assert_eq!(capture.record_sink().index, 10);
    let plan = capture.close_plan();
    let mut stop = plan.stop;
    stop.sort();
    assert_eq!(stop, [5, 6]);
    assert!(!plan.stop_stream);
    assert_eq!(plan.tear_down.len(), 1);
    assert_eq!(plan.tear_down[0].0.index, 10);
    assert_eq!(plan.tear_down[0].1, None);
}

#[test]
fn duplexed_applications_move_to_the_duplicating_sink() {
    let mut duplex = DuplexingInterceptor::from_sink(
        sink("demux", 11, Some(2)),
        sink("rec", 10, Some(1)),
        sink("speakers", 2, None),
        None,
    );
    let step = duplex.record(input(5, 2, false), true);
    assert_eq!(request(step), Request::MoveSinkInput { input: 5, sink: 11 });
    let step = duplex.resume(OK, true);
    complete(&mut duplex, step, true);
    assert_eq!(duplex.len(), 1);
    assert_eq!(duplex.record_sink().index, 10);
    assert_eq!(duplex.demux_sink().index, 11);
    assert_eq!(duplex.original_sink().index, 2);
    let plan = duplex.close_plan();
    assert_eq!(plan.stop, [5]);
    let torn_down: Vec<(u32, Option<u32>)> =
        plan.tear_down.iter().map(|(sink, target)| (sink.index, *target)).collect();
    assert_eq!(torn_down, [(11, Some(2)), (10, Some(2))]);
}

#[test]
fn queued_applications_take_the_place_of_stopped_ones() {
    let mut queued = QueuedInterceptor::from_inner(SingleInputMonitor::new());
    let step = queued.record(input(5, 2, false), false);
    assert!(matches!(complete(&mut queued, step, true), Outcome::Recorded(Ok(()))));
    // Applications that exceed the limit are queued without an error.
    assert!(matches!(
        outcome(queued.record(input(6, 2, true), true)),
        Outcome::Recorded(Ok(()))
    ));
    assert!(matches!(
        outcome(queued.record(input(7, 2, false), true)),
        Outcome::Recorded(Ok(()))
    ));
    assert_eq!(queued.len(), 1);
    let step = queued.stop(5, true);
    assert_eq!(request(step), Request::StopStream);
    // The first uncorked application in the queue is next.
    let step = queued.resume(Reply::Done, false);
    assert_eq!(request(step), Request::StopStream);
    let step = queued.resume(Reply::Done, false);
    assert_eq!(
        request(step),
        Request::StartStream(StreamOrigin::SinkInput { index: 7, sink: 2 })
    );
    let step = queued.resume(OK, true);
    assert!(matches!(outcome(step), Outcome::Stopped(Ok(true))));
    assert_eq!(queued.inner().len(), 1);
}

#[test]
fn uncorked_applications_leave_the_queue() {
    let mut queued = QueuedInterceptor::from_inner(SingleInputMonitor::new());
    assert!(matches!(
        outcome(queued.record(input(6, 2, true), false)),
        Outcome::Recorded(Ok(()))
    ));
    assert_eq!(queued.len(), 0);
    let step = queued.update_intercept(&input(6, 2, false), false);
    assert_eq!(request(step), Request::StopStream);
    let step = queued.resume(Reply::Done, false);
    assert!(matches!(complete(&mut queued, step, true), Outcome::Updated(Ok(()))));
    assert_eq!(queued.len(), 1);
}

#[test]
fn removed_applications_leave_the_queue() {
    let mut queued = QueuedInterceptor::from_inner(SingleInputMonitor::new());
    let _ = queued.record(input(6, 2, true), false);
    assert!(matches!(outcome(queued.stop(6, false)), Outcome::Stopped(Ok(false))));
    let step = queued.update_intercept(&input(6, 2, false), false);
    assert!(matches!(outcome(step), Outcome::Updated(Ok(()))));
    assert_eq!(queued.len(), 0);
}

#[test]
fn interceptors_are_selected_by_mode_and_limit() {
    assert_eq!(
        InterceptorKind::select(InterceptMode::Capture, None),
        InterceptorKind::Capturing { limit: None, queued: false }
    );
    assert_eq!(
        InterceptorKind::select(InterceptMode::Capture, Some(1)),
        InterceptorKind::Capturing { limit: Some(1), queued: true }
    );
    assert_eq!(
        InterceptorKind::select(InterceptMode::Monitor, Some(1)),
        InterceptorKind::SingleMonitor
    );
    assert_eq!(
        InterceptorKind::select(InterceptMode::Monitor, Some(2)),
        InterceptorKind::Duplexing { limit: Some(2), queued: true }
    );
    assert_eq!(
        InterceptorKind::select(InterceptMode::Peek, None),
        InterceptorKind::Duplexing { limit: None, queued: false }
    );
    assert!(InterceptorKind::select(InterceptMode::Peek, None).requires_sink());
    assert!(!InterceptorKind::select(InterceptMode::Capture, None).requires_sink());
    assert!(!InterceptorKind::SingleMonitor.requires_sink());
}

#[test]
fn events_determine_actions() {
    let new = Ok(ChangeEvent::New(AudioEntity::Info(input(5, 2, false))));
    assert!(matches!(EventAction::from_event(new), EventAction::Record(i) if i.index == 5));
    let changed = Ok(ChangeEvent::Changed(AudioEntity::Info(input(5, 2, false))));
    assert!(matches!(EventAction::from_event(changed), EventAction::Update(i) if i.index == 5));
    let removed = Ok(ChangeEvent::Removed(AudioEntity::Index(6)));
    assert!(matches!(EventAction::from_event(removed), EventAction::Stop(6)));
    let unresolved = Ok(ChangeEvent::New(AudioEntity::Index(6)));
    assert!(matches!(EventAction::from_event(unresolved), EventAction::Ignore));
    let failed = Err(EventListenerError::LookupError(LookupError::new(
        Code::Killed,
        ChangeEvent::New(AudioEntity::Index(6)),
    )));
    assert!(matches!(EventAction::from_event(failed), EventAction::Ignore));
    let lagged = Err(EventListenerError::ChannelError(ChannelError::Lagged(1)));
    assert!(matches!(EventAction::from_event(lagged), EventAction::Ignore));
    let closed = Err(EventListenerError::ChannelError(ChannelError::Closed));
    assert!(matches!(EventAction::from_event(closed), EventAction::ShutDown));
}

#[test]
fn events_drive_interceptors() {
    let mut monitor = SingleInputMonitor::new();
    let new = Ok(ChangeEvent::New(AudioEntity::Info(input(5, 2, false))));
    let step = match handle_event(&mut monitor, new, false) {
        RunStep::Operation(step) => step,
        _ => panic!("operation expected"),
    };
    complete(&mut monitor, step, true);
    assert_eq!(monitor.len(), 1);
    let unresolved = Ok(ChangeEvent::New(AudioEntity::Index(6)));
    assert!(matches!(handle_event(&mut monitor, unresolved, true), RunStep::Wait));
    let removed = Ok(ChangeEvent::Removed(AudioEntity::Index(5)));
    let step = match handle_event(&mut monitor, removed, true) {
        RunStep::Operation(step) => step,
        _ => panic!("operation expected"),
    };
    complete(&mut monitor, step, true);
    assert_eq!(monitor.len(), 0);
    let closed = Err(EventListenerError::ChannelError(ChannelError::Closed));
    assert!(matches!(handle_event(&mut monitor, closed, true), RunStep::Close));
}

#[test]
fn virtual_sinks_have_unique_names() {
    assert_eq!(get_name_template(42, "rec"), "bardcast-42_rec");
    let sinks = vec![
        sink("bardcast-42_rec-0", 1, None),
        sink("other", 2, None),
        sink("bardcast-42_rec-1", 3, None),
    ];
    assert_eq!(get_unique_sink_name("bardcast-42_rec", &sinks), "bardcast-42_rec-2");
    assert_eq!(get_unique_sink_name("bardcast-42_demux", &sinks), "bardcast-42_demux-0");
}

#[test]
fn taken_sink_names_are_avoided() {
    let sinks = vec![sink("bardcast-9_rec-1", 1, None)];
    assert_eq!(get_unique_sink_name("bardcast-9_rec", &sinks), "bardcast-9_rec-0");
    let sinks = vec![
        sink("bardcast-9_rec-0", 1, None),
        sink("bardcast-9_rec-3", 2, None),
        sink("bardcast-9_rec-1", 3, None),
    ];
    assert_eq!(get_unique_sink_name("bardcast-9_rec", &sinks), "bardcast-9_rec-2");
    let (mut creation, _) = SinkCreation::create_rec_sink(9);
    let taken = vec![sink("bardcast-9_rec-1", 1, None)];
    match creation.resume(SinkReply::Sinks(Ok(taken))) {
        SinkStep::Request(SinkRequest::LoadModule(_, args)) => {
            assert!(args.contains("bardcast-9_rec-0"));
        }
        _ => panic!("module expected"),
    }
}

#[test]
fn runs_end_with_the_listener_or_the_stream() {
    let mut run = InterceptRun::new(SingleInputMonitor::new());
    assert!(run.needs_event(false));
    assert!(!run.needs_event(true));
    let new = Ok(ChangeEvent::New(AudioEntity::Info(input(5, 2, false))));
    let step = match run.handle(new, false) {
        RunStep::Operation(step) => step,
        _ => panic!("operation expected"),
    };
    assert_eq!(request(step), Request::StopStream);
    assert_eq!(
        request(run.resume(Reply::Done, false)),
        Request::StartStream(StreamOrigin::SinkInput { index: 5, sink: 2 })
    );
    let step = run.resume(Reply::Status(Err(Code::Killed)), false);
    assert!(matches!(outcome(step), Outcome::Recorded(Err(_))));
    assert!(run.needs_event(false));

    let failed = LookupError::new(Code::Killed, ChangeEvent::New(AudioEntity::Index(6)));
    let ignored = vec![
        Ok(ChangeEvent::New(AudioEntity::Index(6))),
        Err(EventListenerError::LookupError(failed)),
        Err(EventListenerError::ChannelError(ChannelError::Lagged(2))),
    ];
    for event in ignored {
        assert!(matches!(run.handle(event, true), RunStep::Wait));
        assert!(run.needs_event(false));
    }

    let closed = Err(EventListenerError::ChannelError(ChannelError::Closed));
    assert!(matches!(run.handle(closed, true), RunStep::Close));
    assert!(!run.needs_event(false));
    let (monitor, plan) = run.close();
    assert_eq!(monitor.len(), 0);
    assert!(plan.stop_stream);
    assert!(plan.tear_down.is_empty());
}

#[test]
fn runs_record_update_and_stop_in_order() {
    let mut run = InterceptRun::new(SingleInputMonitor::new());
    let perform = |run: &mut InterceptRun<SingleInputMonitor>, event| {
        let mut step = match run.handle(event, true) {
            RunStep::Operation(step) => step,
            _ => panic!("operation expected"),
        };
        loop {
            step = match step {
                Step::Done(outcome) => return outcome,
                Step::Request(Request::StopStream) => run.resume(Reply::Done, true),
                Step::Request(_) => run.resume(OK, true),
            };
        }
    };
    let new = Ok(ChangeEvent::New(AudioEntity::Info(input(5, 2, false))));
    assert!(matches!(perform(&mut run, new), Outcome::Recorded(Ok(()))));
    let changed = Ok(ChangeEvent::Changed(AudioEntity::Info(input(5, 2, true))));
    assert!(matches!(perform(&mut run, changed), Outcome::Updated(Ok(()))));
    let removed = Ok(ChangeEvent::Removed(AudioEntity::Index(5)));
    assert!(matches!(perform(&mut run, removed), Outcome::Stopped(Ok(true))));
    assert!(run.needs_event(false));
    let (monitor, _) = run.close();
    assert_eq!(monitor.len(), 0);
}

#[test]
fn created_sinks_are_found_by_name_and_module() {
    let sinks = vec![
        sink("rec-0", 1, Some(7)),
        sink("rec-0.2", 2, Some(8)),
        sink("demux", 3, Some(8)),
    ];
    assert_eq!(get_created_virtual_sink(&sinks, "rec-0", 8).unwrap().index, 2);
    assert_eq!(get_created_virtual_sink(&sinks, "rec-0", 9).unwrap_err(), Code::NoEntity);
}

#[test]
fn record_sinks_are_created() {
    let (mut creation, first) = SinkCreation::create_rec_sink(42);
    assert!(matches!(first, SinkRequest::GetSinks));
    match creation.resume(SinkReply::Sinks(Ok(Vec::new()))) {
        SinkStep::Request(SinkRequest::LoadModule(module, args)) => {
            assert_eq!(module, Module::NullSink);
            assert_eq!(args, "sink_name=bardcast-42_rec-0");
        }
        _ => panic!("module expected"),
    }
    let step = creation.resume(SinkReply::Module(Ok(7)));
    assert!(matches!(step, SinkStep::Request(SinkRequest::GetSinks)));
    let sinks = vec![sink("bardcast-42_rec-0", 10, Some(7))];
    match creation.resume(SinkReply::Sinks(Ok(sinks))) {
        SinkStep::Done(Ok(sink)) => assert_eq!(sink.index, 10),
        _ => panic!("sink expected"),
    }
}

#[test]
fn modules_without_a_sink_are_unloaded() {
    let (mut creation, _) = SinkCreation::create_rec_sink(42);
    let _ = creation.resume(SinkReply::Sinks(Ok(Vec::new())));
    let _ = creation.resume(SinkReply::Module(Ok(7)));
    let step = creation.resume(SinkReply::Sinks(Ok(Vec::new())));
    assert!(matches!(step, SinkStep::Request(SinkRequest::UnloadModule(7))));
    let step = creation.resume(SinkReply::Status(Ok(())));
    assert!(matches!(step, SinkStep::Done(Err(Code::NoEntity))));
}

#[test]
fn failure_to_unload_supersedes_other_failures() {
    let (mut creation, _) = SinkCreation::create_rec_sink(42);
    let _ = creation.resume(SinkReply::Sinks(Ok(Vec::new())));
    let _ = creation.resume(SinkReply::Module(Ok(7)));
    let step = creation.resume(SinkReply::Sinks(Err(Code::Killed)));
    assert!(matches!(step, SinkStep::Request(SinkRequest::UnloadModule(7))));
    let step = creation.resume(SinkReply::Status(Err(Code::Access)));
    assert!(matches!(step, SinkStep::Done(Err(Code::Access))));
}

#[test]
fn duplicating_sinks_reach_the_original_sink() {
    let (mut setup, _) = DuplexSetup::new(42, sink("speakers", 2, None));
    let _ = setup.resume(SinkReply::Sinks(Ok(Vec::new())));
    let _ = setup.resume(SinkReply::Module(Ok(7)));
    let sinks = vec![sink("bardcast-42_rec-0", 10, Some(7))];
    let step = setup.resume(SinkReply::Sinks(Ok(sinks)));
    assert!(matches!(step, SinkStep::Request(SinkRequest::GetSinks)));
    match setup.resume(SinkReply::Sinks(Ok(Vec::new()))) {
        SinkStep::Request(SinkRequest::LoadModule(module, args)) => {
            assert_eq!(module, Module::CombineSink);
            assert_eq!(
                args,
                "sink_name=bardcast-42_demux-0, slaves=bardcast-42_rec-0,speakers"
            );
        }
        _ => panic!("module expected"),
    }
    let _ = setup.resume(SinkReply::Module(Ok(8)));
    let sinks = vec![sink("bardcast-42_demux-0", 11, Some(8))];
    match setup.resume(SinkReply::Sinks(Ok(sinks))) {
        SinkStep::Done(Ok(sinks)) => {
            assert_eq!(sinks.rec.index, 10);
            assert_eq!(sinks.demux.index, 11);
        }
        _ => panic!("sinks expected"),
    }
    assert_eq!(setup.into_sink().index, 2);
}

#[test]
fn failed_duplication_removes_the_record_sink() {
    let (mut setup, _) = DuplexSetup::new(42, sink("speakers", 2, None));
    let _ = setup.resume(SinkReply::Sinks(Ok(Vec::new())));
    let _ = setup.resume(SinkReply::Module(Ok(7)));
    let sinks = vec![sink("bardcast-42_rec-0", 10, Some(7))];
    let _ = setup.resume(SinkReply::Sinks(Ok(sinks)));
    let _ = setup.resume(SinkReply::Sinks(Ok(Vec::new())));
    let step = setup.resume(SinkReply::Module(Err(Code::ModInitFailed)));
    assert!(matches!(step, SinkStep::Request(SinkRequest::UnloadModule(7))));
    let step = setup.resume(SinkReply::Status(Ok(())));
    assert!(matches!(step, SinkStep::Done(Err(Code::ModInitFailed))));
}

#[test]
fn torn_down_sinks_lose_their_applications() {
    let rec = sink("rec", 10, Some(7));
    let (mut teardown, first) = SinkTeardown::tear_down_virtual_sink(&rec, Some(2));
    assert!(matches!(first, TeardownRequest::GetInputs(10)));
    match teardown.resume(TeardownReply::Inputs(Ok(vec![5, 6]))) {
        TeardownStep::Request(TeardownRequest::MoveInputs(inputs, target)) => {
            assert_eq!(inputs, [5, 6]);
            assert_eq!(target, 2);
        }
        _ => panic!("move expected"),
    }
    let step = teardown.resume(TeardownReply::Moved(vec![Ok(()), Err(Code::NoEntity)]));
    assert!(matches!(step, TeardownStep::Request(TeardownRequest::UnloadModule(7))));
    match teardown.resume(TeardownReply::Status(Ok(()))) {
        TeardownStep::Done(report) => {
            assert!(report.unknown_inputs);
            assert!(report.move_failed);
            assert_eq!(report.lookup_error, None);
            assert_eq!(report.unloaded, Some(Ok(())));
        }
        _ => panic!("report expected"),
    }
}

#[test]
fn applications_move_to_the_default_sink() {
    let rec = sink("rec", 10, Some(7));
    let (mut teardown, _) = SinkTeardown::tear_down_virtual_sink(&rec, None);
    let step = teardown.resume(TeardownReply::Inputs(Ok(vec![5])));
    assert!(matches!(step, TeardownStep::Request(TeardownRequest::GetDefaultSink)));
    let step = teardown.resume(TeardownReply::Sink(Ok(3)));
    assert!(matches!(step, TeardownStep::Request(TeardownRequest::MoveInputs(_, 3))));
    let step = teardown.resume(TeardownReply::Moved(vec![Ok(())]));
    assert!(matches!(step, TeardownStep::Request(TeardownRequest::UnloadModule(7))));
    match teardown.resume(TeardownReply::Status(Err(Code::Killed))) {
        TeardownStep::Done(report) => {
            assert!(!report.move_failed);
            assert_eq!(report.unloaded, Some(Err(Code::Killed)));
        }
        _ => panic!("report expected"),
    }
}

#[test]
fn sinks_are_torn_down_despite_failures() {
    let rec = sink("rec", 10, Some(7));
    let (mut teardown, _) = SinkTeardown::tear_down_virtual_sink(&rec, None);
    let step = teardown.resume(TeardownReply::Inputs(Err(Code::Killed)));
    assert!(matches!(step, TeardownStep::Request(TeardownRequest::UnloadModule(7))));
    let (mut teardown, _) = SinkTeardown::tear_down_virtual_sink(&rec, None);
    let _ = teardown.resume(TeardownReply::Inputs(Ok(vec![5])));
    let step = teardown.resume(TeardownReply::Sink(Err(Code::NoEntity)));
    assert!(matches!(step, TeardownStep::Request(TeardownRequest::UnloadModule(7))));
    let unowned = sink("rec", 10, None);
    let (mut teardown, _) = SinkTeardown::tear_down_virtual_sink(&unowned, None);
    match teardown.resume(TeardownReply::Inputs(Ok(Vec::new()))) {
        TeardownStep::Done(report) => assert_eq!(report.unloaded, None),
        _ => panic!("report expected"),
    }
}

#[test]
fn all_applications_are_stopped() {
    let mut stop_all = StopAll::new(vec![5, 6]);
    let first = stop_all.next_input().unwrap();
    stop_all.stopped(first, Err(Code::Killed));
    let second = stop_all.next_input().unwrap();
    stop_all.stopped(second, Ok(true));
    assert_eq!(first + second, 11);
    assert_eq!(stop_all.next_input(), None);
    assert_eq!(stop_all.into_failures(), [(first, Code::Killed)]);
}

#[test]
fn errors_are_converted_and_explained() {
    let e = InterceptError::from(Code::Access);
    assert_eq!(e.code(), Some(Code::Access));
    assert_eq!(e.message("Access denied"), "Access denied");
}

#[test]
fn queued_interceptors_give_back_what_they_wrap() {
    let mut queued = QueuedInterceptor::from_inner(SingleInputMonitor::new());
    let step = queued.record(input(5, 2, false), false);
    assert!(matches!(complete(&mut queued, step, true), Outcome::Recorded(Ok(()))));
    let mut inner = queued.into_inner();
    assert_eq!(inner.len(), 1);
    assert_eq!(request(inner.stop(5, true)), Request::StopStream);
}

#[test]
fn modules_have_names() {
    assert_eq!(Module::NullSink.name(), "module-null-sink");
    assert_eq!(Module::CombineSink.name(), "module-combine-sink");
}
