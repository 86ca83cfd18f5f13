use bardcast::cfg::{
    parse_config_file, validate_regex, Action, ApplicationConfig, InterceptMode,
};
use bardcast::cfg::SelectedConsumer;
use bardcast::lifecycle::{
    plan_consumer, server_list_failure, server_list_token, startup_message, worker_threads,
    ApplicationMonitor, ConsumerPlan, MonitorEvent,
};
use bardcast::snd::pulse::cfg::PulseDriverConfig;
use bardcast::snd::pulse::context::stream::SinkId;
use bardcast::snd::pulse::error::{Code, PulseDriverError};
use bardcast::snd::pulse::event::{AudioEntity, ChangeEvent};
use bardcast::snd::pulse::intercept::InterceptorKind;
use bardcast::snd::pulse::owned::{OwnedSinkInputInfo, Property};
use bardcast::snd::pulse::{
    plan_driver, start_failure, DriverComponent, DriverPlan, ProplistMatcher, StartStage,
};
use bardcast::snd::types::{read_timeout, DriverInitError, StartError};
use bardcast::snd::{list_drivers, DriverName, DriverSearch, SearchStep};
use bardcast::util::task::{
    check_task_outcome, handle_task_complete, needs_abort, task_outcome, ControlledJoinHandle,
    JoinStep, TaskOutcome, TaskSetBuilder, ValueJoinHandle,
};
use bardcast::util::{check_shutdown_rx, opt_oneshot_try_send, Lessor, ShutdownSignal};
use tokio::runtime::{Builder, Runtime};
use tokio::sync::{oneshot, watch};
use tokio::task::JoinError;

fn config(contents: &str) -> ApplicationConfig<f64> {
    let ini = parse_config_file(contents.to_string()).unwrap();
    ApplicationConfig::from_ini(&ini, Ok(None)).unwrap()
}

fn pulse(contents: &str) -> PulseDriverConfig<f64> {
    config(contents).pulse
}

fn runtime() -> Runtime {
    Builder::new_current_thread().build().unwrap()
}

fn panicked() -> JoinError {
    runtime().block_on(async {
        let task: tokio::task::JoinHandle<()> = tokio::spawn(async { panic!("on purpose") });
        task.await.unwrap_err()
    })
}

fn cancelled() -> JoinError {
    runtime().block_on(async {
        let task = tokio::spawn(std::future::pending::<()>());
        task.abort();
        task.await.unwrap_err()
    })
}

fn property(key: &str, value: Option<&str>) -> Property {
    Property { key: key.to_string(), value: value.map(String::from) }
}

#[test]
fn startup_message_is_framed() {
    assert_eq!(
        startup_message("bardcast", "0.2.0", "Jane Doe"),
        ["===============", "bardcast v0.2.0", "(c) Jane Doe", "==============="]
    );
    assert_eq!(
        startup_message("b", "1", "Somebody"),
        ["============", "b v1", "(c) Somebody", "============"]
    );
    assert_eq!(
        startup_message("b", "1", "Zo\u{eb}"),
        ["=======", "b v1", "(c) Zo\u{eb}", "======="]
    );
}

#[test]
fn two_threads_are_used_by_default() {
    assert_eq!(worker_threads(&config("")), 2);
    assert_eq!(worker_threads(&config("threads = 5\n")), 5);
}

#[test]
fn consumers_are_planned() {
    let mut config = config("");
    assert!(matches!(
        plan_consumer(&config, SelectedConsumer::Discord),
        Ok(ConsumerPlan::Discord)
    ));
    assert_eq!(
        plan_consumer(&config, SelectedConsumer::Wav).unwrap_err(),
        "Wav consumer requires -o/--output-file"
    );
    config.output_file = Some("a.wav".to_string());
    assert!(matches!(
        plan_consumer(&config, SelectedConsumer::Wav),
        Ok(ConsumerPlan::Wav("a.wav"))
    ));
    config.output_file = Some("-".to_string());
    assert!(matches!(
        plan_consumer(&config, SelectedConsumer::Wav),
        Ok(ConsumerPlan::WavStdout)
    ));
}

#[test]
fn listing_servers_needs_a_token() {
    assert_eq!(server_list_token(&config("[discord]\ntoken = t\n")), Ok("t"));
    assert_eq!(
        server_list_token(&config("")),
        Err("A Discord bot token is required to use this application.".to_string())
    );
    assert_eq!(
        server_list_failure("offline"),
        "Failed to look up available Discord servers: offline"
    );
}

#[test]
fn applications_run_until_their_tasks_end() {
    let monitor = ApplicationMonitor::new();
    assert!(monitor.is_running(false, false));
    assert!(monitor.is_running(true, false));
    assert!(monitor.is_running(false, true));
    assert!(!monitor.is_running(true, true));
    assert_eq!(monitor.into_result(), Ok(()));
}

#[test]
fn interrupts_shut_down_gracefully() {
    let mut monitor = ApplicationMonitor::new();
    assert!(monitor.awaits_interrupt());
    assert!(monitor.handle(MonitorEvent::Interrupted(Ok(()))));
    assert!(!monitor.awaits_interrupt());
    assert!(!monitor.handle(MonitorEvent::TaskEnded(Some(Ok(())))));
    assert_eq!(monitor.into_result(), Ok(()));
    let mut monitor = ApplicationMonitor::new();
    assert!(monitor.handle(MonitorEvent::Interrupted(Err("no signals".to_string()))));
    assert_eq!(monitor.into_result(), Err("no signals".to_string()));
}

#[test]
fn panics_shut_down_the_application() {
    let mut monitor = ApplicationMonitor::new();
    assert!(!monitor.handle(MonitorEvent::TaskEnded(Some(Err(cancelled())))));
    assert!(!monitor.handle(MonitorEvent::TaskEnded(None)));
    assert!(monitor.handle(MonitorEvent::TaskEnded(Some(Err(panicked())))));
    assert!(!monitor.handle(MonitorEvent::TaskEnded(Some(Ok(())))));
    assert!(monitor.awaits_interrupt());
    assert_eq!(monitor.into_result(), Err("Fatal error in application task".to_string()));
}

#[test]
fn task_outcomes_are_told_apart() {
    assert_eq!(task_outcome(None), TaskOutcome::NoTask);
    assert_eq!(task_outcome(Some(Ok(()))), TaskOutcome::Completed);
    assert_eq!(task_outcome(Some(Err(cancelled()))), TaskOutcome::Cancelled);
    assert_eq!(task_outcome(Some(Err(panicked()))), TaskOutcome::Panicked);
    assert_eq!(check_task_outcome(TaskOutcome::Cancelled), Ok(()));
    assert!(check_task_outcome(TaskOutcome::Panicked).is_err());
    assert_eq!(handle_task_complete(Some(Err(cancelled()))), Ok(()));
    assert!(handle_task_complete(Some(Err(panicked()))).is_err());
}

#[test]
fn controlled_tasks_are_signaled() {
    let (tx, mut rx) = oneshot::channel();
    let handle: ControlledJoinHandle<&str, u8> = ControlledJoinHandle::new("task", tx);
    assert_eq!(handle.active_task(), Some(&"task"));
    assert!(matches!(
        handle.signal(),
        JoinStep::Await { task: "task", signaled: true }
    ));
    assert_eq!(rx.try_recv(), Ok(()));
    let (tx, rx) = oneshot::channel();
    drop(rx);
    let handle: ControlledJoinHandle<&str, u8> = ControlledJoinHandle::new("task", tx);
    assert!(matches!(handle.signal(), JoinStep::Await { signaled: false, .. }));
    assert!(needs_abort(false, false));
    assert!(!needs_abort(false, true));
    assert!(!needs_abort(true, false));
}

#[test]
fn controlled_tasks_keep_their_result() {
    let (tx, _rx) = oneshot::channel();
    let mut handle: ControlledJoinHandle<&str, u8> = ControlledJoinHandle::new("task", tx);
    handle.complete(3);
    handle.complete(4);
    assert_eq!(handle.active_task(), None);
    assert!(matches!(handle.signal(), JoinStep::Returned(3)));
}

#[test]
fn task_sets_are_built() {
    let mut builder = TaskSetBuilder::new();
    builder.insert(1);
    let value = builder.detaching_insert(ValueJoinHandle::new("value", 2));
    assert_eq!(value, "value");
    assert_eq!(builder.build(), Some(vec![1, 2]));
    assert_eq!(TaskSetBuilder::<u8>::new().build(), None);
    let mut handle = ValueJoinHandle::new(1, "task");
    *handle.as_mut() = 5;
    assert_eq!(*handle.as_ref(), 5);
    assert_eq!(handle.into_tuple(), (5, "task"));
}

#[test]
fn leased_values_return_to_their_lessor() {
    let mut lessor = Lessor::new(1);
    assert_eq!(lessor.as_ref(), Some(&1));
    assert!(lessor.release_channel().is_none());
    let mut lease = lessor.lease().unwrap();
    assert!(lessor.lease().is_none());
    assert_eq!(lessor.as_ref(), None);
    *lease.as_mut() = 2;
    assert_eq!(*lease.as_ref(), 2);
    assert_eq!(lease.release(), Ok(()));
    let value = lessor.release_channel().unwrap().try_recv().unwrap();
    lessor.reclaim(value);
    assert_eq!(lessor.as_ref(), Some(&2));
    let lease = lessor.lease().unwrap();
    drop(lessor);
    assert_eq!(lease.release(), Err(2));
}

#[test]
fn shutdown_is_noticed_without_waiting() {
    let (tx, mut rx) = watch::channel(true);
    assert!(check_shutdown_rx(&mut rx));
    tx.send(true).unwrap();
    assert!(check_shutdown_rx(&mut rx));
    tx.send(false).unwrap();
    assert!(!check_shutdown_rx(&mut rx));
    drop(tx);
    assert!(!check_shutdown_rx(&mut rx));
    assert!(ShutdownSignal::Unchanged.is_running());
    assert!(!ShutdownSignal::Closed.is_running());
}

#[test]
fn values_are_sent_at_most_once() {
    let (tx, mut rx) = oneshot::channel();
    let mut tx = Some(tx);
    assert_eq!(opt_oneshot_try_send(&mut tx, 1), Ok(()));
    assert_eq!(opt_oneshot_try_send(&mut tx, 2), Err(2));
    assert_eq!(rx.try_recv(), Ok(1));
    let (tx, rx) = oneshot::channel();
    drop(rx);
    assert_eq!(opt_oneshot_try_send(&mut Some(tx), 3), Err(3));
}

#[test]
fn drivers_are_listed() {
    assert_eq!(list_drivers(), ["pulse"]);
}

#[test]
fn requested_drivers_are_the_only_ones_tried() {
    let (mut search, step) = DriverSearch::new::<u8>(Some("pulse"));
    assert!(matches!(step, SearchStep::TryDriver(DriverName::Pulse)));
    let step = search.resume::<u8>(Err(StartError::ConnectionError("x".to_string())));
    assert!(matches!(step, SearchStep::Done(Err(StartError::ConnectionError(_)))));
    let (_, step) = DriverSearch::new::<u8>(Some("jack"));
    match step {
        SearchStep::Done(Err(e)) => assert_eq!(e.message(), "No such sound driver 'jack'"),
        _ => panic!("error expected"),
    }
}

#[test]
fn drivers_are_detected() {
    let (mut search, step) = DriverSearch::new::<u8>(None);
    assert!(matches!(step, SearchStep::TryDriver(DriverName::Pulse)));
    assert!(matches!(search.resume(Ok(7)), SearchStep::Done(Ok(7))));
    let (mut search, _) = DriverSearch::new::<u8>(None);
    let step = search.resume::<u8>(Err(StartError::ConnectionError("x".to_string())));
    match step {
        SearchStep::Done(Err(e)) => assert_eq!(e.message(), "No audio backends available"),
        _ => panic!("error expected"),
    }
    let (mut search, _) = DriverSearch::new::<u8>(None);
    let step = search.resume::<u8>(Err(StartError::DriverInitializationError("y".to_string())));
    assert!(matches!(step, SearchStep::Done(Err(StartError::DriverInitializationError(_)))));
}

#[test]
fn start_errors_are_explained() {
    assert_eq!(
        StartError::ConnectionError("x".to_string()).message(),
        "Sound driver failed to connect to backend: x"
    );
    assert_eq!(
        StartError::ConsumerInitializationError("x".to_string()).message(),
        "Audio consumer failed to initialize: x"
    );
    let e = DriverInitError::InitializationError(1);
    assert_eq!(*e.source(), 1);
    assert_eq!(e.message("y"), "Sound driver failed to initialize: y");
    assert_eq!(
        e.into_start_error("y".to_string()).message(),
        "Sound driver failed to initialize: y"
    );
    let e = DriverInitError::ConnectionError(1);
    assert_eq!(e.message("y"), "Sound driver failed to connect to backend: y");
    assert!(matches!(e.into_start_error("y".to_string()), StartError::ConnectionError(_)));
}

#[test]
fn driver_failures_are_classified() {
    let explain = |stage| match start_failure(stage, Code::Access) {
        DriverInitError::ConnectionError(e) => (true, e.message("denied")),
        DriverInitError::InitializationError(e) => (false, e.message("denied")),
    };
    assert_eq!(
        explain(StartStage::Connect),
        (true, "Error in driver component 'context': denied".to_string())
    );
    assert_eq!(
        explain(StartStage::Subscribe),
        (false, "Error in driver component 'event handler': denied".to_string())
    );
    assert_eq!(
        explain(StartStage::Intercept),
        (false, "Error in driver component 'stream interceptor': denied".to_string())
    );
    assert_eq!(
        explain(StartStage::Monitor),
        (false, "Error in driver component 'record stream': denied".to_string())
    );
}

#[test]
fn driver_errors_have_codes() {
    let e = PulseDriverError::from(DriverComponent::Stream.to_error(Code::Killed));
    assert_eq!(e.code(), Some(Code::Killed));
    let e = PulseDriverError::from(Code::Timeout);
    assert_eq!(e.code(), Some(Code::Timeout));
    assert_eq!(e.message("too slow"), "PulseAudio error: too slow");
    let e = PulseDriverError::BadConfig("reason".to_string());
    assert_eq!(e.code(), None);
    assert_eq!(e.message(""), "Invalid driver configuration: reason");
}

#[test]
fn reads_time_out() {
    assert_eq!(read_timeout(None), 250);
    assert_eq!(read_timeout(Some(10)), 10);
}

#[test]
fn properties_are_matched() {
    let regex = validate_regex(&Some("vlc".to_string())).unwrap().unwrap();
    let matcher = ProplistMatcher::new(vec!["application.name".to_string()], regex);
    assert!(matcher.matches(&vec![property("application.name", Some("my vlc"))]));
    assert!(!matcher.matches(&vec![property("media.name", Some("vlc"))]));
    assert!(!matcher.matches(&vec![property("application.name", None)]));
    assert!(!matcher.matches(&Vec::new()));
    assert!(matcher.matches(&vec![
        property("application.name", Some("mpv")),
        property("application.name", Some("vlc")),
    ]));
    let input = OwnedSinkInputInfo {
        index: 1,
        name: None,
        sink: 2,
        corked: false,
        proplist: vec![property("application.name", Some("mpv"))],
    };
    let event = ChangeEvent::New(AudioEntity::Info(input));
    assert!(!matcher.accepts(&event));
    assert!(matcher.filter(event).is_none());
    assert!(matcher.accepts(&ChangeEvent::New(AudioEntity::Index(1))));
    match matcher.filter(ChangeEvent::Removed(AudioEntity::Index(1))) {
        Some(event) => assert!(matches!(event, ChangeEvent::Removed(AudioEntity::Index(1)))),
        None => panic!("event expected"),
    }
}

#[test]
fn applications_are_peeked_at_by_default() {
    match plan_driver(&pulse("[pulse]\nstream-regex = vlc\nsink-index = 4\n")) {
        Ok(DriverPlan::Intercept { matcher, interceptor, sink }) => {
            assert_eq!(interceptor, InterceptorKind::Duplexing { limit: None, queued: false });
            assert!(matches!(sink, Some(SinkId::Index(4))));
            assert!(matcher.matches(&vec![property("application.name", Some("vlc"))]));
            assert!(matcher.matches(&vec![property("application.process.binary", Some("vlc"))]));
            assert!(!matcher.matches(&vec![property("media.name", Some("vlc"))]));
        }
        _ => panic!("interception expected"),
    }
}

#[test]
fn configured_properties_are_matched() {
    let contents = "[pulse]\nstream-regex = vlc\nstream-properties = media.name\n\
                    intercept-mode = capture\n";
    match plan_driver(&pulse(contents)) {
        Ok(DriverPlan::Intercept { matcher, interceptor, .. }) => {
            assert_eq!(interceptor, InterceptorKind::Capturing { limit: None, queued: false });
            assert!(matcher.matches(&vec![property("media.name", Some("vlc"))]));
            assert!(!matcher.matches(&vec![property("application.name", Some("vlc"))]));
        }
        _ => panic!("interception expected"),
    }
}

#[test]
fn sinks_are_monitored_without_a_filter() {
    let mut config = pulse("[pulse]\nintercept-mode = monitor\nsink-name = speakers\n");
    assert!(matches!(
        plan_driver(&config),
        Ok(DriverPlan::Monitor { sink: Some(SinkId::Name("speakers")) })
    ));
    config.intercept_mode = Some(InterceptMode::Capture);
    match plan_driver(&config) {
        Err(e) => assert_eq!(
            e.message(""),
            "Invalid driver configuration: The `capture' intercept mode requires \
             -E/--stream-regex"
        ),
        Ok(_) => panic!("error expected"),
    }
}

#[test]
fn controlled_tasks_are_accessible_until_they_return() {
    let (tx, _rx) = oneshot::channel();
    let mut handle: ControlledJoinHandle<&str, u8> = ControlledJoinHandle::new("task", tx);
    *handle.active_task_mut().unwrap() = "other";
    assert_eq!(handle.active_task(), Some(&"other"));
    handle.complete(3);
    assert_eq!(handle.active_task_mut(), None);
}

#[test]
fn target_sinks_of_arguments_take_precedence() {
    let target = |file: &str, args: &str| {
        let mut merged = config(&format!("[pulse]\nintercept-mode = monitor\n{}", file));
        merged.merge(config(&format!("[pulse]\n{}", args)));
        match plan_driver(&merged.pulse) {
            Ok(DriverPlan::Monitor { sink }) => sink.map(|sink| sink.describe()),
            _ => panic!("sink expected"),
        }
    };
    let both = "sink-index = 1\nsink-name = speakers";
    assert_eq!(target("", ""), None);
    assert_eq!(target("sink-name = speakers", ""), Some("speakers".to_string()));
    assert_eq!(target(both, ""), Some("sink index 1".to_string()));
    assert_eq!(target(both, "sink-name = headphones"), Some("headphones".to_string()));
    assert_eq!(target(both, "sink-index = 2"), Some("sink index 2".to_string()));
    assert_eq!(
        target(both, "sink-index = 2\nsink-name = headphones"),
        Some("sink index 2".to_string())
    );
}

#[test]
fn validated_modes_can_be_driven() {
    let run = Action::Run(SelectedConsumer::Wav);
    for mode in ["capture", "peek", "monitor"] {
        for regex in ["", "stream-regex = vlc\n"] {
            let config = config(&format!(
                "[wav]\noutput-file = out.wav\n[pulse]\n{}intercept-mode = {}\n",
                regex, mode
            ));
            let valid = config.validate_semantics(run).is_ok();
            assert_eq!(valid, mode == "monitor" || !regex.is_empty());
            assert_eq!(plan_driver(&config.pulse).is_ok(), valid);
        }
    }
}
