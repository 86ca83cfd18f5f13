//! Laws that hold of the lifecycle of the application as a whole.

use tokio::task::JoinError;
use vstd::prelude::*;

use crate::cfg::{ApplicationConfig, SelectedConsumer};
use crate::lifecycle;
use crate::lifecycle::{ApplicationMonitor, ConsumerPlan, MonitorEvent};
use crate::util::task;

verus! {

/// A monitor starts out without a failure, and listens for interrupts. An interrupt
/// shuts the application down, and it no longer listens for them.
pub proof fn law_interrupts_shut_down()
    ensures
        forall|monitor: ApplicationMonitor| #[trigger]
            call_ensures(ApplicationMonitor::new, (), monitor) ==> monitor@.result is Ok
                && !monitor@.interrupt_read,
        forall|monitor: &mut ApplicationMonitor, interrupted: Result<(), String>, r: bool| #[trigger]
            call_ensures(
                ApplicationMonitor::handle,
                (monitor, MonitorEvent::Interrupted(interrupted)),
                r,
            ) ==> {
                &&& r
                &&& final(monitor)@.interrupt_read
                &&& interrupted is Ok ==> final(monitor)@.result == monitor@.result
                &&& interrupted matches Err(e) ==> final(monitor)@.result == Err::<(), Seq<char>>(e@)
            },
        forall|monitor: ApplicationMonitor, r: bool| #[trigger]
            call_ensures(ApplicationMonitor::awaits_interrupt, (&monitor,), r) ==> r
                == !monitor@.interrupt_read,
{
}

/// A task that panics shuts the application down and makes it fail. Tasks that end
/// otherwise do neither, and no task that ends has an influence on whether the
/// application listens for interrupts.
pub proof fn law_panics_shut_down()
    ensures
        forall|
            monitor: &mut ApplicationMonitor,
            ended: Option<Result<(), JoinError>>,
            r: bool,
        | #[trigger]
            call_ensures(
                ApplicationMonitor::handle,
                (monitor, MonitorEvent::TaskEnded(ended)),
                r,
            ) ==> {
                let panicked = ended matches Some(Err(e)) && task::caused_by_panic(e);
                &&& r == panicked
                &&& final(monitor)@.interrupt_read == monitor@.interrupt_read
                &&& panicked ==> final(monitor)@.result == Err::<(), Seq<char>>(
                    "Fatal error in application task"@,
                )
                &&& !panicked ==> final(monitor)@.result == monitor@.result
            },
{
}

/// The application runs until both the sound driver and the audio consumer are
/// done, whatever else has happened. Its result is the last failure, if any.
pub proof fn law_runs_until_both_are_done(
    monitor: ApplicationMonitor,
    driver_done: bool,
    consumer_done: bool,
    running: bool,
    result: Result<(), String>,
)
    requires
        call_ensures(
            ApplicationMonitor::is_running,
            (&monitor, driver_done, consumer_done),
            running,
        ),
        call_ensures(ApplicationMonitor::into_result, (monitor,), result),
    ensures
        running <==> !driver_done || !consumer_done,
        result is Ok <==> monitor@.result is Ok,
        result matches Err(e) ==> monitor@.result == Err::<(), Seq<char>>(e@),
{
}

/// Audio is sent to where it was configured to be sent. A file is needed only by
/// the consumer that writes files, and one named `-` is standard output.
pub proof fn law_consumer_is_planned<'a, V>(
    config: &'a ApplicationConfig<V>,
    consumer: SelectedConsumer,
    r: Result<ConsumerPlan<'a>, String>,
)
    requires
        call_ensures(lifecycle::plan_consumer::<V>, (config, consumer), r),
    ensures
        r is Err <==> consumer is Wav && config.output_file is None,
        consumer is Discord ==> r matches Ok(ConsumerPlan::Discord),
        consumer is Wav && (config.output_file matches Some(file) && file@ == "-"@) ==> r matches Ok(
            ConsumerPlan::WavStdout,
        ),
        consumer is Wav && (config.output_file matches Some(file) && file@ != "-"@) ==> (
        r matches Ok(ConsumerPlan::Wav(name)) && name@ == config.output_file->0@),
{
}

/// As many threads are used as configured, or two.
pub proof fn law_worker_threads<V>(config: ApplicationConfig<V>, r: usize)
    requires
        call_ensures(lifecycle::worker_threads::<V>, (&config,), r),
    ensures
        config.threads is None ==> r == 2,
        config.threads is Some ==> config.threads == Some(r),
{
}

/// Servers are looked up with the configured token, without which they cannot be.
pub proof fn law_server_list_token<'a, V>(
    config: &'a ApplicationConfig<V>,
    r: Result<&'a str, String>,
)
    requires
        call_ensures(lifecycle::server_list_token::<V>, (config,), r),
    ensures
        r is Ok <==> config.discord.token is Some,
        r matches Ok(token) ==> config.discord.token->0@ == token@,
{
}

/// The message at startup consists of the title and the copyright notice between
/// two lines that are exactly as long as the longer one of them.
pub proof fn law_startup_message(
    name: &str,
    version: &str,
    authors: &str,
    r: Vec<String>,
)
    requires
        call_ensures(lifecycle::startup_message, (name, version, authors), r),
    ensures
        r@.len() == 4,
        r@[1]@ == name@ + " v"@ + version@,
        r@[2]@ == "(c) "@ + authors@,
        r@[0]@ == r@[3]@,
        r@[0]@.len() >= r@[1]@.len() && r@[0]@.len() >= r@[2]@.len(),
        r@[0]@.len() == r@[1]@.len() || r@[0]@.len() == r@[2]@.len(),
        forall|i: int| 0 <= i < r@[0]@.len() ==> #[trigger] r@[0]@[i] == '=',
{
    let lines = crate::util::text::views(r@);
    assert(lines.len() == r@.len());
    assert(lines[0] == r@[0]@ && lines[1] == r@[1]@ && lines[2] == r@[2]@ && lines[3] == r@[3]@);
}

/// The reason why available servers could not be looked up is made clear.
pub proof fn law_failed_server_list(e: &str, r: String)
    requires
        call_ensures(lifecycle::server_list_failure, (e,), r),
    ensures
        r@ == "Failed to look up available Discord servers: "@ + e@,
{
}

} // verus!
