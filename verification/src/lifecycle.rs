//! The lifecycle of the application.

use tokio::task::JoinError;
use vstd::prelude::*;

use crate::cfg::{ApplicationConfig, SelectedConsumer};
use crate::util::fmt as fmt_util;
use crate::util::fmt::DisplayLength;
use crate::util::task;
use crate::util::task::TaskOutcome;
use crate::util::text;

verus! {

/// The number of threads to use in the application runtime, if none is otherwise
/// specified.
pub const DEFAULT_WORKER_THREADS: usize = 2;

/// The name that stands for standard output in place of the name of a file.
pub const STDOUT_FILE: &'static str = "-";

// TYPE DEFINITIONS ************************************************************

/// Where to send audio to.
#[derive(Debug)]
pub enum ConsumerPlan<'a> {
    /// Play audio in a Discord voice channel.
    Discord,

    /// Write audio to the file with the given name.
    Wav(&'a str),

    /// Write audio to standard output.
    WavStdout,
}

/// Events that influence whether the application keeps running.
#[derive(Debug)]
pub enum MonitorEvent {
    /// The application was interrupted. If it is not possible to listen for
    /// interrupts, the reason is provided as a string.
    Interrupted(Result<(), String>),

    /// A task of the sound driver or the audio consumer ended.
    TaskEnded(Option<Result<(), JoinError>>),
}

/// Monitors the tasks of the application and initiates a graceful shutdown when
/// conditions are met (either on an interrupt or when a monitored task panics).
#[derive(Debug)]
pub struct ApplicationMonitor {
    interrupt_read: bool,
    shutdown_result: Result<(), String>,
}

// MODELS **********************************************************************

/// The contents of a [`MonitorEvent`].
pub enum MonitorEventView {
    Interrupted(Result<(), Seq<char>>),
    TaskEnded(TaskOutcome),
}

/// The state of an [`ApplicationMonitor`].
pub struct MonitorState {
    /// Whether the application was interrupted.
    pub interrupt_read: bool,

    /// The result of the application.
    pub result: Result<(), Seq<char>>,
}

impl View for MonitorEvent {
    type V = MonitorEventView;

    open spec fn view(&self) -> MonitorEventView {
        match *self {
            MonitorEvent::Interrupted(Ok(())) => MonitorEventView::Interrupted(Ok(())),
            MonitorEvent::Interrupted(Err(e)) => MonitorEventView::Interrupted(Err(e@)),
            MonitorEvent::TaskEnded(task) => MonitorEventView::TaskEnded(TaskOutcome::of(task)),
        }
    }
}

impl MonitorEventView {
    /// The reason for which this event makes the application fail, if it does.
    pub open spec fn failure(self) -> Option<Seq<char>> {
        match self {
            MonitorEventView::Interrupted(Err(e)) => Some(e),
            MonitorEventView::TaskEnded(TaskOutcome::Panicked) => Some(
                "Fatal error in application task"@,
            ),
            _ => None,
        }
    }

    /// Whether this event initiates a graceful shutdown.
    pub open spec fn shuts_down(self) -> bool {
        self is Interrupted || self.failure() is Some
    }
}

impl MonitorState {
    /// The state at the start of the application.
    pub open spec fn initial() -> MonitorState {
        MonitorState { interrupt_read: false, result: Ok(()) }
    }

    /// The state after the given event.
    pub open spec fn next(self, event: MonitorEventView) -> MonitorState {
        MonitorState {
            interrupt_read: self.interrupt_read || event is Interrupted,
            result: match event.failure() {
                Some(e) => Err(e),
                None => self.result,
            },
        }
    }

    /// The state after all of the given events.
    pub open spec fn after(self, events: Seq<MonitorEventView>) -> MonitorState
        decreases events.len(),
    {
        if events.len() == 0 {
            self
        } else {
            self.after(events.drop_last()).next(events.last())
        }
    }
}

/// The message listing the application's name, authors, and version, between
/// lines that are as long as the longest one of them.
pub open spec fn startup_lines(
    name: Seq<char>,
    version: Seq<char>,
    authors: Seq<char>,
) -> Seq<Seq<char>> {
    let title = name + " v"@ + version;
    let copyright = "(c) "@ + authors;
    let decoration = text::repeated(
        '=',
        fmt_util::max_nat(fmt_util::text_length(title), fmt_util::text_length(copyright)),
    );
    seq![decoration, title, copyright, decoration]
}

// TYPE IMPLS ******************************************************************

impl ApplicationMonitor {
    /// The state of the application.
    pub closed spec fn view(&self) -> MonitorState {
        MonitorState {
            interrupt_read: self.interrupt_read,
            result: match self.shutdown_result {
                Ok(()) => Ok(()),
                Err(e) => Err(e@),
            },
        }
    }

    /// Creates a monitor for an application that has just been started.
    pub fn new() -> (r: Self)
        ensures
            r@ == MonitorState::initial(),
    {
        ApplicationMonitor { interrupt_read: false, shutdown_result: Ok(()) }
    }

    /// Determines whether the application still has to listen for interrupts.
    pub fn awaits_interrupt(&self) -> (r: bool)
        ensures
            r == !self@.interrupt_read,
    {
        !self.interrupt_read
    }

    /// Determines whether the application is still running, given whether there
    /// are no tasks of the sound driver and the audio consumer left.
    ///
    /// An interrupt does not end the application on its own, because its tasks
    /// have to be able to shut down gracefully.
    pub fn is_running(&self, driver_done: bool, consumer_done: bool) -> (r: bool)
        ensures
            r == !(driver_done && consumer_done),
    {
        !(driver_done && consumer_done)
    }

    /// Handles the given event, and determines whether it initiates a graceful
    /// shutdown.
    pub fn handle(&mut self, event: MonitorEvent) -> (r: bool)
        ensures
            final(self)@ == old(self)@.next(event@),
            r == event@.shuts_down(),
    {
        match event {
            MonitorEvent::Interrupted(interrupted) => {
                self.interrupt_read = true;
                if let Err(e) = interrupted {
                    self.shutdown_result = Err(e);
                }
                true
            },
            MonitorEvent::TaskEnded(task) => match task::handle_task_complete(task) {
                Ok(()) => false,
                Err(e) => {
                    self.shutdown_result = Err(e);
                    true
                },
            },
        }
    }

    /// Returns the result of the application.
    pub fn into_result(self) -> (r: Result<(), String>)
        ensures
            match r {
                Ok(()) => self@.result is Ok,
                Err(e) => self@.result == Err::<(), Seq<char>>(e@),
            },
    {
        self.shutdown_result
    }
}

// FUNCTIONS *******************************************************************

/// Renders a message listing the application's name, authors, and version.
pub fn startup_message(name: &str, version: &str, authors: &str) -> (r: Vec<String>)
    ensures
        text::views(r@) == startup_lines(name@, version@, authors@),
{
    let mut title = name.to_owned();
    title.append(" v");
    title.append(version);
    let mut copyright = "(c) ".to_owned();
    copyright.append(authors);
    let length: usize = fmt_util::max_length(title.display_length(), copyright.display_length());

    let mut r: Vec<String> = Vec::new();
    r.push(text::repeat_char('=', length));
    r.push(title);
    r.push(copyright);
    r.push(text::repeat_char('=', length));
    assert(text::views(r@) =~= startup_lines(name@, version@, authors@));
    r
}

/// Determines the number of threads to use in the application runtime.
pub fn worker_threads<V>(config: &ApplicationConfig<V>) -> (r: usize)
    ensures
        r == (match config.threads {
            Some(threads) => threads,
            None => 2,
        }),
{
    match config.threads {
        Some(threads) => threads,
        None => DEFAULT_WORKER_THREADS,
    }
}

/// Determines where to send audio to. A file named `-` is standard output.
pub fn plan_consumer<'a, V>(config: &'a ApplicationConfig<V>, consumer: SelectedConsumer) -> (r:
    Result<ConsumerPlan<'a>, String>)
    ensures
        match consumer {
            SelectedConsumer::Discord => r matches Ok(ConsumerPlan::Discord),
            SelectedConsumer::Wav => match config.output_file {
                Some(file) => if file@ == STDOUT_FILE@ {
                    r matches Ok(ConsumerPlan::WavStdout)
                } else {
                    r matches Ok(ConsumerPlan::Wav(f)) && f@ == file@
                },
                None => r matches Err(e) && e@ == "Wav consumer requires -o/--output-file"@,
            },
        },
{
    match consumer {
        SelectedConsumer::Discord => Ok(ConsumerPlan::Discord),
        SelectedConsumer::Wav => match &config.output_file {
            Some(file) => if text::same_text(file.as_str(), STDOUT_FILE) {
                Ok(ConsumerPlan::WavStdout)
            } else {
                Ok(ConsumerPlan::Wav(file.as_str()))
            },
            None => Err("Wav consumer requires -o/--output-file".to_owned()),
        },
    }
}

/// Determines the bot token with which to look up available Discord servers.
pub fn server_list_token<'a, V>(config: &'a ApplicationConfig<V>) -> (r: Result<&'a str, String>)
    ensures
        match config.discord.token {
            Some(token) => r matches Ok(t) && t@ == token@,
            None => r matches Err(e) && e@
                == "A Discord bot token is required to use this application."@,
        },
{
    match &config.discord.token {
        Some(token) => Ok(token.as_str()),
        None => Err("A Discord bot token is required to use this application.".to_owned()),
    }
}

/// Renders the given reason for which available Discord servers could not be
/// looked up.
pub fn server_list_failure(e: &str) -> (r: String)
    ensures
        r@ == "Failed to look up available Discord servers: "@ + e@,
{
    let mut r = "Failed to look up available Discord servers: ".to_owned();
    r.append(e);
    r
}

// LAWS ************************************************************************

/// The application fails if and only if one of the events it monitors is a
/// failure. Every failure initiates a graceful shutdown.
pub proof fn law_failures_are_reported(events: Seq<MonitorEventView>)
    ensures
        MonitorState::initial().after(events).result is Err <==> exists|i: int|
            0 <= i < events.len() && (#[trigger] events[i]).failure() is Some,
        forall|i: int|
            0 <= i < events.len() && (#[trigger] events[i]).failure() is Some
                ==> events[i].shuts_down(),
    decreases events.len(),
{
    if events.len() > 0 {
        let before = events.drop_last();
        law_failures_are_reported(before);
        if exists|i: int| 0 <= i < before.len() && (#[trigger] before[i]).failure() is Some {
            let i = choose|i: int|
                0 <= i < before.len() && (#[trigger] before[i]).failure() is Some;
            assert(events[i].failure() is Some);
        }
        if exists|i: int| 0 <= i < events.len() && (#[trigger] events[i]).failure() is Some {
            let i = choose|i: int|
                0 <= i < events.len() && (#[trigger] events[i]).failure() is Some;
            if i < before.len() {
                assert(before[i].failure() is Some);
            }
        }
    }
}

/// The application only listens for interrupts until the first one.
pub proof fn law_interrupted_once(state: MonitorState, events: Seq<MonitorEventView>)
    requires
        state.interrupt_read,
    ensures
        state.after(events).interrupt_read,
    decreases events.len(),
{
    if events.len() > 0 {
        law_interrupted_once(state, events.drop_last());
    }
}

/// Tasks that complete or are cancelled neither shut the application down nor
/// change its result.
pub proof fn law_completion_is_no_failure(state: MonitorState, outcome: TaskOutcome)
    requires
        outcome !is Panicked,
    ensures
        !MonitorEventView::TaskEnded(outcome).shuts_down(),
        state.next(MonitorEventView::TaskEnded(outcome)) == state,
{
}

} // verus!
