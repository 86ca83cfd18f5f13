//! Abstractions around the PulseAudio server connection.

pub mod async_polyfill;
pub mod collect;
pub mod introspect;
pub mod laws;
pub mod stream;

use vstd::prelude::*;

use crate::snd::pulse::error::Code;

verus! {

/// The maximum number of context operations that can be queued at once.
pub const OP_QUEUE_SIZE: usize = 32;

/// The default maximum interval between mainloop iterations in nanoseconds.
pub const DEFAULT_MAINLOOP_MAX_INTERVAL: u64 = 20_000_000;

/// The number of iterations over which to compute the delay for the next
/// mainloop iteration.
pub const MAINLOOP_ITER_TRACKING_LEN: usize = 5;

// TYPE DEFINITIONS ************************************************************

/// An iteration of the mainloop that dispatched events.
#[derive(Debug, Clone, Copy, PartialEq, Eq, Structural)]
pub struct Iteration {
    /// When the iteration took place, in nanoseconds since an arbitrary instant.
    pub time: u64,

    /// The number of dispatched events.
    pub events: u32,
}

/// Determines when to iterate the mainloop.
///
/// Polling the mainloop all the time would be far more often than necessary.
/// `MainloopTimer` uses the number of dispatched events on each iteration to
/// guess when the next iteration _should_ be.
#[derive(Debug)]
pub struct MainloopTimer {
    /// The latest iterations that dispatched events, the most recent one first.
    iterations: Vec<Iteration>,
    last_iter: u64,
    max_interval: u64,
}

/// What became of an iteration of the mainloop.
#[derive(Debug, Clone, Copy, PartialEq, Eq, Structural)]
pub enum IterateResult {
    /// The given number of events was dispatched.
    Success(u32),

    /// The mainloop was asked to quit.
    Quit,

    /// There was an error.
    Failed,
}

/// States of the connection to the server.
#[derive(Debug, Clone, Copy, PartialEq, Eq, Structural)]
pub enum ContextState {
    Unconnected,
    Connecting,
    Authorizing,
    SettingName,
    Ready,
    Failed,
    Terminated,
}

/// Events that the context handler reacts to.
#[derive(Debug, Clone, Copy, PartialEq, Eq, Structural)]
pub enum ContextEvent {
    /// The mainloop ended.
    MainloopEnded,

    /// An operation was submitted.
    Submitted,

    /// No more operations can be submitted.
    QueueClosed,
}

/// What the context handler does next.
#[derive(Debug, Clone, Copy, PartialEq, Eq, Structural)]
pub enum ContextAction {
    /// Execute the submitted operation, and wait for the next event.
    Execute,

    /// Disconnect from the server and shut down.
    ShutDown,

    /// Terminate abnormally.
    Abort,
}

// MODELS **********************************************************************

/// The time that passed between two iterations for each event dispatched by the
/// later one, in whole nanoseconds. No time passes if the clock goes backwards.
pub open spec fn event_interval(later: Iteration, earlier: Iteration) -> nat
    recommends
        later.events > 0,
{
    if later.time >= earlier.time {
        ((later.time - earlier.time) as nat) / (later.events as nat)
    } else {
        0
    }
}

/// The lesser of two numbers.
pub open spec fn min_nat(a: nat, b: nat) -> nat {
    if a <= b {
        a
    } else {
        b
    }
}

/// The smallest interval between two subsequent iterations for each event. There
/// is none unless there are at least two iterations.
pub open spec fn smallest_interval(iterations: Seq<Iteration>) -> Option<nat>
    decreases iterations.len(),
{
    if iterations.len() < 2 {
        None
    } else {
        let last = event_interval(
            iterations[iterations.len() - 2],
            iterations[iterations.len() - 1],
        );
        match smallest_interval(iterations.drop_last()) {
            Some(smallest) => Some(min_nat(smallest, last)),
            None => Some(last),
        }
    }
}

impl MainloopTimer {
    /// The latest iterations that dispatched events, the most recent one first.
    pub closed spec fn iterations(&self) -> Seq<Iteration> {
        self.iterations@
    }

    /// When the mainloop was iterated last.
    pub closed spec fn last_iter(&self) -> u64 {
        self.last_iter
    }

    /// The maximum interval between iterations.
    pub closed spec fn max_interval(&self) -> u64 {
        self.max_interval
    }

    /// What holds of the tracked iterations at all times: all of them dispatched
    /// events, and there are no more than need to be tracked.
    pub open spec fn well_formed(&self) -> bool {
        &&& self.iterations().len() <= MAINLOOP_ITER_TRACKING_LEN
        &&& forall|i: int|
            0 <= i < self.iterations().len() ==> (#[trigger] self.iterations()[i]).events > 0
    }

    /// The delay between the last and the next iteration, if it can be computed.
    pub open spec fn delay(&self) -> Option<nat> {
        match smallest_interval(self.iterations()) {
            Some(interval) => Some(min_nat(interval, self.max_interval() as nat)),
            None => None,
        }
    }
}

// TYPE IMPLS ******************************************************************

impl MainloopTimer {
    /// Creates a new timer, where the delay between iterations is no longer than
    /// the given number of microseconds.
    ///
    /// Nanoseconds that cannot be represented are far beyond any delay that can
    /// occur.
    pub fn new(now: u64, max_mainloop_interval_usec: Option<u64>) -> (r: Self)
        ensures
            r.well_formed(),
            r.iterations() == Seq::<Iteration>::empty(),
            r.last_iter() == now,
            r.max_interval() == (match max_mainloop_interval_usec {
                Some(usec) => min_nat(1000 * usec as nat, u64::MAX as nat),
                None => DEFAULT_MAINLOOP_MAX_INTERVAL as nat,
            }),
    {
        let max_interval: u64 = match max_mainloop_interval_usec {
            Some(usec) => if usec <= u64::MAX / 1000 {
                usec * 1000
            } else {
                u64::MAX
            },
            None => DEFAULT_MAINLOOP_MAX_INTERVAL,
        };
        MainloopTimer { iterations: Vec::new(), last_iter: now, max_interval }
    }

    /// Saves the number of processed events, if that number is nonzero. Also
    /// updates the last recorded iteration time as `iter_time`.
    pub fn save_processed_events(&mut self, iter_time: u64, processed_events: u32)
        requires
            old(self).well_formed(),
        ensures
            final(self).well_formed(),
            final(self).last_iter() == iter_time,
            final(self).max_interval() == old(self).max_interval(),
            final(self).iterations() == (if processed_events == 0 {
                old(self).iterations()
            } else {
                let all = seq![Iteration { time: iter_time, events: processed_events }]
                    + old(self).iterations();
                all.take(min_nat(all.len(), MAINLOOP_ITER_TRACKING_LEN as nat) as int)
            }),
    {
        if processed_events > 0 {
            let ghost before = self.iterations@;
            if self.iterations.len() == MAINLOOP_ITER_TRACKING_LEN {
                let _ = self.iterations.pop();
            }
            self.iterations.insert(0, Iteration { time: iter_time, events: processed_events });
            proof {
                let all = seq![Iteration { time: iter_time, events: processed_events }] + before;
                let kept = all.take(
                    min_nat(all.len(), MAINLOOP_ITER_TRACKING_LEN as nat) as int,
                );
                assert(self.iterations@ =~= kept);
                assert forall|i: int| 0 <= i < kept.len() implies (#[trigger] kept[i]).events > 0 by {
                    if i > 0 {
                        assert(kept[i] == before[i - 1]);
                    }
                }
            }
        }
        self.last_iter = iter_time;
    }

    /// Computes the smallest interval between two subsequent iterations.
    fn smallest(&self) -> (r: Option<u64>)
        requires
            self.well_formed(),
        ensures
            match r {
                Some(interval) => smallest_interval(self.iterations()) == Some(interval as nat),
                None => smallest_interval(self.iterations()) is None,
            },
    {
        let ghost all = self.iterations@;
        let mut min_interval: Option<u64> = None;
        let mut i: usize = 1;
        while i < self.iterations.len()
            invariant
                1 <= i,
                i <= self.iterations.len() || (i == 1 && self.iterations.len() == 0),
                all == self.iterations@,
                self.well_formed(),
                all == self.iterations(),
                match min_interval {
                    Some(interval) => i > 1 && smallest_interval(all.take(i as int)) == Some(
                        interval as nat,
                    ),
                    None => i == 1,
                },
            decreases self.iterations.len() - i,
        {
            let later = self.iterations[i - 1];
            let earlier = self.iterations[i];
            assert(all[i - 1].events > 0);
            let elapsed: u64 = if later.time >= earlier.time {
                later.time - earlier.time
            } else {
                0
            };
            let interval: u64 = elapsed / later.events as u64;
            proof {
                let next = all.take(i + 1);
                assert(next.drop_last() =~= all.take(i as int));
                assert(next[next.len() - 2] == later);
                assert(next[next.len() - 1] == earlier);
                assert(interval as nat == event_interval(later, earlier));
            }
            min_interval = match min_interval {
                Some(smallest) => if interval < smallest {
                    Some(interval)
                } else {
                    Some(smallest)
                },
                None => Some(interval),
            };
            i = i + 1;
        }
        proof {
            if all.len() > 0 {
                assert(all.take(i as int) =~= all);
            }
        }
        min_interval
    }

    /// Determines whether the next time the mainloop should be woken to iterate
    /// can be represented, if it can be computed.
    pub fn is_next_iteration_representable(&self) -> (r: bool)
        requires
            self.well_formed(),
        ensures
            r == (self.delay() matches Some(delay) ==> self.last_iter() + delay <= u64::MAX),
    {
        match self.smallest() {
            Some(interval) => {
                let delay: u64 = if interval <= self.max_interval {
                    interval
                } else {
                    self.max_interval
                };
                delay <= u64::MAX - self.last_iter
            },
            None => true,
        }
    }

    /// Computes the next time the mainloop should be woken to iterate. Returns
    /// `None` if it could not be computed.
    pub fn compute_next_iteration_instant(&self) -> (r: Option<u64>)
        requires
            self.well_formed(),
            self.delay() matches Some(delay) ==> self.last_iter() + delay <= u64::MAX,
        ensures
            match self.delay() {
                Some(delay) => r matches Some(instant) && instant == self.last_iter() + delay,
                None => r is None,
            },
    {
        match self.smallest() {
            Some(interval) => {
                let delay: u64 = if interval <= self.max_interval {
                    interval
                } else {
                    self.max_interval
                };
                Some(self.last_iter + delay)
            },
            None => None,
        }
    }

    /// Handles the result of an iteration of the mainloop that took place at the
    /// given time. Returns whether to keep iterating the mainloop.
    pub fn handle_iteration(&mut self, iter_time: u64, result: IterateResult) -> (r: bool)
        requires
            old(self).well_formed(),
        ensures
            final(self).well_formed(),
            r == (result !is Quit),
            final(self).max_interval() == old(self).max_interval(),
            match result {
                IterateResult::Success(events) => {
                    &&& final(self).last_iter() == iter_time
                    &&& final(self).iterations() == (if events == 0 {
                        old(self).iterations()
                    } else {
                        let all = seq![Iteration { time: iter_time, events }]
                            + old(self).iterations();
                        all.take(min_nat(all.len(), MAINLOOP_ITER_TRACKING_LEN as nat) as int)
                    })
                },
                _ => final(self).last_iter() == old(self).last_iter() && final(self).iterations()
                    == old(self).iterations(),
            },
    {
        match result {
            IterateResult::Success(events) => {
                self.save_processed_events(iter_time, events);
                true
            },
            IterateResult::Quit => false,
            IterateResult::Failed => true,
        }
    }
}

// FUNCTIONS *******************************************************************

/// Determines the error to report if the connection to the server could not be
/// established.
pub fn context_failure_code(state: ContextState) -> (r: Code)
    ensures
        r == (if state is Terminated {
            Code::ConnectionTerminated
        } else {
            Code::Unknown
        }),
{
    match state {
        ContextState::Terminated => Code::ConnectionTerminated,
        _ => Code::Unknown,
    }
}

/// Determines what the context handler does about an event. The mainloop is
/// needed for as long as operations can be submitted.
pub fn context_action(event: ContextEvent) -> (r: ContextAction)
    ensures
        r == (match event {
            ContextEvent::MainloopEnded => ContextAction::Abort,
            ContextEvent::Submitted => ContextAction::Execute,
            ContextEvent::QueueClosed => ContextAction::ShutDown,
        }),
{
    match event {
        ContextEvent::MainloopEnded => ContextAction::Abort,
        ContextEvent::Submitted => ContextAction::Execute,
        ContextEvent::QueueClosed => ContextAction::ShutDown,
    }
}

// LAWS ************************************************************************

/// The delay between iterations never exceeds the maximum interval.
pub proof fn law_delay_is_bounded(timer: MainloopTimer)
    ensures
        timer.delay() matches Some(delay) ==> delay <= timer.max_interval(),
{
}

/// The delay does not exceed the interval between any two subsequent iterations.
pub proof fn law_delay_is_smallest(iterations: Seq<Iteration>, i: int)
    requires
        0 <= i < iterations.len() - 1,
    ensures
        smallest_interval(iterations) is Some,
        smallest_interval(iterations)->0 <= event_interval(iterations[i], iterations[i + 1]),
    decreases iterations.len(),
{
    if i < iterations.len() - 2 {
        law_delay_is_smallest(iterations.drop_last(), i);
    }
}

} // verus!
