//! The timer as a mathematical record, and its transitions as functions
//! on that record. The contracts of the executable engine are stated over
//! these.

use crate::catalog::ReminderConfig;
use crate::stats::counted;
use vstd::prelude::*;

verus! {

/// The timer record.
pub struct TimerModel {
    /// Seconds left in the cycle; zero when idle or at the deadline.
    pub seconds_remaining: nat,
    /// Whether a scheduler loop may tick the timer.
    pub running: bool,
    /// The reminder type the cycle counts for.
    pub active_type: Option<Seq<char>>,
    /// Whether a completed cycle starts the next one.
    pub loop_enabled: bool,
    /// The token of the scheduler loop that may tick the timer: the one
    /// that the latest start handed out.
    pub cycle: u64,
    /// The reminder catalog.
    pub configs: Map<Seq<char>, ReminderConfig>,
    /// The completion counters.
    pub stats: Map<Seq<char>, nat>,
}

/// What one iteration of the scheduler loop reports to its caller.
pub enum TickReport {
    /// The loop is not, or no longer, the one that may tick the timer:
    /// nothing changed and the loop ends.
    Cancelled,
    /// The countdown went on; the value is the new number of seconds left.
    Ticking(nat),
    /// A cycle completed and the next one was seeded. The fields are the
    /// progress value of the iteration, the completed type, and the
    /// counters after the completion.
    CompletedRestart(Option<nat>, Seq<char>, Map<Seq<char>, nat>),
    /// A cycle completed and the timer stopped. The fields are the
    /// progress value of the iteration, the completed type, and the
    /// counters after the completion.
    CompletedStop(Option<nat>, Seq<char>, Map<Seq<char>, nat>),
}

impl TickReport {
    /// Whether the scheduler loop ends after this report.
    pub open spec fn ends_loop(self) -> bool {
        self is Cancelled || self is CompletedStop
    }

    /// Whether the report is that of a completed cycle.
    pub open spec fn completes(self) -> bool {
        self is CompletedRestart || self is CompletedStop
    }

    /// The progress value that goes out with this report: the seconds left
    /// after the iteration took a second off, and none where it took none
    /// off.
    pub open spec fn progress(self) -> Option<nat> {
        match self {
            TickReport::Cancelled => None,
            TickReport::Ticking(left) => Some(left),
            TickReport::CompletedRestart(progress, _, _) => progress,
            TickReport::CompletedStop(progress, _, _) => progress,
        }
    }
}

/// The number of seconds in `minutes` minutes.
pub open spec fn seconds_of(minutes: u32) -> nat {
    minutes as nat * 60
}

/// The token that follows `cycle`. It differs from `cycle`.
pub open spec fn next_cycle(cycle: u64) -> u64 {
    if cycle < u64::MAX {
        (cycle + 1) as u64
    } else {
        0
    }
}

impl TimerModel {
    /// The length in minutes of the cycle that a start with these
    /// arguments asks for: the custom length where one is given, else the
    /// catalog's interval for the type; none where neither is there.
    pub open spec fn resolve_minutes(
        self,
        timer_type: Option<Seq<char>>,
        custom_minutes: Option<u32>,
    ) -> Option<u32> {
        match custom_minutes {
            Some(m) => Some(m),
            None => match timer_type {
                Some(t) => if self.configs.contains_key(t) {
                    Some(self.configs[t].interval_minutes)
                } else {
                    None
                },
                None => None,
            },
        }
    }

    /// The record after a start command. A running timer and a rejected
    /// start leave it as it is. Otherwise an idle timer is seeded with the
    /// resolved length, a paused one keeps its remaining seconds, the
    /// timer runs for the given type, and the token is renewed, so that
    /// only the loop brought up for this start may tick.
    pub open spec fn start(
        self,
        timer_type: Option<Seq<char>>,
        custom_minutes: Option<u32>,
    ) -> TimerModel {
        if self.running {
            self
        } else {
            match self.resolve_minutes(timer_type, custom_minutes) {
                None => self,
                Some(minutes) => TimerModel {
                    seconds_remaining: if self.seconds_remaining == 0 {
                        seconds_of(minutes)
                    } else {
                        self.seconds_remaining
                    },
                    running: true,
                    active_type: timer_type,
                    cycle: next_cycle(self.cycle),
                    ..self
                },
            }
        }
    }

    /// The record after a stop command.
    pub open spec fn stop(self) -> TimerModel {
        TimerModel { running: false, ..self }
    }

    /// The record after a reset command.
    pub open spec fn reset(self) -> TimerModel {
        TimerModel { running: false, seconds_remaining: 0, ..self }
    }

    /// The record after loop mode is set to `enabled`.
    pub open spec fn toggle_loop(self, enabled: bool) -> TimerModel {
        TimerModel { loop_enabled: enabled, ..self }
    }

    /// The record after the reminder type `name` is added to the catalog,
    /// or replaced in it, with a cycle of `minutes` minutes.
    pub open spec fn add_reminder(self, name: Seq<char>, minutes: u32) -> TimerModel {
        TimerModel {
            configs: self.configs.insert(
                name,
                ReminderConfig { interval_minutes: minutes, enabled: true },
            ),
            ..self
        }
    }

    /// Whether the loop that holds `token` may tick the timer: the timer
    /// runs, and the token is the one of the latest start.
    pub open spec fn admits(self, token: u64) -> bool {
        self.running && self.cycle == token
    }

    /// Whether the next iteration of the loop that holds `token` is the
    /// completing one: the loop may tick, and at most one second is left.
    pub open spec fn completes_next(self, token: u64) -> bool {
        self.admits(token) && self.seconds_remaining <= 1
    }

    /// Whether the next iteration of the loop that holds `token` can be
    /// carried out: a completing iteration needs the active type.
    pub open spec fn tick_ready(self, token: u64) -> bool {
        self.completes_next(token) ==> self.active_type is Some
    }

    /// Whether a completion seeds the next cycle: loop mode is on and the
    /// catalog has an interval for the active type.
    pub open spec fn restarts(self) -> bool {
        self.loop_enabled && self.configs.contains_key(self.active_type->Some_0)
    }

    /// The record after a completion: the counter of the active type has
    /// one more; then either the next cycle is seeded with the catalog's
    /// interval for the active type and the timer keeps running, or the
    /// countdown is zero and the timer stops.
    pub open spec fn complete(self) -> TimerModel {
        let t = self.active_type->Some_0;
        let stats = counted(self.stats, t);
        if self.restarts() {
            TimerModel {
                seconds_remaining: seconds_of(self.configs[t].interval_minutes),
                stats,
                ..self
            }
        } else {
            TimerModel { seconds_remaining: 0, running: false, stats, ..self }
        }
    }

    /// The record after one iteration of the scheduler loop that holds
    /// `token`.
    ///
    /// Where the loop may not tick, the record is left as it is. With more
    /// than one second left the countdown loses a second. Otherwise the
    /// cycle completes.
    pub open spec fn tick(self, token: u64) -> TimerModel {
        if !self.admits(token) {
            self
        } else if self.seconds_remaining > 1 {
            TimerModel { seconds_remaining: (self.seconds_remaining - 1) as nat, ..self }
        } else {
            self.complete()
        }
    }

    /// What one iteration of the scheduler loop that holds `token`
    /// reports.
    ///
    /// An iteration that takes a second off reports the new value as
    /// progress, the one that takes the last second off too: it reports
    /// progress 0 together with the completion. A completion on a timer
    /// that had no second left reports no progress value.
    pub open spec fn tick_report(self, token: u64) -> TickReport {
        if !self.admits(token) {
            TickReport::Cancelled
        } else if self.seconds_remaining > 1 {
            TickReport::Ticking((self.seconds_remaining - 1) as nat)
        } else {
            let progress = if self.seconds_remaining == 1 {
                Some(0nat)
            } else {
                None
            };
            let t = self.active_type->Some_0;
            if self.restarts() {
                TickReport::CompletedRestart(progress, t, counted(self.stats, t))
            } else {
                TickReport::CompletedStop(progress, t, counted(self.stats, t))
            }
        }
    }
}

} // verus!
