//! The timer state and the commands and scheduler step that act on it.
//!
//! Every function here is one transaction on the state. The caller holds
//! whatever lock guards the state for the length of the call, keeps the
//! tick cadence, and delivers what the scheduler step reports.

use crate::catalog::{Catalog, ReminderConfig};
use crate::model::{next_cycle, TickReport, TimerModel};
use crate::stats::ReminderStats;
use vstd::prelude::*;

verus! {

/// The one error of the engine.
#[derive(Clone, Copy, Debug, PartialEq, Eq, Structural)]
pub enum TimerError {
    /// A start named no custom length and no reminder type that the
    /// catalog knows, so no cycle length could be resolved.
    InvalidType,
}

impl TimerError {
    /// The error in words, as it is handed to the caller of a command.
    pub fn message(&self) -> (text: String)
        ensures
            text@ == "Invalid type"@,
    {
        match self {
            TimerError::InvalidType => "Invalid type".to_string(),
        }
    }
}

/// What an accepted start asks of its caller.
#[derive(Clone, Copy, Debug, PartialEq, Eq, Structural)]
pub enum StartOutcome {
    /// The timer went from idle or paused to running: the caller brings up
    /// exactly one scheduler loop and hands it the token `cycle`.
    Spawn { cycle: u64 },
    /// The timer was running already: nothing changed, and no loop is to
    /// be brought up.
    AlreadyRunning,
}

/// What one iteration of the scheduler loop hands to its caller.
pub enum TickOutcome {
    /// The loop is not, or no longer, the one that may tick the timer:
    /// nothing changed and the loop ends.
    Cancelled,
    /// The countdown went on: a progress event carries the seconds left.
    Ticking { seconds_remaining: u64 },
    /// A cycle completed and the next one was seeded: the progress value,
    /// if any, goes out first, then the reminder is announced and the
    /// counters are published; the loop goes on.
    CompletedRestart { progress: Option<u64>, reminder: String, stats: ReminderStats },
    /// A cycle completed and the timer stopped: the progress value, if
    /// any, goes out first, then the reminder is announced and the
    /// counters are published; the loop ends.
    CompletedStop { progress: Option<u64>, reminder: String, stats: ReminderStats },
}

/// An optional number of seconds as an optional natural number.
pub open spec fn seconds_view(seconds: Option<u64>) -> Option<nat> {
    match seconds {
        Some(n) => Some(n as nat),
        None => None,
    }
}

impl View for TickOutcome {
    type V = TickReport;

    open spec fn view(&self) -> TickReport {
        match *self {
            TickOutcome::Cancelled => TickReport::Cancelled,
            TickOutcome::Ticking { seconds_remaining } => TickReport::Ticking(
                seconds_remaining as nat,
            ),
            TickOutcome::CompletedRestart {
                progress,
                reminder,
                stats,
            } => TickReport::CompletedRestart(seconds_view(progress), reminder@, stats@),
            TickOutcome::CompletedStop { progress, reminder, stats } => TickReport::CompletedStop(
                seconds_view(progress),
                reminder@,
                stats@,
            ),
        }
    }
}

impl TickOutcome {
    /// Whether the scheduler loop ends after this outcome.
    pub fn ends_loop(&self) -> (ends: bool)
        ensures
            ends == self@.ends_loop(),
    {
        match self {
            TickOutcome::Cancelled => true,
            TickOutcome::Ticking { .. } => false,
            TickOutcome::CompletedRestart { .. } => false,
            TickOutcome::CompletedStop { .. } => true,
        }
    }

    /// The progress value that goes out with this outcome, if any.
    pub fn progress(&self) -> (value: Option<u64>)
        ensures
            seconds_view(value) == self@.progress(),
    {
        match self {
            TickOutcome::Cancelled => None,
            TickOutcome::Ticking { seconds_remaining } => Some(*seconds_remaining),
            TickOutcome::CompletedRestart { progress, .. } => *progress,
            TickOutcome::CompletedStop { progress, .. } => *progress,
        }
    }
}

/// The name behind an optional string, as an optional sequence of
/// characters.
pub open spec fn name_of(name: Option<String>) -> Option<Seq<char>> {
    match name {
        Some(s) => Some(s@),
        None => None,
    }
}

/// The answer to a start command on the record `m`: a running timer
/// answers that it runs already; otherwise a start whose cycle length can
/// be resolved asks for a scheduler loop under the renewed token, and any
/// other is rejected.
pub open spec fn start_result(
    m: TimerModel,
    timer_type: Option<Seq<char>>,
    custom_minutes: Option<u32>,
) -> Result<StartOutcome, TimerError> {
    if m.running {
        Ok(StartOutcome::AlreadyRunning)
    } else if m.resolve_minutes(timer_type, custom_minutes) is Some {
        Ok(StartOutcome::Spawn { cycle: next_cycle(m.cycle) })
    } else {
        Err(TimerError::InvalidType)
    }
}

/// The timer state: the single record that commands and the scheduler
/// loop share.
pub struct TimerState {
    /// Seconds left in the cycle; zero when idle or at the deadline.
    pub seconds_remaining: u64,
    /// Whether a scheduler loop may tick this state.
    pub running: bool,
    /// The reminder type the cycle counts for.
    pub active_type: Option<String>,
    /// Whether a completed cycle starts the next one.
    pub loop_enabled: bool,
    /// The token of the scheduler loop that may tick this state: the one
    /// that the latest start handed out.
    pub cycle: u64,
    /// The reminder catalog.
    pub configs: Catalog,
    /// The completion counters.
    pub stats: ReminderStats,
}

impl View for TimerState {
    type V = TimerModel;

    open spec fn view(&self) -> TimerModel {
        TimerModel {
            seconds_remaining: self.seconds_remaining as nat,
            running: self.running,
            active_type: name_of(self.active_type),
            loop_enabled: self.loop_enabled,
            cycle: self.cycle,
            configs: self.configs@,
            stats: self.stats@,
        }
    }
}

impl TimerState {
    /// The idle timer over the catalog `configs`: not running, nothing
    /// left to count down, no active type, loop mode off, all counters at
    /// zero.
    pub fn with_catalog(configs: Catalog) -> (state: Self)
        ensures
            state@ == (TimerModel {
                seconds_remaining: 0,
                running: false,
                active_type: None,
                loop_enabled: false,
                cycle: 0,
                configs: configs@,
                stats: Map::empty(),
            }),
    {
        TimerState {
            seconds_remaining: 0,
            running: false,
            active_type: None,
            loop_enabled: false,
            cycle: 0,
            configs,
            stats: ReminderStats::new(),
        }
    }

    /// The idle timer over the empty catalog.
    pub fn new() -> (state: Self)
        ensures
            state@ == (TimerModel {
                seconds_remaining: 0,
                running: false,
                active_type: None,
                loop_enabled: false,
                cycle: 0,
                configs: Map::empty(),
                stats: Map::empty(),
            }),
    {
        TimerState::with_catalog(Catalog::new())
    }

    /// The cycle length in minutes that a start with these arguments asks
    /// for, if one can be resolved.
    pub fn resolve_minutes(&self, timer_type: &Option<String>, custom_minutes: Option<u32>) -> (minutes:
        Option<u32>)
        ensures
            minutes == self@.resolve_minutes(name_of(*timer_type), custom_minutes),
    {
        match custom_minutes {
            Some(m) => Some(m),
            None => match timer_type {
                Some(t) => match self.configs.get(t) {
                    Some(config) => Some(config.interval_minutes),
                    None => None,
                },
                None => None,
            },
        }
    }

    /// The start command.
    ///
    /// On a running timer it changes nothing and succeeds. Otherwise it
    /// resolves the cycle length and fails with `InvalidType`, changing
    /// nothing, where there is none; else it seeds an idle timer with that
    /// length, leaves a paused one its remaining seconds, sets the timer
    /// running for the given type, and renews the token: the answer
    /// carries it for the one scheduler loop that the caller brings up,
    /// and a loop of an earlier start is cancelled at its next iteration.
    pub fn start(&mut self, timer_type: Option<String>, custom_minutes: Option<u32>) -> (result:
        Result<StartOutcome, TimerError>)
        ensures
            final(self)@ == old(self)@.start(name_of(timer_type), custom_minutes),
            result == start_result(old(self)@, name_of(timer_type), custom_minutes),
            !(result is Ok && result->Ok_0 is Spawn) ==> *final(self) == *old(self),
    {
        if self.running {
            return Ok(StartOutcome::AlreadyRunning);
        }
        let minutes = match self.resolve_minutes(&timer_type, custom_minutes) {
            Some(m) => m,
            None => {
                return Err(TimerError::InvalidType);
            },
        };
        if self.seconds_remaining == 0 {
            self.seconds_remaining = (minutes as u64) * 60;
        }
        self.running = true;
        self.active_type = timer_type;
        self.cycle = if self.cycle < u64::MAX {
            self.cycle + 1
        } else {
            0
        };
        Ok(StartOutcome::Spawn { cycle: self.cycle })
    }

    /// The stop command: the timer no longer runs; the remaining seconds
    /// stay.
    pub fn stop(&mut self)
        ensures
            final(self)@ == old(self)@.stop(),
    {
        self.running = false;
    }

    /// The reset command: the timer no longer runs and nothing is left to
    /// count down.
    pub fn reset(&mut self)
        ensures
            final(self)@ == old(self)@.reset(),
            !final(self).running,
            final(self).seconds_remaining == 0,
    {
        self.running = false;
        self.seconds_remaining = 0;
    }

    /// Sets loop mode.
    pub fn toggle_loop(&mut self, enabled: bool)
        ensures
            final(self)@ == old(self)@.toggle_loop(enabled),
    {
        self.loop_enabled = enabled;
    }

    /// Adds the reminder type `name` to the catalog, or replaces it, with
    /// a cycle of `minutes` minutes, switched on.
    pub fn add_reminder(&mut self, name: String, minutes: u32)
        ensures
            final(self)@ == old(self)@.add_reminder(name@, minutes),
    {
        self.configs.upsert(name, ReminderConfig { interval_minutes: minutes, enabled: true });
    }

    /// Whether the next iteration of the scheduler loop that holds `token`
    /// can be carried out on this state.
    pub fn tick_ready(&self, token: u64) -> (ready: bool)
        ensures
            ready == self@.tick_ready(token),
    {
        !self.running || self.cycle != token || self.seconds_remaining > 1
            || self.active_type.is_some()
    }

    /// One iteration of the scheduler loop that holds `token`, made after
    /// the loop has waited one tick period and taken hold of the state.
    ///
    /// Where the timer does not run, or the token is not the one of the
    /// latest start, the state is left untouched and the loop is told to
    /// end. Otherwise a second is taken off the countdown, if one is left,
    /// and the new value is the progress value of the iteration. While
    /// seconds remain, that is all. At zero the cycle completes: the
    /// counter of the active type goes up by one before anything else;
    /// then in loop mode, where the catalog has an interval for the active
    /// type, the countdown is seeded with it and the timer keeps running;
    /// else the countdown is zero and the timer stops. A completion
    /// reports the progress value, the type and a copy of the counters.
    pub fn tick(&mut self, token: u64) -> (outcome: TickOutcome)
        requires
            old(self)@.tick_ready(token),
        ensures
            final(self)@ == old(self)@.tick(token),
            outcome@ == old(self)@.tick_report(token),
            outcome@ is Cancelled ==> *final(self) == *old(self),
    {
        if !self.running || self.cycle != token {
            return TickOutcome::Cancelled;
        }
        if self.seconds_remaining > 1 {
            self.seconds_remaining -= 1;
            return TickOutcome::Ticking { seconds_remaining: self.seconds_remaining };
        }
        let progress: Option<u64> = if self.seconds_remaining == 1 {
            Some(0)
        } else {
            None
        };
        let reminder = self.active_type.as_ref().unwrap().clone();
        self.stats.increment(reminder.clone());
        let stats = self.stats.snapshot();
        let interval = if self.loop_enabled {
            self.configs.get(&reminder)
        } else {
            None
        };
        match interval {
            Some(config) => {
                self.seconds_remaining = (config.interval_minutes as u64) * 60;
                TickOutcome::CompletedRestart { progress, reminder, stats }
            },
            None => {
                self.seconds_remaining = 0;
                self.running = false;
                TickOutcome::CompletedStop { progress, reminder, stats }
            },
        }
    }

    /// One iteration of the scheduler loop that holds `token` where it can
    /// be carried out, and nothing where it cannot: then the state is left
    /// as it is.
    pub fn try_tick(&mut self, token: u64) -> (outcome: Option<TickOutcome>)
        ensures
            outcome is Some <==> old(self)@.tick_ready(token),
            outcome is Some ==> final(self)@ == old(self)@.tick(token) && outcome->Some_0@ == old(
                self,
            )@.tick_report(token),
            outcome is None ==> *final(self) == *old(self),
    {
        if self.tick_ready(token) {
            Some(self.tick(token))
        } else {
            None
        }
    }

    /// An independent copy of the completion counters.
    pub fn get_stats(&self) -> (stats: ReminderStats)
        ensures
            stats@ == self@.stats,
    {
        self.stats.snapshot()
    }
}

} // verus!
