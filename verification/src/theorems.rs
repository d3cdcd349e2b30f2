//! What holds of the timer's transitions, proved over the record that the
//! engine's contracts speak of.

use crate::model::{next_cycle, TickReport, TimerModel};
use crate::stats::{count_in, counter_limit};
use crate::timer::{start_result, StartOutcome, TimerError};
use vstd::arithmetic::div_mod::{lemma_mod_add_multiples_vanish, lemma_small_mod};
use vstd::prelude::*;

verus! {

/// The record after `rounds` rounds of a stop followed by a start with the
/// given arguments.
pub open spec fn pause_resume(
    m: TimerModel,
    timer_type: Option<Seq<char>>,
    custom_minutes: Option<u32>,
    rounds: nat,
) -> TimerModel
    decreases rounds,
{
    if rounds == 0 {
        m
    } else {
        pause_resume(
            m.stop().start(timer_type, custom_minutes),
            timer_type,
            custom_minutes,
            (rounds - 1) as nat,
        )
    }
}

/// The record after `n` iterations of the scheduler loop that holds
/// `token`.
pub open spec fn ticks(m: TimerModel, token: u64, n: nat) -> TimerModel
    decreases n,
{
    if n == 0 {
        m
    } else {
        ticks(m, token, (n - 1) as nat).tick(token)
    }
}

/// Pausing and resuming has no drift. Start the timer with arguments that
/// resolve to a positive cycle length; then any number of rounds of stop
/// and start with the same arguments leaves the remaining seconds as the
/// first start left them, and the timer running.
///
/// A timer that runs with nothing left to count down is left out: on it
/// the first start is no start at all, and the next one seeds a cycle.
pub proof fn lemma_pause_resume_keeps_time(
    m: TimerModel,
    timer_type: Option<Seq<char>>,
    custom_minutes: Option<u32>,
    rounds: nat,
)
    requires
        m.resolve_minutes(timer_type, custom_minutes) is Some,
        m.resolve_minutes(timer_type, custom_minutes)->Some_0 > 0,
        !(m.running && m.seconds_remaining == 0),
    ensures
        pause_resume(
            m.start(timer_type, custom_minutes),
            timer_type,
            custom_minutes,
            rounds,
        ).seconds_remaining == m.start(timer_type, custom_minutes).seconds_remaining,
        pause_resume(
            m.start(timer_type, custom_minutes),
            timer_type,
            custom_minutes,
            rounds,
        ).running,
    decreases rounds,
{
    let started = m.start(timer_type, custom_minutes);
    assert(started.seconds_remaining > 0);
    assert(started.running);
    if rounds > 0 {
        let again = started.stop().start(timer_type, custom_minutes);
        assert(again.seconds_remaining == started.seconds_remaining);
        assert(again.running);
        assert(again == again.start(timer_type, custom_minutes));
        lemma_pause_resume_keeps_time(again, timer_type, custom_minutes, (rounds - 1) as nat);
    }
}

/// A stop followed at once by a start, whatever its arguments, keeps the
/// seconds that were left, as long as any were.
pub proof fn lemma_resume_keeps_remaining(
    m: TimerModel,
    timer_type: Option<Seq<char>>,
    custom_minutes: Option<u32>,
)
    requires
        m.seconds_remaining > 0,
    ensures
        m.stop().start(timer_type, custom_minutes).seconds_remaining == m.seconds_remaining,
{
}

/// A start on a running timer is a no-op: the record stays as it is, and
/// the answer is that the timer runs already, whatever the arguments.
pub proof fn lemma_start_while_running(
    m: TimerModel,
    timer_type: Option<Seq<char>>,
    custom_minutes: Option<u32>,
)
    requires
        m.running,
    ensures
        m.start(timer_type, custom_minutes) == m,
        start_result(m, timer_type, custom_minutes) == Ok::<StartOutcome, TimerError>(
            StartOutcome::AlreadyRunning,
        ),
{
}

/// A start is rejected exactly when the timer does not run, no custom
/// length is given, and the catalog does not know the type; a rejected
/// start changes nothing.
pub proof fn lemma_start_rejected(
    m: TimerModel,
    timer_type: Option<Seq<char>>,
    custom_minutes: Option<u32>,
)
    ensures
        start_result(m, timer_type, custom_minutes) is Err <==> !m.running && custom_minutes is None
            && (timer_type is None || !m.configs.contains_key(timer_type->Some_0)),
        start_result(m, timer_type, custom_minutes) is Err ==> m.start(timer_type, custom_minutes)
            == m,
{
}

/// At most one scheduler loop may tick the timer: two tokens that the
/// record admits are the same token.
pub proof fn lemma_one_loop_admitted(m: TimerModel, first: u64, second: u64)
    requires
        m.admits(first),
        m.admits(second),
    ensures
        first == second,
{
}

/// A start that asks for a scheduler loop hands out the token that the
/// record then admits, and no token that the record held before.
pub proof fn lemma_start_renews_token(
    m: TimerModel,
    timer_type: Option<Seq<char>>,
    custom_minutes: Option<u32>,
)
    requires
        start_result(m, timer_type, custom_minutes) is Ok,
        start_result(m, timer_type, custom_minutes)->Ok_0 is Spawn,
    ensures
        start_result(m, timer_type, custom_minutes)->Ok_0->cycle == m.start(
            timer_type,
            custom_minutes,
        ).cycle,
        m.start(timer_type, custom_minutes).admits(
            start_result(m, timer_type, custom_minutes)->Ok_0->cycle,
        ),
        m.start(timer_type, custom_minutes).cycle != m.cycle,
{
}

/// A stopped timer is cancelled at the next iteration: the loop ends and
/// the record is not touched.
pub proof fn lemma_stop_cancels(m: TimerModel, token: u64)
    ensures
        m.stop().tick(token) == m.stop(),
        m.stop().tick_report(token) is Cancelled,
        m.stop().tick_report(token).ends_loop(),
{
}

/// A loop that was stopped stays cancelled when the timer is started
/// again before the loop's next iteration: that iteration changes nothing
/// and ends the loop, so only the loop of the new start ticks.
pub proof fn lemma_stale_loop_cancelled(
    m: TimerModel,
    token: u64,
    timer_type: Option<Seq<char>>,
    custom_minutes: Option<u32>,
)
    requires
        m.admits(token),
    ensures
        m.stop().start(timer_type, custom_minutes).tick(token) == m.stop().start(
            timer_type,
            custom_minutes,
        ),
        m.stop().start(timer_type, custom_minutes).tick_report(token) is Cancelled,
        m.reset().start(timer_type, custom_minutes).tick(token) == m.reset().start(
            timer_type,
            custom_minutes,
        ),
        m.reset().start(timer_type, custom_minutes).tick_report(token) is Cancelled,
{
    assert(next_cycle(m.cycle) != m.cycle);
}

/// The number of tokens there are.
pub open spec fn token_count() -> int {
    0x1_0000_0000_0000_0000
}

/// Each round of stop and start with arguments that resolve to a cycle
/// length moves the token one further, around the range of tokens.
pub proof fn lemma_rounds_move_token(
    m: TimerModel,
    timer_type: Option<Seq<char>>,
    custom_minutes: Option<u32>,
    rounds: nat,
)
    requires
        m.resolve_minutes(timer_type, custom_minutes) is Some,
    ensures
        pause_resume(m, timer_type, custom_minutes, rounds).cycle == (m.cycle + rounds)
            % token_count(),
    decreases rounds,
{
    if rounds == 0 {
        lemma_small_mod(m.cycle as nat, token_count() as nat);
    } else {
        let next = m.stop().start(timer_type, custom_minutes);
        lemma_rounds_move_token(next, timer_type, custom_minutes, (rounds - 1) as nat);
        if m.cycle == u64::MAX {
            lemma_mod_add_multiples_vanish(rounds - 1, token_count());
        }
    }
}

/// A loop that was stopped stays cancelled however often the timer is
/// stopped and started again before the loop's next iteration, short of
/// as many times as there are tokens: that iteration changes nothing and
/// ends the loop.
pub proof fn lemma_stale_loop_cancelled_after_rounds(
    m: TimerModel,
    token: u64,
    timer_type: Option<Seq<char>>,
    custom_minutes: Option<u32>,
    rounds: nat,
)
    requires
        m.admits(token),
        1 <= rounds < token_count(),
    ensures
        !pause_resume(m, timer_type, custom_minutes, rounds).admits(token),
        pause_resume(m, timer_type, custom_minutes, rounds).tick(token) == pause_resume(
            m,
            timer_type,
            custom_minutes,
            rounds,
        ),
        pause_resume(m, timer_type, custom_minutes, rounds).tick_report(token) is Cancelled,
{
    if m.resolve_minutes(timer_type, custom_minutes) is Some {
        lemma_rounds_move_token(m, timer_type, custom_minutes, rounds);
        if m.cycle + rounds < token_count() {
            lemma_small_mod((m.cycle + rounds) as nat, token_count() as nat);
        } else {
            lemma_mod_add_multiples_vanish(m.cycle + rounds - token_count(), token_count());
            lemma_small_mod((m.cycle + rounds - token_count()) as nat, token_count() as nat);
        }
    } else {
        lemma_rejected_rounds_leave_stopped(m, timer_type, custom_minutes, rounds);
    }
}

/// Rounds of stop and start with arguments that resolve to no cycle
/// length leave the timer stopped.
pub proof fn lemma_rejected_rounds_leave_stopped(
    m: TimerModel,
    timer_type: Option<Seq<char>>,
    custom_minutes: Option<u32>,
    rounds: nat,
)
    requires
        m.resolve_minutes(timer_type, custom_minutes) is None,
        rounds >= 1,
    ensures
        pause_resume(m, timer_type, custom_minutes, rounds) == m.stop(),
    decreases rounds,
{
    let next = m.stop().start(timer_type, custom_minutes);
    assert(next == m.stop());
    if rounds > 1 {
        lemma_rejected_rounds_leave_stopped(next, timer_type, custom_minutes, (rounds - 1) as nat);
    } else {
        assert(pause_resume(next, timer_type, custom_minutes, 0) == next);
    }
}

/// A completed cycle counts once: the counter of the active type goes up
/// by exactly one, from zero where it had no entry, and no other counter
/// changes or appears.
pub proof fn lemma_completion_counts_once(m: TimerModel, token: u64)
    requires
        m.completes_next(token),
        m.active_type is Some,
        count_in(m.stats, m.active_type->Some_0) < counter_limit(),
    ensures
        m.tick_report(token).completes(),
        m.tick(token).stats.contains_key(m.active_type->Some_0),
        count_in(m.tick(token).stats, m.active_type->Some_0) == count_in(
            m.stats,
            m.active_type->Some_0,
        ) + 1,
        forall|k: Seq<char>|
            k != m.active_type->Some_0 ==> m.tick(token).stats.contains_key(k)
                == m.stats.contains_key(k) && count_in(m.tick(token).stats, k) == count_in(
                m.stats,
                k,
            ),
{
}

/// An iteration that does not complete a cycle leaves every counter as it
/// was.
pub proof fn lemma_only_completion_counts(m: TimerModel, token: u64)
    requires
        !m.completes_next(token),
    ensures
        m.tick(token).stats == m.stats,
        !m.tick_report(token).completes(),
{
}

/// No iteration lowers a counter or removes one.
pub proof fn lemma_counters_never_fall(m: TimerModel, token: u64, k: Seq<char>)
    ensures
        count_in(m.tick(token).stats, k) >= count_in(m.stats, k),
        m.stats.contains_key(k) ==> m.tick(token).stats.contains_key(k),
{
}

/// In loop mode a completed cycle seeds the next one from the catalog: the
/// remaining seconds are the catalog's interval for the active type,
/// whatever length the completed cycle was started with; the timer still
/// runs for the same type, under the same token.
pub proof fn lemma_loop_mode_restarts(m: TimerModel, token: u64)
    requires
        m.completes_next(token),
        m.loop_enabled,
        m.active_type is Some,
        m.configs.contains_key(m.active_type->Some_0),
    ensures
        m.tick(token).seconds_remaining == m.configs[m.active_type->Some_0].interval_minutes * 60,
        m.tick(token).running,
        m.tick(token).active_type == m.active_type,
        m.tick(token).admits(token),
        m.tick_report(token) is CompletedRestart,
        !m.tick_report(token).ends_loop(),
{
}

/// Out of loop mode a completed cycle stops the timer with nothing left
/// to count down, and the next iteration of the loop is cancelled without
/// a change.
pub proof fn lemma_single_mode_stops(m: TimerModel, token: u64)
    requires
        m.completes_next(token),
        !m.loop_enabled,
    ensures
        !m.tick(token).running,
        m.tick(token).seconds_remaining == 0,
        m.tick_report(token) is CompletedStop,
        m.tick_report(token).ends_loop(),
        m.tick(token).tick(token) == m.tick(token),
        m.tick(token).tick_report(token) is Cancelled,
{
}

/// A reset leaves the timer stopped with nothing left to count down,
/// whatever the record held; catalog, counters, loop mode and active type
/// stay.
pub proof fn lemma_reset_clears(m: TimerModel)
    ensures
        !m.reset().running,
        m.reset().seconds_remaining == 0,
        m.reset() == (TimerModel { running: false, seconds_remaining: 0, ..m }),
{
}

/// Within a cycle the progress values fall by one from one iteration to
/// the next.
pub proof fn lemma_progress_decreases(m: TimerModel, token: u64)
    requires
        m.tick_report(token).progress() is Some,
        m.tick(token).tick_report(token).progress() is Some,
        !m.tick_report(token).completes(),
    ensures
        m.tick(token).tick_report(token).progress()->Some_0 + 1 == m.tick_report(
            token,
        ).progress()->Some_0,
        m.tick_report(token).progress()->Some_0 == m.tick(token).seconds_remaining,
{
}

/// A running cycle with `n` seconds left, `n` at least 1, takes exactly
/// `n` iterations of its loop, and each reports a progress value: `n - 1`
/// at the first, one less at each further one, 0 at the last. The first
/// `n - 1` iterations touch nothing but the countdown; the last one
/// completes the cycle.
pub proof fn lemma_cycle_runs_its_length(m: TimerModel, token: u64, n: nat)
    requires
        m.admits(token),
        m.seconds_remaining == n,
        n >= 1,
    ensures
        forall|k: nat|
            k < n ==> #[trigger] ticks(m, token, k) == (TimerModel {
                seconds_remaining: (n - k) as nat,
                ..m
            }),
        forall|k: nat|
            k < n ==> (#[trigger] ticks(m, token, k)).tick_report(token).progress() == Some(
                (n - k - 1) as nat,
            ),
        forall|k: nat|
            k + 1 < n ==> !(#[trigger] ticks(m, token, k)).tick_report(token).completes(),
        ticks(m, token, (n - 1) as nat).tick_report(token).completes(),
        ticks(m, token, n) == (TimerModel { seconds_remaining: 1, ..m }).complete(),
{
    assert forall|k: nat| k < n implies #[trigger] ticks(m, token, k) == (TimerModel {
        seconds_remaining: (n - k) as nat,
        ..m
    }) by {
        lemma_countdown(m, token, n, k);
    }
    lemma_countdown(m, token, n, (n - 1) as nat);
    assert(ticks(m, token, n) == ticks(m, token, (n - 1) as nat).tick(token));
}

/// Before a running cycle with `n` seconds left completes, `k` iterations
/// of its loop take `k` seconds off and touch nothing else.
pub proof fn lemma_countdown(m: TimerModel, token: u64, n: nat, k: nat)
    requires
        m.admits(token),
        m.seconds_remaining == n,
        k < n,
    ensures
        ticks(m, token, k) == (TimerModel { seconds_remaining: (n - k) as nat, ..m }),
    decreases k,
{
    if k > 0 {
        lemma_countdown(m, token, n, (k - 1) as nat);
    }
}

/// A cycle that runs to its end counts once, whatever its length: after
/// the `n` iterations of a running cycle with `n` seconds left, the
/// counter of the active type has one more.
pub proof fn lemma_cycle_counts_once(m: TimerModel, token: u64, n: nat)
    requires
        m.admits(token),
        m.seconds_remaining == n,
        n >= 1,
        m.active_type is Some,
        count_in(m.stats, m.active_type->Some_0) < counter_limit(),
    ensures
        count_in(ticks(m, token, n).stats, m.active_type->Some_0) == count_in(
            m.stats,
            m.active_type->Some_0,
        ) + 1,
        !m.loop_enabled ==> !ticks(m, token, n).running && ticks(m, token, n).seconds_remaining
            == 0,
{
    lemma_cycle_runs_its_length(m, token, n);
}

} // verus!
