use reminder_timer::catalog::{Catalog, ReminderConfig};
use reminder_timer::timer::{StartOutcome, TickOutcome, TimerError, TimerState};

fn name(s: &str) -> String {
    s.to_string()
}

fn catalog_of(entries: &[(&str, u32)]) -> Catalog {
    let mut catalog = Catalog::new();
    for (n, minutes) in entries {
        catalog.upsert(name(n), ReminderConfig { interval_minutes: *minutes, enabled: true });
    }
    catalog
}

fn spawn(state: &mut TimerState, timer_type: Option<&str>, custom_minutes: Option<u32>) -> u64 {
    match state.start(timer_type.map(name), custom_minutes) {
        Ok(StartOutcome::Spawn { cycle }) => cycle,
        other => panic!("the start should ask for a loop, and gave {:?}", other),
    }
}

fn run(state: &mut TimerState, token: u64, steps: usize) -> Vec<TickOutcome> {
    let mut outcomes = Vec::new();
    for _ in 0..steps {
        assert!(state.tick_ready(token));
        outcomes.push(state.tick(token));
    }
    outcomes
}

fn ticking(outcome: &TickOutcome) -> Option<u64> {
    match outcome {
        TickOutcome::Ticking { seconds_remaining } => Some(*seconds_remaining),
        _ => None,
    }
}

fn progress_values(outcomes: &[TickOutcome]) -> Vec<u64> {
    outcomes.iter().filter_map(|o| o.progress()).collect()
}

fn completions(outcomes: &[TickOutcome]) -> usize {
    outcomes
        .iter()
        .filter(|o| {
            matches!(o, TickOutcome::CompletedRestart { .. } | TickOutcome::CompletedStop { .. })
        })
        .count()
}

#[test]
fn new_timer_is_idle() {
    let state = TimerState::new();
    assert_eq!(state.seconds_remaining, 0);
    assert!(!state.running);
    assert_eq!(state.active_type, None);
    assert!(!state.loop_enabled);
    assert_eq!(state.cycle, 0);
    assert!(state.configs.to_vec().is_empty());
    assert!(state.stats.to_vec().is_empty());
}

#[test]
fn with_catalog_keeps_the_catalog() {
    let state = TimerState::with_catalog(catalog_of(&[("water", 1), ("eye", 60)]));
    assert_eq!(state.seconds_remaining, 0);
    assert!(!state.running);
    assert_eq!(
        state.configs.get(&name("eye")),
        Some(ReminderConfig { interval_minutes: 60, enabled: true })
    );
    assert_eq!(state.configs.get(&name("water")).map(|c| c.interval_minutes), Some(1));
    assert_eq!(state.configs.get(&name("stretch")), None);
}

#[test]
fn water_cycle_of_one_minute() {
    let mut state = TimerState::with_catalog(catalog_of(&[("water", 1)]));
    let token = spawn(&mut state, Some("water"), None);
    assert_eq!(state.seconds_remaining, 60);
    assert!(state.running);
    assert_eq!(state.active_type, Some(name("water")));

    let first = run(&mut state, token, 59);
    assert_eq!(completions(&first), 0);
    assert!(first.iter().all(|o| !o.ends_loop()));
    assert_eq!(state.stats.count(&name("water")), 0);
    assert_eq!(state.seconds_remaining, 1);

    assert!(state.tick_ready(token));
    let last = state.tick(token);
    match &last {
        TickOutcome::CompletedStop { progress, reminder, stats } => {
            assert_eq!(*progress, Some(0));
            assert_eq!(reminder, "water");
            assert_eq!(stats.count(&name("water")), 1);
        }
        _ => panic!("the sixtieth iteration completes the cycle"),
    }
    assert!(last.ends_loop());

    let mut payloads = progress_values(&first);
    payloads.extend(last.progress());
    let expected: Vec<u64> = (0..=59).rev().collect();
    assert_eq!(payloads.len(), 60);
    assert_eq!(payloads, expected);

    assert_eq!(state.stats.count(&name("water")), 1);
    assert_eq!(state.seconds_remaining, 0);
    assert!(!state.running);

    let after = state.tick(token);
    assert!(matches!(after, TickOutcome::Cancelled));
    assert_eq!(after.progress(), None);
}

#[test]
fn three_seconds_give_two_one_zero_then_done() {
    let mut state = TimerState::new();
    state.seconds_remaining = 3;
    let token = spawn(&mut state, Some("rest"), Some(30));
    assert_eq!(state.seconds_remaining, 3);
    let outcomes = run(&mut state, token, 3);
    assert_eq!(progress_values(&outcomes), vec![2, 1, 0]);
    assert_eq!(ticking(&outcomes[0]), Some(2));
    assert_eq!(ticking(&outcomes[1]), Some(1));
    assert_eq!(ticking(&outcomes[2]), None);
    assert!(matches!(outcomes[2], TickOutcome::CompletedStop { progress: Some(0), .. }));
    assert_eq!(completions(&outcomes), 1);
    assert_eq!(state.seconds_remaining, 0);
    assert!(!state.running);
    assert_eq!(state.stats.count(&name("rest")), 1);
}

#[test]
fn one_second_reports_zero_with_the_completion() {
    let mut state = TimerState::new();
    state.seconds_remaining = 1;
    let token = spawn(&mut state, Some("rest"), Some(1));
    let outcome = state.tick(token);
    assert_eq!(outcome.progress(), Some(0));
    assert!(matches!(outcome, TickOutcome::CompletedStop { .. }));
}

#[test]
fn custom_cycle_pauses_and_resumes() {
    let mut state = TimerState::with_catalog(catalog_of(&[("eye", 60)]));
    let token = spawn(&mut state, Some("eye"), Some(2));
    assert_eq!(state.seconds_remaining, 120);
    run(&mut state, token, 10);
    state.stop();
    assert_eq!(state.seconds_remaining, 110);
    assert!(!state.running);

    spawn(&mut state, Some("eye"), None);
    assert_eq!(state.seconds_remaining, 110);
    assert!(state.running);
}

#[test]
fn added_reminder_resolves_from_catalog() {
    let mut state = TimerState::new();
    state.add_reminder(name("stretch"), 15);
    assert_eq!(
        state.configs.get(&name("stretch")),
        Some(ReminderConfig { interval_minutes: 15, enabled: true })
    );
    assert_eq!(state.resolve_minutes(&Some(name("stretch")), None), Some(15));
    spawn(&mut state, Some("stretch"), None);
    assert_eq!(state.seconds_remaining, 900);
    assert_eq!(state.active_type, Some(name("stretch")));
}

#[test]
fn add_reminder_replaces_an_entry() {
    let mut state = TimerState::with_catalog(catalog_of(&[("water", 1), ("eye", 60)]));
    state.add_reminder(name("water"), 45);
    assert_eq!(state.configs.get(&name("water")).map(|c| c.interval_minutes), Some(45));
    assert_eq!(state.configs.get(&name("eye")).map(|c| c.interval_minutes), Some(60));
    assert_eq!(state.configs.to_vec().len(), 2);
}

#[test]
fn add_reminder_leaves_running_cycle_alone() {
    let mut state = TimerState::with_catalog(catalog_of(&[("water", 1)]));
    let token = spawn(&mut state, Some("water"), None);
    state.tick(token);
    state.add_reminder(name("water"), 30);
    assert_eq!(state.seconds_remaining, 59);
    assert!(state.running);
    assert_eq!(state.active_type, Some(name("water")));
    assert_eq!(state.cycle, token);
}

#[test]
fn pause_resume_has_no_drift() {
    let mut state = TimerState::with_catalog(catalog_of(&[("water", 5)]));
    let token = spawn(&mut state, Some("water"), None);
    run(&mut state, token, 7);
    let before = state.seconds_remaining;
    assert_eq!(before, 293);
    for _ in 0..5 {
        state.stop();
        assert!(!state.running);
        assert_eq!(state.seconds_remaining, before);
        spawn(&mut state, Some("water"), None);
        assert!(state.running);
        assert_eq!(state.seconds_remaining, before);
    }
}

#[test]
fn resume_ignores_new_custom_length() {
    let mut state = TimerState::with_catalog(catalog_of(&[("water", 5)]));
    let token = spawn(&mut state, Some("water"), None);
    state.tick(token);
    state.stop();
    spawn(&mut state, Some("water"), Some(1));
    assert_eq!(state.seconds_remaining, 299);
}

#[test]
fn start_while_running_is_a_no_op() {
    let mut state = TimerState::with_catalog(catalog_of(&[("water", 1), ("eye", 60)]));
    state.toggle_loop(true);
    let token = spawn(&mut state, Some("water"), None);
    state.tick(token);
    assert_eq!(state.start(Some(name("eye")), Some(7)), Ok(StartOutcome::AlreadyRunning));
    assert_eq!(state.seconds_remaining, 59);
    assert!(state.running);
    assert_eq!(state.active_type, Some(name("water")));
    assert!(state.loop_enabled);
    assert_eq!(state.cycle, token);
    assert_eq!(state.configs.to_vec().len(), 2);
    assert!(state.stats.to_vec().is_empty());
}

#[test]
fn start_while_running_accepts_unknown_type() {
    let mut state = TimerState::with_catalog(catalog_of(&[("water", 1)]));
    spawn(&mut state, Some("water"), None);
    assert_eq!(state.start(Some(name("nap")), None), Ok(StartOutcome::AlreadyRunning));
    assert_eq!(state.start(None, None), Ok(StartOutcome::AlreadyRunning));
    assert_eq!(state.active_type, Some(name("water")));
    assert_eq!(state.seconds_remaining, 60);
}

#[test]
fn start_unknown_type_is_invalid() {
    let mut state = TimerState::with_catalog(catalog_of(&[("water", 1)]));
    assert_eq!(state.start(Some(name("nap")), None), Err(TimerError::InvalidType));
    assert!(!state.running);
    assert_eq!(state.seconds_remaining, 0);
    assert_eq!(state.active_type, None);
    assert_eq!(state.cycle, 0);
}

#[test]
fn start_without_type_or_length_is_invalid() {
    let mut state = TimerState::with_catalog(catalog_of(&[("water", 1)]));
    assert_eq!(state.start(None, None), Err(TimerError::InvalidType));
    assert!(!state.running);
    assert_eq!(state.resolve_minutes(&None, None), None);
}

#[test]
fn invalid_type_in_words() {
    assert_eq!(TimerError::InvalidType.message(), "Invalid type");
    let mut state = TimerState::new();
    let error = state.start(Some(name("nap")), None).unwrap_err();
    assert_eq!(error.message(), "Invalid type");
}

#[test]
fn custom_length_needs_no_catalog_entry() {
    let mut state = TimerState::new();
    assert_eq!(state.resolve_minutes(&Some(name("nap")), Some(3)), Some(3));
    spawn(&mut state, Some("nap"), Some(3));
    assert_eq!(state.seconds_remaining, 180);
    assert_eq!(state.active_type, Some(name("nap")));
}

#[test]
fn custom_length_wins_over_catalog() {
    let mut state = TimerState::with_catalog(catalog_of(&[("eye", 60)]));
    assert_eq!(state.resolve_minutes(&Some(name("eye")), Some(2)), Some(2));
    spawn(&mut state, Some("eye"), Some(2));
    assert_eq!(state.seconds_remaining, 120);
}

#[test]
fn start_without_type_takes_custom_length() {
    let mut state = TimerState::new();
    spawn(&mut state, None, Some(1));
    assert_eq!(state.seconds_remaining, 60);
    assert!(state.running);
    assert_eq!(state.active_type, None);
}

#[test]
fn longest_cycle_does_not_overflow() {
    let mut state = TimerState::new();
    spawn(&mut state, Some("long"), Some(u32::MAX));
    assert_eq!(state.seconds_remaining, 257_698_037_700);
}

#[test]
fn start_hands_out_a_new_token_each_time() {
    let mut state = TimerState::with_catalog(catalog_of(&[("water", 1)]));
    assert_eq!(state.start(Some(name("water")), None), Ok(StartOutcome::Spawn { cycle: 1 }));
    assert_eq!(state.cycle, 1);
    state.stop();
    assert_eq!(state.start(Some(name("water")), None), Ok(StartOutcome::Spawn { cycle: 2 }));
    assert_eq!(state.cycle, 2);
    state.reset();
    assert_eq!(state.cycle, 2);
    assert_eq!(state.start(Some(name("water")), None), Ok(StartOutcome::Spawn { cycle: 3 }));
}

#[test]
fn token_wraps_to_a_different_one() {
    let mut state = TimerState::with_catalog(catalog_of(&[("water", 1)]));
    state.cycle = u64::MAX;
    assert_eq!(state.start(Some(name("water")), None), Ok(StartOutcome::Spawn { cycle: 0 }));
    assert_eq!(state.cycle, 0);
    assert!(matches!(state.tick(u64::MAX), TickOutcome::Cancelled));
    assert_eq!(state.seconds_remaining, 60);
}

#[test]
fn stopped_loop_stays_cancelled_after_a_new_start() {
    let mut state = TimerState::with_catalog(catalog_of(&[("water", 1)]));
    let old_token = spawn(&mut state, Some("water"), None);
    run(&mut state, old_token, 1);
    state.stop();
    let new_token = spawn(&mut state, Some("water"), None);
    assert_ne!(old_token, new_token);

    let stale = state.tick(old_token);
    assert!(matches!(stale, TickOutcome::Cancelled));
    assert!(stale.ends_loop());
    assert_eq!(state.seconds_remaining, 59);
    assert!(state.running);

    assert_eq!(ticking(&state.tick(new_token)), Some(58));
    assert!(matches!(state.tick(old_token), TickOutcome::Cancelled));
    assert_eq!(state.seconds_remaining, 58);
}

#[test]
fn stop_keeps_everything_but_running() {
    let mut state = TimerState::with_catalog(catalog_of(&[("water", 1)]));
    let token = spawn(&mut state, Some("water"), None);
    state.tick(token);
    state.stop();
    assert!(!state.running);
    assert_eq!(state.seconds_remaining, 59);
    assert_eq!(state.active_type, Some(name("water")));
    state.stop();
    assert!(!state.running);
    assert_eq!(state.seconds_remaining, 59);
}

#[test]
fn reset_clears_running_and_remaining() {
    let mut state = TimerState::with_catalog(catalog_of(&[("water", 1)]));
    state.toggle_loop(true);
    let token = spawn(&mut state, Some("water"), None);
    state.tick(token);
    state.reset();
    assert!(!state.running);
    assert_eq!(state.seconds_remaining, 0);
    assert!(state.loop_enabled);
    assert_eq!(state.active_type, Some(name("water")));
    assert_eq!(state.configs.get(&name("water")).map(|c| c.interval_minutes), Some(1));
    assert!(matches!(state.tick(token), TickOutcome::Cancelled));
    assert!(state.stats.to_vec().is_empty());

    let mut idle = TimerState::new();
    idle.reset();
    assert!(!idle.running);
    assert_eq!(idle.seconds_remaining, 0);
}

#[test]
fn reset_discards_the_cycle() {
    let mut state = TimerState::with_catalog(catalog_of(&[("water", 1)]));
    let token = spawn(&mut state, Some("water"), Some(10));
    state.tick(token);
    state.reset();
    spawn(&mut state, Some("water"), None);
    assert_eq!(state.seconds_remaining, 60);
}

#[test]
fn toggle_loop_sets_the_flag_only() {
    let mut state = TimerState::with_catalog(catalog_of(&[("water", 1)]));
    spawn(&mut state, Some("water"), None);
    state.toggle_loop(true);
    assert!(state.loop_enabled);
    assert!(state.running);
    assert_eq!(state.seconds_remaining, 60);
    state.toggle_loop(false);
    assert!(!state.loop_enabled);
}

#[test]
fn tick_on_stopped_timer_is_cancelled() {
    let mut state = TimerState::with_catalog(catalog_of(&[("water", 1)]));
    let token = spawn(&mut state, Some("water"), None);
    state.tick(token);
    state.stop();
    assert!(state.tick_ready(token));
    let outcome = state.tick(token);
    assert!(matches!(outcome, TickOutcome::Cancelled));
    assert!(outcome.ends_loop());
    assert_eq!(outcome.progress(), None);
    assert_eq!(state.seconds_remaining, 59);
    assert!(!state.running);
    assert!(state.stats.to_vec().is_empty());
}

#[test]
fn completion_counts_once_and_only_its_type() {
    let mut state = TimerState::with_catalog(catalog_of(&[("water", 1), ("eye", 1)]));
    let token = spawn(&mut state, Some("eye"), None);
    let outcomes = run(&mut state, token, 60);
    assert_eq!(completions(&outcomes), 1);
    assert_eq!(state.stats.count(&name("eye")), 1);
    assert_eq!(state.stats.count(&name("water")), 0);

    let token = spawn(&mut state, Some("water"), None);
    run(&mut state, token, 59);
    assert_eq!(state.stats.count(&name("water")), 0);
    state.tick(token);
    assert_eq!(state.stats.count(&name("water")), 1);
    assert_eq!(state.stats.count(&name("eye")), 1);
    let mut listed = state.stats.to_vec();
    listed.sort();
    assert_eq!(listed, vec![(name("eye"), 1), (name("water"), 1)]);
}

#[test]
fn loop_mode_restarts_from_catalog() {
    let mut state = TimerState::with_catalog(catalog_of(&[("water", 2)]));
    state.toggle_loop(true);
    let token = spawn(&mut state, Some("water"), Some(1));
    assert_eq!(state.seconds_remaining, 60);
    let first = run(&mut state, token, 60);
    let expected: Vec<u64> = (0..=59).rev().collect();
    assert_eq!(progress_values(&first), expected);
    match &first[59] {
        TickOutcome::CompletedRestart { progress, reminder, stats } => {
            assert_eq!(*progress, Some(0));
            assert_eq!(reminder, "water");
            assert_eq!(stats.count(&name("water")), 1);
        }
        _ => panic!("loop mode restarts the cycle"),
    }
    assert!(!first[59].ends_loop());
    assert!(state.running);
    assert_eq!(state.seconds_remaining, 120);
    assert_eq!(state.active_type, Some(name("water")));
    assert_eq!(state.cycle, token);

    let second = run(&mut state, token, 120);
    let expected: Vec<u64> = (0..=119).rev().collect();
    assert_eq!(progress_values(&second), expected);
    assert_eq!(completions(&second), 1);
    assert!(matches!(second[119], TickOutcome::CompletedRestart { .. }));
    assert_eq!(state.stats.count(&name("water")), 2);
    assert_eq!(state.seconds_remaining, 120);
}

#[test]
fn single_mode_stops_at_completion() {
    let mut state = TimerState::with_catalog(catalog_of(&[("water", 1)]));
    let token = spawn(&mut state, Some("water"), None);
    run(&mut state, token, 59);
    assert!(matches!(state.tick(token), TickOutcome::CompletedStop { .. }));
    assert!(!state.running);
    assert_eq!(state.seconds_remaining, 0);
    assert!(matches!(state.tick(token), TickOutcome::Cancelled));
    assert_eq!(state.stats.count(&name("water")), 1);
}

#[test]
fn toggle_during_cycle_decides_at_completion() {
    let mut state = TimerState::with_catalog(catalog_of(&[("water", 1)]));
    state.toggle_loop(true);
    let token = spawn(&mut state, Some("water"), None);
    run(&mut state, token, 30);
    state.toggle_loop(false);
    run(&mut state, token, 29);
    assert!(matches!(state.tick(token), TickOutcome::CompletedStop { .. }));
    assert!(!state.running);
}

#[test]
fn zero_length_cycle_completes_without_progress() {
    let mut state = TimerState::new();
    let token = spawn(&mut state, Some("blink"), Some(0));
    assert_eq!(state.seconds_remaining, 0);
    assert!(state.running);
    let outcome = state.tick(token);
    assert!(matches!(outcome, TickOutcome::CompletedStop { progress: None, .. }));
    assert_eq!(outcome.progress(), None);
    assert_eq!(state.stats.count(&name("blink")), 1);
}

#[test]
fn loop_mode_without_catalog_entry_stops() {
    let mut state = TimerState::new();
    state.toggle_loop(true);
    let token = spawn(&mut state, Some("nap"), Some(1));
    let outcomes = run(&mut state, token, 60);
    assert!(matches!(outcomes[59], TickOutcome::CompletedStop { progress: Some(0), .. }));
    assert!(outcomes[59].ends_loop());
    assert_eq!(state.stats.count(&name("nap")), 1);
    assert!(!state.running);
    assert_eq!(state.seconds_remaining, 0);
}

#[test]
fn loop_mode_restarts_once_the_catalog_knows_the_type() {
    let mut state = TimerState::new();
    state.toggle_loop(true);
    let token = spawn(&mut state, Some("nap"), Some(1));
    run(&mut state, token, 59);
    state.add_reminder(name("nap"), 20);
    let outcome = state.try_tick(token).expect("the step can be made");
    assert!(matches!(outcome, TickOutcome::CompletedRestart { .. }));
    assert_eq!(state.seconds_remaining, 1200);
    assert_eq!(state.stats.count(&name("nap")), 1);
}

#[test]
fn completion_without_active_type_is_not_ready() {
    let mut state = TimerState::new();
    let token = spawn(&mut state, None, Some(1));
    for _ in 0..59 {
        assert!(state.tick_ready(token));
        state.tick(token);
    }
    assert_eq!(state.seconds_remaining, 1);
    assert!(!state.tick_ready(token));
    assert!(state.try_tick(token).is_none());
    assert_eq!(state.seconds_remaining, 1);
    assert!(state.running);
    assert!(state.stats.to_vec().is_empty());
    assert!(state.tick_ready(token + 1));
    assert!(matches!(state.try_tick(token + 1), Some(TickOutcome::Cancelled)));
}

#[test]
fn try_tick_steps_like_tick() {
    let mut state = TimerState::with_catalog(catalog_of(&[("water", 1)]));
    let token = spawn(&mut state, Some("water"), None);
    let outcome = state.try_tick(token).expect("a running countdown can step");
    assert_eq!(ticking(&outcome), Some(59));
    assert_eq!(outcome.progress(), Some(59));
    assert_eq!(state.seconds_remaining, 59);
}

#[test]
fn get_stats_is_an_independent_copy() {
    let mut state = TimerState::with_catalog(catalog_of(&[("water", 1)]));
    let token = spawn(&mut state, Some("water"), None);
    run(&mut state, token, 60);
    let snapshot = state.get_stats();
    assert_eq!(snapshot.count(&name("water")), 1);
    let token = spawn(&mut state, Some("water"), None);
    run(&mut state, token, 60);
    assert_eq!(state.stats.count(&name("water")), 2);
    assert_eq!(snapshot.count(&name("water")), 1);
    assert_eq!(state.get_stats().count(&name("water")), 2);
}
