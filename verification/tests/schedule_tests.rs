use nerd_backup::schedule::{
    format_timestamp, parse_iso8601_duration, parse_timestamp, plan_startup, startup_wait,
    ScheduleState, Scheduler, SchedulerPhase, StartupPlan,
};

#[test]
fn timestamps_parse_with_surrounding_whitespace() {
    assert_eq!(parse_timestamp("12345"), Some(12345));
    assert_eq!(parse_timestamp(" 42\n"), Some(42));
    assert_eq!(parse_timestamp("\t0\r\n"), Some(0));
    assert_eq!(parse_timestamp("18446744073709551615"), Some(u64::MAX));
}

#[test]
fn malformed_timestamps_do_not_parse() {
    assert_eq!(parse_timestamp(""), None);
    assert_eq!(parse_timestamp("   \n"), None);
    assert_eq!(parse_timestamp("abc"), None);
    assert_eq!(parse_timestamp("12a"), None);
    assert_eq!(parse_timestamp("-5"), None);
    assert_eq!(parse_timestamp("12 34"), None);
    assert_eq!(parse_timestamp("18446744073709551616"), None);
    assert_eq!(parse_timestamp("99999999999999999999999"), None);
}

#[test]
fn formatted_timestamps_read_back_unchanged() {
    assert_eq!(format_timestamp(0), "0");
    assert_eq!(format_timestamp(7), "7");
    assert_eq!(format_timestamp(1700000000), "1700000000");
    assert_eq!(format_timestamp(u64::MAX), "18446744073709551615");
    for ts in [0u64, 1, 9, 10, 99, 100, 12345678901234567890, u64::MAX] {
        assert_eq!(parse_timestamp(&format_timestamp(ts)), Some(ts));
    }
}

#[test]
fn missing_or_malformed_last_run_runs_immediately() {
    assert_eq!(startup_wait(None, 1000, 600), 0);
    assert_eq!(startup_wait(Some("garbage"), 1000, 600), 0);
    assert_eq!(startup_wait(Some(""), 1000, 600), 0);
}

#[test]
fn overdue_last_run_runs_immediately() {
    // Exactly one interval old, and older still: no wait.
    assert_eq!(startup_wait(Some("400"), 1000, 600), 0);
    assert_eq!(startup_wait(Some("100"), 1000, 600), 0);
}

#[test]
fn fresh_last_run_waits_out_the_remainder() {
    assert_eq!(startup_wait(Some("500"), 1000, 600), 100);
    assert_eq!(startup_wait(Some("999"), 1000, 600), 599);
    // A timestamp not in the past waits one full interval.
    assert_eq!(startup_wait(Some("1000"), 1000, 600), 600);
    assert_eq!(startup_wait(Some("5000"), 1000, 600), 600);
}

#[test]
fn interval_text_parses_to_whole_seconds() {
    assert_eq!(parse_iso8601_duration("PT24H"), Some(86400));
    assert_eq!(parse_iso8601_duration("P1D"), Some(86400));
    assert_eq!(parse_iso8601_duration("P1W"), Some(604800));
    assert_eq!(parse_iso8601_duration("PT1H30M"), Some(5400));
    assert_eq!(parse_iso8601_duration("PT90S"), Some(90));
    assert_eq!(parse_iso8601_duration("yearly"), None);
    assert_eq!(parse_iso8601_duration(""), None);
}

#[test]
fn first_run_without_a_persisted_file_happens_immediately() {
    // A daily interval and no last-run file: the first cycle is due now.
    let plan = plan_startup("PT24H", None, 1_700_000_000);
    assert_eq!(plan, Some(StartupPlan { interval_secs: 86400, wait_secs: 0 }));
    // After a success, the persisted text pushes the next run a day out.
    let mut state = ScheduleState::new(None);
    let written = state.record_cycle(true, 1_700_000_000).expect("success persists");
    let replan = plan_startup("PT24H", Some(&written), 1_700_000_000);
    assert_eq!(replan, Some(StartupPlan { interval_secs: 86400, wait_secs: 86400 }));
}

#[test]
fn unparsable_interval_makes_no_plan() {
    assert_eq!(plan_startup("soon", None, 0), None);
}

#[test]
fn successful_cycle_persists_its_completion_time() {
    let mut state = ScheduleState::new(Some(500));
    let written = state.record_cycle(true, 900);
    assert_eq!(state.last_success, Some(900));
    assert_eq!(written.as_deref(), Some("900"));
}

#[test]
fn failed_cycle_leaves_the_persisted_state_untouched() {
    let mut state = ScheduleState::new(Some(500));
    let written = state.record_cycle(false, 900);
    assert_eq!(state.last_success, Some(500));
    assert_eq!(written, None);
}

#[test]
fn scheduler_records_outcomes_between_cycles() {
    let mut sched = Scheduler::new(ScheduleState::new(None));
    assert_eq!(sched.phase, SchedulerPhase::WaitingForInterval);
    sched.on_tick();
    assert_eq!(sched.phase, SchedulerPhase::RunningCycle);
    let written = sched.on_cycle_finished(false, 100);
    assert_eq!(written, None);
    assert_eq!(sched.state.last_success, None);
    sched.on_tick();
    let written = sched.on_cycle_finished(true, 200);
    assert_eq!(written.as_deref(), Some("200"));
    assert_eq!(sched.state.last_success, Some(200));
    assert!(!sched.is_shutting_down());
    sched.on_shutdown_signal();
    assert!(sched.is_shutting_down());
}
