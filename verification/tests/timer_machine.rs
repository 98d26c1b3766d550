use hubnity::timer::{TimerAction, TimerMachine};

const DAY: (i32, u32) = (2025, 166);
/// One millisecond, in the nanoseconds the timer works with.
const MS: i64 = 1_000_000;
const T0: i64 = 1_750_000_000_000 * MS;

fn started_machine() -> TimerMachine {
    let mut m = TimerMachine::new(100, DAY);
    let acts = m.start("proj-1".to_string(), T0, DAY, 5);
    assert_eq!(
        acts,
        vec![
            TimerAction::CloseIdleWindow,
            TimerAction::EnableMainWindow,
            TimerAction::ReloadTodaySecs,
            TimerAction::SetRunningFlag { running: true },
            TimerAction::SetTimerActive { active: true },
            TimerAction::ResetActivityCounters,
            TimerAction::CreateStub { project_id: "proj-1".to_string(), at_ns: T0 },
            TimerAction::ResetTickInterval,
            TimerAction::EmitTick { is_running: true, session_secs: 0 },
        ]
    );
    assert_eq!(m.stub_created(Some(7)), vec![TimerAction::PublishSlot { slot: Some(7) }]);
    m.today_secs_loaded(100);
    m
}

#[test]
fn start_creates_and_publishes_stub() {
    let m = started_machine();
    assert!(m.running);
    assert_eq!(m.stub_slot_id, Some(7));
    assert_eq!(m.chunk_started_at, Some(T0));
    assert_eq!(m.last_seen_activity_ts, 5);
    let p = m.tick_payload(true, 0);
    assert_eq!(p.total_secs, 100);
    assert!(p.is_running);
}

#[test]
fn start_while_running_is_ignored() {
    let mut m = started_machine();
    assert!(m.start("other".to_string(), T0 + 5_000 * MS, DAY, 9).is_empty());
    assert_eq!(m.current_project_id, Some("proj-1".to_string()));
}

#[test]
fn stop_while_stopped_is_ignored() {
    let mut m = TimerMachine::new(0, DAY);
    assert!(m.stop(T0, DAY).is_empty());
    assert!(m.tick(T0, DAY, T0 - 1 * MS, 0).is_empty());
}

#[test]
fn ticks_report_session_seconds_and_save_progress_every_minute() {
    let mut m = started_machine();
    for i in 1..60i64 {
        let acts = m.tick(T0 + i * 1_000 * MS, DAY, T0 - 1 * MS, 6);
        assert_eq!(acts, vec![TimerAction::EmitTick { is_running: true, session_secs: i as u64 }]);
    }
    let acts = m.tick(T0 + 60_000 * MS, DAY, T0 - 1 * MS, 6);
    assert_eq!(
        acts,
        vec![
            TimerAction::UpdateSlot { slot_id: 7, started_ns: T0, ended_ns: T0 + 60_000 * MS },
            TimerAction::EmitTick { is_running: true, session_secs: 60 },
        ]
    );
    assert_eq!(m.tick_payload(true, 60).total_secs, 160);
}

#[test]
fn stop_finalizes_stub_up_to_now() {
    let mut m = started_machine();
    for i in 1..=5i64 {
        m.tick(T0 + i * 1_000 * MS, DAY, T0 - 1 * MS, 6);
    }
    let acts = m.stop(T0 + 65_400 * MS, DAY);
    assert_eq!(
        acts,
        vec![
            TimerAction::SetRunningFlag { running: false },
            TimerAction::SetTimerActive { active: false },
            TimerAction::CloseIdleWindow,
            TimerAction::EnableMainWindow,
            TimerAction::UpdateSlot { slot_id: 7, started_ns: T0, ended_ns: T0 + 65_400 * MS },
            TimerAction::PublishSlot { slot: None },
            TimerAction::ResetActivityCounters,
            TimerAction::ReloadTodaySecs,
            TimerAction::EmitTick { is_running: false, session_secs: 0 },
        ]
    );
    assert!(!m.running);
    assert_eq!(m.stub_slot_id, None);
    assert_eq!(m.chunk_elapsed_secs, 0);
}

#[test]
fn stop_without_stub_inserts_and_skips_empty_spans() {
    let mut m = TimerMachine::new(0, DAY);
    m.start("p".to_string(), T0, DAY, 0);
    assert!(m.stub_created(None).is_empty());
    let acts = m.stop(T0 + 3_000 * MS, DAY);
    assert_eq!(acts[4], TimerAction::InsertChunk { project_id: "p".to_string(), started_ns: T0, ended_ns: T0 + 3_000 * MS });

    let mut m = TimerMachine::new(0, DAY);
    m.start("p".to_string(), T0, DAY, 0);
    m.stub_created(Some(1));
    let acts = m.stop(T0 + 999 * MS, DAY);
    assert_eq!(acts.len(), 8, "a span without a whole second writes nothing");
    assert_eq!(acts[4], TimerAction::PublishSlot { slot: None });
}

#[test]
fn chunk_of_ten_minutes_rolls_into_new_stub() {
    let mut m = started_machine();
    let mut last = vec![];
    for i in 1..=600i64 {
        // fresh input every second keeps the session from going idle
        last = m.tick(T0 + i * 1_000 * MS, DAY, T0 - 1 * MS, 6 + i as u64);
    }
    let end = T0 + 600_000 * MS;
    assert_eq!(
        last,
        vec![
            TimerAction::UpdateSlot { slot_id: 7, started_ns: T0, ended_ns: end },
            TimerAction::UpdateSlot { slot_id: 7, started_ns: T0, ended_ns: end },
            TimerAction::CreateStub { project_id: "proj-1".to_string(), at_ns: end },
            TimerAction::ResetActivityCounters,
            TimerAction::ReloadTodaySecs,
            TimerAction::EmitTick { is_running: true, session_secs: 0 },
        ]
    );
    assert_eq!(m.chunk_started_at, Some(end));
    assert_eq!(m.stub_slot_id, None);
    assert_eq!(m.chunk_elapsed_secs, 0);
    assert_eq!(m.stub_created(Some(8)), vec![TimerAction::PublishSlot { slot: Some(8) }]);
}

#[test]
fn day_change_splits_chunk_at_midnight() {
    let mut m = started_machine();
    let midnight = T0 + 30_000 * MS;
    let next_day = (2025, 167);
    let acts = m.tick(T0 + 31_000 * MS, next_day, midnight, 5);
    assert_eq!(
        acts,
        vec![
            TimerAction::UpdateSlot { slot_id: 7, started_ns: T0, ended_ns: midnight },
            TimerAction::CreateStub { project_id: "proj-1".to_string(), at_ns: midnight },
            TimerAction::ResetActivityCounters,
            TimerAction::EmitDayRollover,
            TimerAction::EmitTick { is_running: true, session_secs: 0 },
        ]
    );
    assert_eq!(m.current_day, next_day);
    assert_eq!(m.today_secs_cache, 0);
    assert_eq!(m.chunk_started_at, Some(midnight));
    assert!(m.running);
}

#[test]
fn idle_closes_chunk_at_last_input() {
    let mut m = started_machine();
    // input seen at T0 + 10 s
    m.tick(T0 + 10_000 * MS, DAY, T0 - 1 * MS, 6);
    let mut acts = vec![];
    let mut t = T0 + 11_000 * MS;
    while t < T0 + 310_000 * MS {
        acts = m.tick(t, DAY, T0 - 1 * MS, 6);
        t += 1_000 * MS;
    }
    assert!(m.running, "299 s without input is not yet idle");
    assert_eq!(acts.last(), Some(&TimerAction::EmitTick { is_running: true, session_secs: 309 }));
    let acts = m.tick(T0 + 310_000 * MS, DAY, T0 - 1 * MS, 6);
    assert_eq!(
        acts,
        vec![
            TimerAction::SetRunningFlag { running: false },
            TimerAction::SetTimerActive { active: false },
            TimerAction::UpdateSlot { slot_id: 7, started_ns: T0, ended_ns: T0 + 10_000 * MS },
            TimerAction::ResetActivityCounters,
            TimerAction::PublishSlot { slot: None },
            TimerAction::ReloadTodaySecs,
            TimerAction::EmitIdle { idle_secs: 300 },
            TimerAction::EmitTick { is_running: false, session_secs: 0 },
            TimerAction::OpenIdleWindow { idle_secs: 300 },
        ]
    );
    assert!(!m.running);
    assert!(m.idle_window_opened);
    assert!(m.tick(T0 + 311_000 * MS, DAY, T0 - 1 * MS, 6).is_empty());
}

#[test]
fn reset_unpublishes_before_deleting_stub() {
    let mut m = started_machine();
    let acts = m.reset((2025, 170));
    assert_eq!(
        acts,
        vec![
            TimerAction::SetRunningFlag { running: false },
            TimerAction::SetTimerActive { active: false },
            TimerAction::PublishSlot { slot: None },
            TimerAction::DeleteStub { slot_id: 7 },
            TimerAction::ResetActivityCounters,
            TimerAction::ReloadTodaySecs,
            TimerAction::EmitTick { is_running: false, session_secs: 0 },
        ]
    );
    assert!(!m.running);
    assert_eq!(m.current_day, (2025, 170));
}

#[test]
fn stub_reported_after_stop_is_ignored() {
    let mut m = TimerMachine::new(0, DAY);
    assert!(m.stub_created(Some(3)).is_empty());
    assert_eq!(m.stub_slot_id, None);
}

#[test]
fn tick_total_adds_session_to_today() {
    let mut m = TimerMachine::new(0, DAY);
    m.today_secs_loaded(3_600);
    assert!(m.total_fits(25));
    assert_eq!(m.tick_payload(true, 25).total_secs, 3_625);
    assert!(!m.total_fits(u64::MAX));
}

#[test]
fn input_from_before_start_does_not_keep_session_alive() {
    let mut m = started_machine();
    // the input timestamp seen at start (5) never changes afterwards
    for i in 1..300i64 {
        let acts = m.tick(T0 + i * 1_000 * MS, DAY, T0 - 1 * MS, 5);
        assert_eq!(acts.last(), Some(&TimerAction::EmitTick { is_running: true, session_secs: i as u64 }));
    }
    assert_eq!(m.last_activity_at, Some(T0));
    let acts = m.tick(T0 + 300_000 * MS, DAY, T0 - 1 * MS, 5);
    assert_eq!(acts.last(), Some(&TimerAction::OpenIdleWindow { idle_secs: 300 }));
    assert!(!m.running);
}
