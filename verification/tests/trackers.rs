use hubnity::activity::{
    activity_percent, any_button_pressed, has_new_key, is_accessibility_trusted, is_activity, listener_poll_interval_ms,
    mouse_moved, ActivityPayload, ActivityState, ActivityTick,
};
use hubnity::app_tracker::{is_own_app, AppKey, AppTracker, Accum, UsageAccumulator, UsageFlush};
use hubnity::screenshot::{
    is_real_frame, is_screen_recording_trusted, pick_monitor, plan_chunk, screenshot_suffix, ScreenshotScheduler,
    ShotLabel, ShotRequest,
};

#[test]
fn activity_counts_seconds_and_percent() {
    let mut s = ActivityState::new();
    assert_eq!(s.count_second().percent, 0);
    s.observe_input(true, 1_700_000_000);
    assert!(s.activity_flag);
    assert_eq!(s.last_activity_secs, 1_700_000_000);
    let p = s.count_second();
    assert_eq!((p.active_seconds, p.total_seconds, p.percent), (1, 2, 50));
    assert!(!s.activity_flag);
    s.observe_input(true, 0);
    assert!(!s.activity_flag, "a zero clock reading is not recorded");
    s.observe_input(false, 5);
    assert_eq!(s.last_activity_secs, 1_700_000_000);
    s.reset_counters();
    assert_eq!((s.active_seconds, s.total_seconds), (0, 0));
    assert_eq!(s.last_activity_secs, 1_700_000_000);
    assert!(s.can_count_second());
}

#[test]
fn activity_percent_rounds_down() {
    assert_eq!(activity_percent(1, 3), 33);
    assert_eq!(activity_percent(2, 3), 66);
    assert_eq!(activity_percent(5, 0), 0);
    assert_eq!(activity_percent(600, 600), 100);
}

#[test]
fn input_detection() {
    assert!(!mouse_moved(100, 100, 103, 104), "5 px is jitter");
    assert!(mouse_moved(100, 100, 104, 104));
    assert!(has_new_key(&vec![3, 9], &vec![3]));
    assert!(!has_new_key(&vec![3], &vec![3, 9]));
    assert!(!has_new_key(&vec![], &vec![]));
    assert!(any_button_pressed(&vec![false, true]));
    assert!(!any_button_pressed(&vec![false, false]));
    assert!(is_activity(false, false, true));
    assert!(!is_activity(false, false, false));
    assert!(is_accessibility_trusted());
}

fn key(app: &str, title: &str) -> AppKey {
    AppKey { app_name: app.to_string(), window_title: title.to_string(), url: None }
}

#[test]
fn usage_accumulates_per_app_and_title() {
    let mut a = UsageAccumulator::new();
    a.add_sample(key("Code", "main.rs"), "t1".to_string());
    a.add_sample(key("Code", "main.rs"), "t2".to_string());
    a.add_sample(key("Code", "lib.rs"), "t3".to_string());
    assert_eq!(a.entries.len(), 2);
    assert_eq!(a.entries[0].1, Accum { duration_secs: 10, started_at: "t1".to_string() });
    assert_eq!(a.entries[1].1.duration_secs, 5);
    assert!(a.can_add_sample());
}

#[test]
fn failed_flush_is_merged_back() {
    let mut a = UsageAccumulator::new();
    a.add_sample(key("Mail", "Inbox"), "t1".to_string());
    a.add_sample(key("Web", "News"), "t1".to_string());
    let batch = a.drain();
    assert!(a.is_empty());
    a.add_sample(key("Mail", "Inbox"), "t9".to_string());
    assert!(a.can_merge(&batch));
    a.merge_back(batch);
    assert_eq!(a.entries.len(), 2);
    assert_eq!(a.entries[0], (key("Mail", "Inbox"), Accum { duration_secs: 10, started_at: "t9".to_string() }));
    assert_eq!(a.entries[1], (key("Web", "News"), Accum { duration_secs: 5, started_at: "t1".to_string() }));
    let neg = vec![(key("X", "Y"), Accum { duration_secs: -1, started_at: String::new() })];
    assert!(!a.can_merge(&neg));
}

#[test]
fn tracker_flushes_old_slot_on_change_and_every_minute() {
    let mut t = AppTracker::new();
    let plan = t.on_poll(true, Some(4));
    assert_eq!(plan.flush_slot, None, "no previous slot");
    assert_eq!(plan.sample_slot, Some(4));
    for i in 1..12u64 {
        assert_eq!(t.on_window(4, "Code".to_string(), "a".to_string(), format!("t{i}")), None);
    }
    assert_eq!(
        t.on_window(4, "Code".to_string(), "a".to_string(), "t12".to_string()),
        Some(UsageFlush {
            slot_id: 4,
            entries: vec![(key("Code", "a"), Accum { duration_secs: 60, started_at: "t1".to_string() })],
        })
    );
    assert!(t.accum.is_empty(), "a minute of samples is handed out whole");
    assert_eq!(t.tick_count, 0);
    let plan = t.on_poll(false, Some(5));
    assert_eq!(plan.flush_slot, Some(4));
    assert_eq!(plan.sample_slot, None);
    let plan = t.on_poll(true, Some(5));
    assert_eq!(plan.flush_slot, None);
    assert!(!plan.log_alive);
    for _ in 0..2 {
        t.on_poll(true, Some(5));
    }
    assert!(t.on_poll(true, Some(5)).log_alive, "sixth poll logs a heartbeat");
}

#[test]
fn tracker_skips_its_own_window_whatever_the_case() {
    let mut t = AppTracker::new();
    t.on_poll(true, Some(1));
    assert_eq!(t.on_window(1, "HUBNITY".to_string(), "Timer".to_string(), "t".to_string()), None);
    assert!(t.accum.is_empty());
    assert_eq!(t.tick_count, 0);
    assert!(is_own_app("hubnity desktop"));
    assert!(!is_own_app("HUBNITY"));
}

#[test]
fn tracker_throttles_error_logs() {
    let mut t = AppTracker::new();
    let logged: Vec<bool> = (0..7).map(|_| t.on_window_error()).collect();
    assert_eq!(logged, vec![true, true, true, false, false, true, false]);
    t.on_poll(true, Some(1));
    t.on_window(1, "Code".to_string(), "x".to_string(), "t".to_string());
    assert_eq!(t.consecutive_errors, 0);
}

#[test]
fn plan_has_one_offset_per_window() {
    for _ in 0..50 {
        let p = plan_chunk();
        assert_eq!(p.len(), 3);
        for (w, off) in p.iter().enumerate() {
            let lo = 200 * w as u64;
            assert!(lo <= *off && *off < lo + 200, "offset {off} outside window {w}");
        }
    }
}

#[test]
fn scheduler_fires_planned_shots_in_order() {
    let mut s = ScreenshotScheduler::new();
    assert!(s.needs_plan(true));
    let shots = s.poll_with_plan(true, Some(9), vec![1, 250, 450]);
    assert_eq!(shots, vec![ShotRequest { slot_id: 9, label: ShotLabel::Offset(1) }]);
    let mut fired = vec![];
    for _ in 2..=599 {
        fired.extend(s.poll_with_plan(true, Some(9), vec![]));
    }
    assert_eq!(
        fired,
        vec![
            ShotRequest { slot_id: 9, label: ShotLabel::Offset(250) },
            ShotRequest { slot_id: 9, label: ShotLabel::Offset(450) },
        ]
    );
    assert!(s.needs_plan(true), "chunk end draws a new plan");
    let shots = s.poll_with_plan(true, Some(9), vec![0, 200, 400]);
    assert_eq!(shots, vec![ShotRequest { slot_id: 9, label: ShotLabel::Offset(0) }]);
    assert_eq!(s.chunk_elapsed, 0);
}

#[test]
fn scheduler_stop_shot_only_for_uncovered_chunk() {
    let mut s = ScreenshotScheduler::new();
    s.poll_with_plan(true, None, vec![100, 300, 500]);
    for _ in 2..=40 {
        s.poll_with_plan(true, None, vec![]);
    }
    let shots = s.poll_with_plan(false, Some(3), vec![]);
    assert_eq!(shots, vec![ShotRequest { slot_id: 3, label: ShotLabel::Stop }]);
    assert!(s.scheduled.is_empty());

    let mut s = ScreenshotScheduler::new();
    s.poll_with_plan(true, Some(3), vec![10, 300, 500]);
    for _ in 2..=40 {
        s.poll_with_plan(true, Some(3), vec![]);
    }
    assert!(s.poll_with_plan(false, Some(3), vec![]).is_empty(), "a shot was already taken");

    let mut s = ScreenshotScheduler::new();
    s.poll_with_plan(true, Some(3), vec![100, 300, 500]);
    assert!(s.poll_with_plan(false, Some(3), vec![]).is_empty(), "too short for a stop shot");
}

#[test]
fn scheduler_poll_draws_its_own_plan() {
    let mut s = ScreenshotScheduler::new();
    let mut shots = vec![];
    for _ in 0..599 {
        shots.extend(s.poll(true, Some(1)));
    }
    assert_eq!(shots.len(), 3);
    assert!(s.poll(false, Some(1)).is_empty());
}

#[test]
fn largest_monitor_wins_last_on_ties() {
    assert_eq!(pick_monitor(&vec![]), None);
    assert_eq!(pick_monitor(&vec![(1280, 720), (2560, 1440), (1920, 1080)]), Some(1));
    assert_eq!(pick_monitor(&vec![(1920, 1080), (1080, 1920)]), Some(1));
}

#[test]
fn capture_guards() {
    assert!(!is_real_frame(1023));
    assert!(is_real_frame(1024));
    assert!(is_screen_recording_trusted());
    for _ in 0..50 {
        let s = screenshot_suffix();
        assert_eq!(s.len(), 4);
        assert!(s.iter().all(|b| b.is_ascii_digit() || b.is_ascii_lowercase()));
    }
}

#[test]
fn slot_change_hands_out_old_usage_before_sampling_new_slot() {
    let mut t = AppTracker::new();
    t.on_poll(true, Some(4));
    t.on_window(4, "Code".to_string(), "a".to_string(), "t1".to_string());
    t.on_window(4, "Mail".to_string(), "b".to_string(), "t2".to_string());
    let plan = t.on_poll(true, Some(5));
    assert_eq!(plan.flush_slot, Some(4));
    assert_eq!(plan.flush_entries.len(), 2);
    assert_eq!(plan.flush_entries[0].0, key("Code", "a"));
    assert_eq!(plan.flush_entries[1].1.started_at, "t2");
    assert!(t.accum.is_empty(), "nothing of slot 4 is left to be written into slot 5");
    t.on_window(5, "Code".to_string(), "a".to_string(), "t3".to_string());
    assert_eq!(t.accum.entries.len(), 1);
    assert_eq!(t.accum.entries[0].1, Accum { duration_secs: 5, started_at: "t3".to_string() });
    // with no previous slot nothing is handed out
    let mut u = AppTracker::new();
    assert!(u.on_poll(true, Some(1)).flush_entries.is_empty());
}

#[test]
fn activity_tick_skips_when_stopped_and_after_wake() {
    let mut s = ActivityState::new();
    s.observe_input(true, 10);
    assert_eq!(s.on_tick(false), ActivityTick::Stopped);
    assert_eq!(s.total_seconds, 0);
    s.mark_waking();
    assert_eq!(s.on_tick(true), ActivityTick::WokeUp);
    assert!(!s.is_waking);
    assert_eq!(s.total_seconds, 0);
    assert_eq!(
        s.on_tick(true),
        ActivityTick::Counted(ActivityPayload { active_seconds: 1, total_seconds: 1, percent: 100 })
    );
    assert_eq!(
        s.on_tick(true),
        ActivityTick::Counted(ActivityPayload { active_seconds: 1, total_seconds: 2, percent: 50 })
    );
}

#[test]
fn listener_pace_follows_timer() {
    let mut s = ActivityState::new();
    assert_eq!(listener_poll_interval_ms(s.timer_active), 1000);
    s.set_timer_active(true);
    assert!(s.timer_active);
    assert_eq!(listener_poll_interval_ms(s.timer_active), 100);
}

#[test]
fn no_screenshot_without_open_slot_and_one_per_window() {
    let mut s = ScreenshotScheduler::new();
    let mut fired = vec![];
    fired.extend(s.poll_with_plan(true, None, vec![5, 205, 405]));
    for t in 2..=599u64 {
        let slot = if t < 10 || (200..300).contains(&t) { None } else { Some(3) };
        fired.extend(s.poll_with_plan(true, slot, vec![]));
    }
    // the first two planned offsets fall while no slot is published
    assert_eq!(fired, vec![ShotRequest { slot_id: 3, label: ShotLabel::Offset(405) }]);
    assert_eq!(s.next_shot, 3, "each planned offset is passed once");
}
