use hubnity::commands::{
    decide_close, resume_command, today_secs_from_sum, tray_label, tray_toggle_command, tray_tooltip, CloseDecision,
    CloseRequestedPayload, DownloadProgress, TrayCache,
};
use hubnity::models::{Project, User};
use hubnity::settings::{
    default_idle_timeout, default_screenshot_interval, default_true, member_settings_for, settings_after_member_fetch,
    settings_after_org_fetch, settings_from_remote, LoginResponse, MemberSettingsEntry, RemoteOrganization,
    RemoteProject, RemoteTrackingSettings, RemoteUser, SettingsStep, TrackingSettings,
};
use hubnity::sync::{
    build_entry, classify_send_error, is_file_not_found, match_results, next_backoff, should_abandon, upload_outcome,
    PendingSlot, SendFailure, SlotMeta, SlotOutcome, SyncAppUsage, SyncCycle, SyncEffect, SyncEntryResult, SyncEvent,
    SyncPhase, UploadOutcome,
};
use hubnity::timer::TimerCommand;

fn remote(interval: u64, idle: u64) -> RemoteTrackingSettings {
    RemoteTrackingSettings {
        screenshot_interval_minutes: interval,
        idle_timeout_seconds: idle,
        app_tracking_enabled: true,
        screenshots_enabled: false,
        idle_detection_enabled: true,
    }
}

#[test]
fn settings_defaults_and_clamping() {
    let d = TrackingSettings::default();
    assert_eq!(d.screenshot_interval_minutes, 3);
    assert_eq!(d.idle_timeout_seconds, 300);
    assert!(d.app_tracking_enabled && d.screenshots_enabled && d.idle_detection_enabled);
    assert_eq!(default_screenshot_interval(), 3);
    assert_eq!(default_idle_timeout(), 300);
    assert!(default_true());
    let c = settings_from_remote(&remote(0, 10));
    assert_eq!((c.screenshot_interval_minutes, c.idle_timeout_seconds), (1, 60));
    assert!(!c.screenshots_enabled);
    let c: TrackingSettings = TrackingSettings::from(remote(10, 900));
    assert_eq!((c.screenshot_interval_minutes, c.idle_timeout_seconds), (10, 900));
}

#[test]
fn member_settings_pick_first_entry_of_user() {
    let entries = vec![
        MemberSettingsEntry { user_id: "u1".to_string(), effective: remote(5, 120) },
        MemberSettingsEntry { user_id: "u2".to_string(), effective: remote(7, 30) },
        MemberSettingsEntry { user_id: "u2".to_string(), effective: remote(9, 900) },
    ];
    let s = member_settings_for(&entries, "u2").unwrap();
    assert_eq!((s.screenshot_interval_minutes, s.idle_timeout_seconds), (7, 60));
    assert_eq!(member_settings_for(&entries, "u3"), None);
}

#[test]
fn settings_fall_back_member_org_default() {
    let member = settings_from_remote(&remote(5, 120));
    let org = settings_from_remote(&remote(8, 600));
    assert_eq!(settings_after_member_fetch(Ok(Some(member.clone()))), SettingsStep::Resolved(member));
    assert_eq!(settings_after_member_fetch(Ok(None)), SettingsStep::FetchOrganizationDefaults);
    assert_eq!(settings_after_member_fetch(Err("500".to_string())), SettingsStep::FetchOrganizationDefaults);
    assert_eq!(settings_after_org_fetch(Ok(org.clone())), org);
    assert_eq!(settings_after_org_fetch(Err("boom".to_string())), TrackingSettings::default());
}

fn usage(n: usize) -> Vec<SyncAppUsage> {
    (0..n)
        .map(|i| SyncAppUsage {
            app_name: format!("app{i}"),
            window_title: "w".to_string(),
            url: None,
            duration_seconds: 5,
            started_at: "s".to_string(),
        })
        .collect()
}

fn slot(id: i64, started: &str) -> PendingSlot {
    PendingSlot {
        id,
        project_id: "p".to_string(),
        started_at: started.to_string(),
        ended_at: "e".to_string(),
        duration_secs: 600,
        activity_percent: 40,
    }
}

#[test]
fn entries_cap_app_usage_and_remember_slot() {
    let (e, m) = build_entry(slot(3, "a"), usage(130));
    assert_eq!(e.app_usage.len(), 100);
    assert_eq!(e.app_usage[99].app_name, "app99");
    assert_eq!((e.duration_seconds, e.activity_percent), (600, 40));
    assert_eq!(m, SlotMeta { slot_id: 3, started_at: "a".to_string(), has_usage: true });
    let (e, m) = build_entry(slot(4, "b"), usage(0));
    assert!(e.app_usage.is_empty());
    assert!(!m.has_usage);
}

fn meta(id: i64, started: &str) -> SlotMeta {
    SlotMeta { slot_id: id, started_at: started.to_string(), has_usage: id % 2 == 0 }
}

fn res(id: &str, synced: bool, started: &str) -> SyncEntryResult {
    SyncEntryResult { id: id.to_string(), synced, started_at: started.to_string() }
}

#[test]
fn results_match_by_start_even_when_reordered() {
    let metas = vec![meta(1, "a"), meta(2, "b"), meta(3, "c")];
    let results = vec![res("rb", true, "b"), res("ra", false, "a"), res("rb2", true, "b")];
    let out = match_results(&metas, &results);
    assert_eq!(
        out,
        vec![
            SlotOutcome::Rejected { slot_id: 1 },
            SlotOutcome::Synced { slot_id: 2, remote_id: "rb2".to_string(), has_usage: true },
            SlotOutcome::NoResult { slot_id: 3 },
        ]
    );
}

#[test]
fn results_match_by_position_without_starts() {
    let metas = vec![meta(1, "a"), meta(2, "b"), meta(3, "c")];
    let results = vec![res("r1", true, ""), res("r2", false, "b")];
    let out = match_results(&metas, &results);
    assert_eq!(
        out,
        vec![
            SlotOutcome::Synced { slot_id: 1, remote_id: "r1".to_string(), has_usage: false },
            SlotOutcome::Rejected { slot_id: 2 },
            SlotOutcome::Missing { slot_id: 3 },
        ]
    );
    assert_eq!(match_results(&metas, &vec![]), vec![
        SlotOutcome::NoResult { slot_id: 1 },
        SlotOutcome::NoResult { slot_id: 2 },
        SlotOutcome::NoResult { slot_id: 3 },
    ]);
}

#[test]
fn backoff_doubles_up_to_five_minutes() {
    assert_eq!(next_backoff(false, 7), (30, 0));
    assert_eq!(next_backoff(true, 0), (60, 1));
    assert_eq!(next_backoff(true, 1), (120, 2));
    assert_eq!(next_backoff(true, 2), (240, 3));
    assert_eq!(next_backoff(true, 3), (300, 4));
    assert_eq!(next_backoff(true, 40), (300, 41));
}

#[test]
fn error_classification() {
    assert_eq!(classify_send_error("Sync failed: 401 Unauthorized"), SendFailure::Unauthorized);
    assert_eq!(classify_send_error("Sync failed: 404 Not Found"), SendFailure::NotFound);
    assert_eq!(classify_send_error("connection refused"), SendFailure::Other);
    assert!(is_file_not_found("No such file or directory (os error 2)"));
    assert!(is_file_not_found("kind: NotFound"));
    assert!(!is_file_not_found("Failed to upload screenshot: 500"));
    assert_eq!(upload_outcome(&Ok(())), UploadOutcome::Uploaded);
    assert_eq!(upload_outcome(&Err("os error 2".to_string())), UploadOutcome::FileMissing);
    assert_eq!(upload_outcome(&Err("timeout".to_string())), UploadOutcome::Failed);
    assert!(!should_abandon(4));
    assert!(should_abandon(5));
}

#[test]
fn sync_cycle_happy_path() {
    let mut c = SyncCycle::begin(false);
    assert_eq!(c.step(SyncEvent::UserLoaded { found: true }), vec![SyncEffect::CheckConnectivity]);
    assert_eq!(
        c.step(SyncEvent::Connectivity { online: true }),
        vec![SyncEffect::EmitConnectivity { online: true }, SyncEffect::BuildEntries]
    );
    assert_eq!(c.step(SyncEvent::EntriesBuilt { ok: true, count: 2 }), vec![SyncEffect::SendEntries]);
    assert_eq!(c.step(SyncEvent::Sent { error: None }), vec![SyncEffect::ApplyResults]);
    assert_eq!(c.step(SyncEvent::ResultsApplied), vec![SyncEffect::CleanupOrphans]);
    assert_eq!(c.step(SyncEvent::CleanedUp), vec![SyncEffect::EmitCompleted]);
    assert_eq!(c.outcome(), Some(false));
    assert!(c.was_online);
}

#[test]
fn sync_cycle_refreshes_token_once() {
    let mut c = SyncCycle::begin(true);
    c.step(SyncEvent::UserLoaded { found: true });
    assert_eq!(c.step(SyncEvent::Connectivity { online: true }), vec![SyncEffect::BuildEntries]);
    c.step(SyncEvent::EntriesBuilt { ok: true, count: 1 });
    assert_eq!(
        c.step(SyncEvent::Sent { error: Some("Sync failed: 401 Unauthorized".to_string()) }),
        vec![SyncEffect::RefreshToken]
    );
    assert_eq!(c.step(SyncEvent::Refreshed { ok: true }), vec![SyncEffect::BuildEntries]);
    assert_eq!(c.step(SyncEvent::EntriesBuilt { ok: true, count: 0 }), vec![SyncEffect::SendEntries]);
    assert!(c.step(SyncEvent::Sent { error: Some("Sync failed: 401".to_string()) }).is_empty());
    assert_eq!(c.outcome(), Some(true));
}

#[test]
fn sync_cycle_failures_and_offline() {
    let mut c = SyncCycle::begin(true);
    c.step(SyncEvent::UserLoaded { found: true });
    assert_eq!(c.step(SyncEvent::Connectivity { online: false }), vec![SyncEffect::EmitConnectivity { online: false }]);
    assert_eq!(c.outcome(), Some(false));

    let mut c = SyncCycle::begin(false);
    assert!(c.step(SyncEvent::UserLoaded { found: false }).is_empty());
    assert_eq!(c.phase, SyncPhase::Finished { had_error: false });

    let mut c = SyncCycle::begin(true);
    c.step(SyncEvent::UserLoaded { found: true });
    c.step(SyncEvent::Connectivity { online: true });
    c.step(SyncEvent::EntriesBuilt { ok: true, count: 1 });
    assert_eq!(c.step(SyncEvent::Sent { error: Some("Sync failed: 500".to_string()) }), vec![SyncEffect::ReportFailure]);
    assert_eq!(c.outcome(), Some(true));

    let mut c = SyncCycle::begin(true);
    c.step(SyncEvent::UserLoaded { found: true });
    c.step(SyncEvent::Connectivity { online: true });
    assert_eq!(c.step(SyncEvent::EntriesBuilt { ok: true, count: 0 }), vec![SyncEffect::CleanupOrphans]);
    assert!(c.step(SyncEvent::ResultsApplied).is_empty(), "events of other phases are ignored");
    assert_eq!(c.step(SyncEvent::CleanedUp), vec![SyncEffect::EmitCompleted]);
}

#[test]
fn close_and_tray_decisions() {
    assert_eq!(
        decide_close(2, false),
        CloseDecision::AskUser(CloseRequestedPayload { unsynced_count: 2, timer_running: false })
    );
    assert_eq!(decide_close(0, false), CloseDecision::Exit);
    assert_eq!(tray_tooltip(true, "01:02:03"), "Hubnity — 01:02:03");
    assert_eq!(tray_tooltip(false, "01:02:03"), "Hubnity");
    assert_eq!(tray_label(true), "Stop Timer");
    assert_eq!(tray_label(false), "Start Timer");
    let mut cache = TrayCache::new();
    assert!(cache.should_update(true, &"Hubnity — 1".to_string()));
    assert!(!cache.should_update(true, &"Hubnity — 1".to_string()));
    assert!(cache.should_update(false, &"Hubnity — 1".to_string()));
    assert_eq!(tray_toggle_command(true, Some("p".to_string())), Some(TimerCommand::Stop));
    assert_eq!(
        tray_toggle_command(false, Some("p".to_string())),
        Some(TimerCommand::Start { project_id: "p".to_string() })
    );
    assert_eq!(tray_toggle_command(false, None), None);
    assert_eq!(resume_command(None), None);
    assert_eq!(today_secs_from_sum(None), 0);
    assert_eq!(today_secs_from_sum(Some(3_600)), 3_600);
}

#[test]
fn download_progress_accumulates() {
    let mut d = DownloadProgress::new();
    assert_eq!(d.on_chunk(100, Some(1_000)).downloaded, 100);
    let p = d.on_chunk(50, None);
    assert_eq!((p.downloaded, p.total), (150, 0));
    assert!(d.can_add(10));
}

#[test]
fn records_from_server_data() {
    let res = LoginResponse {
        user: RemoteUser {
            id: "r1".to_string(),
            name: "Ann".to_string(),
            email: "ann@example.com".to_string(),
            avatar: None,
            role: "member".to_string(),
            created_at: "2025-01-01".to_string(),
        },
        access_token: "at".to_string(),
        refresh_token: "rt".to_string(),
    };
    let u = User::from_login(res);
    assert_eq!((u.id, u.remote_id.as_str(), u.access_token.as_str()), (0, "r1", "at"));
    assert!(u.needs_org_backfill());
    assert_eq!(u.clone().with_first_org(&vec![]), None);
    let orgs = vec![
        RemoteOrganization { id: "o1".to_string(), name: "Acme".to_string() },
        RemoteOrganization { id: "o2".to_string(), name: "Other".to_string() },
    ];
    let u2 = u.with_first_org(&orgs).unwrap();
    assert_eq!((u2.org_id.as_deref(), u2.org_name.as_deref()), (Some("o1"), Some("Acme")));
    assert!(!u2.needs_org_backfill());
    let p = Project::from_remote(RemoteProject { id: "pr".to_string(), name: "Web".to_string() }, "now".to_string());
    assert_eq!((p.id, p.is_active, p.remote_id.as_str(), p.created_at.as_str()), (0, 1, "pr", "now"));
}
