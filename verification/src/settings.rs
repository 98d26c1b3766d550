//! Account and tracking-settings data exchanged with the server, and how the
//! effective tracking settings of a user are chosen.

use vstd::prelude::*;
use crate::text::str_eq;

verus! {

/// Body of `POST /auth/login`.
#[derive(Debug, Clone, PartialEq, Eq)]
pub struct LoginRequest {
    pub email: String,
    pub password: String,
}

/// Answer to a successful login.
#[derive(Debug, Clone, PartialEq, Eq)]
pub struct LoginResponse {
    pub user: RemoteUser,
    pub access_token: String,
    pub refresh_token: String,
}

/// The user as the server describes it.
#[derive(Debug, Clone, PartialEq, Eq)]
pub struct RemoteUser {
    pub id: String,
    pub name: String,
    pub email: String,
    pub avatar: Option<String>,
    pub role: String,
    pub created_at: String,
}

/// One item of `GET /organizations`.
#[derive(Debug, Clone, PartialEq, Eq)]
pub struct RemoteOrganization {
    pub id: String,
    pub name: String,
}

/// Body of `POST /auth/refresh`.
#[derive(Debug, Clone, PartialEq, Eq)]
pub struct RefreshRequest {
    pub refresh_token: String,
}

/// Answer to a successful token refresh.
#[derive(Debug, Clone, PartialEq, Eq)]
pub struct RefreshResponse {
    pub access_token: String,
    pub refresh_token: String,
}

/// One item of `GET /projects`.
#[derive(Debug, Clone, PartialEq, Eq)]
pub struct RemoteProject {
    pub id: String,
    pub name: String,
}

/// Tracking settings used by the local actors.
#[derive(Debug, Clone, PartialEq, Eq)]
pub struct TrackingSettings {
    pub screenshot_interval_minutes: u64,
    pub idle_timeout_seconds: u64,
    pub app_tracking_enabled: bool,
    pub screenshots_enabled: bool,
    pub idle_detection_enabled: bool,
}

/// Tracking settings as the server sends them; absent fields take the
/// values of [`default_screenshot_interval`], [`default_idle_timeout`] and
/// [`default_true`].
#[derive(Debug, Clone, PartialEq, Eq)]
pub struct RemoteTrackingSettings {
    pub screenshot_interval_minutes: u64,
    pub idle_timeout_seconds: u64,
    pub app_tracking_enabled: bool,
    pub screenshots_enabled: bool,
    pub idle_detection_enabled: bool,
}

/// One item of `GET /organizations/{id}/members/tracking-settings`.
#[derive(Debug, Clone, PartialEq, Eq)]
pub struct MemberSettingsEntry {
    pub user_id: String,
    pub effective: RemoteTrackingSettings,
}

/// The settings in force when nothing could be loaded.
pub open spec fn default_settings() -> TrackingSettings {
    TrackingSettings {
        screenshot_interval_minutes: 3,
        idle_timeout_seconds: 300,
        app_tracking_enabled: true,
        screenshots_enabled: true,
        idle_detection_enabled: true,
    }
}

impl Default for TrackingSettings {
    fn default() -> (r: Self)
        ensures
            r == default_settings(),
    {
        TrackingSettings {
            screenshot_interval_minutes: 3,
            idle_timeout_seconds: 300,
            app_tracking_enabled: true,
            screenshots_enabled: true,
            idle_detection_enabled: true,
        }
    }
}

/// Screenshot interval (minutes) when the server omits it.
pub fn default_screenshot_interval() -> (r: u64)
    ensures
        r == 3,
{
    3
}

/// Idle timeout (seconds) when the server omits it.
pub fn default_idle_timeout() -> (r: u64)
    ensures
        r == 300,
{
    300
}

/// Value of an omitted feature switch.
pub fn default_true() -> (r: bool)
    ensures
        r,
{
    true
}

/// Server settings clamped to safe minimums: at least one minute between
/// screenshots and at least sixty seconds before idle.
pub open spec fn clamp_settings(r: RemoteTrackingSettings) -> TrackingSettings {
    TrackingSettings {
        screenshot_interval_minutes: if r.screenshot_interval_minutes >= 1 {
            r.screenshot_interval_minutes
        } else {
            1
        },
        idle_timeout_seconds: if r.idle_timeout_seconds >= 60 {
            r.idle_timeout_seconds
        } else {
            60
        },
        app_tracking_enabled: r.app_tracking_enabled,
        screenshots_enabled: r.screenshots_enabled,
        idle_detection_enabled: r.idle_detection_enabled,
    }
}

/// Converts server settings, clamping them to the safe minimums.
pub fn settings_from_remote(r: &RemoteTrackingSettings) -> (ret: TrackingSettings)
    ensures
        ret == clamp_settings(*r),
{
    TrackingSettings {
            screenshot_interval_minutes: if r.screenshot_interval_minutes >= 1 {
                r.screenshot_interval_minutes
            } else {
                1
            },
            idle_timeout_seconds: if r.idle_timeout_seconds >= 60 {
                r.idle_timeout_seconds
            } else {
                60
            },
            app_tracking_enabled: r.app_tracking_enabled,
            screenshots_enabled: r.screenshots_enabled,
            idle_detection_enabled: r.idle_detection_enabled,
    }
}

impl From<RemoteTrackingSettings> for TrackingSettings {
    fn from(r: RemoteTrackingSettings) -> (ret: Self) {
        settings_from_remote(&r)
    }
}

impl vstd::std_specs::convert::FromSpecImpl<RemoteTrackingSettings> for TrackingSettings {
    open spec fn obeys_from_spec() -> bool {
        true
    }

    open spec fn from_spec(v: RemoteTrackingSettings) -> TrackingSettings {
        clamp_settings(v)
    }
}

/// Index of the first entry for `user_id`, if any.
pub open spec fn first_entry_for(entries: Seq<MemberSettingsEntry>, user_id: Seq<char>) -> Option<
    int,
>
    decreases entries.len(),
{
    if entries.len() == 0 {
        None
    } else if entries[0].user_id@ == user_id {
        Some(0)
    } else {
        match first_entry_for(entries.drop_first(), user_id) {
            Some(i) => Some(i + 1),
            None => None,
        }
    }
}

/// The effective settings of the member `user_id` in a member-settings
/// list: those of the first entry for the user, clamped; `None` when the
/// user is not listed.
pub fn member_settings_for(entries: &Vec<MemberSettingsEntry>, user_id: &str) -> (r: Option<
    TrackingSettings,
>)
    ensures
        match first_entry_for(entries@, user_id@) {
            Some(i) => r == Some(clamp_settings(entries@[i].effective)),
            None => r is None,
        },
{
    let ghost s = entries@;
    let mut i: usize = 0;
    assert(s.subrange(0, s.len() as int) =~= s);
    while i < entries.len()
        invariant
            s == entries@,
            i <= s.len(),
            first_entry_for(s, user_id@) == match first_entry_for(s.subrange(i as int, s.len() as int), user_id@) {
                Some(j) => Some(j + i),
                None => None::<int>,
            },
        decreases s.len() - i,
    {
        let ghost r0 = s.subrange(i as int, s.len() as int);
        assert(r0[0] == s[i as int]);
        if str_eq(entries[i].user_id.as_str(), user_id) {
            assert(first_entry_for(r0, user_id@) == Some(0int));
            return Some(settings_from_remote(&entries[i].effective));
        }
        assert(r0.drop_first() =~= s.subrange(i + 1, s.len() as int));
        i = i + 1;
    }
    assert(s.subrange(i as int, s.len() as int) =~= Seq::<MemberSettingsEntry>::empty());
    None
}


/// The step after asking for the member-specific settings.
#[derive(Debug, Clone, PartialEq, Eq)]
pub enum SettingsStep {
    /// These are the effective settings.
    Resolved(TrackingSettings),
    /// Fall back to the organization's defaults.
    FetchOrganizationDefaults,
}

/// Member-specific settings win when the user is listed; when the list
/// does not name the user or could not be fetched, the organization's
/// defaults are asked for next.
pub fn settings_after_member_fetch(member: Result<Option<TrackingSettings>, String>) -> (r:
    SettingsStep)
    ensures
        match member {
            Ok(Some(s)) => r == SettingsStep::Resolved(s),
            _ => r is FetchOrganizationDefaults,
        },
{
    match member {
        Ok(Some(s)) => SettingsStep::Resolved(s),
        _ => SettingsStep::FetchOrganizationDefaults,
    }
}

/// Organization defaults when they could be fetched, built-in defaults
/// otherwise.
pub fn settings_after_org_fetch(org: Result<TrackingSettings, String>) -> (r: TrackingSettings)
    ensures
        match org {
            Ok(s) => r == s,
            Err(_) => r == default_settings(),
        },
{
    match org {
        Ok(s) => s,
        Err(_) => TrackingSettings::default(),
    }
}

/// The effective settings: the member's own when available, else the
/// organization's, else the built-in defaults.
pub open spec fn effective_settings(
    member: Result<Option<TrackingSettings>, String>,
    org: Result<TrackingSettings, String>,
) -> TrackingSettings {
    match member {
        Ok(Some(s)) => s,
        _ => match org {
            Ok(s) => s,
            Err(_) => default_settings(),
        },
    }
}

/// Settings resolution falls back in order member, organization, built-in:
/// the two decision steps together yield [`effective_settings`], and the
/// organization is asked only when the member lookup gave nothing.
pub proof fn settings_fall_back_in_order(
    member: Result<Option<TrackingSettings>, String>,
    org: Result<TrackingSettings, String>,
    step: SettingsStep,
    after_org: TrackingSettings,
)
    requires
        match member {
            Ok(Some(s)) => step == SettingsStep::Resolved(s),
            _ => step is FetchOrganizationDefaults,
        },
        match org {
            Ok(s) => after_org == s,
            Err(_) => after_org == default_settings(),
        },
    ensures
        match step {
            SettingsStep::Resolved(s) => s == effective_settings(member, org),
            SettingsStep::FetchOrganizationDefaults => after_org == effective_settings(member, org),
        },
{
}

/// Clamped settings always respect the safe minimums.
pub proof fn clamped_settings_respect_minimums(r: RemoteTrackingSettings)
    ensures
        clamp_settings(r).screenshot_interval_minutes >= 1,
        clamp_settings(r).idle_timeout_seconds >= 60,
        r.screenshot_interval_minutes >= 1 ==> clamp_settings(r).screenshot_interval_minutes
            == r.screenshot_interval_minutes,
        r.idle_timeout_seconds >= 60 ==> clamp_settings(r).idle_timeout_seconds
            == r.idle_timeout_seconds,
{
}

} // verus!
