//! Decisions behind the user-interface commands and the tray.

use vstd::prelude::*;
use crate::timer::TimerCommand;

verus! {

/// Payload of `close-requested-with-unsynced`.
#[derive(Debug, Clone, PartialEq, Eq)]
pub struct CloseRequestedPayload {
    pub unsynced_count: i64,
    pub timer_running: bool,
}

/// Payload of `update-progress`.
#[derive(Debug, Clone, PartialEq, Eq)]
pub struct UpdateProgressPayload {
    pub downloaded: u64,
    pub total: u64,
}

/// What closing the main window does.
#[derive(Debug, Clone, PartialEq, Eq)]
pub enum CloseDecision {
    /// Unsent data or a running timer: ask the user first.
    AskUser(CloseRequestedPayload),
    /// Nothing pending: exit the application.
    Exit,
}

/// Closing the main window asks the user when slots are not yet synced or
/// the timer runs, and exits the application when everything is clean.
pub fn decide_close(unsynced_count: i64, timer_running: bool) -> (r: CloseDecision)
    ensures
        (unsynced_count > 0 || timer_running) ==> r == CloseDecision::AskUser(
            CloseRequestedPayload { unsynced_count, timer_running },
        ),
        !(unsynced_count > 0 || timer_running) ==> r is Exit,
{
    if unsynced_count > 0 || timer_running {
        CloseDecision::AskUser(CloseRequestedPayload { unsynced_count, timer_running })
    } else {
        CloseDecision::Exit
    }
}

/// The tray tooltip: the product name, followed by the elapsed time while
/// the timer runs.
pub fn tray_tooltip(is_running: bool, time_str: &str) -> (r: String)
    ensures
        is_running ==> r@ == "Hubnity — "@ + time_str@,
        !is_running ==> r@ == "Hubnity"@,
{
    if is_running {
        let mut t = String::from_str("Hubnity — ");
        t.append(time_str);
        t
    } else {
        String::from_str("Hubnity")
    }
}

/// Label of the tray's timer menu item.
pub fn tray_label(is_running: bool) -> (r: &'static str)
    ensures
        is_running ==> r@ == "Stop Timer"@,
        !is_running ==> r@ == "Start Timer"@,
{
    if is_running {
        "Stop Timer"
    } else {
        "Start Timer"
    }
}

/// Whether the tray must be rewritten when it last showed `last`.
pub open spec fn tray_needs_write(last: Option<(bool, String)>, is_running: bool, tooltip: Seq<char>) -> bool {
    !(last matches Some(p) && p.0 == is_running && p.1@ == tooltip)
}

/// The tray is rewritten whenever what it would show differs from what it
/// last showed: a new tooltip (such as the next running time) is written
/// even when the running state is unchanged, and so is a new running state;
/// only the very same pair is skipped.
pub proof fn tray_rewritten_on_any_change(
    last: Option<(bool, String)>,
    is_running: bool,
    tooltip: Seq<char>,
)
    ensures
        last is None ==> tray_needs_write(last, is_running, tooltip),
        (last matches Some(p) && p.1@ != tooltip) ==> tray_needs_write(last, is_running, tooltip),
        (last matches Some(p) && p.0 != is_running) ==> tray_needs_write(last, is_running, tooltip),
        (last matches Some(p) && p.0 == is_running && p.1@ == tooltip) ==> !tray_needs_write(
            last,
            is_running,
            tooltip,
        ),
{
}

/// The tray state last written, to skip redundant updates.
pub struct TrayCache {
    pub last: Option<(bool, String)>,
}

impl TrayCache {
    pub fn new() -> (r: TrayCache)
        ensures
            r.last is None,
    {
        TrayCache { last: None }
    }

    /// Whether the tray must be rewritten for this state; remembers it, so
    /// that asking again with the same state answers no.
    pub fn should_update(&mut self, is_running: bool, tooltip: &String) -> (r: bool)
        ensures
            r == tray_needs_write(old(self).last, is_running, tooltip@),
            !tray_needs_write(final(self).last, is_running, tooltip@),
            old(self).last is None ==> r,
            (old(self).last matches Some(p) && (p.0 != is_running || p.1@ != tooltip@)) ==> r,
            r ==> (final(self).last matches Some(p) && p.0 == is_running && p.1@ == tooltip@),
            !r ==> final(self).last == old(self).last,
    {
        let same = match &self.last {
            Some(p) => p.0 == is_running && p.1 == *tooltip,
            None => false,
        };
        if same {
            return false;
        }
        self.last = Some((is_running, tooltip.clone()));
        true
    }
}

/// Running count of downloaded update bytes.
pub struct DownloadProgress {
    pub downloaded_total: u64,
}

impl DownloadProgress {
    pub fn new() -> (r: DownloadProgress)
        ensures
            r.downloaded_total == 0,
    {
        DownloadProgress { downloaded_total: 0 }
    }

    /// Whether `chunk_size` more bytes can be counted.
    pub fn can_add(&self, chunk_size: usize) -> (r: bool)
        ensures
            r == (self.downloaded_total + chunk_size <= u64::MAX),
    {
        chunk_size as u64 <= u64::MAX - self.downloaded_total
    }

    /// Counts a downloaded chunk; the payload shows the bytes so far and
    /// the announced size (0 when unknown).
    pub fn on_chunk(&mut self, chunk_size: usize, total: Option<u64>) -> (r: UpdateProgressPayload)
        requires
            old(self).downloaded_total + chunk_size <= u64::MAX,
        ensures
            final(self).downloaded_total == old(self).downloaded_total + chunk_size,
            r.downloaded == final(self).downloaded_total,
            r.total == match total {
                Some(t) => t,
                None => 0,
            },
    {
        self.downloaded_total = self.downloaded_total + chunk_size as u64;
        UpdateProgressPayload {
            downloaded: self.downloaded_total,
            total: match total {
                Some(t) => t,
                None => 0,
            },
        }
    }
}

/// Today's seconds shown by the interface from the database sum (no rows
/// sum to nothing, which shows as 0).
pub fn today_secs_from_sum(sum: Option<i64>) -> (r: u64)
    ensures
        r == match sum {
            Some(s) => s as u64,
            None => 0,
        },
{
    match sum {
        Some(s) => s as u64,
        None => 0,
    }
}

/// The tray's timer item: stops a running timer, and otherwise restarts
/// the timer on the most recently tracked project, if there is one.
pub fn tray_toggle_command(is_running: bool, last_project: Option<String>) -> (r: Option<
    TimerCommand,
>)
    ensures
        is_running ==> r == Some(TimerCommand::Stop),
        !is_running ==> r == match last_project {
            Some(p) => Some(TimerCommand::Start { project_id: p }),
            None => None,
        },
{
    if is_running {
        Some(TimerCommand::Stop)
    } else {
        resume_command(last_project)
    }
}

/// Resuming after idle restarts the timer on the most recently tracked
/// project, if there is one.
pub fn resume_command(last_project: Option<String>) -> (r: Option<TimerCommand>)
    ensures
        r == match last_project {
            Some(p) => Some(TimerCommand::Start { project_id: p }),
            None => None,
        },
{
    match last_project {
        Some(p) => Some(TimerCommand::Start { project_id: p }),
        None => None,
    }
}

} // verus!
