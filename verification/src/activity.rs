//! Input activity bookkeeping shared by the input listener, the activity
//! counter and the timer.

use vstd::prelude::*;

verus! {

/// Minimum squared mouse displacement that counts as intentional movement
/// (a 5 pixel radius), filtering out hardware jitter.
pub const MOUSE_THRESHOLD_SQ: i32 = 25;

/// Activity state of the current interval.
pub struct ActivityState {
    /// Set on each input event; consumed by the per-second activity count.
    pub activity_flag: bool,
    /// Seconds with input in the current interval.
    pub active_seconds: u32,
    /// Seconds counted in the current interval.
    pub total_seconds: u32,
    /// Unix timestamp (seconds) of the most recent input event.
    pub last_activity_secs: u64,
    /// Set right after a sleep/wake was detected.
    pub is_waking: bool,
    /// Whether the timer is active.
    pub timer_active: bool,
}

/// Pause between two input polls while the timer runs, in milliseconds.
pub const ACTIVE_POLL_MS: u64 = 100;
/// Pause between two input polls while the timer is stopped.
pub const IDLE_POLL_MS: u64 = 1000;

/// How long the input listener waits before its next poll: it polls often
/// while the timer runs and slowly otherwise.
pub fn listener_poll_interval_ms(timer_active: bool) -> (r: u64)
    ensures
        timer_active ==> r == ACTIVE_POLL_MS,
        !timer_active ==> r == IDLE_POLL_MS,
{
    if timer_active {
        ACTIVE_POLL_MS
    } else {
        IDLE_POLL_MS
    }
}

/// What one per-second tick of the activity counter did.
#[derive(Debug, Clone, PartialEq, Eq)]
pub enum ActivityTick {
    /// The timer is stopped: nothing was counted.
    Stopped,
    /// The first tick after a wake from sleep: the wake mark was consumed and
    /// nothing was counted, so the backlog of ticks missed during sleep is
    /// dropped rather than counted.
    WokeUp,
    /// One second was counted; the payload is the `activity-tick` event.
    Counted(ActivityPayload),
}

/// Payload of the `activity-tick` event.
#[derive(Debug, Clone, PartialEq, Eq)]
pub struct ActivityPayload {
    pub active_seconds: u32,
    pub total_seconds: u32,
    pub percent: u32,
}

/// Share of active seconds in percent, rounded down; 0 for an empty interval.
pub open spec fn spec_percent(active: int, total: int) -> int {
    if total > 0 {
        (active * 100) / total
    } else {
        0
    }
}

/// Percentage of active seconds among all counted seconds of an interval.
pub fn activity_percent(active: u32, total: u32) -> (r: u32)
    requires
        active * 100 <= u32::MAX,
    ensures
        r as int == spec_percent(active as int, total as int),
{
    if total > 0 {
        (active * 100) / total
    } else {
        0
    }
}

impl ActivityState {
    /// A fresh state: no input seen, counters at zero.
    pub fn new() -> (r: ActivityState)
        ensures
            !r.activity_flag,
            r.active_seconds == 0,
            r.total_seconds == 0,
            r.last_activity_secs == 0,
            !r.is_waking,
            !r.timer_active,
    {
        ActivityState {
            activity_flag: false,
            active_seconds: 0,
            total_seconds: 0,
            last_activity_secs: 0,
            is_waking: false,
            timer_active: false,
        }
    }

    /// Whether one more second can be counted without overflowing the
    /// counters or the percentage computation.
    pub fn can_count_second(&self) -> (r: bool)
        ensures
            r == (self.total_seconds < u32::MAX && (self.active_seconds + 1) * 100 <= u32::MAX),
    {
        self.total_seconds < u32::MAX && self.active_seconds < 42_949_672
    }

    /// Counts one second of a running timer: consumes the input flag, adds
    /// the second to the total and, if input was seen, to the active seconds.
    /// Returns the payload of the `activity-tick` event.
    pub fn count_second(&mut self) -> (r: ActivityPayload)
        requires
            old(self).total_seconds < u32::MAX,
            (old(self).active_seconds + 1) * 100 <= u32::MAX,
        ensures
            !final(self).activity_flag,
            final(self).total_seconds == old(self).total_seconds + 1,
            final(self).active_seconds == old(self).active_seconds + if old(self).activity_flag {
                1int
            } else {
                0
            },
            final(self).last_activity_secs == old(self).last_activity_secs,
            final(self).is_waking == old(self).is_waking,
            final(self).timer_active == old(self).timer_active,
            r.active_seconds == final(self).active_seconds,
            r.total_seconds == final(self).total_seconds,
            r.percent as int == spec_percent(
                final(self).active_seconds as int,
                final(self).total_seconds as int,
            ),
            old(self).active_seconds <= old(self).total_seconds ==> final(self).active_seconds
                <= final(self).total_seconds,
    {
        let was_active = self.activity_flag;
        self.activity_flag = false;
        self.total_seconds = self.total_seconds + 1;
        if was_active {
            self.active_seconds = self.active_seconds + 1;
        }
        let percent = activity_percent(self.active_seconds, self.total_seconds);
        ActivityPayload {
            active_seconds: self.active_seconds,
            total_seconds: self.total_seconds,
            percent,
        }
    }

    /// The per-second step of the activity counter.  While the timer is
    /// stopped nothing changes.  While it runs, a pending wake mark is
    /// consumed instead of counting (the ticks that piled up during sleep
    /// must not inflate the total); otherwise one second is counted as
    /// [`ActivityState::count_second`] does.
    pub fn on_tick(&mut self, timer_running: bool) -> (r: ActivityTick)
        requires
            timer_running && !old(self).is_waking ==> {
                &&& old(self).total_seconds < u32::MAX
                &&& (old(self).active_seconds + 1) * 100 <= u32::MAX
            },
        ensures
            !timer_running ==> r is Stopped && *final(self) == *old(self),
            timer_running && old(self).is_waking ==> r is WokeUp && *final(self) == (ActivityState {
                is_waking: false,
                ..*old(self)
            }),
            timer_running && !old(self).is_waking ==> {
                &&& !final(self).activity_flag
                &&& final(self).total_seconds == old(self).total_seconds + 1
                &&& final(self).active_seconds == old(self).active_seconds + if old(
                    self,
                ).activity_flag {
                    1int
                } else {
                    0
                }
                &&& final(self).last_activity_secs == old(self).last_activity_secs
                &&& final(self).is_waking == old(self).is_waking
                &&& final(self).timer_active == old(self).timer_active
                &&& r == ActivityTick::Counted(
                    ActivityPayload {
                        active_seconds: final(self).active_seconds,
                        total_seconds: final(self).total_seconds,
                        percent: spec_percent(
                            final(self).active_seconds as int,
                            final(self).total_seconds as int,
                        ) as u32,
                    },
                )
            },
            old(self).active_seconds <= old(self).total_seconds ==> final(self).active_seconds
                <= final(self).total_seconds,
    {
        if !timer_running {
            return ActivityTick::Stopped;
        }
        if self.is_waking {
            self.is_waking = false;
            return ActivityTick::WokeUp;
        }
        ActivityTick::Counted(self.count_second())
    }

    /// Marks that the machine just woke from sleep; the next running tick of
    /// the activity counter consumes the mark.  The timer has no wake
    /// detection, so no step of this library calls it and the wake-up branch
    /// of [`ActivityState::on_tick`] only runs for a caller that detects a
    /// wake itself.
    pub fn mark_waking(&mut self)
        ensures
            *final(self) == (ActivityState { is_waking: true, ..*old(self) }),
    {
        self.is_waking = true;
    }

    /// Records whether the timer runs, which paces the input listener.
    pub fn set_timer_active(&mut self, active: bool)
        ensures
            *final(self) == (ActivityState { timer_active: active, ..*old(self) }),
    {
        self.timer_active = active;
    }

    /// Starts a new interval: both second counters go back to zero.
    pub fn reset_counters(&mut self)
        ensures
            *final(self) == (ActivityState {
                active_seconds: 0,
                total_seconds: 0,
                ..*old(self)
            }),
    {
        self.active_seconds = 0;
        self.total_seconds = 0;
    }

    /// Records an input observation at Unix time `now_secs`.  Input is noted
    /// only when it is real activity and the clock reads after the epoch: a
    /// zero timestamp would disable idle detection until the next input.
    pub fn observe_input(&mut self, is_activity: bool, now_secs: u64)
        ensures
            (is_activity && now_secs > 0) ==> *final(self) == (ActivityState {
                activity_flag: true,
                last_activity_secs: now_secs,
                ..*old(self)
            }),
            !(is_activity && now_secs > 0) ==> *final(self) == *old(self),
    {
        if is_activity && now_secs > 0 {
            self.activity_flag = true;
            self.last_activity_secs = now_secs;
        }
    }
}

/// Active seconds never exceed counted seconds: counting a second keeps
/// this, and so does starting a new interval.
pub proof fn active_never_exceeds_total(s: ActivityState, t: ActivityState)
    requires
        s.active_seconds <= s.total_seconds,
        t.total_seconds == s.total_seconds + 1,
        t.active_seconds == s.active_seconds + if s.activity_flag { 1int } else { 0 },
    ensures
        t.active_seconds <= t.total_seconds,
        0 <= spec_percent(t.active_seconds as int, t.total_seconds as int) <= 100,
{
    assert(0 <= spec_percent(t.active_seconds as int, t.total_seconds as int) <= 100) by (nonlinear_arith)
        requires
            t.active_seconds <= t.total_seconds,
            t.total_seconds > 0,
    {
    }
}

/// Whether the mouse moved further than the jitter threshold between two
/// polls.
pub fn mouse_moved(last_x: i32, last_y: i32, x: i32, y: i32) -> (r: bool)
    requires
        i32::MIN <= x - last_x <= i32::MAX,
        i32::MIN <= y - last_y <= i32::MAX,
        (x - last_x) * (x - last_x) + (y - last_y) * (y - last_y) <= i32::MAX,
    ensures
        r == ((x - last_x) * (x - last_x) + (y - last_y) * (y - last_y) > MOUSE_THRESHOLD_SQ),
{
    let dx = x - last_x;
    let dy = y - last_y;
    assert(0 <= dx * dx) by (nonlinear_arith);
    assert(0 <= dy * dy) by (nonlinear_arith);
    dx * dx + dy * dy > MOUSE_THRESHOLD_SQ
}

/// Whether [`mouse_moved`] can compare these positions: the displacement
/// and its squared length fit an `i32`.
pub fn mouse_delta_in_range(last_x: i32, last_y: i32, x: i32, y: i32) -> (r: bool)
    ensures
        r == (i32::MIN <= x - last_x <= i32::MAX && i32::MIN <= y - last_y <= i32::MAX && (x - last_x)
            * (x - last_x) + (y - last_y) * (y - last_y) <= i32::MAX),
{
    let dx: i128 = x as i128 - last_x as i128;
    let dy: i128 = y as i128 - last_y as i128;
    assert(dx * dx <= 0x1_0000_0000_0000_0000) by (nonlinear_arith)
        requires
            -0x1_0000_0000 <= dx <= 0x1_0000_0000,
    ;
    assert(dy * dy <= 0x1_0000_0000_0000_0000) by (nonlinear_arith)
        requires
            -0x1_0000_0000 <= dy <= 0x1_0000_0000,
    ;
    assert(0 <= dx * dx) by (nonlinear_arith);
    assert(0 <= dy * dy) by (nonlinear_arith);
    let in_range = i32::MIN as i128 <= dx && dx <= i32::MAX as i128 && i32::MIN as i128 <= dy && dy
        <= i32::MAX as i128;
    in_range && dx * dx + dy * dy <= i32::MAX as i128
}

/// Whether some key held now was not held at the previous poll.
pub fn has_new_key(keys: &Vec<u32>, last_keys: &Vec<u32>) -> (r: bool)
    ensures
        r == exists|i: int| 0 <= i < keys@.len() && !last_keys@.contains(#[trigger] keys@[i]),
{
    let mut i: usize = 0;
    while i < keys.len()
        invariant
            i <= keys@.len(),
            forall|j: int| 0 <= j < i ==> last_keys@.contains(#[trigger] keys@[j]),
        decreases keys@.len() - i,
    {
        let k = keys[i];
        let mut found = false;
        let mut j: usize = 0;
        while j < last_keys.len()
            invariant
                j <= last_keys@.len(),
                found ==> last_keys@.contains(k),
                !found ==> forall|t: int| 0 <= t < j ==> last_keys@[t] != k,
            decreases last_keys@.len() - j,
        {
            if last_keys[j] == k {
                found = true;
            }
            j = j + 1;
        }
        if !found {
            assert(!last_keys@.contains(keys@[i as int]));
            return true;
        }
        i = i + 1;
    }
    false
}

/// Whether any mouse button is held.
pub fn any_button_pressed(buttons: &Vec<bool>) -> (r: bool)
    ensures
        r == exists|i: int| 0 <= i < buttons@.len() && #[trigger] buttons@[i],
{
    let mut i: usize = 0;
    while i < buttons.len()
        invariant
            i <= buttons@.len(),
            forall|j: int| 0 <= j < i ==> !#[trigger] buttons@[j],
        decreases buttons@.len() - i,
    {
        if buttons[i] {
            return true;
        }
        i = i + 1;
    }
    false
}

/// An input poll shows activity when the mouse moved, a new key went down
/// or a mouse button is held.
pub fn is_activity(moved: bool, new_key: bool, clicked: bool) -> (r: bool)
    ensures
        r == (moved || new_key || clicked),
{
    moved || new_key || clicked
}

/// Whether this process may observe input events.  Only macOS gates input
/// observation behind a permission; everywhere else it is always granted.
pub fn is_accessibility_trusted() -> (r: bool)
    ensures
        r,
{
    true
}

} // verus!
