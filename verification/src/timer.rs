//! The work timer: a state machine from commands and one-second ticks to the
//! database writes, window changes and events that the application performs.
//!
//! A working session is split into chunks of at most ten minutes.  Each chunk
//! is backed by a "stub" time slot that is inserted when the chunk starts,
//! updated in place every minute and finalized when the chunk ends (stop,
//! idle, day change or chunk length reached).

use vstd::prelude::*;
use crate::calendar::{spec_whole_secs, whole_secs_between};

verus! {

/// Seconds without input after which the session is considered idle.
pub const IDLE_TIMEOUT_SECS: i64 = 300;
/// Length of one tracking chunk, in ticks (seconds).
pub const CHUNK_SECS: i64 = 600;
/// The stub slot is refreshed every this many ticks.
pub const PROGRESS_SAVE_EVERY_SECS: i64 = 60;

/// A request sent to the timer by the user interface.
#[derive(Debug, Clone, PartialEq, Eq)]
pub enum TimerCommand {
    Start { project_id: String },
    Stop,
    Reset,
}

/// Payload of the `timer-tick` event.
#[derive(Debug, Clone, PartialEq, Eq)]
pub struct TimerPayload {
    pub total_secs: u64,
    pub is_running: bool,
}

/// Payload of the `timer-idle` event.
#[derive(Debug, Clone, PartialEq, Eq)]
pub struct IdlePayload {
    pub idle_secs: u64,
}

/// One effect the application performs for the timer, in list order.
#[derive(Debug, Clone, PartialEq, Eq)]
pub enum TimerAction {
    /// Close the idle dialog window if it is open.
    CloseIdleWindow,
    /// Re-enable input in the main window.
    EnableMainWindow,
    /// Publish whether the timer runs to the other actors.
    SetRunningFlag { running: bool },
    /// Set the activity state's `timer_active` flag, which paces the input
    /// listener (see [`crate::activity::listener_poll_interval_ms`]).
    SetTimerActive { active: bool },
    /// Zero the active/total second counters of the activity state.
    ResetActivityCounters,
    /// Insert a new slot `[at_ns, at_ns]` for `project_id`; its id is handed
    /// back through [`TimerMachine::stub_created`].
    CreateStub { project_id: String, at_ns: i64 },
    /// Rewrite the end, duration and activity of an existing slot.
    UpdateSlot { slot_id: i64, started_ns: i64, ended_ns: i64 },
    /// Insert a complete slot (used when no stub slot exists).
    InsertChunk { project_id: String, started_ns: i64, ended_ns: i64 },
    /// Delete a not yet synced stub slot.
    DeleteStub { slot_id: i64 },
    /// Publish the slot that screenshots and application usage attach to.
    PublishSlot { slot: Option<i64> },
    /// Reload today's recorded seconds; the value is handed back through
    /// [`TimerMachine::today_secs_loaded`].
    ReloadTodaySecs,
    /// Emit `timer-tick` with [`TimerMachine::tick_payload`].
    EmitTick { is_running: bool, session_secs: u64 },
    /// Emit `day-rollover`.
    EmitDayRollover,
    /// Emit `timer-idle`.
    EmitIdle { idle_secs: u64 },
    /// Open the idle dialog and disable the main window.
    OpenIdleWindow { idle_secs: u64 },
    /// Restart the one-second tick interval.
    ResetTickInterval,
}

/// The timer's state between events.  Times are Unix nanoseconds.
pub struct TimerMachine {
    pub running: bool,
    pub chunk_started_at: Option<i64>,
    pub current_project_id: Option<String>,
    pub last_activity_at: Option<i64>,
    /// Last input timestamp (Unix seconds) already taken into account.
    pub last_seen_activity_ts: u64,
    /// Ticks elapsed in the current chunk.
    pub chunk_elapsed_secs: i64,
    pub stub_slot_id: Option<i64>,
    /// Value of `chunk_elapsed_secs` at the last progress save.
    pub last_progress_save: i64,
    pub idle_window_opened: bool,
    pub today_secs_cache: i64,
    /// Day key of the local day the current chunk belongs to.
    pub current_day: (i32, u32),
}

impl TimerMachine {
    /// Internal consistency of the timer state.
    pub open spec fn wf(&self) -> bool {
        &&& self.running ==> {
            &&& self.chunk_started_at is Some
            &&& self.current_project_id is Some
            &&& self.last_activity_at is Some
            &&& !self.idle_window_opened
        }
        &&& !self.running ==> {
            &&& self.chunk_started_at is None
            &&& self.current_project_id is None
            &&& self.last_activity_at is None
            &&& self.stub_slot_id is None
            &&& self.last_seen_activity_ts == 0
            &&& self.chunk_elapsed_secs == 0
            &&& self.last_progress_save == 0
        }
        &&& 0 <= self.last_progress_save <= self.chunk_elapsed_secs < CHUNK_SECS
        &&& self.chunk_elapsed_secs - self.last_progress_save < PROGRESS_SAVE_EVERY_SECS
        &&& self.last_progress_save % PROGRESS_SAVE_EVERY_SECS == 0
    }
}

/// The state with every field of the running session cleared.
pub open spec fn cleared_session(m: TimerMachine) -> TimerMachine {
    TimerMachine {
        running: false,
        chunk_started_at: None,
        current_project_id: None,
        last_activity_at: None,
        last_seen_activity_ts: 0,
        chunk_elapsed_secs: 0,
        stub_slot_id: None,
        last_progress_save: 0,
        ..m
    }
}

/// Writes that close the span `[started_ns, ended_ns]`: nothing when the span
/// holds no whole second, an update of the stub slot when there is one, and
/// a fresh insert otherwise.
pub open spec fn finalize_actions(
    project_id: String,
    stub: Option<i64>,
    started_ns: i64,
    ended_ns: i64,
) -> Seq<TimerAction> {
    if spec_whole_secs(started_ns as int, ended_ns as int) <= 0 {
        seq![]
    } else {
        match stub {
            Some(sid) => seq![TimerAction::UpdateSlot { slot_id: sid, started_ns, ended_ns }],
            None => seq![TimerAction::InsertChunk { project_id, started_ns, ended_ns }],
        }
    }
}

/// Seconds of the running chunk shown on top of today's total.
pub open spec fn session_secs(started_ns: i64, now_ns: i64) -> u64 {
    if spec_whole_secs(started_ns as int, now_ns as int) > 0 {
        spec_whole_secs(started_ns as int, now_ns as int) as u64
    } else {
        0
    }
}

pub open spec fn spec_new(today_secs: i64, current_day: (i32, u32)) -> TimerMachine {
    TimerMachine {
        running: false,
        chunk_started_at: None,
        current_project_id: None,
        last_activity_at: None,
        last_seen_activity_ts: 0,
        chunk_elapsed_secs: 0,
        stub_slot_id: None,
        last_progress_save: 0,
        idle_window_opened: false,
        today_secs_cache: today_secs,
        current_day,
    }
}

pub open spec fn spec_start(
    m: TimerMachine,
    project_id: String,
    now_ns: i64,
    now_day: (i32, u32),
    activity_ts: u64,
) -> (TimerMachine, Seq<TimerAction>) {
    if m.running {
        (m, seq![])
    } else {
        (
            TimerMachine {
                running: true,
                chunk_started_at: Some(now_ns),
                current_project_id: Some(project_id),
                last_activity_at: Some(now_ns),
                last_seen_activity_ts: activity_ts,
                chunk_elapsed_secs: 0,
                last_progress_save: 0,
                idle_window_opened: false,
                current_day: now_day,
                ..m
            },
            seq![
                TimerAction::CloseIdleWindow,
                TimerAction::EnableMainWindow,
                TimerAction::ReloadTodaySecs,
                TimerAction::SetRunningFlag { running: true },
                TimerAction::SetTimerActive { active: true },
                TimerAction::ResetActivityCounters,
                TimerAction::CreateStub { project_id, at_ns: now_ns },
                TimerAction::ResetTickInterval,
                TimerAction::EmitTick { is_running: true, session_secs: 0 },
            ],
        )
    }
}

pub open spec fn spec_stop(m: TimerMachine, now_ns: i64, now_day: (i32, u32)) -> (
    TimerMachine,
    Seq<TimerAction>,
) {
    if !m.running {
        (m, seq![])
    } else {
        (
            TimerMachine { current_day: now_day, ..cleared_session(m) },
            seq![
                TimerAction::SetRunningFlag { running: false },
                TimerAction::SetTimerActive { active: false },
                TimerAction::CloseIdleWindow,
                TimerAction::EnableMainWindow,
            ] + finalize_actions(
                m.current_project_id.unwrap(),
                m.stub_slot_id,
                m.chunk_started_at.unwrap(),
                now_ns,
            ) + seq![
                TimerAction::PublishSlot { slot: None },
                TimerAction::ResetActivityCounters,
                TimerAction::ReloadTodaySecs,
                TimerAction::EmitTick { is_running: false, session_secs: 0 },
            ],
        )
    }
}

pub open spec fn spec_reset(m: TimerMachine, now_day: (i32, u32)) -> (
    TimerMachine,
    Seq<TimerAction>,
) {
    (
        TimerMachine { current_day: now_day, ..cleared_session(m) },
        seq![
            TimerAction::SetRunningFlag { running: false },
            TimerAction::SetTimerActive { active: false },
            TimerAction::PublishSlot { slot: None },
        ] + match m.stub_slot_id {
            Some(sid) => seq![TimerAction::DeleteStub { slot_id: sid }],
            None => seq![],
        } + seq![
            TimerAction::ResetActivityCounters,
            TimerAction::ReloadTodaySecs,
            TimerAction::EmitTick { is_running: false, session_secs: 0 },
        ],
    )
}

/// Whether a tick with input timestamp `activity_ts` counts as fresh input.
pub open spec fn fresh_input(m: TimerMachine, activity_ts: u64) -> bool {
    activity_ts > m.last_seen_activity_ts
}

/// The last input instant after a tick at `now_ns`.
pub open spec fn last_active_after(m: TimerMachine, now_ns: i64, activity_ts: u64) -> i64 {
    if fresh_input(m, activity_ts) {
        now_ns
    } else {
        m.last_activity_at.unwrap()
    }
}

/// Seconds without input at a tick at `now_ns`.
pub open spec fn idle_secs_at(m: TimerMachine, now_ns: i64, activity_ts: u64) -> int {
    spec_whole_secs(last_active_after(m, now_ns, activity_ts) as int, now_ns as int)
}

pub open spec fn spec_tick(
    m: TimerMachine,
    now_ns: i64,
    now_day: (i32, u32),
    midnight_ns: i64,
    activity_ts: u64,
) -> (TimerMachine, Seq<TimerAction>) {
    let project = m.current_project_id.unwrap();
    let started = m.chunk_started_at.unwrap();
    if !m.running {
        (m, seq![])
    } else if now_day != m.current_day {
        (
            TimerMachine {
                current_day: now_day,
                chunk_started_at: Some(midnight_ns),
                stub_slot_id: None,
                today_secs_cache: 0,
                chunk_elapsed_secs: 0,
                last_progress_save: 0,
                ..m
            },
            finalize_actions(project, m.stub_slot_id, started, midnight_ns) + seq![
                TimerAction::CreateStub { project_id: project, at_ns: midnight_ns },
                TimerAction::ResetActivityCounters,
                TimerAction::EmitDayRollover,
                TimerAction::EmitTick { is_running: true, session_secs: 0 },
            ],
        )
    } else {
        let la = last_active_after(m, now_ns, activity_ts);
        let ls = if fresh_input(m, activity_ts) {
            activity_ts
        } else {
            m.last_seen_activity_ts
        };
        let idle = idle_secs_at(m, now_ns, activity_ts);
        if idle >= IDLE_TIMEOUT_SECS && !m.idle_window_opened {
            (
                TimerMachine { idle_window_opened: true, ..cleared_session(m) },
                seq![
                    TimerAction::SetRunningFlag { running: false },
                    TimerAction::SetTimerActive { active: false },
                ] + finalize_actions(
                    project,
                    m.stub_slot_id,
                    started,
                    la,
                ) + seq![
                    TimerAction::ResetActivityCounters,
                    TimerAction::PublishSlot { slot: None },
                    TimerAction::ReloadTodaySecs,
                    TimerAction::EmitIdle { idle_secs: idle as u64 },
                    TimerAction::EmitTick { is_running: false, session_secs: 0 },
                    TimerAction::OpenIdleWindow { idle_secs: idle as u64 },
                ],
            )
        } else {
            let e = m.chunk_elapsed_secs + 1;
            let save = e - m.last_progress_save >= PROGRESS_SAVE_EVERY_SECS;
            let progress: i64 = if save { e as i64 } else { m.last_progress_save };
            let progress_actions = if save {
                match m.stub_slot_id {
                    Some(sid) => seq![
                        TimerAction::UpdateSlot { slot_id: sid, started_ns: started, ended_ns: now_ns },
                    ],
                    None => seq![],
                }
            } else {
                seq![]
            };
            if e >= CHUNK_SECS {
                (
                    TimerMachine {
                        last_activity_at: Some(la),
                        last_seen_activity_ts: ls,
                        chunk_elapsed_secs: 0,
                        last_progress_save: 0,
                        chunk_started_at: Some(now_ns),
                        stub_slot_id: None,
                        ..m
                    },
                    progress_actions + finalize_actions(project, m.stub_slot_id, started, now_ns)
                        + seq![
                        TimerAction::CreateStub { project_id: project, at_ns: now_ns },
                        TimerAction::ResetActivityCounters,
                        TimerAction::ReloadTodaySecs,
                        TimerAction::EmitTick { is_running: true, session_secs: 0 },
                    ],
                )
            } else {
                (
                    TimerMachine {
                        last_activity_at: Some(la),
                        last_seen_activity_ts: ls,
                        chunk_elapsed_secs: e as i64,
                        last_progress_save: progress,
                        ..m
                    },
                    progress_actions + seq![
                        TimerAction::EmitTick {
                            is_running: true,
                            session_secs: session_secs(started, now_ns),
                        },
                    ],
                )
            }
        }
    }
}

pub open spec fn spec_stub_created(m: TimerMachine, slot_id: Option<i64>) -> (
    TimerMachine,
    Seq<TimerAction>,
) {
    if m.running && slot_id is Some {
        (
            TimerMachine { stub_slot_id: slot_id, ..m },
            seq![TimerAction::PublishSlot { slot: slot_id }],
        )
    } else {
        (m, seq![])
    }
}


/// A `Stop` while the timer is stopped, a `Start` while it runs and a tick
/// while it is stopped change nothing and cause no effect.
pub proof fn idle_commands_are_no_ops(
    m: TimerMachine,
    project_id: String,
    now_ns: i64,
    now_day: (i32, u32),
    midnight_ns: i64,
    activity_ts: u64,
)
    requires
        m.wf(),
    ensures
        !m.running ==> spec_stop(m, now_ns, now_day) == (m, Seq::<TimerAction>::empty()),
        !m.running ==> spec_tick(m, now_ns, now_day, midnight_ns, activity_ts) == (
            m,
            Seq::<TimerAction>::empty(),
        ),
        m.running ==> spec_start(m, project_id, now_ns, now_day, activity_ts) == (
            m,
            Seq::<TimerAction>::empty(),
        ),
{
}

/// `Reset` withdraws the published slot before it deletes the stub slot, so
/// no other actor can attach data to a slot that is being deleted; and it
/// never finalizes the discarded session.
pub proof fn reset_unpublishes_before_delete(m: TimerMachine, now_day: (i32, u32))
    requires
        m.wf(),
    ensures
        ({
            let acts = spec_reset(m, now_day).1;
            &&& acts[2] == TimerAction::PublishSlot { slot: None }
            &&& forall|i: int|
                0 <= i < acts.len() && (acts[i] is DeleteStub) ==> 2 < i
            &&& forall|i: int|
                0 <= i < acts.len() ==> !(acts[i] is UpdateSlot) && !(acts[i] is InsertChunk)
            &&& (m.stub_slot_id matches Some(sid) ==> acts[3] == TimerAction::DeleteStub {
                slot_id: sid,
            })
            &&& !spec_reset(m, now_day).0.running
        }),
{
}

/// No step inserts a second slot for a chunk that already has a stub slot:
/// with a stub present, closing the chunk updates the stub in place.
pub proof fn stub_is_never_duplicated(
    m: TimerMachine,
    now_ns: i64,
    now_day: (i32, u32),
    midnight_ns: i64,
    activity_ts: u64,
)
    requires
        m.wf(),
        m.stub_slot_id is Some,
    ensures
        forall|i: int|
            0 <= i < spec_stop(m, now_ns, now_day).1.len() ==> !(spec_stop(
                m,
                now_ns,
                now_day,
            ).1[i] is InsertChunk),
        forall|i: int|
            0 <= i < spec_tick(m, now_ns, now_day, midnight_ns, activity_ts).1.len() ==> !(spec_tick(
                m,
                now_ns,
                now_day,
                midnight_ns,
                activity_ts,
            ).1[i] is InsertChunk),
        forall|i: int|
            0 <= i < spec_reset(m, now_day).1.len() ==> !(spec_reset(m, now_day).1[i] is InsertChunk),
{
}

/// Chunks of a session are contiguous: whenever a tick closes the current
/// chunk and the session goes on (chunk length reached or local day changed),
/// the closed span ends exactly where the new chunk starts, and the session
/// keeps its project.
pub proof fn chunks_are_contiguous(
    m: TimerMachine,
    now_ns: i64,
    now_day: (i32, u32),
    midnight_ns: i64,
    activity_ts: u64,
)
    requires
        m.wf(),
        m.running,
        spec_tick(m, now_ns, now_day, midnight_ns, activity_ts).0.running,
        spec_tick(m, now_ns, now_day, midnight_ns, activity_ts).0.chunk_started_at
            != m.chunk_started_at,
    ensures
        ({
            let (m2, acts) = spec_tick(m, now_ns, now_day, midnight_ns, activity_ts);
            let fin = finalize_actions(
                m.current_project_id.unwrap(),
                m.stub_slot_id,
                m.chunk_started_at.unwrap(),
                m2.chunk_started_at.unwrap(),
            );
            &&& m2.current_project_id == m.current_project_id
            &&& exists|k: int| 0 <= k <= acts.len() - fin.len() && #[trigger] acts.subrange(k, k + fin.len()) == fin
        }),
{
    let (m2, acts) = spec_tick(m, now_ns, now_day, midnight_ns, activity_ts);
    let fin = finalize_actions(
        m.current_project_id.unwrap(),
        m.stub_slot_id,
        m.chunk_started_at.unwrap(),
        m2.chunk_started_at.unwrap(),
    );
    if now_day != m.current_day {
        assert(acts.subrange(0int, 0int + fin.len()) =~= fin);
        assert(0 <= 0 <= acts.len() - fin.len());
    } else {
        let e = m.chunk_elapsed_secs + 1;
        let save = e - m.last_progress_save >= PROGRESS_SAVE_EVERY_SECS;
        let progress_actions = if save {
            match m.stub_slot_id {
                Some(sid) => seq![
                    TimerAction::UpdateSlot {
                        slot_id: sid,
                        started_ns: m.chunk_started_at.unwrap(),
                        ended_ns: now_ns,
                    },
                ],
                None => seq![],
            }
        } else {
            seq![]
        };
        let k = progress_actions.len() as int;
        assert(!(idle_secs_at(m, now_ns, activity_ts) >= IDLE_TIMEOUT_SECS && !m.idle_window_opened));
        assert(e >= CHUNK_SECS);
        assert(m2.chunk_started_at == Some(now_ns));
        let rest = seq![
            TimerAction::CreateStub { project_id: m.current_project_id.unwrap(), at_ns: now_ns },
            TimerAction::ResetActivityCounters,
            TimerAction::ReloadTodaySecs,
            TimerAction::EmitTick { is_running: true, session_secs: 0 },
        ];
        assert(acts == progress_actions + fin + rest);
        assert(acts.subrange(k, k + fin.len()) =~= fin);
        assert(0 <= k <= acts.len() - fin.len());
    }
}

/// A day change splits the running chunk at local midnight: the part before
/// midnight is closed at midnight, the new chunk starts at midnight, today's
/// total starts again from zero and the new day becomes current.
pub proof fn day_change_splits_at_midnight(
    m: TimerMachine,
    now_ns: i64,
    now_day: (i32, u32),
    midnight_ns: i64,
    activity_ts: u64,
)
    requires
        m.wf(),
        m.running,
        now_day != m.current_day,
    ensures
        ({
            let (m2, acts) = spec_tick(m, now_ns, now_day, midnight_ns, activity_ts);
            let fin = finalize_actions(
                m.current_project_id.unwrap(),
                m.stub_slot_id,
                m.chunk_started_at.unwrap(),
                midnight_ns,
            );
            &&& m2.running
            &&& m2.chunk_started_at == Some(midnight_ns)
            &&& m2.today_secs_cache == 0
            &&& m2.current_day == now_day
            &&& acts.subrange(0, fin.len() as int) == fin
            &&& acts[fin.len() as int] == TimerAction::CreateStub {
                project_id: m.current_project_id.unwrap(),
                at_ns: midnight_ns,
            }
        }),
{
    let (m2, acts) = spec_tick(m, now_ns, now_day, midnight_ns, activity_ts);
    let fin = finalize_actions(
        m.current_project_id.unwrap(),
        m.stub_slot_id,
        m.chunk_started_at.unwrap(),
        midnight_ns,
    );
    assert(acts.subrange(0, fin.len() as int) =~= fin);
}

/// Idle detection stops the session once the time since the last input
/// reaches the idle timeout, and the idle time itself is not recorded: the
/// chunk is closed at the last input, not at the moment idleness is noticed.
/// The session is stopped, so later ticks do nothing until a new `Start`.
pub proof fn idle_time_is_not_recorded(
    m: TimerMachine,
    now_ns: i64,
    now_day: (i32, u32),
    midnight_ns: i64,
    activity_ts: u64,
)
    requires
        m.wf(),
        m.running,
        now_day == m.current_day,
        idle_secs_at(m, now_ns, activity_ts) >= IDLE_TIMEOUT_SECS,
    ensures
        ({
            let (m2, acts) = spec_tick(m, now_ns, now_day, midnight_ns, activity_ts);
            let fin = finalize_actions(
                m.current_project_id.unwrap(),
                m.stub_slot_id,
                m.chunk_started_at.unwrap(),
                last_active_after(m, now_ns, activity_ts),
            );
            &&& !m2.running
            &&& m2.idle_window_opened
            &&& acts.subrange(2, 2 + fin.len() as int) == fin
            &&& acts.last() == TimerAction::OpenIdleWindow {
                idle_secs: idle_secs_at(m, now_ns, activity_ts) as u64,
            }
            &&& spec_tick(m2, now_ns, now_day, midnight_ns, activity_ts) == (
                m2,
                Seq::<TimerAction>::empty(),
            )
        }),
{
    let (m2, acts) = spec_tick(m, now_ns, now_day, midnight_ns, activity_ts);
    let fin = finalize_actions(
        m.current_project_id.unwrap(),
        m.stub_slot_id,
        m.chunk_started_at.unwrap(),
        last_active_after(m, now_ns, activity_ts),
    );
    assert(acts.subrange(2, 2 + fin.len() as int) =~= fin);
}

/// The stub slot of a running chunk is refreshed once a minute: a tick that
/// neither stops the session nor ends the chunk refreshes the stub exactly
/// when the chunk reaches a whole number of minutes.
pub proof fn stub_refreshed_every_minute(
    m: TimerMachine,
    now_ns: i64,
    now_day: (i32, u32),
    midnight_ns: i64,
    activity_ts: u64,
)
    requires
        m.wf(),
        m.running,
        now_day == m.current_day,
        idle_secs_at(m, now_ns, activity_ts) < IDLE_TIMEOUT_SECS,
        m.chunk_elapsed_secs + 1 < CHUNK_SECS,
        m.stub_slot_id is Some,
    ensures
        ({
            let (m2, acts) = spec_tick(m, now_ns, now_day, midnight_ns, activity_ts);
            &&& m2.chunk_elapsed_secs == m.chunk_elapsed_secs + 1
            &&& (m2.chunk_elapsed_secs % PROGRESS_SAVE_EVERY_SECS == 0) <==> acts.len() == 2
            &&& acts.len() == 2 ==> acts[0] == TimerAction::UpdateSlot {
                slot_id: m.stub_slot_id.unwrap(),
                started_ns: m.chunk_started_at.unwrap(),
                ended_ns: now_ns,
            }
        }),
{
}

/// Stopping a session closes its chunk at the moment of the stop, and a
/// chunk with a stub slot is closed by updating that stub.
pub proof fn stop_closes_chunk_at_stop_time(m: TimerMachine, now_ns: i64, now_day: (i32, u32))
    requires
        m.wf(),
        m.running,
    ensures
        ({
            let (m2, acts) = spec_stop(m, now_ns, now_day);
            let fin = finalize_actions(
                m.current_project_id.unwrap(),
                m.stub_slot_id,
                m.chunk_started_at.unwrap(),
                now_ns,
            );
            &&& !m2.running
            &&& m2.stub_slot_id is None
            &&& acts.subrange(4, 4 + fin.len() as int) == fin
            &&& (spec_whole_secs(m.chunk_started_at.unwrap() as int, now_ns as int) > 0
                && m.stub_slot_id is Some) ==> fin == seq![
                TimerAction::UpdateSlot {
                    slot_id: m.stub_slot_id.unwrap(),
                    started_ns: m.chunk_started_at.unwrap(),
                    ended_ns: now_ns,
                },
            ]
        }),
{
    let (m2, acts) = spec_stop(m, now_ns, now_day);
    let fin = finalize_actions(
        m.current_project_id.unwrap(),
        m.stub_slot_id,
        m.chunk_started_at.unwrap(),
        now_ns,
    );
    assert(acts.subrange(4, 4 + fin.len() as int) =~= fin);
}

/// Input from before a session does not count as activity in it: right
/// after `Start`, a tick that sees the same input timestamp as the start
/// did finds no fresh input, so idleness is measured from the start.
pub proof fn pre_session_input_is_ignored(
    m: TimerMachine,
    project_id: String,
    start_ns: i64,
    now_ns: i64,
    now_day: (i32, u32),
    activity_ts: u64,
)
    requires
        m.wf(),
        !m.running,
    ensures
        ({
            let m1 = spec_start(m, project_id, start_ns, now_day, activity_ts).0;
            &&& !fresh_input(m1, activity_ts)
            &&& last_active_after(m1, now_ns, activity_ts) == start_ns
            &&& idle_secs_at(m1, now_ns, activity_ts) == spec_whole_secs(
                start_ns as int,
                now_ns as int,
            )
        }),
{
}

/// A chunk lasts ten minutes of ticks: a tick that neither stops the
/// session nor changes the day advances the chunk by one second while it
/// is shorter than `CHUNK_SECS`, and at `CHUNK_SECS` closes it at the tick's
/// instant and opens the next chunk there, on a fresh stub slot.
pub proof fn chunk_length_is_ten_minutes_of_ticks(
    m: TimerMachine,
    now_ns: i64,
    now_day: (i32, u32),
    midnight_ns: i64,
    activity_ts: u64,
)
    requires
        m.wf(),
        m.running,
        now_day == m.current_day,
        idle_secs_at(m, now_ns, activity_ts) < IDLE_TIMEOUT_SECS,
    ensures
        ({
            let (m2, acts) = spec_tick(m, now_ns, now_day, midnight_ns, activity_ts);
            &&& m2.running
            &&& m2.current_project_id == m.current_project_id
            &&& m.chunk_elapsed_secs + 1 < CHUNK_SECS ==> {
                &&& m2.chunk_elapsed_secs == m.chunk_elapsed_secs + 1
                &&& m2.chunk_started_at == m.chunk_started_at
                &&& m2.stub_slot_id == m.stub_slot_id
            }
            &&& m.chunk_elapsed_secs + 1 == CHUNK_SECS ==> {
                &&& m2.chunk_elapsed_secs == 0
                &&& m2.chunk_started_at == Some(now_ns)
                &&& m2.stub_slot_id is None
                &&& acts.contains(
                    TimerAction::CreateStub {
                        project_id: m.current_project_id.unwrap(),
                        at_ns: now_ns,
                    },
                )
            }
        }),
{
    let (m2, acts) = spec_tick(m, now_ns, now_day, midnight_ns, activity_ts);
    if m.chunk_elapsed_secs + 1 == CHUNK_SECS {
        let e = m.chunk_elapsed_secs + 1;
        let save = e - m.last_progress_save >= PROGRESS_SAVE_EVERY_SECS;
        let started = m.chunk_started_at.unwrap();
        let project = m.current_project_id.unwrap();
        let progress_actions = if save {
            match m.stub_slot_id {
                Some(sid) => seq![
                    TimerAction::UpdateSlot { slot_id: sid, started_ns: started, ended_ns: now_ns },
                ],
                None => seq![],
            }
        } else {
            seq![]
        };
        let fin = finalize_actions(project, m.stub_slot_id, started, now_ns);
        let k = progress_actions.len() + fin.len();
        assert(acts[k as int] == TimerAction::CreateStub { project_id: project, at_ns: now_ns });
    }
}

/// The activity state's `timer_active` flag follows the session: `Start`
/// sets it, and `Stop`, `Reset` and an idle stop clear it, each in the step
/// that changes whether the timer runs; a tick that keeps the session
/// running does not touch it.
pub proof fn timer_active_follows_the_session(
    m: TimerMachine,
    project_id: String,
    now_ns: i64,
    now_day: (i32, u32),
    midnight_ns: i64,
    activity_ts: u64,
)
    requires
        m.wf(),
    ensures
        !m.running ==> {
            let (m2, acts) = spec_start(m, project_id, now_ns, now_day, activity_ts);
            &&& m2.running
            &&& acts.contains(TimerAction::SetTimerActive { active: true })
        },
        m.running ==> {
            let (m2, acts) = spec_stop(m, now_ns, now_day);
            &&& !m2.running
            &&& acts.contains(TimerAction::SetTimerActive { active: false })
        },
        spec_reset(m, now_day).1.contains(TimerAction::SetTimerActive { active: false }),
        !spec_reset(m, now_day).0.running,
        ({
            let (m2, acts) = spec_tick(m, now_ns, now_day, midnight_ns, activity_ts);
            &&& (m.running && !m2.running) ==> acts.contains(
                TimerAction::SetTimerActive { active: false },
            )
            &&& m2.running == m.running ==> forall|i: int|
                0 <= i < acts.len() ==> !(#[trigger] acts[i] is SetTimerActive)
        }),
{
    if !m.running {
        let acts = spec_start(m, project_id, now_ns, now_day, activity_ts).1;
        assert(acts[4] == TimerAction::SetTimerActive { active: true });
    } else {
        let acts = spec_stop(m, now_ns, now_day).1;
        assert(acts[1] == TimerAction::SetTimerActive { active: false });
    }
    assert(spec_reset(m, now_day).1[1] == TimerAction::SetTimerActive { active: false });
    let (m2, acts) = spec_tick(m, now_ns, now_day, midnight_ns, activity_ts);
    if m.running && !m2.running {
        assert(acts[1] == TimerAction::SetTimerActive { active: false });
    }
}

/// Idle time is measured from the last real input.  On every tick of a
/// running session on its own day, the last-input instant becomes the
/// tick's instant when the tick sees an input timestamp newer than any seen
/// before, and stays as it was otherwise: closing a chunk is no input.  The
/// session stops exactly when 300 seconds or more have passed since that
/// instant, and then reports that many idle seconds.
pub proof fn idle_is_measured_from_last_input(
    m: TimerMachine,
    now_ns: i64,
    now_day: (i32, u32),
    midnight_ns: i64,
    activity_ts: u64,
)
    requires
        m.wf(),
        m.running,
        now_day == m.current_day,
    ensures
        ({
            let (m2, acts) = spec_tick(m, now_ns, now_day, midnight_ns, activity_ts);
            let last: i64 = if activity_ts > m.last_seen_activity_ts {
                now_ns
            } else {
                m.last_activity_at.unwrap()
            };
            let idle = spec_whole_secs(last as int, now_ns as int);
            &&& !m2.running <==> idle >= IDLE_TIMEOUT_SECS
            &&& m2.running ==> m2.last_activity_at == Some(last)
            &&& m2.running ==> m2.last_seen_activity_ts == if activity_ts
                > m.last_seen_activity_ts {
                activity_ts
            } else {
                m.last_seen_activity_ts
            }
            &&& !m2.running ==> acts.contains(TimerAction::EmitIdle { idle_secs: idle as u64 })
        }),
{
    let (m2, acts) = spec_tick(m, now_ns, now_day, midnight_ns, activity_ts);
    if !m2.running {
        let fin = finalize_actions(
            m.current_project_id.unwrap(),
            m.stub_slot_id,
            m.chunk_started_at.unwrap(),
            last_active_after(m, now_ns, activity_ts),
        );
        assert(acts[2 + fin.len() as int + 3] == TimerAction::EmitIdle {
            idle_secs: idle_secs_at(m, now_ns, activity_ts) as u64,
        });
    }
}

/// `Start` of a stopped timer adopts the day and instant of the start: the
/// session runs for `project_id`, its chunk and its last input are the start
/// instant and its current day is the start's day, whatever day the timer
/// was left on.
pub proof fn start_adopts_day_and_instant(
    m: TimerMachine,
    project_id: String,
    now_ns: i64,
    now_day: (i32, u32),
    activity_ts: u64,
)
    requires
        m.wf(),
        !m.running,
    ensures
        ({
            let m2 = spec_start(m, project_id, now_ns, now_day, activity_ts).0;
            &&& m2.running
            &&& m2.current_day == now_day
            &&& m2.chunk_started_at == Some(now_ns)
            &&& m2.last_activity_at == Some(now_ns)
            &&& m2.last_seen_activity_ts == activity_ts
            &&& m2.current_project_id == Some(project_id)
            &&& m2.chunk_elapsed_secs == 0
        }),
{
}

/// A tick on the session's own day never splits the chunk at midnight: it
/// announces no day change, keeps the day, and keeps the chunk's start
/// unless the chunk reached its full length.
pub proof fn same_day_tick_never_splits(
    m: TimerMachine,
    now_ns: i64,
    now_day: (i32, u32),
    midnight_ns: i64,
    activity_ts: u64,
)
    requires
        m.wf(),
        m.running,
        now_day == m.current_day,
    ensures
        ({
            let (m2, acts) = spec_tick(m, now_ns, now_day, midnight_ns, activity_ts);
            &&& forall|i: int| 0 <= i < acts.len() ==> !(#[trigger] acts[i] is EmitDayRollover)
            &&& m2.current_day == m.current_day
            &&& (m2.running && m.chunk_elapsed_secs + 1 < CHUNK_SECS) ==> m2.chunk_started_at
                == m.chunk_started_at
        }),
{
}

fn push_finalize(
    actions: &mut Vec<TimerAction>,
    project_id: &String,
    stub: Option<i64>,
    started_ns: i64,
    ended_ns: i64,
)
    ensures
        final(actions)@ == old(actions)@ + finalize_actions(*project_id, stub, started_ns, ended_ns),
{
    let secs = whole_secs_between(started_ns, ended_ns);
    if secs <= 0 {
        assert(old(actions)@ + seq![] =~= old(actions)@);
        return ;
    }
    match stub {
        Some(sid) => actions.push(TimerAction::UpdateSlot { slot_id: sid, started_ns, ended_ns }),
        None => actions.push(
            TimerAction::InsertChunk { project_id: project_id.clone(), started_ns, ended_ns },
        ),
    }
}

/// Whole minutes of an idle period, as shown by the idle dialog.
pub fn idle_minutes(idle_secs: u64) -> (r: u64)
    ensures
        r == idle_secs / 60,
{
    idle_secs / 60
}

impl TimerMachine {
    /// A stopped timer; `today_secs` and `current_day` are today's recorded
    /// seconds and day key at start-up.
    pub fn new(today_secs: i64, current_day: (i32, u32)) -> (r: TimerMachine)
        ensures
            r == spec_new(today_secs, current_day),
            r.wf(),
    {
        TimerMachine {
            running: false,
            chunk_started_at: None,
            current_project_id: None,
            last_activity_at: None,
            last_seen_activity_ts: 0,
            chunk_elapsed_secs: 0,
            stub_slot_id: None,
            last_progress_save: 0,
            idle_window_opened: false,
            today_secs_cache: today_secs,
            current_day,
        }
    }

    fn clear_session(&mut self)
        ensures
            *final(self) == cleared_session(*old(self)),
    {
        self.running = false;
        self.chunk_started_at = None;
        self.current_project_id = None;
        self.last_activity_at = None;
        self.last_seen_activity_ts = 0;
        self.chunk_elapsed_secs = 0;
        self.stub_slot_id = None;
        self.last_progress_save = 0;
    }

    /// `Start` command: begins a session for `project_id` unless one runs.
    /// `activity_ts` is the latest input timestamp, so that input from before
    /// the session does not count as activity in it.
    pub fn start(
        &mut self,
        project_id: String,
        now_ns: i64,
        now_day: (i32, u32),
        activity_ts: u64,
    ) -> (actions: Vec<TimerAction>)
        requires
            old(self).wf(),
        ensures
            (*final(self), actions@) == spec_start(*old(self), project_id, now_ns, now_day, activity_ts),
            final(self).wf(),
    {
        let mut actions: Vec<TimerAction> = Vec::new();
        if self.running {
            return actions;
        }
        actions.push(TimerAction::CloseIdleWindow);
        actions.push(TimerAction::EnableMainWindow);
        actions.push(TimerAction::ReloadTodaySecs);
        actions.push(TimerAction::SetRunningFlag { running: true });
        actions.push(TimerAction::SetTimerActive { active: true });
        actions.push(TimerAction::ResetActivityCounters);
        actions.push(TimerAction::CreateStub { project_id: project_id.clone(), at_ns: now_ns });
        actions.push(TimerAction::ResetTickInterval);
        actions.push(TimerAction::EmitTick { is_running: true, session_secs: 0 });
        self.current_day = now_day;
        self.running = true;
        self.idle_window_opened = false;
        self.chunk_started_at = Some(now_ns);
        self.last_activity_at = Some(now_ns);
        self.last_seen_activity_ts = activity_ts;
        self.chunk_elapsed_secs = 0;
        self.last_progress_save = 0;
        self.current_project_id = Some(project_id);
        actions
    }

    /// `Stop` command: closes the running session up to `now_ns`.
    pub fn stop(&mut self, now_ns: i64, now_day: (i32, u32)) -> (actions: Vec<TimerAction>)
        requires
            old(self).wf(),
        ensures
            (*final(self), actions@) == spec_stop(*old(self), now_ns, now_day),
            final(self).wf(),
    {
        let mut actions: Vec<TimerAction> = Vec::new();
        if !self.running {
            return actions;
        }
        actions.push(TimerAction::SetRunningFlag { running: false });
        actions.push(TimerAction::SetTimerActive { active: false });
        actions.push(TimerAction::CloseIdleWindow);
        actions.push(TimerAction::EnableMainWindow);
        let ghost a0 = actions@;
        match (&self.chunk_started_at, &self.current_project_id) {
            (Some(started), Some(project)) => {
                push_finalize(&mut actions, project, self.stub_slot_id, *started, now_ns);
            },
            _ => {},
        }
        let ghost a1 = actions@;
        actions.push(TimerAction::PublishSlot { slot: None });
        actions.push(TimerAction::ResetActivityCounters);
        actions.push(TimerAction::ReloadTodaySecs);
        actions.push(TimerAction::EmitTick { is_running: false, session_secs: 0 });
        let ghost m = *old(self);
        self.clear_session();
        self.current_day = now_day;
        assert(actions@ =~= spec_stop(m, now_ns, now_day).1);
        actions
    }

    /// `Reset` command: discards the running session and its stub slot.
    pub fn reset(&mut self, now_day: (i32, u32)) -> (actions: Vec<TimerAction>)
        requires
            old(self).wf(),
        ensures
            (*final(self), actions@) == spec_reset(*old(self), now_day),
            final(self).wf(),
    {
        let mut actions: Vec<TimerAction> = Vec::new();
        actions.push(TimerAction::SetRunningFlag { running: false });
        actions.push(TimerAction::SetTimerActive { active: false });
        actions.push(TimerAction::PublishSlot { slot: None });
        match self.stub_slot_id {
            Some(sid) => actions.push(TimerAction::DeleteStub { slot_id: sid }),
            None => {},
        }
        actions.push(TimerAction::ResetActivityCounters);
        actions.push(TimerAction::ReloadTodaySecs);
        actions.push(TimerAction::EmitTick { is_running: false, session_secs: 0 });
        let ghost m = *old(self);
        self.clear_session();
        self.current_day = now_day;
        assert(actions@ =~= spec_reset(m, now_day).1);
        actions
    }

    /// The one-second tick.  `now_day` is the day key of `now_ns`,
    /// `midnight_ns` the instant that local day began, `activity_ts` the
    /// latest input timestamp.
    pub fn tick(
        &mut self,
        now_ns: i64,
        now_day: (i32, u32),
        midnight_ns: i64,
        activity_ts: u64,
    ) -> (actions: Vec<TimerAction>)
        requires
            old(self).wf(),
        ensures
            (*final(self), actions@) == spec_tick(*old(self), now_ns, now_day, midnight_ns, activity_ts),
            final(self).wf(),
    {
        let ghost m = *old(self);
        let mut actions: Vec<TimerAction> = Vec::new();
        if !self.running {
            return actions;
        }
        let started: i64 = match self.chunk_started_at {
            Some(s) => s,
            None => { return actions; },
        };
        let project: String = match &self.current_project_id {
            Some(p) => p.clone(),
            None => { return actions; },
        };
        let last_active: i64 = match self.last_activity_at {
            Some(l) => l,
            None => { return actions; },
        };
        if now_day.0 != self.current_day.0 || now_day.1 != self.current_day.1 {
            push_finalize(&mut actions, &project, self.stub_slot_id, started, midnight_ns);
            actions.push(TimerAction::CreateStub { project_id: project, at_ns: midnight_ns });
            actions.push(TimerAction::ResetActivityCounters);
            actions.push(TimerAction::EmitDayRollover);
            actions.push(TimerAction::EmitTick { is_running: true, session_secs: 0 });
            self.current_day = now_day;
            self.chunk_started_at = Some(midnight_ns);
            self.stub_slot_id = None;
            self.today_secs_cache = 0;
            self.chunk_elapsed_secs = 0;
            self.last_progress_save = 0;
            assert(actions@ =~= spec_tick(m, now_ns, now_day, midnight_ns, activity_ts).1);
            return actions;
        }
        let mut la = last_active;
        if activity_ts > self.last_seen_activity_ts {
            self.last_seen_activity_ts = activity_ts;
            la = now_ns;
        }
        self.last_activity_at = Some(la);
        let idle_secs = whole_secs_between(la, now_ns);
        if idle_secs >= IDLE_TIMEOUT_SECS && !self.idle_window_opened {
            actions.push(TimerAction::SetRunningFlag { running: false });
            actions.push(TimerAction::SetTimerActive { active: false });
            push_finalize(&mut actions, &project, self.stub_slot_id, started, la);
            actions.push(TimerAction::ResetActivityCounters);
            actions.push(TimerAction::PublishSlot { slot: None });
            actions.push(TimerAction::ReloadTodaySecs);
            actions.push(TimerAction::EmitIdle { idle_secs: idle_secs as u64 });
            actions.push(TimerAction::EmitTick { is_running: false, session_secs: 0 });
            actions.push(TimerAction::OpenIdleWindow { idle_secs: idle_secs as u64 });
            self.clear_session();
            self.idle_window_opened = true;
            assert(actions@ =~= spec_tick(m, now_ns, now_day, midnight_ns, activity_ts).1);
            return actions;
        }
        self.chunk_elapsed_secs = self.chunk_elapsed_secs + 1;
        if self.chunk_elapsed_secs - self.last_progress_save >= PROGRESS_SAVE_EVERY_SECS {
            self.last_progress_save = self.chunk_elapsed_secs;
            match self.stub_slot_id {
                Some(sid) => actions.push(
                    TimerAction::UpdateSlot { slot_id: sid, started_ns: started, ended_ns: now_ns },
                ),
                None => {},
            }
        }
        if self.chunk_elapsed_secs >= CHUNK_SECS {
            push_finalize(&mut actions, &project, self.stub_slot_id, started, now_ns);
            actions.push(TimerAction::CreateStub { project_id: project, at_ns: now_ns });
            actions.push(TimerAction::ResetActivityCounters);
            actions.push(TimerAction::ReloadTodaySecs);
            actions.push(TimerAction::EmitTick { is_running: true, session_secs: 0 });
            self.stub_slot_id = None;
            self.chunk_started_at = Some(now_ns);
            self.chunk_elapsed_secs = 0;
            self.last_progress_save = 0;
            assert(actions@ =~= spec_tick(m, now_ns, now_day, midnight_ns, activity_ts).1);
            return actions;
        }
        let secs = whole_secs_between(started, now_ns);
        let session: u64 = if secs > 0 { secs as u64 } else { 0 };
        actions.push(TimerAction::EmitTick { is_running: true, session_secs: session });
        assert(actions@ =~= spec_tick(m, now_ns, now_day, midnight_ns, activity_ts).1);
        actions
    }

    /// Hands back the id of the slot inserted for a `CreateStub` action
    /// (`None` when the insert failed).  A running session adopts it as its
    /// stub and publishes it.
    pub fn stub_created(&mut self, slot_id: Option<i64>) -> (actions: Vec<TimerAction>)
        requires
            old(self).wf(),
        ensures
            (*final(self), actions@) == spec_stub_created(*old(self), slot_id),
            final(self).wf(),
    {
        let mut actions: Vec<TimerAction> = Vec::new();
        if self.running {
            match slot_id {
                Some(sid) => {
                    self.stub_slot_id = Some(sid);
                    actions.push(TimerAction::PublishSlot { slot: Some(sid) });
                },
                None => {},
            }
        }
        actions
    }

    /// Hands back today's recorded seconds after a `ReloadTodaySecs` action.
    pub fn today_secs_loaded(&mut self, today_secs: i64)
        requires
            old(self).wf(),
        ensures
            *final(self) == (TimerMachine { today_secs_cache: today_secs, ..*old(self) }),
            final(self).wf(),
    {
        self.today_secs_cache = today_secs;
    }

    /// Whether `tick_payload` can add `session_secs` to today's total.
    pub fn total_fits(&self, session_secs: u64) -> (r: bool)
        ensures
            r == ((self.today_secs_cache as u64) as int + session_secs as int <= u64::MAX as int),
    {
        session_secs <= u64::MAX - (self.today_secs_cache as u64)
    }

    /// The `timer-tick` payload for an `EmitTick` action: today's recorded
    /// seconds plus the seconds of the running chunk.
    pub fn tick_payload(&self, is_running: bool, session_secs: u64) -> (r: TimerPayload)
        requires
            (self.today_secs_cache as u64) as int + session_secs as int <= u64::MAX as int,
        ensures
            r.is_running == is_running,
            r.total_secs as int == (self.today_secs_cache as u64) as int + session_secs as int,
    {
        TimerPayload { total_secs: self.today_secs_cache as u64 + session_secs, is_running }
    }
}

} // verus!
