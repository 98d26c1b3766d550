//! Screenshot scheduling: when during a ten-minute chunk screenshots are
//! taken, and the small decisions around capturing one.

use vstd::prelude::*;
use rand::Rng;
use rand::rngs::ThreadRng;
use rand::distributions::Alphanumeric;

verus! {

/// Length of one tracking chunk in seconds.
pub const CHUNK_SECS: u64 = 600;
/// Seconds between two polls of the scheduler.
pub const POLL_SECS: u64 = 1;
/// Minimum seconds into a chunk before a stop triggers a screenshot.
pub const STOP_SHOT_MIN_SECS: u64 = 30;
/// Number of equal windows of a chunk; one screenshot is taken in each.
pub const WINDOWS: u64 = 3;
/// Captured files smaller than this many bytes are blank frames.
pub const MIN_SCREENSHOT_BYTES: u64 = 1024;

#[verifier::external_type_specification]
#[verifier::external_body]
pub struct ExThreadRng(ThreadRng);

/// `rand::thread_rng`: the lazily seeded generator of the current thread.
/// Nothing is claimed of the generator.
#[verifier::external_body]
fn thread_rng() -> ThreadRng {
    rand::thread_rng()
}

/// `Rng::gen_range` on the half-open range `lo..hi`: panics on an empty
/// range, otherwise returns a value of the range.  The contract claims only
/// the range; which value comes back is random.
#[verifier::external_body]
fn gen_range(rng: &mut ThreadRng, lo: u64, hi: u64) -> (r: u64)
    requires
        lo < hi,
    ensures
        lo <= r < hi,
{
    rng.gen_range(lo..hi)
}

/// ASCII letters and digits.
pub open spec fn is_ascii_alphanumeric(b: u8) -> bool {
    (48 <= b <= 57) || (65 <= b <= 90) || (97 <= b <= 122)
}

/// `Rng::sample(Alphanumeric)`: one byte drawn from `A-Z`, `a-z`, `0-9`.
/// The contract claims that alphabet; which byte comes back is random.
#[verifier::external_body]
fn sample_alphanumeric(rng: &mut ThreadRng) -> (r: u8)
    ensures
        is_ascii_alphanumeric(r),
{
    rng.sample(Alphanumeric)
}

/// A chunk plan: one offset (seconds into the chunk) in each of the three
/// equal windows `[0,200)`, `[200,400)`, `[400,600)`, hence ascending.
pub open spec fn plan_is_valid(p: Seq<u64>) -> bool {
    &&& p.len() == WINDOWS
    &&& forall|w: int|
        0 <= w < WINDOWS ==> w * 200 <= #[trigger] p[w] < w * 200 + 200
}

/// The seconds `[lo, hi)` of the `w`-th window of a chunk.
pub fn window_range(w: u64) -> (r: (u64, u64))
    requires
        w < WINDOWS,
    ensures
        r.0 == w * (CHUNK_SECS / WINDOWS),
        r.1 == r.0 + CHUNK_SECS / WINDOWS,
{
    let window_secs: u64 = CHUNK_SECS / WINDOWS;
    assert(window_secs == 200);
    let lo = w * window_secs;
    (lo, lo + window_secs)
}

/// Draws a fresh chunk plan: one random second inside each window, so that
/// screenshots spread over the whole chunk.
pub fn plan_chunk() -> (r: Vec<u64>)
    ensures
        plan_is_valid(r@),
{
    let mut rng = thread_rng();
    let mut offsets: Vec<u64> = Vec::new();
    let mut w: u64 = 0;
    while w < WINDOWS
        invariant
            w <= WINDOWS,
            offsets@.len() == w,
            forall|v: int| 0 <= v < w ==> v * 200 <= #[trigger] offsets@[v] < v * 200 + 200,
        decreases WINDOWS - w,
    {
        let (lo, hi) = window_range(w);
        let off = gen_range(&mut rng, lo, hi);
        offsets.push(off);
        w = w + 1;
    }
    offsets
}

/// Why a screenshot is taken.
#[derive(Debug, Clone, PartialEq, Eq)]
pub enum ShotLabel {
    /// The timer stopped before any screenshot of the chunk was taken.
    Stop,
    /// The planned offset of the chunk was reached.
    Offset(u64),
}

/// A screenshot to take and the slot it is recorded under.
#[derive(Debug, Clone, PartialEq, Eq)]
pub struct ShotRequest {
    pub slot_id: i64,
    pub label: ShotLabel,
}

/// The scheduler's state between polls.
pub struct ScreenshotScheduler {
    /// Seconds elapsed in the current chunk.
    pub chunk_elapsed: u64,
    /// Planned offsets of the current chunk (empty while stopped).
    pub scheduled: Vec<u64>,
    /// Index of the next planned offset not yet reached.
    pub next_shot: usize,
    pub was_running: bool,
    pub shot_taken_this_chunk: bool,
}

/// Mathematical view of the scheduler.
pub struct SchedulerView {
    pub chunk_elapsed: u64,
    pub scheduled: Seq<u64>,
    pub next_shot: int,
    pub was_running: bool,
    pub shot_taken_this_chunk: bool,
}

impl View for ScreenshotScheduler {
    type V = SchedulerView;

    open spec fn view(&self) -> SchedulerView {
        SchedulerView {
            chunk_elapsed: self.chunk_elapsed,
            scheduled: self.scheduled@,
            next_shot: self.next_shot as int,
            was_running: self.was_running,
            shot_taken_this_chunk: self.shot_taken_this_chunk,
        }
    }
}

impl SchedulerView {
    /// Every planned offset before `next_shot` has been reached, none from
    /// `next_shot` on has.
    pub open spec fn due_shots_taken(self) -> bool {
        &&& forall|i: int| 0 <= i < self.next_shot ==> #[trigger] self.scheduled[i] <= self.chunk_elapsed
        &&& forall|i: int|
            self.next_shot <= i < self.scheduled.len() ==> #[trigger] self.scheduled[i]
                > self.chunk_elapsed
    }

    pub open spec fn wf(self) -> bool {
        &&& self.chunk_elapsed < CHUNK_SECS
        &&& 0 <= self.next_shot <= self.scheduled.len()
        &&& (self.scheduled.len() == 0 || plan_is_valid(self.scheduled))
        &&& !self.was_running ==> {
            &&& self.chunk_elapsed == 0
            &&& self.scheduled.len() == 0
            &&& self.next_shot == 0
            &&& !self.shot_taken_this_chunk
        }
        &&& self.was_running ==> self.scheduled.len() == WINDOWS
        &&& self.due_shots_taken()
    }
}

/// Index of the first planned offset from `i` on that lies after `elapsed`.
pub open spec fn first_not_due(sched: Seq<u64>, i: int, elapsed: u64) -> int
    decreases sched.len() - i,
{
    if i < 0 || i >= sched.len() || sched[i] > elapsed {
        i
    } else {
        first_not_due(sched, i + 1, elapsed)
    }
}

/// Requests for the planned offsets `sched[from..to]` when a slot is open.
pub open spec fn offset_shots(sched: Seq<u64>, from: int, to: int, slot: Option<i64>) -> Seq<
    ShotRequest,
> {
    match slot {
        Some(id) => Seq::new(
            (to - from) as nat,
            |k: int| ShotRequest { slot_id: id, label: ShotLabel::Offset(sched[from + k]) },
        ),
        None => Seq::empty(),
    }
}

/// Whether a poll needs a freshly drawn plan: the timer just started, or the
/// running chunk reaches its end with this poll.
pub open spec fn spec_needs_plan(s: SchedulerView, running: bool) -> bool {
    running && (!s.was_running || s.chunk_elapsed + POLL_SECS >= CHUNK_SECS)
}

/// One poll of the scheduler.  `running` is the timer state, `slot` the
/// published slot and `plan` the plan adopted if a new chunk begins.
pub open spec fn spec_poll(s: SchedulerView, running: bool, slot: Option<i64>, plan: Seq<u64>) -> (
    SchedulerView,
    Seq<ShotRequest>,
) {
    if running && !s.was_running {
        let e2: u64 = POLL_SECS;
        let n3 = first_not_due(plan, 0, e2);
        (
            SchedulerView {
                chunk_elapsed: e2,
                scheduled: plan,
                next_shot: n3,
                was_running: true,
                shot_taken_this_chunk: slot is Some && n3 > 0,
            },
            offset_shots(plan, 0, n3, slot),
        )
    } else if !running && s.was_running {
        (
            SchedulerView {
                chunk_elapsed: 0,
                scheduled: Seq::empty(),
                next_shot: 0,
                was_running: false,
                shot_taken_this_chunk: false,
            },
            if s.chunk_elapsed >= STOP_SHOT_MIN_SECS && !s.shot_taken_this_chunk && slot is Some {
                seq![ShotRequest { slot_id: slot.unwrap(), label: ShotLabel::Stop }]
            } else {
                seq![]
            },
        )
    } else if !running {
        (s, seq![])
    } else {
        let e1 = s.chunk_elapsed + POLL_SECS;
        let rollover = e1 >= CHUNK_SECS;
        let e2: u64 = if rollover { 0 } else { e1 as u64 };
        let sched = if rollover { plan } else { s.scheduled };
        let n2 = if rollover { 0 } else { s.next_shot };
        let taken2 = if rollover { false } else { s.shot_taken_this_chunk };
        let n3 = first_not_due(sched, n2, e2);
        (
            SchedulerView {
                chunk_elapsed: e2,
                scheduled: sched,
                next_shot: n3,
                was_running: true,
                shot_taken_this_chunk: taken2 || (slot is Some && n3 > n2),
            },
            offset_shots(sched, n2, n3, slot),
        )
    }
}

proof fn lemma_first_not_due(sched: Seq<u64>, i: int, elapsed: u64)
    requires
        0 <= i <= sched.len(),
    ensures
        i <= first_not_due(sched, i, elapsed) <= sched.len(),
        forall|j: int| i <= j < first_not_due(sched, i, elapsed) ==> sched[j] <= elapsed,
        first_not_due(sched, i, elapsed) < sched.len() ==> sched[first_not_due(
            sched,
            i,
            elapsed,
        )] > elapsed,
    decreases sched.len() - i,
{
    if i < sched.len() && sched[i] <= elapsed {
        lemma_first_not_due(sched, i + 1, elapsed);
    }
}

/// A valid plan lists its offsets in strictly ascending order, so shots are
/// fired front to back and none is skipped over.
pub proof fn planned_offsets_ascend(p: Seq<u64>)
    requires
        plan_is_valid(p),
    ensures
        forall|i: int, j: int| 0 <= i < j < p.len() ==> p[i] < p[j],
{
    assert forall|i: int, j: int| 0 <= i < j < p.len() implies p[i] < p[j] by {
        assert(i * 200 <= p[i] < i * 200 + 200);
        assert(j * 200 <= p[j] < j * 200 + 200);
    }
}

/// After a poll that adopts `sched` and fires from `n2`, the due shots are
/// exactly those before the new `next_shot`.
proof fn lemma_fire_keeps_due(sched: Seq<u64>, n2: int, old_elapsed: u64, e2: u64)
    requires
        plan_is_valid(sched),
        0 <= n2 <= sched.len(),
        old_elapsed <= e2,
        forall|i: int| 0 <= i < n2 ==> #[trigger] sched[i] <= old_elapsed,
    ensures
        ({
            let n3 = first_not_due(sched, n2, e2);
            &&& n2 <= n3 <= sched.len()
            &&& forall|i: int| 0 <= i < n3 ==> #[trigger] sched[i] <= e2
            &&& forall|i: int| n3 <= i < sched.len() ==> #[trigger] sched[i] > e2
        }),
{
    lemma_first_not_due(sched, n2, e2);
    planned_offsets_ascend(sched);
    let n3 = first_not_due(sched, n2, e2);
    assert forall|i: int| n3 <= i < sched.len() implies #[trigger] sched[i] > e2 by {
        if i > n3 {
            assert(sched[n3] < sched[i]);
        }
    }
}

/// The scheduler's consistency survives every poll, whatever plan is drawn:
/// in particular every planned screenshot of a chunk is requested exactly at
/// the first poll that reaches its offset, and never twice.
pub proof fn poll_keeps_schedule_consistent(
    s: SchedulerView,
    running: bool,
    slot: Option<i64>,
    plan: Seq<u64>,
)
    requires
        s.wf(),
        plan_is_valid(plan),
    ensures
        spec_poll(s, running, slot, plan).0.wf(),
        spec_poll(s, running, slot, plan).1.len() <= WINDOWS,
{
    if running && !s.was_running {
        lemma_fire_keeps_due(plan, 0, 0, POLL_SECS);
    } else if !running && s.was_running {
    } else if !running {
    } else {
        let e1 = s.chunk_elapsed + POLL_SECS;
        if e1 >= CHUNK_SECS {
            lemma_fire_keeps_due(plan, 0, 0, 0);
        } else {
            lemma_fire_keeps_due(s.scheduled, s.next_shot, s.chunk_elapsed, e1 as u64);
        }
    }
}

/// A stop requests a screenshot only when the chunk ran for at least
/// thirty seconds without any screenshot and a slot is open; a stop clears
/// the plan.
pub proof fn stop_shot_only_when_chunk_uncovered(
    s: SchedulerView,
    slot: Option<i64>,
    plan: Seq<u64>,
)
    requires
        s.wf(),
        s.was_running,
    ensures
        ({
            let (s2, shots) = spec_poll(s, false, slot, plan);
            &&& shots.len() <= 1
            &&& shots.len() == 1 <==> (s.chunk_elapsed >= STOP_SHOT_MIN_SECS
                && !s.shot_taken_this_chunk && slot is Some)
            &&& s2.scheduled.len() == 0
            &&& s2.chunk_elapsed == 0
        }),
{
}

/// The taken flag belongs to the current chunk: after a poll of a running
/// timer it holds exactly when this poll requested a screenshot, or when
/// the poll stays in the chunk that was already running and a screenshot
/// had been requested in it.  A poll that begins a chunk (the timer just
/// started, or the previous chunk reached its end) forgets earlier chunks.
pub proof fn shot_taken_flag_tracks_current_chunk(
    s: SchedulerView,
    slot: Option<i64>,
    plan: Seq<u64>,
)
    requires
        s.wf(),
        plan_is_valid(plan),
    ensures
        ({
            let (s2, shots) = spec_poll(s, true, slot, plan);
            let same_chunk = s.was_running && s.chunk_elapsed + POLL_SECS < CHUNK_SECS;
            &&& s2.shot_taken_this_chunk <==> (shots.len() > 0 || (same_chunk
                && s.shot_taken_this_chunk))
            &&& !same_chunk ==> s2.scheduled == plan
            &&& shots.len() > 0 ==> slot is Some
        }),
{
    if !s.was_running {
        lemma_first_not_due(plan, 0, POLL_SECS);
    } else if s.chunk_elapsed + POLL_SECS >= CHUNK_SECS {
        lemma_first_not_due(plan, 0, 0);
    } else {
        lemma_first_not_due(s.scheduled, s.next_shot, (s.chunk_elapsed + POLL_SECS) as u64);
    }
}

/// The scheduler after consecutive polls of a running timer, with the slot
/// published at each poll, and the screenshots requested along the way.
pub open spec fn run_polls(s: SchedulerView, slots: Seq<Option<i64>>, plan: Seq<u64>) -> (
    SchedulerView,
    Seq<ShotRequest>,
)
    decreases slots.len(),
{
    if slots.len() == 0 {
        (s, Seq::empty())
    } else {
        let (s1, sh1) = run_polls(s, slots.drop_last(), plan);
        let (s2, sh2) = spec_poll(s1, true, slots.last(), plan);
        (s2, sh1 + sh2)
    }
}

/// The plan the polls of a running timer follow from `s` on: the current
/// one, or `plan` when the timer starts with the first of them.
pub open spec fn plan_in_force(s: SchedulerView, plan: Seq<u64>) -> Seq<u64> {
    if s.was_running {
        s.scheduled
    } else {
        plan
    }
}

/// The first window whose shot is still due from `s` on.
pub open spec fn first_open_window(s: SchedulerView) -> int {
    if s.was_running {
        s.next_shot
    } else {
        0
    }
}

/// Seconds of the chunk already elapsed at `s`.
pub open spec fn elapsed_in_chunk(s: SchedulerView) -> int {
    if s.was_running {
        s.chunk_elapsed as int
    } else {
        0
    }
}

/// Within one chunk of a running timer (from its start, or from any point
/// of it, up to its end) at most one screenshot is requested per window:
/// the returned `idx` names, for each request, the window whose planned
/// offset it takes, strictly increasing, so there are at most three and
/// each lies in its own window; `at` names the poll that requested it,
/// whose published slot is the request's slot, so no screenshot is
/// requested while no slot is open.
pub proof fn each_window_fires_at_most_once(
    s: SchedulerView,
    slots: Seq<Option<i64>>,
    plan: Seq<u64>,
) -> (w: (Seq<int>, Seq<int>))
    requires
        s.wf(),
        plan_is_valid(plan),
        elapsed_in_chunk(s) + slots.len() < CHUNK_SECS,
    ensures
        ({
            let (s2, shots) = run_polls(s, slots, plan);
            let sched0 = plan_in_force(s, plan);
            let n0 = first_open_window(s);
            let (idx, at) = w;
            &&& s2.wf()
            &&& slots.len() > 0 ==> s2.was_running && s2.scheduled == sched0
                && s2.chunk_elapsed == elapsed_in_chunk(s) + slots.len()
            &&& slots.len() == 0 ==> s2 == s
            &&& n0 <= s2.next_shot
            &&& idx.len() == shots.len()
            &&& at.len() == shots.len()
            &&& shots.len() <= s2.next_shot - n0
            &&& shots.len() <= WINDOWS - n0
            &&& forall|j: int| 0 <= j < shots.len() ==> n0 <= #[trigger] idx[j] < s2.next_shot
            &&& forall|j1: int, j2: int| 0 <= j1 < j2 < shots.len() ==> idx[j1] < idx[j2]
            &&& forall|j: int|
                0 <= j < shots.len() ==> #[trigger] shots[j].label == ShotLabel::Offset(sched0[idx[j]])
            &&& forall|j: int|
                0 <= j < shots.len() ==> idx[j] * 200 <= #[trigger] sched0[idx[j]] < idx[j] * 200 + 200
            &&& forall|j: int|
                0 <= j < shots.len() ==> 0 <= #[trigger] at[j] < slots.len() && slots[at[j]] == Some(
                    shots[j].slot_id,
                )
        }),
    decreases slots.len(),
{
    let sched0 = plan_in_force(s, plan);
    let n0 = first_open_window(s);
    if slots.len() == 0 {
        return (Seq::empty(), Seq::empty());
    }
    let prefix = slots.drop_last();
    let (idx1, at1) = each_window_fires_at_most_once(s, prefix, plan);
    let (s1, sh1) = run_polls(s, prefix, plan);
    let slot = slots.last();
    let (s2, sh2) = spec_poll(s1, true, slot, plan);
    assert(run_polls(s, slots, plan) == (s2, sh1 + sh2));
    assert(s1.wf());
    poll_keeps_schedule_consistent(s1, true, slot, plan);
    let n1: int = s1.next_shot;
    if !s1.was_running {
        assert(prefix.len() == 0);
        assert(s1 == s);
        assert(n1 == 0);
    } else {
        assert(s1.scheduled == sched0);
        assert(s1.chunk_elapsed + POLL_SECS < CHUNK_SECS);
    }
    assert(plan_is_valid(sched0));
    lemma_first_not_due(sched0, n1, s2.chunk_elapsed);
    let n3 = s2.next_shot;
    assert(n3 == first_not_due(sched0, n1, s2.chunk_elapsed));
    assert(sh2 == offset_shots(sched0, n1, n3, slot));
    let k2 = sh2.len();
    let idx = idx1 + Seq::new(k2, |k: int| n1 + k);
    let at = at1 + Seq::new(k2, |k: int| slots.len() - 1);
    let shots = sh1 + sh2;
    assert forall|j: int| 0 <= j < shots.len() implies n0 <= #[trigger] idx[j] < s2.next_shot by {
        if j >= sh1.len() {
            assert(idx[j] == n1 + (j - sh1.len()));
        }
    }
    assert forall|j1: int, j2: int| 0 <= j1 < j2 < shots.len() implies idx[j1] < idx[j2] by {
        if j2 >= sh1.len() {
            assert(idx[j2] == n1 + (j2 - sh1.len()));
            if j1 >= sh1.len() {
                assert(idx[j1] == n1 + (j1 - sh1.len()));
            } else {
                assert(idx[j1] == idx1[j1]);
            }
        } else {
            assert(idx[j1] == idx1[j1]);
            assert(idx[j2] == idx1[j2]);
        }
    }
    assert forall|j: int|
        0 <= j < shots.len() implies #[trigger] shots[j].label == ShotLabel::Offset(sched0[idx[j]]) by {
        if j >= sh1.len() {
            assert(shots[j] == sh2[j - sh1.len()]);
            assert(idx[j] == n1 + (j - sh1.len()));
        } else {
            assert(shots[j] == sh1[j]);
            assert(idx[j] == idx1[j]);
        }
    }
    assert forall|j: int|
        0 <= j < shots.len() implies idx[j] * 200 <= #[trigger] sched0[idx[j]] < idx[j] * 200 + 200 by {
        assert(0 <= idx[j] < WINDOWS);
    }
    assert forall|j: int|
        0 <= j < shots.len() implies 0 <= #[trigger] at[j] < slots.len() && slots[at[j]] == Some(
            shots[j].slot_id,
        ) by {
        if j >= sh1.len() {
            assert(shots[j] == sh2[j - sh1.len()]);
            assert(at[j] == slots.len() - 1);
        } else {
            assert(shots[j] == sh1[j]);
            assert(at[j] == at1[j]);
            assert(prefix[at1[j]] == slots[at1[j]]);
        }
    }
    (idx, at)
}

impl ScreenshotScheduler {
    /// A scheduler for a stopped timer.
    pub fn new() -> (r: ScreenshotScheduler)
        ensures
            r@ == (SchedulerView {
                chunk_elapsed: 0,
                scheduled: Seq::empty(),
                next_shot: 0,
                was_running: false,
                shot_taken_this_chunk: false,
            }),
            r@.wf(),
    {
        ScreenshotScheduler {
            chunk_elapsed: 0,
            scheduled: Vec::new(),
            next_shot: 0,
            was_running: false,
            shot_taken_this_chunk: false,
        }
    }

    /// Whether this poll adopts a fresh plan.
    pub fn needs_plan(&self, running: bool) -> (r: bool)
        requires
            self@.wf(),
        ensures
            r == spec_needs_plan(self@, running),
    {
        running && (!self.was_running || self.chunk_elapsed + POLL_SECS >= CHUNK_SECS)
    }

    /// One poll with the plan to adopt if a new chunk begins given; returns
    /// the screenshots to take now, in order.
    pub fn poll_with_plan(&mut self, running: bool, slot: Option<i64>, plan: Vec<u64>) -> (shots:
        Vec<ShotRequest>)
        requires
            old(self)@.wf(),
            spec_needs_plan(old(self)@, running) ==> plan_is_valid(plan@),
        ensures
            (final(self)@, shots@) == spec_poll(old(self)@, running, slot, plan@),
            final(self)@.wf(),
    {
        let ghost s = self@;
        let mut shots: Vec<ShotRequest> = Vec::new();
        let mut fresh: Option<Vec<u64>> = Some(plan);
        if running && !self.was_running {
            self.chunk_elapsed = 0;
            match fresh.take() {
                Some(p) => self.scheduled = p,
                None => {},
            }
            self.next_shot = 0;
            self.shot_taken_this_chunk = false;
        } else if !running && self.was_running {
            if self.chunk_elapsed >= STOP_SHOT_MIN_SECS && !self.shot_taken_this_chunk {
                match slot {
                    Some(id) => shots.push(ShotRequest { slot_id: id, label: ShotLabel::Stop }),
                    None => {},
                }
            }
            self.scheduled = Vec::new();
            self.next_shot = 0;
            self.chunk_elapsed = 0;
            self.shot_taken_this_chunk = false;
        }
        self.was_running = running;
        if !running {
            assert(shots@ =~= spec_poll(s, running, slot, plan@).1);
            return shots;
        }
        self.chunk_elapsed = self.chunk_elapsed + POLL_SECS;
        if self.chunk_elapsed >= CHUNK_SECS {
            self.chunk_elapsed = 0;
            match fresh.take() {
                Some(p) => self.scheduled = p,
                None => {},
            }
            self.next_shot = 0;
            self.shot_taken_this_chunk = false;
        }
        let ghost n2 = self.next_shot as int;
        let ghost taken2 = self.shot_taken_this_chunk;
        let ghost e2 = self.chunk_elapsed;
        let ghost sched2 = self.scheduled@;
        proof {
            lemma_first_not_due(self.scheduled@, n2, self.chunk_elapsed);
        }
        while self.next_shot < self.scheduled.len() && self.chunk_elapsed >= self.scheduled[self.next_shot]
            invariant
                self.chunk_elapsed == e2,
                self.scheduled@ == sched2,
                self.was_running == running,
                n2 <= self.next_shot <= self.scheduled@.len(),
                first_not_due(self.scheduled@, self.next_shot as int, self.chunk_elapsed)
                    == first_not_due(self.scheduled@, n2, self.chunk_elapsed),
                shots@ == offset_shots(self.scheduled@, n2, self.next_shot as int, slot),
                self.shot_taken_this_chunk == (taken2 || (slot is Some && self.next_shot > n2)),
            decreases self.scheduled@.len() - self.next_shot,
        {
            let offset = self.scheduled[self.next_shot];
            self.next_shot = self.next_shot + 1;
            match slot {
                Some(id) => {
                    shots.push(ShotRequest { slot_id: id, label: ShotLabel::Offset(offset) });
                    self.shot_taken_this_chunk = true;
                    assert(shots@ =~= offset_shots(self.scheduled@, n2, self.next_shot as int, slot));
                },
                None => {},
            }
        }
        proof {
            let chosen: Seq<u64> = if plan_is_valid(plan@) {
                plan@
            } else {
                seq![0u64, 200u64, 400u64]
            };
            if !spec_needs_plan(s, running) {
                assert(plan_is_valid(seq![0u64, 200u64, 400u64]));
                assert(spec_poll(s, running, slot, plan@) == spec_poll(s, running, slot, chosen));
            }
            poll_keeps_schedule_consistent(s, running, slot, chosen);
        }
        shots
    }

    /// One poll of the scheduler (once per second).  A new plan is drawn at
    /// random when a chunk begins; whatever plan is drawn, the poll behaves
    /// as [`spec_poll`] with it.
    pub fn poll(&mut self, running: bool, slot: Option<i64>) -> (shots: Vec<ShotRequest>)
        requires
            old(self)@.wf(),
        ensures
            exists|plan: Seq<u64>|
                plan_is_valid(plan) && (final(self)@, shots@) == spec_poll(
                    old(self)@,
                    running,
                    slot,
                    plan,
                ),
            final(self)@.wf(),
    {
        let plan = if self.needs_plan(running) {
            plan_chunk()
        } else {
            Vec::new()
        };
        let ghost p = plan@;
        let shots = self.poll_with_plan(running, slot, plan);
        proof {
            if !plan_is_valid(p) {
                let fixed = seq![0u64, 200u64, 400u64];
                assert(plan_is_valid(fixed));
            }
        }
        shots
    }
}

/// Index of the monitor with the largest area (width times height); among
/// monitors of equal area the last one wins.  `None` when there is none.
pub fn pick_monitor(dims: &Vec<(u32, u32)>) -> (r: Option<usize>)
    requires
        forall|i: int| 0 <= i < dims@.len() ==> #[trigger] dims@[i].0 * dims@[i].1 <= u32::MAX,
    ensures
        (r is None) == (dims@.len() == 0),
        r matches Some(k) ==> {
            &&& k < dims@.len()
            &&& forall|j: int|
                0 <= j < dims@.len() ==> #[trigger] (dims@[j].0 * dims@[j].1) <= dims@[k as int].0
                    * dims@[k as int].1
            &&& forall|j: int|
                k < j < dims@.len() ==> #[trigger] (dims@[j].0 * dims@[j].1) < dims@[k as int].0
                    * dims@[k as int].1
        },
{
    if dims.len() == 0 {
        return None;
    }
    let mut best: usize = 0;
    let mut best_area: u32 = dims[0].0 * dims[0].1;
    let mut i: usize = 1;
    while i < dims.len()
        invariant
            1 <= i <= dims@.len(),
            best < i,
            best_area == dims@[best as int].0 * dims@[best as int].1,
            forall|j: int| 0 <= j < dims@.len() ==> #[trigger] dims@[j].0 * dims@[j].1 <= u32::MAX,
            forall|j: int| 0 <= j < i ==> #[trigger] (dims@[j].0 * dims@[j].1) <= best_area,
            forall|j: int| best < j < i ==> #[trigger] (dims@[j].0 * dims@[j].1) < best_area,
        decreases dims@.len() - i,
    {
        let area = dims[i].0 * dims[i].1;
        if area >= best_area {
            best = i;
            best_area = area;
        }
        i = i + 1;
    }
    Some(best)
}

/// A captured file of `size` bytes holds a real frame: smaller files are
/// the blank images some systems return silently when capture is denied.
pub fn is_real_frame(size: u64) -> (r: bool)
    ensures
        r == (size >= MIN_SCREENSHOT_BYTES),
{
    size >= MIN_SCREENSHOT_BYTES
}

/// Lowercase ASCII letters and digits.
pub open spec fn is_lower_alphanumeric(b: u8) -> bool {
    (48 <= b <= 57) || (97 <= b <= 122)
}

/// ASCII lowercase of one byte.
pub fn ascii_lowercase(b: u8) -> (r: u8)
    ensures
        r == if 65 <= b <= 90 { (b + 32) as u8 } else { b },
{
    if 65 <= b && b <= 90 {
        b + 32
    } else {
        b
    }
}

/// The random file-name suffix of a screenshot: four random letters or
/// digits in lower case, so that two captures in the same second never
/// overwrite each other.
pub fn screenshot_suffix() -> (r: Vec<u8>)
    ensures
        r@.len() == 4,
        forall|i: int| 0 <= i < 4 ==> is_lower_alphanumeric(#[trigger] r@[i]),
{
    let mut rng = thread_rng();
    let mut out: Vec<u8> = Vec::new();
    while out.len() < 4
        invariant
            out@.len() <= 4,
            forall|i: int| 0 <= i < out@.len() ==> is_lower_alphanumeric(#[trigger] out@[i]),
        decreases 4 - out@.len(),
    {
        let b = sample_alphanumeric(&mut rng);
        out.push(ascii_lowercase(b));
    }
    out
}

/// Whether this process may record the screen.  Only macOS gates screen
/// capture behind a permission; everywhere else it is always granted.
pub fn is_screen_recording_trusted() -> (r: bool)
    ensures
        r,
{
    true
}

} // verus!
