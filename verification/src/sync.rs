//! Uploading recorded time to the server: the request data, the decisions of
//! one sync cycle, how server results are matched to local slots, retry
//! back-off and screenshot upload bookkeeping.

use vstd::prelude::*;
use crate::text::{seq_contains, str_contains};

verus! {

/// Most slots sent in one cycle.
pub const SYNC_BATCH_LIMIT: i64 = 50;
/// Most application-usage rows sent per slot.
pub const MAX_APP_USAGE_PER_SLOT: usize = 100;
/// After this many failed attempts a slot or screenshot is given up.
pub const MAX_SYNC_ATTEMPTS: i64 = 5;
/// Seconds between two cycles when the last one went well.
pub const SYNC_INTERVAL_SECS: u64 = 30;
/// Longest pause between two cycles after failures.
pub const MAX_BACKOFF_SECS: u64 = 300;

/// Application usage within a slot, as sent to the server.
#[derive(Debug, Clone, PartialEq, Eq)]
pub struct SyncAppUsage {
    pub app_name: String,
    pub window_title: String,
    pub url: Option<String>,
    pub duration_seconds: i64,
    pub started_at: String,
}

/// One time slot as sent to the server.
#[derive(Debug, Clone, PartialEq, Eq)]
pub struct SyncTimeEntry {
    pub project_id: String,
    pub started_at: String,
    pub ended_at: String,
    pub duration_seconds: i64,
    pub activity_percent: i64,
    pub app_usage: Vec<SyncAppUsage>,
}

/// Body of `POST /time-entries/sync`.
#[derive(Debug, Clone, PartialEq, Eq)]
pub struct SyncTimeEntriesRequest {
    pub entries: Vec<SyncTimeEntry>,
}

/// The server's verdict on one sent slot.  `started_at` is empty when the
/// server does not echo the slot's start.
#[derive(Debug, Clone, PartialEq, Eq)]
pub struct SyncEntryResult {
    pub id: String,
    pub synced: bool,
    pub started_at: String,
}

/// Answer to `POST /time-entries/sync`.
#[derive(Debug, Clone, PartialEq, Eq)]
pub struct SyncTimeEntriesResponse {
    pub synced: i64,
    pub failed: i64,
    pub entries: Vec<SyncEntryResult>,
}

/// A finished local slot waiting to be sent.
#[derive(Debug, Clone, PartialEq, Eq)]
pub struct PendingSlot {
    pub id: i64,
    pub project_id: String,
    pub started_at: String,
    pub ended_at: String,
    pub duration_secs: i64,
    pub activity_percent: i64,
}

/// What is remembered of a sent slot to apply the server's answer.
#[derive(Debug, Clone, PartialEq, Eq)]
pub struct SlotMeta {
    pub slot_id: i64,
    pub started_at: String,
    pub has_usage: bool,
}

/// The first `min(n, MAX_APP_USAGE_PER_SLOT)` usage rows.
pub open spec fn capped_usage(u: Seq<SyncAppUsage>) -> Seq<SyncAppUsage> {
    if u.len() <= MAX_APP_USAGE_PER_SLOT {
        u
    } else {
        u.take(MAX_APP_USAGE_PER_SLOT as int)
    }
}

/// The request entry for a pending slot with its usage rows, and what to
/// remember of it.  At most `MAX_APP_USAGE_PER_SLOT` usage rows are sent;
/// `has_usage` records whether the slot had any.
pub fn build_entry(slot: PendingSlot, usages: Vec<SyncAppUsage>) -> (r: (SyncTimeEntry, SlotMeta))
    ensures
        r.0.project_id == slot.project_id,
        r.0.started_at == slot.started_at,
        r.0.ended_at == slot.ended_at,
        r.0.duration_seconds == slot.duration_secs,
        r.0.activity_percent == slot.activity_percent,
        r.0.app_usage@ == capped_usage(usages@),
        r.1.slot_id == slot.id,
        r.1.started_at == slot.started_at,
        r.1.has_usage == (usages@.len() > 0),
{
    let has_usage = usages.len() > 0;
    let mut capped = usages;
    capped.truncate(MAX_APP_USAGE_PER_SLOT);
    let meta = SlotMeta { slot_id: slot.id, started_at: slot.started_at.clone(), has_usage };
    let entry = SyncTimeEntry {
        project_id: slot.project_id,
        started_at: slot.started_at,
        ended_at: slot.ended_at,
        duration_seconds: slot.duration_secs,
        activity_percent: slot.activity_percent,
        app_usage: capped,
    };
    (entry, meta)
}

/// What to do with one sent slot after the server answered.
#[derive(Debug, Clone, PartialEq, Eq)]
pub enum SlotOutcome {
    /// No result names the slot: count a failed attempt.
    NoResult { slot_id: i64 },
    /// The server refused the slot: count a failed attempt.
    Rejected { slot_id: i64 },
    /// No result at the slot's position (older server answers): leave it.
    Missing { slot_id: i64 },
    /// The slot is stored remotely as `remote_id`: mark it synced, mark its
    /// usage rows synced when it had any, and upload its screenshots.
    Synced { slot_id: i64, remote_id: String, has_usage: bool },
}

/// Every result echoes the start of its slot.
pub open spec fn all_have_started_at(results: Seq<SyncEntryResult>) -> bool {
    forall|i: int| 0 <= i < results.len() ==> #[trigger] results[i].started_at@.len() > 0
}

/// Index of the last result whose echoed start is `key`.
pub open spec fn last_match(results: Seq<SyncEntryResult>, key: Seq<char>) -> Option<int>
    decreases results.len(),
{
    if results.len() == 0 {
        None
    } else if results.last().started_at@ == key {
        Some(results.len() - 1)
    } else {
        last_match(results.drop_last(), key)
    }
}

/// The outcome for slot `m` given the result that belongs to it.
pub open spec fn decide(m: SlotMeta, r: SyncEntryResult) -> SlotOutcome {
    if !r.synced {
        SlotOutcome::Rejected { slot_id: m.slot_id }
    } else {
        SlotOutcome::Synced { slot_id: m.slot_id, remote_id: r.id, has_usage: m.has_usage }
    }
}

/// The outcome for the `i`-th sent slot `m`.  Results are matched by the
/// echoed start when every result carries one (the last of equal starts
/// wins), and by position otherwise.
pub open spec fn outcome_for(m: SlotMeta, i: int, results: Seq<SyncEntryResult>) -> SlotOutcome {
    if all_have_started_at(results) {
        match last_match(results, m.started_at@) {
            Some(j) => decide(m, results[j]),
            None => SlotOutcome::NoResult { slot_id: m.slot_id },
        }
    } else if i >= results.len() {
        SlotOutcome::Missing { slot_id: m.slot_id }
    } else {
        decide(m, results[i])
    }
}

proof fn lemma_last_match(results: Seq<SyncEntryResult>, key: Seq<char>)
    ensures
        last_match(results, key) matches Some(j) ==> 0 <= j < results.len()
            && results[j].started_at@ == key,
    decreases results.len(),
{
    if results.len() > 0 && results.last().started_at@ != key {
        lemma_last_match(results.drop_last(), key);
    }
}

fn all_results_have_started_at(results: &Vec<SyncEntryResult>) -> (r: bool)
    ensures
        r == all_have_started_at(results@),
{
    let mut i: usize = 0;
    while i < results.len()
        invariant
            i <= results@.len(),
            forall|j: int| 0 <= j < i ==> #[trigger] results@[j].started_at@.len() > 0,
        decreases results@.len() - i,
    {
        if results[i].started_at.as_str().unicode_len() == 0 {
            return false;
        }
        i = i + 1;
    }
    true
}

fn find_last_match(results: &Vec<SyncEntryResult>, key: &String) -> (r: Option<usize>)
    ensures
        match r {
            Some(j) => last_match(results@, key@) == Some(j as int),
            None => last_match(results@, key@) is None,
        },
{
    let ghost s = results@;
    let mut i: usize = results.len();
    assert(s.subrange(0, i as int) =~= s);
    while i > 0
        invariant
            i <= s.len(),
            results@ == s,
            last_match(s, key@) == last_match(s.subrange(0, i as int), key@),
        decreases i,
    {
        let ghost sub = s.subrange(0, i as int);
        assert(sub.drop_last() =~= s.subrange(0, i - 1));
        if results[i - 1].started_at == *key {
            return Some(i - 1);
        }
        i = i - 1;
    }
    assert(s.subrange(0, 0) =~= Seq::<SyncEntryResult>::empty());
    None
}

fn decide_exec(m: &SlotMeta, r: &SyncEntryResult) -> (o: SlotOutcome)
    ensures
        o == decide(*m, *r),
{
    if !r.synced {
        SlotOutcome::Rejected { slot_id: m.slot_id }
    } else {
        SlotOutcome::Synced { slot_id: m.slot_id, remote_id: r.id.clone(), has_usage: m.has_usage }
    }
}

/// Matches the server's results to the sent slots, one outcome per slot in
/// the order the slots were sent.
pub fn match_results(meta: &Vec<SlotMeta>, results: &Vec<SyncEntryResult>) -> (r: Vec<SlotOutcome>)
    ensures
        r@.len() == meta@.len(),
        forall|i: int| 0 <= i < meta@.len() ==> #[trigger] r@[i] == outcome_for(meta@[i], i, results@),
{
    let by_start = all_results_have_started_at(results);
    let mut out: Vec<SlotOutcome> = Vec::new();
    let mut i: usize = 0;
    while i < meta.len()
        invariant
            i <= meta@.len(),
            out@.len() == i,
            by_start == all_have_started_at(results@),
            forall|k: int| 0 <= k < i ==> #[trigger] out@[k] == outcome_for(meta@[k], k, results@),
        decreases meta@.len() - i,
    {
        let m = &meta[i];
        let o = if by_start {
            match find_last_match(results, &m.started_at) {
                Some(j) => {
                    proof {
                        lemma_last_match(results@, m.started_at@);
                    }
                    decide_exec(m, &results[j])
                },
                None => SlotOutcome::NoResult { slot_id: m.slot_id },
            }
        } else if i >= results.len() {
            SlotOutcome::Missing { slot_id: m.slot_id }
        } else {
            decide_exec(m, &results[i])
        };
        out.push(o);
        i = i + 1;
    }
    out
}

/// A slot is only ever marked synced under the remote id of a result the
/// server accepted for it: when results echo slot starts, that result
/// echoes this slot's start, so a reordered answer cannot attach a remote
/// id to the wrong slot.
pub proof fn synced_slot_gets_its_own_remote_id(
    meta: Seq<SlotMeta>,
    results: Seq<SyncEntryResult>,
    i: int,
)
    requires
        0 <= i < meta.len(),
    ensures
        outcome_for(meta[i], i, results) matches SlotOutcome::Synced { slot_id, remote_id, has_usage }
            ==> {
            &&& slot_id == meta[i].slot_id
            &&& has_usage == meta[i].has_usage
            &&& exists|j: int|
                0 <= j < results.len() && #[trigger] results[j].id == remote_id && results[j].synced
                    && (all_have_started_at(results) ==> results[j].started_at@
                    == meta[i].started_at@) && (!all_have_started_at(results) ==> j == i)
        },
{
    lemma_last_match(results, meta[i].started_at@);
    if all_have_started_at(results) {
        if let Some(j) = last_match(results, meta[i].started_at@) {
            assert(results[j].id == results[j].id);
        }
    } else if i < results.len() {
        assert(results[i].id == results[i].id);
    }
}

/// The pause before the next cycle and the new count of failed cycles in a
/// row: 30 s after a good cycle, otherwise `30 * 2^min(n, 9)` seconds for the
/// n-th failure in a row, capped at five minutes.
pub open spec fn spec_backoff(had_error: bool, failures: u32) -> (u64, u32) {
    if !had_error {
        (SYNC_INTERVAL_SECS, 0)
    } else {
        let n: int = failures + 1;
        let d: int = 30 * pow2_spec((if n < 9 { n } else { 9 }) as nat) as int;
        ((if d < MAX_BACKOFF_SECS { d } else { MAX_BACKOFF_SECS as int }) as u64, n as u32)
    }
}

/// The back-off after a sync cycle.
pub fn next_backoff(had_error: bool, consecutive_failures: u32) -> (r: (u64, u32))
    requires
        had_error ==> consecutive_failures < u32::MAX,
    ensures
        r == spec_backoff(had_error, consecutive_failures),
{
    if !had_error {
        return (SYNC_INTERVAL_SECS, 0);
    }
    let n = consecutive_failures + 1;
    let k: u32 = if n < 9 { n } else { 9 };
    let mut d: u64 = 30;
    let mut j: u32 = 0;
    while j < k
        invariant
            j <= k <= 9,
            d == 30 * pow2_spec(j as nat),
        decreases k - j,
    {
        proof {
            lemma_pow2_monotone(j as nat, 8);
            reveal_with_fuel(pow2_spec, 10);
        }
        d = d * 2;
        j = j + 1;
    }
    let delay = if d < MAX_BACKOFF_SECS { d } else { MAX_BACKOFF_SECS };
    (delay, n)
}

/// `2^k`.
pub open spec fn pow2_spec(k: nat) -> nat
    decreases k,
{
    if k == 0 {
        1
    } else {
        2 * pow2_spec((k - 1) as nat)
    }
}

proof fn lemma_pow2_monotone(a: nat, b: nat)
    requires
        a <= b,
    ensures
        pow2_spec(a) <= pow2_spec(b),
    decreases b,
{
    if a < b {
        lemma_pow2_monotone(a, (b - 1) as nat);
    }
}

/// Pauses between cycles stay between 30 seconds and five minutes, and
/// never shrink while failures go on: one, two and three failures in a row
/// wait one, two and four minutes, and from the fourth on the cap applies.
pub proof fn backoff_is_bounded_and_grows(failures: u32)
    requires
        failures < u32::MAX - 1,
    ensures
        SYNC_INTERVAL_SECS <= spec_backoff(true, failures).0 <= MAX_BACKOFF_SECS,
        spec_backoff(true, failures).0 <= spec_backoff(true, (failures + 1) as u32).0,
        spec_backoff(false, failures) == (SYNC_INTERVAL_SECS, 0u32),
        failures == 0 ==> spec_backoff(true, failures).0 == 60,
        failures == 1 ==> spec_backoff(true, failures).0 == 120,
        failures == 2 ==> spec_backoff(true, failures).0 == 240,
        failures >= 3 ==> spec_backoff(true, failures).0 == MAX_BACKOFF_SECS,
{
    let n: int = failures + 1;
    let k: nat = (if n < 9 { n } else { 9 }) as nat;
    let k2: nat = (if n + 1 < 9 { n + 1 } else { 9 }) as nat;
    reveal_with_fuel(pow2_spec, 5);
    lemma_pow2_monotone(1, k);
    lemma_pow2_monotone(k, k2);
    if n >= 4 {
        lemma_pow2_monotone(4, k);
    }
}

/// How a failed `POST /time-entries/sync` is handled.
#[derive(Debug, Clone, PartialEq, Eq)]
pub enum SendFailure {
    /// The token expired: refresh it once and retry.
    Unauthorized,
    /// The endpoint is missing: fail the cycle without reporting it.
    NotFound,
    /// Any other failure: fail the cycle and report it.
    Other,
}

/// Classifies a send error message by the HTTP status it mentions.
pub fn classify_send_error(e: &str) -> (r: SendFailure)
    ensures
        seq_contains(e@, "401"@) ==> r is Unauthorized,
        !seq_contains(e@, "401"@) && seq_contains(e@, "404"@) ==> r is NotFound,
        !seq_contains(e@, "401"@) && !seq_contains(e@, "404"@) ==> r is Other,
{
    if str_contains(e, "401") {
        SendFailure::Unauthorized
    } else if str_contains(e, "404") {
        SendFailure::NotFound
    } else {
        SendFailure::Other
    }
}

/// Whether an upload error says the local file is gone.
pub fn is_file_not_found(e: &str) -> (r: bool)
    ensures
        r == (seq_contains(e@, "No such file"@) || seq_contains(e@, "os error 2"@) || seq_contains(
            e@,
            "NotFound"@,
        )),
{
    str_contains(e, "No such file") || str_contains(e, "os error 2") || str_contains(e, "NotFound")
}

/// What to do after one screenshot upload.
#[derive(Debug, Clone, PartialEq, Eq)]
pub enum UploadOutcome {
    /// Uploaded: mark it synced and delete the local file.
    Uploaded,
    /// The file is gone: mark it synced so it is not retried.
    FileMissing,
    /// Failed: count the attempt and give up after `MAX_SYNC_ATTEMPTS`.
    Failed,
}

pub fn upload_outcome(result: &Result<(), String>) -> (r: UploadOutcome)
    ensures
        match result {
            Ok(_) => r is Uploaded,
            Err(e) => if seq_contains(e@, "No such file"@) || seq_contains(e@, "os error 2"@)
                || seq_contains(e@, "NotFound"@) {
                r is FileMissing
            } else {
                r is Failed
            },
        },
{
    match result {
        Ok(_) => UploadOutcome::Uploaded,
        Err(e) => if is_file_not_found(e.as_str()) {
            UploadOutcome::FileMissing
        } else {
            UploadOutcome::Failed
        },
    }
}

/// A screenshot whose upload failed `attempts` times is given up.
pub fn should_abandon(attempts: i64) -> (r: bool)
    ensures
        r == (attempts >= MAX_SYNC_ATTEMPTS),
{
    attempts >= MAX_SYNC_ATTEMPTS
}


/// Where a sync cycle stands.
#[derive(Debug, Clone, PartialEq, Eq)]
pub enum SyncPhase {
    /// The signed-in user is being loaded.
    LoadingUser,
    /// Connectivity is being checked.
    CheckingConnectivity,
    /// Pending slots are being collected.
    Building,
    /// Slots were sent; `retry` after a token refresh.
    Sending { retry: bool },
    /// The access token is being refreshed after a 401.
    Refreshing,
    /// Pending slots are being collected again with the new token.
    Rebuilding,
    /// The server's answer is being applied to the slots.
    Applying,
    /// Left-over rows are being tidied and orphan screenshots uploaded.
    CleaningUp,
    /// The cycle is over; `had_error` asks for back-off.
    Finished { had_error: bool },
}

/// The outcome of the work a phase asked for.
#[derive(Debug, Clone, PartialEq, Eq)]
pub enum SyncEvent {
    UserLoaded { found: bool },
    Connectivity { online: bool },
    EntriesBuilt { ok: bool, count: usize },
    Sent { error: Option<String> },
    Refreshed { ok: bool },
    ResultsApplied,
    CleanedUp,
}

/// Work the application performs for the sync cycle.
#[derive(Debug, Clone, PartialEq, Eq)]
pub enum SyncEffect {
    /// Emit `connectivity-changed` with the new state.
    EmitConnectivity { online: bool },
    /// Check connectivity.
    CheckConnectivity,
    /// Collect pending slots (see [`build_entry`]).
    BuildEntries,
    /// Send the collected slots.
    SendEntries,
    /// Refresh the access token.
    RefreshToken,
    /// Apply the answer (see [`match_results`]).
    ApplyResults,
    /// Report the send failure to the error tracker.
    ReportFailure,
    /// Tidy orphan rows and upload orphan screenshots.
    CleanupOrphans,
    /// Emit `sync-completed`.
    EmitCompleted,
}

/// One sync cycle in progress.
pub struct SyncCycle {
    pub phase: SyncPhase,
    /// Connectivity as last announced to the interface.
    pub was_online: bool,
}

pub open spec fn finished(had_error: bool) -> SyncPhase {
    SyncPhase::Finished { had_error }
}

/// The next phase and effects of a cycle in `phase` on `event`; events that
/// do not belong to the phase leave the cycle unchanged.
pub open spec fn spec_sync_step(c: SyncCycle, event: SyncEvent) -> (SyncCycle, Seq<SyncEffect>) {
    match (c.phase, event) {
        (SyncPhase::LoadingUser, SyncEvent::UserLoaded { found }) => if found {
            (
                SyncCycle { phase: SyncPhase::CheckingConnectivity, ..c },
                seq![SyncEffect::CheckConnectivity],
            )
        } else {
            (SyncCycle { phase: finished(false), ..c }, seq![])
        },
        (SyncPhase::CheckingConnectivity, SyncEvent::Connectivity { online }) => {
            let announce = if online != c.was_online {
                seq![SyncEffect::EmitConnectivity { online }]
            } else {
                seq![]
            };
            if online {
                (
                    SyncCycle { phase: SyncPhase::Building, was_online: online },
                    announce + seq![SyncEffect::BuildEntries],
                )
            } else {
                (SyncCycle { phase: finished(false), was_online: online }, announce)
            }
        },
        (SyncPhase::Building, SyncEvent::EntriesBuilt { ok, count }) => if !ok {
            (SyncCycle { phase: finished(true), ..c }, seq![])
        } else if count == 0 {
            (SyncCycle { phase: SyncPhase::CleaningUp, ..c }, seq![SyncEffect::CleanupOrphans])
        } else {
            (
                SyncCycle { phase: SyncPhase::Sending { retry: false }, ..c },
                seq![SyncEffect::SendEntries],
            )
        },
        (SyncPhase::Sending { retry }, SyncEvent::Sent { error }) => match error {
            None => (SyncCycle { phase: SyncPhase::Applying, ..c }, seq![SyncEffect::ApplyResults]),
            Some(e) => if retry {
                (SyncCycle { phase: finished(true), ..c }, seq![])
            } else if seq_contains(e@, "401"@) {
                (SyncCycle { phase: SyncPhase::Refreshing, ..c }, seq![SyncEffect::RefreshToken])
            } else if seq_contains(e@, "404"@) {
                (SyncCycle { phase: finished(true), ..c }, seq![])
            } else {
                (SyncCycle { phase: finished(true), ..c }, seq![SyncEffect::ReportFailure])
            },
        },
        (SyncPhase::Refreshing, SyncEvent::Refreshed { ok }) => if ok {
            (SyncCycle { phase: SyncPhase::Rebuilding, ..c }, seq![SyncEffect::BuildEntries])
        } else {
            (SyncCycle { phase: finished(true), ..c }, seq![])
        },
        (SyncPhase::Rebuilding, SyncEvent::EntriesBuilt { ok, count }) => if ok {
            (
                SyncCycle { phase: SyncPhase::Sending { retry: true }, ..c },
                seq![SyncEffect::SendEntries],
            )
        } else {
            (SyncCycle { phase: finished(true), ..c }, seq![])
        },
        (SyncPhase::Applying, SyncEvent::ResultsApplied) => (
            SyncCycle { phase: SyncPhase::CleaningUp, ..c },
            seq![SyncEffect::CleanupOrphans],
        ),
        (SyncPhase::CleaningUp, SyncEvent::CleanedUp) => (
            SyncCycle { phase: finished(false), ..c },
            seq![SyncEffect::EmitCompleted],
        ),
        _ => (c, seq![]),
    }
}

impl SyncCycle {
    /// A new cycle; `was_online` is the connectivity last announced.  The
    /// application first loads the signed-in user.
    pub fn begin(was_online: bool) -> (r: SyncCycle)
        ensures
            r == (SyncCycle { phase: SyncPhase::LoadingUser, was_online }),
    {
        SyncCycle { phase: SyncPhase::LoadingUser, was_online }
    }

    /// Advances the cycle with the outcome of the work of its phase.
    pub fn step(&mut self, event: SyncEvent) -> (effects: Vec<SyncEffect>)
        ensures
            (*final(self), effects@) == spec_sync_step(*old(self), event),
    {
        let ghost c = *old(self);
        let mut effects: Vec<SyncEffect> = Vec::new();
        match (&self.phase, event) {
            (SyncPhase::LoadingUser, SyncEvent::UserLoaded { found }) => {
                if found {
                    self.phase = SyncPhase::CheckingConnectivity;
                    effects.push(SyncEffect::CheckConnectivity);
                } else {
                    self.phase = SyncPhase::Finished { had_error: false };
                }
            },
            (SyncPhase::CheckingConnectivity, SyncEvent::Connectivity { online }) => {
                if online != self.was_online {
                    effects.push(SyncEffect::EmitConnectivity { online });
                    self.was_online = online;
                }
                if online {
                    self.phase = SyncPhase::Building;
                    effects.push(SyncEffect::BuildEntries);
                } else {
                    self.phase = SyncPhase::Finished { had_error: false };
                }
                assert(effects@ =~= spec_sync_step(c, SyncEvent::Connectivity { online }).1);
            },
            (SyncPhase::Building, SyncEvent::EntriesBuilt { ok, count }) => {
                if !ok {
                    self.phase = SyncPhase::Finished { had_error: true };
                } else if count == 0 {
                    self.phase = SyncPhase::CleaningUp;
                    effects.push(SyncEffect::CleanupOrphans);
                } else {
                    self.phase = SyncPhase::Sending { retry: false };
                    effects.push(SyncEffect::SendEntries);
                }
            },
            (SyncPhase::Sending { retry }, SyncEvent::Sent { error }) => {
                let retry = *retry;
                match error {
                    None => {
                        self.phase = SyncPhase::Applying;
                        effects.push(SyncEffect::ApplyResults);
                    },
                    Some(e) => {
                        if retry {
                            self.phase = SyncPhase::Finished { had_error: true };
                        } else {
                            match classify_send_error(e.as_str()) {
                                SendFailure::Unauthorized => {
                                    self.phase = SyncPhase::Refreshing;
                                    effects.push(SyncEffect::RefreshToken);
                                },
                                SendFailure::NotFound => {
                                    self.phase = SyncPhase::Finished { had_error: true };
                                },
                                SendFailure::Other => {
                                    self.phase = SyncPhase::Finished { had_error: true };
                                    effects.push(SyncEffect::ReportFailure);
                                },
                            }
                        }
                    },
                }
            },
            (SyncPhase::Refreshing, SyncEvent::Refreshed { ok }) => {
                if ok {
                    self.phase = SyncPhase::Rebuilding;
                    effects.push(SyncEffect::BuildEntries);
                } else {
                    self.phase = SyncPhase::Finished { had_error: true };
                }
            },
            (SyncPhase::Rebuilding, SyncEvent::EntriesBuilt { ok, count }) => {
                if ok {
                    self.phase = SyncPhase::Sending { retry: true };
                    effects.push(SyncEffect::SendEntries);
                } else {
                    self.phase = SyncPhase::Finished { had_error: true };
                }
            },
            (SyncPhase::Applying, SyncEvent::ResultsApplied) => {
                self.phase = SyncPhase::CleaningUp;
                effects.push(SyncEffect::CleanupOrphans);
            },
            (SyncPhase::CleaningUp, SyncEvent::CleanedUp) => {
                self.phase = SyncPhase::Finished { had_error: false };
                effects.push(SyncEffect::EmitCompleted);
            },
            _ => {},
        }
        effects
    }

    /// Whether the cycle is over, and if so whether it failed.
    pub fn outcome(&self) -> (r: Option<bool>)
        ensures
            match self.phase {
                SyncPhase::Finished { had_error } => r == Some(had_error),
                _ => r is None,
            },
    {
        match self.phase {
            SyncPhase::Finished { had_error } => Some(had_error),
            _ => None,
        }
    }
}

/// A send that succeeds, on the first try or on the retry after a token
/// refresh, moves the cycle to applying the server's answer, and that is
/// the only effect.
pub proof fn successful_send_is_applied(c: SyncCycle, retry: bool)
    requires
        c.phase == (SyncPhase::Sending { retry }),
    ensures
        spec_sync_step(c, SyncEvent::Sent { error: None }).0 == (SyncCycle {
            phase: SyncPhase::Applying,
            was_online: c.was_online,
        }),
        spec_sync_step(c, SyncEvent::Sent { error: None }).1 == seq![SyncEffect::ApplyResults],
{
}

/// Being signed out or offline is no failure: such a cycle ends without
/// back-off, and an offline result is announced exactly when it changes
/// what the interface shows.
pub proof fn offline_is_not_a_failure(c: SyncCycle)
    ensures
        c.phase is LoadingUser ==> spec_sync_step(c, SyncEvent::UserLoaded { found: false }).0.phase
            == finished(false),
        c.phase is CheckingConnectivity ==> {
            let (c2, fx) = spec_sync_step(c, SyncEvent::Connectivity { online: false });
            &&& c2.phase == finished(false)
            &&& !c2.was_online
            &&& (fx.len() == 1) == c.was_online
        },
{
}

/// An expired token is refreshed at most once per cycle: a failure of the
/// retried send ends the cycle with back-off and is not reported again.
pub proof fn token_refreshed_at_most_once(c: SyncCycle, e: String)
    requires
        c.phase == (SyncPhase::Sending { retry: true }),
    ensures
        spec_sync_step(c, SyncEvent::Sent { error: Some(e) }).0.phase == finished(true),
        spec_sync_step(c, SyncEvent::Sent { error: Some(e) }).1.len() == 0,
{
}

/// A first send that fails for another reason than an expired token ends
/// the cycle with back-off; it is reported unless the endpoint was missing.
pub proof fn failed_send_backs_off(c: SyncCycle, e: String)
    requires
        c.phase == (SyncPhase::Sending { retry: false }),
        !seq_contains(e@, "401"@),
    ensures
        spec_sync_step(c, SyncEvent::Sent { error: Some(e) }).0.phase == finished(true),
        spec_sync_step(c, SyncEvent::Sent { error: Some(e) }).1 == if seq_contains(e@, "404"@) {
            Seq::<SyncEffect>::empty()
        } else {
            seq![SyncEffect::ReportFailure]
        },
{
}

} // verus!
