//! Aggregation of foreground-application usage into time slots.
//!
//! Every poll the foreground window is sampled while the timer runs; time is
//! summed per (application, window title) and flushed into the current slot
//! once a minute and whenever the slot changes.

use vstd::prelude::*;
use crate::text::{seq_contains, str_contains};

verus! {

/// Seconds between two samples.
pub const POLL_SECS: u64 = 5;
/// Accumulated usage is flushed after this many samples (one minute).
pub const FLUSH_EVERY_N_TICKS: u64 = 12;
/// A heartbeat is logged every this many polls.
pub const LOG_ALIVE_EVERY_N_TICKS: u64 = 6;
/// Errors of the window query are logged one by one only this many times in
/// a row; after that only every `LOG_ALIVE_EVERY_N_TICKS`-th one.
pub const ERROR_LOG_SUPPRESS_AFTER: u64 = 3;

/// What usage is aggregated by.
#[derive(Debug, Clone, PartialEq, Eq)]
pub struct AppKey {
    pub app_name: String,
    pub window_title: String,
    pub url: Option<String>,
}

/// Usage accumulated for one key: seconds and the first sample's time.
#[derive(Debug, Clone, PartialEq, Eq)]
pub struct Accum {
    pub duration_secs: i64,
    pub started_at: String,
}

pub type KeyView = (Seq<char>, Seq<char>, Option<Seq<char>>);

impl View for AppKey {
    type V = KeyView;

    open spec fn view(&self) -> KeyView {
        (
            self.app_name@,
            self.window_title@,
            match self.url {
                Some(u) => Some(u@),
                None => None,
            },
        )
    }
}

/// Whether two keys denote the same application, title and URL.
pub fn key_eq(a: &AppKey, b: &AppKey) -> (r: bool)
    ensures
        r == (a@ == b@),
{
    if a.app_name != b.app_name || a.window_title != b.window_title {
        return false;
    }
    match (&a.url, &b.url) {
        (Some(x), Some(y)) => *x == *y,
        (None, None) => true,
        _ => false,
    }
}

/// Sum of the accumulated seconds of a list of entries.
pub open spec fn total_secs(s: Seq<(AppKey, Accum)>) -> int
    decreases s.len(),
{
    if s.len() == 0 {
        0
    } else {
        total_secs(s.drop_last()) + s.last().1.duration_secs
    }
}

/// No two entries share a key.
pub open spec fn keys_distinct(s: Seq<(AppKey, Accum)>) -> bool {
    forall|i: int, j: int| 0 <= i < j < s.len() ==> s[i].0@ != s[j].0@
}

/// Index of the entry for key `k`, if any.
pub open spec fn find_key(s: Seq<(AppKey, Accum)>, k: KeyView) -> Option<int>
    decreases s.len(),
{
    if s.len() == 0 {
        None
    } else if s.last().0@ == k {
        Some(s.len() - 1)
    } else {
        find_key(s.drop_last(), k)
    }
}

/// Folds one entry into a list: its seconds are added to the entry with the
/// same key, which keeps its first-sample time; an unseen key is appended.
pub open spec fn merge_one(s: Seq<(AppKey, Accum)>, e: (AppKey, Accum)) -> Seq<(AppKey, Accum)> {
    match find_key(s, e.0@) {
        Some(i) => s.update(
            i,
            (
                s[i].0,
                Accum {
                    duration_secs: (s[i].1.duration_secs + e.1.duration_secs) as i64,
                    started_at: s[i].1.started_at,
                },
            ),
        ),
        None => s.push(e),
    }
}

/// Folds a list of entries, front to back, into `s`.
pub open spec fn merge_all(s: Seq<(AppKey, Accum)>, f: Seq<(AppKey, Accum)>) -> Seq<
    (AppKey, Accum),
>
    decreases f.len(),
{
    if f.len() == 0 {
        s
    } else {
        merge_one(merge_all(s, f.drop_last()), f.last())
    }
}

proof fn lemma_find_key(s: Seq<(AppKey, Accum)>, k: KeyView)
    ensures
        find_key(s, k) matches Some(i) ==> 0 <= i < s.len() && s[i].0@ == k,
        find_key(s, k) is None ==> forall|i: int| 0 <= i < s.len() ==> s[i].0@ != k,
    decreases s.len(),
{
    if s.len() > 0 && s.last().0@ != k {
        lemma_find_key(s.drop_last(), k);
        if find_key(s, k) is None {
            assert forall|i: int| 0 <= i < s.len() implies s[i].0@ != k by {
                if i < s.len() - 1 {
                    assert(s.drop_last()[i] == s[i]);
                }
            }
        }
    }
}

proof fn lemma_total_push(s: Seq<(AppKey, Accum)>, e: (AppKey, Accum))
    ensures
        total_secs(s.push(e)) == total_secs(s) + e.1.duration_secs,
{
    assert(s.push(e).drop_last() =~= s);
}

proof fn lemma_total_update(s: Seq<(AppKey, Accum)>, i: int, e: (AppKey, Accum))
    requires
        0 <= i < s.len(),
    ensures
        total_secs(s.update(i, e)) == total_secs(s) - s[i].1.duration_secs + e.1.duration_secs,
    decreases s.len(),
{
    if i == s.len() - 1 {
        assert(s.update(i, e).drop_last() =~= s.drop_last());
    } else {
        lemma_total_update(s.drop_last(), i, e);
        assert(s.update(i, e).drop_last() =~= s.drop_last().update(i, e));
    }
}

proof fn lemma_total_nonneg(s: Seq<(AppKey, Accum)>)
    requires
        forall|i: int| 0 <= i < s.len() ==> #[trigger] s[i].1.duration_secs >= 0,
    ensures
        total_secs(s) >= 0,
        forall|i: int| 0 <= i < s.len() ==> #[trigger] s[i].1.duration_secs <= total_secs(s),
    decreases s.len(),
{
    if s.len() > 0 {
        let t = s.drop_last();
        assert forall|i: int| 0 <= i < t.len() implies #[trigger] t[i].1.duration_secs >= 0 by {
            assert(t[i] == s[i]);
        }
        lemma_total_nonneg(t);
        assert forall|i: int| 0 <= i < s.len() implies #[trigger] s[i].1.duration_secs
            <= total_secs(s) by {
            if i < s.len() - 1 {
                assert(t[i] == s[i]);
            }
        }
    }
}

proof fn lemma_total_prefix_step(s: Seq<(AppKey, Accum)>, k: int)
    requires
        0 <= k < s.len(),
    ensures
        total_secs(s.subrange(0, k + 1)) == total_secs(s.subrange(0, k)) + s[k].1.duration_secs,
{
    assert(s.subrange(0, k + 1).drop_last() =~= s.subrange(0, k));
}

proof fn lemma_total_prefix_le(s: Seq<(AppKey, Accum)>, k: int)
    requires
        0 <= k <= s.len(),
        forall|i: int| 0 <= i < s.len() ==> #[trigger] s[i].1.duration_secs >= 0,
    ensures
        total_secs(s.subrange(0, k)) <= total_secs(s),
    decreases s.len() - k,
{
    if k < s.len() {
        lemma_total_prefix_step(s, k);
        lemma_total_prefix_le(s, k + 1);
    } else {
        assert(s.subrange(0, k) =~= s);
    }
}

/// Whether all seconds in `f` are non-negative and `base` plus their sum
/// fits an `i64`.
fn fits_on(base: i64, f: &Vec<(AppKey, Accum)>) -> (r: bool)
    requires
        base >= 0,
    ensures
        r == ((forall|i: int| 0 <= i < f@.len() ==> #[trigger] f@[i].1.duration_secs >= 0)
            && base + total_secs(f@) <= i64::MAX),
{
    let mut sum: i64 = base;
    let mut i: usize = 0;
    while i < f.len()
        invariant
            i <= f@.len(),
            base >= 0,
            forall|j: int| 0 <= j < i ==> #[trigger] f@[j].1.duration_secs >= 0,
            sum == base + total_secs(f@.subrange(0, i as int)),
            sum <= i64::MAX,
        decreases f@.len() - i,
    {
        let d = f[i].1.duration_secs;
        proof {
            lemma_total_prefix_step(f@, i as int);
        }
        if d < 0 {
            return false;
        }
        if sum > i64::MAX - d {
            proof {
                if forall|j: int| 0 <= j < f@.len() ==> #[trigger] f@[j].1.duration_secs >= 0 {
                    lemma_total_prefix_le(f@, i + 1);
                }
            }
            return false;
        }
        sum = sum + d;
        i = i + 1;
    }
    assert(f@.subrange(0, i as int) =~= f@);
    true
}

/// Index of the entry for `key` in `entries`, as [`find_key`] gives it.
fn find_index(entries: &Vec<(AppKey, Accum)>, key: &AppKey) -> (r: Option<usize>)
    ensures
        match r {
            Some(k) => find_key(entries@, key@) == Some(k as int),
            None => find_key(entries@, key@) is None,
        },
{
    let ghost s = entries@;
    let mut i: usize = entries.len();
    assert(s.subrange(0, i as int) =~= s);
    while i > 0
        invariant
            i <= s.len(),
            entries@ == s,
            find_key(s, key@) == find_key(s.subrange(0, i as int), key@),
        decreases i,
    {
        let ghost sub = s.subrange(0, i as int);
        assert(sub.drop_last() =~= s.subrange(0, i - 1));
        assert(sub.last() == s[i - 1]);
        if key_eq(&entries[i - 1].0, key) {
            return Some(i - 1);
        }
        i = i - 1;
    }
    assert(s.subrange(0, 0) =~= Seq::<(AppKey, Accum)>::empty());
    None
}

/// Accumulated usage not yet written to the database.
pub struct UsageAccumulator {
    pub entries: Vec<(AppKey, Accum)>,
}

impl UsageAccumulator {
    /// Keys are distinct, seconds non-negative and their sum fits an `i64`.
    pub open spec fn wf(&self) -> bool {
        &&& keys_distinct(self.entries@)
        &&& forall|i: int|
            0 <= i < self.entries@.len() ==> #[trigger] self.entries@[i].1.duration_secs >= 0
        &&& total_secs(self.entries@) <= i64::MAX
    }

    pub fn new() -> (r: UsageAccumulator)
        ensures
            r.entries@.len() == 0,
            r.wf(),
    {
        UsageAccumulator { entries: Vec::new() }
    }

    pub fn is_empty(&self) -> (r: bool)
        ensures
            r == (self.entries@.len() == 0),
    {
        self.entries.len() == 0
    }

    fn total(&self) -> (r: i64)
        requires
            self.wf(),
        ensures
            r == total_secs(self.entries@),
    {
        let ghost s = self.entries@;
        let mut sum: i64 = 0;
        let mut i: usize = 0;
        while i < self.entries.len()
            invariant
                i <= s.len(),
                self.entries@ == s,
                self.wf(),
                sum == total_secs(s.subrange(0, i as int)),
            decreases s.len() - i,
        {
            proof {
                lemma_total_prefix_step(s, i as int);
                lemma_total_prefix_le(s, i + 1);
            }
            sum = sum + self.entries[i].1.duration_secs;
            i = i + 1;
        }
        assert(s.subrange(0, i as int) =~= s);
        sum
    }

    /// Whether one more sample fits the `i64` total.
    pub fn can_add_sample(&self) -> (r: bool)
        requires
            self.wf(),
        ensures
            r == (total_secs(self.entries@) + POLL_SECS <= i64::MAX),
    {
        self.total() <= i64::MAX - 5
    }

    /// Adds one sample (`POLL_SECS` seconds) for `key`; a new key records
    /// `now` as its first-sample time.
    pub fn add_sample(&mut self, key: AppKey, now: String)
        requires
            old(self).wf(),
            total_secs(old(self).entries@) + POLL_SECS <= i64::MAX,
        ensures
            final(self).wf(),
            final(self).entries@ == merge_one(
                old(self).entries@,
                (key, Accum { duration_secs: POLL_SECS as i64, started_at: now }),
            ),
            total_secs(final(self).entries@) == total_secs(old(self).entries@) + POLL_SECS,
    {
        let e = (key, Accum { duration_secs: POLL_SECS as i64, started_at: now });
        self.merge_entry(e);
    }

    fn merge_entry(&mut self, e: (AppKey, Accum))
        requires
            old(self).wf(),
            e.1.duration_secs >= 0,
            total_secs(old(self).entries@) + e.1.duration_secs <= i64::MAX,
        ensures
            final(self).wf(),
            final(self).entries@ == merge_one(old(self).entries@, e),
            total_secs(final(self).entries@) == total_secs(old(self).entries@) + e.1.duration_secs,
    {
        let ghost s = self.entries@;
        proof {
            lemma_find_key(s, e.0@);
            lemma_total_nonneg(s);
        }
        let found = find_index(&self.entries, &e.0);
        match found {
            Some(k) => {
                assert(find_key(s, e.0@) == Some(k as int));
                let old_entry = self.entries.remove(k);
                let merged = (
                    old_entry.0,
                    Accum {
                        duration_secs: old_entry.1.duration_secs + e.1.duration_secs,
                        started_at: old_entry.1.started_at,
                    },
                );
                let ghost m2 = merged;
                self.entries.insert(k, merged);
                proof {
                    assert(self.entries@ =~= s.update(k as int, m2));
                    lemma_total_update(s, k as int, m2);
                }
            },
            None => {
                assert(find_key(s, e.0@) is None);
                self.entries.push(e);
                proof {
                    lemma_total_push(s, e);
                }
            },
        }
    }

    /// Hands out every entry for writing and leaves the accumulator empty.
    pub fn drain(&mut self) -> (r: Vec<(AppKey, Accum)>)
        requires
            old(self).wf(),
        ensures
            r@ == old(self).entries@,
            final(self).entries@.len() == 0,
            final(self).wf(),
    {
        let mut taken: Vec<(AppKey, Accum)> = Vec::new();
        std::mem::swap(&mut taken, &mut self.entries);
        taken
    }

    /// Whether `failed` can be merged back without overflowing.
    pub fn can_merge(&self, failed: &Vec<(AppKey, Accum)>) -> (r: bool)
        requires
            self.wf(),
        ensures
            r == ((forall|i: int|
                0 <= i < failed@.len() ==> #[trigger] failed@[i].1.duration_secs >= 0)
                && total_secs(self.entries@) + total_secs(failed@) <= i64::MAX),
    {
        proof {
            lemma_total_nonneg(self.entries@);
        }
        let base = self.total();
        fits_on(base, failed)
    }

    /// Puts entries whose write failed back, so that they are written with
    /// the next flush: seconds of a key seen again since are added up.
    pub fn merge_back(&mut self, failed: Vec<(AppKey, Accum)>)
        requires
            old(self).wf(),
            forall|i: int| 0 <= i < failed@.len() ==> #[trigger] failed@[i].1.duration_secs >= 0,
            total_secs(old(self).entries@) + total_secs(failed@) <= i64::MAX,
        ensures
            final(self).wf(),
            final(self).entries@ == merge_all(old(self).entries@, failed@),
            total_secs(final(self).entries@) == total_secs(old(self).entries@) + total_secs(failed@),
    {
        let ghost s0 = self.entries@;
        let ghost f = failed@;
        proof {
            lemma_total_nonneg(f);
        }
        let n = failed.len();
        let mut rest = failed;
        let mut i: usize = 0;
        while rest.len() > 0
            invariant
                self.wf(),
                n == f.len(),
                i <= n,
                rest@ == f.subrange(i as int, n as int),
                self.entries@ == merge_all(s0, f.subrange(0, i as int)),
                total_secs(self.entries@) == total_secs(s0) + total_secs(f.subrange(0, i as int)),
                forall|j: int| 0 <= j < f.len() ==> #[trigger] f[j].1.duration_secs >= 0,
                total_secs(s0) + total_secs(f) <= i64::MAX,
            decreases rest@.len(),
        {
            let e = rest.remove(0);
            proof {
                assert(e == f[i as int]);
                lemma_total_prefix_step(f, i as int);
                lemma_total_prefix_le(f, i + 1);
                assert(f.subrange(0, i + 1).drop_last() =~= f.subrange(0, i as int));
            }
            self.merge_entry(e);
            i = i + 1;
            assert(rest@ =~= f.subrange(i as int, n as int));
        }
        assert(f.subrange(0, n as int) =~= f);
    }
}


/// Unicode lower case of a character sequence, as `str::to_lowercase`
/// computes it.
pub uninterp spec fn lowercase_chars(s: Seq<char>) -> Seq<char>;

/// `str::to_lowercase`: the result is the Unicode lower case of `s`, which
/// depends on `s` alone.  The mapping itself is not written out.
#[verifier::external_body]
fn to_lowercase(s: &str) -> (r: String)
    ensures
        r@ == lowercase_chars(s@),
{
    s.to_lowercase()
}

/// Whether a lower-cased application name is this tracker's own window.
pub fn is_own_app(lowered_app_name: &str) -> (r: bool)
    ensures
        r == seq_contains(lowered_app_name@, "hubnity"@),
{
    str_contains(lowered_app_name, "hubnity")
}

/// Usage handed out of the tracker to be written into one slot.
#[derive(Debug, Clone, PartialEq, Eq)]
pub struct UsageFlush {
    pub slot_id: i64,
    pub entries: Vec<(AppKey, Accum)>,
}

/// What the poll and sample steps of the usage tracker depend on: the
/// accumulated usage, the slot it belongs to and the samples since the last
/// flush.
pub struct TrackerModel {
    pub accum: Seq<(AppKey, Accum)>,
    pub last_slot: Option<i64>,
    pub tick_count: int,
}

/// Whether a foreground application is this tracker's own window.
pub open spec fn is_own_window(app_name: Seq<char>) -> bool {
    seq_contains(lowercase_chars(app_name), "hubnity"@)
}

/// The usage recorded for one sample of a foreground window.
pub open spec fn sample_entry(app_name: String, window_title: String, now: String) -> (AppKey, Accum) {
    (
        AppKey { app_name, window_title, url: None },
        Accum { duration_secs: POLL_SECS as i64, started_at: now },
    )
}

/// A poll that sees `slot` published: when the slot changed, the usage of
/// the previous slot (if there was one) is handed out for it.
pub open spec fn model_poll(m: TrackerModel, slot: Option<i64>) -> (
    TrackerModel,
    Option<(i64, Seq<(AppKey, Accum)>)>,
) {
    if slot == m.last_slot {
        (m, None)
    } else {
        match m.last_slot {
            Some(old) => (
                TrackerModel { accum: Seq::empty(), last_slot: slot, tick_count: 0 },
                Some((old, m.accum)),
            ),
            None => (TrackerModel { last_slot: slot, tick_count: 0, ..m }, None),
        }
    }
}

/// A sample of a foreground window while a slot is open: the tracker's own
/// window is ignored; any other adds a sample, and once a minute of samples
/// is collected everything is handed out for the current slot.
pub open spec fn model_sample(m: TrackerModel, app_name: String, window_title: String, now: String) -> (
    TrackerModel,
    Option<(i64, Seq<(AppKey, Accum)>)>,
) {
    if is_own_window(app_name@) || m.last_slot is None {
        (m, None)
    } else {
        let acc = merge_one(m.accum, sample_entry(app_name, window_title, now));
        if m.tick_count + 1 >= FLUSH_EVERY_N_TICKS {
            (
                TrackerModel { accum: Seq::empty(), last_slot: m.last_slot, tick_count: 0 },
                Some((m.last_slot.unwrap(), acc)),
            )
        } else {
            (TrackerModel { accum: acc, tick_count: m.tick_count + 1, ..m }, None)
        }
    }
}

/// An event the usage tracker sees: a poll with the published slot, or a
/// sample of the foreground window under the open slot.
pub enum UsageEvent {
    Poll { slot: Option<i64> },
    Sample { app_name: String, window_title: String, now: String },
}

/// A sample together with the slot that was current when it was taken.
pub type TaggedSample = (AppKey, Accum, Option<i64>);

/// The state after a run of events, the samples not yet handed out, and
/// every batch handed out: its slot, its entries and the samples it is
/// made of.
pub struct UsageRun {
    pub tracker: TrackerModel,
    pub pending: Seq<TaggedSample>,
    pub batches: Seq<(i64, Seq<(AppKey, Accum)>, Seq<TaggedSample>)>,
}

/// The samples without their slots.
pub open spec fn untagged(p: Seq<TaggedSample>) -> Seq<(AppKey, Accum)> {
    p.map_values(|x: TaggedSample| (x.0, x.1))
}

/// Runs the tracker's steps over `evs` from `m0`, recording for each sample
/// the slot current when it was taken.
pub open spec fn run_usage(m0: TrackerModel, evs: Seq<UsageEvent>) -> UsageRun
    decreases evs.len(),
{
    if evs.len() == 0 {
        UsageRun { tracker: m0, pending: Seq::empty(), batches: Seq::empty() }
    } else {
        let r = run_usage(m0, evs.drop_last());
        match evs.last() {
            UsageEvent::Poll { slot } => {
                let (m2, out) = model_poll(r.tracker, slot);
                match out {
                    Some((sid, e)) => UsageRun {
                        tracker: m2,
                        pending: Seq::empty(),
                        batches: r.batches.push((sid, e, r.pending)),
                    },
                    None => UsageRun { tracker: m2, ..r },
                }
            },
            UsageEvent::Sample { app_name, window_title, now } => {
                let (m2, out) = model_sample(r.tracker, app_name, window_title, now);
                let e = sample_entry(app_name, window_title, now);
                let p2 = if !is_own_window(app_name@) && r.tracker.last_slot is Some {
                    r.pending.push((e.0, e.1, r.tracker.last_slot))
                } else {
                    r.pending
                };
                match out {
                    Some((sid, entries)) => UsageRun {
                        tracker: m2,
                        pending: Seq::empty(),
                        batches: r.batches.push((sid, entries, p2)),
                    },
                    None => UsageRun { tracker: m2, pending: p2, ..r },
                }
            },
        }
    }
}

proof fn lemma_untagged_push(p: Seq<TaggedSample>, x: TaggedSample)
    ensures
        untagged(p.push(x)).drop_last() == untagged(p),
        untagged(p.push(x)).last() == (x.0, x.1),
        untagged(p.push(x)).len() == p.len() + 1,
{
    assert(untagged(p.push(x)).drop_last() =~= untagged(p));
}

/// Usage rows carry the slot they were sampled under: over any run of polls
/// and samples from a fresh tracker, every batch handed out for writing
/// into a slot is exactly the aggregation of the samples taken since the
/// previous batch, and each of those samples was taken while that slot was
/// current.  (Rows whose write fails and are merged back are outside this
/// statement.)
pub proof fn usage_rows_carry_their_sampling_slot(evs: Seq<UsageEvent>)
    ensures
        ({
            let r = run_usage(
                TrackerModel { accum: Seq::empty(), last_slot: None, tick_count: 0 },
                evs,
            );
            &&& forall|b: int|
                0 <= b < r.batches.len() ==> #[trigger] r.batches[b].1 == merge_all(
                    Seq::empty(),
                    untagged(r.batches[b].2),
                )
            &&& forall|b: int, k: int|
                0 <= b < r.batches.len() && 0 <= k < r.batches[b].2.len() ==> #[trigger] r.batches[b].2[k].2
                    == Some(r.batches[b].0)
        }),
    decreases evs.len(),
{
    lemma_run_usage(evs);
}

proof fn lemma_run_usage(evs: Seq<UsageEvent>)
    ensures
        ({
            let r = run_usage(
                TrackerModel { accum: Seq::empty(), last_slot: None, tick_count: 0 },
                evs,
            );
            &&& r.tracker.accum == merge_all(Seq::empty(), untagged(r.pending))
            &&& forall|k: int| 0 <= k < r.pending.len() ==> #[trigger] r.pending[k].2 == r.tracker.last_slot
            &&& forall|k: int| 0 <= k < r.pending.len() ==> (#[trigger] r.pending[k].2) is Some
            &&& forall|b: int|
                0 <= b < r.batches.len() ==> #[trigger] r.batches[b].1 == merge_all(
                    Seq::empty(),
                    untagged(r.batches[b].2),
                )
            &&& forall|b: int, k: int|
                0 <= b < r.batches.len() && 0 <= k < r.batches[b].2.len() ==> #[trigger] r.batches[b].2[k].2
                    == Some(r.batches[b].0)
        }),
    decreases evs.len(),
{
    let m0 = TrackerModel { accum: Seq::empty(), last_slot: None, tick_count: 0 };
    if evs.len() == 0 {
        assert(untagged(Seq::<TaggedSample>::empty()) =~= Seq::empty());
        return;
    }
    lemma_run_usage(evs.drop_last());
    let r = run_usage(m0, evs.drop_last());
    let r2 = run_usage(m0, evs);
    assert(untagged(Seq::<TaggedSample>::empty()) =~= Seq::empty());
    match evs.last() {
        UsageEvent::Poll { slot } => {
            if slot != r.tracker.last_slot && r.tracker.last_slot is None {
                assert(r.pending.len() == 0) by {
                    if r.pending.len() > 0 {
                        assert(r.pending[0].2 is Some);
                    }
                }
            }
            assert forall|b: int|
                0 <= b < r2.batches.len() implies #[trigger] r2.batches[b].1 == merge_all(
                    Seq::empty(),
                    untagged(r2.batches[b].2),
                ) by {
                if b < r.batches.len() {
                    assert(r2.batches[b] == r.batches[b]);
                }
            }
            assert forall|b: int, k: int|
                0 <= b < r2.batches.len() && 0 <= k < r2.batches[b].2.len() implies #[trigger] r2.batches[b].2[k].2
                    == Some(r2.batches[b].0) by {
                if b < r.batches.len() {
                    assert(r2.batches[b] == r.batches[b]);
                }
            }
        },
        UsageEvent::Sample { app_name, window_title, now } => {
            let e = sample_entry(app_name, window_title, now);
            let sampled = !is_own_window(app_name@) && r.tracker.last_slot is Some;
            let p2 = if sampled {
                r.pending.push((e.0, e.1, r.tracker.last_slot))
            } else {
                r.pending
            };
            if sampled {
                lemma_untagged_push(r.pending, (e.0, e.1, r.tracker.last_slot));
                assert(merge_all(Seq::empty(), untagged(p2)) == merge_one(
                    merge_all(Seq::empty(), untagged(r.pending)),
                    e,
                ));
                assert forall|k: int| 0 <= k < p2.len() implies #[trigger] p2[k].2 == r.tracker.last_slot
                    && p2[k].2 is Some by {
                    if k < r.pending.len() {
                        assert(p2[k] == r.pending[k]);
                    }
                }
            }
            assert forall|b: int|
                0 <= b < r2.batches.len() implies #[trigger] r2.batches[b].1 == merge_all(
                    Seq::empty(),
                    untagged(r2.batches[b].2),
                ) by {
                if b < r.batches.len() {
                    assert(r2.batches[b] == r.batches[b]);
                }
            }
            assert forall|b: int, k: int|
                0 <= b < r2.batches.len() && 0 <= k < r2.batches[b].2.len() implies #[trigger] r2.batches[b].2[k].2
                    == Some(r2.batches[b].0) by {
                if b < r.batches.len() {
                    assert(r2.batches[b] == r.batches[b]);
                } else {
                    assert(r2.batches[b].2 == p2);
                    assert(p2[k].2 == r.tracker.last_slot);
                }
            }
        },
    }
}

/// What a poll of the usage tracker asks the application to do.
#[derive(Debug, Clone, PartialEq, Eq)]
pub struct PollPlan {
    /// Log a heartbeat.
    pub log_alive: bool,
    /// Write the accumulated usage into this (previous) slot first.
    pub flush_slot: Option<i64>,
    /// The usage to write into `flush_slot`, taken out of the accumulator
    /// before anything is sampled for the new slot.
    pub flush_entries: Vec<(AppKey, Accum)>,
    /// Sample the foreground window and record it under this slot.
    pub sample_slot: Option<i64>,
}

/// The usage tracker: accumulated usage and poll bookkeeping.
pub struct AppTracker {
    pub accum: UsageAccumulator,
    pub last_slot_id: Option<i64>,
    /// Samples recorded since the last flush.
    pub tick_count: u64,
    /// Polls so far.
    pub alive_tick: u64,
    /// Failed window queries in a row.
    pub consecutive_errors: u64,
}

impl AppTracker {
    /// The tracker as its poll and sample steps see it.
    pub open spec fn model(&self) -> TrackerModel {
        TrackerModel {
            accum: self.accum.entries@,
            last_slot: self.last_slot_id,
            tick_count: self.tick_count as int,
        }
    }

    pub fn new() -> (r: AppTracker)
        ensures
            r.accum.wf(),
            r.accum.entries@.len() == 0,
            r.last_slot_id is None,
            r.tick_count == 0,
            r.alive_tick == 0,
            r.consecutive_errors == 0,
    {
        AppTracker {
            accum: UsageAccumulator::new(),
            last_slot_id: None,
            tick_count: 0,
            alive_tick: 0,
            consecutive_errors: 0,
        }
    }

    /// Whether the poll counter can advance.
    pub fn can_poll(&self) -> (r: bool)
        ensures
            r == (self.alive_tick < u64::MAX),
    {
        self.alive_tick < u64::MAX
    }

    /// One poll with the timer state `running` and the published `slot`.
    /// When the slot changed, usage accumulated so far belongs to the
    /// previous slot: it is taken out of the accumulator and handed back to
    /// be written there, so that no sample for the new slot is mixed into it.
    /// Sampling happens only while the timer runs and a slot is open.
    pub fn on_poll(&mut self, running: bool, slot: Option<i64>) -> (r: PollPlan)
        requires
            old(self).alive_tick < u64::MAX,
            old(self).accum.wf(),
        ensures
            final(self).alive_tick == old(self).alive_tick + 1,
            r.log_alive == (final(self).alive_tick % LOG_ALIVE_EVERY_N_TICKS == 0),
            final(self).last_slot_id == slot,
            final(self).accum.wf(),
            slot != old(self).last_slot_id ==> {
                &&& r.flush_slot == old(self).last_slot_id
                &&& final(self).tick_count == 0
            },
            slot != old(self).last_slot_id && old(self).last_slot_id is Some ==> {
                &&& r.flush_entries@ == old(self).accum.entries@
                &&& final(self).accum.entries@.len() == 0
            },
            !(slot != old(self).last_slot_id && old(self).last_slot_id is Some) ==> {
                &&& r.flush_entries@.len() == 0
                &&& final(self).accum == old(self).accum
            },
            slot == old(self).last_slot_id ==> {
                &&& r.flush_slot is None
                &&& final(self).tick_count == old(self).tick_count
            },
            r.sample_slot == if running { slot } else { None },
            final(self).consecutive_errors == old(self).consecutive_errors,
            final(self).model() == model_poll(old(self).model(), slot).0,
            model_poll(old(self).model(), slot).1 == match r.flush_slot {
                Some(sid) => Some((sid, r.flush_entries@)),
                None => None::<(i64, Seq<(AppKey, Accum)>)>,
            },
    {
        self.alive_tick = self.alive_tick + 1;
        let log_alive = self.alive_tick % LOG_ALIVE_EVERY_N_TICKS == 0;
        let changed = match (slot, self.last_slot_id) {
            (Some(a), Some(b)) => a != b,
            (None, None) => false,
            _ => true,
        };
        let mut flush_slot: Option<i64> = None;
        let mut flush_entries: Vec<(AppKey, Accum)> = Vec::new();
        if changed {
            flush_slot = self.last_slot_id;
            if self.last_slot_id.is_some() {
                flush_entries = self.accum.drain();
                assert(self.accum.entries@ =~= Seq::<(AppKey, Accum)>::empty());
            }
            self.last_slot_id = slot;
            self.tick_count = 0;
        }
        let sample_slot = if running { slot } else { None };
        PollPlan { log_alive, flush_slot, flush_entries, sample_slot }
    }

    /// Whether a sample can be recorded without overflowing a counter.
    pub fn can_record(&self) -> (r: bool)
        requires
            self.accum.wf(),
        ensures
            r == (total_secs(self.accum.entries@) + POLL_SECS <= i64::MAX && self.tick_count
                < u64::MAX),
    {
        self.accum.can_add_sample() && self.tick_count < u64::MAX
    }

    /// A foreground window `app_name` / `window_title` sampled at `now` for
    /// the open slot `slot`.  The tracker's own window is ignored; other
    /// windows add one sample and, once a minute of samples is collected,
    /// everything accumulated is handed out to be written into `slot`.
    pub fn on_window(&mut self, slot: i64, app_name: String, window_title: String, now: String) -> (r:
        Option<UsageFlush>)
        requires
            old(self).last_slot_id == Some(slot),
            old(self).accum.wf(),
            total_secs(old(self).accum.entries@) + POLL_SECS <= i64::MAX,
            old(self).tick_count < u64::MAX,
        ensures
            final(self).accum.wf(),
            final(self).consecutive_errors == 0,
            final(self).alive_tick == old(self).alive_tick,
            final(self).model() == model_sample(old(self).model(), app_name, window_title, now).0,
            match r {
                Some(f) => model_sample(old(self).model(), app_name, window_title, now).1 == Some(
                    (f.slot_id, f.entries@),
                ),
                None => model_sample(old(self).model(), app_name, window_title, now).1 is None,
            },
            is_own_window(app_name@) ==> r is None && final(self).accum == old(self).accum,
            !is_own_window(app_name@) && old(self).tick_count + 1 >= FLUSH_EVERY_N_TICKS ==> (
            r matches Some(f) && f.slot_id == slot && f.entries@ == merge_one(
                old(self).accum.entries@,
                sample_entry(app_name, window_title, now),
            )),
    {
        self.consecutive_errors = 0;
        let lowered = to_lowercase(app_name.as_str());
        if is_own_app(lowered.as_str()) {
            return None;
        }
        let key = AppKey { app_name, window_title, url: None };
        self.accum.add_sample(key, now);
        self.tick_count = self.tick_count + 1;
        if self.tick_count >= FLUSH_EVERY_N_TICKS {
            self.tick_count = 0;
            let entries = self.accum.drain();
            assert(self.accum.entries@ =~= Seq::<(AppKey, Accum)>::empty());
            Some(UsageFlush { slot_id: slot, entries })
        } else {
            None
        }
    }

    /// Whether the failure counter can advance.
    pub fn can_count_error(&self) -> (r: bool)
        ensures
            r == (self.consecutive_errors < u64::MAX),
    {
        self.consecutive_errors < u64::MAX
    }

    /// A failed window query.  Returns whether to log it: the first few in a
    /// row are logged, later ones only periodically.
    pub fn on_window_error(&mut self) -> (r: bool)
        requires
            old(self).consecutive_errors < u64::MAX,
        ensures
            final(self).consecutive_errors == old(self).consecutive_errors + 1,
            r == (final(self).consecutive_errors <= ERROR_LOG_SUPPRESS_AFTER
                || final(self).consecutive_errors % LOG_ALIVE_EVERY_N_TICKS == 0),
            final(self).accum == old(self).accum,
            final(self).tick_count == old(self).tick_count,
            final(self).last_slot_id == old(self).last_slot_id,
            final(self).alive_tick == old(self).alive_tick,
    {
        self.consecutive_errors = self.consecutive_errors + 1;
        self.consecutive_errors <= ERROR_LOG_SUPPRESS_AFTER
            || self.consecutive_errors % LOG_ALIVE_EVERY_N_TICKS == 0
    }
}

/// A flush loses no usage: draining the accumulator and merging back the
/// entries whose write failed leaves exactly their seconds, and merging
/// keeps one entry per key.
pub proof fn failed_flush_loses_nothing(
    s: Seq<(AppKey, Accum)>,
    failed: Seq<(AppKey, Accum)>,
)
    requires
        keys_distinct(s),
        forall|i: int| 0 <= i < s.len() ==> #[trigger] s[i].1.duration_secs >= 0,
        forall|i: int| 0 <= i < failed.len() ==> #[trigger] failed[i].1.duration_secs >= 0,
        total_secs(s) + total_secs(failed) <= i64::MAX,
    ensures
        keys_distinct(merge_all(s, failed)),
        total_secs(merge_all(s, failed)) == total_secs(s) + total_secs(failed),
        forall|i: int|
            0 <= i < merge_all(s, failed).len() ==> #[trigger] merge_all(s, failed)[i].1.duration_secs
                >= 0,
    decreases failed.len(),
{
    if failed.len() > 0 {
        let f0 = failed.drop_last();
        assert forall|i: int| 0 <= i < f0.len() implies #[trigger] f0[i].1.duration_secs >= 0 by {
            assert(f0[i] == failed[i]);
        }
        lemma_total_drop_last(failed);
        lemma_total_nonneg(f0);
        failed_flush_loses_nothing(s, f0);
        let m = merge_all(s, f0);
        let e = failed.last();
        lemma_find_key(m, e.0@);
        lemma_total_nonneg(m);
        match find_key(m, e.0@) {
            Some(i) => {
                let m2 = merge_one(m, e);
                assert(m[i].1.duration_secs <= total_secs(m));
                lemma_total_update(m, i, m2[i]);
                assert forall|a: int, b: int| 0 <= a < b < m2.len() implies m2[a].0@ != m2[b].0@ by {
                    assert(m2[a].0@ == m[a].0@);
                    assert(m2[b].0@ == m[b].0@);
                }
            },
            None => {
                lemma_total_push(m, e);
                let m2 = m.push(e);
                assert forall|a: int, b: int| 0 <= a < b < m2.len() implies m2[a].0@ != m2[b].0@ by {
                    if b == m.len() {
                        assert(m2[a] == m[a]);
                    } else {
                        assert(m2[a] == m[a]);
                        assert(m2[b] == m[b]);
                    }
                }
            },
        }
    }
}

/// Usage of a new slot starts afresh: after a slot change has handed the
/// previous slot's usage out (leaving the accumulator empty), the first
/// sample is all the accumulator holds, so every row written later for the
/// new slot was sampled while that slot was current.
pub proof fn new_slot_starts_with_empty_usage(e: (AppKey, Accum))
    ensures
        merge_one(Seq::<(AppKey, Accum)>::empty(), e) == seq![e],
{
    assert(merge_one(Seq::<(AppKey, Accum)>::empty(), e) =~= seq![e]);
}

proof fn lemma_total_drop_last(f: Seq<(AppKey, Accum)>)
    requires
        f.len() > 0,
    ensures
        total_secs(f) == total_secs(f.drop_last()) + f.last().1.duration_secs,
{
}

} // verus!
