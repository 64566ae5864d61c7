//! The coalescing batch queue: a keyed collection of pending events,
//! deduplicated by `event_hash_sha256`. `add` merges the metric rows of a
//! duplicate event onto the record already held for its hash; `process_batch`
//! drains ready records. With `delta == 0` (immediate mode) a drain empties
//! the queue wholesale; with `delta > 0` (windowed mode) it takes exactly the
//! records whose last merge lies more than `delta` seconds in the past.
//!
//! The records live in insertion order with pairwise distinct hashes; every
//! contract is stated over that sequence of record views.

use vstd::prelude::*;

use vstd::wrapping::i64_specs;

use crate::hashing::hash_wf;
use crate::types::{SensorEvent, SensorEventView};

verus! {

/// A queue entry: one pending event with the time of its first insertion
/// and of its last merge.
pub struct SensorEventRecord {
    pub payload: SensorEvent,
    pub created_at: i64,
    pub updated_at: i64,
}

/// The mathematical model of a queue entry.
pub ghost struct SensorEventRecordView {
    pub payload: SensorEventView,
    pub created_at: i64,
    pub updated_at: i64,
}

impl View for SensorEventRecord {
    type V = SensorEventRecordView;

    open spec fn view(&self) -> SensorEventRecordView {
        SensorEventRecordView {
            payload: self.payload@,
            created_at: self.created_at,
            updated_at: self.updated_at,
        }
    }
}

/// The views of a sequence of queue entries.
pub open spec fn records_view(s: Seq<SensorEventRecord>) -> Seq<SensorEventRecordView> {
    s.map_values(|r: SensorEventRecord| r@)
}

/// The views of a sequence of events.
pub open spec fn events_view(s: Seq<SensorEvent>) -> Seq<SensorEventView> {
    s.map_values(|e: SensorEvent| e@)
}

/// The deduplication key of a record: its event's content hash.
pub open spec fn rec_hash(r: SensorEventRecordView) -> Seq<char> {
    r.payload.event_hash_sha256
}

/// Whether some record carries the given hash.
pub open spec fn has_hash(s: Seq<SensorEventRecordView>, h: Seq<char>) -> bool {
    exists|i: int| 0 <= i < s.len() && rec_hash(#[trigger] s[i]) == h
}

/// Pairwise distinct hashes: the queue's well-formedness.
pub open spec fn hashes_unique(s: Seq<SensorEventRecordView>) -> bool {
    forall|i: int, j: int|
        #![trigger rec_hash(s[i]), rec_hash(s[j])]
        0 <= i < j < s.len() ==> rec_hash(s[i]) != rec_hash(s[j])
}

/// The events held by the records, in record order.
pub open spec fn payloads_of(s: Seq<SensorEventRecordView>) -> Seq<SensorEventView> {
    s.map_values(|r: SensorEventRecordView| r.payload)
}

/// The hashes of the records, in record order.
pub open spec fn hashes_of(s: Seq<SensorEventRecordView>) -> Seq<Seq<char>> {
    s.map_values(|r: SensorEventRecordView| rec_hash(r))
}

/// The record for a duplicate insert: the new event's metric rows appended
/// to the held event's, the merge time advanced, everything else kept.
pub open spec fn merge_record(
    r: SensorEventRecordView,
    ev: SensorEventView,
    now: i64,
) -> SensorEventRecordView {
    SensorEventRecordView {
        payload: SensorEventView { metrics: r.payload.metrics + ev.metrics, ..r.payload },
        created_at: r.created_at,
        updated_at: now,
    }
}

/// What `add` does to the record sequence: merge onto the record holding the
/// event's hash, or append a fresh record stamped `now` twice.
pub open spec fn spec_add(
    s: Seq<SensorEventRecordView>,
    ev: SensorEventView,
    now: i64,
) -> Seq<SensorEventRecordView> {
    if has_hash(s, ev.event_hash_sha256) {
        let i = choose|i: int| 0 <= i < s.len() && rec_hash(#[trigger] s[i]) == ev.event_hash_sha256;
        s.update(i, merge_record(s[i], ev, now))
    } else {
        s.push(SensorEventRecordView { payload: ev, created_at: now, updated_at: now })
    }
}

/// Whether a record is ripe for a windowed drain at time `now`.
pub open spec fn spec_ready(r: SensorEventRecordView, delta: u64, now: i64) -> bool {
    now > r.updated_at + delta
}

/// The ripeness predicate of a windowed drain, as a function value.
pub open spec fn ready_fn(delta: u64, now: i64) -> spec_fn(SensorEventRecordView) -> bool {
    |r: SensorEventRecordView| spec_ready(r, delta, now)
}

/// The complement of the ripeness predicate, as a function value.
pub open spec fn kept_fn(delta: u64, now: i64) -> spec_fn(SensorEventRecordView) -> bool {
    |r: SensorEventRecordView| !spec_ready(r, delta, now)
}

/// The events a drain yields: everything in immediate mode, the ripe records
/// in windowed mode, in record order either way.
pub open spec fn spec_drained(
    s: Seq<SensorEventRecordView>,
    delta: u64,
    now: i64,
) -> Seq<SensorEventView> {
    if delta == 0 {
        payloads_of(s)
    } else {
        payloads_of(s.filter(ready_fn(delta, now)))
    }
}

/// The records a drain leaves behind: none in immediate mode, the unripe
/// ones in windowed mode.
pub open spec fn spec_kept(
    s: Seq<SensorEventRecordView>,
    delta: u64,
    now: i64,
) -> Seq<SensorEventRecordView> {
    if delta == 0 {
        Seq::empty()
    } else {
        s.filter(kept_fn(delta, now))
    }
}

/// The number of metric rows carried by a sequence of events, accumulated
/// with wrapping addition as the running counters are.
pub open spec fn metrics_count(s: Seq<SensorEventView>) -> i64
    decreases s.len(),
{
    if s.len() == 0 {
        0
    } else {
        i64_specs::wrapping_add(metrics_count(s.drop_last()), s.last().metrics.len() as i64)
    }
}

/// Relies on `std::time::SystemTime::now`: seconds since the Unix epoch,
/// non-negative whatever the clock reports (a clock before the epoch or past
/// `i64::MAX` seconds is clamped by the conversion).
#[verifier::external_body]
fn unix_now() -> (r: i64)
    ensures
        r >= 0,
{
    std::time::SystemTime::now()
        .duration_since(std::time::SystemTime::UNIX_EPOCH)
        .map(|d| i64::try_from(d.as_secs()).unwrap_or(i64::MAX))
        .unwrap_or(0)
}

/// The coalescing batch queue with its per-second counters.
pub struct EventBatchQueue {
    records: Vec<SensorEventRecord>,
    delta: u64,
    latest_event_per_sec: i64,
    event_this_sec: i64,
    latest_batch_per_sec: i64,
    batch_this_sec: i64,
    total_sent_events: i64,
    total_processed_events: i64,
}

impl View for EventBatchQueue {
    type V = Seq<SensorEventRecordView>;

    closed spec fn view(&self) -> Seq<SensorEventRecordView> {
        records_view(self.records@)
    }
}

impl EventBatchQueue {
    /// The drain window in seconds; zero selects immediate mode.
    pub closed spec fn spec_delta(&self) -> u64 {
        self.delta
    }

    /// The snapshot taken by the last metrics tick of events added that second.
    pub closed spec fn spec_latest_event_per_sec(&self) -> i64 {
        self.latest_event_per_sec
    }

    /// Events added since the last metrics tick.
    pub closed spec fn spec_event_this_sec(&self) -> i64 {
        self.event_this_sec
    }

    /// The snapshot taken by the last metrics tick of batches drained that second.
    pub closed spec fn spec_latest_batch_per_sec(&self) -> i64 {
        self.latest_batch_per_sec
    }

    /// Batches drained since the last metrics tick.
    pub closed spec fn spec_batch_this_sec(&self) -> i64 {
        self.batch_this_sec
    }

    /// Running total of metric rows drained.
    pub closed spec fn spec_total_sent(&self) -> i64 {
        self.total_sent_events
    }

    /// Mirror of the sent total, refreshed on every non-empty drain.
    pub closed spec fn spec_total_processed(&self) -> i64 {
        self.total_processed_events
    }

    /// Well-formedness: pairwise distinct hashes.
    pub open spec fn wf(&self) -> bool {
        hashes_unique(self@)
    }

    /// Creates an empty queue; `delta_seconds == 0` selects immediate mode.
    pub fn new(delta_seconds: u64) -> (q: EventBatchQueue)
        ensures
            q@ == Seq::<SensorEventRecordView>::empty(),
            q.wf(),
            q.spec_delta() == delta_seconds,
            q.spec_latest_event_per_sec() == 0,
            q.spec_event_this_sec() == 0,
            q.spec_latest_batch_per_sec() == 0,
            q.spec_batch_this_sec() == 0,
            q.spec_total_sent() == 0,
            q.spec_total_processed() == 0,
    {
        let q = EventBatchQueue {
            records: Vec::new(),
            delta: delta_seconds,
            latest_event_per_sec: 0,
            event_this_sec: 0,
            latest_batch_per_sec: 0,
            batch_this_sec: 0,
            total_sent_events: 0,
            total_processed_events: 0,
        };
        proof {
            assert(q@ =~= Seq::<SensorEventRecordView>::empty());
        }
        q
    }

    /// Inserts or merges an event at a caller-supplied time: the record
    /// sequence becomes exactly `spec_add` of the old one, and the event
    /// counter ticks once (wrapping).
    pub fn add_at(&mut self, event: SensorEvent, now: i64)
        requires
            old(self).wf(),
        ensures
            final(self).wf(),
            final(self)@ == spec_add(old(self)@, event@, now),
            final(self).spec_delta() == old(self).spec_delta(),
            final(self).spec_event_this_sec() == i64_specs::wrapping_add(
                old(self).spec_event_this_sec(),
                1,
            ),
            final(self).spec_latest_event_per_sec() == old(self).spec_latest_event_per_sec(),
            final(self).spec_latest_batch_per_sec() == old(self).spec_latest_batch_per_sec(),
            final(self).spec_batch_this_sec() == old(self).spec_batch_this_sec(),
            final(self).spec_total_sent() == old(self).spec_total_sent(),
            final(self).spec_total_processed() == old(self).spec_total_processed(),
    {
        let ghost orig = self@;
        let ghost h = event@.event_hash_sha256;
        let n = self.records.len();
        let mut idx: Option<usize> = None;
        let mut i: usize = 0;
        while i < n
            invariant
                n == self.records.len(),
                i <= n,
                self@ == orig,
                orig.len() == n,
                h == event@.event_hash_sha256,
                match idx {
                    Option::Some(k) => k < i && rec_hash(orig[k as int]) == h,
                    Option::None => forall|j: int| 0 <= j < i ==> rec_hash(#[trigger] orig[j]) != h,
                },
            decreases n - i,
        {
            if idx.is_none() {
                proof {
                    assert(orig[i as int] == self.records@[i as int]@);
                }
                if self.records[i].payload.event_hash_sha256 == event.event_hash_sha256 {
                    idx = Some(i);
                }
            }
            i = i + 1;
        }
        match idx {
            Some(k) => {
                let ghost pre = self.records@;
                let mut rec = self.records.remove(k);
                let mut ev = event;
                rec.payload.metrics.append(&mut ev.metrics);
                rec.updated_at = now;
                self.records.insert(k, rec);
                proof {
                    assert(has_hash(orig, h));
                    let ci = choose|c: int| 0 <= c < orig.len() && rec_hash(#[trigger] orig[c])
                        == h;
                    assert(rec_hash(orig[ci]) == h);
                    assert(rec_hash(orig[k as int]) == h);
                    assert(ci == k as int);
                    assert(rec@.payload.metrics =~= orig[k as int].payload.metrics
                        + event@.metrics);
                    assert(rec@ == merge_record(orig[k as int], event@, now));
                    assert(self.records@ == pre.remove(k as int).insert(k as int, rec));
                    assert forall|j: int| 0 <= j < orig.len() implies self@[j] == spec_add(
                        orig,
                        event@,
                        now,
                    )[j] by {
                        assert(self@[j] == self.records@[j]@);
                        if j < k as int {
                            assert(self.records@[j] == pre[j]);
                        } else if j == k as int {
                            assert(self.records@[j] == rec);
                        } else {
                            assert(pre.remove(k as int)[j - 1] == pre[j]);
                            assert(self.records@[j] == pre[j]);
                        }
                    }
                    assert(self@ =~= spec_add(orig, event@, now));
                    assert forall|a: int, b: int|
                        #![trigger rec_hash(self@[a]), rec_hash(self@[b])]
                        0 <= a < b < self@.len() implies rec_hash(self@[a]) != rec_hash(
                        self@[b],
                    ) by {
                        assert(rec_hash(orig[a]) != rec_hash(orig[b]));
                        assert(rec_hash(self@[a]) == rec_hash(orig[a]));
                        assert(rec_hash(self@[b]) == rec_hash(orig[b]));
                    }
                }
            },
            None => {
                let rec = SensorEventRecord { payload: event, created_at: now, updated_at: now };
                self.records.push(rec);
                proof {
                    assert(!has_hash(orig, h));
                    assert(self@ =~= spec_add(orig, event@, now));
                    assert forall|a: int, b: int|
                        #![trigger rec_hash(self@[a]), rec_hash(self@[b])]
                        0 <= a < b < self@.len() implies rec_hash(self@[a]) != rec_hash(
                        self@[b],
                    ) by {
                        if b < orig.len() {
                            assert(rec_hash(self@[a]) == rec_hash(orig[a]));
                            assert(rec_hash(self@[b]) == rec_hash(orig[b]));
                        } else {
                            assert(rec_hash(self@[a]) == rec_hash(orig[a]));
                            assert(rec_hash(orig[a]) != h) by {
                                if rec_hash(orig[a]) == h {
                                    assert(has_hash(orig, h));
                                }
                            }
                            assert(rec_hash(self@[b]) == h);
                        }
                    }
                }
            },
        }
        self.event_this_sec = self.event_this_sec.wrapping_add(1);
    }

    /// Inserts or merges an event at the current wall-clock second. The
    /// clock is read once; the transition is `spec_add` at that read, which
    /// is all that can be said of a wall clock.
    pub fn add(&mut self, event: SensorEvent)
        requires
            old(self).wf(),
        ensures
            final(self).wf(),
            exists|t: i64| t >= 0 && final(self)@ == spec_add(old(self)@, event@, t),
            final(self).spec_delta() == old(self).spec_delta(),
            final(self).spec_event_this_sec() == i64_specs::wrapping_add(
                old(self).spec_event_this_sec(),
                1,
            ),
            final(self).spec_latest_event_per_sec() == old(self).spec_latest_event_per_sec(),
            final(self).spec_latest_batch_per_sec() == old(self).spec_latest_batch_per_sec(),
            final(self).spec_batch_this_sec() == old(self).spec_batch_this_sec(),
            final(self).spec_total_sent() == old(self).spec_total_sent(),
            final(self).spec_total_processed() == old(self).spec_total_processed(),
    {
        let ghost orig = self@;
        let now = unix_now();
        self.add_at(event, now);
        proof {
            assert(now >= 0 && self@ == spec_add(orig, event@, now));
        }
    }

    /// Drains at a caller-supplied time: yields `spec_drained`, keeps
    /// `spec_kept`, and on a non-empty yield ticks the batch counter and adds
    /// the yielded metric-row count to the running totals (wrapping).
    pub fn process_batch_at(&mut self, now: i64) -> (batch: Vec<SensorEvent>)
        requires
            old(self).wf(),
        ensures
            final(self).wf(),
            events_view(batch@) == spec_drained(old(self)@, old(self).spec_delta(), now),
            final(self)@ == spec_kept(old(self)@, old(self).spec_delta(), now),
            final(self).spec_delta() == old(self).spec_delta(),
            final(self).spec_event_this_sec() == old(self).spec_event_this_sec(),
            final(self).spec_latest_event_per_sec() == old(self).spec_latest_event_per_sec(),
            final(self).spec_latest_batch_per_sec() == old(self).spec_latest_batch_per_sec(),
            batch@.len() == 0 ==> final(self).spec_batch_this_sec() == old(
                self,
            ).spec_batch_this_sec() && final(self).spec_total_sent() == old(self).spec_total_sent()
                && final(self).spec_total_processed() == old(self).spec_total_processed(),
            batch@.len() > 0 ==> final(self).spec_batch_this_sec() == i64_specs::wrapping_add(
                old(self).spec_batch_this_sec(),
                1,
            ) && final(self).spec_total_sent() == i64_specs::wrapping_add(
                old(self).spec_total_sent(),
                metrics_count(events_view(batch@)),
            ) && final(self).spec_total_processed() == final(self).spec_total_sent(),
    {
        let ghost orig = self@;
        let ghost delta_g = self.delta;
        let mut batch: Vec<SensorEvent> = Vec::new();
        let mut total: i64 = 0;
        if self.delta == 0 {
            if self.records.len() == 0 {
                proof {
                    assert(events_view(batch@) =~= spec_drained(orig, delta_g, now));
                    assert(orig =~= spec_kept(orig, delta_g, now));
                }
                return batch;
            }
            let mut recs: Vec<SensorEventRecord> = Vec::new();
            core::mem::swap(&mut self.records, &mut recs);
            proof {
                assert(self@ =~= Seq::<SensorEventRecordView>::empty());
                assert(records_view(recs@) == orig);
            }
            let ghost rvec0 = recs@;
            let ghost mut k: int = 0;
            while recs.len() > 0
                invariant
                    0 <= k <= rvec0.len(),
                    records_view(rvec0) == orig,
                    recs@ == rvec0.skip(k),
                    events_view(batch@) == payloads_of(orig.take(k)),
                    total == metrics_count(payloads_of(orig.take(k))),
                decreases recs.len(),
            {
                let ghost pre = recs@;
                let ghost pre_batch = batch@;
                let rec = recs.remove(0);
                proof {
                    assert(rec == rvec0.skip(k)[0]);
                    assert(rvec0.skip(k)[0] == rvec0[k]);
                    assert(rec@ == records_view(rvec0)[k]);
                    assert(rec@ == orig[k]);
                }
                total = total.wrapping_add(
                    #[verifier::truncate] (rec.payload.metrics.len() as i64),
                );
                batch.push(rec.payload);
                proof {
                    assert(recs@ == pre.remove(0));
                    assert(recs@ =~= rvec0.skip(k + 1));
                    let p0 = payloads_of(orig.take(k));
                    let p1 = payloads_of(orig.take(k + 1));
                    assert(p1.drop_last() =~= p0);
                    assert(orig.take(k + 1)[k] == orig[k]);
                    assert(p1.last() == orig[k].payload);
                    assert(rec.payload@ == orig[k].payload);
                    assert(batch@ == pre_batch.push(rec.payload));
                    assert(events_view(pre_batch) == p0);
                    assert forall|j: int| 0 <= j < batch@.len() implies events_view(batch@)[j]
                        == p1[j] by {
                        assert(events_view(batch@)[j] == batch@[j]@);
                        if j < pre_batch.len() {
                            assert(batch@[j] == pre_batch[j]);
                            assert(events_view(pre_batch)[j] == pre_batch[j]@);
                            assert(p0[j] == orig.take(k)[j].payload);
                            assert(p1[j] == orig.take(k + 1)[j].payload);
                            assert(orig.take(k)[j] == orig[j]);
                            assert(orig.take(k + 1)[j] == orig[j]);
                        } else {
                            assert(batch@[j] == rec.payload);
                            assert(p1[j] == orig.take(k + 1)[k].payload);
                        }
                    }
                    assert(events_view(batch@) =~= p1);
                    assert(metrics_count(p1) == i64_specs::wrapping_add(
                        metrics_count(p0),
                        orig[k].payload.metrics.len() as i64,
                    ));
                    assert(rec.payload.metrics@.len() == orig[k].payload.metrics.len());
                    k = k + 1;
                }
            }
            proof {
                assert(rvec0.skip(k).len() == 0);
                assert(k == rvec0.len());
                assert(rvec0.len() == orig.len());
                assert(orig.take(k) =~= orig);
                assert(events_view(batch@) == spec_drained(orig, delta_g, now));
                assert(self@ =~= spec_kept(orig, delta_g, now));
            }
        } else {
            let ghost readyp = ready_fn(delta_g, now);
            let ghost keptp = kept_fn(delta_g, now);
            let ghost mut k: int = 0;
            let mut i: usize = 0;
            while i < self.records.len()
                invariant
                    old(self).wf(),
                    records_view(old(self).records@) == orig,
                    hashes_unique(orig),
                    self.delta == delta_g,
                    delta_g > 0,
                    readyp == ready_fn(delta_g, now),
                    keptp == kept_fn(delta_g, now),
                    0 <= k <= orig.len(),
                    self@ == orig.take(k).filter(keptp) + orig.skip(k),
                    i as int == orig.take(k).filter(keptp).len(),
                    events_view(batch@) == payloads_of(orig.take(k).filter(readyp)),
                    total == metrics_count(payloads_of(orig.take(k).filter(readyp))),
                    self.spec_event_this_sec() == old(self).spec_event_this_sec(),
                    self.spec_latest_event_per_sec() == old(self).spec_latest_event_per_sec(),
                    self.spec_latest_batch_per_sec() == old(self).spec_latest_batch_per_sec(),
                    self.spec_batch_this_sec() == old(self).spec_batch_this_sec(),
                    self.spec_total_sent() == old(self).spec_total_sent(),
                    self.spec_total_processed() == old(self).spec_total_processed(),
                decreases orig.len() - k,
            {
                let ghost kept_k = orig.take(k).filter(keptp);
                proof {
                    assert(self@.len() == kept_k.len() + orig.skip(k).len());
                    assert(orig.skip(k).len() > 0);
                    assert(self@[i as int] == (kept_k + orig.skip(k))[i as int]);
                    assert((kept_k + orig.skip(k))[i as int] == orig.skip(k)[0]);
                    assert(orig.skip(k)[0] == orig[k]);
                    assert(orig.take(k + 1) =~= orig.take(k) + seq![orig[k]]);
                    lemma_filter_step(orig.take(k), orig[k], readyp);
                    lemma_filter_step(orig.take(k), orig[k], keptp);
                }
                let rec_updated = self.records[i].updated_at;
                proof {
                    assert(self.records@[i as int]@ == self@[i as int]);
                    assert(rec_updated == orig[k].updated_at);
                }
                let ready = (now as i128) > (rec_updated as i128) + (self.delta as i128);
                proof {
                    assert(ready == spec_ready(orig[k], delta_g, now));
                    assert(readyp(orig[k]) == spec_ready(orig[k], delta_g, now));
                    assert(keptp(orig[k]) == !spec_ready(orig[k], delta_g, now));
                }
                if ready {
                    let ghost pre = self.records@;
                    let ghost pre_batch = batch@;
                    let rec = self.records.remove(i);
                    proof {
                        assert(rec == pre[i as int]);
                        assert(rec@ == orig[k]);
                    }
                    total = total.wrapping_add(
                        #[verifier::truncate] (rec.payload.metrics.len() as i64),
                    );
                    batch.push(rec.payload);
                    proof {
                        assert(orig.take(k + 1).filter(keptp) == kept_k);
                        assert(self.records@ == pre.remove(i as int));
                        assert forall|j: int|
                            0 <= j < self@.len() implies self@[j] == (orig.take(k + 1).filter(
                            keptp,
                        ) + orig.skip(k + 1))[j] by {
                            assert(self@[j] == self.records@[j]@);
                            if j < i as int {
                                assert(pre.remove(i as int)[j] == pre[j]);
                                assert(self@[j] == (kept_k + orig.skip(k))[j]);
                                assert((kept_k + orig.skip(k))[j] == kept_k[j]);
                            } else {
                                assert(pre.remove(i as int)[j] == pre[j + 1]);
                                assert(pre[j + 1]@ == (kept_k + orig.skip(k))[j + 1]);
                                assert((kept_k + orig.skip(k))[j + 1] == orig.skip(k)[j + 1
                                    - kept_k.len()]);
                                assert(orig.skip(k)[j + 1 - kept_k.len()] == orig[k + j + 1
                                    - kept_k.len()]);
                                assert(orig.skip(k + 1)[j - kept_k.len()] == orig[k + 1 + j
                                    - kept_k.len()]);
                            }
                        }
                        assert(self@ =~= orig.take(k + 1).filter(keptp) + orig.skip(k + 1));
                        let d0 = payloads_of(orig.take(k).filter(readyp));
                        let d1 = payloads_of(orig.take(k + 1).filter(readyp));
                        assert(orig.take(k + 1).filter(readyp) == orig.take(k).filter(readyp)
                            + seq![orig[k]]);
                        assert(d1.drop_last() =~= d0);
                        assert(d1.last() == orig[k].payload);
                        assert(batch@ == pre_batch.push(rec.payload));
                        assert(rec.payload@ == orig[k].payload);
                        assert(events_view(pre_batch) == d0);
                        assert forall|j: int| 0 <= j < batch@.len() implies events_view(batch@)[j]
                            == d1[j] by {
                            assert(events_view(batch@)[j] == batch@[j]@);
                            let f1 = orig.take(k + 1).filter(readyp);
                            let f0 = orig.take(k).filter(readyp);
                            assert(d1[j] == f1[j].payload);
                            if j < pre_batch.len() {
                                assert(batch@[j] == pre_batch[j]);
                                assert(events_view(pre_batch)[j] == pre_batch[j]@);
                                assert(d0[j] == f0[j].payload);
                                assert(f1[j] == (f0 + seq![orig[k]])[j]);
                                assert(f1[j] == f0[j]);
                            } else {
                                assert(batch@[j] == rec.payload);
                                assert(f1[j] == (f0 + seq![orig[k]])[j]);
                                assert(f1[j] == orig[k]);
                            }
                        }
                        assert(events_view(batch@) =~= d1);
                        assert(metrics_count(d1) == i64_specs::wrapping_add(
                            metrics_count(d0),
                            orig[k].payload.metrics.len() as i64,
                        ));
                        assert(rec.payload.metrics@.len() == orig[k].payload.metrics.len());
                        k = k + 1;
                    }
                } else {
                    i = i + 1;
                    proof {
                        assert(orig.take(k + 1).filter(readyp) == orig.take(k).filter(readyp));
                        assert(orig.take(k + 1).filter(keptp) == kept_k + seq![orig[k]]);
                        assert forall|j: int|
                            0 <= j < self@.len() implies self@[j] == (orig.take(k + 1).filter(
                            keptp,
                        ) + orig.skip(k + 1))[j] by {
                            if j < kept_k.len() {
                                assert(self@[j] == (kept_k + orig.skip(k))[j]);
                            } else if j == kept_k.len() {
                                assert(self@[j] == (kept_k + orig.skip(k))[j]);
                                assert((kept_k + orig.skip(k))[j] == orig.skip(k)[0]);
                                assert((kept_k + seq![orig[k]] + orig.skip(k + 1))[j] == orig[k]);
                            } else {
                                assert(self@[j] == (kept_k + orig.skip(k))[j]);
                                assert((kept_k + orig.skip(k))[j] == orig.skip(k)[j
                                    - kept_k.len()]);
                                assert(orig.skip(k)[j - kept_k.len()] == orig[k + j
                                    - kept_k.len()]);
                                assert((kept_k + seq![orig[k]] + orig.skip(k + 1))[j]
                                    == orig.skip(k + 1)[j - kept_k.len() - 1]);
                                assert(orig.skip(k + 1)[j - kept_k.len() - 1] == orig[k + j
                                    - kept_k.len()]);
                            }
                        }
                        assert(self@ =~= orig.take(k + 1).filter(keptp) + orig.skip(k + 1));
                        k = k + 1;
                    }
                }
            }
            proof {
                assert(self@.len() == orig.take(k).filter(keptp).len() + orig.skip(k).len());
                assert(orig.skip(k).len() == 0);
                assert(k == orig.len());
                assert(orig.take(k) =~= orig);
                assert(self@ =~= spec_kept(orig, delta_g, now));
                assert(events_view(batch@) == spec_drained(orig, delta_g, now));
                lemma_filter_keeps_unique(orig, keptp);
            }
        }
        if batch.len() > 0 {
            self.batch_this_sec = self.batch_this_sec.wrapping_add(1);
            self.total_sent_events = self.total_sent_events.wrapping_add(total);
            self.total_processed_events = self.total_sent_events;
        }
        batch
    }

    /// Drains at the current wall-clock second. In immediate mode the yield
    /// and the emptied queue do not depend on the clock; in windowed mode
    /// the transition is `spec_drained` / `spec_kept` at the one clock read.
    pub fn process_batch(&mut self) -> (batch: Vec<SensorEvent>)
        requires
            old(self).wf(),
        ensures
            final(self).wf(),
            exists|t: i64|
                t >= 0 && events_view(batch@) == spec_drained(
                    old(self)@,
                    old(self).spec_delta(),
                    t,
                ) && final(self)@ == spec_kept(old(self)@, old(self).spec_delta(), t),
            old(self).spec_delta() == 0 ==> final(self)@ == Seq::<SensorEventRecordView>::empty()
                && events_view(batch@) == payloads_of(old(self)@),
            final(self).spec_delta() == old(self).spec_delta(),
            final(self).spec_event_this_sec() == old(self).spec_event_this_sec(),
            final(self).spec_latest_event_per_sec() == old(self).spec_latest_event_per_sec(),
            final(self).spec_latest_batch_per_sec() == old(self).spec_latest_batch_per_sec(),
            batch@.len() == 0 ==> final(self).spec_batch_this_sec() == old(
                self,
            ).spec_batch_this_sec() && final(self).spec_total_sent() == old(self).spec_total_sent()
                && final(self).spec_total_processed() == old(self).spec_total_processed(),
            batch@.len() > 0 ==> final(self).spec_batch_this_sec() == i64_specs::wrapping_add(
                old(self).spec_batch_this_sec(),
                1,
            ) && final(self).spec_total_sent() == i64_specs::wrapping_add(
                old(self).spec_total_sent(),
                metrics_count(events_view(batch@)),
            ) && final(self).spec_total_processed() == final(self).spec_total_sent(),
    {
        let ghost orig = self@;
        let ghost d = self.delta;
        let now = unix_now();
        let batch = self.process_batch_at(now);
        proof {
            assert(now >= 0 && events_view(batch@) == spec_drained(orig, d, now) && self@
                == spec_kept(orig, d, now));
        }
        batch
    }

    /// The per-second tick: snapshots the event and batch counters and
    /// resets them.
    pub fn update_metrics(&mut self)
        ensures
            final(self).spec_latest_event_per_sec() == old(self).spec_event_this_sec(),
            final(self).spec_event_this_sec() == 0,
            final(self).spec_latest_batch_per_sec() == old(self).spec_batch_this_sec(),
            final(self).spec_batch_this_sec() == 0,
            final(self)@ == old(self)@,
            final(self).wf() == old(self).wf(),
            final(self).spec_delta() == old(self).spec_delta(),
            final(self).spec_total_sent() == old(self).spec_total_sent(),
            final(self).spec_total_processed() == old(self).spec_total_processed(),
    {
        self.latest_event_per_sec = self.event_this_sec;
        self.event_this_sec = 0;
        self.latest_batch_per_sec = self.batch_this_sec;
        self.batch_this_sec = 0;
    }

    /// Events added during the last completed second.
    pub fn get_event_processed_per_second(&self) -> (r: i64)
        ensures
            r == self.spec_latest_event_per_sec(),
    {
        self.latest_event_per_sec
    }

    /// Batches drained during the last completed second.
    pub fn get_event_batch_sent_per_second(&self) -> (r: i64)
        ensures
            r == self.spec_latest_batch_per_sec(),
    {
        self.latest_batch_per_sec
    }

    /// Running total of metric rows drained.
    pub fn get_total_sent_events(&self) -> (r: i64)
        ensures
            r == self.spec_total_sent(),
    {
        self.total_sent_events
    }

    /// Mirror of the sent total, refreshed on every non-empty drain.
    pub fn get_total_processed_events(&self) -> (r: i64)
        ensures
            r == self.spec_total_processed(),
    {
        self.total_processed_events
    }

    /// The number of pending records.
    pub fn get_queue_size(&self) -> (r: usize)
        ensures
            r == self@.len(),
    {
        self.records.len()
    }
}

/// The hashes of a sequence of events, in order.
pub open spec fn hashes_of_events(s: Seq<SensorEventView>) -> Seq<Seq<char>> {
    s.map_values(|e: SensorEventView| e.event_hash_sha256)
}

/// When some record at index `i` already carries the event's hash, `add`
/// merges onto exactly that record.
pub proof fn lemma_spec_add_merges(
    s: Seq<SensorEventRecordView>,
    ev: SensorEventView,
    now: i64,
    i: int,
)
    requires
        hashes_unique(s),
        0 <= i < s.len(),
        rec_hash(s[i]) == ev.event_hash_sha256,
    ensures
        spec_add(s, ev, now) == s.update(i, merge_record(s[i], ev, now)),
{
    assert(has_hash(s, ev.event_hash_sha256));
    let ci = choose|i: int|
        0 <= i < s.len() && rec_hash(#[trigger] s[i]) == ev.event_hash_sha256;
    assert(rec_hash(s[ci]) == ev.event_hash_sha256);
    assert(ci == i);
}

/// Appending a record with a hash nobody carries keeps the hashes pairwise
/// distinct.
pub proof fn lemma_push_fresh_unique(s: Seq<SensorEventRecordView>, r: SensorEventRecordView)
    requires
        hashes_unique(s),
        !has_hash(s, rec_hash(r)),
    ensures
        hashes_unique(s.push(r)),
{
    let g = s.push(r);
    assert forall|a: int, b: int|
        #![trigger rec_hash(g[a]), rec_hash(g[b])]
        0 <= a < b < g.len() implies rec_hash(g[a]) != rec_hash(g[b]) by {
        if b < s.len() {
            assert(g[a] == s[a]);
            assert(g[b] == s[b]);
            assert(rec_hash(s[a]) != rec_hash(s[b]));
        } else {
            assert(g[a] == s[a]);
            assert(g[b] == r);
            if rec_hash(s[a]) == rec_hash(r) {
                assert(has_hash(s, rec_hash(r)));
            }
        }
    }
}

/// Coalescing, starting from a hash nobody carries: after `add; add` with
/// equal hashes the queue holds one new record whose metric rows are the two
/// events' rows in insertion order, created at the first insert and updated
/// at the second — so `updated_at >= created_at` whenever the clock did not
/// go backwards between the two inserts.
pub proof fn lemma_coalesce_fresh(
    q: Seq<SensorEventRecordView>,
    e1: SensorEventView,
    e2: SensorEventView,
    t1: i64,
    t2: i64,
)
    requires
        hashes_unique(q),
        !has_hash(q, e1.event_hash_sha256),
        e2.event_hash_sha256 == e1.event_hash_sha256,
        t1 <= t2,
    ensures
        spec_add(spec_add(q, e1, t1), e2, t2).len() == q.len() + 1,
        spec_add(spec_add(q, e1, t1), e2, t2)[q.len() as int].payload.metrics == e1.metrics
            + e2.metrics,
        spec_add(spec_add(q, e1, t1), e2, t2)[q.len() as int].payload.event_hash_sha256
            == e1.event_hash_sha256,
        spec_add(spec_add(q, e1, t1), e2, t2)[q.len() as int].created_at == t1,
        spec_add(spec_add(q, e1, t1), e2, t2)[q.len() as int].updated_at == t2,
        spec_add(spec_add(q, e1, t1), e2, t2)[q.len() as int].updated_at >= spec_add(
            spec_add(q, e1, t1),
            e2,
            t2,
        )[q.len() as int].created_at,
{
    let r1 = SensorEventRecordView { payload: e1, created_at: t1, updated_at: t1 };
    let q1 = spec_add(q, e1, t1);
    assert(q1 == q.push(r1));
    lemma_push_fresh_unique(q, r1);
    assert(rec_hash(q1[q.len() as int]) == e2.event_hash_sha256);
    lemma_spec_add_merges(q1, e2, t2, q.len() as int);
    let q2 = spec_add(q1, e2, t2);
    assert(q2 == q1.update(q.len() as int, merge_record(r1, e2, t2)));
    assert(q2[q.len() as int] == merge_record(r1, e2, t2));
}

/// Coalescing onto a record already held: after `add; add` with its hash the
/// record has both events' metric rows appended in insertion order, its
/// creation time unchanged and its update time that of the second insert.
pub proof fn lemma_coalesce_existing(
    q: Seq<SensorEventRecordView>,
    i: int,
    e1: SensorEventView,
    e2: SensorEventView,
    t1: i64,
    t2: i64,
)
    requires
        hashes_unique(q),
        0 <= i < q.len(),
        rec_hash(q[i]) == e1.event_hash_sha256,
        e2.event_hash_sha256 == e1.event_hash_sha256,
        q[i].created_at <= t2,
    ensures
        spec_add(spec_add(q, e1, t1), e2, t2).len() == q.len(),
        spec_add(spec_add(q, e1, t1), e2, t2)[i].payload.metrics == q[i].payload.metrics
            + e1.metrics + e2.metrics,
        spec_add(spec_add(q, e1, t1), e2, t2)[i].created_at == q[i].created_at,
        spec_add(spec_add(q, e1, t1), e2, t2)[i].updated_at == t2,
        spec_add(spec_add(q, e1, t1), e2, t2)[i].updated_at >= spec_add(
            spec_add(q, e1, t1),
            e2,
            t2,
        )[i].created_at,
{
    lemma_spec_add_merges(q, e1, t1, i);
    let m1 = merge_record(q[i], e1, t1);
    let q1 = spec_add(q, e1, t1);
    assert(q1 == q.update(i, m1));
    assert(hashes_unique(q1)) by {
        assert forall|a: int, b: int|
            #![trigger rec_hash(q1[a]), rec_hash(q1[b])]
            0 <= a < b < q1.len() implies rec_hash(q1[a]) != rec_hash(q1[b]) by {
            assert(rec_hash(q1[a]) == rec_hash(q[a]));
            assert(rec_hash(q1[b]) == rec_hash(q[b]));
            assert(rec_hash(q[a]) != rec_hash(q[b]));
        }
    }
    assert(rec_hash(q1[i]) == e2.event_hash_sha256);
    lemma_spec_add_merges(q1, e2, t2, i);
    let q2 = spec_add(q1, e2, t2);
    assert(q2[i] == merge_record(q1[i], e2, t2));
    assert(q2[i].payload.metrics =~= q[i].payload.metrics + e1.metrics + e2.metrics);
}

/// An `add` followed by an immediate-mode drain yields exactly what was
/// inserted: the drain leaves nothing behind, and the multiset of drained
/// hashes is the queue's — with the added event's hash joining it when no
/// record carried that hash yet, and already counted once when one did (the
/// duplicate was merged, not duplicated).
pub proof fn lemma_add_then_immediate_drain(
    q: Seq<SensorEventRecordView>,
    e: SensorEventView,
    t1: i64,
    t2: i64,
)
    requires
        hashes_unique(q),
    ensures
        spec_kept(spec_add(q, e, t1), 0, t2) == Seq::<SensorEventRecordView>::empty(),
        hashes_of_events(spec_drained(spec_add(q, e, t1), 0, t2)).to_multiset() == if has_hash(
            q,
            e.event_hash_sha256,
        ) {
            hashes_of(q).to_multiset()
        } else {
            hashes_of(q).to_multiset().insert(e.event_hash_sha256)
        },
        hashes_of_events(spec_drained(spec_add(q, e, t1), 0, t2)).to_multiset().count(
            e.event_hash_sha256,
        ) > 0,
{
    broadcast use vstd::seq_lib::group_to_multiset_ensures;

    let q2 = spec_add(q, e, t1);
    let drained = spec_drained(q2, 0, t2);
    assert(drained == payloads_of(q2));
    assert(hashes_of_events(drained) =~= hashes_of(q2)) by {
        assert forall|j: int| 0 <= j < q2.len() implies hashes_of_events(payloads_of(q2))[j]
            == hashes_of(q2)[j] by {
            assert(payloads_of(q2)[j] == q2[j].payload);
        }
    }
    let h = e.event_hash_sha256;
    if has_hash(q, h) {
        let ci = choose|i: int| 0 <= i < q.len() && rec_hash(#[trigger] q[i]) == h;
        assert(q2 == q.update(ci, merge_record(q[ci], e, t1)));
        assert(hashes_of(q2) =~= hashes_of(q)) by {
            assert forall|j: int| 0 <= j < q.len() implies hashes_of(q2)[j] == hashes_of(q)[j] by {
                if j == ci {
                    assert(q2[j] == merge_record(q[ci], e, t1));
                    assert(rec_hash(q2[j]) == rec_hash(q[j]));
                } else {
                    assert(q2[j] == q[j]);
                }
            }
        }
        assert(hashes_of(q)[ci] == h);
        assert(hashes_of(q).contains(h));
        assert(hashes_of(q).to_multiset().count(h) > 0);
    } else {
        let r = SensorEventRecordView { payload: e, created_at: t1, updated_at: t1 };
        assert(q2 == q.push(r));
        assert(hashes_of(q2) =~= hashes_of(q).push(h)) by {
            assert forall|j: int| 0 <= j < q2.len() implies hashes_of(q2)[j] == hashes_of(q).push(
                h,
            )[j] by {
                if j < q.len() {
                    assert(q2[j] == q[j]);
                } else {
                    assert(q2[j] == r);
                }
            }
        }
        assert(hashes_of(q).push(h).to_multiset() =~= hashes_of(q).to_multiset().insert(h));
    }
}

/// After a drain, the hash of every returned event is absent from what the
/// queue kept: a record is yielded or retained, never both.
pub proof fn lemma_drain_removes_returned(s: Seq<SensorEventRecordView>, delta: u64, now: i64)
    requires
        hashes_unique(s),
    ensures
        forall|i: int|
            0 <= i < spec_drained(s, delta, now).len() ==> !has_hash(
                spec_kept(s, delta, now),
                #[trigger] spec_drained(s, delta, now)[i].event_hash_sha256,
            ),
{
    broadcast use vstd::seq_lib::group_filter_ensures;

    let d = spec_drained(s, delta, now);
    let kept = spec_kept(s, delta, now);
    if delta == 0 {
        assert forall|i: int| 0 <= i < d.len() implies !has_hash(
            kept,
            #[trigger] d[i].event_hash_sha256,
        ) by {
            assert(kept.len() == 0);
        }
    } else {
        let fr = s.filter(ready_fn(delta, now));
        lemma_filter_subset(s, ready_fn(delta, now));
        lemma_filter_subset(s, kept_fn(delta, now));
        assert forall|i: int| 0 <= i < d.len() implies !has_hash(
            kept,
            #[trigger] d[i].event_hash_sha256,
        ) by {
            assert(d[i] == fr[i].payload);
            if has_hash(kept, d[i].event_hash_sha256) {
                let j = choose|j: int|
                    0 <= j < kept.len() && rec_hash(#[trigger] kept[j]) == d[i].event_hash_sha256;
                assert(ready_fn(delta, now)(fr[i]));
                assert(kept_fn(delta, now)(kept[j]));
                assert(fr.contains(fr[i]));
                assert(s.contains(fr[i]));
                assert(kept.contains(kept[j]));
                assert(s.contains(kept[j]));
                let m = choose|m: int| 0 <= m < s.len() && s[m] == fr[i];
                let n = choose|n: int| 0 <= n < s.len() && s[n] == kept[j];
                assert(rec_hash(s[m]) == rec_hash(s[n]));
                assert(m == n);
                assert(spec_ready(fr[i], delta, now) && !spec_ready(kept[j], delta, now));
            }
        }
    }
}

/// `add` hands out only well-formed content hashes: when every record's hash
/// has the 64-digit lowercase hex shape and the inserted event's does too,
/// every record after the insert still does.
pub proof fn lemma_add_keeps_hashes_wellformed(
    q: Seq<SensorEventRecordView>,
    e: SensorEventView,
    t: i64,
)
    requires
        forall|i: int| 0 <= i < q.len() ==> hash_wf(rec_hash(#[trigger] q[i])),
        hash_wf(e.event_hash_sha256),
    ensures
        forall|i: int|
            0 <= i < spec_add(q, e, t).len() ==> hash_wf(rec_hash(#[trigger] spec_add(q, e, t)[i])),
{
    let q2 = spec_add(q, e, t);
    if has_hash(q, e.event_hash_sha256) {
        let ci = choose|i: int| 0 <= i < q.len() && rec_hash(#[trigger] q[i]) == e.event_hash_sha256;
        assert(q2 == q.update(ci, merge_record(q[ci], e, t)));
        assert forall|i: int| 0 <= i < q2.len() implies hash_wf(rec_hash(#[trigger] q2[i])) by {
            if i == ci {
                assert(rec_hash(q2[i]) == rec_hash(q[ci]));
            } else {
                assert(q2[i] == q[i]);
            }
        }
    } else {
        assert forall|i: int| 0 <= i < q2.len() implies hash_wf(rec_hash(#[trigger] q2[i])) by {
            if i < q.len() {
                assert(q2[i] == q[i]);
            } else {
                assert(rec_hash(q2[i]) == e.event_hash_sha256);
            }
        }
    }
}

/// A drain emits only events taken from the queue's records: when every
/// record's hash has the 64-digit lowercase hex shape, so has every drained
/// event's.
pub proof fn lemma_drained_hashes_wellformed(s: Seq<SensorEventRecordView>, delta: u64, now: i64)
    requires
        forall|i: int| 0 <= i < s.len() ==> hash_wf(rec_hash(#[trigger] s[i])),
    ensures
        forall|i: int|
            0 <= i < spec_drained(s, delta, now).len() ==> hash_wf(
                #[trigger] spec_drained(s, delta, now)[i].event_hash_sha256,
            ),
{
    let d = spec_drained(s, delta, now);
    if delta == 0 {
        assert forall|i: int| 0 <= i < d.len() implies hash_wf(
            #[trigger] d[i].event_hash_sha256,
        ) by {
            assert(d[i] == s[i].payload);
        }
    } else {
        let f = s.filter(ready_fn(delta, now));
        lemma_filter_subset(s, ready_fn(delta, now));
        assert forall|i: int| 0 <= i < d.len() implies hash_wf(
            #[trigger] d[i].event_hash_sha256,
        ) by {
            assert(d[i] == f[i].payload);
            assert(f.contains(f[i]));
            assert(s.contains(f[i]));
            let m = choose|m: int| 0 <= m < s.len() && s[m] == f[i];
            assert(hash_wf(rec_hash(s[m])));
        }
    }
}

proof fn lemma_filter_subset(
    s: Seq<SensorEventRecordView>,
    p: spec_fn(SensorEventRecordView) -> bool,
)
    ensures
        forall|x: SensorEventRecordView| s.filter(p).contains(x) ==> s.contains(x),
    decreases s.len(),
{
    reveal(Seq::filter);
    if s.len() > 0 {
        let init = s.drop_last();
        lemma_filter_subset(init, p);
        assert forall|x: SensorEventRecordView| s.filter(p).contains(x) implies s.contains(x) by {
            let g = s.filter(p);
            let m = choose|m: int| 0 <= m < g.len() && g[m] == x;
            if p(s.last()) {
                assert(g == init.filter(p).push(s.last()));
                if m < init.filter(p).len() {
                    assert(init.filter(p).contains(x));
                    assert(init.contains(x));
                    let n = choose|n: int| 0 <= n < init.len() && init[n] == x;
                    assert(s[n] == x);
                } else {
                    assert(s[s.len() - 1] == x);
                }
            } else {
                assert(g == init.filter(p));
                assert(init.contains(x));
                let n = choose|n: int| 0 <= n < init.len() && init[n] == x;
                assert(s[n] == x);
            }
        }
    }
}

proof fn lemma_filter_step(
    s: Seq<SensorEventRecordView>,
    x: SensorEventRecordView,
    p: spec_fn(SensorEventRecordView) -> bool,
)
    ensures
        (s + seq![x]).filter(p) == if p(x) {
            s.filter(p) + seq![x]
        } else {
            s.filter(p)
        },
{
    reveal(Seq::filter);
    let sx = s + seq![x];
    assert(sx.drop_last() =~= s);
    assert(sx.last() == x);
    if p(x) {
        assert(sx.filter(p) =~= s.filter(p) + seq![x]);
    } else {
        assert(sx.filter(p) == s.filter(p));
    }
}

proof fn lemma_filter_keeps_unique(
    s: Seq<SensorEventRecordView>,
    p: spec_fn(SensorEventRecordView) -> bool,
)
    requires
        hashes_unique(s),
    ensures
        hashes_unique(s.filter(p)),
        forall|x: SensorEventRecordView| s.filter(p).contains(x) ==> s.contains(x),
    decreases s.len(),
{
    reveal(Seq::filter);
    if s.len() > 0 {
        let init = s.drop_last();
        assert(hashes_unique(init)) by {
            assert forall|a: int, b: int|
                #![trigger rec_hash(init[a]), rec_hash(init[b])]
                0 <= a < b < init.len() implies rec_hash(init[a]) != rec_hash(init[b]) by {
                assert(init[a] == s[a]);
                assert(init[b] == s[b]);
                assert(rec_hash(s[a]) != rec_hash(s[b]));
            }
        }
        lemma_filter_keeps_unique(init, p);
        let f = init.filter(p);
        assert forall|x: SensorEventRecordView| init.contains(x) implies s.contains(x) by {
            let m = choose|m: int| 0 <= m < init.len() && init[m] == x;
            assert(s[m] == x);
        }
        if p(s.last()) {
            let g = f.push(s.last());
            assert(s.filter(p) == g);
            assert forall|a: int| 0 <= a < f.len() implies rec_hash(f[a]) != rec_hash(
                s.last(),
            ) by {
                assert(f.contains(f[a]));
                assert(init.contains(f[a]));
                let m = choose|m: int| 0 <= m < init.len() && init[m] == f[a];
                assert(rec_hash(s[m]) != rec_hash(s[s.len() - 1]));
            }
            assert forall|a: int, b: int|
                #![trigger rec_hash(g[a]), rec_hash(g[b])]
                0 <= a < b < g.len() implies rec_hash(g[a]) != rec_hash(g[b]) by {
                if b < f.len() {
                    assert(g[a] == f[a]);
                    assert(g[b] == f[b]);
                    assert(rec_hash(f[a]) != rec_hash(f[b]));
                } else {
                    assert(g[a] == f[a]);
                    assert(g[b] == s.last());
                }
            }
            assert forall|x: SensorEventRecordView| g.contains(x) implies s.contains(x) by {
                let m = choose|m: int| 0 <= m < g.len() && g[m] == x;
                if m < f.len() {
                    assert(f.contains(x));
                } else {
                    assert(s[s.len() - 1] == x);
                }
            }
        } else {
            assert(s.filter(p) == f);
        }
    }
}

} // verus!
