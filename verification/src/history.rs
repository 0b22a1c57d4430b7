//! The mathematical model of the bounded history: an oldest-first sequence
//! of samples and the greatest length it may reach.

use vstd::prelude::*;
use crate::data::WeatherData;
use crate::fixed::MILLIS_PER_HOUR;

verus! {

/// What a history holds, oldest sample first, and how many it may hold.
pub struct HistoryModel {
    pub samples: Seq<WeatherData>,
    pub capacity: nat,
}

/// The instant `hours` before `now`, in milliseconds since the epoch.
pub open spec fn cutoff(now: i64, hours: u32) -> int {
    now - hours * MILLIS_PER_HOUR
}

/// The samples of `s` stamped strictly after `cutoff`, in their order.
pub open spec fn newer_than(s: Seq<WeatherData>, cutoff: int) -> Seq<WeatherData> {
    s.filter(|d: WeatherData| d.timestamp > cutoff)
}

/// The samples that a sequence of references points to.
pub open spec fn pointees(refs: Seq<&WeatherData>) -> Seq<WeatherData> {
    refs.map_values(|r: &WeatherData| *r)
}

/// Whether no sample is stamped earlier than one before it.
pub open spec fn chronological(s: Seq<WeatherData>) -> bool {
    forall|i: int, j: int| 0 <= i <= j < s.len() ==> s[i].timestamp <= s[j].timestamp
}

/// The last `n` samples of `s`, or all of `s` where it has no more than `n`.
pub open spec fn newest(s: Seq<WeatherData>, n: nat) -> Seq<WeatherData> {
    if s.len() <= n {
        s
    } else {
        s.subrange(s.len() - n, s.len() as int)
    }
}

impl HistoryModel {
    /// The history never holds more than its capacity.
    pub open spec fn wf(self) -> bool {
        self.samples.len() <= self.capacity
    }

    /// The history after `data` is appended: where that would exceed the
    /// capacity, the single oldest sample leaves first.
    pub open spec fn record(self, data: WeatherData) -> HistoryModel {
        let appended = self.samples.push(data);
        HistoryModel {
            samples: if appended.len() > self.capacity {
                appended.drop_first()
            } else {
                appended
            },
            capacity: self.capacity,
        }
    }

    /// The history after each sample of `items` is recorded in turn.
    pub open spec fn record_all(self, items: Seq<WeatherData>) -> HistoryModel
        decreases items.len(),
    {
        if items.len() == 0 {
            self
        } else {
            self.record_all(items.drop_last()).record(items.last())
        }
    }

    /// The most recently recorded sample, if there is one.
    pub open spec fn latest(self) -> Option<WeatherData> {
        if self.samples.len() == 0 {
            None
        } else {
            Some(self.samples.last())
        }
    }

    /// The samples stamped within the `hours` before `now`, oldest first.
    pub open spec fn range_at(self, now: i64, hours: u32) -> Seq<WeatherData> {
        newer_than(self.samples, cutoff(now, hours))
    }
}

/// Whether `r` is the answer to "the latest sample of `h`".
pub open spec fn is_latest_of(r: Option<&WeatherData>, h: HistoryModel) -> bool {
    match r {
        Some(data) => h.latest() == Some(*data),
        None => h.latest() is None,
    }
}

/// The places in `s` of the samples stamped strictly after `limit`,
/// ascending.
pub open spec fn positions_newer_than(s: Seq<WeatherData>, limit: int) -> Seq<int>
    decreases s.len(),
{
    if s.len() == 0 {
        Seq::empty()
    } else {
        let earlier = positions_newer_than(s.drop_last(), limit);
        if s.last().timestamp > limit {
            earlier.push(s.len() - 1)
        } else {
            earlier
        }
    }
}

/// Recording into a history that is within its capacity leaves the newest
/// `capacity` of the old samples followed by the new one.
pub proof fn lemma_record_keeps_newest(h: HistoryModel, data: WeatherData)
    requires
        h.wf(),
    ensures
        h.record(data).wf(),
        h.record(data).capacity == h.capacity,
        h.record(data).samples == newest(h.samples.push(data), h.capacity),
{
    let appended = h.samples.push(data);
    if appended.len() > h.capacity {
        assert(appended.drop_first() =~= newest(appended, h.capacity));
    }
}

/// Recording a run of samples into a history that is within its capacity
/// leaves the newest `capacity` of everything it was given, in order.
pub proof fn lemma_record_all_keeps_newest(h: HistoryModel, items: Seq<WeatherData>)
    requires
        h.wf(),
    ensures
        h.record_all(items).wf(),
        h.record_all(items).capacity == h.capacity,
        h.record_all(items).samples == newest(h.samples + items, h.capacity),
    decreases items.len(),
{
    if items.len() == 0 {
        assert(h.samples + items =~= h.samples);
    } else {
        let before = h.record_all(items.drop_last());
        let all_before = h.samples + items.drop_last();
        lemma_record_all_keeps_newest(h, items.drop_last());
        lemma_record_keeps_newest(before, items.last());
        assert(all_before.push(items.last()) =~= h.samples + items);
        assert(newest(newest(all_before, h.capacity).push(items.last()), h.capacity) =~= newest(
            all_before.push(items.last()),
            h.capacity,
        ));
    }
}

/// After at least `capacity` inserts, a history holds exactly `capacity`
/// samples: the last that were inserted, in the order of insertion.
pub proof fn lemma_overfull_history_holds_last_inserts(h: HistoryModel, items: Seq<WeatherData>)
    requires
        h.wf(),
        items.len() >= h.capacity,
    ensures
        h.record_all(items).samples.len() == h.capacity,
        h.record_all(items).samples == items.subrange(
            items.len() - h.capacity,
            items.len() as int,
        ),
{
    lemma_record_all_keeps_newest(h, items);
    let all = h.samples + items;
    assert(newest(all, h.capacity) =~= items.subrange(
        items.len() - h.capacity,
        items.len() as int,
    ));
}

/// Recording a sample that is not stamped before the latest one keeps a
/// chronological history chronological.
pub proof fn lemma_record_keeps_chronological(h: HistoryModel, data: WeatherData)
    requires
        chronological(h.samples),
        h.latest() matches Some(last) ==> last.timestamp <= data.timestamp,
    ensures
        chronological(h.record(data).samples),
{
    let appended = h.samples.push(data);
    assert(chronological(appended)) by {
        assert forall|i: int, j: int| 0 <= i <= j < appended.len() implies appended[i].timestamp
            <= appended[j].timestamp by {
            if j == h.samples.len() && i < j {
                assert(h.samples[i].timestamp <= h.samples.last().timestamp);
            }
        }
    }
    let after = h.record(data).samples;
    assert forall|i: int, j: int| 0 <= i <= j < after.len() implies after[i].timestamp
        <= after[j].timestamp by {
        if appended.len() > h.capacity {
            assert(after[i] == appended[i + 1] && after[j] == appended[j + 1]);
        }
    }
}

/// The latest sample after recording is the recorded one, unless the
/// history can hold nothing.
pub proof fn lemma_latest_after_record(h: HistoryModel, data: WeatherData)
    requires
        h.wf(),
    ensures
        h.capacity > 0 ==> h.record(data).latest() == Some(data),
        h.capacity == 0 ==> h.record(data).latest() is None,
{
}

/// Two answers to "the latest sample" of one history are the same answer:
/// asking again without recording in between changes nothing.
pub proof fn lemma_latest_is_determined(
    h: HistoryModel,
    first: Option<&WeatherData>,
    second: Option<&WeatherData>,
)
    requires
        is_latest_of(first, h),
        is_latest_of(second, h),
    ensures
        first == second,
{
}

/// A range is exactly the samples stamped after the limit, each once and
/// in the history's order: it reads the history at ascending places, those
/// places are in the history, and a place is read if and only if the
/// sample there is stamped strictly after the limit.
pub proof fn lemma_range_is_exact(s: Seq<WeatherData>, limit: int)
    ensures
        positions_newer_than(s, limit).len() == newer_than(s, limit).len(),
        forall|k: int|
            0 <= k < newer_than(s, limit).len() ==> {
                &&& 0 <= #[trigger] positions_newer_than(s, limit)[k] < s.len()
                &&& newer_than(s, limit)[k] == s[positions_newer_than(s, limit)[k]]
            },
        forall|a: int, b: int|
            0 <= a < b < newer_than(s, limit).len() ==> #[trigger] positions_newer_than(
                s,
                limit,
            )[a] < #[trigger] positions_newer_than(s, limit)[b],
        forall|i: int|
            0 <= i < s.len() ==> (s[i].timestamp > limit <==> #[trigger] positions_newer_than(
                s,
                limit,
            ).contains(i)),
    decreases s.len(),
{
    reveal(Seq::filter);
    let r = newer_than(s, limit);
    let p = positions_newer_than(s, limit);
    if s.len() > 0 {
        let head = s.drop_last();
        let kept_before = newer_than(head, limit);
        let places_before = positions_newer_than(head, limit);
        lemma_range_is_exact(head, limit);
        assert forall|i: int| 0 <= i < s.len() implies (s[i].timestamp > limit <==> p.contains(
            i,
        )) by {
            if i < head.len() {
                assert(head[i] == s[i]);
                if places_before.contains(i) {
                    let k = choose|k: int| 0 <= k < places_before.len() && places_before[k] == i;
                    assert(p[k] == i);
                }
                if p.contains(i) {
                    let k = choose|k: int| 0 <= k < p.len() && p[k] == i;
                    assert(k < places_before.len());
                    assert(places_before[k] == i);
                }
            } else {
                if s.last().timestamp > limit {
                    assert(p[places_before.len() as int] == i);
                } else if p.contains(i) {
                    let k = choose|k: int| 0 <= k < p.len() && p[k] == i;
                    assert(places_before[k] < head.len());
                }
            }
        }
        assert forall|k: int| 0 <= k < r.len() implies 0 <= #[trigger] p[k] < s.len() && r[k]
            == s[p[k]] by {
            if k < kept_before.len() {
                assert(p[k] == places_before[k] && r[k] == kept_before[k]);
                assert(head[places_before[k]] == s[places_before[k]]);
            }
        }
        assert forall|a: int, b: int| 0 <= a < b < r.len() implies #[trigger] p[a]
            < #[trigger] p[b] by {
            if b < kept_before.len() {
                assert(p[a] == places_before[a] && p[b] == places_before[b]);
            } else {
                assert(p[a] == places_before[a]);
                assert(places_before[a] < head.len());
            }
        }
    }
}

/// A range of a chronological history is chronological: its stamps never
/// decrease.
pub proof fn lemma_range_is_chronological(s: Seq<WeatherData>, limit: int)
    requires
        chronological(s),
    ensures
        chronological(newer_than(s, limit)),
{
    let r = newer_than(s, limit);
    let p = positions_newer_than(s, limit);
    lemma_range_is_exact(s, limit);
    assert forall|i: int, j: int| 0 <= i <= j < r.len() implies r[i].timestamp
        <= r[j].timestamp by {
        assert(r[i] == s[p[i]] && r[j] == s[p[j]]);
        if i < j {
            assert(p[i] < p[j]);
        }
    }
}

} // verus!
