//! The per-video segment store: one fetch result classified into four
//! buckets, then queried read-only on every playback-position update.
//!
//! Classification partitions the fetched records by action, keeping the
//! arrival order inside each bucket; the point-of-interest and full-category
//! buckets keep only the first record of their action and discard the rest.

use vstd::prelude::*;

use crate::segment::{Action, Category, Segment};

verus! {

/// The records of `segs` whose action is `a`, in their original order.
pub open spec fn keep_action(segs: Seq<Segment>, a: Action) -> Seq<Segment>
    decreases segs.len(),
{
    if segs.len() == 0 {
        Seq::empty()
    } else {
        let rest = keep_action(segs.drop_last(), a);
        if segs.last().action == a {
            rest.push(segs.last())
        } else {
            rest
        }
    }
}

/// The first record of `segs` whose action is `a`, if any.
pub open spec fn first_with(segs: Seq<Segment>, a: Action) -> Option<Segment>
    decreases segs.len(),
{
    if segs.len() == 0 {
        None
    } else {
        let rest = first_with(segs.drop_last(), a);
        if rest is Some {
            rest
        } else if segs.last().action == a {
            Some(segs.last())
        } else {
            None
        }
    }
}

/// The first record of `segs` whose range contains `t`, if any.
pub open spec fn first_containing(segs: Seq<Segment>, t: u64) -> Option<Segment>
    decreases segs.len(),
{
    if segs.len() == 0 {
        None
    } else {
        let rest = first_containing(segs.drop_last(), t);
        if rest is Some {
            rest
        } else if segs.last().spec_contains_time(t) {
            Some(segs.last())
        } else {
            None
        }
    }
}

/// How many records of `segs` have action `a`.
pub open spec fn count_action(segs: Seq<Segment>, a: Action) -> nat
    decreases segs.len(),
{
    if segs.len() == 0 {
        0
    } else {
        count_action(segs.drop_last(), a) + if segs.last().action == a {
            1nat
        } else {
            0nat
        }
    }
}

/// How many times the record `x` occurs in `segs`.
pub open spec fn occ(segs: Seq<Segment>, x: Segment) -> nat
    decreases segs.len(),
{
    if segs.len() == 0 {
        0
    } else {
        occ(segs.drop_last(), x) + if segs.last() == x {
            1nat
        } else {
            0nat
        }
    }
}

/// How many times `x` occurs in an optional bucket.
pub open spec fn opt_occ(o: Option<Segment>, x: Segment) -> nat {
    match o {
        Some(s) => if s == x {
            1nat
        } else {
            0nat
        },
        None => 0,
    }
}

/// One fetch result, split by action.  Built once per video; read-only
/// afterwards.
#[derive(Clone)]
pub struct SortedSegments {
    /// All records with action `Skip`, in arrival order.
    pub skippable: Vec<Segment>,
    /// All records with action `Mute`, in arrival order.
    pub mutable: Vec<Segment>,
    /// The first record with action `Poi`, if any.
    pub poi: Option<Segment>,
    /// The first record with action `Full`, if any.
    pub full: Option<Segment>,
}

impl SortedSegments {
    /// The store is exactly the classification of `records`.
    pub open spec fn is_classification_of(self, records: Seq<Segment>) -> bool {
        &&& self.skippable@ == keep_action(records, Action::Skip)
        &&& self.mutable@ == keep_action(records, Action::Mute)
        &&& self.poi == first_with(records, Action::Poi)
        &&& self.full == first_with(records, Action::Full)
    }

    pub open spec fn is_empty(self) -> bool {
        self.skippable@.len() == 0 && self.mutable@.len() == 0 && self.poi is None
            && self.full is None
    }

    /// The skip record the position `t` falls in, if any: spec of
    /// `get_skip_segment`.
    pub open spec fn skip_segment_at(self, t: u64) -> Option<Segment> {
        first_containing(self.skippable@, t)
    }

    /// The mute record the position `t` falls in, if any: spec of
    /// `get_mute_segment`.
    pub open spec fn mute_segment_at(self, t: u64) -> Option<Segment> {
        first_containing(self.mutable@, t)
    }

    /// The highlight timestamp, if any: spec of `get_video_poi`.
    pub open spec fn point_of_interest(self) -> Option<u64> {
        match self.poi {
            Some(s) => Some(s.start),
            None => None,
        }
    }

    /// The whole-video category, if any: spec of `get_video_category`.
    pub open spec fn full_category(self) -> Option<Category> {
        match self.full {
            Some(s) => Some(s.category),
            None => None,
        }
    }

    /// The store a video starts with, before any fetch has completed.
    pub fn new() -> (r: SortedSegments)
        ensures
            r.is_empty(),
            r.is_classification_of(Seq::empty()),
    {
        SortedSegments { skippable: Vec::new(), mutable: Vec::new(), poi: None, full: None }
    }

    /// Partition one fetch result by action, preserving arrival order inside
    /// each bucket.  Only the first point-of-interest and the first
    /// full-category record are kept; later ones are discarded by design.
    pub fn classify(records: Vec<Segment>) -> (r: SortedSegments)
        ensures
            r.is_classification_of(records@),
    {
        let mut skippable: Vec<Segment> = Vec::new();
        let mut mutable: Vec<Segment> = Vec::new();
        let mut poi: Option<Segment> = None;
        let mut full: Option<Segment> = None;
        let n = records.len();
        let mut i: usize = 0;
        while i < n
            invariant
                i <= n,
                n == records@.len(),
                skippable@ == keep_action(records@.take(i as int), Action::Skip),
                mutable@ == keep_action(records@.take(i as int), Action::Mute),
                poi == first_with(records@.take(i as int), Action::Poi),
                full == first_with(records@.take(i as int), Action::Full),
            decreases n - i,
        {
            let s = records[i];
            proof {
                assert(records@.take(i + 1).drop_last() =~= records@.take(i as int));
                assert(records@.take(i + 1).last() == records@[i as int]);
            }
            match s.action {
                Action::Skip => { skippable.push(s); },
                Action::Mute => { mutable.push(s); },
                Action::Poi => {
                    if poi.is_none() {
                        poi = Some(s);
                    }
                },
                Action::Full => {
                    if full.is_none() {
                        full = Some(s);
                    }
                },
            }
            i = i + 1;
        }
        proof {
            assert(records@.take(n as int) =~= records@);
        }
        SortedSegments { skippable, mutable, poi, full }
    }

    /// Classify what the fetch task delivered.  A failed fetch degrades
    /// silently to "no segments": the store stays empty.
    pub fn from_fetch(fetched: Option<Vec<Segment>>) -> (r: SortedSegments)
        ensures
            match fetched {
                Some(records) => r.is_classification_of(records@),
                None => r.is_classification_of(Seq::empty()),
            },
    {
        match fetched {
            Some(records) => Self::classify(records),
            None => Self::classify(Vec::new()),
        }
    }

    /// First skip record containing `time_pos`, scanning in bucket order.
    pub fn get_skip_segment(&self, time_pos: u64) -> (r: Option<Segment>)
        ensures
            r == self.skip_segment_at(time_pos),
    {
        first_in_segment(&self.skippable, time_pos)
    }

    /// First mute record containing `time_pos`, scanning in bucket order.
    pub fn get_mute_segment(&self, time_pos: u64) -> (r: Option<Segment>)
        ensures
            r == self.mute_segment_at(time_pos),
    {
        first_in_segment(&self.mutable, time_pos)
    }

    /// Start time of the highlight, if one was found.
    pub fn get_video_poi(&self) -> (r: Option<u64>)
        ensures
            r == self.point_of_interest(),
    {
        match self.poi {
            Some(s) => Some(s.start),
            None => None,
        }
    }

    /// Category of the whole-video record, if one was found.
    pub fn get_video_category(&self) -> (r: Option<Category>)
        ensures
            r == self.full_category(),
    {
        match self.full {
            Some(s) => Some(s.category),
            None => None,
        }
    }
}

/// Linear scan for the first record whose range contains `t`.
fn first_in_segment(segs: &Vec<Segment>, t: u64) -> (r: Option<Segment>)
    ensures
        r == first_containing(segs@, t),
{
    let mut r: Option<Segment> = None;
    let n = segs.len();
    let mut i: usize = 0;
    while i < n
        invariant
            i <= n,
            n == segs@.len(),
            r == first_containing(segs@.take(i as int), t),
        decreases n - i,
    {
        let s = segs[i];
        proof {
            assert(segs@.take(i + 1).drop_last() =~= segs@.take(i as int));
            assert(segs@.take(i + 1).last() == segs@[i as int]);
        }
        if r.is_none() && s.is_in_segment(t) {
            r = Some(s);
        }
        i = i + 1;
    }
    proof {
        assert(segs@.take(n as int) =~= segs@);
    }
    r
}

/// A record with action `a` exists exactly when at least one is counted.
proof fn lemma_first_with_count(segs: Seq<Segment>, a: Action)
    ensures
        first_with(segs, a) is Some <==> count_action(segs, a) >= 1,
    decreases segs.len(),
{
    if segs.len() > 0 {
        lemma_first_with_count(segs.drop_last(), a);
    }
}

/// Classification is a partition.  Counting multiplicity, every input record
/// lands in exactly one of the four buckets, provided the input carries at
/// most one point-of-interest and at most one full-category record (any
/// further ones are discarded, so they would be counted by no bucket).
pub proof fn lemma_classify_partition(segs: Seq<Segment>, x: Segment)
    requires
        count_action(segs, Action::Poi) <= 1,
        count_action(segs, Action::Full) <= 1,
    ensures
        occ(keep_action(segs, Action::Skip), x) + occ(keep_action(segs, Action::Mute), x)
            + opt_occ(first_with(segs, Action::Poi), x) + opt_occ(
            first_with(segs, Action::Full),
            x,
        ) == occ(segs, x),
    decreases segs.len(),
{
    if segs.len() > 0 {
        let p = segs.drop_last();
        let l = segs.last();
        lemma_classify_partition(p, x);
        lemma_first_with_count(p, Action::Poi);
        lemma_first_with_count(p, Action::Full);
        if l.action == Action::Skip {
            assert(keep_action(segs, Action::Skip).drop_last() =~= keep_action(p, Action::Skip));
        }
        if l.action == Action::Mute {
            assert(keep_action(segs, Action::Mute).drop_last() =~= keep_action(p, Action::Mute));
        }
    }
}

/// Every record in an action bucket comes from the input and has that
/// action; every input record with that action is in the bucket.
pub proof fn lemma_keep_action_membership(segs: Seq<Segment>, a: Action, x: Segment)
    ensures
        keep_action(segs, a).contains(x) <==> segs.contains(x) && x.action == a,
    decreases segs.len(),
{
    if segs.len() > 0 {
        let p = segs.drop_last();
        let l = segs.last();
        let ka = keep_action(segs, a);
        let kp = keep_action(p, a);
        lemma_keep_action_membership(p, a, x);
        if ka.contains(x) {
            let j = choose|j: int| 0 <= j < ka.len() && ka[j] == x;
            if l.action == a && j == ka.len() - 1 {
                assert(segs[segs.len() - 1] == x);
            } else {
                assert(kp[j] == x);
                assert(kp.contains(x));
                let k = choose|k: int| 0 <= k < p.len() && p[k] == x;
                assert(segs[k] == x);
            }
        }
        if segs.contains(x) && x.action == a {
            let j = choose|j: int| 0 <= j < segs.len() && segs[j] == x;
            if j == segs.len() - 1 {
                assert(ka[ka.len() - 1] == x);
            } else {
                assert(p[j] == x);
                assert(p.contains(x));
                let m = choose|m: int| 0 <= m < kp.len() && kp[m] == x;
                assert(ka[m] == x);
            }
        }
    }
}

/// A time query returns a record exactly when some record of the bucket
/// contains the queried position, and then the first such record, in bucket
/// order, deterministically.
pub proof fn lemma_first_containing_correct(segs: Seq<Segment>, t: u64)
    ensures
        match first_containing(segs, t) {
            None => forall|k: int| 0 <= k < segs.len() ==> !(#[trigger] segs[k]).spec_contains_time(t),
            Some(s) => exists|k: int|
                {
                    &&& 0 <= k < segs.len()
                    &&& segs[k] == s
                    &&& (#[trigger] segs[k]).spec_contains_time(t)
                    &&& forall|j: int| 0 <= j < k ==> !(#[trigger] segs[j]).spec_contains_time(t)
                },
        },
    decreases segs.len(),
{
    if segs.len() > 0 {
        let p = segs.drop_last();
        lemma_first_containing_correct(p, t);
        match first_containing(p, t) {
            Some(s) => {
                let k = choose|k: int|
                    {
                        &&& 0 <= k < p.len()
                        &&& p[k] == s
                        &&& (#[trigger] p[k]).spec_contains_time(t)
                        &&& forall|j: int| 0 <= j < k ==> !(#[trigger] p[j]).spec_contains_time(t)
                    };
                assert(segs[k] == s);
                assert forall|j: int| 0 <= j < k implies !(#[trigger] segs[j]).spec_contains_time(
                    t,
                ) by {
                    assert(segs[j] == p[j]);
                }
            },
            None => {
                assert forall|j: int| 0 <= j < segs.len() - 1 implies !(
                #[trigger] segs[j]).spec_contains_time(t) by {
                    assert(segs[j] == p[j]);
                }
                if segs.last().spec_contains_time(t) {
                    let k = segs.len() - 1;
                    assert(segs[k] == segs.last());
                }
            },
        }
    }
}

/// Partition, phrased on a store: counting multiplicity, every record of
/// the classified fetch result appears in exactly one of the store's four
/// buckets, under the same at-most-one premise on the discarding buckets.
pub proof fn lemma_store_partition(store: SortedSegments, records: Seq<Segment>, x: Segment)
    requires
        store.is_classification_of(records),
        count_action(records, Action::Poi) <= 1,
        count_action(records, Action::Full) <= 1,
    ensures
        occ(store.skippable@, x) + occ(store.mutable@, x) + opt_occ(store.poi, x) + opt_occ(
            store.full,
            x,
        ) == occ(records, x),
{
    lemma_classify_partition(records, x);
}

/// The skip query, phrased on a store: a record comes back exactly when
/// some skip record contains `t`, and then the first one in bucket order.
pub proof fn lemma_skip_query_correct(store: SortedSegments, t: u64)
    ensures
        match store.skip_segment_at(t) {
            None => forall|k: int|
                0 <= k < store.skippable@.len() ==> !(#[trigger] store.skippable@[k]).spec_contains_time(t),
            Some(s) => exists|k: int|
                {
                    &&& 0 <= k < store.skippable@.len()
                    &&& store.skippable@[k] == s
                    &&& (#[trigger] store.skippable@[k]).spec_contains_time(t)
                    &&& forall|j: int|
                        0 <= j < k ==> !(#[trigger] store.skippable@[j]).spec_contains_time(t)
                },
        },
{
    lemma_first_containing_correct(store.skippable@, t);
}

/// A position query is a pure read: with the store and the position
/// unchanged, any two queries return the same record.
pub proof fn lemma_mute_query_idempotent(
    store: SortedSegments,
    t: u64,
    r1: Option<Segment>,
    r2: Option<Segment>,
)
    requires
        r1 == store.mute_segment_at(t),
        r2 == store.mute_segment_at(t),
    ensures
        r1 == r2,
{
}

} // verus!
