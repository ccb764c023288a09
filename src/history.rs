use vstd::prelude::*;

verus! {

/// Seconds in one bucket of the history.
pub const BUCKET_SECS: u64 = 3600;

/// Length of the lookback window, in days.
pub const NDAYS: u64 = 14;

/// Number of buckets in a history: one per hour of the window, plus the
/// boundary sample at its end.
pub const HISTORY_LEN: usize = 337;

/// One raw sample of the backend: a timestamp in whole epoch seconds (floored)
/// and the value measured then.
#[derive(Clone, Copy)]
pub struct Sample<V> {
    pub timestamp: i64,
    pub value: V,
}

/// The bucket that a sample taken at `ts` falls in, for a window starting at
/// `t0`: `floor((ts - t0) / 3600)`.
pub open spec fn bucket_of(t0: int, ts: int) -> int {
    (ts - t0) / (BUCKET_SECS as int)
}

/// A history with no data in any bucket.
pub open spec fn empty_history<V>() -> Seq<Option<V>> {
    Seq::new(HISTORY_LEN as nat, |i: int| None::<V>)
}

/// `h` with the sample `s` written into its bucket, when that bucket exists.
pub open spec fn place<V>(h: Seq<Option<V>>, t0: int, s: Sample<V>) -> Seq<Option<V>> {
    let b = bucket_of(t0, s.timestamp as int);
    if 0 <= b < h.len() {
        h.update(b, Some(s.value))
    } else {
        h
    }
}

/// The history that the samples give, taken in order: each sample overwrites
/// its bucket, and samples outside the window are discarded.
pub open spec fn history<V>(t0: int, samples: Seq<Sample<V>>) -> Seq<Option<V>>
    decreases samples.len(),
{
    if samples.len() == 0 {
        empty_history()
    } else {
        place(history(t0, samples.drop_last()), t0, samples.last())
    }
}

/// Every history has one bucket for each hour of the window plus one.
pub proof fn lemma_history_len<V>(t0: int, samples: Seq<Sample<V>>)
    ensures
        history(t0, samples).len() == HISTORY_LEN,
        HISTORY_LEN == 24 * NDAYS + 1,
    decreases samples.len(),
{
    if samples.len() > 0 {
        lemma_history_len(t0, samples.drop_last());
    }
}

/// A bucket holds a value only if some sample fell into it, and that value
/// is the value of the last such sample.
pub proof fn lemma_history_bucket<V>(t0: int, samples: Seq<Sample<V>>, i: int)
    requires
        0 <= i < HISTORY_LEN,
    ensures
        history(t0, samples)[i] is None <==> (forall|j: int|
            0 <= j < samples.len() ==> bucket_of(t0, #[trigger] samples[j].timestamp as int) != i),
        history(t0, samples)[i] is Some ==> exists|j: int|
            0 <= j < samples.len() && bucket_of(t0, #[trigger] samples[j].timestamp as int) == i
                && history(t0, samples)[i] == Some(samples[j].value) && forall|k: int|
                j < k < samples.len() ==> bucket_of(t0, #[trigger] samples[k].timestamp as int)
                    != i,
    decreases samples.len(),
{
    lemma_history_len(t0, samples);
    if samples.len() > 0 {
        let prev = samples.drop_last();
        lemma_history_len(t0, prev);
        lemma_history_bucket(t0, prev, i);
        let n = samples.len() - 1;
        assert(forall|j: int| 0 <= j < n ==> prev[j] == samples[j]);
        if bucket_of(t0, samples[n].timestamp as int) == i {
            assert(history(t0, samples)[i] == Some(samples[n].value));
        } else {
            assert(history(t0, samples)[i] == history(t0, prev)[i]);
            if history(t0, samples)[i] is Some {
                let j = choose|j: int|
                    0 <= j < prev.len() && bucket_of(t0, #[trigger] prev[j].timestamp as int) == i
                        && history(t0, prev)[i] == Some(prev[j].value) && forall|k: int|
                        j < k < prev.len() ==> bucket_of(t0, #[trigger] prev[k].timestamp as int)
                            != i;
                assert(samples[j] == prev[j]);
            }
        }
    }
}

/// A lone sample fills exactly its own bucket when that bucket lies in the
/// window; a sample before the window start or past its end leaves every
/// bucket empty.
pub proof fn lemma_single_sample<V>(t0: int, s: Sample<V>, i: int)
    requires
        0 <= i < HISTORY_LEN,
    ensures
        history(t0, seq![s])[i] == (if bucket_of(t0, s.timestamp as int) == i {
            Some(s.value)
        } else {
            None
        }),
{
    assert(seq![s].drop_last() =~= Seq::<Sample<V>>::empty());
    assert(seq![s].last() == s);
    assert(history(t0, seq![s].drop_last()) == empty_history::<V>());
    assert(empty_history::<V>()[i] is None);
}

/// Sorts the samples into the hourly buckets of the window that starts at
/// `t0`; a bucket that no sample falls in holds `None`.
pub fn bucketize<V: Copy>(t0: u64, samples: &Vec<Sample<V>>) -> (r: Vec<Option<V>>)
    ensures
        r@ == history(t0 as int, samples@),
        r@.len() == HISTORY_LEN,
{
    let mut h: Vec<Option<V>> = Vec::new();
    while h.len() < HISTORY_LEN
        invariant
            h@.len() <= HISTORY_LEN,
            forall|k: int| 0 <= k < h@.len() ==> h@[k] is None,
        decreases HISTORY_LEN - h@.len(),
    {
        h.push(None);
    }
    assert(h@ =~= empty_history::<V>());
    let mut i: usize = 0;
    while i < samples.len()
        invariant
            i <= samples@.len(),
            h@ == history(t0 as int, samples@.subrange(0, i as int)),
        decreases samples@.len() - i,
    {
        proof {
            lemma_history_len(t0 as int, samples@.subrange(0, i as int));
            assert(samples@.subrange(0, i + 1).drop_last() =~= samples@.subrange(0, i as int));
        }
        let ts: i64 = samples[i].timestamp;
        let value: V = samples[i].value;
        if ts as i128 >= t0 as i128 {
            let offset: u64 = (ts as i128 - t0 as i128) as u64;
            let b: u64 = offset / BUCKET_SECS;
            if b < HISTORY_LEN as u64 {
                h.set(b as usize, Some(value));
            }
        }
        i = i + 1;
    }
    assert(samples@.subrange(0, samples@.len() as int) =~= samples@);
    proof {
        lemma_history_len(t0 as int, samples@);
    }
    h
}

} // verus!
