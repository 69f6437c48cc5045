//! Byte-value histogram underlying the Shannon-entropy estimate.
//!
//! The estimator builds a 256-bin histogram over byte values and then
//! accumulates `-p * log2(p)` over the nonzero bins in floating point.
//! The histogram is the discrete part and is computed here with an
//! exact contract; the logarithmic accumulation is left to the caller.

use vstd::prelude::*;

verus! {

/// How many times `value` occurs in `data`.
pub open spec fn count_byte(data: Seq<u8>, value: u8) -> nat
    decreases data.len(),
{
    if data.len() == 0 {
        0
    } else {
        count_byte(data.drop_last(), value) + if data.last() == value {
            1nat
        } else {
            0nat
        }
    }
}

pub proof fn lemma_count_byte_le_len(data: Seq<u8>, value: u8)
    ensures
        count_byte(data, value) <= data.len(),
    decreases data.len(),
{
    if data.len() > 0 {
        lemma_count_byte_le_len(data.drop_last(), value);
    }
}

pub proof fn lemma_count_byte_push(data: Seq<u8>, last: u8, value: u8)
    ensures
        count_byte(data.push(last), value) == count_byte(data, value) + if last == value {
            1nat
        } else {
            0nat
        },
{
    assert(data.push(last).drop_last() =~= data);
}

/// A buffer made of one repeated byte value puts all its weight in
/// that value's bin and nothing anywhere else; in particular the
/// entropy sum over such a histogram has a single term with p = 1.
pub proof fn lemma_count_byte_uniform(data: Seq<u8>, value: u8)
    requires
        forall|i: int| 0 <= i < data.len() ==> data[i] == value,
    ensures
        count_byte(data, value) == data.len(),
        forall|other: u8| other != value ==> count_byte(data, other) == 0,
    decreases data.len(),
{
    if data.len() > 0 {
        assert(forall|i: int|
            0 <= i < data.drop_last().len() ==> data.drop_last()[i] == value);
        lemma_count_byte_uniform(data.drop_last(), value);
        assert(data.last() == value);
        assert forall|other: u8| other != value implies count_byte(data, other) == 0 by {
            assert(count_byte(data, other) == count_byte(data.drop_last(), other));
        }
    } else {
        assert forall|other: u8| other != value implies count_byte(data, other) == 0 by {
            assert(count_byte(data, other) == 0);
        }
    }
}

/// The combined weight of the bins for byte values below `bound`.
pub open spec fn count_below(data: Seq<u8>, bound: int) -> nat
    decreases bound,
{
    if bound <= 0 {
        0
    } else {
        count_below(data, bound - 1) + count_byte(data, (bound - 1) as u8)
    }
}

proof fn lemma_count_below_empty(bound: int)
    ensures
        count_below(Seq::<u8>::empty(), bound) == 0,
    decreases bound,
{
    if bound > 0 {
        lemma_count_below_empty(bound - 1);
    }
}

proof fn lemma_count_below_push(data: Seq<u8>, last: u8, bound: int)
    requires
        bound <= 256,
    ensures
        count_below(data.push(last), bound) == count_below(data, bound) + if (last as int)
            < bound {
            1nat
        } else {
            0nat
        },
    decreases bound,
{
    if bound > 0 {
        lemma_count_below_push(data, last, bound - 1);
        lemma_count_byte_push(data, last, (bound - 1) as u8);
    }
}

/// The histogram's bins sum to the buffer's length, so the per-bin
/// ratios `count / length` form a probability distribution over byte
/// values, the distribution the entropy sum is taken over.
pub proof fn lemma_count_total(data: Seq<u8>)
    ensures
        count_below(data, 256) == data.len(),
    decreases data.len(),
{
    if data.len() == 0 {
        lemma_count_below_empty(256);
        assert(data =~= Seq::<u8>::empty());
    } else {
        lemma_count_total(data.drop_last());
        lemma_count_below_push(data.drop_last(), data.last(), 256);
        assert(data.drop_last().push(data.last()) =~= data);
    }
}

/// Build the 256-bin histogram of byte values for `data`.  Bin `v`
/// holds exactly the number of occurrences of byte value `v`.
pub fn byte_histogram(data: &[u8]) -> (counts: Vec<usize>)
    ensures
        counts@.len() == 256,
        forall|v: int| 0 <= v < 256 ==> counts@[v] == count_byte(data@, v as u8),
{
    let mut counts: Vec<usize> = Vec::new();
    let mut k: usize = 0;
    while k < 256
        invariant
            counts@.len() == k,
            k <= 256,
            forall|v: int| 0 <= v < k ==> counts@[v] == 0,
        decreases 256 - k,
    {
        counts.push(0);
        k = k + 1;
    }
    assert(forall|v: int| 0 <= v < 256 ==> counts@[v] == count_byte(data@.take(0), v as u8));
    let mut i: usize = 0;
    while i < data.len()
        invariant
            counts@.len() == 256,
            i <= data@.len(),
            forall|v: int| 0 <= v < 256 ==> counts@[v] == count_byte(
                data@.take(i as int),
                v as u8,
            ),
        decreases data@.len() - i,
    {
        let b = data[i] as usize;
        proof {
            assert(data@.take(i + 1) =~= data@.take(i as int).push(data@[i as int]));
            assert(forall|v: u8| #[trigger] count_byte(data@.take(i + 1), v) == count_byte(
                data@.take(i as int),
                v,
            ) + if data@[i as int] == v {
                1nat
            } else {
                0nat
            }) by {
                assert forall|v: u8| #[trigger] count_byte(data@.take(i + 1), v) == count_byte(
                    data@.take(i as int),
                    v,
                ) + if data@[i as int] == v {
                    1nat
                } else {
                    0nat
                } by {
                    lemma_count_byte_push(data@.take(i as int), data@[i as int], v);
                }
            }
            lemma_count_byte_le_len(data@.take(i as int), data@[i as int]);
        }
        counts[b] = counts[b] + 1;
        i = i + 1;
    }
    proof {
        assert(data@.take(data@.len() as int) =~= data@);
    }
    counts
}

} // verus!
