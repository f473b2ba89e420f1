//! The reverberation network's tuning table and its scaling to a sample rate.
use vstd::prelude::*;
use vstd::arithmetic::div_mod::{lemma_div_is_ordered, lemma_div_multiples_vanish};
use vstd::arithmetic::mul::lemma_mul_inequality;

verus! {

/// Sample rate for which the base tuning table is written.
pub const REFERENCE_RATE: usize = 44100;

/// Extra delay, in samples, of each right-channel stage over its left twin.
pub const STEREO_SPREAD: usize = 23;

/// Number of delay stages of the network: 8 comb pairs and 4 all-pass pairs.
pub const TUNING_COUNT: usize = 24;

/// The base tuning table at the reference rate, in buffer order: the 8 comb
/// pairs (left, right), then the 4 all-pass pairs (left, right).
pub open spec fn base_tunings_spec() -> Seq<usize> {
    seq![
        1116, 1139, 1188, 1211, 1277, 1300, 1356, 1379,
        1422, 1445, 1491, 1514, 1557, 1580, 1617, 1640,
        556, 579, 441, 464, 341, 364, 225, 248,
    ]
}

/// A length of the reference table scaled to `rate`, rounded down.
pub open spec fn scaled_length(length: int, rate: int) -> int {
    length * rate / REFERENCE_RATE as int
}

/// The whole tuning table scaled to `rate`.
pub open spec fn scaled_tunings(rate: usize) -> Seq<usize> {
    Seq::new(
        TUNING_COUNT as nat,
        |k: int| scaled_length(base_tunings_spec()[k] as int, rate as int) as usize,
    )
}

/// Sum of a sequence of lengths.
pub open spec fn total(s: Seq<usize>) -> int
    decreases s.len(),
{
    if s.len() == 0 {
        0
    } else {
        total(s.drop_last()) + s.last()
    }
}

/// Arena capacity, in samples, that the network needs at `rate`.
pub open spec fn required_capacity(rate: usize) -> int {
    total(scaled_tunings(rate))
}

/// Scales a length of the reference table to the sample rate `sr`, rounding
/// down.
pub fn adjust_length(length: &mut usize, sr: usize)
    requires
        scaled_length(*old(length) as int, sr as int) <= usize::MAX,
    ensures
        *final(length) as int == scaled_length(*old(length) as int, sr as int),
{
    let product: u128 = (*length as u128) * (sr as u128);
    *length = (product / (REFERENCE_RATE as u128)) as usize;
}

/// The base tuning table at the reference rate.
pub fn base_tunings() -> (r: Vec<usize>)
    ensures
        r@ == base_tunings_spec(),
{
    vec![
        1116, 1116 + STEREO_SPREAD, 1188, 1188 + STEREO_SPREAD,
        1277, 1277 + STEREO_SPREAD, 1356, 1356 + STEREO_SPREAD,
        1422, 1422 + STEREO_SPREAD, 1491, 1491 + STEREO_SPREAD,
        1557, 1557 + STEREO_SPREAD, 1617, 1617 + STEREO_SPREAD,
        556, 556 + STEREO_SPREAD, 441, 441 + STEREO_SPREAD,
        341, 341 + STEREO_SPREAD, 225, 225 + STEREO_SPREAD,
    ]
}

/// A length no longer than the reference rate never scales past the rate
/// itself.
proof fn lemma_scaled_at_most_rate(length: int, rate: int)
    requires
        0 <= length <= REFERENCE_RATE as int,
        0 <= rate,
    ensures
        0 <= scaled_length(length, rate) <= rate,
{
    let q = REFERENCE_RATE as int;
    lemma_mul_inequality(length, q, rate);
    lemma_mul_inequality(0, length, rate);
    lemma_div_is_ordered(length * rate, q * rate, q);
    lemma_div_is_ordered(0, length * rate, q);
    lemma_div_multiples_vanish(rate, q);
    assert(q * rate == rate * q) by (nonlinear_arith);
}

/// The tuning table scaled to the sample rate `sr`.
pub fn tunings_for_rate(sr: usize) -> (r: Vec<usize>)
    ensures
        r@ == scaled_tunings(sr),
{
    let base = base_tunings();
    let mut r: Vec<usize> = Vec::new();
    let mut i: usize = 0;
    while i < base.len()
        invariant
            base@ == base_tunings_spec(),
            i <= base.len(),
            r@.len() == i,
            forall|j: int| 0 <= j < i ==> r@[j] == scaled_tunings(sr)[j],
        decreases base.len() - i,
    {
        let mut length = base[i];
        proof {
            lemma_scaled_at_most_rate(length as int, sr as int);
        }
        adjust_length(&mut length, sr);
        r.push(length);
        i += 1;
    }
    assert(r@ =~= scaled_tunings(sr));
    r
}

/// A sequence that is nowhere longer than another of the same length has no
/// larger total.
pub proof fn lemma_total_pointwise(a: Seq<usize>, b: Seq<usize>)
    requires
        a.len() == b.len(),
        forall|k: int| 0 <= k < a.len() ==> a[k] <= b[k],
    ensures
        total(a) <= total(b),
    decreases a.len(),
{
    if a.len() > 0 {
        lemma_total_pointwise(a.drop_last(), b.drop_last());
    }
}

/// Adding one more element to a prefix adds that element to its total.
pub proof fn lemma_total_take_next(s: Seq<usize>, i: int)
    requires
        0 <= i < s.len(),
    ensures
        total(s.take(i + 1)) == total(s.take(i)) + s[i],
{
    assert(s.take(i + 1).drop_last() =~= s.take(i));
}

/// A prefix never totals more than the whole sequence.
pub proof fn lemma_total_prefix(s: Seq<usize>, i: int)
    requires
        0 <= i <= s.len(),
    ensures
        total(s.take(i)) <= total(s),
    decreases s.len(),
{
    if i == s.len() {
        assert(s.take(i) =~= s);
    } else {
        lemma_total_prefix(s.drop_last(), i);
        assert(s.drop_last().take(i) =~= s.take(i));
    }
}

/// Raising the sample rate never shortens a stage of the tuning table, and
/// never lowers the arena capacity that the network needs.
pub proof fn lemma_tunings_monotone(low: usize, high: usize)
    requires
        0 < low <= high,
    ensures
        forall|k: int|
            0 <= k < TUNING_COUNT ==> #[trigger] scaled_tunings(low)[k] <= scaled_tunings(high)[k],
        required_capacity(low) <= required_capacity(high),
{
    assert forall|k: int| 0 <= k < TUNING_COUNT implies #[trigger] scaled_tunings(low)[k]
        <= scaled_tunings(high)[k] by {
        let length = base_tunings_spec()[k] as int;
        lemma_scaled_at_most_rate(length, low as int);
        lemma_scaled_at_most_rate(length, high as int);
        lemma_mul_inequality(low as int, high as int, length);
        assert(length * low == low * length && length * high == high * length)
            by (nonlinear_arith);
        lemma_div_is_ordered(length * low, length * high, REFERENCE_RATE as int);
    }
    lemma_total_pointwise(scaled_tunings(low), scaled_tunings(high));
}

} // verus!
