use vstd::prelude::*;
use crate::waveform::pair_at;

verus! {

/// Squared magnitude of pair `i` of an interleaved I/Q buffer.
pub open spec fn pair_energy(s: Seq<i16>, i: int) -> int {
    let (re, im) = pair_at(s, i);
    re * re + im * im
}

/// Sum of the squared magnitudes of the first `n` pairs of `s`.
pub open spec fn energy(s: Seq<i16>, n: nat) -> int
    decreases n,
{
    if n == 0 {
        0
    } else {
        energy(s, (n - 1) as nat) + pair_energy(s, n - 1)
    }
}

/// Number of complete I/Q pairs in an interleaved buffer.
pub open spec fn pair_count(s: Seq<i16>) -> nat {
    s.len() / 2
}

/// Square of the full-scale amplitude, 2047 squared.
pub const FULL_SCALE_POWER: u128 = 4190209;

/// Average power relative to full scale as the exact ratio
/// `energy / reference`; in dBFS it is `10 * log10(energy / reference)`.
#[derive(PartialEq, Eq, Structural, Clone, Copy, Debug)]
pub struct PowerRatio {
    pub energy: u128,
    pub reference: u128,
}

impl PowerRatio {
    /// Whether the ratio is one, that is 0 dBFS.
    pub fn is_full_scale(&self) -> (r: bool)
        ensures
            r == (self.energy == self.reference),
    {
        self.energy == self.reference
    }
}

/// The ratio that `calculate_avg_power` returns for `s`: the summed pair
/// energy over the pair count times full-scale power, and one to one (0 dBFS)
/// when `s` holds no complete pair.
pub open spec fn avg_power_ratio(s: Seq<i16>) -> (int, int) {
    if pair_count(s) == 0 {
        (1, 1)
    } else {
        (energy(s, pair_count(s)), pair_count(s) * 4190209int)
    }
}

proof fn lemma_pair_energy_bound(s: Seq<i16>, i: int)
    requires
        0 <= i < pair_count(s),
    ensures
        0 <= pair_energy(s, i) <= 2147483648,
{
    let (re, im) = pair_at(s, i);
    assert(0 <= re * re <= 1073741824) by (nonlinear_arith)
        requires -32768 <= re <= 32767;
    assert(0 <= im * im <= 1073741824) by (nonlinear_arith)
        requires -32768 <= im <= 32767;
}

/// Average power of an interleaved I/Q buffer relative to full scale (2047).
/// A trailing unpaired value is ignored; a buffer without a complete pair is
/// reported as 0 dBFS.
pub fn calculate_avg_power(samples: &[i16]) -> (r: PowerRatio)
    ensures
        (r.energy as int, r.reference as int) == avg_power_ratio(samples@),
{
    let pairs: usize = samples.len() / 2;
    if pairs == 0 {
        return PowerRatio { energy: 1, reference: 1 };
    }
    let mut total: u128 = 0;
    let mut i: usize = 0;
    while i < pairs
        invariant
            pairs == pair_count(samples@),
            pairs == samples@.len() / 2,
            samples@.len() == samples.len(),
            i <= pairs,
            total == energy(samples@, i as nat),
            total <= i * 2147483648,
        decreases pairs - i,
    {
        proof {
            lemma_pair_energy_bound(samples@, i as int);
        }
        assert(2 * i + 1 < samples.len());
        let re = samples[2 * i] as i64;
        let im = samples[2 * i + 1] as i64;
        assert(re * re <= 1073741824 && im * im <= 1073741824) by (nonlinear_arith)
            requires -32768 <= re <= 32767, -32768 <= im <= 32767;
        let e = (re * re + im * im) as u128;
        total = total + e;
        i = i + 1;
    }
    PowerRatio { energy: total, reference: pairs as u128 * FULL_SCALE_POWER }
}

/// A buffer whose every pair is `(2047, 0)` or `(0, 2047)` has average power
/// exactly full scale: 0 dBFS.
pub proof fn lemma_full_scale_pairs(s: Seq<i16>)
    requires
        forall|i: int|
            0 <= i < pair_count(s) ==> #[trigger] pair_at(s, i) == (2047int, 0int) || pair_at(s, i)
                == (0int, 2047int),
    ensures
        avg_power_ratio(s).0 == avg_power_ratio(s).1,
{
    if pair_count(s) > 0 {
        lemma_energy_full_scale(s, pair_count(s));
    }
}

proof fn lemma_energy_full_scale(s: Seq<i16>, n: nat)
    requires
        n <= pair_count(s),
        forall|i: int|
            0 <= i < pair_count(s) ==> #[trigger] pair_at(s, i) == (2047int, 0int) || pair_at(s, i)
                == (0int, 2047int),
    ensures
        energy(s, n) == n * 4190209,
    decreases n,
{
    if n > 0 {
        lemma_energy_full_scale(s, (n - 1) as nat);
        assert(pair_at(s, n - 1) == (2047int, 0int) || pair_at(s, n - 1) == (0int, 2047int));
    }
}

} // verus!
