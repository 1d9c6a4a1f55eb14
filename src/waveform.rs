use vstd::prelude::*;

verus! {

/// Amplitude of the transmitted tone, full scale for 12-bit samples.
pub const FULL_SCALE: i16 = 2047;

/// In-phase sign of pair `i` of the tone: the pattern `[0, 1, 0, -1]`.
pub open spec fn i_mask(i: int) -> int {
    let k = i % 4;
    if k == 1 { 1 } else if k == 3 { -1 } else { 0 }
}

/// Quadrature sign of pair `i` of the tone: the pattern `[1, 0, -1, 0]`.
pub open spec fn q_mask(i: int) -> int {
    let k = i % 4;
    if k == 0 { 1 } else if k == 2 { -1 } else { 0 }
}

/// The interleaved I/Q tone of `n` pairs at a quarter of the sample rate.
pub open spec fn tone(n: nat) -> Seq<i16> {
    Seq::new(2 * n, |k: int| (2047 * if k % 2 == 0 { i_mask(k / 2) } else { q_mask(k / 2) }) as i16)
}

/// The `i`-th I/Q pair of an interleaved buffer.
pub open spec fn pair_at(s: Seq<i16>, i: int) -> (int, int) {
    (s[2 * i] as int, s[2 * i + 1] as int)
}

fn mask_pair(i: usize) -> (r: (i16, i16))
    ensures
        r.0 as int == 2047 * i_mask(i as int),
        r.1 as int == 2047 * q_mask(i as int),
{
    let k = i % 4;
    if k == 0 {
        (0, FULL_SCALE)
    } else if k == 1 {
        (FULL_SCALE, 0)
    } else if k == 2 {
        (0, -FULL_SCALE)
    } else {
        (-FULL_SCALE, 0)
    }
}

/// Generates `num_samples` interleaved I/Q pairs of a constant-amplitude tone
/// at a quarter of the sample rate below the carrier: pair `i` is
/// `(2047 * I[i % 4], 2047 * Q[i % 4])` with `I = [0, 1, 0, -1]` and
/// `Q = [1, 0, -1, 0]`, so the pairs cycle through `(0, 2047)`, `(2047, 0)`,
/// `(0, -2047)`, `(-2047, 0)`.
pub fn generate_tone(num_samples: usize) -> (r: Vec<i16>)
    requires
        num_samples <= usize::MAX / 2,
    ensures
        r@ == tone(num_samples as nat),
        r@.len() == 2 * num_samples,
        forall|i: int|
            0 <= i < num_samples ==> {
                let pair = #[trigger] pair_at(r@, i);
                &&& i % 4 == 0 ==> pair == (0int, 2047int)
                &&& i % 4 == 1 ==> pair == (2047int, 0int)
                &&& i % 4 == 2 ==> pair == (0int, -2047int)
                &&& i % 4 == 3 ==> pair == (-2047int, 0int)
            },
{
    let mut samples: Vec<i16> = Vec::with_capacity(2 * num_samples);
    let mut i: usize = 0;
    while i < num_samples
        invariant
            i <= num_samples <= usize::MAX / 2,
            samples@ == tone(num_samples as nat).subrange(0, 2 * i as int),
        decreases num_samples - i,
    {
        let (re, im) = mask_pair(i);
        samples.push(re);
        samples.push(im);
        proof {
            assert((2 * i as int) / 2 == i as int && (2 * i as int + 1) / 2 == i as int);
            assert(samples@ =~= tone(num_samples as nat).subrange(0, 2 * (i + 1) as int));
        }
        i = i + 1;
    }
    proof {
        assert(samples@ =~= tone(num_samples as nat));
        assert forall|i: int| 0 <= i < num_samples implies #[trigger] pair_at(samples@, i) == (
        2047 * i_mask(i), 2047 * q_mask(i)) by {
            assert((2 * i) / 2 == i && (2 * i + 1) / 2 == i && (2 * i) % 2 == 0 && (2 * i + 1) % 2 == 1);
        }
    }
    samples
}

} // verus!
