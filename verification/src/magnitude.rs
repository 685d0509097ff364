//! Clamped log-magnitude values and the running magnitude bounds.
//!
//! Magnitudes travel through the engine as IEEE 754 single-precision bit
//! patterns carried in `u32`; the unverified driver converts between `f32`
//! and these encodings at the boundary. The engine relies on two facts of
//! that encoding, and on nothing else:
//!
//! - a value below zero (or a negative zero) has the sign bit set, that is,
//!   its encoding is at least `SIGN_BIT`;
//! - on encodings of non-negative values (zero through positive infinity,
//!   `0` through `INFINITY_BITS`) unsigned integer order coincides with
//!   numeric order.
//!
//! Everything the engine states about clamping and bounds is therefore
//! stated, and proved, over the encodings themselves.

use vstd::prelude::*;

verus! {

/// The encoding of positive infinity: the initial minimum sentinel, and the
/// largest encoding of a non-negative value.
pub const INFINITY_BITS: u32 = 0x7f80_0000;

/// The encoding of negative infinity: the initial maximum sentinel.
pub const NEG_INFINITY_BITS: u32 = 0xff80_0000;

/// Encodings at or above this bound carry the sign bit: they encode a value
/// below zero, or a negative zero.
pub const SIGN_BIT: u32 = 0x8000_0000;

/// Whether `x` encodes a real or infinite value (not a NaN pattern): either
/// the sign bit is set, or the encoding is at most positive infinity.
pub open spec fn is_magnitude_encoding(x: u32) -> bool {
    x >= SIGN_BIT || x <= INFINITY_BITS
}

/// A raw log-magnitude encoding floored at zero: an encoding with the sign
/// bit set (a value below zero, or a negative zero) becomes the encoding of
/// zero, everything else passes through.
pub open spec fn spec_clamp(raw: u32) -> u32 {
    if raw >= SIGN_BIT {
        0u32
    } else {
        raw
    }
}

/// A whole row of raw encodings, clamped entry by entry.
pub open spec fn spec_clamp_row(raw: Seq<u32>) -> Seq<u32> {
    raw.map_values(|x: u32| spec_clamp(x))
}

/// Floors one raw log-magnitude at zero (the encoding of a negative value
/// becomes the encoding of zero). This is a one-way, lossy transform: raw
/// values below unit amplitude are discarded.
pub fn clamp_magnitude(raw: u32) -> (r: u32)
    ensures
        r == spec_clamp(raw),
{
    if raw >= SIGN_BIT {
        0
    } else {
        raw
    }
}

/// Clamps a whole row of raw log-magnitude encodings.
pub fn clamp_row(raw: &Vec<u32>) -> (r: Vec<u32>)
    ensures
        r@ == spec_clamp_row(raw@),
        forall|j: int| 0 <= j < r@.len() ==> #[trigger] r@[j] < SIGN_BIT,
{
    let mut out: Vec<u32> = Vec::new();
    let mut j: usize = 0;
    while j < raw.len()
        invariant
            j <= raw@.len(),
            out@ == spec_clamp_row(raw@.take(j as int)),
            forall|k: int| 0 <= k < out@.len() ==> #[trigger] out@[k] < SIGN_BIT,
        decreases raw@.len() - j,
    {
        out.push(clamp_magnitude(raw[j]));
        j = j + 1;
        proof {
            assert(raw@.take(j as int).drop_last() =~= raw@.take(j - 1));
            assert(out@ =~= spec_clamp_row(raw@.take(j as int)));
        }
    }
    proof {
        assert(raw@.take(raw@.len() as int) =~= raw@);
    }
    out
}

/// One step of the running minimum: `v` replaces `acc` when below it.
pub open spec fn spec_min_acc(acc: u32, v: u32) -> u32 {
    if v < acc {
        v
    } else {
        acc
    }
}

/// One step of the running maximum: `v` replaces `acc` when above it, and
/// always replaces the initial sentinel.
pub open spec fn spec_max_acc(acc: u32, v: u32) -> u32 {
    if acc == NEG_INFINITY_BITS || v > acc {
        v
    } else {
        acc
    }
}

/// The running minimum folded over a whole sequence of magnitudes.
pub open spec fn spec_fold_min(acc: u32, vs: Seq<u32>) -> u32
    decreases vs.len(),
{
    if vs.len() == 0 {
        acc
    } else {
        spec_fold_min(spec_min_acc(acc, vs[0]), vs.drop_first())
    }
}

/// The running maximum folded over a whole sequence of magnitudes.
pub open spec fn spec_fold_max(acc: u32, vs: Seq<u32>) -> u32
    decreases vs.len(),
{
    if vs.len() == 0 {
        acc
    } else {
        spec_fold_max(spec_max_acc(acc, vs[0]), vs.drop_first())
    }
}

/// Folding one more value on the right is one accumulator step.
pub proof fn lemma_fold_min_push(acc: u32, vs: Seq<u32>, v: u32)
    ensures
        spec_fold_min(acc, vs.push(v)) == spec_min_acc(spec_fold_min(acc, vs), v),
    decreases vs.len(),
{
    if vs.len() == 0 {
        assert(vs.push(v)[0] == v);
        assert(vs.push(v).drop_first() =~= Seq::<u32>::empty());
        assert(spec_fold_min(acc, vs.push(v)) == spec_fold_min(
            spec_min_acc(acc, v),
            Seq::<u32>::empty(),
        ));
    } else {
        assert(vs.push(v)[0] == vs[0]);
        assert(vs.push(v).drop_first() =~= vs.drop_first().push(v));
        lemma_fold_min_push(spec_min_acc(acc, vs[0]), vs.drop_first(), v);
        assert(spec_fold_min(acc, vs.push(v)) == spec_fold_min(
            spec_min_acc(acc, vs[0]),
            vs.drop_first().push(v),
        ));
        assert(spec_fold_min(acc, vs) == spec_fold_min(spec_min_acc(acc, vs[0]), vs.drop_first()));
    }
}

/// Folding one more value on the right is one accumulator step.
pub proof fn lemma_fold_max_push(acc: u32, vs: Seq<u32>, v: u32)
    ensures
        spec_fold_max(acc, vs.push(v)) == spec_max_acc(spec_fold_max(acc, vs), v),
    decreases vs.len(),
{
    if vs.len() == 0 {
        assert(vs.push(v)[0] == v);
        assert(vs.push(v).drop_first() =~= Seq::<u32>::empty());
        assert(spec_fold_max(acc, vs.push(v)) == spec_fold_max(
            spec_max_acc(acc, v),
            Seq::<u32>::empty(),
        ));
    } else {
        assert(vs.push(v)[0] == vs[0]);
        assert(vs.push(v).drop_first() =~= vs.drop_first().push(v));
        lemma_fold_max_push(spec_max_acc(acc, vs[0]), vs.drop_first(), v);
        assert(spec_fold_max(acc, vs.push(v)) == spec_fold_max(
            spec_max_acc(acc, vs[0]),
            vs.drop_first().push(v),
        ));
        assert(spec_fold_max(acc, vs) == spec_fold_max(spec_max_acc(acc, vs[0]), vs.drop_first()));
    }
}

/// The folded minimum lies at or below the accumulator and every folded
/// value, and is one of them.
pub proof fn lemma_fold_min_bounds(acc: u32, vs: Seq<u32>)
    ensures
        spec_fold_min(acc, vs) <= acc,
        forall|k: int| 0 <= k < vs.len() ==> spec_fold_min(acc, vs) <= #[trigger] vs[k],
        spec_fold_min(acc, vs) == acc || exists|k: int|
            0 <= k < vs.len() && vs[k] == spec_fold_min(acc, vs),
    decreases vs.len(),
{
    if vs.len() > 0 {
        lemma_fold_min_bounds(spec_min_acc(acc, vs[0]), vs.drop_first());
        let m = spec_fold_min(acc, vs);
        assert(forall|k: int|
            1 <= k < vs.len() ==> #[trigger] vs[k] == vs.drop_first()[k - 1]);
        if m != acc && m != vs[0] {
            let k = choose|k: int|
                0 <= k < vs.drop_first().len() && vs.drop_first()[k] == m;
            assert(vs[k + 1] == m);
        }
    }
}

/// The folded maximum lies at or above every folded value and, once it has
/// left the sentinel, at or above the accumulator; it is the accumulator or
/// one of the values; over magnitude encodings it stays one.
pub proof fn lemma_fold_max_bounds(acc: u32, vs: Seq<u32>)
    requires
        forall|k: int| 0 <= k < vs.len() ==> #[trigger] vs[k] <= INFINITY_BITS,
        acc == NEG_INFINITY_BITS || acc <= INFINITY_BITS,
    ensures
        vs.len() == 0 ==> spec_fold_max(acc, vs) == acc,
        vs.len() > 0 ==> spec_fold_max(acc, vs) <= INFINITY_BITS,
        acc != NEG_INFINITY_BITS ==> acc <= spec_fold_max(acc, vs),
        forall|k: int| 0 <= k < vs.len() ==> #[trigger] vs[k] <= spec_fold_max(acc, vs),
        spec_fold_max(acc, vs) == acc || exists|k: int|
            0 <= k < vs.len() && vs[k] == spec_fold_max(acc, vs),
    decreases vs.len(),
{
    if vs.len() > 0 {
        let acc1 = spec_max_acc(acc, vs[0]);
        lemma_fold_max_bounds(acc1, vs.drop_first());
        let m = spec_fold_max(acc, vs);
        assert(forall|k: int|
            1 <= k < vs.len() ==> #[trigger] vs[k] == vs.drop_first()[k - 1]);
        if m != acc && m != vs[0] {
            let k = choose|k: int|
                0 <= k < vs.drop_first().len() && vs.drop_first()[k] == m;
            assert(vs[k + 1] == m);
        }
    }
}

/// The running minimum and maximum magnitude, as encodings. A fresh record
/// holds the sentinels (the encodings of positive and negative infinity);
/// they stay in place until the first value is observed.
#[derive(Clone, Copy, Debug, PartialEq, Eq, Structural)]
pub struct MagnitudeBounds {
    pub min: u32,
    pub max: u32,
}

impl MagnitudeBounds {
    /// A fresh record holding the sentinel pair.
    pub fn new() -> (r: MagnitudeBounds)
        ensures
            r.min == INFINITY_BITS,
            r.max == NEG_INFINITY_BITS,
    {
        MagnitudeBounds { min: INFINITY_BITS, max: NEG_INFINITY_BITS }
    }

    /// Folds one observed magnitude into the running bounds. The minimum
    /// falls to `v` when `v` is below it (the sentinel, positive infinity,
    /// needs no special case); the maximum rises to `v` when `v` is above it,
    /// the sentinel giving way to the first value observed.
    pub fn update(&mut self, v: u32)
        requires
            v <= INFINITY_BITS,
        ensures
            final(self).min == (if v < old(self).min {
                v
            } else {
                old(self).min
            }),
            final(self).max == (if old(self).max == NEG_INFINITY_BITS || v > old(self).max {
                v
            } else {
                old(self).max
            }),
    {
        if v < self.min {
            self.min = v;
        }
        if self.max == NEG_INFINITY_BITS || v > self.max {
            self.max = v;
        }
    }
}

} // verus!
