use vstd::prelude::*;
use vstd::std_specs::bits::axiom_u32_trailing_zeros;
use vstd::std_specs::bits::u32_trailing_zeros;

use crate::field::SIMDField;
use crate::model::{first_match_in, values};

verus! {

/// Whether bit `b` of a match mask is set.
pub open spec fn bit_set(mask: u32, b: u32) -> bool {
    (mask >> b) & 1u32 == 1u32
}

/// The layout of a match mask over the window of `count` lanes that starts at
/// `start`: lane `k` owns bits `k * per .. (k + 1) * per`, all set where the lane
/// equals the target and all clear where it does not; bits above the window are clear.
pub open spec fn mask_encodes(
    mask: u32,
    s: Seq<int>,
    t: int,
    start: int,
    count: int,
    per: int,
) -> bool {
    forall|b: u32|
        b < 32 ==> (#[trigger] bit_set(mask, b) <==> (b < count * per && s[start + b as int / per] == t))
}

proof fn lemma_or_group(m: u32, per: u32, s: u32, b: u32)
    by (bit_vector)
    requires
        1 <= per <= 8,
        s <= 32 - per,
        b < 32,
    ensures
        ((m | ((((1u32 << per) - 1u32) as u32) << s)) >> b) & 1u32 == 1u32 <==> (((m >> b) & 1u32 == 1u32)
            || (s <= b && b < s + per)),
{
}

proof fn lemma_zero_mask(b: u32)
    by (bit_vector)
    requires
        b < 32,
    ensures
        (0u32 >> b) & 1u32 == 0u32,
{
}

proof fn lemma_lane_of_bit(b: int, per: int, k: int)
    by (nonlinear_arith)
    requires
        per >= 1,
        k * per <= b < k * per + per,
    ensures
        b / per == k,
{
}

/// The mask with the `per` bits of lane `k` set besides those already set.
fn mark_lane(mask: u32, k: usize, per: u32) -> (r: u32)
    requires
        1 <= per <= 8,
        k * per + per <= 32,
    ensures
        forall|b: u32|
            b < 32 ==> (#[trigger] bit_set(r, b) <==> (bit_set(mask, b) || (k * per <= b < k * per
                + per))),
{
    assert((1u32 << per) >= 1u32) by (bit_vector)
        requires
            1 <= per <= 8,
    ;
    let group: u32 = (1u32 << per) - 1;
    assert(k < 32 && k * per <= 32 - per) by (nonlinear_arith)
        requires
            k * per + per <= 32,
            per >= 1,
    ;
    let shift: u32 = (k as u32) * per;
    let r = mask | (group << shift);
    assert forall|b: u32| b < 32 implies (#[trigger] bit_set(r, b) <==> (bit_set(mask, b) || (k
        * per <= b < k * per + per))) by {
        lemma_or_group(mask, per, shift, b);
    }
    r
}

proof fn lemma_empty_mask()
    ensures
        forall|b: u32| b < 32 ==> !#[trigger] bit_set(0u32, b),
{
    assert forall|b: u32| b < 32 implies !#[trigger] bit_set(0u32, b) by {
        lemma_zero_mask(b);
    }
}

proof fn lemma_next_lane(i: int, per: int, count: int)
    by (nonlinear_arith)
    requires
        0 <= i < count,
        per >= 1,
    ensures
        i * per + per <= count * per,
        (i + 1) * per == i * per + per,
{
}

/// Compares the window `nums[start .. start + count]` lane by lane against the
/// broadcast target and gathers the equality results into one mask, `per` bits
/// for each lane: the byte mask of a compare at the element width, where `per`
/// is the element's size in bytes.
pub fn compare_window<T: SIMDField>(
    nums: &[T],
    start: usize,
    count: usize,
    per: u32,
    target: &T,
) -> (mask: u32)
    requires
        start + count <= nums.len(),
        1 <= per <= 8,
        count * per <= 32,
    ensures
        mask_encodes(mask, values(nums@), target.value(), start as int, count as int, per as int),
{
    let ghost s = values(nums@);
    let ghost t = target.value();
    let mut mask: u32 = 0;
    proof {
        lemma_empty_mask();
    }
    let mut i: usize = 0;
    while i < count
        invariant
            i <= count,
            start + count <= nums.len(),
            1 <= per <= 8,
            count * per <= 32,
            s == values(nums@),
            t == target.value(),
            mask_encodes(mask, s, t, start as int, i as int, per as int),
        decreases count - i,
    {
        proof {
            lemma_next_lane(i as int, per as int, count as int);
        }
        let hit = nums[start + i].eq_value(target);
        assert(hit == (s[start + i as int] == t));
        let old_mask = mask;
        if hit {
            mask = mark_lane(mask, i, per);
        }
        assert forall|b: u32| b < 32 implies (#[trigger] bit_set(mask, b) <==> (b < (i + 1) * per
            && s[start + b as int / per as int] == t)) by {
            assert(bit_set(old_mask, b) <==> (b < i * per && s[start + b as int / per as int]
                == t));
            if i * per <= b < i * per + per {
                lemma_lane_of_bit(b as int, per as int, i as int);
            }
        }
        i += 1;
    }
    mask
}

/// Whether lane `k` of the pair of masks `lo`, `hi` (each of `lanes` lanes of
/// `per` bits) is marked; the pair is read as `lo`'s lanes followed by `hi`'s.
pub open spec fn pair_lane(lo: u32, hi: u32, lanes: int, per: int, k: int) -> bool {
    if k < lanes {
        bit_set(lo, (k * per) as u32)
    } else {
        bit_set(hi, ((k - lanes) * per) as u32)
    }
}

/// `r` holds the lanes of `lo` and then of `hi`, each narrowed to `per / 2` bits.
pub open spec fn packs(r: u32, lo: u32, hi: u32, lanes: int, per: int) -> bool {
    forall|b: u32|
        b < 32 ==> (#[trigger] bit_set(r, b) <==> (b < 2 * lanes * (per / 2) && pair_lane(
            lo,
            hi,
            lanes,
            per,
            b as int / (per / 2),
        )))
}

/// Saturating pack of two compare results: every lane of `lo`, then every lane
/// of `hi`, narrowed from `per` to `per / 2` bits, so that one mask scan decodes
/// both registers. A lane counts as marked by its lowest bit.
pub fn pack_saturate(lo: u32, hi: u32, lanes: usize, per: u32) -> (r: u32)
    requires
        per == 2 || per == 4 || per == 8,
        lanes * per <= 32,
    ensures
        packs(r, lo, hi, lanes as int, per as int),
{
    let half = per / 2;
    let count = 2 * lanes;
    let mut r: u32 = 0;
    proof {
        lemma_empty_mask();
    }
    assert(count * half <= 32 && lanes <= 16) by (nonlinear_arith)
        requires
            count == 2 * lanes,
            half == per / 2,
            per == 2 || per == 4 || per == 8,
            lanes * per <= 32,
    ;
    let mut k: usize = 0;
    while k < count
        invariant
            k <= count,
            count == 2 * lanes,
            lanes <= 16,
            half == per / 2,
            per == 2 || per == 4 || per == 8,
            lanes * per <= 32,
            count * half <= 32,
            forall|b: u32|
                b < 32 ==> (#[trigger] bit_set(r, b) <==> (b < k * half && pair_lane(
                    lo,
                    hi,
                    lanes as int,
                    per as int,
                    b as int / half as int,
                ))),
        decreases count - k,
    {
        proof {
            lemma_next_lane(k as int, half as int, count as int);
        }
        let (src, lane) = if k < lanes {
            (lo, k)
        } else {
            (hi, k - lanes)
        };
        assert(lane * per < 32) by (nonlinear_arith)
            requires
                lane < lanes,
                lanes * per <= 32,
                per >= 1,
        ;
        let marked = (src >> ((lane as u32) * per)) & 1 == 1;
        assert(marked == pair_lane(lo, hi, lanes as int, per as int, k as int));
        let old_r = r;
        if marked {
            r = mark_lane(r, k, half);
        }
        assert forall|b: u32| b < 32 implies (#[trigger] bit_set(r, b) <==> (b < (k + 1) * half
            && pair_lane(lo, hi, lanes as int, per as int, b as int / half as int))) by {
            assert(bit_set(old_r, b) <==> (b < k * half && pair_lane(
                lo,
                hi,
                lanes as int,
                per as int,
                b as int / half as int,
            )));
            if k * half <= b < k * half + half {
                lemma_lane_of_bit(b as int, half as int, k as int);
            }
        }
        k += 1;
    }
    r
}

/// Two compare masks over neighbouring windows, packed, describe the joined window.
pub proof fn lemma_pack_joins(
    r: u32,
    lo: u32,
    hi: u32,
    s: Seq<int>,
    t: int,
    start: int,
    lanes: int,
    per: int,
)
    requires
        per == 2 || per == 4 || per == 8,
        lanes >= 0,
        lanes * per <= 32,
        mask_encodes(lo, s, t, start, lanes, per),
        mask_encodes(hi, s, t, start + lanes, lanes, per),
        packs(r, lo, hi, lanes, per),
    ensures
        mask_encodes(r, s, t, start, 2 * lanes, per / 2),
{
    let half = per / 2;
    assert forall|b: u32| b < 32 implies (#[trigger] bit_set(r, b) <==> (b < 2 * lanes * half
        && s[start + b as int / half] == t)) by {
        let k = b as int / half;
        if b < 2 * lanes * half {
            assert(0 <= k < 2 * lanes) by (nonlinear_arith)
                requires
                    0 <= b < 2 * lanes * half,
                    k == b as int / half,
                    half >= 1,
            ;
            let m = if k < lanes {
                k
            } else {
                k - lanes
            };
            assert(0 <= m * per < lanes * per && m * per < 32) by (nonlinear_arith)
                requires
                    0 <= m < lanes,
                    per >= 1,
                    lanes * per <= 32,
            ;
            lemma_lane_of_bit(m * per, per, m);
            if k < lanes {
                assert(bit_set(lo, (m * per) as u32) <==> s[start + m] == t);
            } else {
                assert(bit_set(hi, (m * per) as u32) <==> s[start + lanes + m] == t);
            }
        }
    }
}

/// Decodes a match mask over the window of `count` lanes that starts at `start`:
/// the lowest set bit, divided by the bits that each lane owns, is the offset of
/// the first matching lane; an empty mask means that no lane matched.
fn decode_first(
    mask: u32,
    start: usize,
    count: usize,
    per: u32,
    Ghost(s): Ghost<Seq<int>>,
    Ghost(t): Ghost<int>,
) -> (r: Option<usize>)
    requires
        start + count <= s.len() <= usize::MAX,
        1 <= per <= 8,
        count * per <= 32,
        mask_encodes(mask, s, t, start as int, count as int, per as int),
    ensures
        first_match_in(s, t, start as int, start + count, r),
{
    if mask == 0 {
        assert forall|j: int| start <= j < start + count && 0 <= j < s.len() implies s[j] != t by {
            let k = j - start;
            assert(k * per < count * per) by (nonlinear_arith)
                requires
                    0 <= k < count,
                    per >= 1,
            ;
            let b = (k * per) as u32;
            lemma_zero_mask(b);
            assert(!bit_set(mask, b));
            lemma_lane_of_bit(b as int, per as int, k);
        }
        None
    } else {
        let tz = mask.trailing_zeros();
        proof {
            axiom_u32_trailing_zeros(mask);
        }
        let k = tz / per;
        assert(bit_set(mask, tz));
        assert(k < count) by (nonlinear_arith)
            requires
                tz < count * per,
                k == tz / per,
                per >= 1,
        ;
        assert(k * per <= tz < k * per + per) by (nonlinear_arith)
            requires
                k == tz / per,
                per >= 1,
        ;
        assert forall|j: int| start <= j < start + k && 0 <= j < s.len() implies s[j] != t by {
            let m = j - start;
            assert(m * per < tz) by (nonlinear_arith)
                requires
                    0 <= m < k,
                    k * per <= tz,
                    per >= 1,
            ;
            let b = (m * per) as u32;
            assert((mask >> b) & 1u32 == 0u32);
            assert(!bit_set(mask, b));
            lemma_lane_of_bit(b as int, per as int, m);
        }
        Some(start + k as usize)
    }
}

/// Looks for the target in the window `nums[start .. start + count]` with one
/// vector compare, `per` mask bits for each lane, and decodes the mask.
pub fn probe_window<T: SIMDField>(
    nums: &[T],
    start: usize,
    count: usize,
    per: u32,
    target: &T,
) -> (r: Option<usize>)
    requires
        start + count <= nums.len(),
        1 <= per <= 8,
        count * per <= 32,
    ensures
        first_match_in(values(nums@), target.value(), start as int, start + count, r),
{
    let mask = compare_window(nums, start, count, per, target);
    decode_first(mask, start, count, per, Ghost(values(nums@)), Ghost(target.value()))
}

/// Looks for the target in the two neighbouring windows of `lanes` elements that
/// start at `start`: each is compared at the element width (`per` bytes a lane),
/// the two results are packed into one mask, and that mask is decoded.
pub fn probe_pair<T: SIMDField>(
    nums: &[T],
    start: usize,
    lanes: usize,
    per: u32,
    target: &T,
) -> (r: Option<usize>)
    requires
        start + 2 * lanes <= nums.len(),
        per == 2 || per == 4 || per == 8,
        lanes * per <= 32,
    ensures
        first_match_in(values(nums@), target.value(), start as int, start + 2 * lanes, r),
{
    let ghost s = values(nums@);
    let ghost t = target.value();
    let lo = compare_window(nums, start, lanes, per, target);
    let hi = compare_window(nums, start + lanes, lanes, per, target);
    let packed = pack_saturate(lo, hi, lanes, per);
    proof {
        lemma_pack_joins(packed, lo, hi, s, t, start as int, lanes as int, per as int);
    }
    assert(2 * lanes * (per / 2) <= 32) by (nonlinear_arith)
        requires
            per == 2 || per == 4 || per == 8,
            lanes * per <= 32,
    ;
    decode_first(packed, start, 2 * lanes, per / 2, Ghost(s), Ghost(t))
}

} // verus!
