use vstd::prelude::*;

use crate::field::SIMDField;
use crate::mask::{probe_pair, probe_window};
use crate::model::{first_match, first_match_in, values};
use crate::unit::{register_bits, VectorUnit};

verus! {

/// Scalar scan: the first index at or after `from` whose element equals `target`.
pub fn linear_search_generic<T: SIMDField>(nums: &[T], target: &T, from: usize) -> (r: Option<
    usize,
>)
    ensures
        first_match(values(nums@), target.value(), from as int, r),
{
    let ghost s = values(nums@);
    let mut i = from;
    while i < nums.len()
        invariant
            from <= i,
            s == values(nums@),
            forall|j: int| from <= j < i && j < s.len() ==> s[j] != target.value(),
        decreases nums.len() - i,
    {
        if nums[i].eq_value(target) {
            return Some(i);
        }
        i += 1;
    }
    None
}

/// Vectorized linear scan on a chosen vector unit; returns the first index whose
/// element equals `target`.
///
/// Each step compares a stride of whole registers: one register for 8-bit
/// elements; for wider ones two, compared at the element width and packed into
/// one mask, so that a lane owns `width / 16` mask bits. Only strides that lie
/// wholly inside the slice are loaded: the vector loop stops at
/// `len / stride * stride`, and the scalar scan takes the rest.
pub fn linear_search_with<T: SIMDField>(unit: VectorUnit, nums: &[T], target: T) -> (r: Option<
    usize,
>)
    ensures
        first_match(values(nums@), target.value(), 0, r),
{
    let ghost s = values(nums@);
    let ghost t = target.value();
    let bits = T::size_in_bits();
    let lanes = unit.lanes::<T>();
    let bytes = (bits / 8) as u32;
    let stride: usize = if bits == 8 {
        lanes
    } else {
        2 * lanes
    };
    assert(1 <= lanes <= 32 && lanes * bytes <= 32 && stride >= 1) by {
        let reg = register_bits(unit);
        assert(reg == 128 || reg == 256);
        assert(lanes * bytes * 8 == reg && lanes >= 1) by (nonlinear_arith)
            requires
                lanes * bits == reg,
                bytes == bits / 8,
                bits == 8 || bits == 16 || bits == 32 || bits == 64,
                reg == 128 || reg == 256,
        ;
    }
    let rounds = nums.len() / stride;
    let mut round: usize = 0;
    let mut from: usize = 0;
    while round < rounds
        invariant
            stride >= 1,
            bits == 8 ==> stride == lanes,
            bits != 8 ==> stride == 2 * lanes,
            lanes * bytes <= 32,
            bits == 8 <==> bytes == 1,
            bytes == 1 || bytes == 2 || bytes == 4 || bytes == 8,
            rounds == nums.len() / stride,
            round <= rounds,
            from == round * stride,
            s == values(nums@),
            t == target.value(),
            forall|j: int| 0 <= j < from && j < s.len() ==> s[j] != t,
        decreases rounds - round,
    {
        assert(from + stride <= nums.len()) by (nonlinear_arith)
            requires
                from == round * stride,
                round < rounds,
                rounds == nums.len() / stride,
                stride >= 1,
        ;
        let hit = if bits == 8 {
            probe_window(nums, from, lanes, 1, &target)
        } else {
            probe_pair(nums, from, lanes, bytes, &target)
        };
        if hit.is_some() {
            return hit;
        }
        from = from + stride;
        round = round + 1;
        assert(from == round * stride) by (nonlinear_arith)
            requires
                from == (round - 1) * stride + stride,
        ;
    }
    let tail = linear_search_generic(nums, &target, from);
    assert(from <= nums.len()) by (nonlinear_arith)
        requires
            from == rounds * stride,
            rounds == nums.len() / stride,
            stride >= 1,
    ;
    tail
}

/// Vectorized linear scan on 128-bit registers; returns the first index whose
/// element equals `target`.
pub fn linear_search<T: SIMDField>(nums: &[T], target: T) -> (r: Option<usize>)
    ensures
        first_match(values(nums@), target.value(), 0, r),
{
    linear_search_with(VectorUnit::Sse, nums, target)
}

} // verus!
