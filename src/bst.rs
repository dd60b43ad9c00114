use vstd::prelude::*;

use crate::field::SIMDField;
use crate::mask::probe_window;
use crate::model::{absent_in, search_result, sorted, values};
use crate::unit::{register_bits, VectorUnit};

verus! {

/// Hybrid vectorized binary search on a chosen vector unit.
///
/// Bisects the closed range `[lo, hi - 1]`. Each time the range moves away from
/// the pivot, one register's worth of elements at the new boundary is compared
/// against the target (a lane owns `width / 8` mask bits), and a match there ends
/// the search early. A probe that finds nothing decides nothing: absence is
/// reported only once the range is empty. On input that is not sorted an index
/// that is returned still holds the target.
pub fn binary_search_with<T: SIMDField>(unit: VectorUnit, nums: &[T], target: T) -> (r: Option<
    usize,
>)
    ensures
        search_result(values(nums@), target.value(), r),
{
    let ghost s = values(nums@);
    let ghost t = target.value();
    let bits = T::size_in_bits();
    let lanes = unit.lanes::<T>();
    let per = (bits / 8) as u32;
    assert(lanes * per <= 32 && 1 <= per <= 8) by {
        let reg = register_bits(unit);
        assert(reg == 128 || reg == 256);
        assert(lanes * per * 8 == reg) by (nonlinear_arith)
            requires
                lanes * bits == reg,
                per == bits / 8,
                bits == 8 || bits == 16 || bits == 32 || bits == 64,
        ;
    }
    let len = nums.len();
    let mut lo: usize = 0;
    let mut hi: usize = len;
    while lo < hi
        invariant
            lo <= hi <= len,
            len == nums@.len(),
            lanes * per <= 32,
            1 <= per <= 8,
            s == values(nums@),
            t == target.value(),
            sorted(s) ==> absent_in(s, t, 0, lo as int),
            sorted(s) ==> absent_in(s, t, hi as int, len as int),
        decreases hi - lo,
    {
        let pivot = lo + (hi - 1 - lo) / 2;
        if nums[pivot].eq_value(&target) {
            return Some(pivot);
        }
        if target.lt_value(&nums[pivot]) {
            assert(sorted(s) ==> absent_in(s, t, pivot as int, len as int)) by {
                if sorted(s) {
                    assert forall|j: int| pivot <= j < len implies s[j] != t by {
                        assert(s[pivot as int] <= s[j]);
                    }
                }
            }
            hi = pivot;
            if hi >= lanes {
                let hit = probe_window(nums, hi - lanes, lanes, per, &target);
                if hit.is_some() {
                    return hit;
                }
            }
        } else {
            assert(sorted(s) ==> absent_in(s, t, 0, pivot + 1)) by {
                if sorted(s) {
                    assert forall|j: int| 0 <= j <= pivot implies s[j] != t by {
                        assert(s[j] <= s[pivot as int]);
                    }
                }
            }
            lo = pivot + 1;
            if lanes <= len - lo {
                let hit = probe_window(nums, lo, lanes, per, &target);
                if hit.is_some() {
                    return hit;
                }
            }
        }
    }
    None
}

/// Hybrid vectorized binary search on 128-bit registers.
pub fn binary_search<T: SIMDField>(nums: &[T], target: T) -> (r: Option<usize>)
    ensures
        search_result(values(nums@), target.value(), r),
{
    binary_search_with(VectorUnit::Sse, nums, target)
}

} // verus!
