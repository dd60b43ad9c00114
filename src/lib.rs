use vstd::prelude::*;

mod bst;
mod field;
mod laws;
mod linear;
mod mask;
mod model;
mod unit;

pub use bst::{binary_search, binary_search_with};
pub use field::SIMDField;
pub use laws::{
    lemma_absent_never_found, lemma_first_match_is_search_result, lemma_present_always_found,
    lemma_searches_agree,
};
pub use linear::{linear_search, linear_search_generic, linear_search_with};
pub use mask::{
    bit_set, compare_window, lemma_pack_joins, mask_encodes, pack_saturate, packs, pair_lane,
    probe_pair, probe_window,
};
pub use model::{absent_in, distinct, first_match, first_match_in, search_result, sorted, values};
pub use unit::{avx_round, register_bits, sse_round, VectorUnit};

verus! {

/// Default data volume, 131072 bits (128 Ki), up to which the linear scan is chosen.
pub const LINEAR_SCAN_MAX_BITS: u64 = 131072;

/// Strategy choice: the vectorized linear scan for volumes up to `limit_bits`,
/// the hybrid binary search above.
pub open spec fn prefers_linear(len: nat, width: nat, limit_bits: nat) -> bool {
    len * width <= limit_bits
}

/// Searches `nums` with the strategy that its volume calls for: `len * width` bits
/// up to `limit_bits` go to the vectorized linear scan, which returns the first
/// match; larger volumes go to the hybrid binary search.
pub fn auto_search_with<T: SIMDField>(
    unit: VectorUnit,
    limit_bits: u64,
    nums: &[T],
    target: T,
) -> (r: Option<usize>)
    ensures
        search_result(values(nums@), target.value(), r),
        prefers_linear(nums@.len(), T::width(), limit_bits as nat) ==> first_match(
            values(nums@),
            target.value(),
            0,
            r,
        ),
{
    let bits = T::size_in_bits();
    let total_bits: u128 = nums.len() as u128 * bits as u128;
    if total_bits <= limit_bits as u128 {
        let r = linear_search_with(unit, nums, target);
        proof {
            lemma_first_match_is_search_result(values(nums@), target.value(), r);
        }
        r
    } else {
        binary_search_with(unit, nums, target)
    }
}

/// Searches `nums` on 128-bit registers, choosing the strategy by data volume
/// with the default limit of 128 KiB of bits.
pub fn binary_search_auto<T: SIMDField>(nums: &[T], target: T) -> (r: Option<usize>)
    ensures
        search_result(values(nums@), target.value(), r),
        prefers_linear(nums@.len(), T::width(), LINEAR_SCAN_MAX_BITS as nat) ==> first_match(
            values(nums@),
            target.value(),
            0,
            r,
        ),
{
    auto_search_with(VectorUnit::Sse, LINEAR_SCAN_MAX_BITS, nums, target)
}

} // verus!
