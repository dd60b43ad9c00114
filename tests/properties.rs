use bst_rs::{
    auto_search_with, avx_round, binary_search, binary_search_auto, binary_search_with,
    compare_window, linear_search,
    pack_saturate, probe_pair, linear_search_generic, linear_search_with, probe_window,
    sse_round, SIMDField, VectorUnit, LINEAR_SCAN_MAX_BITS,
};

/// Runs every search on one input and checks each answer against the scalar scan.
fn check_searches<T: SIMDField + PartialEq + std::fmt::Debug>(nums: &[T], target: T) {
    let expected = linear_search_generic(nums, &target, 0);
    for unit in [VectorUnit::Sse, VectorUnit::Avx2] {
        assert_eq!(linear_search_with(unit, nums, target), expected);
        let found = binary_search_with(unit, nums, target);
        assert_eq!(found.is_some(), expected.is_some());
        if let Some(j) = found {
            assert_eq!(nums[j], target);
        }
        let auto = auto_search_with(unit, 0, nums, target);
        assert_eq!(auto.is_some(), expected.is_some());
    }
    assert_eq!(linear_search(nums, target), expected);
    assert_eq!(binary_search(nums, target).is_some(), expected.is_some());
    assert_eq!(binary_search_auto(nums, target).is_some(), expected.is_some());
    if let Some(i) = expected {
        assert_eq!(nums[i], target);
        assert!(nums[..i].iter().all(|x| *x != target));
    } else {
        assert!(nums.iter().all(|x| *x != target));
    }
}

/// Lengths around every stride and probe window of both vector units.
fn boundary_lengths() -> Vec<usize> {
    let mut lens = vec![0, 1];
    for stride in [2usize, 4, 8, 16, 32, 64] {
        lens.push(stride - 1);
        lens.push(stride);
        lens.push(stride + 1);
    }
    lens
}

#[test]
fn scenario_u8_last_of_range() {
    let nums: Vec<u8> = (0..=254u8).collect();
    assert_eq!(binary_search_auto(&nums, 254), Some(254));
    assert_eq!(linear_search(&nums, 254), Some(254));
    assert_eq!(binary_search(&nums, 254), Some(254));
    assert_eq!(linear_search_generic(&nums, &254, 0), Some(254));
}

#[test]
fn scenario_i8_first_of_range() {
    let nums: Vec<i8> = (-128..=127i8).collect();
    assert_eq!(nums.len(), 256);
    assert_eq!(binary_search_auto(&nums, -128), Some(0));
    assert_eq!(linear_search(&nums, -128), Some(0));
    assert_eq!(binary_search(&nums, -128), Some(0));
    assert_eq!(linear_search_generic(&nums, &-128, 0), Some(0));
}

#[test]
fn scenario_u16_gap_is_absent() {
    let nums: Vec<u16> = (1..=100u16).map(|i| i * 10).collect();
    assert_eq!(binary_search_auto(&nums, 999), None);
    assert_eq!(linear_search(&nums, 999), None);
    assert_eq!(binary_search(&nums, 999), None);
    assert_eq!(linear_search_generic(&nums, &999, 0), None);
}

#[test]
fn scenario_empty_is_absent() {
    let nums: Vec<u32> = Vec::new();
    assert_eq!(binary_search_auto(&nums, 7), None);
    assert_eq!(linear_search(&nums, 7), None);
    assert_eq!(binary_search(&nums, 7), None);
    assert_eq!(linear_search_generic(&nums, &7, 0), None);
}

#[test]
fn scenario_duplicates_any_index() {
    let nums: Vec<i32> = vec![5, 5, 5];
    for r in [binary_search_auto(&nums, 5), binary_search(&nums, 5)] {
        let j = r.unwrap();
        assert!(j < 3);
    }
    assert_eq!(linear_search(&nums, 5), Some(0));
    assert_eq!(linear_search_generic(&nums, &5, 0), Some(0));
}

#[test]
fn equivalence_on_distinct_values() {
    let nums: Vec<i16> = (0..300i16).map(|i| 3 * i - 400).collect();
    for t in -410..=510i16 {
        let scalar = linear_search_generic(&nums, &t, 0);
        assert_eq!(linear_search(&nums, t), scalar);
        assert_eq!(binary_search(&nums, t), scalar);
        assert_eq!(binary_search_auto(&nums, t), scalar);
        assert_eq!(binary_search_with(VectorUnit::Avx2, &nums, t), scalar);
    }
}

#[test]
fn present_elements_found_with_duplicates() {
    let nums: Vec<u64> = (0..500u64).map(|i| i / 7).collect();
    for i in 0..nums.len() {
        let j = binary_search(&nums, nums[i]).unwrap();
        assert_eq!(nums[j], nums[i]);
        let k = binary_search_auto(&nums, nums[i]).unwrap();
        assert_eq!(nums[k], nums[i]);
    }
}

#[test]
fn absent_outside_and_in_gaps() {
    let nums: Vec<i64> = vec![-50, -10, -10, 0, 4, 4, 9, 100];
    for t in [-51i64, -11, -5, 1, 3, 5, 8, 10, 99, 101] {
        assert_eq!(binary_search_auto(&nums, t), None);
        assert_eq!(linear_search(&nums, t), None);
        assert_eq!(binary_search(&nums, t), None);
        assert_eq!(linear_search_generic(&nums, &t, 0), None);
    }
}

#[test]
fn boundary_lengths_u8_i8() {
    for n in boundary_lengths() {
        let nums: Vec<u8> = (0..n).map(|i| (2 * i) as u8).collect();
        let signed: Vec<i8> = (0..n).map(|i| (i as i8) - 40).collect();
        for t in 0..=(2 * n + 1) {
            check_searches(&nums, t as u8);
        }
        for t in -42..=(n as i8) - 38 {
            check_searches(&signed, t);
        }
    }
}

#[test]
fn boundary_lengths_u16_i16() {
    for n in boundary_lengths() {
        let nums: Vec<u16> = (0..n).map(|i| (2 * i) as u16).collect();
        let signed: Vec<i16> = (0..n).map(|i| 2 * (i as i16) - 40).collect();
        for t in 0..=(2 * n + 1) {
            check_searches(&nums, t as u16);
            check_searches(&signed, t as i16 - 41);
        }
    }
}

#[test]
fn boundary_lengths_u32_i32() {
    for n in boundary_lengths() {
        let nums: Vec<u32> = (0..n).map(|i| (2 * i) as u32).collect();
        let signed: Vec<i32> = (0..n).map(|i| 2 * (i as i32) - 40).collect();
        for t in 0..=(2 * n + 1) {
            check_searches(&nums, t as u32);
            check_searches(&signed, t as i32 - 41);
        }
    }
}

#[test]
fn boundary_lengths_u64_i64() {
    for n in boundary_lengths() {
        let nums: Vec<u64> = (0..n).map(|i| (2 * i) as u64).collect();
        let signed: Vec<i64> = (0..n).map(|i| 2 * (i as i64) - 40).collect();
        for t in 0..=(2 * n + 1) {
            check_searches(&nums, t as u64);
            check_searches(&signed, t as i64 - 41);
        }
    }
}

#[test]
fn extreme_values_each_width() {
    check_searches(&[u8::MIN, 1, u8::MAX], u8::MAX);
    check_searches(&[i8::MIN, -1, 0, i8::MAX], i8::MIN);
    check_searches(&[u16::MIN, u16::MAX], u16::MAX);
    check_searches(&[i16::MIN, i16::MAX], i16::MAX);
    check_searches(&[u32::MIN, u32::MAX], u32::MAX);
    check_searches(&[i32::MIN, i32::MAX], i32::MIN);
    check_searches(&[u64::MIN, u64::MAX], u64::MAX);
    check_searches(&[i64::MIN, -1, i64::MAX], -1);
}

#[test]
fn scalar_scan_from_offset() {
    let nums: Vec<u32> = vec![1, 2, 3, 2, 1];
    assert_eq!(linear_search_generic(&nums, &2, 0), Some(1));
    assert_eq!(linear_search_generic(&nums, &2, 2), Some(3));
    assert_eq!(linear_search_generic(&nums, &2, 4), None);
    assert_eq!(linear_search_generic(&nums, &1, 5), None);
    assert_eq!(linear_search_generic(&nums, &1, 9), None);
}

#[test]
fn large_volume_uses_bisection() {
    // 20000 bytes is 160000 bits, above the default limit.
    let nums: Vec<u8> = (0..20000u32).map(|i| (i / 100) as u8).collect();
    assert!(nums.len() as u64 * 8 > LINEAR_SCAN_MAX_BITS);
    for t in 0..200u8 {
        let j = binary_search_auto(&nums, t).unwrap();
        assert_eq!(nums[j], t);
    }
    assert_eq!(binary_search_auto(&nums, 200), None);
    assert_eq!(binary_search_auto(&nums, 255), None);
}

#[test]
fn limit_decides_strategy() {
    let nums: Vec<u16> = vec![3, 3, 3, 3, 3, 3, 3, 3, 3];
    // Within the limit the linear scan answers with the first match.
    assert_eq!(auto_search_with(VectorUnit::Sse, 144, &nums, 3), Some(0));
    assert_eq!(auto_search_with(VectorUnit::Avx2, 1 << 20, &nums, 3), Some(0));
    // Above it bisection answers with the pivot of the first step.
    assert_eq!(auto_search_with(VectorUnit::Sse, 143, &nums, 3), Some(4));
    assert_eq!(auto_search_with(VectorUnit::Sse, 0, &nums, 4), None);
}

#[test]
fn lane_counts() {
    assert_eq!(sse_round::<u8>(), 16);
    assert_eq!(sse_round::<i16>(), 8);
    assert_eq!(sse_round::<u32>(), 4);
    assert_eq!(sse_round::<i64>(), 2);
    assert_eq!(avx_round::<i8>(), 32);
    assert_eq!(avx_round::<u16>(), 16);
    assert_eq!(avx_round::<i32>(), 8);
    assert_eq!(avx_round::<u64>(), 4);
    assert_eq!(VectorUnit::Avx2.lanes::<u32>(), 8);
    assert_eq!(VectorUnit::Sse.lanes::<u8>(), 16);
}

#[test]
fn widths_and_narrowing() {
    assert_eq!(<u8 as SIMDField>::size_in_bits(), 8);
    assert_eq!(<i16 as SIMDField>::size_in_bits(), 16);
    assert_eq!(<u32 as SIMDField>::size_in_bits(), 32);
    assert_eq!(<i64 as SIMDField>::size_in_bits(), 64);
    assert_eq!(200u8.unchecked_i8(), -56);
    assert_eq!(300u16.unchecked_u8(), 44);
    assert_eq!((-2i32).unchecked_u16(), 65534);
    assert_eq!((-1i8).unchecked_u64(), u64::MAX);
    assert_eq!(u64::MAX.unchecked_i64(), -1);
    assert_eq!(70000u32.unchecked_i16(), 4464);
    assert_eq!((-5i64).unchecked_i32(), -5);
    assert_eq!(u32::MAX.unchecked_u32(), u32::MAX);
    assert!(3u8.eq_value(&3));
    assert!(!3u8.eq_value(&4));
    assert!((-3i16).lt_value(&2));
    assert!(!2u64.lt_value(&2));
}

#[test]
fn mask_layout_and_decode() {
    let nums: Vec<u32> = vec![1, 2, 3, 2, 9, 9];
    // Two bits per lane: lanes 1 and 3 match.
    assert_eq!(compare_window(&nums, 0, 4, 2, &2), 0b1100_1100);
    // One bit per lane, window starting at 2.
    assert_eq!(compare_window(&nums, 2, 4, 1, &9), 0b1100);
    // Eight bits per lane.
    assert_eq!(compare_window(&nums, 4, 2, 8, &9), 0xFFFF);
    assert_eq!(compare_window(&nums, 0, 4, 4, &7), 0);
    assert_eq!(probe_window(&nums, 0, 4, 2, &2), Some(1));
    assert_eq!(probe_window(&nums, 2, 4, 4, &2), Some(3));
    assert_eq!(probe_window(&nums, 2, 4, 1, &9), Some(4));
    assert_eq!(probe_window(&nums, 0, 4, 8, &9), None);
}

#[test]
fn pack_narrows_lanes() {
    // Four lanes of four bits each: lanes 0 and 2 of `lo`, lane 3 of `hi`.
    assert_eq!(pack_saturate(0x0F0F, 0xF000, 4, 4), 0xC033);
    // Two lanes of eight bits each.
    assert_eq!(pack_saturate(0xFF00, 0x00FF, 2, 8), 0xFF0);
    assert_eq!(pack_saturate(0, 0, 8, 2), 0);
    assert_eq!(pack_saturate(0xFFFF, 0xFFFF, 8, 2), 0xFFFF);
}

#[test]
fn paired_windows_decode() {
    let nums: Vec<u16> = (0..17u16).collect();
    assert_eq!(probe_pair(&nums, 0, 8, 2, &11), Some(11));
    assert_eq!(probe_pair(&nums, 0, 8, 2, &3), Some(3));
    assert_eq!(probe_pair(&nums, 0, 8, 2, &16), None);
    assert_eq!(probe_pair(&nums, 1, 8, 2, &16), Some(16));
    let wide: Vec<i64> = vec![-4, -3, -3, 8];
    assert_eq!(probe_pair(&wide, 0, 2, 8, &-3), Some(1));
    assert_eq!(probe_pair(&wide, 0, 2, 8, &8), Some(3));
    assert_eq!(probe_pair(&wide, 0, 2, 8, &0), None);
}
