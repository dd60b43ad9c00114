use bst_rs::linear_search;

#[test]
fn linear_test_u8s_sse_bst() {
    for size in 1..=u8::MAX {
        let nums = (0..size).into_iter().collect::<Vec<_>>();
        for target in 0..size {
            let res = linear_search(&nums, target);
            assert!(res.is_some());
            assert_eq!(res.unwrap(), target as usize);
        }
    }
}

#[test]
fn linear_test_i8s_sse_bst() {
    for size in 1..=u8::MAX {
        let half = (size / 2) as i8;
        let i8s = (0 - half..0 + half).into_iter().collect::<Vec<_>>();
        let indexs = i8s.iter().enumerate().collect::<Vec<_>>();
        for (idx, target) in indexs {
            let ans = linear_search(&i8s, *target);
            assert!(ans.is_some());
            assert_eq!(ans.unwrap(), idx);
        }
    }
}

#[test]
fn linear_test_u16s_bst() {
    for size in 1u16..=1024 {
        let nums = (0..size).into_iter().collect::<Vec<_>>();
        for target in 0..size {
            let res = linear_search(&nums, target);
            assert!(res.is_some());
            assert_eq!(res.unwrap(), target as usize);
        }
    }
}

#[test]
fn linear_test_i16s_bst() {
    for size in 1u16..=1024 {
        let half = (size / 2) as i16;
        let i16s = (0 - half..0 + half).into_iter().collect::<Vec<_>>();
        let indexs = i16s.iter().enumerate().collect::<Vec<_>>();
        for (idx, target) in indexs {
            let ans = linear_search(&i16s, *target);
            assert!(ans.is_some());
            assert_eq!(ans.unwrap(), idx);
        }
    }
}

#[test]
fn linear_test_u32s_bst() {
    for size in 1u32..=1024 {
        let nums = (0..size).into_iter().collect::<Vec<_>>();
        for target in 0..size {
            let res = linear_search(&nums, target);
            assert!(res.is_some());
            assert_eq!(res.unwrap(), target as usize);
        }
    }
}

#[test]
fn linear_test_i32s_bst() {
    for size in 1u32..=1024 {
        let half = (size / 2) as i32;
        let i16s = (0 - half..0 + half).into_iter().collect::<Vec<_>>();
        let indexs = i16s.iter().enumerate().collect::<Vec<_>>();
        for (idx, target) in indexs {
            let ans = linear_search(&i16s, *target);
            assert!(ans.is_some());
            assert_eq!(ans.unwrap(), idx);
        }
    }
}

#[test]
fn linear_test_u64s_bst() {
    for size in 1u64..=1024 {
        let nums = (0..size).into_iter().collect::<Vec<_>>();
        for target in 0..size {
            let res = linear_search(&nums, target);
            assert!(res.is_some());
            assert_eq!(res.unwrap(), target as usize);
        }
    }
}

#[test]
fn linear_test_i64s_bst() {
    for size in 1u32..=1024 {
        let half = (size / 2) as i64;
        let i64s = (0 - half..0 + half).into_iter().collect::<Vec<_>>();
        let indexs = i64s.iter().enumerate().collect::<Vec<_>>();
        for (idx, target) in indexs {
            let ans = linear_search(&i64s, *target);
            assert!(ans.is_some());
            assert_eq!(ans.unwrap(), idx);
        }
    }
}
