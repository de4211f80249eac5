use quickfib::{fibbonacci, fibbonacci_range};

#[test]
fn calc_1() {
    let result = fibbonacci(2);
    assert_eq!(result, 1);
}

#[test]
fn calc_2() {
    let result = fibbonacci(20);
    assert_eq!(result, 6765);
}

#[test]
fn calc_3() {
    let result = fibbonacci(30);
    assert_eq!(result, 832040);
}

#[test]
fn calc_4() {
    let result = fibbonacci::<u128>(100);
    assert_eq!(result, 354224848179261915075);
}

#[test]
fn calc_range() {
    let result = fibbonacci_range((0..=9).collect());
    assert_eq!(result, vec![0, 1, 1, 2, 3, 5, 8, 13, 21, 34]);
}

#[test]
fn base_cases() {
    assert_eq!(fibbonacci(0u32), 0);
    assert_eq!(fibbonacci(1u32), 1);
    assert_eq!(fibbonacci(2u32), 1);
    assert_eq!(fibbonacci(3u32), 2);
}

#[test]
fn known_values_on_every_width() {
    assert_eq!(fibbonacci(10u8), 55);
    assert_eq!(fibbonacci(20u16), 6765);
    assert_eq!(fibbonacci(30u64), 832040);
    assert_eq!(fibbonacci(30usize), 832040);
    assert_eq!(fibbonacci(10i8), 55);
    assert_eq!(fibbonacci(20i16), 6765);
    assert_eq!(fibbonacci(30i64), 832040);
    assert_eq!(fibbonacci(30isize), 832040);
    assert_eq!(fibbonacci(100i128), 354224848179261915075);
}

#[test]
fn recurrence_holds_up_to_the_u64_boundary() {
    for n in 2u64..=93 {
        assert_eq!(fibbonacci(n), fibbonacci(n - 1) + fibbonacci(n - 2));
    }
}

#[test]
fn range_matches_single_values() {
    let indices: Vec<u64> = vec![7, 0, 93, 1, 50, 50];
    let result = fibbonacci_range(indices.clone());
    assert_eq!(result.len(), indices.len());
    for (i, n) in indices.iter().enumerate() {
        assert_eq!(result[i], fibbonacci(*n));
    }
    assert_eq!(result[4], 12586269025);
}

#[test]
fn range_of_nothing_is_empty() {
    let result: Vec<u32> = fibbonacci_range(Vec::new());
    assert!(result.is_empty());
}

#[test]
fn range_keeps_input_order() {
    let result = fibbonacci_range(vec![9u16, 8, 7, 3]);
    assert_eq!(result, vec![34, 21, 13, 2]);
}

#[test]
fn monotone_over_u32() {
    let mut previous = fibbonacci(0u32);
    for n in 1u32..=47 {
        let current = fibbonacci(n);
        assert!(previous <= current);
        previous = current;
    }
}

#[test]
fn repeated_calls_agree() {
    assert_eq!(fibbonacci(77u64), fibbonacci(77u64));
    assert_eq!(fibbonacci(77u64), 5527939700884757);
}

#[test]
fn largest_index_per_unsigned_width() {
    assert_eq!(fibbonacci(13u8), 233);
    assert_eq!(fibbonacci(24u16), 46368);
    assert_eq!(fibbonacci(47u32), 2971215073);
    assert_eq!(fibbonacci(93u64), 12200160415121876738);
    assert_eq!(fibbonacci(186u128), 332825110087067562321196029789634457848);
}

#[test]
fn largest_index_per_signed_width() {
    assert_eq!(fibbonacci(11i8), 89);
    assert_eq!(fibbonacci(23i16), 28657);
    assert_eq!(fibbonacci(46i32), 1836311903);
    assert_eq!(fibbonacci(92i64), 7540113804746346429);
    assert_eq!(fibbonacci(184i128), 127127879743834334146972278486287885163);
}

#[test]
fn next_index_past_the_width_overflows() {
    assert_eq!(fibbonacci(12u8).checked_add(fibbonacci(13u8)), None);
    assert_eq!(fibbonacci(23u16).checked_add(fibbonacci(24u16)), None);
    assert_eq!(fibbonacci(46u32).checked_add(fibbonacci(47u32)), None);
    assert_eq!(fibbonacci(92u64).checked_add(fibbonacci(93u64)), None);
    assert_eq!(fibbonacci(185u128).checked_add(fibbonacci(186u128)), None);
    assert_eq!(fibbonacci(45i32).checked_add(fibbonacci(46i32)), None);
}
