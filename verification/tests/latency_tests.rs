use bci_pipeline::latency::latency_of;
use bci_pipeline::latency::median_index;
use bci_pipeline::latency::p99_index;
use bci_pipeline::latency::sort_ascending;

#[test]
fn latency_is_the_difference_to_now() {
    assert_eq!(latency_of(1_000, 400), 600);
    assert_eq!(latency_of(1_000, 1_000), 0);
    assert_eq!(latency_of(u64::MAX, 0), u64::MAX);
}

#[test]
fn latency_of_a_future_sample_is_zero() {
    assert_eq!(latency_of(1_000, 1_001), 0);
    assert_eq!(latency_of(0, u64::MAX), 0);
}

#[test]
fn median_index_is_half_the_length() {
    assert_eq!(median_index(0), 0);
    assert_eq!(median_index(1), 0);
    assert_eq!(median_index(2), 1);
    assert_eq!(median_index(5), 2);
    assert_eq!(median_index(100), 50);
    assert_eq!(median_index(usize::MAX), usize::MAX / 2);
}

#[test]
fn p99_index_follows_the_formula() {
    assert_eq!(p99_index(0), 0);
    assert_eq!(p99_index(1), 0);
    assert_eq!(p99_index(2), 1);
    assert_eq!(p99_index(5), 4);
    assert_eq!(p99_index(99), 98);
    assert_eq!(p99_index(100), 99);
    assert_eq!(p99_index(101), 99);
    assert_eq!(p99_index(199), 197);
    assert_eq!(p99_index(200), 198);
    assert_eq!(p99_index(1000), 990);
}

#[test]
fn p99_index_agrees_with_wide_arithmetic() {
    let lengths: Vec<usize> = vec![3, 17, 250, 4096, 65_537, 1_000_003, usize::MAX - 1, usize::MAX];
    for n in lengths {
        let wide = (n as u128) * 99 / 100;
        let expected = std::cmp::min(wide, n as u128 - 1) as usize;
        assert_eq!(p99_index(n), expected);
    }
}

#[test]
fn sorting_orders_the_values() {
    assert_eq!(sort_ascending(&vec![]), Vec::<u64>::new());
    assert_eq!(sort_ascending(&vec![7]), vec![7]);
    assert_eq!(sort_ascending(&vec![40, 30, 20, 10, 0]), vec![0, 10, 20, 30, 40]);
    assert_eq!(sort_ascending(&vec![3, 1, 3, 2, 1, 0, u64::MAX]), vec![0, 1, 1, 2, 3, 3, u64::MAX]);
}

#[test]
fn sorting_keeps_every_value() {
    let mut values: Vec<u64> = Vec::new();
    let mut x: u64 = 12345;
    for _ in 0..500 {
        x = x.wrapping_mul(6364136223846793005).wrapping_add(1442695040888963407);
        values.push(x >> 40);
    }
    let mut expected = values.clone();
    expected.sort();
    assert_eq!(sort_ascending(&values), expected);
}
