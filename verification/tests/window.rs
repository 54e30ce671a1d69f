use portfolio::window::prune;

#[test]
fn prune_keeps_entries_younger_than_the_window() {
    assert_eq!(prune(&vec![0, 1, 2], 61, 60), vec![2]);
    assert_eq!(prune(&vec![0, 1, 2], 60, 60), vec![1, 2]);
    assert_eq!(prune(&vec![0, 1, 2], 59, 60), vec![0, 1, 2]);
    assert_eq!(prune(&vec![0, 1, 2], 62, 60), Vec::<u64>::new());
}

#[test]
fn prune_keeps_order_and_duplicates() {
    assert_eq!(prune(&vec![5, 9, 5, 9, 1], 10, 5), vec![9, 9]);
    assert_eq!(prune(&vec![3, 3, 3], 4, 2), vec![3, 3, 3]);
}

#[test]
fn prune_of_nothing_is_nothing() {
    assert_eq!(prune(&Vec::new(), 10, 5), Vec::<u64>::new());
}

#[test]
fn prune_under_a_zero_window_keeps_only_what_lies_ahead() {
    assert_eq!(prune(&vec![1, 10, 11, 20], 10, 0), vec![11, 20]);
}

#[test]
fn prune_takes_the_largest_values() {
    assert_eq!(prune(&vec![0, u64::MAX], u64::MAX, u64::MAX), vec![u64::MAX]);
    assert_eq!(prune(&vec![0, u64::MAX], 0, 1), vec![0, u64::MAX]);
}
