use object_pool::{count_free_of, first_free_of, should_recycle};

// The first-available scan picks the first count that reads one, and
// reports exhaustion exactly when no count does.
#[test]
fn first_available_scan_picks_first_count_of_one() {
    let counts: Vec<usize> = vec![2, 1, 1, 3];
    assert_eq!(first_free_of(&counts), Some(1));

    let busy: Vec<usize> = vec![2, 3, 4];
    assert_eq!(first_free_of(&busy), None);

    let none: Vec<usize> = vec![];
    assert_eq!(first_free_of(&none), None);

    let single: Vec<usize> = vec![1];
    assert_eq!(first_free_of(&single), Some(0));
}

// The free counting counts exactly the observations that read one.
#[test]
fn free_count_counts_exactly_the_ones() {
    let mixed: Vec<usize> = vec![1, 2, 1, 3, 1];
    assert_eq!(count_free_of(&mixed), 3);

    let none: Vec<usize> = vec![];
    assert_eq!(count_free_of(&none), 0);

    let busy: Vec<usize> = vec![2, 2];
    assert_eq!(count_free_of(&busy), 0);
}

// The release protocol recycles exactly at a count of two: the releasing
// handle plus the pool's own — neither a free slot nor one with further
// external holders is reset.
#[test]
fn release_decision_fires_exactly_at_two() {
    assert!(!should_recycle(1));
    assert!(should_recycle(2));
    assert!(!should_recycle(3));
}
