use portfolio::limiter::RateLimiter;

#[test]
fn three_requests_fill_the_window() {
    let mut limiter = RateLimiter::new();
    assert!(limiter.check_limit_at("1.2.3.4", 3, 60, 0));
    assert!(limiter.check_limit_at("1.2.3.4", 3, 60, 1));
    assert!(limiter.check_limit_at("1.2.3.4", 3, 60, 2));
    assert_eq!(limiter.timestamps("1.2.3.4"), vec![0, 1, 2]);
}

#[test]
fn fourth_request_in_the_window_is_rejected() {
    let mut limiter = RateLimiter::new();
    for now in 0..3 {
        assert!(limiter.check_limit_at("1.2.3.4", 3, 60, now));
    }
    assert!(!limiter.check_limit_at("1.2.3.4", 3, 60, 3));
    assert_eq!(limiter.timestamps("1.2.3.4"), vec![0, 1, 2]);
}

#[test]
fn request_after_the_window_is_admitted() {
    let mut limiter = RateLimiter::new();
    for now in 0..3 {
        assert!(limiter.check_limit_at("1.2.3.4", 3, 60, now));
    }
    assert!(!limiter.check_limit_at("1.2.3.4", 3, 60, 3));
    // At 61 the entries 0 and 1 are stale (61 and 60 seconds old); the entry
    // 2 is 59 seconds old and stays.
    assert!(limiter.check_limit_at("1.2.3.4", 3, 60, 61));
    assert_eq!(limiter.timestamps("1.2.3.4"), vec![2, 61]);
}

#[test]
fn fully_stale_window_holds_the_new_request_only() {
    let mut limiter = RateLimiter::new();
    for now in 0..3 {
        assert!(limiter.check_limit_at("1.2.3.4", 3, 60, now));
    }
    assert!(limiter.check_limit_at("1.2.3.4", 3, 60, 62));
    assert_eq!(limiter.timestamps("1.2.3.4"), vec![62]);
}

#[test]
fn another_identifier_is_not_affected() {
    let mut limiter = RateLimiter::new();
    for now in 0..3 {
        assert!(limiter.check_limit_at("1.2.3.4", 3, 60, now));
    }
    assert!(!limiter.check_limit_at("1.2.3.4", 3, 60, 3));
    assert!(limiter.check_limit_at("5.6.7.8", 3, 60, 3));
    assert_eq!(limiter.timestamps("5.6.7.8"), vec![3]);
    assert_eq!(limiter.timestamps("1.2.3.4"), vec![0, 1, 2]);
}

#[test]
fn one_request_per_second() {
    let mut limiter = RateLimiter::new();
    assert!(limiter.check_limit_at("1.2.3.4", 1, 1, 0));
    assert!(!limiter.check_limit_at("1.2.3.4", 1, 1, 0));
    assert!(limiter.check_limit_at("1.2.3.4", 1, 1, 1));
    assert_eq!(limiter.timestamps("1.2.3.4"), vec![1]);
}

#[test]
fn first_request_is_admitted_and_recorded() {
    let mut limiter = RateLimiter::new();
    assert!(!limiter.is_known("10.0.0.1"));
    assert_eq!(limiter.count("10.0.0.1"), 0);
    assert!(limiter.check_limit_at("10.0.0.1", 1, 30, 1_000));
    assert!(limiter.is_known("10.0.0.1"));
    assert_eq!(limiter.count("10.0.0.1"), 1);
    assert_eq!(limiter.timestamps("10.0.0.1"), vec![1_000]);
}

#[test]
fn admitted_request_adds_one_to_the_live_entries() {
    let mut limiter = RateLimiter::new();
    assert!(limiter.check_limit_at("a", 5, 10, 100));
    assert!(limiter.check_limit_at("a", 5, 10, 104));
    assert!(limiter.check_limit_at("a", 5, 10, 108));
    // At 112 the entry 100 is stale: two live entries, then three.
    assert!(limiter.check_limit_at("a", 5, 10, 112));
    assert_eq!(limiter.timestamps("a"), vec![104, 108, 112]);
    assert_eq!(limiter.count("a"), 3);
}

#[test]
fn rejected_requests_leave_the_count_at_the_limit() {
    let mut limiter = RateLimiter::new();
    assert!(limiter.check_limit_at("a", 2, 100, 10));
    assert!(limiter.check_limit_at("a", 2, 100, 20));
    for now in 20..60 {
        assert!(!limiter.check_limit_at("a", 2, 100, now));
        assert_eq!(limiter.count("a"), 2);
        assert_eq!(limiter.timestamps("a"), vec![10, 20]);
    }
}

#[test]
fn oldest_entry_aging_out_frees_one_slot() {
    let mut limiter = RateLimiter::new();
    assert!(limiter.check_limit_at("a", 3, 60, 0));
    assert!(limiter.check_limit_at("a", 3, 60, 10));
    assert!(limiter.check_limit_at("a", 3, 60, 20));
    assert!(!limiter.check_limit_at("a", 3, 60, 59));
    assert!(limiter.check_limit_at("a", 3, 60, 60));
    assert_eq!(limiter.timestamps("a"), vec![10, 20, 60]);
    assert!(!limiter.check_limit_at("a", 3, 60, 60));
    assert!(!limiter.check_limit_at("a", 3, 60, 69));
    assert!(limiter.check_limit_at("a", 3, 60, 70));
    assert_eq!(limiter.timestamps("a"), vec![20, 60, 70]);
}

#[test]
fn entry_expires_exactly_at_the_window_boundary() {
    let mut limiter = RateLimiter::new();
    assert!(limiter.check_limit_at("a", 1, 60, 1_000));
    assert!(!limiter.check_limit_at("a", 1, 60, 1_059));
    assert_eq!(limiter.timestamps("a"), vec![1_000]);
    assert!(limiter.check_limit_at("a", 1, 60, 1_060));
    assert_eq!(limiter.timestamps("a"), vec![1_060]);
}

#[test]
fn same_second_requests_count_separately() {
    let mut limiter = RateLimiter::new();
    assert!(limiter.check_limit_at("a", 3, 60, 7));
    assert!(limiter.check_limit_at("a", 3, 60, 7));
    assert!(limiter.check_limit_at("a", 3, 60, 7));
    assert!(!limiter.check_limit_at("a", 3, 60, 7));
    assert_eq!(limiter.timestamps("a"), vec![7, 7, 7]);
}

#[test]
fn identifiers_do_not_share_a_window() {
    let mut both = RateLimiter::new();
    let mut alone = RateLimiter::new();
    for now in 0..10 {
        let with_other = both.check_limit_at("b", 2, 5, now);
        both.check_limit_at("a", 1, 3, now);
        let without_other = alone.check_limit_at("b", 2, 5, now);
        assert_eq!(with_other, without_other);
        assert_eq!(both.timestamps("b"), alone.timestamps("b"));
    }
    assert!(!alone.is_known("a"));
}

#[test]
fn zero_window_rejects_and_stores_nothing() {
    let mut limiter = RateLimiter::new();
    assert!(!limiter.check_limit_at("a", 3, 0, 5));
    assert!(!limiter.is_known("a"));
    assert!(limiter.check_limit_at("a", 3, 60, 5));
    assert!(!limiter.check_limit_at("a", 3, 0, 500));
    assert_eq!(limiter.timestamps("a"), vec![5]);
}

#[test]
fn zero_limit_rejects_but_prunes() {
    let mut limiter = RateLimiter::new();
    assert!(!limiter.check_limit_at("a", 0, 60, 5));
    assert!(limiter.is_known("a"));
    assert_eq!(limiter.count("a"), 0);
    assert!(limiter.check_limit_at("a", 1, 60, 5));
    assert!(!limiter.check_limit_at("a", 0, 60, 65));
    assert_eq!(limiter.count("a"), 0);
}

#[test]
fn entries_after_now_stay_live() {
    let mut limiter = RateLimiter::new();
    assert!(limiter.check_limit_at("a", 2, 10, 100));
    // The clock was set back: the entry 100 lies ahead and still counts.
    assert!(limiter.check_limit_at("a", 2, 10, 50));
    assert_eq!(limiter.timestamps("a"), vec![100, 50]);
    assert!(!limiter.check_limit_at("a", 2, 10, 55));
}

#[test]
fn latest_second_does_not_overflow() {
    let mut limiter = RateLimiter::new();
    assert!(limiter.check_limit_at("a", 2, u64::MAX, 0));
    assert!(limiter.check_limit_at("a", 2, u64::MAX, u64::MAX - 1));
    assert!(!limiter.check_limit_at("a", 2, u64::MAX, u64::MAX - 1));
    assert!(limiter.check_limit_at("a", 2, u64::MAX, u64::MAX));
    assert_eq!(limiter.timestamps("a"), vec![u64::MAX - 1, u64::MAX]);
}

#[test]
fn empty_identifier_is_a_key_like_any_other() {
    let mut limiter = RateLimiter::new();
    assert!(limiter.check_limit_at("", 1, 60, 0));
    assert!(!limiter.check_limit_at("", 1, 60, 1));
    assert!(limiter.check_limit_at(" ", 1, 60, 1));
}

#[test]
fn wall_clock_check_records_the_current_second() {
    let before = portfolio::clock::unix_seconds();
    let mut limiter = RateLimiter::new();
    assert!(limiter.check_limit("a", 2, 3_600));
    assert!(limiter.check_limit("a", 2, 3_600));
    assert!(!limiter.check_limit("a", 2, 3_600));
    assert!(!limiter.check_limit("b", 2, 0));
    let after = portfolio::clock::unix_seconds();
    let stored = limiter.timestamps("a");
    assert_eq!(stored.len(), 2);
    assert!(before <= stored[0] && stored[0] <= stored[1] && stored[1] <= after);
    // Well after 2020-01-01 and well before the year 2100.
    assert!(before > 1_577_836_800 && after < 4_102_444_800);
}

#[test]
fn never_more_than_the_limit_in_any_window() {
    let max_requests = 3;
    let window_secs = 10;
    let mut limiter = RateLimiter::new();
    let mut admitted: Vec<u64> = Vec::new();
    // Bursts, gaps and repeats, never backwards.
    let mut now = 0;
    for step in 0..400u64 {
        now += (step * 7 + 3) % 5;
        if limiter.check_limit_at("a", max_requests, window_secs, now) {
            admitted.push(now);
        }
        assert!(limiter.count("a") <= max_requests);
    }
    assert!(admitted.len() > max_requests);
    for start in 0..=now {
        let inside = admitted.iter().filter(|t| start <= **t && **t < start + window_secs).count();
        assert!(inside <= max_requests);
    }
}
