use b0xx_viewer::backoff::{
    Backoff, DEFAULT_INITIAL_INTERVAL, DEFAULT_MAX_INTERVAL,
    DEFAULT_MULTIPLIER_DENOMINATOR, DEFAULT_MULTIPLIER_NUMERATOR,
};

#[test]
fn default_policy_starts_at_half_a_second() {
    let policy = Backoff::default();
    assert_eq!(policy.initial_interval(), 500);
    assert_eq!(policy.current_interval(), 500);
    assert_eq!(policy.max_interval(), 60_000);
    assert_eq!(DEFAULT_INITIAL_INTERVAL, 500);
    assert_eq!(DEFAULT_MAX_INTERVAL, 60_000);
    assert_eq!(DEFAULT_MULTIPLIER_NUMERATOR, 3);
    assert_eq!(DEFAULT_MULTIPLIER_DENOMINATOR, 2);
}

#[test]
fn default_delays_grow_by_half() {
    let mut policy = Backoff::default();
    let delays: Vec<u64> = (0..14).map(|_| policy.next_delay()).collect();
    assert_eq!(
        delays,
        vec![500, 750, 1125, 1687, 2530, 3795, 5692, 8538, 12807, 19210, 28815, 43222, 60_000, 60_000]
    );
}

#[test]
fn delays_never_shrink_and_never_pass_the_maximum() {
    let mut policy = Backoff::default();
    let mut last = 0;
    for _ in 0..200 {
        let delay = policy.next_delay();
        assert!(delay >= last);
        assert!(delay <= policy.max_interval());
        last = delay;
    }
    assert_eq!(last, 60_000);
}

#[test]
fn reset_goes_back_to_the_initial_interval() {
    let mut policy = Backoff::default();
    for _ in 0..5 {
        policy.next_delay();
    }
    assert_eq!(policy.current_interval(), 3795);
    policy.reset();
    assert_eq!(policy.current_interval(), 500);
    assert_eq!(policy.next_delay(), 500);
    assert_eq!(policy.next_delay(), 750);
}

#[test]
fn policy_with_its_own_settings() {
    let mut policy = Backoff::new(100, 1000, 2, 1).unwrap();
    let delays: Vec<u64> = (0..6).map(|_| policy.next_delay()).collect();
    assert_eq!(delays, vec![100, 200, 400, 800, 1000, 1000]);
}

#[test]
fn multiplier_of_one_keeps_the_interval() {
    let mut policy = Backoff::new(250, 1000, 7, 7).unwrap();
    for _ in 0..10 {
        assert_eq!(policy.next_delay(), 250);
    }
}

#[test]
fn initial_interval_may_be_the_maximum() {
    let mut policy = Backoff::new(1000, 1000, 3, 2).unwrap();
    assert_eq!(policy.next_delay(), 1000);
    assert_eq!(policy.next_delay(), 1000);
}

#[test]
fn zero_interval_stays_zero() {
    let mut policy = Backoff::new(0, 1000, 3, 2).unwrap();
    assert_eq!(policy.next_delay(), 0);
    assert_eq!(policy.next_delay(), 0);
}

#[test]
fn huge_intervals_do_not_overflow() {
    let mut policy = Backoff::new(u64::MAX - 1, u64::MAX, u64::MAX, 1).unwrap();
    assert_eq!(policy.next_delay(), u64::MAX - 1);
    assert_eq!(policy.next_delay(), u64::MAX);
    assert_eq!(policy.next_delay(), u64::MAX);
}

#[test]
fn settings_that_make_no_policy_are_refused() {
    assert_eq!(Backoff::new(500, 60_000, 3, 0), None);
    assert_eq!(Backoff::new(500, 60_000, 1, 2), None);
    assert_eq!(Backoff::new(500, 499, 3, 2), None);
    assert_eq!(Backoff::new(500, 60_000, 0, 0), None);
    assert!(Backoff::new(500, 500, 1, 1).is_some());
}

#[test]
fn new_with_default_settings_is_the_default() {
    assert_eq!(Backoff::new(500, 60_000, 3, 2), Some(Backoff::default()));
}
