use jsonsql::pool::timeout::{TimeVal, Timeout};

#[test]
fn whole_seconds_stay_whole_seconds() {
    assert_eq!(Timeout::from_secs(5), Timeout { secs: 5, nanos: 0 });
    assert_eq!(Timeout::from_secs(5).to_timeval(), TimeVal { sec: 5, usec: 0 });
    assert_eq!(Timeout::from_secs(1).to_timeval(), TimeVal { sec: 1, usec: 0 });
}

#[test]
fn zero_is_zero_and_nothing_else_is() {
    assert!(Timeout { secs: 0, nanos: 0 }.is_zero());
    assert!(!Timeout { secs: 0, nanos: 1 }.is_zero());
    assert!(!Timeout { secs: 1, nanos: 0 }.is_zero());
    assert_eq!(Timeout { secs: 0, nanos: 0 }.to_timeval(), TimeVal { sec: 0, usec: 0 });
    assert_eq!(Timeout { secs: 0, nanos: 1 }.to_timeval(), TimeVal { sec: 0, usec: 1 });
}

#[test]
fn nanoseconds_round_up_to_microseconds() {
    assert_eq!(Timeout { secs: 0, nanos: 999 }.to_timeval(), TimeVal { sec: 0, usec: 1 });
    assert_eq!(Timeout { secs: 0, nanos: 1_000 }.to_timeval(), TimeVal { sec: 0, usec: 1 });
    assert_eq!(Timeout { secs: 0, nanos: 1_001 }.to_timeval(), TimeVal { sec: 0, usec: 2 });
    assert_eq!(
        Timeout { secs: 3, nanos: 250_000_000 }.to_timeval(),
        TimeVal { sec: 3, usec: 250_000 }
    );
    assert_eq!(
        Timeout { secs: 3, nanos: 999_999_000 }.to_timeval(),
        TimeVal { sec: 3, usec: 999_999 }
    );
}

#[test]
fn rounding_up_carries_into_the_seconds() {
    assert_eq!(
        Timeout { secs: 1, nanos: 999_999_999 }.to_timeval(),
        TimeVal { sec: 2, usec: 0 }
    );
    assert_eq!(
        Timeout { secs: 1, nanos: 999_999_001 }.to_timeval(),
        TimeVal { sec: 2, usec: 0 }
    );
}

#[test]
fn nanoseconds_beyond_a_second_count_as_seconds() {
    assert_eq!(
        Timeout { secs: 0, nanos: 1_000_000_000 }.to_timeval(),
        TimeVal { sec: 1, usec: 0 }
    );
    assert_eq!(
        Timeout { secs: 0, nanos: u32::MAX }.to_timeval(),
        TimeVal { sec: 4, usec: 294_968 }
    );
}

#[test]
fn seconds_that_do_not_fit_give_the_longest_wait() {
    let longest = TimeVal { sec: i64::MAX, usec: 999_999 };
    assert_eq!(Timeout { secs: u64::MAX, nanos: 0 }.to_timeval(), longest);
    assert_eq!(Timeout { secs: u64::MAX, nanos: u32::MAX }.to_timeval(), longest);
    assert_eq!(Timeout { secs: i64::MAX as u64 + 1, nanos: 0 }.to_timeval(), longest);
    assert_eq!(
        Timeout { secs: i64::MAX as u64, nanos: 999_999_999 }.to_timeval(),
        longest
    );
    assert_eq!(
        Timeout { secs: i64::MAX as u64, nanos: 0 }.to_timeval(),
        TimeVal { sec: i64::MAX, usec: 0 }
    );
    assert_eq!(
        Timeout { secs: i64::MAX as u64, nanos: 5_000 }.to_timeval(),
        TimeVal { sec: i64::MAX, usec: 5 }
    );
}
