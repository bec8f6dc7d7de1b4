use jewel::ll::timer::{check_interval, MAX_ADV_DELAY, MAX_INTERVAL, MIN_INTERVAL};
use jewel::ll::{AdvertisingTimer, IntervalError};
use rand::rngs::SmallRng;
use rand::SeedableRng;

fn rng() -> SmallRng {
    SmallRng::seed_from_u64(42)
}

#[test]
fn interval_bounds() {
    assert_eq!(MIN_INTERVAL, 20_000);
    assert_eq!(MAX_INTERVAL, 10_485_759_375);
    // 19 ms and 10,485.76 s
    assert_eq!(AdvertisingTimer::new(rng(), 19_000, 0).err(), Some(IntervalError::TooShort));
    assert_eq!(AdvertisingTimer::new(rng(), 10_485_760_000, 0).err(), Some(IntervalError::TooLong));
    assert_eq!(AdvertisingTimer::new(rng(), 19_999, 0).err(), Some(IntervalError::TooShort));
    assert_eq!(AdvertisingTimer::new(rng(), 10_485_759_376, 0).err(), Some(IntervalError::TooLong));
    assert_eq!(AdvertisingTimer::new(rng(), 0, 0).err(), Some(IntervalError::TooShort));
    assert_eq!(AdvertisingTimer::new(rng(), u64::MAX, 0).err(), Some(IntervalError::TooLong));
    // 20 ms and 10,485.759375 s
    assert!(AdvertisingTimer::new(rng(), 20_000, 0).is_ok());
    assert!(AdvertisingTimer::new(rng(), 10_485_759_375, 0).is_ok());

    assert_eq!(check_interval(19_000), Err(IntervalError::TooShort));
    assert_eq!(check_interval(20_000), Ok(()));
    assert_eq!(check_interval(10_485_759_375), Ok(()));
    assert_eq!(check_interval(10_485_760_000), Err(IntervalError::TooLong));
}

#[test]
fn first_event_is_now() {
    let mut timer = AdvertisingTimer::new(rng(), 300_000, 123_456).ok().unwrap();
    assert_eq!(timer.interval(), 300_000);
    assert_eq!(timer.scheduled(), 123_456);
    assert_eq!(timer.next_event(), 123_456);
    // looking at the schedule does not move it
    let next = timer.scheduled();
    assert_eq!(timer.scheduled(), next);
    assert_eq!(timer.next_event(), next);
}

#[test]
fn instants_increase_by_interval_and_delay() {
    for interval in [MIN_INTERVAL, 300_000, MAX_INTERVAL] {
        let mut timer = AdvertisingTimer::new(rng(), interval, 1_000).ok().unwrap();
        let mut last = timer.next_event();
        let mut delays = Vec::new();
        for _ in 0..1000 {
            assert!(timer.can_advance());
            let event = timer.next_event();
            assert!(event > last);
            assert!(event - last >= interval);
            assert!(event - last < interval + MAX_ADV_DELAY);
            delays.push(event - last - interval);
            last = event;
        }
        // the delay is drawn anew for each event
        assert!(delays.iter().any(|delay| *delay != delays[0]));
        assert!(delays.iter().any(|delay| *delay > 0));
    }
}

#[test]
fn next_after() {
    assert_eq!(AdvertisingTimer::next_after(1_000, 20_000, 0), 21_000);
    assert_eq!(AdvertisingTimer::next_after(1_000, 20_000, 9_999), 30_999);
    assert_eq!(AdvertisingTimer::next_after(0, MAX_INTERVAL, 1), 10_485_759_376);
}

#[test]
fn end_of_the_clock() {
    let timer = AdvertisingTimer::new(rng(), MIN_INTERVAL, u64::MAX - 30_000).ok().unwrap();
    assert!(timer.can_advance());
    let timer = AdvertisingTimer::new(rng(), MIN_INTERVAL, u64::MAX - 29_999).ok().unwrap();
    assert!(!timer.can_advance());
    let timer = AdvertisingTimer::new(rng(), MAX_INTERVAL, u64::MAX).ok().unwrap();
    assert!(!timer.can_advance());
}
