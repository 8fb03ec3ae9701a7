use ra4m2_hal::time_driver::{
    elapsed, RenesasClock, RenesasDriver, TimeError, COUNTER_WIDTH, TICK_HZ, UNDERFLOW_EVENT,
};

#[test]
fn three_wraps_at_three_megahertz_are_65536_microseconds() {
    let mut driver = RenesasDriver::init(3_000_000);
    driver.on_wrap();
    driver.on_wrap();
    driver.on_wrap();
    assert_eq!(driver.period(), 3);
    assert_eq!(driver.frequency(), 3_000_000);
    assert_eq!(driver.now(), Ok(65_536));
    assert_eq!(RenesasClock::default().try_now(&driver), Ok(65_536));
    assert_eq!(elapsed(3, 3_000_000, 1_000_000), Ok(3 * 65_536 * 1_000_000 / 3_000_000));
}

#[test]
fn driver_starts_at_time_zero() {
    let driver = RenesasDriver::init(3_000_000);
    assert_eq!(driver.period(), 0);
    assert_eq!(driver.now(), Ok(0));
    assert!(driver.can_wrap());
}

#[test]
fn time_constants_are_the_documented_ones() {
    assert_eq!(TICK_HZ, 1_000_000);
    assert_eq!(COUNTER_WIDTH, 65_536);
    assert_eq!(UNDERFLOW_EVENT, 0x040);
}

#[test]
fn a_counter_that_does_not_run_has_no_time() {
    let driver = RenesasDriver::init(0);
    assert_eq!(driver.now(), Err(TimeError::NotRunning));
    assert_eq!(elapsed(5, 0, 1_000_000), Err(TimeError::NotRunning));
    assert_eq!(elapsed(0, 0, 0), Err(TimeError::NotRunning));
}

#[test]
fn time_is_rounded_down() {
    assert_eq!(elapsed(1, 3_000_000, 1_000_000), Ok(21_845));
    assert_eq!(elapsed(2, 3_000_000, 1_000_000), Ok(43_690));
    assert_eq!(elapsed(1, 65_536, 1), Ok(1));
    assert_eq!(elapsed(1, 65_537, 1), Ok(0));
    assert_eq!(elapsed(7, 1, 0), Ok(0));
}

#[test]
fn time_that_does_not_fit_is_refused() {
    // 2^32 - 1 wraps of 2^16 ticks, scaled by 2^32 - 1: about 2^80.
    assert_eq!(elapsed(u32::MAX, 1, u32::MAX), Err(TimeError::OutOfRange));
    // At one hertz and a microsecond resolution the limit lies between
    // these two counts of wraps.
    assert_eq!(elapsed(281_474_976, 1, 1_000_000), Ok(18_446_744_027_136_000_000));
    assert_eq!(elapsed(281_474_977, 1, 1_000_000), Err(TimeError::OutOfRange));
}

#[test]
fn largest_count_still_has_a_time_at_three_megahertz() {
    let expected = (u32::MAX as u128 * 65_536 * 1_000_000 / 3_000_000) as u64;
    assert_eq!(elapsed(u32::MAX, 3_000_000, 1_000_000), Ok(expected));
    assert_eq!(expected, 93_824_992_215_040);
}

#[test]
fn time_never_runs_backwards_as_wraps_come_in() {
    for frequency in [1u32, 7, 32_768, 3_000_000, 24_000_000, u32::MAX] {
        let mut driver = RenesasDriver::init(frequency);
        let mut last = driver.now().unwrap();
        for _ in 0..5000 {
            driver.on_wrap();
            let now = driver.now().unwrap();
            assert!(now >= last);
            last = now;
        }
    }
}

#[test]
fn later_count_never_reads_earlier() {
    let counts = [0u32, 1, 2, 3, 1000, 65_535, 65_536, 1 << 24, u32::MAX - 1, u32::MAX];
    for frequency in [3u32, 1_000_000, 3_000_000] {
        for earlier in counts {
            for later in counts {
                if earlier <= later {
                    let a = elapsed(earlier, frequency, 1_000_000);
                    let b = elapsed(later, frequency, 1_000_000);
                    if let (Ok(a), Ok(b)) = (a, b) {
                        assert!(a <= b);
                    }
                    if b.is_ok() {
                        assert!(a.is_ok());
                    }
                }
            }
        }
    }
}

#[test]
fn count_of_wraps_stops_growing_at_its_limit() {
    let mut driver = RenesasDriver::init(3_000_000);
    for _ in 0..10 {
        assert!(driver.can_wrap());
        driver.on_wrap();
    }
    assert_eq!(driver.period(), 10);
}
