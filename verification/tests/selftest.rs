use ursa_minor_haptics::selftest::{
    SelfTest, SelfTestStep, SELF_TEST_DURATION, SELF_TEST_FINAL_PAUSE, SELF_TEST_PERIOD,
    SELF_TEST_STEP_PAUSE,
};

#[test]
fn self_test_constants() {
    assert_eq!(SELF_TEST_DURATION, 2_000_000);
    assert_eq!(SELF_TEST_STEP_PAUSE, 10_000);
    assert_eq!(SELF_TEST_FINAL_PAUSE, 100_000);
    assert_eq!(SELF_TEST_PERIOD, 255);
}

#[test]
fn self_test_ramps_then_falls_silent() {
    let mut test = SelfTest::new();
    assert_eq!(test.sent(), 0);
    assert_eq!(test.next(0), SelfTestStep::Send { value: 0, pause: 10_000 });
    assert_eq!(test.next(10_000), SelfTestStep::Send { value: 1, pause: 10_000 });
    assert_eq!(test.next(20_000), SelfTestStep::Send { value: 2, pause: 10_000 });
    assert_eq!(test.next(1_999_999), SelfTestStep::Send { value: 3, pause: 10_000 });
    assert_eq!(test.next(2_000_000), SelfTestStep::Send { value: 0, pause: 100_000 });
    assert_eq!(test.sent(), 5);
    assert_eq!(test.next(2_100_000), SelfTestStep::Done);
    assert_eq!(test.next(0), SelfTestStep::Done);
    assert_eq!(test.sent(), 5);
}

#[test]
fn self_test_ramp_starts_over_at_255() {
    let mut test = SelfTest::new();
    let mut n: u32 = 0;
    while n < 600 {
        let want = (n % 255) as u8;
        assert_eq!(test.next(5), SelfTestStep::Send { value: want, pause: 10_000 });
        n += 1;
    }
    assert_eq!(test.sent(), 600);
}

#[test]
fn self_test_paced_by_its_pauses_sends_two_hundred_values_and_a_silence() {
    let mut test = SelfTest::new();
    let mut elapsed: u64 = 0;
    let mut values = Vec::new();
    loop {
        match test.next(elapsed) {
            SelfTestStep::Send { value, pause } => {
                values.push(value);
                elapsed += pause;
            }
            SelfTestStep::Done => break,
        }
    }
    assert_eq!(values.len(), 201);
    assert_eq!(values[0], 0);
    assert_eq!(values[199], 199);
    assert_eq!(values[200], 0);
    assert_eq!(elapsed, 2_100_000);
    assert_eq!(test.sent(), 201);
}

#[test]
fn self_test_that_starts_late_sends_the_silence_only() {
    let mut test = SelfTest::new();
    assert_eq!(test.next(u64::MAX), SelfTestStep::Send { value: 0, pause: 100_000 });
    assert_eq!(test.next(u64::MAX), SelfTestStep::Done);
    assert_eq!(test.sent(), 1);
}
