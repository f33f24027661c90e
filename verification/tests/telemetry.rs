use ursa_minor_haptics::telemetry::FrameDelta;

#[test]
fn first_reading_is_its_own_change() {
    let mut tracker = FrameDelta::new();
    assert_eq!(tracker.advance((1_000_000, -20_000, 3)), (1_000_000, -20_000, 3));
}

#[test]
fn change_is_taken_since_the_last_reading() {
    let mut tracker = FrameDelta::new();
    tracker.advance((1_000_000, -20_000, 3));
    assert_eq!(tracker.advance((1_250_000, -20_000, 0)), (250_000, 0, -3));
    assert_eq!(tracker.advance((1_250_000, -20_000, 0)), (0, 0, 0));
    assert_eq!(tracker.advance((0, 0, 0)), (-1_250_000, 20_000, 0));
}

#[test]
fn change_is_held_to_the_range_of_a_sample() {
    let mut tracker = FrameDelta::new();
    tracker.advance((i32::MIN, i32::MAX, -1));
    assert_eq!(tracker.advance((i32::MAX, i32::MIN, i32::MAX)), (i32::MAX, i32::MIN, i32::MAX));
    assert_eq!(tracker.advance((i32::MAX, 0, 0)), (0, i32::MAX, -i32::MAX));
}
