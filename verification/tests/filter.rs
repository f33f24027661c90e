use ursa_minor_haptics::filter::HighPassFilter3D;

#[test]
fn filter_passes_an_impulse_scaled_by_alpha() {
    let mut filter = HighPassFilter3D::new(900_000);
    assert_eq!(filter.filter((5_000_000, 0, 0)), (4_500_000, 0, 0));
}

#[test]
fn filter_rings_after_an_impulse() {
    let mut filter = HighPassFilter3D::new(900_000);
    filter.filter((5_000_000, 0, 0));
    assert_eq!(filter.filter((0, 0, 0)), (-450_000, 0, 0));
    assert_eq!(filter.filter((0, 0, 0)), (-405_000, 0, 0));
    assert_eq!(filter.filter((0, 0, 0)), (-364_500, 0, 0));
}

#[test]
fn filter_removes_a_constant_input() {
    let mut filter = HighPassFilter3D::new(900_000);
    let mut out = (0, 0, 0);
    let mut n = 0;
    while n < 400 {
        out = filter.filter((1_000_000, -2_000_000, 9_810_000));
        n += 1;
    }
    assert_eq!(out, (0, 0, 0));
}

#[test]
fn filter_output_stays_zero_on_zero_input() {
    let mut filter = HighPassFilter3D::new(900_000);
    let mut n = 0;
    while n < 1_000 {
        assert_eq!(filter.filter((0, 0, 0)), (0, 0, 0));
        n += 1;
    }
}

#[test]
fn filter_treats_the_axes_alike_and_rounds_towards_zero() {
    let mut filter = HighPassFilter3D::new(900_000);
    assert_eq!(filter.filter((-5_000_000, 3, -7)), (-4_500_000, 2, -6));
    assert_eq!(filter.filter((1, 1, 1)), (450_000, 0, 1));
}

#[test]
fn filter_is_odd_in_its_input() {
    let mut up = HighPassFilter3D::new(731_000);
    let mut down = HighPassFilter3D::new(731_000);
    let inputs = [(12_345, -6_789, 1), (0, 55, -1_000_000), (-3, 3, 2_000_000_000)];
    for input in inputs {
        let a = up.filter(input);
        let b = down.filter((-input.0, -input.1, -input.2));
        assert_eq!(a, (-b.0, -b.1, -b.2));
    }
}

#[test]
fn filter_holds_its_output_to_the_range_of_a_sample() {
    let mut filter = HighPassFilter3D::new(4_000_000_000);
    assert_eq!(filter.filter((i32::MAX, i32::MIN, 5)), (i32::MAX, i32::MIN, 20_000));
    assert_eq!(filter.filter((i32::MIN, i32::MAX, 0)), (i32::MIN, i32::MAX, 79_980_000));
}

#[test]
fn filter_with_alpha_zero_is_silent() {
    let mut filter = HighPassFilter3D::new(0);
    assert_eq!(filter.filter((5_000_000, -5_000_000, 1)), (0, 0, 0));
    assert_eq!(filter.filter((i32::MIN, i32::MAX, 1)), (0, 0, 0));
}

#[test]
fn filter_with_alpha_one_follows_the_input() {
    let mut filter = HighPassFilter3D::new(1_000_000);
    assert_eq!(filter.filter((2_000_000, 0, 0)), (2_000_000, 0, 0));
    assert_eq!(filter.filter((1_000_000, 0, 0)), (1_000_000, 0, 0));
    assert_eq!(filter.filter((1_000_000, 0, 0)), (1_000_000, 0, 0));
}
