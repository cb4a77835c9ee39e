use asdbctl::brightness::{
    nits_to_percent, percent_to_nits, step_down, step_up, MAX_BRIGHTNESS, MIN_BRIGHTNESS,
};

#[test]
fn percent_ends_are_range_ends() {
    assert_eq!(percent_to_nits(0), MIN_BRIGHTNESS);
    assert_eq!(percent_to_nits(0), 400);
    assert_eq!(percent_to_nits(100), MAX_BRIGHTNESS);
    assert_eq!(percent_to_nits(100), 60000);
}

#[test]
fn percent_to_nits_is_the_interpolation() {
    for p in 0u8..=100 {
        let exact = 400 + (60000 - 400) * p as u32 / 100;
        let nits = percent_to_nits(p);
        assert!(nits + 1 >= exact && nits <= exact + 1);
        assert_eq!(nits, exact);
        assert_eq!(nits_to_percent(nits), p);
    }
    assert_eq!(percent_to_nits(50), 30200);
    assert_eq!(percent_to_nits(60), 36160);
}

#[test]
fn percent_above_scale_is_clamped() {
    assert_eq!(percent_to_nits(101), 60000);
    assert_eq!(percent_to_nits(255), 60000);
}

#[test]
fn nits_to_percent_rounds_down_and_saturates() {
    assert_eq!(nits_to_percent(30200), 50);
    assert_eq!(nits_to_percent(30795), 50);
    assert_eq!(nits_to_percent(30796), 51);
    assert_eq!(nits_to_percent(0), 0);
    assert_eq!(nits_to_percent(400), 0);
    assert_eq!(nits_to_percent(59999), 99);
    assert_eq!(nits_to_percent(60000), 100);
    assert_eq!(nits_to_percent(u32::MAX), 100);
}

#[test]
fn step_up_saturates_at_100() {
    assert_eq!(step_up(50, 10), 60);
    assert_eq!(step_up(95, 10), 100);
    assert_eq!(step_up(100, 100), 100);
}

#[test]
fn step_down_from_five_by_ten_is_zero() {
    assert_eq!(step_down(5, 10), 0);
    assert_eq!(step_down(50, 10), 40);
    assert_eq!(step_down(10, 10), 0);
    assert_eq!(step_down(100, 100), 0);
}
