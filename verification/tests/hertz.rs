use clk::Hertz;

#[test]
fn hertz_doc_example() {
    let hz = 1_000_000_000;
    let rate = Hertz(hz);

    assert_eq!(rate.as_hz(), hz);
    assert_eq!(rate, Hertz(hz));
    assert_eq!(rate, Hertz::from_khz(hz / 1_000));
    assert_eq!(rate, Hertz::from_mhz(hz / 1_000_000));
    assert_eq!(rate, Hertz::from_ghz(hz / 1_000_000_000));
}

#[test]
fn from_units_scale_up() {
    assert_eq!(Hertz::from_khz(3).as_hz(), 3_000);
    assert_eq!(Hertz::from_mhz(3).as_hz(), 3_000_000);
    assert_eq!(Hertz::from_ghz(3).as_hz(), 3_000_000_000);
    assert_eq!(Hertz::from_khz(0), Hertz(0));
}

#[test]
fn as_units_round_down() {
    let f = Hertz(1_999_999_999);
    assert_eq!(f.as_hz(), 1_999_999_999);
    assert_eq!(f.as_khz(), 1_999_999);
    assert_eq!(f.as_mhz(), 1_999);
    assert_eq!(f.as_ghz(), 1);
    assert_eq!(Hertz(999).as_khz(), 0);
}

#[test]
fn unit_round_trip() {
    for n in [0usize, 1, 7, 1_234, 18_000_000] {
        assert_eq!(Hertz::from_khz(n).as_khz(), n);
        assert_eq!(Hertz::from_mhz(n).as_mhz(), n);
    }
    for n in [0usize, 1, 18] {
        assert_eq!(Hertz::from_ghz(n).as_ghz(), n);
    }
}

#[test]
fn read_back_is_exact_only_for_whole_units() {
    let whole = Hertz(5_000);
    assert_eq!(Hertz::from_khz(whole.as_khz()), whole);
    let ragged = Hertz(5_001);
    assert_eq!(Hertz::from_khz(ragged.as_khz()), Hertz(5_000));
    assert_ne!(Hertz::from_khz(ragged.as_khz()), ragged);
}

#[test]
fn units_nest() {
    for hz in [0usize, 999_999, 1_000_000, 2_345_678_901, usize::MAX] {
        let f = Hertz(hz);
        assert_eq!(f.as_mhz(), f.as_khz() / 1_000);
        assert_eq!(f.as_ghz(), f.as_mhz() / 1_000);
    }
}

#[test]
fn units_agree() {
    assert_eq!(Hertz::from_ghz(2), Hertz::from_mhz(2_000));
    assert_eq!(Hertz::from_ghz(2), Hertz::from_khz(2_000_000));
}

#[test]
fn readings_are_monotonic() {
    let a = Hertz(1_499_999);
    let b = Hertz(1_500_000);
    assert!(a.as_khz() <= b.as_khz());
    assert!(a.as_mhz() <= b.as_mhz());
}

#[test]
fn largest_values_fit() {
    let max_khz = usize::MAX / 1_000;
    assert_eq!(Hertz::from_khz(max_khz).as_hz(), max_khz * 1_000);
    assert_eq!(Hertz(usize::MAX).as_ghz(), 18_446_744_073);
}

#[test]
fn hertz_into_unsigned_long() {
    let raw: usize = Hertz(48_000).into();
    assert_eq!(raw, 48_000);
    assert_eq!(usize::from(Hertz::from_mhz(24)), 24_000_000);
}
