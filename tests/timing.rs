use ruka::timebase::{rescale, rescale_opt, Rational};

#[test]
fn rescale_48k_to_44k_one_second() {
    let from = Rational::new(1, 48000);
    let to = Rational::new(1, 44100);
    assert_eq!(rescale(48000, from, to), Some(44100));
}

#[test]
fn rescale_rounds_halves_away_from_zero() {
    let half = Rational::new(1, 2);
    let one = Rational::new(1, 1);
    assert_eq!(rescale(1, half, one), Some(1));
    assert_eq!(rescale(-1, half, one), Some(-1));
    assert_eq!(rescale(3, half, one), Some(2));
    assert_eq!(rescale(-3, half, one), Some(-2));
}

#[test]
fn rescale_rounds_to_nearest() {
    let from = Rational::new(1, 3);
    let to = Rational::new(1, 1);
    assert_eq!(rescale(1, from, to), Some(0));
    assert_eq!(rescale(2, from, to), Some(1));
    assert_eq!(rescale(4, from, to), Some(1));
    assert_eq!(rescale(-2, from, to), Some(-1));
}

#[test]
fn rescale_identity_and_zero() {
    let tb = Rational::new(1, 44100);
    assert_eq!(rescale(123456, tb, tb), Some(123456));
    assert_eq!(rescale(0, tb, Rational::new(1, 8000)), Some(0));
}

#[test]
fn rescale_reports_overflow() {
    let from = Rational::new(1, 1);
    let to = Rational::new(1, 1000);
    assert_eq!(rescale(i64::MAX, from, to), None);
    assert_eq!(rescale(i64::MIN, from, to), None);
    assert_eq!(rescale(i64::MAX / 1000, from, to), Some(i64::MAX / 1000 * 1000));
}

#[test]
fn rescale_keeps_order_on_samples() {
    let from = Rational::new(1, 48000);
    let to = Rational::new(1, 44100);
    let mut last = i64::MIN;
    let mut t: i64 = -5000;
    while t < 5000 {
        let r = rescale(t, from, to).unwrap();
        assert!(r >= last);
        last = r;
        t += 7;
    }
}

#[test]
fn rescale_opt_keeps_missing_timestamp() {
    let from = Rational::new(1, 48000);
    let to = Rational::new(1, 44100);
    assert_eq!(rescale_opt(None, from, to), Ok(None));
    assert_eq!(rescale_opt(Some(96000), from, to), Ok(Some(88200)));
    assert_eq!(rescale_opt(Some(i64::MAX), Rational::new(2, 1), Rational::new(1, 1)), Err(()));
}

#[test]
fn time_base_validity() {
    assert!(Rational::new(1, 48000).is_valid());
    assert!(!Rational::new(0, 48000).is_valid());
    assert!(!Rational::new(1, 0).is_valid());
    assert!(!Rational::new(-1, 5).is_valid());
}
