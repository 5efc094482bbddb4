use pleiades_worker::time::{Span, MAX_NANOS};

#[test]
fn span_units_agree() {
    assert_eq!(Span::from_secs(2).as_nanos(), 2_000_000_000);
    assert_eq!(Span::from_millis(1500).as_millis(), 1500);
    assert_eq!(Span::from_millis(1500).as_secs(), 1);
    assert_eq!(Span::from_millis(1500).subsec_nanos(), 500_000_000);
    assert_eq!(Span::from_micros(7).as_nanos(), 7_000);
    assert_eq!(Span::from_nanos(2_500).as_micros(), 2);
    assert!(Span::zero().is_zero());
}

#[test]
fn span_checked_arithmetic() {
    let a = Span::from_millis(300);
    let b = Span::from_millis(100);
    assert_eq!(a.checked_sub(b).unwrap().as_millis(), 200);
    assert!(b.checked_sub(a).is_none());
    assert_eq!(b.saturating_sub(a).as_nanos(), 0);
    assert_eq!(a.checked_add(b).unwrap().as_millis(), 400);
    let max = Span::from_nanos(MAX_NANOS);
    assert!(max.checked_add(Span::from_nanos(1)).is_none());
    assert_eq!(max.as_secs(), u64::MAX);
    assert_eq!(max.subsec_nanos(), 999_999_999);
    assert_eq!(b.checked_mul(3).unwrap().as_millis(), 300);
    assert!(max.checked_mul(2).is_none());
    assert_eq!(max.checked_mul(0).unwrap().as_nanos(), 0);
    assert!(b.lt(&a));
    assert!(!a.lt(&b));
}
