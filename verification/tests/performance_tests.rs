use openvx::Performance;

#[test]
fn zero_record_has_no_measurements() {
    let p = Performance::zero();
    assert!(p.is_zero());
    assert_eq!(p.num, 0);
    assert_eq!(Performance::default(), p);
}

#[test]
fn record_folds_measurements() {
    let mut p = Performance::zero();
    p.record(40);
    assert_eq!(p.num, 1);
    assert_eq!(p.beg, 40);
    assert_eq!(p.end, 40);
    assert_eq!(p.min, 40);
    assert_eq!(p.max, 40);
    assert_eq!(p.sum, 40);
    assert_eq!(p.avg, 40);
    p.record(10);
    p.record(70);
    assert_eq!(p.num, 3);
    assert_eq!(p.beg, 40);
    assert_eq!(p.end, 70);
    assert_eq!(p.tmp, 70);
    assert_eq!(p.min, 10);
    assert_eq!(p.max, 70);
    assert_eq!(p.sum, 120);
    assert_eq!(p.avg, 40);
}

#[test]
fn record_saturates_instead_of_wrapping() {
    let mut p = Performance::zero();
    p.record(u64::MAX);
    p.record(3);
    assert_eq!(p.num, 2);
    assert_eq!(p.sum, u64::MAX);
    assert_eq!(p.min, 3);
    assert_eq!(p.max, u64::MAX);
}
