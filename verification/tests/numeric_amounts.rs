use progress_monitor::prelude::NumericWork;
use progress_monitor::prelude::Work;

#[test]
fn numeric_basics() {
    let z = NumericWork::zero();
    assert!(z.is_zero());
    let five = NumericWork::new(5);
    assert!(!five.is_zero());
    assert_eq!(five.value(), 5);
    assert!(z.le(&five));
    assert!(!five.le(&z));
    assert_eq!(NumericWork::min(&five, &NumericWork::new(3)).value(), 3);
    let seven: NumericWork = 7u64.into();
    assert_eq!(seven.value(), 7);
    let eight: NumericWork = 8u32.into();
    assert_eq!(eight.value(), 8);
}

#[test]
fn numeric_addition_and_subtraction() {
    let sum = NumericWork::new(2).add(NumericWork::new(3)).unwrap();
    assert_eq!(sum.value(), 5);
    assert_eq!(sum.sub(&NumericWork::new(1)).value(), 4);
}

#[test]
fn numeric_addition_rejects_overflow() {
    let err = NumericWork::new(u64::MAX).add(NumericWork::new(1));
    assert!(err.is_err());
    assert_eq!(
        err.unwrap_err().msg,
        "the combined amount exceeds the representable range"
    );
}

#[test]
fn numeric_proportional_scaling_rounds_down() {
    // 1000 of 5000 sub units on a slice of 100 parent units: exactly 20.
    let d = NumericWork::parent_work_done_when(
        &NumericWork::new(1000),
        &NumericWork::new(5000),
        &NumericWork::new(100),
    );
    assert_eq!(d.value(), 20);
    // 1 of 3 sub units on a slice of 100 parent units: 33.33... rounds to 33.
    let d = NumericWork::parent_work_done_when(
        &NumericWork::new(1),
        &NumericWork::new(3),
        &NumericWork::new(100),
    );
    assert_eq!(d.value(), 33);
    // 2 of 11 sub units on a slice of 1000 parent units: 181.81... rounds to 181.
    let d = NumericWork::parent_work_done_when(
        &NumericWork::new(2),
        &NumericWork::new(11),
        &NumericWork::new(1000),
    );
    assert_eq!(d.value(), 181);
}

#[test]
fn numeric_accrue_clamps() {
    let c = NumericWork::new(8).accrue(&NumericWork::new(5), &NumericWork::new(10));
    assert_eq!(c.value(), 10);
    let c = NumericWork::new(3).accrue(&NumericWork::new(5), &NumericWork::new(10));
    assert_eq!(c.value(), 8);
}
