use calculator::backend::{calculate, conclude};
use calculator::error::ServiceError;
use calculator::number::Number;
use calculator::record::{Calculation, Evaluation, UNDEFINED_DIVISION};
use calculator::request::{require_operands, Operands};

fn number(value: f64) -> Number {
    Number::from_bits(value.to_bits())
}

fn operands(num1: f64, num2: f64) -> Operands {
    Operands { num1: number(num1), num2: number(num2) }
}

fn evaluate(num1: f64, num2: f64) -> Evaluation {
    Evaluation {
        sum: number(num1 + num2),
        difference: number(num1 - num2),
        product: number(num1 * num2),
        quotient: (num1 / num2).to_string(),
    }
}

fn run(num1: f64, num2: f64) -> Calculation {
    calculate(operands(num1, num2), evaluate(num1, num2))
}

#[test]
fn hundred_and_hundred() {
    let record = run(100.0, 100.0);
    assert_eq!(
        record,
        Calculation {
            num1: number(100.0),
            num2: number(100.0),
            addition: number(200.0),
            subtraction: number(0.0),
            multiplication: number(10000.0),
            division: "1".to_string(),
        }
    );
}

#[test]
fn seven_by_zero_is_undefined() {
    let record = run(7.0, 0.0);
    assert_eq!(record.division, "undefined (division by zero)");
    assert_eq!(record.num1, number(7.0));
    assert_eq!(record.num2, number(0.0));
    assert_eq!(record.addition, number(7.0));
    assert_eq!(record.subtraction, number(7.0));
    assert_eq!(record.multiplication, number(0.0));
}

#[test]
fn the_sentinel_is_the_documented_text() {
    assert_eq!(UNDEFINED_DIVISION, "undefined (division by zero)");
}

#[test]
fn negative_zero_is_a_zero_divisor() {
    let record = run(7.0, -0.0);
    assert_eq!(record.division, UNDEFINED_DIVISION);
    assert_eq!(record.num2.to_bits(), 0x8000_0000_0000_0000);
}

#[test]
fn zero_by_zero_is_undefined() {
    assert_eq!(run(0.0, 0.0).division, UNDEFINED_DIVISION);
}

#[test]
fn five_by_two() {
    let record = run(5.0, 2.0);
    assert_eq!(record.addition, number(7.0));
    assert_eq!(record.subtraction, number(3.0));
    assert_eq!(record.multiplication, number(10.0));
    assert_eq!(record.division, "2.5");
}

#[test]
fn fractions_and_signs_are_kept() {
    let record = run(-1.5, 2.25);
    assert_eq!(f64::from_bits(record.addition.to_bits()), 0.75);
    assert_eq!(f64::from_bits(record.subtraction.to_bits()), -3.75);
    assert_eq!(f64::from_bits(record.multiplication.to_bits()), -3.375);
    let quotient: f64 = record.division.parse().unwrap();
    assert!((quotient - (-1.5 / 2.25)).abs() <= f64::EPSILON);
}

#[test]
fn a_tiny_divisor_is_not_zero() {
    let tiny = f64::from_bits(1);
    let record = run(1.0, tiny);
    assert_eq!(record.division, "inf");
    let record = run(0.0, tiny);
    assert_eq!(record.division, "0");
}

#[test]
fn a_nan_divisor_is_not_zero() {
    let record = run(1.0, f64::NAN);
    assert_eq!(record.division, "NaN");
}

#[test]
fn the_record_is_built_from_the_evaluation() {
    let evaluation = Evaluation {
        sum: Number::from_bits(11),
        difference: Number::from_bits(12),
        product: Number::from_bits(13),
        quotient: "14".to_string(),
    };
    let record = calculate(operands(3.0, 4.0), evaluation);
    assert_eq!(record.num1, number(3.0));
    assert_eq!(record.num2, number(4.0));
    assert_eq!(record.addition.to_bits(), 11);
    assert_eq!(record.subtraction.to_bits(), 12);
    assert_eq!(record.multiplication.to_bits(), 13);
    assert_eq!(record.division, "14");
}

#[test]
fn zero_is_told_by_the_bits() {
    assert!(number(0.0).is_zero());
    assert!(number(-0.0).is_zero());
    assert!(Number::from_bits(0).is_zero());
    assert!(Number::from_bits(0x8000_0000_0000_0000).is_zero());
    assert!(!number(1.0).is_zero());
    assert!(!number(-1.0).is_zero());
    assert!(!number(f64::NAN).is_zero());
    assert!(!number(f64::INFINITY).is_zero());
    assert!(!number(f64::MIN_POSITIVE).is_zero());
    assert!(!Number::from_bits(1).is_zero());
    assert!(!Number::from_bits(0x8000_0000_0000_0001).is_zero());
    assert!(!Number::from_bits(0x7fff_ffff_ffff_ffff).is_zero());
}

#[test]
fn bits_go_in_and_out_unchanged() {
    for bits in [0u64, 1, 0x4059_0000_0000_0000, 0x8000_0000_0000_0000, u64::MAX] {
        assert_eq!(Number::from_bits(bits).to_bits(), bits);
        assert_eq!(Number::from_bits(bits).bits, bits);
    }
    assert_eq!(number(100.0).to_bits(), 0x4059_0000_0000_0000);
}

#[test]
fn both_parameters_are_required() {
    let one = number(1.0);
    let two = number(2.0);
    assert_eq!(require_operands(Some(one), Some(two)), Ok(Operands { num1: one, num2: two }));
    assert_eq!(require_operands(Some(one), None), Err(ServiceError::ClientInput));
    assert_eq!(require_operands(None, Some(two)), Err(ServiceError::ClientInput));
    assert_eq!(require_operands(None, None), Err(ServiceError::ClientInput));
}

#[test]
fn a_missing_second_parameter_is_a_client_error_and_leaves_no_row() {
    let mut store: Vec<Calculation> = Vec::new();
    let reply = match require_operands(Some(number(5.0)), None) {
        Ok(operands) => {
            let record = calculate(operands, evaluate(5.0, 0.0));
            store.push(record.clone());
            conclude(record, true)
        }
        Err(error) => Err(error),
    };
    assert_eq!(reply, Err(ServiceError::ClientInput));
    assert_eq!(ServiceError::ClientInput.status(), 400);
    assert!(store.is_empty());
}

#[test]
fn the_reply_is_the_record_that_was_stored() {
    let record = run(5.0, 2.0);
    assert_eq!(conclude(record.clone(), true), Ok(record));
}

#[test]
fn a_record_that_was_not_stored_is_not_replied() {
    assert_eq!(conclude(run(5.0, 2.0), false), Err(ServiceError::Storage));
}

#[test]
fn the_two_zeros_are_the_same_value() {
    assert!(number(0.0).same_value(number(-0.0)));
    assert!(number(-0.0).same_value(number(0.0)));
    assert!(number(0.0).same_value(number(0.0)));
    assert_ne!(number(0.0), number(-0.0));
}

#[test]
fn other_values_are_the_same_only_with_the_same_bits() {
    assert!(number(1.5).same_value(number(1.5)));
    assert!(number(f64::NAN).same_value(number(f64::NAN)));
    assert!(!number(1.5).same_value(number(-1.5)));
    assert!(!number(1.0).same_value(number(0.0)));
    assert!(!number(0.0).same_value(Number::from_bits(1)));
    assert!(!number(-0.0).same_value(Number::from_bits(0x8000_0000_0000_0001)));
    assert!(!number(f64::INFINITY).same_value(number(f64::NEG_INFINITY)));
}

#[test]
fn records_are_compared_by_value() {
    let record = run(-0.0, 3.0);
    let mut stored = record.clone();
    stored.num1 = number(0.0);
    stored.multiplication = number(0.0);
    assert!(record.same_values(&stored));
    assert!(stored.same_values(&record));
    assert!(record.same_values(&record));
    assert_ne!(record, stored);

    let mut other = record.clone();
    other.division = "0".to_string();
    assert!(!record.same_values(&other));
    let mut other = record.clone();
    other.num2 = number(4.0);
    assert!(!record.same_values(&other));
    let mut other = record.clone();
    other.addition = number(4.0);
    assert!(!record.same_values(&other));
    let mut other = record.clone();
    other.subtraction = number(4.0);
    assert!(!record.same_values(&other));
    let mut other = record.clone();
    other.multiplication = number(4.0);
    assert!(!record.same_values(&other));
    let mut other = record.clone();
    other.num1 = number(4.0);
    assert!(!record.same_values(&other));
}
