use rust_calc::{divide, multiply, subtract, sum, DivisionError};

#[test]
fn it_works() {
    let result = sum(2, 2);
    assert_eq!(result, 4);
}

#[test]
fn test_subtract() {
    let result = subtract(2, 2);
    assert_eq!(result, 0);
}

#[test]
fn test_multiply() {
    let result = multiply(2, 2);
    assert_eq!(result, 4);
}

#[test]
fn test_divide() {
    let result = divide(2, 2);
    assert_eq!(result, Ok(1));
}

#[test]
fn divide_truncates_toward_zero() {
    assert_eq!(divide(7, 2), Ok(3));
    assert_eq!(divide(-7, 2), Ok(-3));
    assert_eq!(divide(7, -2), Ok(-3));
    assert_eq!(divide(-7, -2), Ok(3));
}

#[test]
fn divide_by_zero_fails() {
    assert_eq!(divide(5, 0), Err(DivisionError));
    assert_eq!(divide(0, 0), Err(DivisionError));
    assert_eq!(divide(i32::MIN, 0), Err(DivisionError));
}

#[test]
fn divide_min_by_minus_one_wraps() {
    assert_eq!(divide(i32::MIN, -1), Ok(i32::MIN));
}

#[test]
fn sum_wraps_at_the_boundaries() {
    assert_eq!(sum(i32::MAX, 1), i32::MIN);
    assert_eq!(sum(i32::MIN, -1), i32::MAX);
}

#[test]
fn subtract_wraps_at_the_boundaries() {
    assert_eq!(subtract(i32::MIN, 1), i32::MAX);
    assert_eq!(subtract(i32::MAX, -1), i32::MIN);
}

#[test]
fn multiply_wraps() {
    assert_eq!(multiply(65536, 65536), 0);
    assert_eq!(multiply(i32::MAX, 2), -2);
}

#[test]
fn identities() {
    assert_eq!(sum(-123, 0), -123);
    assert_eq!(subtract(-123, 0), -123);
    assert_eq!(multiply(-123, 1), -123);
    assert_eq!(multiply(-123, 0), 0);
    assert_eq!(sum(7, 0), 7);
    assert_eq!(subtract(7, 0), 7);
    assert_eq!(multiply(7, 1), 7);
    assert_eq!(multiply(7, 0), 0);
}

#[test]
fn commutativity() {
    assert_eq!(sum(3, 9), sum(9, 3));
    assert_eq!(sum(i32::MAX, 17), sum(17, i32::MAX));
    assert_eq!(multiply(-4, 7), multiply(7, -4));
    assert_eq!(multiply(i32::MAX, 3), multiply(3, i32::MAX));
}
