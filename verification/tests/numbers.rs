use passkeys::error::AppError;
use passkeys::util::{parse_i64, NumberOrString};

fn text(value: &str) -> NumberOrString {
    NumberOrString::String(value.to_string())
}

fn complaint<T>(result: Result<T, AppError>) -> String {
    match result {
        Err(AppError::BadRequest(text)) => text,
        _ => panic!("not a bad request"),
    }
}

#[test]
fn numbers_stay_as_they_are() {
    assert_eq!(NumberOrString::Number(i64::MIN).try_i64().unwrap(), i64::MIN);
    assert_eq!(NumberOrString::Number(7).try_i32().unwrap(), 7);
    assert_eq!(NumberOrString::Number(i32::MAX as i64).try_i32().unwrap(), i32::MAX);
}

#[test]
fn strings_are_read_as_decimal() {
    assert_eq!(text("42").try_i64().unwrap(), 42);
    assert_eq!(text("+42").try_i32().unwrap(), 42);
    assert_eq!(text("-2147483648").try_i32().unwrap(), i32::MIN);
    assert_eq!(text("0009").try_i32().unwrap(), 9);
    assert_eq!(text("9223372036854775807").try_i64().unwrap(), i64::MAX);
    assert_eq!(text("-9223372036854775808").try_i64().unwrap(), i64::MIN);
}

#[test]
fn strings_that_are_no_number_are_refused() {
    for value in ["", "+", "-", "4x", " 4", "4 ", "4.0", "9223372036854775808", "--4", "٤"] {
        assert_eq!(complaint(text(value).try_i64()), "Invalid number", "{value}");
        assert_eq!(complaint(text(value).try_i32()), "Invalid number", "{value}");
    }
    assert_eq!(complaint(text("2147483648").try_i32()), "Invalid number");
}

#[test]
fn numbers_that_do_not_fit_are_refused() {
    let large = NumberOrString::Number(i32::MAX as i64 + 1);
    assert_eq!(complaint(large.try_i32()), "Number does not fit in i32");
    let small = NumberOrString::Number(i32::MIN as i64 - 1);
    assert_eq!(complaint(small.try_i32()), "Number does not fit in i32");
}

#[test]
fn decimal_reader_agrees_with_the_standard_library() {
    for value in ["0", "-0", "+0", "1", "-1", "123456789012345678", "99999999999999999999", "a", ""] {
        assert_eq!(parse_i64(value), value.parse::<i64>().ok(), "{value}");
    }
}
