//! Numbers that clients send either as JSON numbers or as strings.
use vstd::prelude::*;
use crate::error::{bad_request, AppError, AppErrorModel, outcome};
use crate::text::chars_of;

verus! {

/// Whether `c` is one of `0` to `9`.
pub open spec fn is_digit(c: char) -> bool {
    '0' <= c <= '9'
}

/// The number that a run of decimal digits writes.
pub open spec fn digits_value(digits: Seq<char>) -> int
    decreases digits.len(),
{
    if digits.len() == 0 {
        0
    } else {
        digits_value(digits.drop_last()) * 10 + (digits.last() as int - '0' as int)
    }
}

/// The digits of a decimal number, behind its sign if it has one.
pub open spec fn unsigned_part(text: Seq<char>) -> Seq<char> {
    if text.len() > 0 && (text[0] == '+' || text[0] == '-') {
        text.skip(1)
    } else {
        text
    }
}

/// The integer that `text` writes: an optional sign, then at least one digit and nothing else.
pub open spec fn decimal(text: Seq<char>) -> Option<int> {
    let digits = unsigned_part(text);
    if digits.len() > 0 && (forall|i: int| 0 <= i < digits.len() ==> is_digit(#[trigger] digits[i])) {
        if text[0] == '-' {
            Some(-digits_value(digits))
        } else {
            Some(digits_value(digits))
        }
    } else {
        None
    }
}

/// A decimal integer that lies between `min` and `max`.
pub open spec fn decimal_within(text: Seq<char>, min: int, max: int) -> Option<int> {
    match decimal(text) {
        Some(n) => if min <= n <= max {
            Some(n)
        } else {
            None
        },
        None => None,
    }
}

/// More digits never write a smaller number.
proof fn lemma_digits_grow(digits: Seq<char>, i: int)
    requires
        0 <= i <= digits.len(),
        forall|j: int| 0 <= j < digits.len() ==> is_digit(#[trigger] digits[j]),
    ensures
        0 <= digits_value(digits.take(i)) <= digits_value(digits),
    decreases digits.len(),
{
    if i == digits.len() {
        assert(digits.take(i) =~= digits);
        if digits.len() > 0 {
            lemma_digits_grow(digits.drop_last(), digits.len() - 1);
            assert(digits.drop_last().take(digits.len() - 1) =~= digits.drop_last());
        }
    } else {
        lemma_digits_grow(digits.drop_last(), i);
        assert(digits.drop_last().take(i) =~= digits.take(i));
    }
}

/// Reads a decimal `i64`.
pub fn parse_i64(text: &str) -> (number: Option<i64>)
    ensures
        match number {
            Some(n) => decimal(text@) == Some(n as int),
            None => decimal_within(text@, i64::MIN as int, i64::MAX as int) is None,
        },
{
    let chars = chars_of(text);
    let negative: bool = chars.len() > 0 && chars[0] == '-';
    let start: usize = if chars.len() > 0 && (chars[0] == '+' || chars[0] == '-') { 1 } else { 0 };
    let ghost digits = unsigned_part(text@);
    assert(digits =~= text@.skip(start as int));
    if start == chars.len() {
        return None;
    }
    let mut value: i128 = 0;
    let mut i: usize = start;
    assert(digits.take(0) =~= Seq::<char>::empty());
    while i < chars.len()
        invariant
            chars@ == text@,
            start <= i <= chars@.len(),
            start <= 1,
            digits == unsigned_part(text@),
            digits == text@.skip(start as int),
            negative == (text@.len() > 0 && text@[0] == '-'),
            forall|j: int| 0 <= j < i - start ==> is_digit(#[trigger] digits[j]),
            value == digits_value(digits.take(i - start)),
            0 <= value <= 0x8000_0000_0000_0000,
        decreases chars@.len() - i,
    {
        let c: char = chars[i];
        assert(c == digits[i - start]);
        if !(c >= '0' && c <= '9') {
            return None;
        }
        assert(digits.take(i - start + 1).drop_last() =~= digits.take(i - start));
        value = value * 10 + (c as u32 - '0' as u32) as i128;
        if value > 0x8000_0000_0000_0000 {
            proof {
                if decimal(text@) is Some {
                    lemma_digits_grow(digits, i - start + 1);
                }
            }
            return None;
        }
        i = i + 1;
    }
    assert(digits.take(digits.len() as int) =~= digits);
    let signed: i128 = if negative { -value } else { value };
    if i64::MIN as i128 <= signed && signed <= i64::MAX as i128 {
        Some(signed as i64)
    } else {
        None
    }
}

/// A number that a client may send as a JSON number or as a string.
#[derive(Debug)]
pub enum NumberOrString {
    Number(i64),
    String(String),
}

/// Model of [`NumberOrString`].
pub enum NumberOrStringModel {
    Number(i64),
    String(Seq<char>),
}

impl DeepView for NumberOrString {
    type V = NumberOrStringModel;

    open spec fn deep_view(&self) -> NumberOrStringModel {
        match self {
            NumberOrString::Number(value) => NumberOrStringModel::Number(*value),
            NumberOrString::String(value) => NumberOrStringModel::String(value@),
        }
    }
}

impl Clone for NumberOrString {
    fn clone(&self) -> (copy: NumberOrString)
        ensures
            copy.deep_view() == self.deep_view(),
    {
        match self {
            NumberOrString::Number(value) => NumberOrString::Number(*value),
            NumberOrString::String(value) => NumberOrString::String(value.clone()),
        }
    }
}

impl NumberOrStringModel {
    /// The `i64` that the value stands for, or the error that it gets.
    pub open spec fn as_i64(self) -> Result<i64, AppErrorModel> {
        match self {
            NumberOrStringModel::Number(value) => Ok(value),
            NumberOrStringModel::String(value) => match decimal_within(
                value,
                i64::MIN as int,
                i64::MAX as int,
            ) {
                Some(n) => Ok(n as i64),
                None => Err(AppErrorModel::BadRequest("Invalid number"@)),
            },
        }
    }

    /// The `i32` that the value stands for, or the error that it gets.
    pub open spec fn as_i32(self) -> Result<i32, AppErrorModel> {
        match self {
            NumberOrStringModel::Number(value) => if i32::MIN <= value <= i32::MAX {
                Ok(value as i32)
            } else {
                Err(AppErrorModel::BadRequest("Number does not fit in i32"@))
            },
            NumberOrStringModel::String(value) => match decimal_within(
                value,
                i32::MIN as int,
                i32::MAX as int,
            ) {
                Some(n) => Ok(n as i32),
                None => Err(AppErrorModel::BadRequest("Invalid number"@)),
            },
        }
    }
}

impl NumberOrString {
    /// The value as an `i64`: a number as it is, a string as decimal digits behind an optional
    /// sign.
    pub fn try_i64(&self) -> (number: Result<i64, AppError>)
        ensures
            outcome(number) == self.deep_view().as_i64(),
    {
        match self {
            NumberOrString::Number(value) => Ok(*value),
            NumberOrString::String(value) => match parse_i64(value.as_str()) {
                Some(n) => Ok(n),
                None => Err(bad_request("Invalid number")),
            },
        }
    }

    /// The value as an `i32`. A number out of range and a string that is no `i32` get different
    /// errors.
    pub fn try_i32(&self) -> (number: Result<i32, AppError>)
        ensures
            outcome(number) == self.deep_view().as_i32(),
    {
        match self {
            NumberOrString::Number(value) => if i32::MIN as i64 <= *value && *value <= i32::MAX as i64 {
                Ok(*value as i32)
            } else {
                Err(bad_request("Number does not fit in i32"))
            },
            NumberOrString::String(value) => match parse_i64(value.as_str()) {
                Some(n) => if i32::MIN as i64 <= n && n <= i32::MAX as i64 {
                    Ok(n as i32)
                } else {
                    Err(bad_request("Invalid number"))
                },
                None => Err(bad_request("Invalid number")),
            },
        }
    }
}

} // verus!
