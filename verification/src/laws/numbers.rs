//! Numbers that clients send as text.
use vstd::prelude::*;
use crate::error::AppErrorModel;
use crate::util::{decimal, digits_value, is_digit, unsigned_part, NumberOrStringModel};

verus! {

/// Whether `c` is a sign.
pub open spec fn is_sign(c: char) -> bool {
    c == '+' || c == '-'
}

/// The digit that `c` writes.
pub open spec fn digit(c: char) -> int {
    c as int - '0' as int
}

/// A number begins with a digit, or with a sign that a digit follows; neither nothing nor a sign
/// alone is one.
pub proof fn law_numbers_begin(sign: char, c: char)
    ensures
        decimal(Seq::empty()) is None,
        decimal(seq![c]) == if '0' <= c <= '9' {
            Some(digit(c))
        } else {
            None
        },
        is_sign(sign) ==> decimal(seq![sign, c]) == if '0' <= c <= '9' {
            Some(
                if sign == '-' {
                    -digit(c)
                } else {
                    digit(c)
                },
            )
        } else {
            None
        },
{
    reveal_with_fuel(digits_value, 3);
    let one = seq![c];
    let two = seq![sign, c];
    assert(one.drop_last() =~= Seq::empty());
    assert(two.skip(1) =~= one);
    assert(unsigned_part(one).len() > 0 ==> unsigned_part(one) == one);
    if '0' <= c <= '9' {
        assert(unsigned_part(one) == one);
        assert forall|i: int| 0 <= i < one.len() implies is_digit(#[trigger] one[i]) by {
            assert(one[i] == c);
        }
        assert(digits_value(one) == digit(c));
    } else if is_sign(c) {
        assert(unsigned_part(one).len() == 0);
    } else {
        assert(!is_digit(one[0]));
    }
    if is_sign(sign) {
        assert(unsigned_part(two) == one);
        if !('0' <= c <= '9') {
            assert(!is_digit(unsigned_part(two)[0]));
        }
    }
}

/// A digit behind a number makes it ten times as large, plus the digit, in the direction of its
/// sign; anything else behind it makes it none. What is no number becomes none by a further
/// character, unless it was a sign alone.
pub proof fn law_numbers_go_on(text: Seq<char>, c: char)
    requires
        text.len() > 0,
    ensures
        decimal(text) matches Some(n) ==> decimal(text.push(c)) == if '0' <= c <= '9' {
            Some(
                if text[0] == '-' {
                    10 * n - digit(c)
                } else {
                    10 * n + digit(c)
                },
            )
        } else {
            None
        },
        decimal(text) is None && !(text.len() == 1 && is_sign(text[0])) ==> decimal(
            text.push(c),
        ) is None,
{
    let longer = text.push(c);
    let digits = unsigned_part(text);
    let more = unsigned_part(longer);
    assert(more =~= digits.push(c));
    assert(longer[0] == text[0]);
    assert(more.drop_last() =~= digits);
    assert(more[digits.len() as int] == c);
    if decimal(text) is Some {
        if '0' <= c <= '9' {
            assert forall|i: int| 0 <= i < more.len() implies is_digit(#[trigger] more[i]) by {
                if i < digits.len() {
                    assert(more[i] == digits[i]);
                }
            }
        }
    } else if digits.len() > 0 {
        let bad = choose|i: int| 0 <= i < digits.len() && !is_digit(#[trigger] digits[i]);
        assert(more[bad] == digits[bad]);
    }
}

/// A number is taken as it is where it fits, and a text where it writes one that fits.
pub proof fn law_numbers_are_taken(value: i64, text: Seq<char>)
    ensures
        NumberOrStringModel::Number(value).as_i64() == Ok::<i64, AppErrorModel>(value),
        NumberOrStringModel::Number(value).as_i32() matches Ok(n) ==> n == value,
        NumberOrStringModel::Number(value).as_i32() is Ok <==> -0x8000_0000 <= value
            <= 0x7fff_ffff,
        NumberOrStringModel::Number(value).as_i32() matches Err(error) ==> error
            == AppErrorModel::BadRequest("Number does not fit in i32"@),
        NumberOrStringModel::String(text).as_i64() matches Ok(n) ==> decimal(text) == Some(
            n as int,
        ),
        NumberOrStringModel::String(text).as_i64() is Ok <==> (decimal(text) matches Some(n)
            && -0x8000_0000_0000_0000 <= n <= 0x7fff_ffff_ffff_ffff),
        NumberOrStringModel::String(text).as_i64() matches Err(error) ==> error
            == AppErrorModel::BadRequest("Invalid number"@),
        NumberOrStringModel::String(text).as_i32() matches Ok(n) ==> decimal(text) == Some(
            n as int,
        ),
        NumberOrStringModel::String(text).as_i32() is Ok <==> (decimal(text) matches Some(n)
            && -0x8000_0000 <= n <= 0x7fff_ffff),
        NumberOrStringModel::String(text).as_i32() matches Err(error) ==> error
            == AppErrorModel::BadRequest("Invalid number"@),
{
}

} // verus!
