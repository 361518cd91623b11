use vstd::prelude::*;

verus! {

pub open spec fn is_digit(c: char) -> bool {
    '0' <= c && c <= '9'
}

/// Value of a string of decimal digits.
pub open spec fn digits_value(s: Seq<char>) -> nat
    decreases s.len(),
{
    if s.len() == 0 {
        0
    } else {
        digits_value(s.drop_last()) * 10 + (s.last() as nat - '0' as nat) as nat
    }
}

/// The `i32` that `s` spells: an optional `+` or `-`, then one or more ASCII
/// digits, with a value in `i32`'s range; `None` for any other text.
pub open spec fn i32_text_value(s: Seq<char>) -> Option<int> {
    let negative = s.len() > 0 && s[0] == '-';
    let body = if s.len() > 0 && (s[0] == '-' || s[0] == '+') {
        s.drop_first()
    } else {
        s
    };
    let v = if negative {
        -(digits_value(body) as int)
    } else {
        digits_value(body) as int
    };
    if body.len() > 0 && (forall|i: int| 0 <= i < body.len() ==> is_digit(#[trigger] body[i]))
        && i32::MIN <= v <= i32::MAX {
        Some(v)
    } else {
        None
    }
}

/// Relies on `str::parse::<i32>` (`i32`'s `FromStr`): it accepts exactly an
/// optional sign followed by one or more ASCII digits whose value fits in
/// `i32`, and returns that value.
#[verifier::external_body]
fn parse_i32(text: &str) -> (r: Option<i32>)
    ensures
        r == (match i32_text_value(text@) {
            Some(v) => Some(v as i32),
            None => None::<i32>,
        }),
{
    text.parse::<i32>().ok()
}

/// Number of items that the count argument asks for: the signed integer that
/// `arg` spells, where a negative count asks for none; `None` when `arg` is not
/// such an integer.
pub fn parse_count(arg: &str) -> (r: Option<u32>)
    ensures
        r == (match i32_text_value(arg@) {
            Some(v) => Some((if v < 0 { 0 } else { v }) as u32),
            None => None::<u32>,
        }),
{
    match parse_i32(arg) {
        Some(v) => {
            if v < 0 {
                Some(0)
            } else {
                Some(v as u32)
            }
        },
        None => None,
    }
}

} // verus!
