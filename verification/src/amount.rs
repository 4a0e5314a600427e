//! Amounts as the user types them.

use vstd::prelude::*;

verus! {

/// Whether the character is one of the ten decimal digits.
pub open spec fn is_digit(c: char) -> bool {
    48 <= c as u32 <= 57
}

/// Whether every character is a decimal digit.
pub open spec fn all_digits(text: Seq<char>) -> bool {
    forall|i: int| 0 <= i < text.len() ==> is_digit(#[trigger] text[i])
}

/// The number that a sequence of decimal digits writes; 0 for none.
pub open spec fn decimal_value(digits: Seq<char>) -> int
    decreases digits.len(),
{
    if digits.len() == 0 {
        0
    } else {
        decimal_value(digits.drop_last()) * 10 + (digits.last() as u32 - 48)
    }
}

/// The amount that a line of input writes: an optional sign, `+` or `-`,
/// then one decimal digit or more and nothing else, where the number fits in
/// 32 bits with a sign.
pub open spec fn amount_of(line: Seq<char>) -> Option<int> {
    let signed = line.len() > 0 && (line[0] == '-' || line[0] == '+');
    let digits = if signed {
        line.subrange(1, line.len() as int)
    } else {
        line
    };
    let value = if signed && line[0] == '-' {
        -decimal_value(digits)
    } else {
        decimal_value(digits)
    };
    if digits.len() > 0 && all_digits(digits) && i32::MIN <= value <= i32::MAX {
        Some(value)
    } else {
        None
    }
}

/// A number written in digits is not negative, and no smaller than the number
/// that any of its beginnings writes.
proof fn lemma_decimal_value_grows(digits: Seq<char>, k: int)
    requires
        all_digits(digits),
        0 <= k <= digits.len(),
    ensures
        0 <= decimal_value(digits.subrange(0, k)) <= decimal_value(digits),
    decreases digits.len(),
{
    if k == digits.len() {
        assert(digits.subrange(0, k) =~= digits);
        if k > 0 {
            lemma_decimal_value_grows(digits.drop_last(), k - 1);
            assert(is_digit(digits[k - 1]));
        }
    } else {
        lemma_decimal_value_grows(digits.drop_last(), k);
        assert(digits.drop_last().subrange(0, k) =~= digits.subrange(0, k));
        assert(is_digit(digits[digits.len() - 1]));
    }
}

/// Reads an amount from a line of input; `None` where the line does not write
/// one.
pub fn parse_amount(line: &str) -> (r: Option<i32>)
    ensures
        match r {
            Some(amount) => amount_of(line@) == Some(amount as int),
            None => amount_of(line@) is None,
        },
{
    let n = line.unicode_len();
    if n == 0 {
        return None;
    }
    let first = line.get_char(0);
    let negative = first == '-';
    let start: usize = if first == '-' || first == '+' {
        1
    } else {
        0
    };
    if start == n {
        return None;
    }
    let ghost digits = if start == 1 {
        line@.subrange(1, n as int)
    } else {
        line@
    };
    assert(digits =~= line@.subrange(start as int, n as int));
    let mut value: i64 = 0;
    let mut i: usize = start;
    while i < n
        invariant
            start <= i <= n,
            start < n == line@.len(),
            start == 1 <==> line@[0] == '-' || line@[0] == '+',
            negative <==> line@[0] == '-',
            digits == if start == 1 {
                line@.subrange(1, n as int)
            } else {
                line@
            },
            digits.len() == n - start,
            forall|j: int| 0 <= j < n - start ==> digits[j] == line@[start + j],
            all_digits(digits.subrange(0, i - start)),
            value == decimal_value(digits.subrange(0, i - start)),
            0 <= value <= 2147483648,
        decreases n - i,
    {
        let c = line.get_char(i);
        let code: u32 = c as u32;
        if code < 48 || code > 57 {
            assert(!is_digit(digits[i - start]));
            return None;
        }
        proof {
            let longer = digits.subrange(0, i - start + 1);
            assert(longer.drop_last() =~= digits.subrange(0, i - start));
            assert(longer.last() == c);
            assert forall|j: int| 0 <= j < longer.len() implies is_digit(#[trigger] longer[j]) by {
                if j < i - start {
                    assert(is_digit(digits.subrange(0, i - start)[j]));
                }
            }
        }
        value = value * 10 + (code - 48) as i64;
        if value > 2147483648 {
            proof {
                if all_digits(digits) {
                    lemma_decimal_value_grows(digits, i - start + 1);
                }
            }
            return None;
        }
        i += 1;
    }
    assert(digits.subrange(0, n - start) =~= digits);
    if negative {
        Some((-value) as i32)
    } else if value <= 2147483647 {
        Some(value as i32)
    } else {
        None
    }
}

} // verus!
