//! The numeric token grammar.
//!
//! A register token is one or more decimal digits and nothing else; its value
//! must lie below [`crate::ast::NUM_REG`].  A literal token is an optional
//! sign followed by one or more decimal digits, and its value must fit in a
//! signed 32-bit word.

use vstd::prelude::*;

use crate::chars::digit_char;
use crate::chars::digit_val;
use crate::chars::is_digit;
use crate::errors::RegisterError;

verus! {

/// Every character of `s` is a decimal digit.
pub open spec fn all_digits(s: Seq<char>) -> bool {
    forall|i: int| 0 <= i < s.len() ==> is_digit(#[trigger] s[i])
}

/// The value of a digit string read in base ten.
pub open spec fn digits_val(s: Seq<char>) -> int
    decreases s.len(),
{
    if s.len() == 0 {
        0
    } else {
        digits_val(s.drop_last()) * 10 + digit_val(s.last())
    }
}

pub proof fn lemma_digits_val_nonneg(s: Seq<char>)
    requires
        all_digits(s),
    ensures
        digits_val(s) >= 0,
    decreases s.len(),
{
    if s.len() > 0 {
        assert(all_digits(s.drop_last()));
        lemma_digits_val_nonneg(s.drop_last());
    }
}

/// Reading one more digit multiplies the prefix value by ten and adds it.
pub proof fn lemma_digits_val_take_succ(s: Seq<char>, i: int)
    requires
        0 <= i < s.len(),
    ensures
        digits_val(s.take(i + 1)) == digits_val(s.take(i)) * 10 + digit_val(s[i]),
{
    assert(s.take(i + 1).drop_last() =~= s.take(i));
    assert(s.take(i + 1).last() == s[i]);
}

/// What a register token denotes: the index it writes, or why it is rejected.
pub open spec fn spec_reg_index(s: Seq<char>) -> Result<int, RegisterError> {
    if s.len() == 0 || !all_digits(s) {
        Err(RegisterError::NotNumeric)
    } else if digits_val(s) >= 8 {
        Err(RegisterError::OutOfRange)
    } else {
        Ok(digits_val(s))
    }
}

/// What a signed-literal token denotes: its value, if it is an optional sign
/// followed by digits and the value fits in a signed 32-bit word.
pub open spec fn spec_i32_token(s: Seq<char>) -> Option<int> {
    let signed = s.len() > 0 && (s[0] == '-' || s[0] == '+');
    let digits = if signed { s.skip(1) } else { s };
    let neg = s.len() > 0 && s[0] == '-';
    if digits.len() == 0 || !all_digits(digits) {
        None
    } else {
        let v = if neg { -digits_val(digits) } else { digits_val(digits) };
        if -2147483648 <= v && v <= 2147483647 {
            Some(v)
        } else {
            None
        }
    }
}

/// Reads a register token.  The result mirrors [`spec_reg_index`] exactly.
pub fn parse_reg_index(s: &str) -> (r: Result<usize, RegisterError>)
    ensures
        match r {
            Ok(v) => spec_reg_index(s@) == Ok::<int, RegisterError>(v as int) && v < 8,
            Err(e) => spec_reg_index(s@) == Err::<int, RegisterError>(e),
        },
{
    let n = s.unicode_len();
    if n == 0 {
        return Err(RegisterError::NotNumeric);
    }
    let mut acc: usize = 0;
    let mut over: bool = false;
    let mut i: usize = 0;
    while i < n
        invariant
            0 <= i <= n,
            n == s@.len(),
            all_digits(s@.take(i as int)),
            !over ==> acc == digits_val(s@.take(i as int)) && acc < 8,
            over ==> digits_val(s@.take(i as int)) >= 8,
        decreases n - i,
    {
        let c = s.get_char(i);
        if !digit_char(c) {
            assert(!all_digits(s@));
            return Err(RegisterError::NotNumeric);
        }
        proof {
            lemma_digits_val_take_succ(s@, i as int);
            assert(s@.take(i as int).push(s@[i as int]) =~= s@.take(i + 1 as int));
        }
        let d = (c as u32 - 48) as usize;
        if over {
        } else {
            let a2 = acc * 10 + d;
            if a2 >= 8 {
                over = true;
            } else {
                acc = a2;
            }
        }
        i = i + 1;
    }
    proof {
        assert(s@.take(n as int) =~= s@);
    }
    if over {
        Err(RegisterError::OutOfRange)
    } else {
        Ok(acc)
    }
}

/// Reads a signed-literal token.  The result mirrors [`spec_i32_token`]
/// exactly: `None` comes back iff the token is not an optionally signed
/// digit string whose value fits in a signed 32-bit word.
pub fn parse_i32_token(s: &str) -> (r: Option<i32>)
    ensures
        match r {
            Some(v) => spec_i32_token(s@) == Some(v as int),
            None => spec_i32_token(s@) is None,
        },
{
    let n = s.unicode_len();
    let mut start: usize = 0;
    let mut neg: bool = false;
    if n > 0 {
        let c0 = s.get_char(0);
        if c0 == '-' {
            neg = true;
            start = 1;
        } else if c0 == '+' {
            start = 1;
        }
    }
    let ghost digits: Seq<char> = if start == 1 { s@.skip(1) } else { s@ };
    if start == n {
        // No digits at all: the empty token, or a bare sign.
        return None;
    }
    let mut acc: u64 = 0;
    let mut over: bool = false;
    let mut i: usize = start;
    while i < n
        invariant
            start <= i <= n,
            n == s@.len(),
            start == 0 || start == 1,
            (start == 1) == (s@.len() > 0 && (s@[0] == '-' || s@[0] == '+')),
            neg == (s@.len() > 0 && s@[0] == '-'),
            digits == if start == 1 { s@.skip(1) } else { s@ },
            all_digits(digits.take(i - start)),
            !over ==> acc == digits_val(digits.take(i - start)) && acc <= 2147483648,
            over ==> digits_val(digits.take(i - start)) > 2147483648,
        decreases n - i,
    {
        let c = s.get_char(i);
        proof {
            assert(digits[i - start] == s@[i as int]);
        }
        if !digit_char(c) {
            assert(!all_digits(digits));
            return None;
        }
        proof {
            lemma_digits_val_take_succ(digits, i - start);
        }
        let d = (c as u32 - 48) as u64;
        if over {
        } else {
            let a2 = acc * 10 + d;
            if a2 > 2147483648 {
                over = true;
            } else {
                acc = a2;
            }
        }
        i = i + 1;
    }
    proof {
        assert(digits.take(n - start) =~= digits);
        if !over {
            lemma_digits_val_nonneg(digits);
        }
    }
    if over {
        return None;
    }
    if neg {
        if acc == 2147483648 {
            Some(i32::MIN)
        } else {
            Some(-(acc as i32))
        }
    } else {
        if acc == 2147483648 {
            None
        } else {
            Some(acc as i32)
        }
    }
}

} // verus!
