//! Decimal rendering of unsigned integers and parsing of decimal strings,
//! used for numeric template tokens and for channel-id validation.

use vstd::prelude::*;
use crate::text::push_char;

verus! {

/// The character for one decimal digit.
pub open spec fn spec_digit(d: nat) -> char
    recommends
        d < 10,
{
    if d == 0 {
        '0'
    } else if d == 1 {
        '1'
    } else if d == 2 {
        '2'
    } else if d == 3 {
        '3'
    } else if d == 4 {
        '4'
    } else if d == 5 {
        '5'
    } else if d == 6 {
        '6'
    } else if d == 7 {
        '7'
    } else if d == 8 {
        '8'
    } else {
        '9'
    }
}

/// The canonical decimal rendering of `n`: no sign, no leading zero
/// except for `n == 0` itself.
pub open spec fn spec_udigits(n: nat) -> Seq<char>
    decreases n,
{
    if n < 10 {
        seq![spec_digit(n)]
    } else {
        spec_udigits(n / 10).push(spec_digit(n % 10))
    }
}

fn digit_char(d: u64) -> (c: char)
    requires
        d < 10,
    ensures
        c == spec_digit(d as nat),
{
    if d == 0 {
        '0'
    } else if d == 1 {
        '1'
    } else if d == 2 {
        '2'
    } else if d == 3 {
        '3'
    } else if d == 4 {
        '4'
    } else if d == 5 {
        '5'
    } else if d == 6 {
        '6'
    } else if d == 7 {
        '7'
    } else if d == 8 {
        '8'
    } else {
        '9'
    }
}

/// Renders `n` in its canonical decimal form.
pub fn u64_to_string(n: u64) -> (s: String)
    ensures
        s@ == spec_udigits(n as nat),
    decreases n,
{
    if n < 10 {
        let mut s = String::new();
        push_char(&mut s, digit_char(n));
        proof {
            assert(s@ =~= spec_udigits(n as nat));
        }
        s
    } else {
        let mut s = u64_to_string(n / 10);
        push_char(&mut s, digit_char(n % 10));
        s
    }
}

/// The canonical rendering of a boolean.
pub open spec fn spec_bool_chars(b: bool) -> Seq<char> {
    if b {
        "true"@
    } else {
        "false"@
    }
}

/// Renders a boolean as `true` or `false`.
pub fn bool_to_string(b: bool) -> (s: String)
    ensures
        s@ == spec_bool_chars(b),
{
    if b {
        String::from_str("true")
    } else {
        String::from_str("false")
    }
}

/// Whether `c` is a decimal digit.
pub open spec fn spec_is_digit(c: char) -> bool {
    '0' <= c && c <= '9'
}

/// The numeric value of a digit character.
pub open spec fn spec_digit_val(c: char) -> nat
    recommends
        spec_is_digit(c),
{
    (c as nat - '0' as nat) as nat
}

/// Whether every character of `s` is a decimal digit.
pub open spec fn spec_all_digits(s: Seq<char>) -> bool {
    forall|k: int| 0 <= k < s.len() ==> spec_is_digit(#[trigger] s[k])
}

/// The value of a digit string read in base ten; the empty string reads as zero.
pub open spec fn spec_digits_val(s: Seq<char>) -> nat
    decreases s.len(),
{
    if s.len() == 0 {
        0
    } else {
        spec_digits_val(s.drop_last()) * 10 + spec_digit_val(s.last())
    }
}

/// A string parses as a `u64` exactly when it is a non-empty run of
/// decimal digits whose value fits in the type.
pub open spec fn spec_parses_u64(s: Seq<char>) -> bool {
    s.len() > 0 && spec_all_digits(s) && spec_digits_val(s) <= u64::MAX
}

proof fn lemma_digits_val_prefix_grows(s: Seq<char>, i: int)
    requires
        0 <= i <= s.len(),
    ensures
        spec_digits_val(s.subrange(0, i)) <= spec_digits_val(s) || exists|k: int|
            i <= k < s.len() && !spec_is_digit(#[trigger] s[k]),
    decreases s.len() - i,
{
    if i < s.len() {
        if spec_is_digit(s[i]) {
            assert(s.subrange(0, i + 1).drop_last() =~= s.subrange(0, i));
            lemma_digits_val_prefix_grows(s, i + 1);
        }
    } else {
        assert(s.subrange(0, i) =~= s);
    }
}

/// Parses a non-empty all-digit string into a `u64`; any other input,
/// including one whose value does not fit, yields `None`.
pub fn parse_u64(s: &str) -> (r: Option<u64>)
    ensures
        r is Some <==> spec_parses_u64(s@),
        r is Some ==> r->0 as nat == spec_digits_val(s@),
{
    let v = crate::text::str_to_chars(s);
    if v.len() == 0 {
        return None;
    }
    let mut acc: u64 = 0;
    let mut i: usize = 0;
    while i < v.len()
        invariant
            0 < v.len(),
            i <= v.len(),
            v@ == s@,
            spec_all_digits(v@.subrange(0, i as int)),
            acc as nat == spec_digits_val(v@.subrange(0, i as int)),
        decreases v.len() - i,
    {
        let c = v[i];
        if c < '0' || c > '9' {
            proof {
                assert(!spec_is_digit(s@[i as int]));
            }
            return None;
        }
        let d: u64 = (c as u64) - ('0' as u64);
        proof {
            assert(d < 10);
        }
        if acc > (u64::MAX - d) / 10 {
            proof {
                let pre = v@.subrange(0, i as int);
                let pre1 = v@.subrange(0, i as int + 1);
                assert(pre1.drop_last() =~= pre);
                assert(spec_digits_val(pre1) == acc * 10 + d);
                assert(acc * 10 + d > u64::MAX) by (nonlinear_arith)
                    requires
                        acc > (u64::MAX - d) / 10,
                        d < 10,
                ;
                lemma_digits_val_prefix_grows(v@, i as int + 1);
                assert(spec_digits_val(v@) > u64::MAX || exists|k: int|
                    i + 1 <= k < v@.len() && !spec_is_digit(#[trigger] v@[k]));
            }
            return None;
        }
        proof {
            assert(acc * 10 + d <= u64::MAX) by (nonlinear_arith)
                requires
                    acc <= (u64::MAX - d) / 10,
                    d < 10,
            ;
            let pre = v@.subrange(0, i as int);
            let pre1 = v@.subrange(0, i as int + 1);
            assert(pre1.drop_last() =~= pre);
        }
        acc = acc * 10 + d;
        i += 1;
    }
    proof {
        assert(v@.subrange(0, v@.len() as int) =~= v@);
    }
    Some(acc)
}

} // verus!
