//! Decimal notation, both directions: the value of a string of digits, and
//! the canonical digit string of a value. The argument parser reads counts
//! with it; the expanders print counts and lengths into generated names.

use vstd::prelude::*;
use crate::token::string_push;
use vstd::string::StrSliceExecFns;

verus! {

/// Whether a character is a decimal digit.
pub open spec fn is_digit(c: char) -> bool {
    48 <= c as u32 <= 57
}

/// The value of one decimal digit.
pub open spec fn digit_val(c: char) -> nat {
    (c as u32 - 48) as nat
}

/// The digit character of a value below ten.
pub open spec fn digit_char(d: nat) -> char {
    if d == 0 {
        '0'
    } else if d == 1 {
        '1'
    } else if d == 2 {
        '2'
    } else if d == 3 {
        '3'
    } else if d == 4 {
        '4'
    } else if d == 5 {
        '5'
    } else if d == 6 {
        '6'
    } else if d == 7 {
        '7'
    } else if d == 8 {
        '8'
    } else {
        '9'
    }
}

/// Whether every character of the string is a decimal digit.
pub open spec fn all_digits(s: Seq<char>) -> bool {
    forall|i: int| 0 <= i < s.len() ==> is_digit(#[trigger] s[i])
}

/// The value of a digit string read most-significant first; the empty
/// string reads as zero.
pub open spec fn digits_val(s: Seq<char>) -> nat
    decreases s.len(),
{
    if s.len() == 0 {
        0
    } else {
        digits_val(s.drop_last()) * 10 + digit_val(s.last())
    }
}

/// The canonical decimal digit string of a value: no sign, and no leading
/// zero except on zero itself.
pub open spec fn dec_digits(n: nat) -> Seq<char>
    decreases n,
{
    if n < 10 {
        seq![digit_char(n)]
    } else {
        dec_digits(n / 10).push(digit_char(n % 10))
    }
}

/// Reading back the canonical digit string of a value gives the value.
pub proof fn lemma_dec_digits(n: nat)
    ensures
        dec_digits(n).len() >= 1,
        all_digits(dec_digits(n)),
        digits_val(dec_digits(n)) == n,
    decreases n,
{
    if n < 10 {
        let s = seq![digit_char(n)];
        assert(s.drop_last() =~= Seq::<char>::empty());
        assert(digits_val(Seq::<char>::empty()) == 0);
        assert(s.last() == digit_char(n));
        assert(digits_val(s) == digit_val(digit_char(n)));
        assert(digit_val(digit_char(n)) == n);
    } else {
        lemma_dec_digits(n / 10);
        let p = dec_digits(n / 10);
        let c = digit_char(n % 10);
        assert(p.push(c).drop_last() =~= p);
        assert(p.push(c).last() == c);
        assert(digit_val(c) == n % 10);
        assert(digits_val(p.push(c)) == (n / 10) * 10 + n % 10);
        assert((n / 10) * 10 + n % 10 == n) by {
            vstd::arithmetic::div_mod::lemma_fundamental_div_mod(n as int, 10);
        }
        assert forall|i: int| 0 <= i < p.push(c).len() implies is_digit(#[trigger] p.push(c)[i]) by {
            if i < p.len() {
                assert(p.push(c)[i] == p[i]);
            }
        }
    }
}

/// The canonical digit string never collides: different values give
/// different strings.
pub proof fn lemma_dec_digits_injective(a: nat, b: nat)
    requires
        dec_digits(a) == dec_digits(b),
    ensures
        a == b,
{
    lemma_dec_digits(a);
    lemma_dec_digits(b);
}

/// A digit string's value only grows as more digits follow.
pub proof fn lemma_digits_val_prefix(s: Seq<char>, i: int)
    requires
        0 <= i <= s.len(),
    ensures
        digits_val(s.subrange(0, i)) <= digits_val(s),
    decreases s.len() - i,
{
    if i == s.len() {
        assert(s.subrange(0, i) =~= s);
    } else {
        let a = s.subrange(0, i);
        let b = s.subrange(0, i + 1);
        assert(b.drop_last() =~= a);
        assert(b.last() == s[i]);
        assert(digits_val(b) == digits_val(a) * 10 + digit_val(s[i]));
        assert(digits_val(a) <= digits_val(a) * 10) by {
            assert(digits_val(a) * 10 == digits_val(a) * 10);
            assert(digits_val(a) * 10 >= digits_val(a) * 1) by (nonlinear_arith);
        }
        lemma_digits_val_prefix(s, i + 1);
    }
}

/// What a digit string is worth as a sixteen-bit count: its value if it
/// is nonempty, all digits, and in range; nothing otherwise.
pub open spec fn spec_parse_u16(s: Seq<char>) -> Option<u16> {
    if s.len() > 0 && all_digits(s) && digits_val(s) <= 0xffff {
        Some(digits_val(s) as u16)
    } else {
        None
    }
}

/// Reads a sixteen-bit count from decimal text, rejecting anything that
/// is not plain digits or does not fit.
pub fn parse_u16(text: &str) -> (r: Option<u16>)
    ensures
        r == spec_parse_u16(text@),
{
    let n = text.unicode_len();
    if n == 0 {
        return None;
    }
    let mut val: u32 = 0;
    let mut i: usize = 0;
    while i < n
        invariant
            n == text@.len(),
            i <= n,
            val == digits_val(text@.subrange(0, i as int)),
            val <= 0xffff,
            all_digits(text@.subrange(0, i as int)),
        decreases n - i,
    {
        let c = text.get_char(i);
        let cv = c as u32;
        if cv < 48 || cv > 57 {
            proof {
                assert(text@[i as int] == c);
                assert(!is_digit(c));
                assert(!all_digits(text@));
            }
            return None;
        }
        let d = cv - 48;
        let ghost pre = text@.subrange(0, i as int);
        let ghost cur = text@.subrange(0, i as int + 1);
        proof {
            assert(cur.drop_last() =~= pre);
            assert(cur.last() == c);
            assert(digits_val(cur) == digits_val(pre) * 10 + digit_val(c));
            assert forall|j: int| 0 <= j < cur.len() implies is_digit(#[trigger] cur[j]) by {
                if j < pre.len() {
                    assert(cur[j] == pre[j]);
                } else {
                    assert(cur[j] == c);
                }
            }
        }
        val = val * 10 + d;
        i = i + 1;
        if val > 0xffff {
            proof {
                lemma_digits_val_prefix(text@, i as int);
                assert(digits_val(text@) > 0xffff);
            }
            return None;
        }
    }
    proof {
        assert(text@.subrange(0, n as int) =~= text@);
    }
    Some(val as u16)
}

/// The digit character of a value below ten.
pub fn digit_char_of(d: u64) -> (c: char)
    requires
        d < 10,
    ensures
        c == digit_char(d as nat),
{
    if d == 0 {
        '0'
    } else if d == 1 {
        '1'
    } else if d == 2 {
        '2'
    } else if d == 3 {
        '3'
    } else if d == 4 {
        '4'
    } else if d == 5 {
        '5'
    } else if d == 6 {
        '6'
    } else if d == 7 {
        '7'
    } else if d == 8 {
        '8'
    } else {
        '9'
    }
}

/// Appends the canonical decimal digits of a value to a string.
pub fn push_dec(s: &mut String, n: u64)
    ensures
        final(s)@ == old(s)@ + dec_digits(n as nat),
    decreases n,
{
    if n < 10 {
        string_push(s, digit_char_of(n));
        proof {
            assert(old(s)@.push(digit_char(n as nat)) =~= old(s)@ + dec_digits(n as nat));
        }
    } else {
        push_dec(s, n / 10);
        string_push(s, digit_char_of(n % 10));
        proof {
            assert((old(s)@ + dec_digits(n as nat / 10)).push(digit_char(n as nat % 10)) =~= old(
                s,
            )@ + dec_digits(n as nat));
        }
    }
}

/// The canonical decimal rendering of a value.
pub fn dec_string(n: u64) -> (s: String)
    ensures
        s@ == dec_digits(n as nat),
{
    let mut s = String::new();
    push_dec(&mut s, n);
    proof {
        assert(Seq::<char>::empty() + dec_digits(n as nat) =~= dec_digits(n as nat));
    }
    s
}

} // verus!
