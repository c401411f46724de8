//! Character-level string helpers and decimal conversions.

use vstd::prelude::*;
use vstd::string::*;

verus! {

/// Relies on `String::push`: appends the given char to the end of the string.
#[verifier::external_body]
pub(crate) fn push_char(s: &mut String, c: char)
    ensures
        final(s)@ == old(s)@.push(c),
{
    s.push(c);
}

/// Character-for-character equality of two string slices.
pub fn str_eq(a: &str, b: &str) -> (r: bool)
    ensures
        r == (a@ == b@),
{
    let la = a.unicode_len();
    let lb = b.unicode_len();
    if la != lb {
        return false;
    }
    let mut i: usize = 0;
    while i < la
        invariant
            la == a@.len(),
            lb == b@.len(),
            la == lb,
            0 <= i <= la,
            forall|j: int| 0 <= j < i ==> a@[j] == b@[j],
        decreases la - i,
    {
        if a.get_char(i) != b.get_char(i) {
            return false;
        }
        i += 1;
    }
    proof {
        assert(a@ =~= b@);
    }
    true
}

/// The decimal digit character for a value below ten.
pub open spec fn dec_digit(n: nat) -> char {
    if n == 0 {
        '0'
    } else if n == 1 {
        '1'
    } else if n == 2 {
        '2'
    } else if n == 3 {
        '3'
    } else if n == 4 {
        '4'
    } else if n == 5 {
        '5'
    } else if n == 6 {
        '6'
    } else if n == 7 {
        '7'
    } else if n == 8 {
        '8'
    } else {
        '9'
    }
}

/// The decimal text of a natural number, most significant digit first.
pub open spec fn spec_dec(n: nat) -> Seq<char>
    decreases n,
{
    if n < 10 {
        seq![dec_digit(n)]
    } else {
        spec_dec(n / 10).push(dec_digit(n % 10))
    }
}

fn digit_char_of(n: u64) -> (c: char)
    requires
        n < 10,
    ensures
        c == dec_digit(n as nat),
{
    if n == 0 {
        '0'
    } else if n == 1 {
        '1'
    } else if n == 2 {
        '2'
    } else if n == 3 {
        '3'
    } else if n == 4 {
        '4'
    } else if n == 5 {
        '5'
    } else if n == 6 {
        '6'
    } else if n == 7 {
        '7'
    } else if n == 8 {
        '8'
    } else {
        '9'
    }
}

/// Renders a number as decimal text.
pub fn u64_to_dec(n: u64) -> (r: String)
    ensures
        r@ == spec_dec(n as nat),
    decreases n,
{
    if n < 10 {
        let mut s = String::new();
        push_char(&mut s, digit_char_of(n));
        s
    } else {
        let mut s = u64_to_dec(n / 10);
        push_char(&mut s, digit_char_of(n % 10));
        s
    }
}

/// Whether a character is a decimal digit.
pub open spec fn is_dec_digit(c: char) -> bool {
    '0' <= c && c <= '9'
}

/// The numeric value of a decimal digit character.
pub open spec fn digit_val(c: char) -> nat {
    (c as u32 - '0' as u32) as nat
}

/// Whether every character of a string is a decimal digit.
pub open spec fn all_digits(s: Seq<char>) -> bool {
    forall|i: int| 0 <= i < s.len() ==> is_dec_digit(s[i])
}

/// The value of a string of decimal digits, most significant first.
pub open spec fn digits_val(s: Seq<char>) -> nat
    decreases s.len(),
{
    if s.len() == 0 {
        0
    } else {
        digits_val(s.drop_last()) * 10 + digit_val(s.last())
    }
}

proof fn lemma_digits_val_prefix_le(s: Seq<char>, k: int)
    requires
        0 <= k <= s.len(),
    ensures
        digits_val(s.take(k)) <= digits_val(s),
    decreases s.len() - k,
{
    if k < s.len() {
        lemma_digits_val_prefix_le(s, k + 1);
        assert(s.take(k + 1).drop_last() =~= s.take(k));
        assert(digits_val(s.take(k + 1)) == digits_val(s.take(k)) * 10 + digit_val(
            s.take(k + 1).last(),
        ));
    } else {
        assert(s.take(k) =~= s);
    }
}

/// Parses decimal text as a number: defined exactly when the text is
/// nonempty, all digits, and the value fits.
pub fn parse_u64_dec(s: &str) -> (r: Option<u64>)
    ensures
        r == if s@.len() > 0 && all_digits(s@) && digits_val(s@) <= u64::MAX {
            Some(digits_val(s@) as u64)
        } else {
            None::<u64>
        },
{
    let n = s.unicode_len();
    if n == 0 {
        return None;
    }
    let mut acc: u128 = 0;
    let mut i: usize = 0;
    while i < n
        invariant
            n == s@.len(),
            0 <= i <= n,
            forall|j: int| 0 <= j < i ==> is_dec_digit(s@[j]),
            acc == digits_val(s@.take(i as int)),
            acc <= u64::MAX,
        decreases n - i,
    {
        let c = s.get_char(i);
        if c < '0' || c > '9' {
            return None;
        }
        let d = (c as u32) - ('0' as u32);
        acc = acc * 10 + (d as u128);
        proof {
            assert(s@.take(i + 1).drop_last() =~= s@.take(i as int));
            assert(s@.take(i + 1).last() == s@[i as int]);
        }
        if acc > u64::MAX as u128 {
            proof {
                lemma_digits_val_prefix_le(s@, i + 1);
            }
            return None;
        }
        i += 1;
    }
    proof {
        assert(s@.take(n as int) =~= s@);
    }
    Some(acc as u64)
}

/// Parses decimal text as a 32-bit number; rejects values out of range.
pub fn parse_u32_dec(s: &str) -> (r: Option<u32>)
    ensures
        r == if s@.len() > 0 && all_digits(s@) && digits_val(s@) <= u32::MAX {
            Some(digits_val(s@) as u32)
        } else {
            None::<u32>
        },
{
    match parse_u64_dec(s) {
        Some(v) => if v <= u32::MAX as u64 {
            Some(v as u32)
        } else {
            None
        },
        None => None,
    }
}

/// The decimal text of a value given in thousandths: an integer part,
/// then a fractional part with trailing zeros removed, omitted entirely
/// when the value is whole.
pub open spec fn spec_permille(n: nat) -> Seq<char> {
    let i = n / 1000;
    let f = n % 1000;
    if f == 0 {
        spec_dec(i)
    } else if f % 100 == 0 {
        spec_dec(i).push('.').push(dec_digit(f / 100))
    } else if f % 10 == 0 {
        spec_dec(i).push('.').push(dec_digit(f / 100)).push(dec_digit((f / 10) % 10))
    } else {
        spec_dec(i).push('.').push(dec_digit(f / 100)).push(dec_digit((f / 10) % 10)).push(
            dec_digit(f % 10),
        )
    }
}

/// Renders a value given in thousandths as decimal text.
pub fn permille_to_dec(n: u32) -> (r: String)
    ensures
        r@ == spec_permille(n as nat),
{
    let i = (n / 1000) as u64;
    let f = n % 1000;
    let mut s = u64_to_dec(i);
    if f == 0 {
        return s;
    }
    push_char(&mut s, '.');
    push_char(&mut s, digit_char_of((f / 100) as u64));
    if f % 100 == 0 {
        return s;
    }
    push_char(&mut s, digit_char_of(((f / 10) % 10) as u64));
    if f % 10 == 0 {
        return s;
    }
    push_char(&mut s, digit_char_of((f % 10) as u64));
    s
}

} // verus!
