//! Small string and number helpers shared by the wire-schema and model code.

use vstd::prelude::*;

verus! {

/// The view of an optional viewable value (an optional string as an
/// optional sequence of characters, most of the time).
pub open spec fn opt_view<T: View>(o: Option<T>) -> Option<T::V> {
    match o {
        Some(x) => Some(x@),
        None => None,
    }
}

/// Character-for-character equality of two string slices.
pub fn str_eq(a: &str, b: &str) -> (r: bool)
    ensures
        r == (a@ == b@),
{
    let a_len = a.unicode_len();
    let b_len = b.unicode_len();
    if a_len != b_len {
        return false;
    }
    let mut i: usize = 0;
    while i < a_len
        invariant
            a_len == a@.len(),
            a_len == b@.len(),
            i <= a_len,
            forall|j: int| 0 <= j < i ==> a@[j] == b@[j],
        decreases a_len - i,
    {
        if a.get_char(i) != b.get_char(i) {
            return false;
        }
        i += 1;
    }
    proof {
        assert(a@ =~= b@);
    }
    true
}

/// Relies on String::push: appends one character at the end of the string.
#[verifier::external_body]
pub fn push_char(s: &mut String, c: char)
    ensures
        final (s)@ == old(s)@.push(c),
{
    s.push(c);
}

pub open spec fn is_digit_char(c: char) -> bool {
    48 <= c as int && c as int <= 57
}

pub open spec fn digit_val(c: char) -> nat {
    (c as int - 48) as nat
}

pub open spec fn all_digits(s: Seq<char>) -> bool {
    forall|i: int| 0 <= i < s.len() ==> is_digit_char(s[i])
}

/// The number written by a sequence of decimal digits, most significant first.
pub open spec fn digits_val(s: Seq<char>) -> nat
    decreases s.len(),
{
    if s.len() == 0 {
        0
    } else {
        digits_val(s.drop_last()) * 10 + digit_val(s.last())
    }
}

/// A decimal string may carry one leading plus sign; the digits follow it.
pub open spec fn strip_plus(s: Seq<char>) -> Seq<char> {
    if s.len() > 0 && s[0] == '+' {
        s.drop_first()
    } else {
        s
    }
}

/// The number written by a decimal string: an optional leading plus sign
/// followed by at least one digit, with a value that fits in 32 bits;
/// any other string reads as the sentinel zero.
pub open spec fn spec_parse_u32(s: Seq<char>) -> u32 {
    let t = strip_plus(s);
    if t.len() > 0 && all_digits(t) && digits_val(t) <= u32::MAX {
        digits_val(t) as u32
    } else {
        0
    }
}

/// A longer digit string never writes a smaller number than its prefix.
proof fn lemma_digits_val_prefix(s: Seq<char>, j: int)
    requires
        0 <= j <= s.len(),
    ensures
        digits_val(s.take(j)) <= digits_val(s),
    decreases s.len(),
{
    if j < s.len() {
        lemma_digits_val_prefix(s.drop_last(), j);
        assert(s.drop_last().take(j) =~= s.take(j));
    } else {
        assert(s.take(j) =~= s);
    }
}

/// Reads a decimal string, yielding the sentinel zero for anything that is
/// not a plain 32-bit number.
pub fn parse_u32(s: &str) -> (n: u32)
    ensures
        n == spec_parse_u32(s@),
{
    let len = s.unicode_len();
    let mut start: usize = 0;
    if len > 0 && s.get_char(0) == '+' {
        start = 1;
    }
    let ghost t = strip_plus(s@);
    proof {
        assert(t =~= s@.subrange(start as int, len as int));
    }
    if start >= len {
        return 0;
    }
    let mut i: usize = start;
    while i < len
        invariant
            len == s@.len(),
            start <= i <= len,
            t == strip_plus(s@),
            t == s@.subrange(start as int, len as int),
            forall|j: int| 0 <= j < i - start ==> is_digit_char(t[j]),
        decreases len - i,
    {
        let c = s.get_char(i);
        let u = c as u32;
        if !(48 <= u && u <= 57) {
            proof {
                assert(t[i - start] == s@[i as int]);
                assert(!is_digit_char(t[i - start]));
            }
            return 0;
        }
        i += 1;
    }
    let mut acc: u32 = 0;
    i = start;
    while i < len
        invariant
            len == s@.len(),
            start <= i <= len,
            t == strip_plus(s@),
            t == s@.subrange(start as int, len as int),
            all_digits(t),
            t.len() > 0,
            acc == digits_val(t.take(i - start)),
        decreases len - i,
    {
        let c = s.get_char(i);
        proof {
            assert(t[i - start] == s@[i as int]);
            assert(is_digit_char(t[i - start]));
        }
        let d = (c as u32) - 48;
        proof {
            assert(d == digit_val(t[i - start]));
            assert(t.take(i - start + 1).drop_last() =~= t.take(i - start));
            assert(t.take(i - start + 1).last() == t[i - start]);
            assert(digits_val(t.take(i - start + 1)) == acc * 10 + d);
        }
        if acc > (u32::MAX - d) / 10 {
            proof {
                assert(acc * 10 + d > u32::MAX) by (nonlinear_arith)
                    requires
                        acc > (u32::MAX - d) / 10,
                        d <= 9,
                ;
                lemma_digits_val_prefix(t, i - start + 1);
                assert(digits_val(t) > u32::MAX);
            }
            return 0;
        }
        proof {
            assert(acc * 10 + d <= u32::MAX) by (nonlinear_arith)
                requires
                    acc <= (u32::MAX - d) / 10,
                    d <= 9,
            ;
        }
        acc = acc * 10 + d;
        i += 1;
    }
    proof {
        assert(t.take(len - start) =~= t);
    }
    acc
}

/// The digit character for a value below ten.
pub open spec fn digit_char(d: nat) -> char {
    if d == 0 {
        '0'
    } else if d == 1 {
        '1'
    } else if d == 2 {
        '2'
    } else if d == 3 {
        '3'
    } else if d == 4 {
        '4'
    } else if d == 5 {
        '5'
    } else if d == 6 {
        '6'
    } else if d == 7 {
        '7'
    } else if d == 8 {
        '8'
    } else {
        '9'
    }
}

/// The decimal digits of a number, most significant first, without sign or
/// leading zeros (a lone zero for zero).
pub open spec fn spec_u32_digits(n: nat) -> Seq<char>
    decreases n,
{
    if n < 10 {
        seq![digit_char(n)]
    } else {
        spec_u32_digits(n / 10).push(digit_char(n % 10))
    }
}

fn digit_to_char(d: u32) -> (c: char)
    requires
        d < 10,
    ensures
        c == digit_char(d as nat),
{
    match d {
        0 => '0',
        1 => '1',
        2 => '2',
        3 => '3',
        4 => '4',
        5 => '5',
        6 => '6',
        7 => '7',
        8 => '8',
        _ => '9',
    }
}

/// Writes a number in decimal.
pub fn u32_to_string(n: u32) -> (s: String)
    ensures
        s@ == spec_u32_digits(n as nat),
{
    let mut digits: Vec<char> = Vec::new();
    let mut m: u32 = n;
    while m >= 10
        invariant
            spec_u32_digits(n as nat) == spec_u32_digits(m as nat) + digits@.reverse(),
        decreases m,
    {
        let d = m % 10;
        proof {
            assert(digits@.push(digit_char((m % 10) as nat)).reverse() =~= seq![
                digit_char((m % 10) as nat),
            ] + digits@.reverse());
            assert(spec_u32_digits(m as nat) == spec_u32_digits((m / 10) as nat) + seq![
                digit_char((m % 10) as nat),
            ]);
        }
        digits.push(digit_to_char(d));
        m = m / 10;
    }
    proof {
        assert(digits@.push(digit_char(m as nat)).reverse() =~= seq![digit_char(m as nat)]
            + digits@.reverse());
        assert(spec_u32_digits(m as nat) == seq![digit_char(m as nat)]);
    }
    digits.push(digit_to_char(m));
    let mut s = String::new();
    proof {
        assert(s@ + digits@.reverse() =~= spec_u32_digits(n as nat));
    }
    while digits.len() > 0
        invariant
            s@ + digits@.reverse() == spec_u32_digits(n as nat),
        decreases digits.len(),
    {
        proof {
            assert(digits@.drop_last().reverse() =~= digits@.reverse().drop_first());
            assert(digits@.reverse() =~= seq![digits@.last()] + digits@.drop_last().reverse());
        }
        let c = digits.pop().unwrap();
        push_char(&mut s, c);
        proof {
            assert(s@ + digits@.reverse() =~= spec_u32_digits(n as nat));
        }
    }
    proof {
        assert(s@ =~= spec_u32_digits(n as nat));
    }
    s
}

} // verus!
