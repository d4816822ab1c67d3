//! Decimal and octal rendering and parsing of unsigned integers.

use vstd::prelude::*;

verus! {

/// The character for one digit value below 16 (octal and decimal use 0-7 / 0-9).
pub open spec fn digit_char(d: int) -> char {
    if d == 0 {
        '0'
    } else if d == 1 {
        '1'
    } else if d == 2 {
        '2'
    } else if d == 3 {
        '3'
    } else if d == 4 {
        '4'
    } else if d == 5 {
        '5'
    } else if d == 6 {
        '6'
    } else if d == 7 {
        '7'
    } else if d == 8 {
        '8'
    } else {
        '9'
    }
}

/// The decimal spelling of `n`, most significant digit first.
pub open spec fn spec_dec(n: nat) -> Seq<char>
    decreases n,
{
    if n < 10 {
        seq![digit_char(n as int)]
    } else {
        spec_dec(n / 10).push(digit_char((n % 10) as int))
    }
}

/// The octal spelling of `n`, most significant digit first.
pub open spec fn spec_oct(n: nat) -> Seq<char>
    decreases n,
{
    if n < 8 {
        seq![digit_char(n as int)]
    } else {
        spec_oct(n / 8).push(digit_char((n % 8) as int))
    }
}

/// Reversing after a push prepends the pushed element.
proof fn lemma_reverse_push(s: Seq<char>, x: char)
    ensures
        s.push(x).reverse() =~= seq![x] + s.reverse(),
{
}

/// The decimal digit character of `d`, for `d < 10`.
fn digit_char_exec(d: u64) -> (r: char)
    requires
        d < 10,
    ensures
        r == digit_char(d as int),
{
    match d {
        0 => '0',
        1 => '1',
        2 => '2',
        3 => '3',
        4 => '4',
        5 => '5',
        6 => '6',
        7 => '7',
        8 => '8',
        _ => '9',
    }
}

/// Renders `n` in decimal.
pub fn dec_chars(n: u64) -> (r: Vec<char>)
    ensures
        r@ == spec_dec(n as nat),
{
    let mut rev: Vec<char> = Vec::new();
    let mut m: u64 = n;
    if m == 0 {
        let mut r: Vec<char> = Vec::new();
        r.push('0');
        assert(r@ =~= spec_dec(0));
        return r;
    }
    proof {
        assert(spec_dec(n as nat) =~= spec_dec(n as nat) + rev@.reverse());
    }
    while m > 0
        invariant
            m > 0 ==> spec_dec(n as nat) =~= spec_dec(m as nat) + rev@.reverse(),
            m == 0 ==> spec_dec(n as nat) =~= rev@.reverse(),
        decreases m,
    {
        let d = m % 10;
        let ghost old_rev = rev@;
        rev.push(digit_char_exec(d));
        proof {
            lemma_reverse_push(old_rev, digit_char(d as int));
        }
        let next = m / 10;
        proof {
            if m >= 10 {
                assert(spec_dec(m as nat) == spec_dec((m as nat) / 10).push(
                    digit_char(((m as nat) % 10) as int),
                ));
                assert(spec_dec(m as nat) + old_rev.reverse() =~= spec_dec(next as nat)
                    + rev@.reverse());
            } else {
                assert(spec_dec(m as nat) =~= seq![digit_char(d as int)]);
                assert(spec_dec(m as nat) + old_rev.reverse() =~= rev@.reverse());
            }
        }
        m = next;
    }
    let mut r: Vec<char> = Vec::new();
    let mut i: usize = rev.len();
    while i > 0
        invariant
            i <= rev@.len(),
            r@ =~= rev@.reverse().subrange(0, rev@.len() - i),
        decreases i,
    {
        i -= 1;
        r.push(rev[i]);
        proof {
            assert(r@ =~= rev@.reverse().subrange(0, rev@.len() - i));
        }
    }
    proof {
        assert(r@ =~= rev@.reverse());
    }
    r
}

/// The octal digit character of `d`, for `d < 8`.
fn oct_digit_char_exec(d: u32) -> (r: char)
    requires
        d < 8,
    ensures
        r == digit_char(d as int),
{
    match d {
        0 => '0',
        1 => '1',
        2 => '2',
        3 => '3',
        4 => '4',
        5 => '5',
        6 => '6',
        _ => '7',
    }
}

/// Renders `n` in octal.
pub fn oct_chars(n: u32) -> (r: Vec<char>)
    ensures
        r@ == spec_oct(n as nat),
{
    let mut rev: Vec<char> = Vec::new();
    let mut m: u32 = n;
    if m == 0 {
        let mut r: Vec<char> = Vec::new();
        r.push('0');
        assert(r@ =~= spec_oct(0));
        return r;
    }
    proof {
        assert(spec_oct(n as nat) =~= spec_oct(n as nat) + rev@.reverse());
    }
    while m > 0
        invariant
            m > 0 ==> spec_oct(n as nat) =~= spec_oct(m as nat) + rev@.reverse(),
            m == 0 ==> spec_oct(n as nat) =~= rev@.reverse(),
        decreases m,
    {
        let d = m % 8;
        let ghost old_rev = rev@;
        rev.push(oct_digit_char_exec(d));
        proof {
            lemma_reverse_push(old_rev, digit_char(d as int));
        }
        let next = m / 8;
        proof {
            if m >= 8 {
                assert(spec_oct(m as nat) == spec_oct((m as nat) / 8).push(
                    digit_char(((m as nat) % 8) as int),
                ));
                assert(spec_oct(m as nat) + old_rev.reverse() =~= spec_oct(next as nat)
                    + rev@.reverse());
            } else {
                assert(spec_oct(m as nat) =~= seq![digit_char(d as int)]);
                assert(spec_oct(m as nat) + old_rev.reverse() =~= rev@.reverse());
            }
        }
        m = next;
    }
    let mut r: Vec<char> = Vec::new();
    let mut i: usize = rev.len();
    while i > 0
        invariant
            i <= rev@.len(),
            r@ =~= rev@.reverse().subrange(0, rev@.len() - i),
        decreases i,
    {
        i -= 1;
        r.push(rev[i]);
        proof {
            assert(r@ =~= rev@.reverse().subrange(0, rev@.len() - i));
        }
    }
    proof {
        assert(r@ =~= rev@.reverse());
    }
    r
}

/// The numeric value of one decimal digit character; 10 marks a non-digit.
pub open spec fn digit_val(c: char) -> int {
    if c == '0' {
        0
    } else if c == '1' {
        1
    } else if c == '2' {
        2
    } else if c == '3' {
        3
    } else if c == '4' {
        4
    } else if c == '5' {
        5
    } else if c == '6' {
        6
    } else if c == '7' {
        7
    } else if c == '8' {
        8
    } else if c == '9' {
        9
    } else {
        10
    }
}

/// The value of a decimal digit string read left to right.
pub open spec fn spec_dec_val(s: Seq<char>) -> int
    decreases s.len(),
{
    if s.len() == 0 {
        0
    } else {
        spec_dec_val(s.drop_last()) * 10 + digit_val(s.last())
    }
}

/// Whether every character of `s` is a decimal digit.
pub open spec fn all_digits(s: Seq<char>) -> bool {
    forall|i: int| 0 <= i < s.len() ==> crate::strutil::is_digit(#[trigger] s[i])
}

/// Parses a nonempty all-digit prefix-free decimal string into a `u64`.
///
/// Returns `None` exactly when `s` is empty, holds a non-digit, or spells a
/// value above `u64::MAX`.
pub fn parse_u64(s: &Vec<char>) -> (r: Option<u64>)
    ensures
        match r {
            Some(v) => s@.len() > 0 && all_digits(s@) && v as int == spec_dec_val(s@)
                && spec_dec_val(s@) <= u64::MAX,
            None => s@.len() == 0 || !all_digits(s@) || spec_dec_val(s@) > u64::MAX,
        },
{
    if s.len() == 0 {
        return None;
    }
    let mut acc: u64 = 0;
    let mut i: usize = 0;
    while i < s.len()
        invariant
            i <= s@.len(),
            acc as int == spec_dec_val(s@.subrange(0, i as int)),
            all_digits(s@.subrange(0, i as int)),
            spec_dec_val(s@.subrange(0, i as int)) <= u64::MAX,
        decreases s@.len() - i,
    {
        let c = s[i];
        let d: u64 = match c {
            '0' => 0,
            '1' => 1,
            '2' => 2,
            '3' => 3,
            '4' => 4,
            '5' => 5,
            '6' => 6,
            '7' => 7,
            '8' => 8,
            '9' => 9,
            _ => 10,
        };
        proof {
            assert(d as int == digit_val(s@[i as int]));
            assert(s@.subrange(0, i + 1 as int).drop_last() =~= s@.subrange(0, i as int));
        }
        if d == 10 {
            proof {
                assert(!crate::strutil::is_digit(s@[i as int]));
            }
            return None;
        }
        if acc > (u64::MAX - d) / 10 {
            proof {
                if all_digits(s@) {
                    let t = s@.subrange(0, i + 1 as int);
                    assert(spec_dec_val(t) == acc as int * 10 + d);
                    lemma_dec_val_monotone(t, s@);
                }
            }
            return None;
        }
        acc = acc * 10 + d;
        proof {
            assert(crate::strutil::is_digit(s@[i as int]));
            assert(forall|j: int|
                0 <= j < i + 1 ==> crate::strutil::is_digit(#[trigger] s@.subrange(
                    0,
                    i + 1 as int,
                )[j]));
        }
        i += 1;
    }
    proof {
        assert(s@.subrange(0, s@.len() as int) =~= s@);
    }
    Some(acc)
}

/// A digit string's value is at least the value of any of its prefixes.
proof fn lemma_dec_val_monotone(p: Seq<char>, s: Seq<char>)
    requires
        p.len() <= s.len(),
        p =~= s.subrange(0, p.len() as int),
        all_digits(s),
        spec_dec_val(p) > u64::MAX,
    ensures
        spec_dec_val(s) > u64::MAX,
    decreases s.len() - p.len(),
{
    if p.len() < s.len() {
        let q = s.subrange(0, p.len() as int + 1);
        assert(q.drop_last() =~= p);
        assert(crate::strutil::is_digit(s[p.len() as int]));
        assert(digit_val(q.last()) >= 0);
        assert(spec_dec_val(q) == spec_dec_val(p) * 10 + digit_val(q.last()));
        lemma_dec_val_monotone(q, s);
    } else {
        assert(p =~= s);
    }
}

} // verus!
