//! Character-sequence helpers that the name and manifest logic builds on.
//!
//! Names and text are manipulated as `Vec<char>` so that every step is plain
//! verified code; `String` appears only at the crate's boundary.

use vstd::prelude::*;

verus! {

/// Relies on `core::iter::Iterator::collect` (`String: FromIterator<char>`):
/// collecting characters yields the string of exactly those characters.
#[verifier::external_body]
pub fn chars_to_string(v: &Vec<char>) -> (r: String)
    ensures
        r@ == v@,
{
    v.iter().collect()
}

/// The characters of `s`, in order.
pub fn str_chars(s: &str) -> (r: Vec<char>)
    ensures
        r@ == s@,
{
    let n = s.unicode_len();
    let mut r: Vec<char> = Vec::new();
    let mut i: usize = 0;
    while i < n
        invariant
            n == s@.len(),
            i <= n,
            r@ =~= s@.subrange(0, i as int),
        decreases n - i,
    {
        r.push(s.get_char(i));
        assert(r@ =~= s@.subrange(0, i + 1 as int));
        i += 1;
    }
    assert(r@ =~= s@);
    r
}

/// Whether the character vector spells the same text as `s`.
pub fn chars_eq_str(v: &Vec<char>, s: &str) -> (r: bool)
    ensures
        r == (v@ == s@),
{
    let n = s.unicode_len();
    if v.len() != n {
        return false;
    }
    let mut i: usize = 0;
    while i < n
        invariant
            n == s@.len(),
            v@.len() == n,
            i <= n,
            forall|j: int| 0 <= j < i ==> v@[j] == s@[j],
        decreases n - i,
    {
        if v[i] != s.get_char(i) {
            return false;
        }
        i += 1;
    }
    proof {
        assert(v@ =~= s@);
    }
    true
}

/// Whether two character vectors spell the same text.
pub fn chars_eq(a: &Vec<char>, b: &Vec<char>) -> (r: bool)
    ensures
        r == (a@ == b@),
{
    if a.len() != b.len() {
        return false;
    }
    let mut i: usize = 0;
    while i < a.len()
        invariant
            a@.len() == b@.len(),
            i <= a@.len(),
            forall|j: int| 0 <= j < i ==> a@[j] == b@[j],
        decreases a@.len() - i,
    {
        if a[i] != b[i] {
            return false;
        }
        i += 1;
    }
    proof {
        assert(a@ =~= b@);
    }
    true
}

/// An ASCII decimal digit.
pub open spec fn is_digit(c: char) -> bool {
    c == '0' || c == '1' || c == '2' || c == '3' || c == '4' || c == '5' || c == '6' || c == '7'
        || c == '8' || c == '9'
}

/// Runtime test for [`is_digit`].
pub fn digit(c: char) -> (r: bool)
    ensures
        r == is_digit(c),
{
    matches!(c, '0' | '1' | '2' | '3' | '4' | '5' | '6' | '7' | '8' | '9')
}

/// An ASCII uppercase letter.
pub open spec fn is_upper(c: char) -> bool {
    c == 'A' || c == 'B' || c == 'C' || c == 'D' || c == 'E' || c == 'F' || c == 'G' || c == 'H'
        || c == 'I' || c == 'J' || c == 'K' || c == 'L' || c == 'M' || c == 'N' || c == 'O'
        || c == 'P' || c == 'Q' || c == 'R' || c == 'S' || c == 'T' || c == 'U' || c == 'V'
        || c == 'W' || c == 'X' || c == 'Y' || c == 'Z'
}

/// `c` with an ASCII uppercase letter mapped to its lowercase form; any other
/// character is kept as it is.
pub open spec fn lower_char(c: char) -> char {
    if c == 'A' {
        'a'
    } else if c == 'B' {
        'b'
    } else if c == 'C' {
        'c'
    } else if c == 'D' {
        'd'
    } else if c == 'E' {
        'e'
    } else if c == 'F' {
        'f'
    } else if c == 'G' {
        'g'
    } else if c == 'H' {
        'h'
    } else if c == 'I' {
        'i'
    } else if c == 'J' {
        'j'
    } else if c == 'K' {
        'k'
    } else if c == 'L' {
        'l'
    } else if c == 'M' {
        'm'
    } else if c == 'N' {
        'n'
    } else if c == 'O' {
        'o'
    } else if c == 'P' {
        'p'
    } else if c == 'Q' {
        'q'
    } else if c == 'R' {
        'r'
    } else if c == 'S' {
        's'
    } else if c == 'T' {
        't'
    } else if c == 'U' {
        'u'
    } else if c == 'V' {
        'v'
    } else if c == 'W' {
        'w'
    } else if c == 'X' {
        'x'
    } else if c == 'Y' {
        'y'
    } else if c == 'Z' {
        'z'
    } else {
        c
    }
}

/// The text with every ASCII uppercase letter lowered.
pub open spec fn spec_lower(s: Seq<char>) -> Seq<char> {
    s.map_values(|c: char| lower_char(c))
}

/// Lowercasing is idempotent.
pub proof fn lemma_lower_idempotent(s: Seq<char>)
    ensures
        spec_lower(spec_lower(s)) == spec_lower(s),
{
    assert(spec_lower(spec_lower(s)) =~= spec_lower(s));
}

/// Runtime ASCII lowercasing of a character vector.
pub fn to_lower(v: &Vec<char>) -> (r: Vec<char>)
    ensures
        r@ == spec_lower(v@),
{
    let mut r: Vec<char> = Vec::new();
    let mut i: usize = 0;
    while i < v.len()
        invariant
            i <= v@.len(),
            r@.len() == i,
            forall|j: int| 0 <= j < i ==> r@[j] == lower_char(v@[j]),
        decreases v@.len() - i,
    {
        let c = v[i];
        let lc = if c >= 'A' && c <= 'Z' {
            match c {
                'A' => 'a',
                'B' => 'b',
                'C' => 'c',
                'D' => 'd',
                'E' => 'e',
                'F' => 'f',
                'G' => 'g',
                'H' => 'h',
                'I' => 'i',
                'J' => 'j',
                'K' => 'k',
                'L' => 'l',
                'M' => 'm',
                'N' => 'n',
                'O' => 'o',
                'P' => 'p',
                'Q' => 'q',
                'R' => 'r',
                'S' => 's',
                'T' => 't',
                'U' => 'u',
                'V' => 'v',
                'W' => 'w',
                'X' => 'x',
                'Y' => 'y',
                _ => 'z',
            }
        } else {
            c
        };
        assert(lc == lower_char(v@[i as int]));
        r.push(lc);
        i += 1;
    }
    proof {
        assert(r@ =~= spec_lower(v@));
    }
    r
}

/// Whether `p` is a prefix of `s`.
pub open spec fn spec_starts_with(s: Seq<char>, p: Seq<char>) -> bool {
    p.len() <= s.len() && s.subrange(0, p.len() as int) == p
}

/// Whether `p` is a suffix of `s`.
pub open spec fn spec_ends_with(s: Seq<char>, p: Seq<char>) -> bool {
    p.len() <= s.len() && s.subrange(s.len() - p.len(), s.len() as int) == p
}

/// Runtime prefix test against a string literal.
pub fn starts_with_lit(v: &Vec<char>, p: &str) -> (r: bool)
    ensures
        r == spec_starts_with(v@, p@),
{
    let n = p.unicode_len();
    if n > v.len() {
        return false;
    }
    let mut i: usize = 0;
    while i < n
        invariant
            n == p@.len(),
            n <= v@.len(),
            i <= n,
            forall|j: int| 0 <= j < i ==> v@[j] == p@[j],
        decreases n - i,
    {
        if v[i] != p.get_char(i) {
            assert(v@.subrange(0, n as int)[i as int] != p@[i as int]);
            return false;
        }
        i += 1;
    }
    proof {
        assert(v@.subrange(0, n as int) =~= p@);
    }
    true
}

/// Runtime suffix test against a string literal.
pub fn ends_with_lit(v: &Vec<char>, p: &str) -> (r: bool)
    ensures
        r == spec_ends_with(v@, p@),
{
    let n = p.unicode_len();
    if n > v.len() {
        return false;
    }
    let off = v.len() - n;
    let mut i: usize = 0;
    while i < n
        invariant
            n == p@.len(),
            n <= v@.len(),
            off + n == v@.len(),
            v@.len() <= usize::MAX,
            i <= n,
            forall|j: int| 0 <= j < i ==> v@[off + j] == p@[j],
        decreases n - i,
    {
        if v[off + i] != p.get_char(i) {
            assert(v@.subrange(v@.len() - n, v@.len() as int)[i as int] != p@[i as int]);
            return false;
        }
        i += 1;
    }
    proof {
        assert(v@.subrange(v@.len() - n, v@.len() as int) =~= p@);
    }
    true
}

/// A copy of `v[from..to]`.
pub fn slice_chars(v: &Vec<char>, from: usize, to: usize) -> (r: Vec<char>)
    requires
        from <= to <= v@.len(),
    ensures
        r@ == v@.subrange(from as int, to as int),
{
    let mut r: Vec<char> = Vec::new();
    let mut i: usize = from;
    while i < to
        invariant
            from <= i <= to <= v@.len(),
            r@ =~= v@.subrange(from as int, i as int),
        decreases to - i,
    {
        r.push(v[i]);
        assert(r@ =~= v@.subrange(from as int, i + 1 as int));
        i += 1;
    }
    r
}

/// `a` followed by `b`.
pub fn concat_chars(a: &Vec<char>, b: &Vec<char>) -> (r: Vec<char>)
    ensures
        r@ == a@ + b@,
{
    let mut r: Vec<char> = Vec::new();
    let mut i: usize = 0;
    while i < a.len()
        invariant
            i <= a@.len(),
            r@ =~= a@.subrange(0, i as int),
        decreases a@.len() - i,
    {
        r.push(a[i]);
        assert(r@ =~= a@.subrange(0, i + 1 as int));
        i += 1;
    }
    let mut j: usize = 0;
    while j < b.len()
        invariant
            j <= b@.len(),
            r@ =~= a@ + b@.subrange(0, j as int),
        decreases b@.len() - j,
    {
        r.push(b[j]);
        assert(r@ =~= a@ + b@.subrange(0, j + 1 as int));
        j += 1;
    }
    proof {
        assert(r@ =~= a@ + b@);
    }
    r
}

/// Appends the characters of the literal `p` to `v`.
pub fn push_lit(v: &mut Vec<char>, p: &str)
    ensures
        final(v)@ == old(v)@ + p@,
{
    let n = p.unicode_len();
    let mut i: usize = 0;
    while i < n
        invariant
            n == p@.len(),
            i <= n,
            v@ =~= old(v)@ + p@.subrange(0, i as int),
        decreases n - i,
    {
        v.push(p.get_char(i));
        assert(v@ =~= old(v)@ + p@.subrange(0, i + 1 as int));
        i += 1;
    }
    proof {
        assert(v@ =~= old(v)@ + p@);
    }
}

/// The text with every trailing ASCII digit removed.
pub open spec fn spec_strip_trailing_digits(s: Seq<char>) -> Seq<char>
    decreases s.len(),
{
    if s.len() > 0 && is_digit(s[s.len() - 1]) {
        spec_strip_trailing_digits(s.drop_last())
    } else {
        s
    }
}

/// The stripped text never ends in a digit, and stripping again changes nothing.
pub proof fn lemma_strip_trailing_digits_fixed(s: Seq<char>)
    ensures
        spec_strip_trailing_digits(s).len() > 0 ==> !is_digit(
            spec_strip_trailing_digits(s)[spec_strip_trailing_digits(s).len() - 1],
        ),
        spec_strip_trailing_digits(spec_strip_trailing_digits(s)) == spec_strip_trailing_digits(s),
        spec_strip_trailing_digits(s).len() <= s.len(),
        spec_strip_trailing_digits(s) == s.subrange(0, spec_strip_trailing_digits(s).len() as int),
    decreases s.len(),
{
    if s.len() > 0 && is_digit(s[s.len() - 1]) {
        lemma_strip_trailing_digits_fixed(s.drop_last());
        assert(s.drop_last() =~= s.subrange(0, s.len() - 1));
        assert(spec_strip_trailing_digits(s) == s.subrange(
            0,
            spec_strip_trailing_digits(s).len() as int,
        )) by {
            let k = spec_strip_trailing_digits(s).len() as int;
            assert(s.drop_last().subrange(0, k) =~= s.subrange(0, k));
        }
    }
}

/// Removes trailing ASCII digits.
pub fn strip_trailing_digits(v: &Vec<char>) -> (r: Vec<char>)
    ensures
        r@ == spec_strip_trailing_digits(v@),
{
    let mut end: usize = v.len();
    proof {
        assert(v@.subrange(0, end as int) =~= v@);
    }
    loop
        invariant
            end <= v@.len(),
            spec_strip_trailing_digits(v@) == spec_strip_trailing_digits(
                v@.subrange(0, end as int),
            ),
        ensures
            end <= v@.len(),
            spec_strip_trailing_digits(v@) == spec_strip_trailing_digits(
                v@.subrange(0, end as int),
            ),
            end > 0 ==> !is_digit(v@[end - 1]),
        decreases end,
    {
        if end == 0 {
            break;
        }
        let c = v[end - 1];
        if !matches!(c, '0' | '1' | '2' | '3' | '4' | '5' | '6' | '7' | '8' | '9') {
            break;
        }
        proof {
            assert(v@.subrange(0, end as int).drop_last() =~= v@.subrange(0, end - 1));
        }
        end -= 1;
    }
    proof {
        assert(spec_strip_trailing_digits(v@.subrange(0, end as int)) == v@.subrange(
            0,
            end as int,
        ));
    }
    slice_chars(v, 0, end)
}

/// The text with every `-` and `_` removed.
pub open spec fn spec_remove_separators(s: Seq<char>) -> Seq<char> {
    s.filter(|c: char| c != '-' && c != '_')
}

/// Removes every `-` and `_`.
pub fn remove_separators(v: &Vec<char>) -> (r: Vec<char>)
    ensures
        r@ == spec_remove_separators(v@),
{
    let mut r: Vec<char> = Vec::new();
    let mut i: usize = 0;
    proof {
        assert(v@.subrange(0, 0) =~= Seq::<char>::empty());
        reveal_with_fuel(Seq::filter, 1);
        assert(Seq::<char>::empty().filter(|c: char| c != '-' && c != '_') =~= Seq::<
            char,
        >::empty());
    }
    while i < v.len()
        invariant
            i <= v@.len(),
            r@ =~= v@.subrange(0, i as int).filter(|c: char| c != '-' && c != '_'),
        decreases v@.len() - i,
    {
        let c = v[i];
        proof {
            let pre = v@.subrange(0, i as int);
            let pre1 = v@.subrange(0, i + 1 as int);
            assert(pre1.drop_last() =~= pre);
            assert(pre1.last() == v@[i as int]);
        }
        if c != '-' && c != '_' {
            r.push(c);
        }
        proof {
            let pre = v@.subrange(0, i as int);
            let pre1 = v@.subrange(0, i + 1 as int);
            reveal_with_fuel(Seq::filter, 2);
            let ci = v@[i as int];
            assert(pre1.filter(|c: char| c != '-' && c != '_') == (if ci != '-' && ci != '_' {
                pre.filter(|c: char| c != '-' && c != '_').push(ci)
            } else {
                pre.filter(|c: char| c != '-' && c != '_')
            })) by {
                assert(pre1.drop_last() =~= pre);
            }
        }
        i += 1;
    }
    proof {
        assert(v@.subrange(0, v@.len() as int) =~= v@);
    }
    r
}

/// Whether `needle` occurs in `hay` as a contiguous run.
pub open spec fn spec_contains(hay: Seq<char>, needle: Seq<char>) -> bool {
    exists|k: int|
        0 <= k <= hay.len() - needle.len() && #[trigger] hay.subrange(k, k + needle.len())
            == needle
}

/// Whether `needle` spells `v[k .. k + needle.len()]`.
fn match_at(v: &Vec<char>, k: usize, needle: &str) -> (r: bool)
    requires
        k + needle@.len() <= v@.len(),
    ensures
        r == (v@.subrange(k as int, k + needle@.len()) == needle@),
{
    let n = needle.unicode_len();
    let vlen = v.len();
    let mut i: usize = 0;
    while i < n
        invariant
            n == needle@.len(),
            k + n <= v@.len(),
            vlen == v@.len(),
            i <= n,
            forall|j: int| 0 <= j < i ==> v@[k + j] == needle@[j],
        decreases n - i,
    {
        if v[k + i] != needle.get_char(i) {
            proof {
                assert(v@.subrange(k as int, k + needle@.len())[i as int] != needle@[i as int]);
            }
            return false;
        }
        i += 1;
    }
    proof {
        assert(v@.subrange(k as int, k + needle@.len()) =~= needle@);
    }
    true
}

/// Runtime substring test against a string literal.
pub fn contains_lit(v: &Vec<char>, needle: &str) -> (r: bool)
    ensures
        r == spec_contains(v@, needle@),
{
    let n = needle.unicode_len();
    if n > v.len() {
        return false;
    }
    if n == 0 {
        proof {
            assert(v@.subrange(0, 0 + needle@.len() as int) =~= needle@);
        }
        return true;
    }
    let last = v.len() - n;
    let mut k: usize = 0;
    while k <= last
        invariant
            n == needle@.len(),
            1 <= n <= v@.len(),
            v@.len() <= usize::MAX,
            last == v@.len() - n,
            k <= last + 1,
            forall|m: int|
                0 <= m < k ==> #[trigger] v@.subrange(m, m + needle@.len()) != needle@,
        decreases last + 1 - k,
    {
        if match_at(v, k, needle) {
            return true;
        }
        k += 1;
    }
    false
}

/// Finds the first occurrence of `c`.
pub fn find_char(v: &Vec<char>, c: char) -> (r: Option<usize>)
    ensures
        match r {
            Some(i) => i < v@.len() && v@[i as int] == c && forall|j: int|
                0 <= j < i ==> v@[j] != c,
            None => forall|j: int| 0 <= j < v@.len() ==> v@[j] != c,
        },
{
    let mut i: usize = 0;
    while i < v.len()
        invariant
            i <= v@.len(),
            forall|j: int| 0 <= j < i ==> v@[j] != c,
        decreases v@.len() - i,
    {
        if v[i] == c {
            return Some(i);
        }
        i += 1;
    }
    None
}

/// Finds the last occurrence of `c`.
pub fn rfind_char(v: &Vec<char>, c: char) -> (r: Option<usize>)
    ensures
        match r {
            Some(i) => i < v@.len() && v@[i as int] == c && forall|j: int|
                i < j < v@.len() ==> v@[j] != c,
            None => forall|j: int| 0 <= j < v@.len() ==> v@[j] != c,
        },
{
    let mut i: usize = v.len();
    while i > 0
        invariant
            i <= v@.len(),
            forall|j: int| i <= j < v@.len() ==> v@[j] != c,
        decreases i,
    {
        i -= 1;
        if v[i] == c {
            return Some(i);
        }
    }
    None
}

/// The first position at or after `i` where `pat` occurs in `s`.
pub open spec fn spec_find_sub(s: Seq<char>, pat: Seq<char>, i: int) -> Option<int>
    decreases s.len() - i when 0 <= i <= s.len()
{
    if pat.len() == 0 {
        Some(i)
    } else if i + pat.len() > s.len() {
        None
    } else if s.subrange(i, i + pat.len()) == pat {
        Some(i)
    } else {
        spec_find_sub(s, pat, i + 1)
    }
}

/// Finds the first occurrence of the literal `pat`.
pub fn find_lit(v: &Vec<char>, pat: &str) -> (r: Option<usize>)
    ensures
        match r {
            Some(p) => spec_find_sub(v@, pat@, 0) == Some(p as int) && p + pat@.len() <= v@.len(),
            None => spec_find_sub(v@, pat@, 0) is None,
        },
{
    let n = pat.unicode_len();
    if n == 0 {
        return Some(0);
    }
    if n > v.len() {
        proof {
            lemma_find_sub_none(v@, pat@, 0);
        }
        return None;
    }
    let vlen = v.len();
    let last = vlen - n;
    let mut k: usize = 0;
    while k <= last
        invariant
            n == pat@.len(),
            n <= v@.len(),
            1 <= n,
            vlen == v@.len(),
            last == v@.len() - n,
            k <= last + 1,
            spec_find_sub(v@, pat@, 0) == spec_find_sub(v@, pat@, k as int),
        decreases last + 1 - k,
    {
        if match_at_pat(v, k, pat) {
            return Some(k);
        }
        proof {
            assert(spec_find_sub(v@, pat@, k as int) == spec_find_sub(v@, pat@, k + 1));
        }
        k += 1;
    }
    proof {
        lemma_find_sub_none(v@, pat@, k as int);
    }
    None
}

/// Past the end, no occurrence can start.
proof fn lemma_find_sub_none(s: Seq<char>, pat: Seq<char>, i: int)
    requires
        0 <= i <= s.len(),
        pat.len() >= 1,
        i + pat.len() > s.len(),
    ensures
        spec_find_sub(s, pat, i) is None,
{
}

/// Whether `pat` spells `v[k .. k + pat.len()]`; `pat` is given as a literal.
fn match_at_pat(v: &Vec<char>, k: usize, pat: &str) -> (r: bool)
    requires
        k + pat@.len() <= v@.len(),
    ensures
        r == (v@.subrange(k as int, k + pat@.len()) == pat@),
{
    let n = pat.unicode_len();
    let vlen = v.len();
    let mut i: usize = 0;
    while i < n
        invariant
            n == pat@.len(),
            k + n <= v@.len(),
            vlen == v@.len(),
            i <= n,
            forall|j: int| 0 <= j < i ==> v@[k + j] == pat@[j],
        decreases n - i,
    {
        if v[k + i] != pat.get_char(i) {
            proof {
                assert(v@.subrange(k as int, k + pat@.len())[i as int] != pat@[i as int]);
            }
            return false;
        }
        i += 1;
    }
    proof {
        assert(v@.subrange(k as int, k + pat@.len()) =~= pat@);
    }
    true
}

/// An ASCII whitespace character as `str::trim` treats the common cases.
pub open spec fn is_space(c: char) -> bool {
    c == ' ' || c == '\t' || c == '\n' || c == '\r'
}

/// Runtime test for [`is_space`].
pub fn space(c: char) -> (r: bool)
    ensures
        r == is_space(c),
{
    c == ' ' || c == '\t' || c == '\n' || c == '\r'
}

/// The first index at or after `i` holding a non-space character.
pub open spec fn skip_spaces(s: Seq<char>, i: int) -> int
    decreases s.len() - i when 0 <= i <= s.len()
{
    if i < s.len() && is_space(s[i]) {
        skip_spaces(s, i + 1)
    } else {
        i
    }
}

/// Bounds of [`skip_spaces`]: the result stays within `[i, s.len()]` and all
/// skipped characters are spaces.
pub proof fn lemma_skip_spaces(s: Seq<char>, i: int)
    requires
        0 <= i <= s.len(),
    ensures
        i <= skip_spaces(s, i) <= s.len(),
        forall|j: int| i <= j < skip_spaces(s, i) ==> is_space(#[trigger] s[j]),
        skip_spaces(s, i) < s.len() ==> !is_space(s[skip_spaces(s, i)]),
    decreases s.len() - i,
{
    if i < s.len() && is_space(s[i]) {
        lemma_skip_spaces(s, i + 1);
    }
}

/// Runtime form of [`skip_spaces`].
pub fn skip_spaces_exec(v: &Vec<char>, from: usize) -> (r: usize)
    requires
        from <= v@.len(),
    ensures
        r == skip_spaces(v@, from as int),
        from <= r <= v@.len(),
{
    let mut i: usize = from;
    while i < v.len() && space(v[i])
        invariant
            from <= i <= v@.len(),
            skip_spaces(v@, from as int) == skip_spaces(v@, i as int),
        decreases v@.len() - i,
    {
        i += 1;
    }
    proof {
        lemma_skip_spaces(v@, from as int);
    }
    i
}

/// The length of `s` with trailing spaces removed, scanning back from `j`.
pub open spec fn rskip_spaces(s: Seq<char>, j: int) -> int
    decreases j when 0 <= j <= s.len()
{
    if j > 0 && is_space(s[j - 1]) {
        rskip_spaces(s, j - 1)
    } else {
        j
    }
}

/// Runtime form of [`rskip_spaces`].
pub fn rskip_spaces_exec(v: &Vec<char>, from: usize) -> (r: usize)
    requires
        from <= v@.len(),
    ensures
        r == rskip_spaces(v@, from as int),
        r <= from,
{
    let mut j: usize = from;
    while j > 0 && space(v[j - 1])
        invariant
            j <= from <= v@.len(),
            rskip_spaces(v@, from as int) == rskip_spaces(v@, j as int),
        decreases j,
    {
        j -= 1;
    }
    j
}

/// `s` with leading and trailing space characters removed.
pub open spec fn spec_trim(s: Seq<char>) -> Seq<char> {
    let a = skip_spaces(s, 0);
    let b = rskip_spaces(s, s.len() as int);
    if a <= b {
        s.subrange(a, b)
    } else {
        Seq::empty()
    }
}

/// Runtime trimming.
pub fn trim_chars(v: &Vec<char>) -> (r: Vec<char>)
    ensures
        r@ == spec_trim(v@),
{
    let a = skip_spaces_exec(v, 0);
    let b = rskip_spaces_exec(v, v.len());
    if a <= b {
        slice_chars(v, a, b)
    } else {
        let r: Vec<char> = Vec::new();
        r
    }
}

/// The first index at or after `i` where `stop` occurs (or the length).
pub open spec fn find_from(s: Seq<char>, i: int, stop: char) -> int
    decreases s.len() - i when 0 <= i <= s.len()
{
    if i < s.len() && s[i] != stop {
        find_from(s, i + 1, stop)
    } else {
        i
    }
}

/// Bounds of [`find_from`]: the result stays within `[i, s.len()]`, no
/// scanned character is `stop`, and the stopping character is `stop`.
pub proof fn lemma_find_from(s: Seq<char>, i: int, stop: char)
    requires
        0 <= i <= s.len(),
    ensures
        i <= find_from(s, i, stop) <= s.len(),
        forall|j: int| i <= j < find_from(s, i, stop) ==> #[trigger] s[j] != stop,
        find_from(s, i, stop) < s.len() ==> s[find_from(s, i, stop)] == stop,
    decreases s.len() - i,
{
    if i < s.len() && s[i] != stop {
        lemma_find_from(s, i + 1, stop);
    }
}

/// Runtime form of [`find_from`].
pub fn find_from_exec(v: &Vec<char>, from: usize, stop: char) -> (r: usize)
    requires
        from <= v@.len(),
    ensures
        r == find_from(v@, from as int, stop),
        from <= r <= v@.len(),
{
    let mut i: usize = from;
    while i < v.len() && v[i] != stop
        invariant
            from <= i <= v@.len(),
            find_from(v@, from as int, stop) == find_from(v@, i as int, stop),
        decreases v@.len() - i,
    {
        i += 1;
    }
    proof {
        lemma_find_from(v@, from as int, stop);
    }
    i
}

/// The text with every trailing `c` removed.
pub open spec fn strip_trailing(s: Seq<char>, c: char) -> Seq<char>
    decreases s.len(),
{
    if s.len() > 0 && s[s.len() - 1] == c {
        strip_trailing(s.drop_last(), c)
    } else {
        s
    }
}

/// Removes every trailing `c`.
pub fn strip_trailing_exec(v: &Vec<char>, c: char) -> (r: Vec<char>)
    ensures
        r@ == strip_trailing(v@, c),
{
    let mut end: usize = v.len();
    proof {
        assert(v@.subrange(0, end as int) =~= v@);
    }
    loop
        invariant
            end <= v@.len(),
            strip_trailing(v@, c) == strip_trailing(v@.subrange(0, end as int), c),
        ensures
            end <= v@.len(),
            strip_trailing(v@, c) == strip_trailing(v@.subrange(0, end as int), c),
            end > 0 ==> v@[end - 1] != c,
        decreases end,
    {
        if end == 0 {
            break;
        }
        if v[end - 1] != c {
            break;
        }
        proof {
            assert(v@.subrange(0, end as int).drop_last() =~= v@.subrange(0, end - 1));
        }
        end -= 1;
    }
    proof {
        assert(strip_trailing(v@.subrange(0, end as int), c) == v@.subrange(0, end as int));
    }
    slice_chars(v, 0, end)
}

/// The first index at or after `i` holding a non-digit character.
pub open spec fn digit_prefix_end(s: Seq<char>, i: int) -> int
    decreases s.len() - i when 0 <= i <= s.len()
{
    if i < s.len() && is_digit(s[i]) {
        digit_prefix_end(s, i + 1)
    } else {
        i
    }
}

/// The leading all-digit run of `v`.
pub fn digit_prefix(v: &Vec<char>) -> (r: Vec<char>)
    ensures
        r@ == v@.subrange(0, digit_prefix_end(v@, 0)),
{
    let mut i: usize = 0;
    loop
        invariant
            i <= v@.len(),
            digit_prefix_end(v@, 0) == digit_prefix_end(v@, i as int),
        ensures
            i <= v@.len(),
            digit_prefix_end(v@, 0) == i,
        decreases v@.len() - i,
    {
        if i == v.len() {
            break;
        }
        if !digit(v[i]) {
            break;
        }
        i += 1;
    }
    slice_chars(v, 0, i)
}

/// The position of the last occurrence of `c` strictly before `j`, or `-1`.
pub open spec fn rfind_before(s: Seq<char>, j: int, c: char) -> int
    decreases j when 0 <= j <= s.len()
{
    if j <= 0 {
        -1
    } else if s[j - 1] == c {
        j - 1
    } else {
        rfind_before(s, j - 1, c)
    }
}

/// Characterization of [`rfind_before`].
pub proof fn lemma_rfind_before(s: Seq<char>, j: int, c: char)
    requires
        0 <= j <= s.len(),
    ensures
        -1 <= rfind_before(s, j, c) < j,
        rfind_before(s, j, c) >= 0 ==> s[rfind_before(s, j, c)] == c,
        forall|k: int| rfind_before(s, j, c) < k < j ==> s[k] != c,
    decreases j,
{
    if j > 0 && s[j - 1] != c {
        lemma_rfind_before(s, j - 1, c);
    }
}

/// Whether `needle` occurs in `hay`, both as character vectors.
pub fn contains_chars(hay: &Vec<char>, needle: &Vec<char>) -> (r: bool)
    ensures
        r == spec_contains(hay@, needle@),
{
    let n = needle.len();
    if n > hay.len() {
        return false;
    }
    if n == 0 {
        proof {
            assert(hay@.subrange(0, 0 + needle@.len() as int) =~= needle@);
        }
        return true;
    }
    let hn = hay.len();
    let last = hn - n;
    let mut k: usize = 0;
    while k <= last
        invariant
            n == needle@.len(),
            1 <= n <= hay@.len(),
            hn == hay@.len(),
            last == hay@.len() - n,
            k <= last + 1,
            forall|m: int|
                0 <= m < k ==> #[trigger] hay@.subrange(m, m + needle@.len()) != needle@,
        decreases last + 1 - k,
    {
        let mut i: usize = 0;
        let mut ok = true;
        while i < n && ok
            invariant
                n == needle@.len(),
                k + n <= hay@.len(),
                hn == hay@.len(),
                i <= n,
                ok ==> forall|j: int| 0 <= j < i ==> hay@[k + j] == needle@[j],
                !ok ==> hay@.subrange(k as int, k + needle@.len()) != needle@,
            decreases n - i + (if ok {
                1int
            } else {
                0int
            }),
        {
            if hay[k + i] != needle[i] {
                proof {
                    let ii = i as int;
                    assert(hay@.subrange(k as int, k + needle@.len())[ii] != needle@[ii]);
                }
                ok = false;
            } else {
                i += 1;
            }
        }
        if ok {
            proof {
                assert(hay@.subrange(k as int, k + needle@.len()) =~= needle@);
            }
            return true;
        }
        k += 1;
    }
    false
}

} // verus!
