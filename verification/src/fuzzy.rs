//! Fuzzy matching of source-distribution names against target names.
//!
//! Scores are per-mille: 1000 stands for certainty.

use vstd::prelude::*;

use fuzzy_matcher::FuzzyMatcher as SkimFuzzyMatcher;

use crate::database::PackageDatabase;
use crate::strutil::{
    chars_eq, chars_to_string, ends_with_lit, is_digit, lower_char, remove_separators,
    slice_chars, spec_contains, spec_ends_with, spec_lower, spec_remove_separators,
    spec_starts_with, spec_strip_trailing_digits, starts_with_lit, str_chars,
    strip_trailing_digits, to_lower,
};

verus! {

/// The score the skim algorithm gives `pattern` against `choice`, a function
/// of the two texts alone.
pub uninterp spec fn skim_score_of(choice: Seq<char>, pattern: Seq<char>) -> Option<i64>;

/// Relies on `fuzzy_matcher::skim::SkimMatcherV2::fuzzy_match` with the
/// default configuration: the skim score of `pattern` against `choice`,
/// `None` when they do not match.
#[verifier::external_body]
fn skim_score(choice: &str, pattern: &str) -> (r: Option<i64>)
    ensures
        r == skim_score_of(choice@, pattern@),
{
    fuzzy_matcher::skim::SkimMatcherV2::default().fuzzy_match(choice, pattern).map(|s| s as i64)
}

/// The Damerau-Levenshtein distance of two texts, a function of the texts
/// alone.
pub uninterp spec fn damerau_distance_of(a: Seq<char>, b: Seq<char>) -> usize;

/// Relies on `strsim::damerau_levenshtein`: the minimum number of
/// insertions, deletions, substitutions and transpositions that turn one
/// text into the other.
#[verifier::external_body]
fn damerau_distance(a: &str, b: &str) -> (r: usize)
    ensures
        r == damerau_distance_of(a@, b@),
{
    strsim::damerau_levenshtein(a, b)
}

/// The per-mille Damerau-Levenshtein similarity: the distance normalized by
/// the longer length (1000 when both texts are empty), clamped at zero.
pub open spec fn spec_damerau_milli(a: Seq<char>, b: Seq<char>) -> u32 {
    if a.len() == 0 && b.len() == 0 {
        1000u32
    } else {
        let m = if a.len() >= b.len() {
            a.len() as int
        } else {
            b.len() as int
        };
        let d = damerau_distance_of(a, b) as int;
        if d >= m {
            0u32
        } else {
            (1000 - (d * 1000) / m) as u32
        }
    }
}

/// The normalized Damerau-Levenshtein similarity in per-mille.
fn damerau_milli(a: &Vec<char>, b: &Vec<char>) -> (r: u32)
    ensures
        r == spec_damerau_milli(a@, b@),
        r <= 1000,
{
    let an = a.len();
    let bn = b.len();
    if an == 0 && bn == 0 {
        return 1000;
    }
    let sa = chars_to_string(a);
    let sb = chars_to_string(b);
    let d = damerau_distance(sa.as_str(), sb.as_str());
    let m = if an >= bn {
        an
    } else {
        bn
    };
    if d >= m {
        0
    } else {
        let q = ((d as u128) * 1000 / (m as u128)) as u64;
        proof {
            assert((d as int * 1000) / (m as int) < 1000) by {
                assert(d as int * 1000 < m as int * 1000);
                assert((d as int * 1000) / (m as int) <= (m as int * 1000 - 1) / (m as int))
                    by (nonlinear_arith)
                    requires
                        d as int * 1000 <= m as int * 1000 - 1,
                        m as int >= 1,
                ;
                assert((m as int * 1000 - 1) / (m as int) < 1000) by (nonlinear_arith)
                    requires
                        m as int >= 1,
                ;
            }
        }
        (1000 - q) as u32
    }
}

/// The name with one recognized ecosystem or library prefix removed: the
/// first matching prefix in the fixed priority list wins.
pub open spec fn spec_strip_prefix(s: Seq<char>) -> Seq<char> {
    if spec_starts_with(s, "lib"@) {
        s.subrange("lib"@.len() as int, s.len() as int)
    } else if spec_starts_with(s, "python3-"@) {
        s.subrange("python3-"@.len() as int, s.len() as int)
    } else if spec_starts_with(s, "python-"@) {
        s.subrange("python-"@.len() as int, s.len() as int)
    } else if spec_starts_with(s, "perl-"@) {
        s.subrange("perl-"@.len() as int, s.len() as int)
    } else if spec_starts_with(s, "ruby-"@) {
        s.subrange("ruby-"@.len() as int, s.len() as int)
    } else if spec_starts_with(s, "node-"@) {
        s.subrange("node-"@.len() as int, s.len() as int)
    } else if spec_starts_with(s, "golang-"@) {
        s.subrange("golang-"@.len() as int, s.len() as int)
    } else {
        s
    }
}

/// The name with one recognized role suffix removed.
pub open spec fn spec_strip_suffix(s: Seq<char>) -> Seq<char> {
    if spec_ends_with(s, "-dev"@) {
        s.subrange(0, s.len() - "-dev"@.len())
    } else if spec_ends_with(s, "-dbg"@) {
        s.subrange(0, s.len() - "-dbg"@.len())
    } else if spec_ends_with(s, "-doc"@) {
        s.subrange(0, s.len() - "-doc"@.len())
    } else if spec_ends_with(s, "-common"@) {
        s.subrange(0, s.len() - "-common"@.len())
    } else if spec_ends_with(s, "-data"@) {
        s.subrange(0, s.len() - "-data"@.len())
    } else if spec_ends_with(s, "-bin"@) {
        s.subrange(0, s.len() - "-bin"@.len())
    } else if spec_ends_with(s, "-utils"@) {
        s.subrange(0, s.len() - "-utils"@.len())
    } else {
        s
    }
}

/// A package name normalized for comparison: lowercased; one recognized
/// prefix and one recognized suffix removed; trailing digits stripped;
/// hyphens and underscores dropped.
pub open spec fn spec_normalize_name(s: Seq<char>) -> Seq<char> {
    spec_remove_separators(
        spec_strip_trailing_digits(spec_strip_suffix(spec_strip_prefix(spec_lower(s)))),
    )
}

/// Strips one recognized prefix.
fn strip_prefix_exec(v: Vec<char>) -> (r: Vec<char>)
    ensures
        r@ == spec_strip_prefix(v@),
{
    proof {
        reveal_strlit("lib");
        reveal_strlit("python3-");
        reveal_strlit("python-");
        reveal_strlit("perl-");
        reveal_strlit("ruby-");
        reveal_strlit("node-");
        reveal_strlit("golang-");
    }
    if starts_with_lit(&v, "lib") {
        slice_chars(&v, 3, v.len())
    } else if starts_with_lit(&v, "python3-") {
        slice_chars(&v, 8, v.len())
    } else if starts_with_lit(&v, "python-") {
        slice_chars(&v, 7, v.len())
    } else if starts_with_lit(&v, "perl-") {
        slice_chars(&v, 5, v.len())
    } else if starts_with_lit(&v, "ruby-") {
        slice_chars(&v, 5, v.len())
    } else if starts_with_lit(&v, "node-") {
        slice_chars(&v, 5, v.len())
    } else if starts_with_lit(&v, "golang-") {
        slice_chars(&v, 7, v.len())
    } else {
        v
    }
}

/// Strips one recognized suffix.
fn strip_suffix_exec(v: Vec<char>) -> (r: Vec<char>)
    ensures
        r@ == spec_strip_suffix(v@),
{
    proof {
        reveal_strlit("-dev");
        reveal_strlit("-dbg");
        reveal_strlit("-doc");
        reveal_strlit("-common");
        reveal_strlit("-data");
        reveal_strlit("-bin");
        reveal_strlit("-utils");
    }
    let n = v.len();
    if ends_with_lit(&v, "-dev") {
        slice_chars(&v, 0, n - 4)
    } else if ends_with_lit(&v, "-dbg") {
        slice_chars(&v, 0, n - 4)
    } else if ends_with_lit(&v, "-doc") {
        slice_chars(&v, 0, n - 4)
    } else if ends_with_lit(&v, "-common") {
        slice_chars(&v, 0, n - 7)
    } else if ends_with_lit(&v, "-data") {
        slice_chars(&v, 0, n - 5)
    } else if ends_with_lit(&v, "-bin") {
        slice_chars(&v, 0, n - 4)
    } else if ends_with_lit(&v, "-utils") {
        slice_chars(&v, 0, n - 6)
    } else {
        v
    }
}

/// Normalizes a package name for comparison, as [`spec_normalize_name`]
/// states.
pub fn normalize_chars(name: &str) -> (r: Vec<char>)
    ensures
        r@ == spec_normalize_name(name@),
{
    let chars = str_chars(name);
    let l = to_lower(&chars);
    let p = strip_prefix_exec(l);
    let sfx = strip_suffix_exec(p);
    let d = strip_trailing_digits(&sfx);
    remove_separators(&d)
}

/// Every character of the text is its own lowercase form.
pub open spec fn all_lower(s: Seq<char>) -> bool {
    forall|i: int| 0 <= i < s.len() ==> lower_char(#[trigger] s[i]) == s[i]
}

/// Lowercasing yields a text of lowercase characters.
proof fn lemma_lower_all_lower(s: Seq<char>)
    ensures
        all_lower(spec_lower(s)),
{
    assert forall|i: int| 0 <= i < spec_lower(s).len() implies lower_char(
        #[trigger] spec_lower(s)[i],
    ) == spec_lower(s)[i] by {
        assert(spec_lower(s)[i] == lower_char(s[i]));
    }
}

/// A filter keeps only characters of the original text, so lowercase texts
/// stay lowercase.
proof fn lemma_filter_all_lower(s: Seq<char>)
    requires
        all_lower(s),
    ensures
        all_lower(spec_remove_separators(s)),
        spec_remove_separators(s).len() <= s.len(),
    decreases s.len(),
{
    reveal_with_fuel(Seq::filter, 2);
    if s.len() > 0 {
        assert(s.drop_last() =~= s.subrange(0, s.len() - 1));
        assert(all_lower(s.drop_last()));
        lemma_filter_all_lower(s.drop_last());
    } else {
        assert(s.filter(|c: char| c != '-' && c != '_') =~= Seq::<char>::empty());
    }
}

/// A text whose characters all satisfy the separator filter is left intact
/// by it.
proof fn lemma_filter_no_separators(s: Seq<char>)
    requires
        forall|i: int| 0 <= i < s.len() ==> #[trigger] s[i] != '-' && s[i] != '_',
    ensures
        spec_remove_separators(s) == s,
    decreases s.len(),
{
    reveal_with_fuel(Seq::filter, 2);
    if s.len() > 0 {
        assert(s.drop_last() =~= s.subrange(0, s.len() - 1));
        lemma_filter_no_separators(s.drop_last());
        assert(spec_remove_separators(s) =~= s);
    } else {
        assert(s.filter(|c: char| c != '-' && c != '_') =~= Seq::<char>::empty());
    }
}

/// The separator filter leaves no separator behind.
proof fn lemma_filter_removes_separators(s: Seq<char>)
    ensures
        forall|i: int|
            0 <= i < spec_remove_separators(s).len() ==> #[trigger] spec_remove_separators(s)[i]
                != '-' && spec_remove_separators(s)[i] != '_',
    decreases s.len(),
{
    reveal_with_fuel(Seq::filter, 2);
    if s.len() > 0 {
        assert(s.drop_last() =~= s.subrange(0, s.len() - 1));
        lemma_filter_removes_separators(s.drop_last());
    } else {
        assert(s.filter(|c: char| c != '-' && c != '_') =~= Seq::<char>::empty());
    }
}

/// Subranges of lowercase texts stay lowercase.
proof fn lemma_subrange_all_lower(s: Seq<char>, a: int, b: int)
    requires
        all_lower(s),
        0 <= a <= b <= s.len(),
    ensures
        all_lower(s.subrange(a, b)),
{
}

/// A lowercase text is unchanged by lowercasing.
proof fn lemma_lower_fixed(s: Seq<char>)
    requires
        all_lower(s),
    ensures
        spec_lower(s) == s,
{
    assert(spec_lower(s) =~= s);
}

/// Normalization is idempotent, except on results that begin with a library
/// prefix or end in a digit (stripping would shorten those again).
pub proof fn lemma_normalize_idempotent(x: Seq<char>)
    requires
        !spec_starts_with(spec_normalize_name(x), "lib"@),
        spec_normalize_name(x).len() > 0 ==> !is_digit(
            spec_normalize_name(x)[spec_normalize_name(x).len() - 1],
        ),
    ensures
        spec_normalize_name(spec_normalize_name(x)) == spec_normalize_name(x),
{
    reveal_strlit("lib");
    reveal_strlit("python3-");
    reveal_strlit("python-");
    reveal_strlit("perl-");
    reveal_strlit("ruby-");
    reveal_strlit("node-");
    reveal_strlit("golang-");
    reveal_strlit("-dev");
    reveal_strlit("-dbg");
    reveal_strlit("-doc");
    reveal_strlit("-common");
    reveal_strlit("-data");
    reveal_strlit("-bin");
    reveal_strlit("-utils");
    let y = spec_normalize_name(x);
    // Every character of the normalized name is lowercase.
    let l = spec_lower(x);
    let p = spec_strip_prefix(l);
    let sfx = spec_strip_suffix(p);
    let d = spec_strip_trailing_digits(sfx);
    lemma_lower_all_lower(x);
    lemma_subrange_all_lower(
        l,
        (if p == l {
            0int
        } else {
            l.len() - p.len()
        }),
        l.len() as int,
    );
    assert(all_lower(p));
    lemma_subrange_all_lower(p, 0, sfx.len() as int);
    assert(all_lower(sfx));
    crate::strutil::lemma_strip_trailing_digits_fixed(sfx);
    lemma_subrange_all_lower(sfx, 0, d.len() as int);
    assert(all_lower(d));
    lemma_filter_all_lower(d);
    assert(all_lower(y));
    lemma_lower_fixed(y);
    // The normalized name holds no separators, so no hyphenated prefix or
    // suffix can match it, and the required bounds rule out the rest.
    lemma_filter_removes_separators(d);
    assert(spec_strip_prefix(spec_lower(y)) == y) by {
        if spec_starts_with(y, "python3-"@) {
            assert(y.subrange(0, 8) == "python3-"@);
            assert(y.subrange(0, 8)[7] == '-');
            assert(y[7] == '-');
        }
        if spec_starts_with(y, "python-"@) {
            assert(y.subrange(0, 7) == "python-"@);
            assert(y.subrange(0, 7)[6] == '-');
            assert(y[6] == '-');
        }
        if spec_starts_with(y, "perl-"@) {
            assert(y.subrange(0, 5) == "perl-"@);
            assert(y.subrange(0, 5)[4] == '-');
            assert(y[4] == '-');
        }
        if spec_starts_with(y, "ruby-"@) {
            assert(y.subrange(0, 5) == "ruby-"@);
            assert(y.subrange(0, 5)[4] == '-');
            assert(y[4] == '-');
        }
        if spec_starts_with(y, "node-"@) {
            assert(y.subrange(0, 5) == "node-"@);
            assert(y.subrange(0, 5)[4] == '-');
            assert(y[4] == '-');
        }
        if spec_starts_with(y, "golang-"@) {
            assert(y.subrange(0, 7) == "golang-"@);
            assert(y.subrange(0, 7)[6] == '-');
            assert(y[6] == '-');
        }
    }
    assert(spec_strip_suffix(y) == y) by {
        if spec_ends_with(y, "-dev"@) {
            assert(y.subrange(y.len() - 4, y.len() as int) == "-dev"@);
            assert(y.subrange(y.len() - 4, y.len() as int)[0] == '-');
            assert(y[y.len() - 4] == '-');
        }
        if spec_ends_with(y, "-dbg"@) {
            assert(y.subrange(y.len() - 4, y.len() as int) == "-dbg"@);
            assert(y.subrange(y.len() - 4, y.len() as int)[0] == '-');
            assert(y[y.len() - 4] == '-');
        }
        if spec_ends_with(y, "-doc"@) {
            assert(y.subrange(y.len() - 4, y.len() as int) == "-doc"@);
            assert(y.subrange(y.len() - 4, y.len() as int)[0] == '-');
            assert(y[y.len() - 4] == '-');
        }
        if spec_ends_with(y, "-common"@) {
            assert(y.subrange(y.len() - 7, y.len() as int) == "-common"@);
            assert(y.subrange(y.len() - 7, y.len() as int)[0] == '-');
            assert(y[y.len() - 7] == '-');
        }
        if spec_ends_with(y, "-data"@) {
            assert(y.subrange(y.len() - 5, y.len() as int) == "-data"@);
            assert(y.subrange(y.len() - 5, y.len() as int)[0] == '-');
            assert(y[y.len() - 5] == '-');
        }
        if spec_ends_with(y, "-bin"@) {
            assert(y.subrange(y.len() - 4, y.len() as int) == "-bin"@);
            assert(y.subrange(y.len() - 4, y.len() as int)[0] == '-');
            assert(y[y.len() - 4] == '-');
        }
        if spec_ends_with(y, "-utils"@) {
            assert(y.subrange(y.len() - 6, y.len() as int) == "-utils"@);
            assert(y.subrange(y.len() - 6, y.len() as int)[0] == '-');
            assert(y[y.len() - 6] == '-');
        }
    }
    assert(spec_strip_trailing_digits(y) == y);
    lemma_filter_no_separators(y);
}

/// The per-mille pattern-transformation score of two normalized names: 850
/// when a fixed rewrite maps one exactly onto the other, else a containment
/// score scaled by the length ratio, else 0.
pub open spec fn spec_pattern_match(d: Seq<char>, a: Seq<char>) -> u32 {
    if d.len() >= 5 && spec_starts_with(d, "lib"@) && is_digit(d[d.len() - 1]) && d.subrange(
        0,
        d.len() - 1,
    ) == a {
        850u32
    } else if d.len() > 8 && spec_starts_with(d, "python3-"@) && "python-"@ + d.subrange(
        8,
        d.len() as int,
    ) == a {
        850u32
    } else if d.len() >= 5 && spec_ends_with(d, "-dev"@) && d.subrange(0, d.len() - 4)
        + "-devel"@ == a {
        850u32
    } else if spec_contains(d, a) || spec_contains(a, d) {
        let mn = if d.len() <= a.len() {
            d.len() as int
        } else {
            a.len() as int
        };
        let mx = if d.len() <= a.len() {
            a.len() as int
        } else {
            d.len() as int
        };
        if mx == 0 {
            0u32
        } else {
            ((mn * 700) / mx) as u32
        }
    } else {
        0u32
    }
}

/// Computes [`spec_pattern_match`].
fn pattern_match(d: &Vec<char>, a: &Vec<char>) -> (r: u32)
    ensures
        r == spec_pattern_match(d@, a@),
        r <= 1000,
{
    proof {
        reveal_strlit("lib");
        reveal_strlit("python3-");
        reveal_strlit("python-");
        reveal_strlit("-dev");
        reveal_strlit("-devel");
    }
    let dn = d.len();
    let an = a.len();
    if dn >= 5 && starts_with_lit(d, "lib") && crate::strutil::digit(d[dn - 1]) {
        let cut = slice_chars(d, 0, dn - 1);
        if chars_eq(&cut, a) {
            return 850;
        }
    }
    if dn > 8 && starts_with_lit(d, "python3-") {
        let mut rep = str_chars("python-");
        let mut rest = slice_chars(d, 8, dn);
        rep.append(&mut rest);
        if chars_eq(&rep, a) {
            return 850;
        }
    }
    if dn >= 5 && ends_with_lit(d, "-dev") {
        let mut rep = slice_chars(d, 0, dn - 4);
        crate::strutil::push_lit(&mut rep, "-devel");
        if chars_eq(&rep, a) {
            return 850;
        }
    }
    if crate::strutil::contains_chars(d, a) || crate::strutil::contains_chars(a, d) {
        let mn = if dn <= an {
            dn
        } else {
            an
        };
        let mx = if dn <= an {
            an
        } else {
            dn
        };
        if mx == 0 {
            return 0;
        }
        proof {
            assert((mn as int * 700) / (mx as int) <= 700) by (nonlinear_arith)
                requires
                    0 <= mn as int <= mx as int,
                    1 <= mx as int,
            ;
        }
        ((mn as u128 * 700 / mx as u128) as u32)
    } else {
        0
    }
}

/// The per-mille form of a skim score: a hundredth of scale per point,
/// saturating at full scale; a negative score counts as zero.
pub open spec fn skim_milli(s: i64) -> u32 {
    if s < 0 {
        0u32
    } else if s >= 100 {
        1000u32
    } else {
        (s * 10) as u32
    }
}

/// The per-mille similarity of two names, as `calculate_score` returns it:
/// 950 when the normalized forms coincide, otherwise the mean of the
/// applicable component scores (the skim subsequence score when the texts
/// match at all, the normalized edit-distance similarity, and the pattern
/// score when it is positive).
pub open spec fn spec_calc_score(d: Seq<char>, a: Seq<char>) -> u32 {
    let nd = spec_normalize_name(d);
    let na = spec_normalize_name(a);
    if nd == na {
        950u32
    } else {
        let dl = spec_damerau_milli(nd, na) as int;
        let pat = spec_pattern_match(nd, na) as int;
        let base = dl + (if pat > 0 {
            pat
        } else {
            0
        });
        let base_n: int = 1 + (if pat > 0 {
            1int
        } else {
            0int
        });
        match skim_score_of(nd, na) {
            Some(s) => (((skim_milli(s) + base) / (base_n + 1)) as u32),
            None => ((base / base_n) as u32),
        }
    }
}

/// A matcher that scores candidate target names against a source name.
#[derive(Debug)]
pub struct FuzzyMatcher {
    /// Scores below this per-mille threshold are discarded.
    min_score: u32,
}

impl FuzzyMatcher {
    /// The matcher's per-mille score threshold.
    pub closed spec fn spec_min_score(self) -> u32 {
        self.min_score
    }

    /// A matcher with the default threshold of 600 per-mille.
    pub fn new() -> (r: FuzzyMatcher)
        ensures
            r.spec_min_score() == 600,
    {
        FuzzyMatcher { min_score: 600 }
    }

    /// The same matcher with another threshold.
    pub fn with_min_score(self, score: u32) -> (r: FuzzyMatcher)
        ensures
            r.spec_min_score() == score,
    {
        FuzzyMatcher { min_score: score }
    }

    /// Normalizes a package name for comparison, as
    /// [`spec_normalize_name`] states.
    pub fn normalize_name(&self, name: &str) -> (r: String)
        ensures
            r@ == spec_normalize_name(name@),
    {
        chars_to_string(&normalize_chars(name))
    }

    /// Scores a candidate target name against a source name, as
    /// [`spec_calc_score`] states.
    pub fn calculate_score(&self, debian_name: &str, arch_name: &str) -> (r: u32)
        ensures
            r == spec_calc_score(debian_name@, arch_name@),
            r <= 1000,
    {
        let nd = normalize_chars(debian_name);
        let na = normalize_chars(arch_name);
        if chars_eq(&nd, &na) {
            return 950;
        }
        let dl = damerau_milli(&nd, &na);
        let pat = pattern_match(&nd, &na);
        let base: u32 = dl + (if pat > 0 {
            pat
        } else {
            0
        });
        let base_n: u32 = 1 + (if pat > 0 {
            1
        } else {
            0
        });
        let snd = chars_to_string(&nd);
        let sna = chars_to_string(&na);
        let r = match skim_score(snd.as_str(), sna.as_str()) {
            Some(s) => {
                let sm: u32 = if s < 0 {
                    0
                } else if s >= 100 {
                    1000
                } else {
                    (s as u32) * 10
                };
                proof {
                    assert(sm == skim_milli(s));
                }
                (sm + base) / (base_n + 1)
            },
            None => base / base_n,
        };
        proof {
            if pat > 0 {
                assert(base_n == 2 && base <= 2000);
            } else {
                assert(base_n == 1 && base <= 1000);
            }
            assert(r <= 1000);
        }
        r
    }
}

/// The index just before the first digit of `s`, at or after `i`.
pub open spec fn nondigit_end(s: Seq<char>, i: int) -> int
    decreases s.len() - i when 0 <= i <= s.len()
{
    if i < s.len() && !is_digit(s[i]) {
        nondigit_end(s, i + 1)
    } else {
        i
    }
}

/// The leading digit-free run of `v`.
fn nondigit_prefix(v: &Vec<char>) -> (r: Vec<char>)
    ensures
        r@ == v@.subrange(0, nondigit_end(v@, 0)),
{
    let mut i: usize = 0;
    loop
        invariant
            i <= v@.len(),
            nondigit_end(v@, 0) == nondigit_end(v@, i as int),
        ensures
            i <= v@.len(),
            nondigit_end(v@, 0) == i,
        decreases v@.len() - i,
    {
        if i == v.len() {
            break;
        }
        if crate::strutil::digit(v[i]) {
            break;
        }
        i += 1;
    }
    slice_chars(v, 0, i)
}

/// What `heuristic_match` returns for a name: the first applicable fixed
/// rewrite, with its per-mille confidence.
pub open spec fn spec_heuristic(s: Seq<char>) -> Option<(Seq<char>, u32)> {
    let n = spec_lower(s);
    let stripped = spec_strip_trailing_digits(n);
    if spec_starts_with(n, "lib"@) && stripped != n && stripped.len() > 3 {
        Some((stripped, 700u32))
    } else if spec_starts_with(n, "python3-"@) {
        Some(("python-"@ + n.subrange("python3-"@.len() as int, n.len() as int), 800u32))
    } else if spec_starts_with(n, "lib"@) && spec_ends_with(n, "-dev"@) && n.len() >= 7 && {
        let core = n.subrange(3, n.len() - 4);
        let clean = core.subrange(0, nondigit_end(core, 0));
        let cleaned = if clean.len() > 0 && clean[clean.len() - 1] == '-' {
            clean.subrange(0, clean.len() - 1)
        } else {
            clean
        };
        cleaned.len() > 0
    } {
        let core = n.subrange(3, n.len() - 4);
        let clean = core.subrange(0, nondigit_end(core, 0));
        let cleaned = if clean.len() > 0 && clean[clean.len() - 1] == '-' {
            clean.subrange(0, clean.len() - 1)
        } else {
            clean
        };
        Some(("lib"@ + cleaned, 650u32))
    } else if spec_ends_with(n, "-dev"@) {
        Some((n.subrange(0, n.len() - "-dev"@.len()), 600u32))
    } else if n == "apt"@ || n == "dpkg"@ {
        Some(("pacman"@, 900u32))
    } else if n == "default-jre"@ {
        Some(("jre-openjdk"@, 900u32))
    } else if n == "default-jdk"@ {
        Some(("jdk-openjdk"@, 900u32))
    } else if n == "openjdk-11-jre"@ {
        Some(("jre11-openjdk"@, 900u32))
    } else if n == "openjdk-17-jre"@ {
        Some(("jre17-openjdk"@, 900u32))
    } else if n == "libreoffice-core"@ {
        Some(("libreoffice-fresh"@, 900u32))
    } else {
        None
    }
}

impl FuzzyMatcher {
    /// Applies the fixed rewrite heuristics to a source name, as
    /// [`spec_heuristic`] states.
    pub fn heuristic_match(&self, debian_name: &str) -> (r: Option<(String, u32)>)
        ensures
            match r {
                Some((name, score)) => spec_heuristic(debian_name@) matches Some(sp) && sp.0
                    == name@ && sp.1 == score && score <= 1000,
                None => spec_heuristic(debian_name@) is None,
            },
    {
        proof {
            reveal_strlit("lib");
            reveal_strlit("python3-");
            reveal_strlit("python-");
            reveal_strlit("-dev");
        }
        let chars = str_chars(debian_name);
        let n = to_lower(&chars);
        let nn = n.len();
        let stripped = strip_trailing_digits(&n);
        if starts_with_lit(&n, "lib") && !chars_eq(&stripped, &n) && stripped.len() > 3 {
            return Some((chars_to_string(&stripped), 700));
        }
        if starts_with_lit(&n, "python3-") {
            let mut out = str_chars("python-");
            let mut rest = slice_chars(&n, 8, nn);
            out.append(&mut rest);
            return Some((chars_to_string(&out), 800));
        }
        if starts_with_lit(&n, "lib") && ends_with_lit(&n, "-dev") && nn >= 7 {
            let core = slice_chars(&n, 3, nn - 4);
            let clean = nondigit_prefix(&core);
            let cleaned = if clean.len() > 0 && clean[clean.len() - 1] == '-' {
                slice_chars(&clean, 0, clean.len() - 1)
            } else {
                clean
            };
            if cleaned.len() > 0 {
                let ghost cl = cleaned@;
                let mut out = str_chars("lib");
                let mut c2 = slice_chars(&cleaned, 0, cleaned.len());
                out.append(&mut c2);
                proof {
                    assert(out@ =~= "lib"@ + cl);
                }
                return Some((chars_to_string(&out), 650));
            }
        }
        if ends_with_lit(&n, "-dev") {
            return Some((chars_to_string(&slice_chars(&n, 0, nn - 4)), 600));
        }
        if crate::strutil::chars_eq_str(&n, "apt") || crate::strutil::chars_eq_str(&n, "dpkg") {
            return Some(("pacman".to_owned(), 900));
        }
        if crate::strutil::chars_eq_str(&n, "default-jre") {
            return Some(("jre-openjdk".to_owned(), 900));
        }
        if crate::strutil::chars_eq_str(&n, "default-jdk") {
            return Some(("jdk-openjdk".to_owned(), 900));
        }
        if crate::strutil::chars_eq_str(&n, "openjdk-11-jre") {
            return Some(("jre11-openjdk".to_owned(), 900));
        }
        if crate::strutil::chars_eq_str(&n, "openjdk-17-jre") {
            return Some(("jre17-openjdk".to_owned(), 900));
        }
        if crate::strutil::chars_eq_str(&n, "libreoffice-core") {
            return Some(("libreoffice-fresh".to_owned(), 900));
        }
        None
    }
}

/// The best-scoring candidate at or above the threshold, earlier candidates
/// winning ties.
pub open spec fn spec_scan_best(cands: Seq<String>, name: Seq<char>, min: u32) -> Option<
    (Seq<char>, u32),
>
    decreases cands.len(),
{
    if cands.len() == 0 {
        None
    } else {
        let prev = spec_scan_best(cands.drop_last(), name, min);
        let sc = spec_calc_score(name, cands.last()@);
        if sc >= min && (match prev {
            Some((_, ps)) => sc > ps,
            None => true,
        }) {
            Some((cands.last()@, sc))
        } else {
            prev
        }
    }
}

/// What `find_best_match` returns: the best-scoring candidate, overridden by
/// the heuristic rewrite when that scores strictly higher.
pub open spec fn spec_find_best(cands: Seq<String>, name: Seq<char>, min: u32) -> Option<
    (Seq<char>, u32),
> {
    let base = spec_scan_best(cands, name, min);
    match spec_heuristic(name) {
        Some((hn, hs)) => match base {
            Some((bn, bs)) => if hs > bs {
                Some((hn, hs))
            } else {
                Some((bn, bs))
            },
            None => Some((hn, hs)),
        },
        None => base,
    }
}

impl FuzzyMatcher {
    /// Finds the best target-name match for a source name among the
    /// database's cached package names, as [`spec_find_best`] states.
    #[verifier::loop_isolation(false)]
    pub fn find_best_match(&self, debian_name: &str, db: &PackageDatabase) -> (r:
        crate::error::Result<Option<(String, u32)>>)
        ensures
            r matches Ok(v) && (match v {
                Some((n, s)) => spec_find_best(
                    spec_candidate_names(db.spec_arch_packages()),
                    debian_name@,
                    self.spec_min_score(),
                ) matches Some(sp) && sp.0 == n@ && sp.1 == s && s <= 1000,
                None => spec_find_best(
                    spec_candidate_names(db.spec_arch_packages()),
                    debian_name@,
                    self.spec_min_score(),
                ) is None,
            }),
    {
        let candidates = db.get_arch_package_names();
        let ghost cseq = candidates@;
        proof {
            assert forall|i: int| 0 <= i < cseq.len() implies #[trigger] cseq[i]@
                == spec_candidate_names(db.spec_arch_packages())[i]@ by {}
            lemma_scan_best_names_equal(
                cseq,
                spec_candidate_names(db.spec_arch_packages()),
                debian_name@,
                self.min_score,
            );
        }
        let mut best: Option<(String, u32)> = None;
        let mut i: usize = 0;
        proof {
            assert(cseq.subrange(0, 0) =~= Seq::<String>::empty());
        }
        while i < candidates.len()
            invariant
                i <= cseq.len(),
                match best {
                    Some((n, s)) => spec_scan_best(
                        cseq.subrange(0, i as int),
                        debian_name@,
                        self.min_score,
                    ) matches Some(sp) && sp.0 == n@ && sp.1 == s && s <= 1000,
                    None => spec_scan_best(
                        cseq.subrange(0, i as int),
                        debian_name@,
                        self.min_score,
                    ) is None,
                },
            decreases cseq.len() - i,
        {
            let ghost pre = cseq.subrange(0, i as int);
            let ghost pre1 = cseq.subrange(0, i + 1 as int);
            proof {
                assert(pre1.drop_last() =~= pre);
            }
            let sc = self.calculate_score(debian_name, candidates[i].as_str());
            let better = match &best {
                Some((_, bs)) => sc > *bs,
                None => true,
            };
            if sc >= self.min_score && better {
                best = Some((candidates[i].clone(), sc));
            }
            i += 1;
        }
        proof {
            assert(cseq.subrange(0, cseq.len() as int) =~= cseq);
        }
        match self.heuristic_match(debian_name) {
            Some((hn, hs)) => {
                let replace = match &best {
                    Some((_, bs)) => hs > *bs,
                    None => true,
                };
                if replace {
                    Ok(Some((hn, hs)))
                } else {
                    Ok(best)
                }
            },
            None => Ok(best),
        }
    }
}

/// The names of the cached target packages, as candidate strings.
pub open spec fn spec_candidate_names(ps: Seq<crate::database::ArchPackageInfo>) -> Seq<String> {
    ps.map_values(|p: crate::database::ArchPackageInfo| p.name)
}

/// Scanning for the best candidate depends only on the candidate texts.
proof fn lemma_scan_best_names_equal(a: Seq<String>, b: Seq<String>, name: Seq<char>, min: u32)
    requires
        a.len() == b.len(),
        forall|i: int| 0 <= i < a.len() ==> #[trigger] a[i]@ == b[i]@,
    ensures
        spec_scan_best(a, name, min) == spec_scan_best(b, name, min) || (spec_scan_best(
            a,
            name,
            min,
        ) matches Some(x) && spec_scan_best(b, name, min) matches Some(y) && x.0 == y.0 && x.1
            == y.1),
    decreases a.len(),
{
    if a.len() > 0 {
        assert(a.drop_last().len() == b.drop_last().len());
        assert(forall|i: int|
            0 <= i < a.drop_last().len() ==> #[trigger] a.drop_last()[i]@ == b.drop_last()[i]@);
        lemma_scan_best_names_equal(a.drop_last(), b.drop_last(), name, min);
    }
}

/// Whether one ranked entry is a legitimate match for the source name: a
/// candidate scored at or above the threshold, or the heuristic rewrite.
pub open spec fn match_entry_ok(
    e: (String, u32),
    cands: Seq<String>,
    name: Seq<char>,
    min: u32,
) -> bool {
    ||| exists|k: int|
        0 <= k < cands.len() && (#[trigger] cands[k])@ == e.0@ && e.1 == spec_calc_score(
            name,
            cands[k]@,
        ) && e.1 >= min
    ||| (spec_heuristic(name) matches Some(h) && e.0@ == h.0 && e.1 == h.1)
}

impl FuzzyMatcher {
    /// Ranks the database's candidates against a source name: every
    /// candidate scoring at or above the threshold, plus the heuristic
    /// rewrite when its name is not already among them, ordered by falling
    /// score and cut to at most `limit` entries.
    #[verifier::loop_isolation(false)]
    pub fn find_matches(&self, debian_name: &str, db: &PackageDatabase, limit: usize) -> (r:
        crate::error::Result<Vec<(String, u32)>>)
        ensures
            r matches Ok(v) && v@.len() <= limit && (forall|i: int|
                0 <= i < v@.len() ==> match_entry_ok(
                    #[trigger] v@[i],
                    spec_candidate_names(db.spec_arch_packages()),
                    debian_name@,
                    self.spec_min_score(),
                )) && (forall|i: int, j: int|
                0 <= i < j < v@.len() ==> (#[trigger] v@[i]).1 >= (#[trigger] v@[j]).1),
    {
        let ghost cseq = spec_candidate_names(db.spec_arch_packages());
        let candidates = db.get_arch_package_names();
        proof {
            assert(forall|k: int|
                0 <= k < candidates@.len() ==> (#[trigger] candidates@[k])@ == cseq[k]@);
        }
        let mut found: Vec<(String, u32)> = Vec::new();
        let mut i: usize = 0;
        while i < candidates.len()
            invariant
                i <= candidates@.len(),
                forall|m: int|
                    0 <= m < found@.len() ==> match_entry_ok(
                        #[trigger] found@[m],
                        cseq,
                        debian_name@,
                        self.spec_min_score(),
                    ),
            decreases candidates@.len() - i,
        {
            let sc = self.calculate_score(debian_name, candidates[i].as_str());
            if sc >= self.min_score {
                found.push((candidates[i].clone(), sc));
                proof {
                    assert(cseq[i as int]@ == found@.last().0@);
                    assert(match_entry_ok(
                        found@.last(),
                        cseq,
                        debian_name@,
                        self.spec_min_score(),
                    ));
                }
            }
            i += 1;
        }
        // The heuristic joins the pool unless its name is already present.
        match self.heuristic_match(debian_name) {
            Some((hn, hs)) => {
                let hv = crate::strutil::str_chars(hn.as_str());
                let mut present = false;
                let mut m: usize = 0;
                while m < found.len()
                    invariant
                        m <= found@.len(),
                    decreases found@.len() - m,
                {
                    if crate::strutil::chars_eq_str(&hv, found[m].0.as_str()) {
                        present = true;
                    }
                    m += 1;
                }
                if !present {
                    found.push((hn, hs));
                }
            },
            None => {},
        }
        // Move the best-scoring entries out, best first, up to the limit.
        let mut out: Vec<(String, u32)> = Vec::new();
        while found.len() > 0 && out.len() < limit
            invariant
                out@.len() <= limit,
                forall|m: int|
                    0 <= m < out@.len() ==> match_entry_ok(
                        #[trigger] out@[m],
                        cseq,
                        debian_name@,
                        self.spec_min_score(),
                    ),
                forall|m: int|
                    0 <= m < found@.len() ==> match_entry_ok(
                        #[trigger] found@[m],
                        cseq,
                        debian_name@,
                        self.spec_min_score(),
                    ),
                forall|a: int, b: int|
                    0 <= a < b < out@.len() ==> (#[trigger] out@[a]).1 >= (#[trigger] out@[b]).1,
                forall|a: int, b: int|
                    0 <= a < out@.len() && 0 <= b < found@.len()
                        ==> (#[trigger] out@[a]).1 >= (#[trigger] found@[b]).1,
            decreases found@.len(),
        {
            let mut best: usize = 0;
            let mut k: usize = 1;
            while k < found.len()
                invariant
                    best < found@.len(),
                    k <= found@.len(),
                    forall|j: int| 0 <= j < k ==> found@[best as int].1 >= (#[trigger] found@[j]).1,
                decreases found@.len() - k,
            {
                if found[k].1 > found[best].1 {
                    best = k;
                }
                k += 1;
            }
            let ghost found_old = found@;
            let chosen = found.remove(best);
            out.push(chosen);
            proof {
                assert(forall|j: int|
                    0 <= j < found@.len() ==> #[trigger] found@[j] == (if j < best as int {
                        found_old[j]
                    } else {
                        found_old[j + 1]
                    }));
            }
        }
        Ok(out)
    }
}

} // verus!
