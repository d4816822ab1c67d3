//! The rule mapper: an ordered list of name rewrite rules with a memoizing
//! cache.

use vstd::prelude::*;

use crate::dep::Dependency;
use crate::error::RexebError;
use crate::strutil::{
    chars_to_string, contains_lit, is_digit, push_lit, slice_chars, spec_contains, spec_lower,
    spec_starts_with, spec_strip_trailing_digits, starts_with_lit, str_chars,
    strip_trailing_digits, to_lower,
};

verus! {

/// What a rewrite of `text` under a user-supplied pattern and capture
/// template returns, a function of the three texts alone; `None` stands for
/// an invalid pattern or no match.
pub uninterp spec fn rx_rewrite(
    pattern: Seq<char>,
    template: Seq<char>,
    text: Seq<char>,
) -> Option<Seq<char>>;

/// Relies on `regex::Regex::new`, `Regex::is_match` and `Regex::replace`:
/// the first match of `pattern` in `text` rewritten under `template`, `None`
/// when the pattern does not compile or does not match.
#[verifier::external_body]
fn regex_rewrite(pattern: &str, template: &str, text: &str) -> (r: Option<String>)
    ensures
        match r {
            Some(out) => rx_rewrite(pattern@, template@, text@) matches Some(so) && so == out@,
            None => rx_rewrite(pattern@, template@, text@) is None,
        },
{
    match regex::Regex::new(pattern) {
        Ok(re) if re.is_match(text) => Some(re.replace(text, template).into_owned()),
        _ => None,
    }
}

/// Whether a user-supplied pattern is a valid regular expression, a function
/// of the pattern alone.
pub uninterp spec fn rx_valid(pattern: Seq<char>) -> bool;

/// Relies on `regex::Regex::new`: whether the pattern compiles.
#[verifier::external_body]
fn regex_valid(pattern: &str) -> (r: bool)
    ensures
        r == rx_valid(pattern@),
{
    regex::Regex::new(pattern).is_ok()
}

/// A digit or a dot, as version-like name suffixes use them.
pub open spec fn is_digit_or_dot(c: char) -> bool {
    is_digit(c) || c == '.'
}

/// The text with every trailing digit or dot removed.
pub open spec fn strip_trailing_dd(s: Seq<char>) -> Seq<char>
    decreases s.len(),
{
    if s.len() > 0 && is_digit_or_dot(s[s.len() - 1]) {
        strip_trailing_dd(s.drop_last())
    } else {
        s
    }
}

/// Removes every trailing digit or dot.
fn strip_trailing_dd_exec(v: &Vec<char>) -> (r: Vec<char>)
    ensures
        r@ == strip_trailing_dd(v@),
        r@.len() <= v@.len(),
        r@ == v@.subrange(0, r@.len() as int),
{
    let mut end: usize = v.len();
    proof {
        assert(v@.subrange(0, end as int) =~= v@);
    }
    loop
        invariant
            end <= v@.len(),
            strip_trailing_dd(v@) == strip_trailing_dd(v@.subrange(0, end as int)),
        ensures
            end <= v@.len(),
            strip_trailing_dd(v@) == strip_trailing_dd(v@.subrange(0, end as int)),
            end > 0 ==> !is_digit_or_dot(v@[end - 1]),
        decreases end,
    {
        if end == 0 {
            break;
        }
        let c = v[end - 1];
        if !(matches!(c, '0' | '1' | '2' | '3' | '4' | '5' | '6' | '7' | '8' | '9') || c == '.') {
            break;
        }
        proof {
            assert(v@.subrange(0, end as int).drop_last() =~= v@.subrange(0, end - 1));
        }
        end -= 1;
    }
    proof {
        assert(strip_trailing_dd(v@.subrange(0, end as int)) == v@.subrange(0, end as int));
    }
    slice_chars(v, 0, end)
}

/// The length of the text once trailing digits are removed: where the
/// trailing digit run starts.
pub open spec fn digit_run_start(s: Seq<char>) -> int {
    spec_strip_trailing_digits(s).len() as int
}

/// The last position at or below `k` where `pat` occurs in `s`, or `-1`.
pub open spec fn rfind_pat(s: Seq<char>, pat: Seq<char>, k: int) -> int
    decreases (if k < 0 {
        0int
    } else {
        k + 1
    }),
{
    if k < 0 {
        -1
    } else if k + pat.len() <= s.len() && s.subrange(k, k + pat.len()) == pat {
        k
    } else {
        rfind_pat(s, pat, k - 1)
    }
}

/// The builtin rewrite kinds, and user-supplied patterns.
#[derive(Debug)]
pub enum RuleKind {
    /// `lib<X><digits>` keeps its name without the version digits.
    LibVersion,
    /// `python3-<X>` becomes `python-<X>`.
    Python3,
    /// `lib<X>-perl` becomes `perl-<X>`.
    PerlLib,
    /// `ruby-<X>` keeps its name.
    Ruby,
    /// `node-<X>` becomes `nodejs-<X>`.
    Node,
    /// `lib<X>-dev` becomes `<X>`.
    DevFiles,
    /// `<X>-dbg` becomes `<X>-debug`.
    Debug,
    /// `<X>-doc` becomes `<X>-docs`.
    Docs,
    /// `<X>-theme-<Y>` becomes `<X>-<Y>-theme`.
    GtkTheme,
    /// `fonts-<X>` becomes `ttf-<X>`.
    Fonts,
    /// `gstreamer1.0-<X>` becomes `gst-plugins-<X>`.
    GStreamer,
    /// `gir1.2-<X>-<version>` becomes `<X>`.
    Typelib,
    /// `libqt5<X><digit>` becomes `qt5-<X>`.
    Qt5Lib,
    /// `libqt6<X><digit>` becomes `qt6-<X>`.
    Qt6Lib,
    /// `libboost-<X><version>` becomes `boost-libs`.
    Boost,
    /// `libicu<X><digit>` becomes `icu`.
    Icu,
    /// `libllvm<digits>` becomes `llvm-libs`.
    Llvm,
    /// `libclang<digits>-<digits>` becomes `clang`.
    Clang,
    /// A user-supplied regular expression with a capture template.
    Custom {
        /// The pattern to match.
        pattern: String,
        /// The replacement template.
        replacement: String,
    },
}

/// What one rule kind turns a name into, when it matches.
pub open spec fn rule_applies(kind: RuleKind, s: Seq<char>) -> Option<Seq<char>> {
    match kind {
        RuleKind::LibVersion => {
            let d = digit_run_start(s);
            if spec_starts_with(s, "lib"@) && s.len() >= 5 && d < s.len() {
                let k = if d >= 4 {
                    d
                } else {
                    4
                };
                if k < s.len() {
                    Some(s.subrange(0, k))
                } else {
                    None
                }
            } else {
                None
            }
        },
        RuleKind::Python3 => if spec_starts_with(s, "python3-"@) && s.len() > 8 {
            Some("python-"@ + s.subrange(8, s.len() as int))
        } else {
            None
        },
        RuleKind::PerlLib => if spec_starts_with(s, "lib"@) && crate::strutil::spec_ends_with(
            s,
            "-perl"@,
        ) && s.len() >= 9 {
            Some("perl-"@ + s.subrange(3, s.len() - 5))
        } else {
            None
        },
        RuleKind::Ruby => if spec_starts_with(s, "ruby-"@) && s.len() > 5 {
            Some(s)
        } else {
            None
        },
        RuleKind::Node => if spec_starts_with(s, "node-"@) && s.len() > 5 {
            Some("nodejs-"@ + s.subrange(5, s.len() as int))
        } else {
            None
        },
        RuleKind::DevFiles => if spec_starts_with(s, "lib"@) && crate::strutil::spec_ends_with(
            s,
            "-dev"@,
        ) && s.len() >= 8 {
            Some(s.subrange(3, s.len() - 4))
        } else {
            None
        },
        RuleKind::Debug => if crate::strutil::spec_ends_with(s, "-dbg"@) && s.len() >= 5 {
            Some(s.subrange(0, s.len() - 4) + "-debug"@)
        } else {
            None
        },
        RuleKind::Docs => if crate::strutil::spec_ends_with(s, "-doc"@) && s.len() >= 5 {
            Some(s.subrange(0, s.len() - 4) + "-docs"@)
        } else {
            None
        },
        RuleKind::GtkTheme => {
            let p = rfind_pat(s, "-theme-"@, s.len() - 8);
            if p >= 1 {
                Some(s.subrange(0, p) + "-"@ + s.subrange(p + 7, s.len() as int) + "-theme"@)
            } else {
                None
            }
        },
        RuleKind::Fonts => if spec_starts_with(s, "fonts-"@) && s.len() > 6 {
            Some("ttf-"@ + s.subrange(6, s.len() as int))
        } else {
            None
        },
        RuleKind::GStreamer => if spec_starts_with(s, "gstreamer1.0-"@) && s.len() > 13 {
            Some("gst-plugins-"@ + s.subrange(13, s.len() as int))
        } else {
            None
        },
        RuleKind::Typelib => {
            let t = strip_trailing_dd(s).len() as int;
            if spec_starts_with(s, "gir1.2-"@) && t < s.len() && t - 1 >= 8 && s[t - 1] == '-' {
                Some(s.subrange(7, t - 1))
            } else {
                None
            }
        },
        RuleKind::Qt5Lib => if spec_starts_with(s, "libqt5"@) && s.len() >= 8 && is_digit(
            s[s.len() - 1],
        ) {
            Some("qt5-"@ + s.subrange(6, s.len() - 1))
        } else {
            None
        },
        RuleKind::Qt6Lib => if spec_starts_with(s, "libqt6"@) && s.len() >= 8 && is_digit(
            s[s.len() - 1],
        ) {
            Some("qt6-"@ + s.subrange(6, s.len() - 1))
        } else {
            None
        },
        RuleKind::Boost => if spec_starts_with(s, "libboost-"@) && s.len() >= 11 && is_digit_or_dot(
            s[s.len() - 1],
        ) {
            Some("boost-libs"@)
        } else {
            None
        },
        RuleKind::Icu => if spec_starts_with(s, "libicu"@) && s.len() >= 8 && is_digit(
            s[s.len() - 1],
        ) {
            Some("icu"@)
        } else {
            None
        },
        RuleKind::Llvm => if spec_starts_with(s, "libllvm"@) && s.len() > 7
            && crate::fmtnum::all_digits(s.subrange(7, s.len() as int)) {
            Some("llvm-libs"@)
        } else {
            None
        },
        RuleKind::Clang => {
            let d = digit_run_start(s);
            if spec_starts_with(s, "libclang"@) && d < s.len() && d - 1 > 8 && s[d - 1] == '-'
                && crate::fmtnum::all_digits(s.subrange(8, d - 1)) {
            Some("clang"@)
            } else {
                None
            }
        },
        RuleKind::Custom { pattern, replacement } => rx_rewrite(pattern@, replacement@, s),
    }
}

/// One rewrite rule: a matcher, a debugging name and the per-mille
/// confidence of its result.
#[derive(Debug)]
pub struct MappingRule {
    /// Rule name, for reporting.
    pub name: String,
    /// What the rule matches and produces.
    pub kind: RuleKind,
    /// Per-mille confidence of the rewritten name, at most 1000.
    pub confidence: u32,
}

/// Applies one rule kind to a name, as [`rule_applies`] states.
#[verifier::rlimit(100)]
fn apply_kind(kind: &RuleKind, v: &Vec<char>) -> (r: Option<Vec<char>>)
    ensures
        match r {
            Some(out) => rule_applies(*kind, v@) matches Some(so) && so == out@,
            None => rule_applies(*kind, v@) is None,
        },
{
    proof {
        reveal_strlit("lib");
        reveal_strlit("python3-");
        reveal_strlit("python-");
        reveal_strlit("-perl");
        reveal_strlit("perl-");
        reveal_strlit("ruby-");
        reveal_strlit("node-");
        reveal_strlit("nodejs-");
        reveal_strlit("-dev");
        reveal_strlit("-dbg");
        reveal_strlit("-debug");
        reveal_strlit("-doc");
        reveal_strlit("-docs");
        reveal_strlit("-theme-");
        reveal_strlit("-");
        reveal_strlit("-theme");
        reveal_strlit("fonts-");
        reveal_strlit("ttf-");
        reveal_strlit("gstreamer1.0-");
        reveal_strlit("gst-plugins-");
        reveal_strlit("gir1.2-");
        reveal_strlit("libqt5");
        reveal_strlit("qt5-");
        reveal_strlit("libqt6");
        reveal_strlit("qt6-");
        reveal_strlit("libboost-");
        reveal_strlit("boost-libs");
        reveal_strlit("libicu");
        reveal_strlit("icu");
        reveal_strlit("libllvm");
        reveal_strlit("llvm-libs");
        reveal_strlit("libclang");
        reveal_strlit("clang");
    }
    let n = v.len();
    match kind {
        RuleKind::LibVersion => {
            let stripped = strip_trailing_digits(v);
            let d = stripped.len();
            if starts_with_lit(v, "lib") && n >= 5 && d < n {
                let k = if d >= 4 {
                    d
                } else {
                    4
                };
                if k < n {
                    Some(slice_chars(v, 0, k))
                } else {
                    None
                }
            } else {
                None
            }
        },
        RuleKind::Python3 => if starts_with_lit(v, "python3-") && n > 8 {
            let mut out = str_chars("python-");
            let mut rest = slice_chars(v, 8, n);
            out.append(&mut rest);
            Some(out)
        } else {
            None
        },
        RuleKind::PerlLib => if starts_with_lit(v, "lib") && crate::strutil::ends_with_lit(
            v,
            "-perl",
        ) && n >= 9 {
            let mut out = str_chars("perl-");
            let mut mid = slice_chars(v, 3, n - 5);
            out.append(&mut mid);
            Some(out)
        } else {
            None
        },
        RuleKind::Ruby => if starts_with_lit(v, "ruby-") && n > 5 {
            Some(slice_chars(v, 0, n))
        } else {
            None
        },
        RuleKind::Node => if starts_with_lit(v, "node-") && n > 5 {
            let mut out = str_chars("nodejs-");
            let mut rest = slice_chars(v, 5, n);
            out.append(&mut rest);
            Some(out)
        } else {
            None
        },
        RuleKind::DevFiles => if starts_with_lit(v, "lib") && crate::strutil::ends_with_lit(
            v,
            "-dev",
        ) && n >= 8 {
            Some(slice_chars(v, 3, n - 4))
        } else {
            None
        },
        RuleKind::Debug => if crate::strutil::ends_with_lit(v, "-dbg") && n >= 5 {
            let mut out = slice_chars(v, 0, n - 4);
            push_lit(&mut out, "-debug");
            Some(out)
        } else {
            None
        },
        RuleKind::Docs => if crate::strutil::ends_with_lit(v, "-doc") && n >= 5 {
            let mut out = slice_chars(v, 0, n - 4);
            push_lit(&mut out, "-docs");
            Some(out)
        } else {
            None
        },
        RuleKind::GtkTheme => {
            if n < 8 {
                proof {
                    assert(v@.len() - 8 < 0);
                    assert(rfind_pat(v@, "-theme-"@, v@.len() - 8) == -1);
                }
                return None;
            }
            match rfind_pat_exec(v, "-theme-", n - 8) {
                Some(p) => {
                    if p >= 1 {
                        let mut out = slice_chars(v, 0, p);
                        push_lit(&mut out, "-");
                        let mut tail = slice_chars(v, p + 7, n);
                        out.append(&mut tail);
                        push_lit(&mut out, "-theme");
                        Some(out)
                    } else {
                        None
                    }
                },
                None => None,
            }
        },
        RuleKind::Fonts => if starts_with_lit(v, "fonts-") && n > 6 {
            let mut out = str_chars("ttf-");
            let mut rest = slice_chars(v, 6, n);
            out.append(&mut rest);
            Some(out)
        } else {
            None
        },
        RuleKind::GStreamer => if starts_with_lit(v, "gstreamer1.0-") && n > 13 {
            let mut out = str_chars("gst-plugins-");
            let mut rest = slice_chars(v, 13, n);
            out.append(&mut rest);
            Some(out)
        } else {
            None
        },
        RuleKind::Typelib => {
            let stripped = strip_trailing_dd_exec(v);
            let t = stripped.len();
            if starts_with_lit(v, "gir1.2-") && t < n && t >= 9 && v[t - 1] == '-' {
                Some(slice_chars(v, 7, t - 1))
            } else {
                None
            }
        },
        RuleKind::Qt5Lib => if starts_with_lit(v, "libqt5") && n >= 8 && crate::strutil::digit(
            v[n - 1],
        ) {
            let mut out = str_chars("qt5-");
            let mut mid = slice_chars(v, 6, n - 1);
            out.append(&mut mid);
            Some(out)
        } else {
            None
        },
        RuleKind::Qt6Lib => if starts_with_lit(v, "libqt6") && n >= 8 && crate::strutil::digit(
            v[n - 1],
        ) {
            let mut out = str_chars("qt6-");
            let mut mid = slice_chars(v, 6, n - 1);
            out.append(&mut mid);
            Some(out)
        } else {
            None
        },
        RuleKind::Boost => {
            let last_ok = if n >= 1 {
                let c = v[n - 1];
                crate::strutil::digit(c) || c == '.'
            } else {
                false
            };
            if starts_with_lit(v, "libboost-") && n >= 11 && last_ok {
                Some(str_chars("boost-libs"))
            } else {
                None
            }
        },
        RuleKind::Icu => if starts_with_lit(v, "libicu") && n >= 8 && crate::strutil::digit(
            v[n - 1],
        ) {
            Some(str_chars("icu"))
        } else {
            None
        },
        RuleKind::Llvm => {
            if starts_with_lit(v, "libllvm") && n > 7 {
                let rest = slice_chars(v, 7, n);
                if all_digits_exec(&rest) {
                    Some(str_chars("llvm-libs"))
                } else {
                    None
                }
            } else {
                None
            }
        },
        RuleKind::Clang => {
            let stripped = strip_trailing_digits(v);
            let d = stripped.len();
            if starts_with_lit(v, "libclang") && d < n && d >= 10 && v[d - 1] == '-' {
                let mid = slice_chars(v, 8, d - 1);
                if all_digits_exec(&mid) {
                    Some(str_chars("clang"))
                } else {
                    None
                }
            } else {
                None
            }
        },
        RuleKind::Custom { pattern, replacement } => {
            let text = chars_to_string(v);
            match regex_rewrite(pattern.as_str(), replacement.as_str(), text.as_str()) {
                Some(out) => Some(str_chars(out.as_str())),
                None => None,
            }
        },
    }
}

/// Whether every character is a decimal digit.
fn all_digits_exec(v: &Vec<char>) -> (r: bool)
    ensures
        r == crate::fmtnum::all_digits(v@),
{
    let mut i: usize = 0;
    while i < v.len()
        invariant
            i <= v@.len(),
            forall|j: int| 0 <= j < i ==> is_digit(#[trigger] v@[j]),
        decreases v@.len() - i,
    {
        if !crate::strutil::digit(v[i]) {
            return false;
        }
        i += 1;
    }
    true
}

/// Runtime form of [`rfind_pat`], searching down from `k`.
fn rfind_pat_exec(v: &Vec<char>, pat: &str, k: usize) -> (r: Option<usize>)
    requires
        k + pat@.len() <= v@.len(),
    ensures
        match r {
            Some(p) => rfind_pat(v@, pat@, k as int) == p && p <= k,
            None => rfind_pat(v@, pat@, k as int) == -1,
        },
{
    let mut i: usize = k;
    loop
        invariant
            i <= k,
            k + pat@.len() <= v@.len(),
            rfind_pat(v@, pat@, k as int) == rfind_pat(v@, pat@, i as int),
        decreases i + 1,
    {
        if match_prefix_at(v, i, pat) {
            proof {
                assert(rfind_pat(v@, pat@, i as int) == i);
            }
            return Some(i);
        }
        if i == 0 {
            proof {
                assert(rfind_pat(v@, pat@, 0) == rfind_pat(v@, pat@, -1));
            }
            return None;
        }
        i -= 1;
    }
}

/// Whether `pat` occurs at position `i` of `v`.
fn match_prefix_at(v: &Vec<char>, i: usize, pat: &str) -> (r: bool)
    requires
        i + pat@.len() <= v@.len(),
    ensures
        r == (v@.subrange(i as int, i + pat@.len()) == pat@),
{
    let n = pat.unicode_len();
    let vlen = v.len();
    let mut j: usize = 0;
    while j < n
        invariant
            n == pat@.len(),
            i + n <= v@.len(),
            vlen == v@.len(),
            j <= n,
            forall|x: int| 0 <= x < j ==> v@[i + x] == pat@[x],
        decreases n - j,
    {
        if v[i + j] != pat.get_char(j) {
            proof {
                assert(v@.subrange(i as int, i + pat@.len())[j as int] != pat@[j as int]);
            }
            return false;
        }
        j += 1;
    }
    proof {
        assert(v@.subrange(i as int, i + pat@.len()) =~= pat@);
    }
    true
}

/// The first rule that matches, with its rewritten name and confidence.
pub open spec fn spec_apply_rules(rules: Seq<MappingRule>, s: Seq<char>) -> Option<
    (Seq<char>, u32),
>
    decreases rules.len(),
{
    if rules.len() == 0 {
        None
    } else {
        match rule_applies(rules.first().kind, s) {
            Some(out) => Some((out, rules.first().confidence)),
            None => spec_apply_rules(rules.drop_first(), s),
        }
    }
}

/// The rule mapper: rules tried in registration order, results memoized
/// together with their confidence.
#[derive(Debug)]
pub struct PackageMapper {
    rules: Vec<MappingRule>,
    cache: Vec<(String, Option<(String, u32)>)>,
}

impl PackageMapper {
    /// The ordered rule list.
    pub closed spec fn spec_rules(self) -> Seq<MappingRule> {
        self.rules@
    }

    /// Structural invariant: confidences stay within scale and every cache
    /// entry agrees with what scanning the rules would give.
    pub closed spec fn wf(self) -> bool {
        &&& forall|i: int|
            0 <= i < self.rules@.len() ==> (#[trigger] self.rules@[i]).confidence <= 1000
        &&& forall|i: int|
            0 <= i < self.cache@.len() ==> cache_entry_ok(
                self.rules@,
                #[trigger] self.cache@[i],
            )
    }

    /// A mapper holding the builtin rules and an empty cache.
    pub fn new() -> (r: PackageMapper)
        ensures
            r.wf(),
            r.spec_rules().len() == 18,
            r.spec_rules()[0].kind == RuleKind::LibVersion && r.spec_rules()[0].confidence == 800,
            r.spec_rules()[1].kind == RuleKind::Python3 && r.spec_rules()[1].confidence == 900,
            r.spec_rules()[2].kind == RuleKind::PerlLib && r.spec_rules()[2].confidence == 850,
            r.spec_rules()[3].kind == RuleKind::Ruby && r.spec_rules()[3].confidence == 900,
            r.spec_rules()[4].kind == RuleKind::Node && r.spec_rules()[4].confidence == 850,
            r.spec_rules()[5].kind == RuleKind::DevFiles && r.spec_rules()[5].confidence == 600,
            r.spec_rules()[6].kind == RuleKind::Debug && r.spec_rules()[6].confidence == 700,
            r.spec_rules()[7].kind == RuleKind::Docs && r.spec_rules()[7].confidence == 800,
            r.spec_rules()[8].kind == RuleKind::GtkTheme && r.spec_rules()[8].confidence == 750,
            r.spec_rules()[9].kind == RuleKind::Fonts && r.spec_rules()[9].confidence == 700,
            r.spec_rules()[10].kind == RuleKind::GStreamer && r.spec_rules()[10].confidence == 850,
            r.spec_rules()[11].kind == RuleKind::Typelib && r.spec_rules()[11].confidence == 600,
            r.spec_rules()[12].kind == RuleKind::Qt5Lib && r.spec_rules()[12].confidence == 700,
            r.spec_rules()[13].kind == RuleKind::Qt6Lib && r.spec_rules()[13].confidence == 700,
            r.spec_rules()[14].kind == RuleKind::Boost && r.spec_rules()[14].confidence == 750,
            r.spec_rules()[15].kind == RuleKind::Icu && r.spec_rules()[15].confidence == 800,
            r.spec_rules()[16].kind == RuleKind::Llvm && r.spec_rules()[16].confidence == 900,
            r.spec_rules()[17].kind == RuleKind::Clang && r.spec_rules()[17].confidence == 900,
    {
        let mut rules: Vec<MappingRule> = Vec::new();
        rules.push(MappingRule {
            name: "lib-version".to_owned(),
            kind: RuleKind::LibVersion,
            confidence: 800,
        });
        rules.push(MappingRule {
            name: "python3".to_owned(),
            kind: RuleKind::Python3,
            confidence: 900,
        });
        rules.push(MappingRule {
            name: "perl-lib".to_owned(),
            kind: RuleKind::PerlLib,
            confidence: 850,
        });
        rules.push(MappingRule {
            name: "ruby".to_owned(),
            kind: RuleKind::Ruby,
            confidence: 900,
        });
        rules.push(MappingRule {
            name: "node".to_owned(),
            kind: RuleKind::Node,
            confidence: 850,
        });
        rules.push(MappingRule {
            name: "dev-files".to_owned(),
            kind: RuleKind::DevFiles,
            confidence: 600,
        });
        rules.push(MappingRule {
            name: "debug".to_owned(),
            kind: RuleKind::Debug,
            confidence: 700,
        });
        rules.push(MappingRule {
            name: "docs".to_owned(),
            kind: RuleKind::Docs,
            confidence: 800,
        });
        rules.push(MappingRule {
            name: "gtk-theme".to_owned(),
            kind: RuleKind::GtkTheme,
            confidence: 750,
        });
        rules.push(MappingRule {
            name: "fonts".to_owned(),
            kind: RuleKind::Fonts,
            confidence: 700,
        });
        rules.push(MappingRule {
            name: "gstreamer".to_owned(),
            kind: RuleKind::GStreamer,
            confidence: 850,
        });
        rules.push(MappingRule {
            name: "typelib".to_owned(),
            kind: RuleKind::Typelib,
            confidence: 600,
        });
        rules.push(MappingRule {
            name: "qt5-lib".to_owned(),
            kind: RuleKind::Qt5Lib,
            confidence: 700,
        });
        rules.push(MappingRule {
            name: "qt6-lib".to_owned(),
            kind: RuleKind::Qt6Lib,
            confidence: 700,
        });
        rules.push(MappingRule {
            name: "boost".to_owned(),
            kind: RuleKind::Boost,
            confidence: 750,
        });
        rules.push(MappingRule {
            name: "icu".to_owned(),
            kind: RuleKind::Icu,
            confidence: 800,
        });
        rules.push(MappingRule {
            name: "llvm".to_owned(),
            kind: RuleKind::Llvm,
            confidence: 900,
        });
        rules.push(MappingRule {
            name: "clang".to_owned(),
            kind: RuleKind::Clang,
            confidence: 900,
        });
        PackageMapper { rules, cache: Vec::new() }
    }

    /// Applies the rules to a name, first match winning; answers come from
    /// the cache when the name was asked before.
    #[verifier::loop_isolation(false)]
    pub fn apply_rules(&mut self, debian_name: &str) -> (r: Option<(String, u32)>)
        requires
            old(self).wf(),
        ensures
            final(self).wf(),
            final(self).spec_rules() == old(self).spec_rules(),
            match r {
                Some((m, c)) => spec_apply_rules(old(self).spec_rules(), debian_name@)
                    matches Some(sp) && sp.0 == m@ && sp.1 == c && c <= 1000,
                None => spec_apply_rules(old(self).spec_rules(), debian_name@) is None,
            },
    {
        // The cache answers repeated questions.
        let mut i: usize = 0;
        while i < self.cache.len()
            invariant
                i <= self.cache@.len(),
                self.wf(),
            decreases self.cache@.len() - i,
        {
            if str_eq_map(self.cache[i].0.as_str(), debian_name) {
                proof {
                    assert(cache_entry_ok(self.rules@, self.cache@[i as int]));
                    lemma_apply_rules_conf(self.rules@, debian_name@);
                }
                let hit = &self.cache[i].1;
                return match hit {
                    Some((m, c)) => Some((m.clone(), *c)),
                    None => None,
                };
            }
            i += 1;
        }
        // Scan the rules in order.
        let chars = str_chars(debian_name);
        let mut k: usize = 0;
        let mut found: Option<(String, u32)> = None;
        proof {
            assert(self.rules@.subrange(0, self.rules@.len() as int) =~= self.rules@);
        }
        while k < self.rules.len()
            invariant
                k <= self.rules@.len(),
                chars@ == debian_name@,
                found is None,
                spec_apply_rules(self.rules@, debian_name@) == spec_apply_rules(
                    self.rules@.subrange(k as int, self.rules@.len() as int),
                    debian_name@,
                ),
            decreases self.rules@.len() - k,
        {
            proof {
                let tail = self.rules@.subrange(k as int, self.rules@.len() as int);
                assert(tail.first() == self.rules@[k as int]);
                assert(tail.drop_first() =~= self.rules@.subrange(
                    k + 1 as int,
                    self.rules@.len() as int,
                ));
            }
            match apply_kind(&self.rules[k].kind, &chars) {
                Some(out) => {
                    let mapped = chars_to_string(&out);
                    found = Some((mapped, self.rules[k].confidence));
                    break ;
                },
                None => {},
            }
            k += 1;
        }
        proof {
            if found is None {
                assert(self.rules@.subrange(
                    self.rules@.len() as int,
                    self.rules@.len() as int,
                ) =~= Seq::<MappingRule>::empty());
            }
        }
        // Remember the answer.
        let remembered: Option<(String, u32)> = match &found {
            Some((m, c)) => Some((m.clone(), *c)),
            None => None,
        };
        let ghost old_cache = self.cache@;
        self.cache.push((debian_name.to_owned(), remembered));
        proof {
            assert forall|i: int| 0 <= i < self.cache@.len() implies cache_entry_ok(
                self.rules@,
                #[trigger] self.cache@[i],
            ) by {
                if i < old_cache.len() {
                    assert(self.cache@[i] == old_cache[i]);
                }
            }
        }
        found
    }

    /// Registers a user-supplied rule; an invalid pattern is rejected. The
    /// cache is cleared, since an added rule may change any answer.
    pub fn add_rule(
        &mut self,
        name: &str,
        pattern: &str,
        replacement: &str,
        confidence: u32,
    ) -> (r: crate::error::Result<()>)
        requires
            old(self).wf(),
            confidence <= 1000,
        ensures
            final(self).wf(),
            rx_valid(pattern@) ==> r is Ok && final(self).spec_rules()
                == old(self).spec_rules().push(final(self).spec_rules().last())
                && (final(self).spec_rules().last().kind matches RuleKind::Custom {
                pattern: p,
                replacement: t,
            } && p@ == pattern@ && t@ == replacement@)
                && final(self).spec_rules().last().confidence == confidence,
            !rx_valid(pattern@) ==> (r matches Err(e) && e matches RexebError::Regex(m) && m@
                == pattern@) && final(self).spec_rules() == old(self).spec_rules(),
    {
        if !regex_valid(pattern) {
            return Err(RexebError::Regex(pattern.to_owned()));
        }
        self.rules.push(MappingRule {
            name: name.to_owned(),
            kind: RuleKind::Custom {
                pattern: pattern.to_owned(),
                replacement: replacement.to_owned(),
            },
            confidence,
        });
        self.cache = Vec::new();
        Ok(())
    }

    /// Forgets all memoized answers.
    pub fn clear_cache(&mut self)
        requires
            old(self).wf(),
        ensures
            final(self).wf(),
            final(self).spec_rules() == old(self).spec_rules(),
    {
        self.cache = Vec::new();
    }

    /// Suggests a target name for a dependency: the rules first, then the
    /// simple fallback transformation.
    pub fn suggest_arch_name(&mut self, dep: &Dependency) -> (r: Option<(String, u32)>)
        requires
            old(self).wf(),
        ensures
            final(self).wf(),
            final(self).spec_rules() == old(self).spec_rules(),
            match spec_apply_rules(old(self).spec_rules(), dep.debian_name@) {
                Some(sp) => r matches Some((m, c)) && sp.0 == m@ && sp.1 == c,
                None => match spec_simple_transform(dep.debian_name@) {
                    Some(sp) => r matches Some((m, c)) && sp.0 == m@ && sp.1 == c,
                    None => r is None,
                },
            },
    {
        match self.apply_rules(dep.debian_name.as_str()) {
            Some(v) => Some(v),
            None => simple_transform(dep.debian_name.as_str()),
        }
    }
}

/// What the fallback transformation returns: the lowercased name unchanged
/// when it carries no source-distribution idiom and no library prefix;
/// a library name with its version digits stripped otherwise.
pub open spec fn spec_simple_transform(s: Seq<char>) -> Option<(Seq<char>, u32)> {
    let l = spec_lower(s);
    if !spec_contains(l, "debian"@) && !spec_contains(l, "ubuntu"@) && !spec_starts_with(
        l,
        "lib"@,
    ) {
        Some((l, 500u32))
    } else if spec_starts_with(l, "lib"@) {
        let base = spec_strip_trailing_digits(l.subrange(3, l.len() as int));
        if base.len() > 0 {
            Some(("lib"@ + base, 550u32))
        } else {
            None
        }
    } else {
        None
    }
}

/// Runtime form of [`spec_simple_transform`].
fn simple_transform(name: &str) -> (r: Option<(String, u32)>)
    ensures
        match r {
            Some((m, c)) => spec_simple_transform(name@) matches Some(sp) && sp.0 == m@ && sp.1
                == c && c <= 1000,
            None => spec_simple_transform(name@) is None,
        },
{
    proof {
        reveal_strlit("lib");
    }
    let chars = str_chars(name);
    let l = to_lower(&chars);
    let has_lib = starts_with_lit(&l, "lib");
    if !contains_lit(&l, "debian") && !contains_lit(&l, "ubuntu") && !has_lib {
        return Some((chars_to_string(&l), 500));
    }
    if has_lib {
        let tail = slice_chars(&l, 3, l.len());
        let base = strip_trailing_digits(&tail);
        if base.len() > 0 {
            let ghost bv = base@;
            let mut out = str_chars("lib");
            let mut b2 = base;
            out.append(&mut b2);
            proof {
                assert(out@ =~= "lib"@ + bv);
            }
            return Some((chars_to_string(&out), 550));
        }
    }
    None
}

/// A matched rule hands out its own confidence, which stays within scale.
proof fn lemma_apply_rules_conf(rules: Seq<MappingRule>, s: Seq<char>)
    requires
        forall|i: int| 0 <= i < rules.len() ==> (#[trigger] rules[i]).confidence <= 1000,
    ensures
        spec_apply_rules(rules, s) matches Some(sp) ==> sp.1 <= 1000,
    decreases rules.len(),
{
    if rules.len() > 0 {
        assert(rules.first() == rules[0]);
        assert(forall|i: int|
            0 <= i < rules.drop_first().len() ==> (#[trigger] rules.drop_first()[i]).confidence
                <= 1000);
        lemma_apply_rules_conf(rules.drop_first(), s);
    }
}

/// Whether one memoized answer agrees with the rules.
pub open spec fn cache_entry_ok(
    rules: Seq<MappingRule>,
    entry: (String, Option<(String, u32)>),
) -> bool {
    match entry.1 {
        Some((m, c)) => spec_apply_rules(rules, entry.0@) matches Some(sp) && sp.0 == m@ && sp.1
            == c,
        None => spec_apply_rules(rules, entry.0@) is None,
    }
}

/// Relies on `str`'s `PartialEq`: equality of the two texts.
#[verifier::external_body]
fn str_eq_map(a: &str, b: &str) -> (r: bool)
    ensures
        r == (a@ == b@),
{
    a == b
}

} // verus!
