//! Dependency entries: version constraints, classes, and the Debian
//! dependency-string grammar.

use vstd::prelude::*;

use crate::error::RexebError;
use crate::strutil::{
    chars_to_string, find_char, find_lit, rfind_char, slice_chars, spec_find_sub, spec_trim,
    str_chars, trim_chars, is_digit, spec_contains, contains_lit, digit, find_from,
    lemma_find_from, find_from_exec, is_space, space, skip_spaces, skip_spaces_exec,
};

verus! {

/// A version comparison operator on a dependency.
#[derive(Debug, Clone, Copy, PartialEq, Eq, Structural)]
pub enum VersionOp {
    /// Equal to (`=`)
    Eq,
    /// Greater than or equal (`>=`)
    Ge,
    /// Less than or equal (`<=`)
    Le,
    /// Strictly greater (Debian `>>`)
    Gt,
    /// Strictly less (Debian `<<`)
    Lt,
}

impl VersionOp {
    /// What `to_arch_format` returns.
    pub open spec fn spec_arch_format(self) -> Seq<char> {
        match self {
            Self::Eq => "="@,
            Self::Ge => ">="@,
            Self::Le => "<="@,
            Self::Gt => ">"@,
            Self::Lt => "<"@,
        }
    }

    /// The operator as Arch Linux writes it.
    pub fn to_arch_format(&self) -> (r: &'static str)
        ensures
            r@ == self.spec_arch_format(),
    {
        proof {
            reveal_strlit("=");
            reveal_strlit(">=");
            reveal_strlit("<=");
            reveal_strlit(">");
            reveal_strlit("<");
        }
        match self {
            Self::Eq => "=",
            Self::Ge => ">=",
            Self::Le => "<=",
            Self::Gt => ">",
            Self::Lt => "<",
        }
    }

    /// The operator a trimmed Debian operator string denotes.
    pub open spec fn spec_from_debian(s: Seq<char>) -> Option<VersionOp> {
        let t = spec_trim(s);
        if t == "="@ {
            Some(VersionOp::Eq)
        } else if t == ">="@ {
            Some(VersionOp::Ge)
        } else if t == "<="@ {
            Some(VersionOp::Le)
        } else if t == ">>"@ || t == ">"@ {
            Some(VersionOp::Gt)
        } else if t == "<<"@ || t == "<"@ {
            Some(VersionOp::Lt)
        } else {
            None
        }
    }

    /// Parses a Debian version operator, ignoring surrounding spaces.
    pub fn from_debian(op: &str) -> (r: Option<VersionOp>)
        ensures
            r == Self::spec_from_debian(op@),
    {
        let chars = str_chars(op);
        let t = trim_chars(&chars);
        if crate::strutil::chars_eq_str(&t, "=") {
            Some(Self::Eq)
        } else if crate::strutil::chars_eq_str(&t, ">=") {
            Some(Self::Ge)
        } else if crate::strutil::chars_eq_str(&t, "<=") {
            Some(Self::Le)
        } else if crate::strutil::chars_eq_str(&t, ">>") || crate::strutil::chars_eq_str(&t, ">") {
            Some(Self::Gt)
        } else if crate::strutil::chars_eq_str(&t, "<<") || crate::strutil::chars_eq_str(&t, "<") {
            Some(Self::Lt)
        } else {
            None
        }
    }
}

/// The class a dependency declaration belongs to.
#[derive(Debug, Clone, Copy, PartialEq, Eq, Structural)]
pub enum DependencyType {
    /// Required runtime dependency
    Depends,
    /// Pre-installation dependency
    PreDepends,
    /// Recommended packages
    Recommends,
    /// Suggested packages
    Suggests,
    /// Conflicting packages
    Conflicts,
    /// Packages this replaces
    Replaces,
    /// Virtual packages provided
    Provides,
    /// Packages this breaks
    Breaks,
    /// Build-time dependencies
    BuildDepends,
}

impl DependencyType {
    /// The index of this class in the fixed class order.
    pub open spec fn spec_index(self) -> int {
        match self {
            Self::Depends => 0,
            Self::PreDepends => 1,
            Self::Recommends => 2,
            Self::Suggests => 3,
            Self::Conflicts => 4,
            Self::Replaces => 5,
            Self::Provides => 6,
            Self::Breaks => 7,
            Self::BuildDepends => 8,
        }
    }

    /// Runtime form of [`DependencyType::spec_index`].
    pub fn index(&self) -> (r: usize)
        ensures
            r == self.spec_index(),
    {
        match self {
            Self::Depends => 0,
            Self::PreDepends => 1,
            Self::Recommends => 2,
            Self::Suggests => 3,
            Self::Conflicts => 4,
            Self::Replaces => 5,
            Self::Provides => 6,
            Self::Breaks => 7,
            Self::BuildDepends => 8,
        }
    }

    /// The class at a given index, inverse of [`DependencyType::spec_index`].
    pub fn from_index(i: usize) -> (r: DependencyType)
        requires
            i < 9,
        ensures
            r.spec_index() == i,
    {
        match i {
            0 => Self::Depends,
            1 => Self::PreDepends,
            2 => Self::Recommends,
            3 => Self::Suggests,
            4 => Self::Conflicts,
            5 => Self::Replaces,
            6 => Self::Provides,
            7 => Self::Breaks,
            _ => Self::BuildDepends,
        }
    }

    /// What `debian_field` returns.
    pub open spec fn spec_debian_field(self) -> Seq<char> {
        match self {
            Self::Depends => "Depends"@,
            Self::PreDepends => "Pre-Depends"@,
            Self::Recommends => "Recommends"@,
            Self::Suggests => "Suggests"@,
            Self::Conflicts => "Conflicts"@,
            Self::Replaces => "Replaces"@,
            Self::Provides => "Provides"@,
            Self::Breaks => "Breaks"@,
            Self::BuildDepends => "Build-Depends"@,
        }
    }

    /// The Debian control field that declares this class.
    pub fn debian_field(&self) -> (r: &'static str)
        ensures
            r@ == self.spec_debian_field(),
    {
        match self {
            Self::Depends => "Depends",
            Self::PreDepends => "Pre-Depends",
            Self::Recommends => "Recommends",
            Self::Suggests => "Suggests",
            Self::Conflicts => "Conflicts",
            Self::Replaces => "Replaces",
            Self::Provides => "Provides",
            Self::Breaks => "Breaks",
            Self::BuildDepends => "Build-Depends",
        }
    }

    /// What `pkgbuild_field` returns.
    pub open spec fn spec_pkgbuild_field(self) -> Seq<char> {
        match self {
            Self::Depends | Self::PreDepends => "depends"@,
            Self::Recommends | Self::Suggests => "optdepends"@,
            Self::Conflicts | Self::Breaks => "conflicts"@,
            Self::Replaces => "replaces"@,
            Self::Provides => "provides"@,
            Self::BuildDepends => "makedepends"@,
        }
    }

    /// The PKGBUILD array that carries this class.
    pub fn pkgbuild_field(&self) -> (r: Option<&'static str>)
        ensures
            r is Some && r.unwrap()@ == self.spec_pkgbuild_field(),
    {
        match self {
            Self::Depends | Self::PreDepends => Some("depends"),
            Self::Recommends | Self::Suggests => Some("optdepends"),
            Self::Conflicts | Self::Breaks => Some("conflicts"),
            Self::Replaces => Some("replaces"),
            Self::Provides => Some("provides"),
            Self::BuildDepends => Some("makedepends"),
        }
    }
}

/// One declared dependency, possibly with alternatives (an OR group).
///
/// `confidence` is a per-mille certainty (1000 = certain) and is meaningful
/// only while `arch_name` is set.
#[derive(Debug)]
pub struct Dependency {
    /// Package name in the Debian namespace.
    pub debian_name: String,
    /// Package name in the Arch namespace, once translated.
    pub arch_name: Option<String>,
    /// Version constraint operator.
    pub version_op: Option<VersionOp>,
    /// Version string of the constraint.
    pub version: Option<String>,
    /// Alternative dependencies (OR relationship).
    pub alternatives: Vec<Dependency>,
    /// Whether the name is a known virtual capability.
    pub is_virtual: bool,
    /// Per-mille certainty of the translation, at most 1000.
    pub confidence: u32,
}

impl Dependency {
    /// Structural invariant: confidence stays within scale, for the entry and
    /// all its alternatives.
    pub open spec fn wf(self) -> bool
        decreases self,
    {
        self.confidence <= 1000 && (forall|i: int|
            0 <= i < self.alternatives@.len() ==> #[trigger] self.alternatives@[i].wf())
    }

    /// A dependency holding only a name.
    pub fn new(name: &str) -> (r: Dependency)
        ensures
            r.debian_name@ == name@,
            r.arch_name is None,
            r.version_op is None,
            r.version is None,
            r.alternatives@.len() == 0,
            !r.is_virtual,
            r.confidence == 0,
            r.wf(),
    {
        Dependency {
            debian_name: name.to_owned(),
            arch_name: None,
            version_op: None,
            version: None,
            alternatives: Vec::new(),
            is_virtual: false,
            confidence: 0,
        }
    }

    /// A dependency with a version constraint.
    pub fn with_version(name: &str, op: VersionOp, version: &str) -> (r: Dependency)
        ensures
            r.debian_name@ == name@,
            r.arch_name is None,
            r.version_op == Some(op),
            r.version is Some && r.version.unwrap()@ == version@,
            r.alternatives@.len() == 0,
            !r.is_virtual,
            r.confidence == 0,
            r.wf(),
    {
        Dependency {
            debian_name: name.to_owned(),
            arch_name: None,
            version_op: Some(op),
            version: Some(version.to_owned()),
            alternatives: Vec::new(),
            is_virtual: false,
            confidence: 0,
        }
    }

    /// Records the translated Arch name with its per-mille confidence.
    pub fn set_arch_name(&mut self, name: &str, confidence: u32)
        requires
            confidence <= 1000,
        ensures
            final(self).arch_name is Some && final(self).arch_name.unwrap()@ == name@,
            final(self).confidence == confidence,
            final(self).debian_name == old(self).debian_name,
            final(self).version_op == old(self).version_op,
            final(self).version == old(self).version,
            final(self).alternatives == old(self).alternatives,
            final(self).is_virtual == old(self).is_virtual,
            old(self).wf() ==> final(self).wf(),
    {
        self.arch_name = Some(name.to_owned());
        self.confidence = confidence;
    }

    /// The name that stands for this dependency: the Arch name once mapped,
    /// otherwise the Debian name.
    pub open spec fn spec_effective_name(self) -> Seq<char> {
        match self.arch_name {
            Some(n) => n@,
            None => self.debian_name@,
        }
    }

    /// Runtime form of [`Dependency::spec_effective_name`].
    pub fn effective_name(&self) -> (r: &str)
        ensures
            r@ == self.spec_effective_name(),
    {
        match &self.arch_name {
            Some(n) => n.as_str(),
            None => self.debian_name.as_str(),
        }
    }

    /// Whether this dependency has been translated: exactly when a resolved
    /// name is present.
    pub fn is_mapped(&self) -> (r: bool)
        ensures
            r == (self.arch_name is Some),
    {
        self.arch_name.is_some()
    }
}

/// A dependency counts as mapped exactly when a resolved name is present
/// (what `is_mapped` returns), and a well-formed entry's confidence stays
/// within the per-mille unit scale. When mapped, the effective name is the
/// resolved one.
pub proof fn lemma_mapped_iff_resolved(d: Dependency)
    requires
        d.wf(),
    ensures
        0 <= d.confidence <= 1000,
        d.arch_name matches Some(n) ==> d.spec_effective_name() == n@,
        d.arch_name is None ==> d.spec_effective_name() == d.debian_name@,
{
}

/// The version text with the Debian epoch prefix removed: everything after
/// the first `:`, when one occurs.
pub open spec fn spec_drop_epoch(s: Seq<char>) -> Seq<char> {
    if exists|i: int| 0 <= i < s.len() && s[i] == ':' {
        let p = choose|i: int|
            0 <= i < s.len() && s[i] == ':' && forall|j: int| 0 <= j < i ==> s[j] != ':';
        s.subrange(p + 1, s.len() as int)
    } else {
        s
    }
}

/// The version text with a Debian revision suffix removed: cut at the last
/// `-` when what follows starts with a digit or names a Debian build.
pub open spec fn spec_drop_revision(s: Seq<char>) -> Seq<char> {
    if exists|i: int| 0 <= i < s.len() && s[i] == '-' {
        let p = choose|i: int|
            0 <= i < s.len() && s[i] == '-' && forall|j: int| i < j < s.len() ==> s[j] != '-';
        let suffix = s.subrange(p + 1, s.len() as int);
        if (suffix.len() > 0 && is_digit(suffix[0])) || spec_contains(suffix, "ubuntu"@)
            || spec_contains(suffix, "debian"@) || spec_contains(suffix, "build"@)
            || spec_contains(suffix, "deb"@) {
            s.subrange(0, p)
        } else {
            s
        }
    } else {
        s
    }
}

/// The text cut just before the first occurrence of `pat`, when one occurs.
pub open spec fn spec_cut_at(s: Seq<char>, pat: Seq<char>) -> Seq<char> {
    match spec_find_sub(s, pat, 0) {
        Some(p) => s.subrange(0, p),
        None => s,
    }
}

/// The text with every `~` replaced by `.`.
pub open spec fn spec_tilde_to_dot(s: Seq<char>) -> Seq<char> {
    s.map_values(|c: char| if c == '~' { '.' } else { c })
}

/// A Debian version string made Arch-compatible: trimmed, epoch and revision
/// removed, packaging suffixes cut, and `~` mapped to `.`.
pub open spec fn spec_normalize_version(s: Seq<char>) -> Seq<char> {
    let v0 = spec_trim(s);
    let v1 = spec_drop_epoch(v0);
    let v2 = spec_drop_revision(v1);
    let v3 = spec_cut_at(v2, "+dfsg"@);
    let v4 = spec_cut_at(v3, "~dfsg"@);
    let v5 = spec_cut_at(v4, "+ds"@);
    let v6 = spec_cut_at(v5, "~ds"@);
    let v7 = spec_cut_at(v6, "+really"@);
    let v8 = spec_cut_at(v7, "~really"@);
    spec_tilde_to_dot(v8)
}

/// Cuts `v` just before the first occurrence of the literal `pat`.
fn cut_at(v: Vec<char>, pat: &str) -> (r: Vec<char>)
    ensures
        r@ == spec_cut_at(v@, pat@),
{
    match find_lit(&v, pat) {
        Some(p) => slice_chars(&v, 0, p),
        None => v,
    }
}

/// Removes the epoch prefix (for example "2:1.8" becomes "1.8").
fn drop_epoch(v: Vec<char>) -> (r: Vec<char>)
    ensures
        r@ == spec_drop_epoch(v@),
{
    let n = v.len();
    match find_char(&v, ':') {
        Some(p) => {
            proof {
                let q = choose|i: int|
                    0 <= i < v@.len() && v@[i] == ':' && forall|j: int| 0 <= j < i ==> v@[j] != ':';
                assert(v@[q] == ':');
                assert(q == p);
            }
            slice_chars(&v, p + 1, n)
        },
        None => {
            proof {
                assert(!(exists|i: int| 0 <= i < v@.len() && v@[i] == ':'));
            }
            v
        },
    }
}

/// Removes a Debian revision suffix (for example "1.8.0-1ubuntu1" becomes
/// "1.8.0").
fn drop_revision(v: Vec<char>) -> (r: Vec<char>)
    ensures
        r@ == spec_drop_revision(v@),
{
    let n = v.len();
    match rfind_char(&v, '-') {
        Some(p) => {
            proof {
                let q = choose|i: int|
                    0 <= i < v@.len() && v@[i] == '-' && forall|j: int|
                        i < j < v@.len() ==> v@[j] != '-';
                assert(v@[q] == '-');
                assert(q == p);
            }
            let suffix = slice_chars(&v, p + 1, n);
            let starts_digit = if suffix.len() > 0 {
                digit(suffix[0])
            } else {
                false
            };
            if starts_digit || contains_lit(&suffix, "ubuntu") || contains_lit(&suffix, "debian")
                || contains_lit(&suffix, "build") || contains_lit(&suffix, "deb") {
                slice_chars(&v, 0, p)
            } else {
                v
            }
        },
        None => {
            proof {
                assert(!(exists|i: int| 0 <= i < v@.len() && v@[i] == '-'));
            }
            v
        },
    }
}

/// Replaces every `~` with `.` (Debian writes pre-releases with `~`).
fn tilde_to_dot(v: Vec<char>) -> (r: Vec<char>)
    ensures
        r@ == spec_tilde_to_dot(v@),
{
    let mut r: Vec<char> = Vec::new();
    let mut i: usize = 0;
    while i < v.len()
        invariant
            i <= v@.len(),
            r@.len() == i,
            forall|j: int| 0 <= j < i ==> r@[j] == (if v@[j] == '~' {
                '.'
            } else {
                v@[j]
            }),
        decreases v@.len() - i,
    {
        let c = v[i];
        r.push(if c == '~' {
            '.'
        } else {
            c
        });
        i += 1;
    }
    proof {
        assert(r@ =~= spec_tilde_to_dot(v@));
    }
    r
}

/// Normalizes a Debian version string for Arch, as
/// [`spec_normalize_version`] states.
pub fn normalize_version_for_arch(version: &str) -> (r: Vec<char>)
    ensures
        r@ == spec_normalize_version(version@),
{
    let chars = str_chars(version);
    let v0 = trim_chars(&chars);
    let v1 = drop_epoch(v0);
    let v2 = drop_revision(v1);
    let v3 = cut_at(v2, "+dfsg");
    let v4 = cut_at(v3, "~dfsg");
    let v5 = cut_at(v4, "+ds");
    let v6 = cut_at(v5, "~ds");
    let v7 = cut_at(v6, "+really");
    let v8 = cut_at(v7, "~really");
    tilde_to_dot(v8)
}

impl Dependency {
    /// What `to_arch_string` returns: the effective name, with the normalized
    /// version constraint appended when one is present and survives
    /// normalization.
    pub open spec fn spec_arch_string(self) -> Seq<char> {
        match (self.version_op, self.version) {
            (Some(op), Some(ver)) => {
                let nv = spec_normalize_version(ver@);
                if nv.len() == 0 {
                    self.spec_effective_name()
                } else {
                    self.spec_effective_name() + op.spec_arch_format() + nv
                }
            },
            _ => self.spec_effective_name(),
        }
    }

    /// Renders the dependency as a PKGBUILD entry.
    pub fn to_arch_string(&self) -> (r: String)
        ensures
            r@ == self.spec_arch_string(),
    {
        let name = self.effective_name();
        match (&self.version_op, &self.version) {
            (Some(op), Some(ver)) => {
                let nv = normalize_version_for_arch(ver.as_str());
                if nv.len() == 0 {
                    name.to_owned()
                } else {
                    let mut out = crate::strutil::str_chars(name);
                    crate::strutil::push_lit(&mut out, op.to_arch_format());
                    let mut i: usize = 0;
                    while i < nv.len()
                        invariant
                            i <= nv@.len(),
                            out@ =~= name@ + op.spec_arch_format() + nv@.subrange(0, i as int),
                        decreases nv@.len() - i,
                    {
                        out.push(nv[i]);
                        proof {
                            assert(out@ =~= name@ + op.spec_arch_format() + nv@.subrange(
                                0,
                                i + 1 as int,
                            ));
                        }
                        i += 1;
                    }
                    proof {
                        assert(out@ =~= name@ + op.spec_arch_format() + nv@);
                    }
                    chars_to_string(&out)
                }
            },
            _ => name.to_owned(),
        }
    }
}

/// An ASCII letter.
pub open spec fn is_alpha(c: char) -> bool {
    ('a' <= c && c <= 'z') || ('A' <= c && c <= 'Z')
}

/// A character allowed inside a package name: letters, digits, `+`, `.`,
/// `_`, `-`.
pub open spec fn is_name_char(c: char) -> bool {
    is_alpha(c) || is_digit(c) || c == '+' || c == '.' || c == '_' || c == '-'
}

/// A character allowed to start a package name: a letter or digit.
pub open spec fn is_name_start(c: char) -> bool {
    is_alpha(c) || is_digit(c)
}

/// The first index at or after `i` that does not continue a package name.
pub open spec fn scan_name_end(s: Seq<char>, i: int) -> int
    decreases s.len() - i when 0 <= i <= s.len()
{
    if i < s.len() && is_name_char(s[i]) {
        scan_name_end(s, i + 1)
    } else {
        i
    }
}

/// Bounds of [`scan_name_end`].
pub proof fn lemma_scan_name_end(s: Seq<char>, i: int)
    requires
        0 <= i <= s.len(),
    ensures
        i <= scan_name_end(s, i) <= s.len(),
    decreases s.len() - i,
{
    if i < s.len() && is_name_char(s[i]) {
        lemma_scan_name_end(s, i + 1);
    }
}

/// Runtime form of [`scan_name_end`].
fn scan_name(v: &Vec<char>, from: usize) -> (r: usize)
    requires
        from <= v@.len(),
    ensures
        r == scan_name_end(v@, from as int),
        from <= r <= v@.len(),
{
    let mut i: usize = from;
    loop
        invariant
            from <= i <= v@.len(),
            scan_name_end(v@, from as int) == scan_name_end(v@, i as int),
        ensures
            i <= v@.len(),
            scan_name_end(v@, from as int) == i,
        decreases v@.len() - i,
    {
        if i == v.len() {
            break;
        }
        let c = v[i];
        let ok = (c >= 'a' && c <= 'z') || (c >= 'A' && c <= 'Z') || digit(c) || c == '+'
            || c == '.' || c == '_' || c == '-';
        proof {
            assert(ok == is_name_char(v@[i as int]));
        }
        if !ok {
            break;
        }
        i += 1;
    }
    i
}

/// The first index at or after `i` holding a space (or the length).
pub open spec fn scan_token_end(s: Seq<char>, i: int) -> int
    decreases s.len() - i when 0 <= i <= s.len()
{
    if i < s.len() && !is_space(s[i]) {
        scan_token_end(s, i + 1)
    } else {
        i
    }
}

/// Runtime form of [`scan_token_end`].
fn scan_nonspace(v: &Vec<char>, from: usize) -> (r: usize)
    requires
        from <= v@.len(),
    ensures
        r == scan_token_end(v@, from as int),
        from <= r <= v@.len(),
{
    let mut i: usize = from;
    loop
        invariant
            from <= i <= v@.len(),
            scan_token_end(v@, from as int) == scan_token_end(v@, i as int),
        ensures
            i <= v@.len(),
            scan_token_end(v@, from as int) == i,
        decreases v@.len() - i,
    {
        if i == v.len() {
            break;
        }
        let ok = !space(v[i]);
        proof {
            assert(ok == !is_space(v@[i as int]));
        }
        if !ok {
            break;
        }
        i += 1;
    }
    i
}

/// The version operator spelled at position `i` of `t`, with the position
/// just after it. Two-character spellings win over their one-character
/// prefixes.
pub open spec fn spec_scan_op(t: Seq<char>, i: int) -> Option<(VersionOp, int)> {
    if 0 <= i < t.len() && t[i] == '<' {
        if i + 1 < t.len() && t[i + 1] == '<' {
            Some((VersionOp::Lt, i + 2))
        } else if i + 1 < t.len() && t[i + 1] == '=' {
            Some((VersionOp::Le, i + 2))
        } else {
            Some((VersionOp::Lt, i + 1))
        }
    } else if 0 <= i < t.len() && t[i] == '>' {
        if i + 1 < t.len() && t[i + 1] == '>' {
            Some((VersionOp::Gt, i + 2))
        } else if i + 1 < t.len() && t[i + 1] == '=' {
            Some((VersionOp::Ge, i + 2))
        } else {
            Some((VersionOp::Gt, i + 1))
        }
    } else if 0 <= i < t.len() && t[i] == '=' {
        Some((VersionOp::Eq, i + 1))
    } else {
        None
    }
}

/// Runtime form of [`spec_scan_op`].
fn scan_op(v: &Vec<char>, from: usize) -> (r: Option<(VersionOp, usize)>)
    requires
        from <= v@.len(),
    ensures
        match r {
            Some((op, j)) => spec_scan_op(v@, from as int) == Some((op, j as int)) && from < j
                <= v@.len(),
            None => spec_scan_op(v@, from as int) is None,
        },
{
    if from >= v.len() {
        return None;
    }
    let c = v[from];
    if c == '<' {
        if from + 1 < v.len() && v[from + 1] == '<' {
            Some((VersionOp::Lt, from + 2))
        } else if from + 1 < v.len() && v[from + 1] == '=' {
            Some((VersionOp::Le, from + 2))
        } else {
            Some((VersionOp::Lt, from + 1))
        }
    } else if c == '>' {
        if from + 1 < v.len() && v[from + 1] == '>' {
            Some((VersionOp::Gt, from + 2))
        } else if from + 1 < v.len() && v[from + 1] == '=' {
            Some((VersionOp::Ge, from + 2))
        } else {
            Some((VersionOp::Gt, from + 1))
        }
    } else if c == '=' {
        Some((VersionOp::Eq, from + 1))
    } else {
        None
    }
}

/// Whether only an optional `[...]` restriction and trailing spaces remain
/// from position `i` of `t`.
pub open spec fn spec_tail_ok(t: Seq<char>, i: int) -> bool {
    if i == t.len() {
        true
    } else if 0 <= i < t.len() && t[i] == '[' {
        let be = find_from(t, i + 1, ']');
        be > i + 1 && be < t.len() && skip_spaces(t, be + 1) == t.len()
    } else {
        false
    }
}

/// Runtime form of [`spec_tail_ok`].
fn tail_ok(v: &Vec<char>, from: usize) -> (r: bool)
    requires
        from <= v@.len(),
    ensures
        r == spec_tail_ok(v@, from as int),
{
    if from == v.len() {
        return true;
    }
    if v[from] != '[' {
        return false;
    }
    let be = find_from_exec(v, from + 1, ']');
    if be <= from + 1 || be >= v.len() {
        return false;
    }
    let after = skip_spaces_exec(v, be + 1);
    after == v.len()
}

/// The structured reading of a trimmed dependency string under the
/// dependency grammar: the name, then an optional parenthesized version
/// constraint, then an optional architecture restriction. `None` when the
/// string does not fit the grammar.
pub open spec fn spec_grammar_parts(t: Seq<char>) -> Option<
    (Seq<char>, Option<(VersionOp, Seq<char>)>),
> {
    if t.len() == 0 || !is_name_start(t[0]) {
        None
    } else {
        let ne = scan_name_end(t, 0);
        let i1 = skip_spaces(t, ne);
        if i1 < t.len() && t[i1] == '(' {
            let i2 = skip_spaces(t, i1 + 1);
            match spec_scan_op(t, i2) {
                None => None,
                Some((op, i3)) => {
                    let ve = find_from(t, i3, ')');
                    if ve > i3 && ve < t.len() {
                        let version = spec_trim(t.subrange(i3, ve));
                        let i5 = skip_spaces(t, ve + 1);
                        if spec_tail_ok(t, i5) {
                            Some((t.subrange(0, ne), Some((op, version))))
                        } else {
                            None
                        }
                    } else {
                        None
                    }
                },
            }
        } else {
            if spec_tail_ok(t, i1) {
                Some((t.subrange(0, ne), None))
            } else {
                None
            }
        }
    }
}

/// Runtime form of [`spec_grammar_parts`], on a trimmed string.
fn grammar_parts(t: &Vec<char>) -> (r: Option<(Vec<char>, Option<(VersionOp, Vec<char>)>)>)
    ensures
        match r {
            Some((name, vc)) => spec_grammar_parts(t@) matches Some(sp) && sp.0 == name@
                && (match (vc, sp.1) {
                (Some((op, ver)), Some((sop, sver))) => op == sop && ver@ == sver,
                (None, None) => true,
                _ => false,
            }),
            None => spec_grammar_parts(t@) is None,
        },
{
    if t.len() == 0 {
        return None;
    }
    let c0 = t[0];
    let start_ok = (c0 >= 'a' && c0 <= 'z') || (c0 >= 'A' && c0 <= 'Z') || digit(c0);
    proof {
        assert(start_ok == is_name_start(t@[0]));
    }
    if !start_ok {
        return None;
    }
    let ne = scan_name(t, 0);
    let i1 = skip_spaces_exec(t, ne);
    if i1 < t.len() && t[i1] == '(' {
        let i2 = skip_spaces_exec(t, i1 + 1);
        match scan_op(t, i2) {
            None => None,
            Some((op, i3)) => {
                let ve = find_from_exec(t, i3, ')');
                if ve > i3 && ve < t.len() {
                    let raw = slice_chars(t, i3, ve);
                    let version = trim_chars(&raw);
                    let i5 = skip_spaces_exec(t, ve + 1);
                    if tail_ok(t, i5) {
                        let name = slice_chars(t, 0, ne);
                        Some((name, Some((op, version))))
                    } else {
                        None
                    }
                } else {
                    None
                }
            },
        }
    } else {
        if tail_ok(t, i1) {
            let name = slice_chars(t, 0, ne);
            Some((name, None))
        } else {
            None
        }
    }
}

/// How one dependency entry relates to the text it was parsed from, leaving
/// alternatives aside: the grammar's reading when the text fits it, and the
/// first space-delimited token as a bare name otherwise.
pub open spec fn dep_core_matches(d: Dependency, s: Seq<char>) -> bool {
    let t = spec_trim(s);
    &&& t.len() > 0
    &&& d.arch_name is None
    &&& !d.is_virtual
    &&& d.confidence == 0
    &&& match spec_grammar_parts(t) {
        Some((name, vc)) => {
            &&& d.debian_name@ == name
            &&& match vc {
                Some((op, ver)) => d.version_op == Some(op) && (d.version matches Some(v)
                    && v@ == ver),
                None => d.version_op is None && d.version is None,
            }
        },
        None => {
            &&& d.debian_name@ == t.subrange(0, scan_token_end(t, 0))
            &&& d.version_op is None
            &&& d.version is None
        },
    }
}

impl Dependency {
    /// Parses a single Debian dependency token (no `|` alternatives).
    ///
    /// An unparseable token falls back to its first space-delimited word as a
    /// bare name; only an all-space token is an error.
    pub fn parse_single(s: &str) -> (r: Result<Dependency, RexebError>)
        ensures
            match r {
                Ok(d) => dep_core_matches(d, s@) && d.alternatives@.len() == 0 && d.wf(),
                Err(e) => spec_trim(s@).len() == 0 && (e matches RexebError::InvalidControl(m)
                    && m@ == "Empty dependency"@),
            },
    {
        let chars = str_chars(s);
        let t = trim_chars(&chars);
        if t.len() == 0 {
            return Err(RexebError::InvalidControl("Empty dependency".to_owned()));
        }
        match grammar_parts(&t) {
            Some((name, vc)) => {
                let (version_op, version) = match vc {
                    Some((op, ver)) => (Some(op), Some(chars_to_string(&ver))),
                    None => (None, None),
                };
                Ok(Dependency {
                    debian_name: chars_to_string(&name),
                    arch_name: None,
                    version_op,
                    version,
                    alternatives: Vec::new(),
                    is_virtual: false,
                    confidence: 0,
                })
            },
            None => {
                let ne = scan_nonspace(&t, 0);
                let name = slice_chars(&t, 0, ne);
                Ok(Dependency {
                    debian_name: chars_to_string(&name),
                    arch_name: None,
                    version_op: None,
                    version: None,
                    alternatives: Vec::new(),
                    is_virtual: false,
                    confidence: 0,
                })
            },
        }
    }
}

/// The pieces of `s` between occurrences of `c`, in order; the separators
/// themselves are dropped.
pub open spec fn spec_split(s: Seq<char>, c: char) -> Seq<Seq<char>>
    decreases s.len(),
{
    let p = find_from(s, 0, c);
    if 0 <= p < s.len() {
        seq![s.subrange(0, p)] + spec_split(s.subrange(p + 1, s.len() as int), c)
    } else {
        seq![s]
    }
}

/// Runtime form of [`spec_split`].
#[verifier::loop_isolation(false)]
pub fn split_chars(v: &Vec<char>, c: char) -> (r: Vec<Vec<char>>)
    ensures
        r@.len() == spec_split(v@, c).len(),
        forall|i: int| 0 <= i < r@.len() ==> #[trigger] r@[i]@ == spec_split(v@, c)[i],
{
    let mut rest = slice_chars(v, 0, v.len());
    proof {
        assert(rest@ =~= v@);
    }
    let mut out: Vec<Vec<char>> = Vec::new();
    let ghost whole = v@;
    loop
        invariant
            out@.len() + spec_split(rest@, c).len() == spec_split(whole, c).len(),
            forall|i: int| 0 <= i < out@.len() ==> #[trigger] out@[i]@ == spec_split(whole, c)[i],
            forall|i: int|
                0 <= i < spec_split(rest@, c).len() ==> #[trigger] spec_split(rest@, c)[i]
                    == spec_split(whole, c)[out@.len() + i],
        decreases rest@.len(),
    {
        match find_char(&rest, c) {
            Some(q) => {
                let rl = rest.len();
                proof {
                    lemma_find_from(rest@, 0, c);
                    assert(find_from(rest@, 0, c) == q);
                }
                let piece = slice_chars(&rest, 0, q);
                let new_rest = slice_chars(&rest, q + 1, rl);
                let ghost old_out = out@;
                let ghost old_rest = rest@;
                proof {
                    assert(spec_split(old_rest, c) =~= seq![old_rest.subrange(0, q as int)]
                        + spec_split(new_rest@, c));
                }
                out.push(piece);
                rest = new_rest;
                proof {
                    assert forall|i: int| 0 <= i < out@.len() implies #[trigger] out@[i]@
                        == spec_split(whole, c)[i] by {
                        if i == old_out.len() {
                            assert(spec_split(old_rest, c)[0] == old_rest.subrange(0, q as int));
                            assert(spec_split(old_rest, c)[0] == spec_split(whole, c)[i]);
                        }
                    }
                    assert forall|i: int| 0 <= i < spec_split(rest@, c).len() implies #[trigger]
                        spec_split(rest@, c)[i] == spec_split(whole, c)[out@.len() + i] by {
                        assert(spec_split(old_rest, c)[i + 1] == spec_split(rest@, c)[i]);
                        assert(spec_split(old_rest, c)[i + 1] == spec_split(whole, c)[old_out.len()
                            + i + 1]);
                    }
                }
            },
            None => {
                proof {
                    lemma_find_from(rest@, 0, c);
                    assert(find_from(rest@, 0, c) == rest@.len());
                    assert(spec_split(rest@, c) =~= seq![rest@]);
                }
                let ghost old_out = out@;
                let ghost old_rest = rest@;
                out.push(rest);
                proof {
                    assert(spec_split(old_rest, c).len() == 1);
                    assert(out@.len() == spec_split(whole, c).len());
                    assert(spec_split(old_rest, c)[0] == old_rest);
                    assert(spec_split(old_rest, c)[0] == spec_split(whole, c)[old_out.len() as int]);
                    assert forall|i: int| 0 <= i < out@.len() implies #[trigger] out@[i]@
                        == spec_split(whole, c)[i] by {
                        if i == old_out.len() {
                            assert(out@[i]@ == old_rest);
                        }
                    }
                    assert(whole == v@);
                }
                return out;
            },
        }
    }
}

/// The texts, among the pieces of `parts` past the first, whose trimmed form
/// is nonempty: these become alternatives.
pub open spec fn spec_alt_sources(parts: Seq<Seq<char>>) -> Seq<Seq<char>> {
    parts.subrange(1, parts.len() as int).filter(|p: Seq<char>| spec_trim(p).len() > 0)
}

/// How a parsed dependency relates to its full source text, alternatives
/// included: the text splits on `|`; the first piece gives the entry itself
/// and each later piece with any content gives one alternative, in order.
pub open spec fn dep_matches_parse(d: Dependency, s: Seq<char>) -> bool {
    let parts = spec_split(s, '|');
    let alts = spec_alt_sources(parts);
    &&& dep_core_matches(d, parts[0])
    &&& d.alternatives@.len() == alts.len()
    &&& forall|i: int|
        0 <= i < alts.len() ==> dep_core_matches(#[trigger] d.alternatives@[i], alts[i])
            && d.alternatives@[i].alternatives@.len() == 0
}

impl Dependency {
    /// Parses a Debian dependency string, which may hold `|`-separated
    /// alternatives. Fails exactly when the part before the first `|` is all
    /// spaces.
    #[verifier::loop_isolation(false)]
    pub fn parse(s: &str) -> (r: Result<Dependency, RexebError>)
        ensures
            match r {
                Ok(d) => dep_matches_parse(d, s@) && d.wf(),
                Err(e) => spec_trim(spec_split(s@, '|')[0]).len() == 0 && (e
                    matches RexebError::InvalidControl(m) && m@ == "Empty dependency"@),
            },
    {
        let chars = str_chars(s);
        let parts = split_chars(&chars, '|');
        let first = chars_to_string(&parts[0]);
        let mut primary = match Self::parse_single(first.as_str()) {
            Ok(d) => d,
            Err(e) => {
                return Err(e);
            },
        };
        let ghost sparts = spec_split(s@, '|');
        let mut k: usize = 1;
        proof {
            assert(sparts.subrange(1, 1) =~= Seq::<Seq<char>>::empty());
            assert(Seq::<Seq<char>>::empty().filter(|p: Seq<char>| spec_trim(p).len() > 0) =~= Seq::<
                Seq<char>,
            >::empty());
        }
        while k < parts.len()
            invariant
                1 <= k <= parts@.len(),
                parts@.len() == sparts.len(),
                forall|i: int| 0 <= i < parts@.len() ==> #[trigger] parts@[i]@ == sparts[i],
                primary.alternatives@.len() == sparts.subrange(1, k as int).filter(
                    |p: Seq<char>| spec_trim(p).len() > 0,
                ).len(),
                forall|i: int|
                    0 <= i < primary.alternatives@.len() ==> dep_core_matches(
                        #[trigger] primary.alternatives@[i],
                        sparts.subrange(1, k as int).filter(
                            |p: Seq<char>| spec_trim(p).len() > 0,
                        )[i],
                    ) && primary.alternatives@[i].alternatives@.len() == 0,
                dep_core_matches(primary, sparts[0]),
                primary.confidence == 0,
                forall|i: int|
                    0 <= i < primary.alternatives@.len()
                        ==> (#[trigger] primary.alternatives@[i]).wf(),
            decreases parts@.len() - k,
        {
            let ghost pred = |p: Seq<char>| spec_trim(p).len() > 0;
            let ghost pre = sparts.subrange(1, k as int);
            let ghost pre1 = sparts.subrange(1, k + 1 as int);
            proof {
                assert(pre1.drop_last() =~= pre);
                reveal_with_fuel(Seq::filter, 2);
                assert(pre1.filter(pred) == (if pred(sparts[k as int]) {
                    pre.filter(pred).push(sparts[k as int])
                } else {
                    pre.filter(pred)
                }));
            }
            let alt_src = chars_to_string(&parts[k]);
            let ghost old_alts = primary.alternatives@;
            match Self::parse_single(alt_src.as_str()) {
                Ok(alt) => {
                    primary.alternatives.push(alt);
                    proof {
                        assert(pred(sparts[k as int]));
                        assert forall|i: int| 0 <= i < primary.alternatives@.len() implies
                            dep_core_matches(
                            #[trigger] primary.alternatives@[i],
                            pre1.filter(pred)[i],
                        ) && primary.alternatives@[i].alternatives@.len() == 0
                            && primary.alternatives@[i].wf() by {
                            if i < old_alts.len() {
                                assert(primary.alternatives@[i] == old_alts[i]);
                                assert(pre1.filter(pred)[i] == pre.filter(pred)[i]);
                            }
                        }
                    }
                },
                Err(_) => {
                    proof {
                        assert(!pred(sparts[k as int]));
                    }
                },
            }
            k += 1;
        }
        proof {
            assert(sparts.subrange(1, sparts.len() as int) =~= sparts.subrange(
                1,
                parts@.len() as int,
            ));
            assert(primary.wf());
        }
        Ok(primary)
    }

    /// Parses a comma-separated dependency list: each piece with any content
    /// is parsed on its own, and a failure on any piece fails the whole list.
    #[verifier::loop_isolation(false)]
    pub fn parse_list(s: &str) -> (r: Result<Vec<Dependency>, RexebError>)
        ensures
            match r {
                Ok(ds) => {
                    let items = spec_split(s@, ',').filter(
                        |p: Seq<char>| spec_trim(p).len() > 0,
                    );
                    &&& ds@.len() == items.len()
                    &&& forall|i: int|
                        0 <= i < ds@.len() ==> dep_matches_parse(#[trigger] ds@[i], items[i])
                            && ds@[i].wf()
                },
                Err(e) => e matches RexebError::InvalidControl(m) && m@ == "Empty dependency"@,
            },
    {
        let chars = str_chars(s);
        let parts = split_chars(&chars, ',');
        let mut deps: Vec<Dependency> = Vec::new();
        let ghost sparts = spec_split(s@, ',');
        let ghost pred = |p: Seq<char>| spec_trim(p).len() > 0;
        let mut k: usize = 0;
        proof {
            assert(sparts.subrange(0, 0) =~= Seq::<Seq<char>>::empty());
            assert(Seq::<Seq<char>>::empty().filter(pred) =~= Seq::<Seq<char>>::empty());
        }
        while k < parts.len()
            invariant
                k <= parts@.len(),
                parts@.len() == sparts.len(),
                forall|i: int| 0 <= i < parts@.len() ==> #[trigger] parts@[i]@ == sparts[i],
                deps@.len() == sparts.subrange(0, k as int).filter(pred).len(),
                forall|i: int|
                    0 <= i < deps@.len() ==> dep_matches_parse(
                        #[trigger] deps@[i],
                        sparts.subrange(0, k as int).filter(pred)[i],
                    ) && deps@[i].wf(),
            decreases parts@.len() - k,
        {
            let ghost pre = sparts.subrange(0, k as int);
            let ghost pre1 = sparts.subrange(0, k + 1 as int);
            proof {
                assert(pre1.drop_last() =~= pre);
                reveal_with_fuel(Seq::filter, 2);
                assert(pre1.filter(pred) == (if pred(sparts[k as int]) {
                    pre.filter(pred).push(sparts[k as int])
                } else {
                    pre.filter(pred)
                }));
            }
            let piece = trim_chars(&parts[k]);
            let ghost old_deps = deps@;
            if piece.len() > 0 {
                proof {
                    assert(pred(sparts[k as int]));
                }
                let text = chars_to_string(&parts[k]);
                match Self::parse(text.as_str()) {
                    Ok(d) => {
                        deps.push(d);
                        proof {
                            assert forall|i: int| 0 <= i < deps@.len() implies dep_matches_parse(
                                #[trigger] deps@[i],
                                pre1.filter(pred)[i],
                            ) && deps@[i].wf() by {
                                if i < old_deps.len() {
                                    assert(deps@[i] == old_deps[i]);
                                    assert(pre1.filter(pred)[i] == pre.filter(pred)[i]);
                                }
                            }
                        }
                    },
                    Err(e) => {
                        return Err(e);
                    },
                }
            } else {
                proof {
                    assert(!pred(sparts[k as int]));
                }
            }
            k += 1;
        }
        proof {
            assert(sparts.subrange(0, sparts.len() as int) =~= sparts);
        }
        Ok(deps)
    }
}

} // verus!
