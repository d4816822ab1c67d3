//! The resolution orchestrator: the staged name-translation pipeline, the
//! Java variant-conflict policy, and resolution statistics.

use vstd::prelude::*;

use crate::aur::AurPackage;
use crate::config::JavaConfig;
use crate::database::{find_virtual, is_builtin_database, spec_lookup, PackageDatabase};
use crate::dep::{Dependency, DependencyType};
use crate::fuzzy::{spec_find_best, spec_candidate_names, FuzzyMatcher};
use crate::package::{class_count, eq_except_dependencies, PackageMetadata};
use crate::strutil::{chars_eq_str, contains_lit, spec_contains, str_chars};

verus! {

/// Resolves source-distribution dependency names to target names.
#[derive(Debug)]
pub struct DependencyResolver {
    /// The mapping store.
    pub db: PackageDatabase,
    /// The fuzzy matcher.
    pub fuzzy: FuzzyMatcher,
}

impl DependencyResolver {
    /// Structural invariant: the store is well formed.
    pub open spec fn wf(self) -> bool {
        self.db.wf()
    }

    /// A resolver over the builtin mapping store, with the default fuzzy
    /// threshold.
    pub fn new() -> (r: crate::error::Result<DependencyResolver>)
        ensures
            r matches Ok(v) && v.wf() && is_builtin_database(v.db) && v.fuzzy.spec_min_score()
                == 600,
    {
        Ok(DependencyResolver { db: PackageDatabase::new(), fuzzy: FuzzyMatcher::new() })
    }

    /// Runs the local stages of the pipeline on one dependency: an already
    /// mapped entry is left alone; else the store's exact lookup, else the
    /// fuzzy match. Returns whether the dependency is now mapped.
    pub fn resolve_local(&self, dep: &mut Dependency) -> (r: bool)
        requires
            self.wf(),
            old(dep).wf(),
        ensures
            final(dep).wf(),
            final(dep).debian_name == old(dep).debian_name,
            final(dep).version_op == old(dep).version_op,
            final(dep).version == old(dep).version,
            final(dep).alternatives == old(dep).alternatives,
            final(dep).is_virtual == old(dep).is_virtual,
            r == (final(dep).arch_name is Some),
            old(dep).arch_name is Some ==> *final(dep) == *old(dep),
            (old(dep).arch_name is None) ==> match spec_lookup(
                self.db.spec_mappings(),
                self.db.spec_arch_packages(),
                old(dep).debian_name@,
            ) {
                Some((n, c)) => (final(dep).arch_name matches Some(an) && an@ == n)
                    && final(dep).confidence == c,
                None => match spec_find_best(
                    spec_candidate_names(self.db.spec_arch_packages()),
                    old(dep).debian_name@,
                    self.fuzzy.spec_min_score(),
                ) {
                    Some((n, c)) => (final(dep).arch_name matches Some(an) && an@ == n)
                        && (final(dep).confidence == c),
                    None => *final(dep) == *old(dep),
                },
            },
    {
        if dep.is_mapped() {
            return true;
        }
        let looked = match self.db.lookup(dep.debian_name.as_str()) {
            Ok(v) => v,
            Err(_) => None,
        };
        match looked {
            Some((arch_name, confidence)) => {
                dep.set_arch_name(arch_name.as_str(), confidence);
                return true;
            },
            None => {},
        }
        let fuzzy = match self.fuzzy.find_best_match(dep.debian_name.as_str(), &self.db) {
            Ok(v) => v,
            Err(_) => None,
        };
        match fuzzy {
            Some((arch_name, confidence)) => {
                dep.set_arch_name(arch_name.as_str(), confidence);
                true
            },
            None => false,
        }
    }

    /// Applies the answer of an exact remote lookup: the first returned
    /// package maps the dependency at full confidence. An already mapped
    /// entry and an empty answer are left alone.
    pub fn apply_info_results(dep: &mut Dependency, results: &Vec<AurPackage>) -> (r: bool)
        requires
            old(dep).wf(),
        ensures
            final(dep).wf(),
            final(dep).debian_name == old(dep).debian_name,
            final(dep).alternatives == old(dep).alternatives,
            r == (final(dep).arch_name is Some),
            old(dep).arch_name is Some ==> *final(dep) == *old(dep),
            (old(dep).arch_name is None && results@.len() > 0) ==> (final(dep).arch_name
                matches Some(an) && an@ == results@[0].name@) && final(dep).confidence == 1000,
            (old(dep).arch_name is None && results@.len() == 0) ==> *final(dep) == *old(dep),
    {
        if dep.is_mapped() {
            return true;
        }
        if results.len() > 0 {
            dep.set_arch_name(results[0].name.as_str(), 1000);
            return true;
        }
        false
    }

    /// Applies the answer of a remote provider search: the first provider
    /// maps the dependency, at full confidence when its name equals the
    /// foreign name and at 800 otherwise.
    pub fn apply_provider_results(dep: &mut Dependency, results: &Vec<AurPackage>) -> (r: bool)
        requires
            old(dep).wf(),
        ensures
            final(dep).wf(),
            final(dep).debian_name == old(dep).debian_name,
            final(dep).alternatives == old(dep).alternatives,
            r == (final(dep).arch_name is Some),
            old(dep).arch_name is Some ==> *final(dep) == *old(dep),
            (old(dep).arch_name is None && results@.len() > 0) ==> (final(dep).arch_name
                matches Some(an) && an@ == results@[0].name@) && final(dep).confidence == (if results@[0].name@
                == old(dep).debian_name@ {
                1000u32
            } else {
                800u32
            }),
            (old(dep).arch_name is None && results@.len() == 0) ==> *final(dep) == *old(dep),
    {
        if dep.is_mapped() {
            return true;
        }
        if results.len() > 0 {
            let confidence: u32 = if str_eq_res(results[0].name.as_str(), dep.debian_name.as_str())
            {
                1000
            } else {
                800
            };
            dep.set_arch_name(results[0].name.as_str(), confidence);
            return true;
        }
        false
    }

    /// Marks a still-unresolved dependency as virtual when the store knows
    /// the name as a capability; a mapped entry is left alone.
    pub fn finalize_unresolved(&self, dep: &mut Dependency)
        requires
            self.wf(),
            old(dep).wf(),
        ensures
            final(dep).wf(),
            final(dep).debian_name == old(dep).debian_name,
            final(dep).arch_name == old(dep).arch_name,
            final(dep).confidence == old(dep).confidence,
            final(dep).alternatives == old(dep).alternatives,
            old(dep).arch_name is Some ==> final(dep).is_virtual == old(dep).is_virtual,
            old(dep).arch_name is None ==> final(dep).is_virtual == (old(dep).is_virtual
                || find_virtual(self.db.spec_virtuals(), old(dep).debian_name@) is Some),
    {
        if dep.is_mapped() {
            return ;
        }
        let known = match self.db.is_virtual(dep.debian_name.as_str()) {
            Ok(b) => b,
            Err(_) => false,
        };
        if known {
            dep.is_virtual = true;
        }
    }
}

/// Relies on `str`'s `PartialEq`: equality of the two texts.
#[verifier::external_body]
fn str_eq_res(a: &str, b: &str) -> (r: bool)
    ensures
        r == (a@ == b@),
{
    a == b
}

/// Aggregate counts over one package's dependency entries.
#[derive(Debug)]
pub struct ResolutionStats {
    /// Total number of dependencies.
    pub total: u64,
    /// Dependencies with a resolved name.
    pub mapped: u64,
    /// Dependencies with no translation at all.
    pub unmapped: u64,
    /// Known virtual capabilities among the unmapped.
    pub virtual_packages: u64,
    /// Mean per-mille confidence over the mapped entries.
    pub avg_confidence: u32,
    /// Sum of the mapped entries' per-mille confidences.
    pub total_confidence: u64,
    /// The names that found no translation.
    pub unmapped_names: Vec<String>,
}

impl ResolutionStats {
    /// The per-mille share of dependencies that are mapped or virtual;
    /// exactly 1000 (full success) when there are no dependencies at all.
    pub fn success_rate_milli(&self) -> (r: u32)
        requires
            self.mapped + self.virtual_packages <= self.total,
        ensures
            self.total == 0 ==> r == 1000,
            self.total > 0 ==> r as int == ((self.mapped + self.virtual_packages) * 1000) / (
            self.total as int),
    {
        if self.total == 0 {
            1000
        } else {
            proof {
                assert(((self.mapped + self.virtual_packages) * 1000) / (self.total as int) <= 1000)
                    by (nonlinear_arith)
                    requires
                        0 <= self.mapped + self.virtual_packages <= self.total,
                        self.total >= 1,
                ;
                assert((self.mapped + self.virtual_packages) * 1000 <= self.total * 1000)
                    by (nonlinear_arith)
                    requires
                        0 <= self.mapped + self.virtual_packages <= self.total,
                ;
            }
            (((self.mapped + self.virtual_packages) as u128 * 1000 / self.total as u128) as u32)
        }
    }
}

/// How one dependency is counted: mapped, else virtual, else unmapped.
pub open spec fn count_of(
    deps: Seq<Dependency>,
    which: int,  // 0 total, 1 mapped, 2 virtual, 3 unmapped
) -> int
    decreases deps.len(),
{
    if deps.len() == 0 {
        0
    } else {
        count_of(deps.drop_last(), which) + (if which == 0 {
            1int
        } else if which == 1 {
            if deps.last().arch_name is Some {
                1int
            } else {
                0int
            }
        } else if which == 2 {
            if deps.last().arch_name is None && deps.last().is_virtual {
                1int
            } else {
                0int
            }
        } else {
            if deps.last().arch_name is None && !deps.last().is_virtual {
                1int
            } else {
                0int
            }
        })
    }
}

/// The summed per-mille confidence of the mapped entries.
pub open spec fn confidence_sum(deps: Seq<Dependency>) -> int
    decreases deps.len(),
{
    if deps.len() == 0 {
        0
    } else {
        confidence_sum(deps.drop_last()) + (if deps.last().arch_name is Some {
            deps.last().confidence as int
        } else {
            0int
        })
    }
}

/// The foreign names of the entries with no translation at all, in order.
pub open spec fn unmapped_names_of(deps: Seq<Dependency>) -> Seq<String> {
    deps.filter(|d: Dependency| d.arch_name is None && !d.is_virtual).map_values(
        |d: Dependency| d.debian_name,
    )
}

/// The unmapped names of the whole table, class by class, up to class `k`.
pub open spec fn table_unmapped_names(t: Seq<Vec<Dependency>>, k: int) -> Seq<String>
    decreases k when k >= 0
{
    if k <= 0 {
        Seq::empty()
    } else {
        table_unmapped_names(t, k - 1) + unmapped_names_of(t[k - 1]@)
    }
}

/// A class-by-class sum of [`count_of`] over the table, up to class `k`.
pub open spec fn table_count(t: Seq<Vec<Dependency>>, k: int, which: int) -> int
    decreases k when k >= 0
{
    if k <= 0 {
        0
    } else {
        table_count(t, k - 1, which) + count_of(t[k - 1]@, which)
    }
}

/// A class-by-class sum of [`confidence_sum`] over the table, up to class
/// `k`.
pub open spec fn table_confidence(t: Seq<Vec<Dependency>>, k: int) -> int
    decreases k when k >= 0
{
    if k <= 0 {
        0
    } else {
        table_confidence(t, k - 1) + confidence_sum(t[k - 1]@)
    }
}

/// Counts are nonnegative and bounded by the list length.
proof fn lemma_count_bounds(deps: Seq<Dependency>, which: int)
    ensures
        0 <= count_of(deps, which) <= deps.len(),
        count_of(deps, 0) == deps.len(),
        0 <= confidence_sum(deps),
    decreases deps.len(),
{
    if deps.len() > 0 {
        lemma_count_bounds(deps.drop_last(), which);
    }
}

/// A partial class sum never exceeds the full table sum.
proof fn lemma_table_count_mono(t: Seq<Vec<Dependency>>, c: int, k: int, which: int)
    requires
        0 <= c <= k,
    ensures
        table_count(t, c, which) <= table_count(t, k, which),
    decreases k - c,
{
    if c < k {
        lemma_table_count_mono(t, c, k - 1, which);
        lemma_count_bounds(t[k - 1]@, which);
    }
}

/// A prefix of one class counts no more than the whole class.
proof fn lemma_count_prefix(deps: Seq<Dependency>, j: int, which: int)
    requires
        0 <= j <= deps.len(),
    ensures
        count_of(deps.subrange(0, j), which) <= count_of(deps, which),
    decreases deps.len() - j,
{
    if j < deps.len() {
        lemma_count_prefix(deps, j + 1, which);
        let pre = deps.subrange(0, j);
        let pre1 = deps.subrange(0, j + 1);
        assert(pre1.drop_last() =~= pre);
        lemma_count_bounds(pre, which);
    } else {
        assert(deps.subrange(0, deps.len() as int) =~= deps);
    }
}

impl DependencyResolver {
    /// Aggregates resolution statistics over every dependency class: the
    /// totals, the mean confidence over mapped entries, and the unmapped
    /// names in class order. The dependency count must fit the counters.
    #[verifier::loop_isolation(false)]
    pub fn stats(&self, metadata: &PackageMetadata) -> (r: ResolutionStats)
        requires
            metadata.wf(),
            table_count(metadata.dependencies@, class_count(), 0) <= u32::MAX,
        ensures
            r.total == table_count(metadata.dependencies@, class_count(), 0),
            r.mapped == table_count(metadata.dependencies@, class_count(), 1),
            r.virtual_packages == table_count(metadata.dependencies@, class_count(), 2),
            r.unmapped == table_count(metadata.dependencies@, class_count(), 3),
            r.total_confidence == table_confidence(metadata.dependencies@, class_count()),
            r.unmapped_names@ == table_unmapped_names(metadata.dependencies@, class_count()),
            r.mapped > 0 ==> r.avg_confidence == r.total_confidence / (r.mapped as u64),
            r.mapped == 0 ==> r.avg_confidence == 0,
            r.mapped + r.virtual_packages <= r.total,
    {
        let mut total: u64 = 0;
        let mut mapped: u64 = 0;
        let mut virtual_packages: u64 = 0;
        let mut unmapped: u64 = 0;
        let mut total_confidence: u64 = 0;
        let mut unmapped_names: Vec<String> = Vec::new();
        let ghost t = metadata.dependencies@;
        let mut c: usize = 0;
        while c < 9
            invariant
                c <= 9,
                total == table_count(t, c as int, 0),
                mapped == table_count(t, c as int, 1),
                virtual_packages == table_count(t, c as int, 2),
                unmapped == table_count(t, c as int, 3),
                total_confidence == table_confidence(t, c as int),
                unmapped_names@ == table_unmapped_names(t, c as int),
                mapped + virtual_packages + unmapped == total,
                total_confidence <= mapped * 1000,
                total <= u32::MAX,
            decreases 9 - c,
        {
            let deps = &metadata.dependencies[c];
            let mut j: usize = 0;
            let ghost base_total = total as int;
            let ghost base_mapped = mapped as int;
            let ghost base_virtual = virtual_packages as int;
            let ghost base_unmapped = unmapped as int;
            let ghost base_conf = total_confidence as int;
            while j < deps.len()
                invariant
                    j <= deps@.len(),
                    deps@ == t[c as int]@,
                    c < 9,
                    total == base_total + count_of(deps@.subrange(0, j as int), 0),
                    mapped == base_mapped + count_of(deps@.subrange(0, j as int), 1),
                    virtual_packages == base_virtual + count_of(deps@.subrange(0, j as int), 2),
                    unmapped == base_unmapped + count_of(deps@.subrange(0, j as int), 3),
                    total_confidence == base_conf + confidence_sum(deps@.subrange(0, j as int)),
                    unmapped_names@ == table_unmapped_names(t, c as int) + unmapped_names_of(
                        deps@.subrange(0, j as int),
                    ),
                    mapped + virtual_packages + unmapped == total,
                    total_confidence <= mapped * 1000,
                    total <= u32::MAX,
                decreases deps@.len() - j,
            {
                let ghost pre = deps@.subrange(0, j as int);
                let ghost pre1 = deps@.subrange(0, j + 1 as int);
                proof {
                    assert(pre1.drop_last() =~= pre);
                    assert(metadata.dependencies@[c as int]@[j as int].wf());
                    // The new totals stay below the full-table total, which
                    // the caller bounds.
                    lemma_count_prefix(deps@, j + 1, 0);
                    lemma_count_prefix(deps@, j + 1, 1);
                    assert(table_count(t, c + 1 as int, 0) == table_count(t, c as int, 0)
                        + count_of(deps@, 0));
                    assert(table_count(t, c + 1 as int, 1) == table_count(t, c as int, 1)
                        + count_of(deps@, 1));
                    lemma_table_count_mono(t, c + 1 as int, 9, 0);
                    lemma_table_count_mono(t, c + 1 as int, 9, 1);
                    lemma_count_bounds(pre1, 0);
                    lemma_count_bounds(pre1, 1);
                    lemma_count_bounds(deps@, 1);
                    assert(base_total + count_of(pre1, 0) <= u32::MAX);
                    assert(base_mapped + count_of(pre1, 1) <= u32::MAX);
                    assert((mapped + 1) * 1000 == mapped * 1000 + 1000) by (nonlinear_arith);
                    assert(mapped * 1000 + 1000 <= (u32::MAX as int + 1) * 1000)
                        by (nonlinear_arith)
                        requires
                            0 <= mapped <= u32::MAX,
                    ;
                }
                let d = &deps[j];
                proof {
                    let fpred = |x: Dependency| x.arch_name is None && !x.is_virtual;
                    reveal_with_fuel(Seq::filter, 2);
                    assert(pre1.filter(fpred) == (if fpred(deps@[j as int]) {
                        pre.filter(fpred).push(deps@[j as int])
                    } else {
                        pre.filter(fpred)
                    }));
                }
                total = total + 1;
                if d.is_mapped() {
                    mapped = mapped + 1;
                    total_confidence = total_confidence + (d.confidence as u64);
                } else if d.is_virtual {
                    virtual_packages = virtual_packages + 1;
                } else {
                    unmapped = unmapped + 1;
                    unmapped_names.push(d.debian_name.clone());
                }
                proof {
                    assert(unmapped_names@ =~= table_unmapped_names(t, c as int)
                        + unmapped_names_of(pre1));
                }
                j += 1;
            }
            proof {
                assert(deps@.subrange(0, deps@.len() as int) =~= deps@);
                assert(unmapped_names@ =~= table_unmapped_names(t, c + 1 as int));
            }
            c += 1;
        }
        let avg_confidence: u32 = if mapped > 0 {
            proof {
                assert(total_confidence / mapped <= 1000) by (nonlinear_arith)
                    requires
                        mapped >= 1,
                        0 <= total_confidence <= mapped * 1000,
                ;
            }
            (total_confidence / mapped) as u32
        } else {
            0
        };
        ResolutionStats {
            total,
            mapped,
            unmapped,
            virtual_packages,
            avg_confidence,
            total_confidence,
            unmapped_names,
        }
    }
}

/// Whether a resolved name names a Java runtime variant.
pub open spec fn is_jre_name(n: Seq<char>) -> bool {
    spec_contains(n, "jre-openjdk"@) || spec_contains(n, "jre8-openjdk"@) || spec_contains(
        n,
        "jre11-openjdk"@,
    ) || spec_contains(n, "jre17-openjdk"@) || spec_contains(n, "jre21-openjdk"@) || spec_contains(
        n,
        "jre-openjdk-headless"@,
    ) || spec_contains(n, "jre8-openjdk-headless"@) || spec_contains(n, "jre11-openjdk-headless"@)
        || spec_contains(n, "jre17-openjdk-headless"@) || spec_contains(
        n,
        "jre21-openjdk-headless"@,
    )
}

/// Whether a resolved name names a Java development-kit variant.
pub open spec fn is_jdk_name(n: Seq<char>) -> bool {
    spec_contains(n, "jdk-openjdk"@) || spec_contains(n, "jdk8-openjdk"@) || spec_contains(
        n,
        "jdk11-openjdk"@,
    ) || spec_contains(n, "jdk17-openjdk"@) || spec_contains(n, "jdk21-openjdk"@)
}

/// Whether a dependency is resolved to the given Java family (`jdk` picks
/// the development family, otherwise the runtime family).
pub open spec fn dep_is_family(d: Dependency, jdk: bool) -> bool {
    d.arch_name matches Some(n) && (if jdk {
        is_jdk_name(n@)
    } else {
        is_jre_name(n@)
    })
}

/// Runtime test for [`dep_is_family`].
fn is_family_dep(d: &Dependency, jdk: bool) -> (r: bool)
    ensures
        r == dep_is_family(*d, jdk),
{
    match &d.arch_name {
        Some(n) => {
            let chars = str_chars(n.as_str());
            if jdk {
                contains_lit(&chars, "jdk-openjdk") || contains_lit(&chars, "jdk8-openjdk")
                    || contains_lit(&chars, "jdk11-openjdk") || contains_lit(
                    &chars,
                    "jdk17-openjdk",
                ) || contains_lit(&chars, "jdk21-openjdk")
            } else {
                contains_lit(&chars, "jre-openjdk") || contains_lit(&chars, "jre8-openjdk")
                    || contains_lit(&chars, "jre11-openjdk") || contains_lit(
                    &chars,
                    "jre17-openjdk",
                ) || contains_lit(&chars, "jre21-openjdk") || contains_lit(
                    &chars,
                    "jre-openjdk-headless",
                ) || contains_lit(&chars, "jre8-openjdk-headless") || contains_lit(
                    &chars,
                    "jre11-openjdk-headless",
                ) || contains_lit(&chars, "jre17-openjdk-headless") || contains_lit(
                    &chars,
                    "jre21-openjdk-headless",
                )
            }
        },
        None => false,
    }
}

/// Whether some dependency of the table belongs to the family.
pub open spec fn table_has_family(t: Seq<Vec<Dependency>>, jdk: bool) -> bool {
    exists|c: int, j: int|
        0 <= c < class_count() && 0 <= j < t[c]@.len() && dep_is_family(#[trigger] t[c]@[j], jdk)
}

/// Whether some dependency of the class shares its source name with a
/// family member of the same class; such entries are dropped together.
pub open spec fn name_tainted(c: Seq<Dependency>, name: Seq<char>, jdk: bool) -> bool {
    exists|k: int|
        0 <= k < c.len() && dep_is_family(#[trigger] c[k], jdk) && c[k].debian_name@ == name
}

/// One class with every entry dropped whose source name belongs to a family
/// member of the class.
pub open spec fn drop_family(c: Seq<Dependency>, jdk: bool) -> Seq<Dependency> {
    c.filter(|d: Dependency| !name_tainted(c, d.debian_name@, jdk))
}

/// The resolved names of the class's family members, in order.
pub open spec fn family_names(c: Seq<Dependency>, jdk: bool) -> Seq<Seq<char>> {
    c.filter(|d: Dependency| dep_is_family(d, jdk)).map_values(
        |d: Dependency| d.arch_name->Some_0@,
    )
}

/// The resolved family names of the whole table, class by class, up to
/// class `k`.
pub open spec fn table_family_names(t: Seq<Vec<Dependency>>, k: int, jdk: bool) -> Seq<Seq<char>>
    decreases k when k >= 0
{
    if k <= 0 {
        Seq::empty()
    } else {
        table_family_names(t, k - 1, jdk) + family_names(t[k - 1]@, jdk)
    }
}

/// The effective names of a class's entries, in order.
pub open spec fn eff_names(c: Seq<Dependency>) -> Seq<Seq<char>> {
    c.map_values(|d: Dependency| d.spec_effective_name())
}

/// The names of `names` not yet present: deduplicated against `existing` and
/// against the names already taken, keeping first occurrences in order.
pub open spec fn new_names(names: Seq<Seq<char>>, existing: Seq<Seq<char>>) -> Seq<Seq<char>>
    decreases names.len(),
{
    if names.len() == 0 {
        Seq::empty()
    } else {
        let prev = new_names(names.drop_last(), existing);
        if existing.contains(names.last()) || prev.contains(names.last()) {
            prev
        } else {
            prev.push(names.last())
        }
    }
}

/// Every element of a filtered sequence comes from the original.
proof fn lemma_filter_subset<A>(s: Seq<A>, pred: spec_fn(A) -> bool)
    ensures
        forall|i: int| 0 <= i < s.filter(pred).len() ==> s.contains(#[trigger] s.filter(pred)[i]),
    decreases s.len(),
{
    reveal_with_fuel(Seq::filter, 2);
    if s.len() > 0 {
        lemma_filter_subset(s.drop_last(), pred);
        assert forall|i: int| 0 <= i < s.filter(pred).len() implies s.contains(
            #[trigger] s.filter(pred)[i],
        ) by {
            let sub = s.drop_last().filter(pred);
            if i < sub.len() {
                assert(s.drop_last().contains(sub[i]));
                let k = choose|k: int| 0 <= k < s.drop_last().len() && s.drop_last()[k] == sub[i];
                assert(s[k] == sub[i]);
            } else {
                assert(s.filter(pred)[i] == s.last());
                assert(s[s.len() - 1] == s.last());
            }
        }
    }
}

/// After the drop, no family member remains in the class: dropping is
/// idempotent, so running the conflict pass again finds nothing to remove.
pub proof fn lemma_drop_family_clears(c: Seq<Dependency>, jdk: bool)
    ensures
        forall|j: int|
            0 <= j < drop_family(c, jdk).len() ==> !dep_is_family(
                #[trigger] drop_family(c, jdk)[j],
                jdk,
            ),
{
    broadcast use vstd::seq_lib::group_filter_ensures;

    let pred = |d: Dependency| !name_tainted(c, d.debian_name@, jdk);
    lemma_filter_subset(c, pred);
    assert forall|j: int| 0 <= j < drop_family(c, jdk).len() implies !dep_is_family(
        #[trigger] drop_family(c, jdk)[j],
        jdk,
    ) by {
        let d = drop_family(c, jdk)[j];
        if dep_is_family(d, jdk) {
            assert(c.contains(d));
            let k = choose|k: int| 0 <= k < c.len() && c[k] == d;
            assert(name_tainted(c, d.debian_name@, jdk));
            assert(pred(drop_family(c, jdk)[j]));
        }
    }
}

/// Every entry whose source name no family member of the class shares
/// survives the drop, so the kept family is retained in full wherever its
/// entries share no source name with a dropped one.
pub proof fn lemma_drop_family_keeps(c: Seq<Dependency>, jdk: bool)
    ensures
        forall|i: int|
            0 <= i < c.len() && !name_tainted(c, c[i].debian_name@, jdk) ==> drop_family(
                c,
                jdk,
            ).contains(#[trigger] c[i]),
{
    broadcast use vstd::seq_lib::group_filter_ensures;

    let pred = |d: Dependency| !name_tainted(c, d.debian_name@, jdk);
    assert forall|i: int|
        0 <= i < c.len() && !name_tainted(c, c[i].debian_name@, jdk) implies drop_family(
        c,
        jdk,
    ).contains(c[i]) by {
        assert(pred(c[i]));
        assert(c.filter(pred).contains(c[i]));
    }
}

/// The inserted conflict names are pairwise distinct and none of them was
/// already declared: each dropped variant is declared exactly once, however
/// often it occurred.
pub proof fn lemma_new_names_distinct(names: Seq<Seq<char>>, existing: Seq<Seq<char>>)
    ensures
        forall|i: int, j: int|
            0 <= i < j < new_names(names, existing).len() ==> new_names(names, existing)[i]
                != new_names(names, existing)[j],
        forall|i: int|
            0 <= i < new_names(names, existing).len() ==> !existing.contains(
                #[trigger] new_names(names, existing)[i],
            ),
    decreases names.len(),
{
    if names.len() > 0 {
        lemma_new_names_distinct(names.drop_last(), existing);
        let prev = new_names(names.drop_last(), existing);
        let out = new_names(names, existing);
        if !(existing.contains(names.last()) || prev.contains(names.last())) {
            assert forall|i: int, j: int| 0 <= i < j < out.len() implies out[i] != out[j] by {
                if j < out.len() - 1 {
                    assert(out[i] == prev[i] && out[j] == prev[j]);
                } else {
                    assert(out[j] == names.last());
                    assert(out[i] == prev[i]);
                    if out[i] == names.last() {
                        assert(prev.contains(names.last()));
                    }
                }
            }
        }
    }
}

/// Whether any entry of the table belongs to the family.
#[verifier::loop_isolation(false)]
fn table_has(metadata: &PackageMetadata, jdk: bool) -> (r: bool)
    requires
        metadata.wf(),
    ensures
        r == table_has_family(metadata.dependencies@, jdk),
{
    let ghost t = metadata.dependencies@;
    let mut c: usize = 0;
    while c < 9
        invariant
            c <= 9,
            forall|i: int, j: int|
                0 <= i < c && 0 <= j < t[i]@.len() ==> !dep_is_family(#[trigger] t[i]@[j], jdk),
        decreases 9 - c,
    {
        let deps = &metadata.dependencies[c];
        let mut j: usize = 0;
        while j < deps.len()
            invariant
                j <= deps@.len(),
                deps@ == t[c as int]@,
                c < 9,
                forall|k: int| 0 <= k < j ==> !dep_is_family(#[trigger] deps@[k], jdk),
            decreases deps@.len() - j,
        {
            if is_family_dep(&deps[j], jdk) {
                return true;
            }
            j += 1;
        }
        c += 1;
    }
    false
}

/// Whether a family member of the class carries this source name.
#[verifier::loop_isolation(false)]
fn name_tainted_exec(class: &Vec<Dependency>, name: &str, jdk: bool) -> (r: bool)
    ensures
        r == name_tainted(class@, name@, jdk),
{
    let mut k: usize = 0;
    while k < class.len()
        invariant
            k <= class@.len(),
            forall|i: int|
                0 <= i < k ==> !(dep_is_family(#[trigger] class@[i], jdk)
                    && class@[i].debian_name@ == name@),
        decreases class@.len() - k,
    {
        if is_family_dep(&class[k], jdk) && str_eq_res(class[k].debian_name.as_str(), name) {
            return true;
        }
        k += 1;
    }
    false
}

/// Drops every entry whose source name belongs to a family member of the
/// class.
#[verifier::loop_isolation(false)]
fn drop_family_class(class: Vec<Dependency>, jdk: bool) -> (r: Vec<Dependency>)
    ensures
        r@ == drop_family(class@, jdk),
        (forall|i: int| 0 <= i < class@.len() ==> (#[trigger] class@[i]).wf()) ==> (forall|j: int|
            0 <= j < r@.len() ==> (#[trigger] r@[j]).wf()),
{
    let ghost orig = class@;
    let ghost pred = |d: Dependency| !name_tainted(orig, d.debian_name@, jdk);
    // First pass: which entries stay.
    let mut flags: Vec<bool> = Vec::new();
    let mut i: usize = 0;
    while i < class.len()
        invariant
            i <= orig.len(),
            class@ == orig,
            flags@.len() == i,
            forall|k: int| 0 <= k < i ==> flags@[k] == pred(orig[k]),
        decreases orig.len() - i,
    {
        let tainted = name_tainted_exec(&class, class[i].debian_name.as_str(), jdk);
        flags.push(!tainted);
        i += 1;
    }
    // Second pass: keep the flagged entries.
    let mut rest = class;
    let mut out: Vec<Dependency> = Vec::new();
    let mut taken: usize = 0;
    let n0 = rest.len();
    proof {
        assert(orig.subrange(0, 0) =~= Seq::<Dependency>::empty());
        assert(Seq::<Dependency>::empty().filter(pred) =~= Seq::<Dependency>::empty());
        assert(rest@ =~= orig.subrange(0, orig.len() as int));
    }
    while rest.len() > 0
        invariant
            taken <= orig.len(),
            rest@ =~= orig.subrange(taken as int, orig.len() as int),
            out@ =~= orig.subrange(0, taken as int).filter(pred),
            flags@.len() == orig.len(),
            forall|k: int| 0 <= k < orig.len() ==> flags@[k] == pred(orig[k]),
        decreases rest@.len(),
    {
        let ghost pre = orig.subrange(0, taken as int);
        let ghost pre1 = orig.subrange(0, taken as int + 1);
        proof {
            assert(pre1.drop_last() =~= pre);
            assert(pre1.last() == orig[taken as int]);
            reveal_with_fuel(Seq::filter, 2);
        }
        let d = rest.remove(0);
        proof {
            assert(d == orig[taken as int]);
        }
        if flags[taken] {
            out.push(d);
        }
        proof {
            assert(out@ =~= pre1.filter(pred));
        }
        taken += 1;
    }
    proof {
        assert(orig.subrange(0, orig.len() as int) =~= orig);
        assert(out@ =~= drop_family(orig, jdk));
        lemma_filter_subset(orig, pred);
        assert forall|j: int|
            (forall|i: int| 0 <= i < orig.len() ==> (#[trigger] orig[i]).wf()) && 0 <= j
                < out@.len() implies (#[trigger] out@[j]).wf() by {
            assert(orig.contains(out@[j]));
        }
    }
    out
}

/// The resolved family names of the whole table, in class order.
#[verifier::loop_isolation(false)]
fn collect_family_names(metadata: &PackageMetadata, jdk: bool) -> (r: Vec<String>)
    requires
        metadata.wf(),
    ensures
        r@.len() == table_family_names(metadata.dependencies@, class_count(), jdk).len(),
        forall|i: int|
            0 <= i < r@.len() ==> #[trigger] r@[i]@ == table_family_names(
                metadata.dependencies@,
                class_count(),
                jdk,
            )[i],
{
    let ghost t = metadata.dependencies@;
    let ghost fam = |d: Dependency| dep_is_family(d, jdk);
    let mut out: Vec<String> = Vec::new();
    let mut c: usize = 0;
    while c < 9
        invariant
            c <= 9,
            out@.len() == table_family_names(t, c as int, jdk).len(),
            forall|i: int|
                0 <= i < out@.len() ==> #[trigger] out@[i]@ == table_family_names(
                    t,
                    c as int,
                    jdk,
                )[i],
        decreases 9 - c,
    {
        let deps = &metadata.dependencies[c];
        let mut j: usize = 0;
        let ghost base = table_family_names(t, c as int, jdk);
        proof {
            assert(deps@.subrange(0, 0) =~= Seq::<Dependency>::empty());
            assert(Seq::<Dependency>::empty().filter(fam) =~= Seq::<Dependency>::empty());
        }
        while j < deps.len()
            invariant
                j <= deps@.len(),
                deps@ == t[c as int]@,
                c < 9,
                out@.len() == base.len() + family_names(deps@.subrange(0, j as int), jdk).len(),
                forall|i: int|
                    0 <= i < base.len() ==> #[trigger] out@[i]@ == base[i],
                forall|i: int|
                    0 <= i < family_names(deps@.subrange(0, j as int), jdk).len()
                        ==> (#[trigger] out@[base.len() + i])@ == family_names(
                        deps@.subrange(0, j as int),
                        jdk,
                    )[i],
            decreases deps@.len() - j,
        {
            let ghost pre = deps@.subrange(0, j as int);
            let ghost pre1 = deps@.subrange(0, j + 1 as int);
            proof {
                assert(pre1.drop_last() =~= pre);
                reveal_with_fuel(Seq::filter, 2);
                assert(pre1.filter(fam) == (if fam(deps@[j as int]) {
                    pre.filter(fam).push(deps@[j as int])
                } else {
                    pre.filter(fam)
                }));
            }
            if is_family_dep(&deps[j], jdk) {
                let name = match &deps[j].arch_name {
                    Some(n) => n.clone(),
                    None => String::new(),
                };
                out.push(name);
            }
            j += 1;
        }
        proof {
            assert(deps@.subrange(0, deps@.len() as int) =~= deps@);
            assert(table_family_names(t, c + 1 as int, jdk) == base + family_names(
                t[c as int]@,
                jdk,
            ));
            assert forall|i: int| 0 <= i < out@.len() implies #[trigger] out@[i]@
                == table_family_names(t, c + 1 as int, jdk)[i] by {
                if i >= base.len() {
                    assert((out@[base.len() + (i - base.len())])@ == family_names(
                        t[c as int]@,
                        jdk,
                    )[i - base.len()]);
                }
            }
        }
        c += 1;
    }
    out
}

/// Whether the strategy keeps the runtime family (dropping the development
/// family); every other strategy, the default included, keeps the
/// development family and drops the runtime one.
pub open spec fn strategy_drops_jdk(strategy: Seq<char>) -> bool {
    strategy == "prefer-jre"@ || strategy == "jre"@
}

/// How the dependency table looks after the conflict pass: every class
/// filtered of the dropped family, and the dropped variants' names appended
/// to the conflicts class, each exactly once.
pub open spec fn java_pass_applied(
    t0: Seq<Vec<Dependency>>,
    t1: Seq<Vec<Dependency>>,
    jdk: bool,
) -> bool {
    let base = drop_family(t0[4]@, jdk);
    let added = new_names(table_family_names(t0, class_count(), jdk), eff_names(base));
    &&& t1.len() == class_count()
    &&& forall|i: int|
        0 <= i < class_count() && i != 4 ==> (#[trigger] t1[i])@ == drop_family(t0[i]@, jdk)
    &&& t1[4]@.len() == base.len() + added.len()
    &&& t1[4]@.subrange(0, base.len() as int) == base
    &&& forall|j: int|
        0 <= j < added.len() ==> {
            let d = #[trigger] t1[4]@[base.len() + j];
            &&& d.debian_name@ == added[j]
            &&& d.arch_name is None
            &&& d.version_op is None
            &&& d.version is None
            &&& d.alternatives@.len() == 0
            &&& !d.is_virtual
            &&& d.confidence == 0
        }
}

/// Whether an entry of the class has this effective name.
#[verifier::loop_isolation(false)]
fn class_declares(class: &Vec<Dependency>, name: &str) -> (r: bool)
    ensures
        r == eff_names(class@).contains(name@),
{
    let mut i: usize = 0;
    while i < class.len()
        invariant
            i <= class@.len(),
            forall|j: int| 0 <= j < i ==> #[trigger] class@[j].spec_effective_name() != name@,
        decreases class@.len() - i,
    {
        if str_eq_res(class[i].effective_name(), name) {
            proof {
                assert(eff_names(class@)[i as int] == name@);
            }
            return true;
        }
        i += 1;
    }
    proof {
        assert forall|j: int| 0 <= j < eff_names(class@).len() implies #[trigger] eff_names(
            class@,
        )[j] != name@ by {
            assert(class@[j].spec_effective_name() != name@);
        }
    }
    false
}

impl DependencyResolver {
    /// Applies the Java variant-conflict policy: when both a runtime and a
    /// development dependency are present, the configured strategy drops one
    /// family from every class (entries sharing a dropped entry's source
    /// name go with it), and each dropped variant's resolved name is
    /// declared in the conflicts class exactly once. With conflict handling
    /// switched off, or without both families present, nothing changes.
    ///
    /// Together with [`lemma_drop_family_clears`] and
    /// [`lemma_new_names_distinct`] this makes the pass idempotent: after
    /// one pass no dependency of the dropped family remains (the appended
    /// conflict entries carry no resolved name), so a second pass finds at
    /// most one family and changes nothing.
    #[verifier::loop_isolation(false)]
    #[verifier::rlimit(100)]
    pub fn handle_java_conflicts(
        &self,
        metadata: &mut PackageMetadata,
        java: &JavaConfig,
    ) -> (r: crate::error::Result<()>)
        requires
            self.wf(),
            old(metadata).wf(),
        ensures
            r is Ok,
            final(metadata).wf(),
            eq_except_dependencies(*final(metadata), *old(metadata)),
            (!java.add_java_conflicts || !(table_has_family(old(metadata).dependencies@, false)
                && table_has_family(old(metadata).dependencies@, true)))
                ==> final(metadata).dependencies == old(metadata).dependencies,
            (java.add_java_conflicts && table_has_family(old(metadata).dependencies@, false)
                && table_has_family(old(metadata).dependencies@, true)) ==> java_pass_applied(
                old(metadata).dependencies@,
                final(metadata).dependencies@,
                strategy_drops_jdk(java.conflict_strategy@),
            ),
    {
        if !java.add_java_conflicts {
            return Ok(());
        }
        let has_jre = table_has(metadata, false);
        let has_jdk = table_has(metadata, true);
        if !(has_jre && has_jdk) {
            return Ok(());
        }
        let strat = str_chars(java.conflict_strategy.as_str());
        let jdkdrop = chars_eq_str(&strat, "prefer-jre") || chars_eq_str(&strat, "jre");
        let ghost t0 = metadata.dependencies@;
        // The dropped variants' names, collected before anything moves.
        let names = collect_family_names(metadata, jdkdrop);
        let ghost names_spec = table_family_names(t0, class_count(), jdkdrop);
        // Drop the family from every class.
        let mut c: usize = 0;
        while c < 9
            invariant
                c <= 9,
                metadata.dependencies@.len() == 9,
                forall|i: int|
                    0 <= i < c ==> (#[trigger] metadata.dependencies@[i])@ == drop_family(
                        t0[i]@,
                        jdkdrop,
                    ),
                forall|i: int|
                    c <= i < 9 ==> #[trigger] metadata.dependencies@[i] == t0[i],
                eq_except_dependencies(*metadata, *old(metadata)),
                forall|i: int, j: int|
                    0 <= i < 9 && 0 <= j < metadata.dependencies@[i]@.len()
                        ==> (#[trigger] metadata.dependencies@[i]@[j]).wf(),
            decreases 9 - c,
        {
            let ghost before = metadata.dependencies@;
            let class = metadata.dependencies.remove(c);
            let kept = drop_family_class(class, jdkdrop);
            metadata.dependencies.insert(c, kept);
            proof {
                assert(metadata.dependencies@ =~= before.update(c as int, kept));
            }
            c += 1;
        }
        proof {
            assert(metadata.wf());
        }
        // Declare each dropped variant once.
        let ghost base = drop_family(t0[4]@, jdkdrop);
        let ghost ex0 = eff_names(base);
        let mut k: usize = 0;
        proof {
            assert(names_spec.subrange(0, 0) =~= Seq::<Seq<char>>::empty());
        }
        while k < names.len()
            invariant
                k <= names@.len(),
                names@.len() == names_spec.len(),
                forall|i: int| 0 <= i < names@.len() ==> #[trigger] names@[i]@ == names_spec[i],
                metadata.wf(),
                metadata.dependencies@.len() == 9,
                forall|i: int|
                    0 <= i < 9 && i != 4 ==> (#[trigger] metadata.dependencies@[i])@
                        == drop_family(t0[i]@, jdkdrop),
                metadata.dependencies@[4]@.len() == base.len() + new_names(
                    names_spec.subrange(0, k as int),
                    ex0,
                ).len(),
                metadata.dependencies@[4]@.subrange(0, base.len() as int) == base,
                forall|j: int|
                    0 <= j < new_names(names_spec.subrange(0, k as int), ex0).len() ==> {
                        let d = #[trigger] metadata.dependencies@[4]@[base.len() + j];
                        &&& d.debian_name@ == new_names(names_spec.subrange(0, k as int), ex0)[j]
                        &&& d.arch_name is None
                        &&& d.version_op is None
                        &&& d.version is None
                        &&& d.alternatives@.len() == 0
                        &&& !d.is_virtual
                        &&& d.confidence == 0
                    },
                eq_except_dependencies(*metadata, *old(metadata)),
            decreases names@.len() - k,
        {
            let ghost pre = names_spec.subrange(0, k as int);
            let ghost pre1 = names_spec.subrange(0, k + 1 as int);
            let ghost prev = new_names(pre, ex0);
            proof {
                assert(pre1.drop_last() =~= pre);
                assert(pre1.last() == names_spec[k as int]);
            }
            let conflicts_idx = DependencyType::Conflicts;
            let present = class_declares(metadata.get_deps(conflicts_idx), names[k].as_str());
            proof {
                let conf = metadata.dependencies@[4]@;
                let nm = names_spec[k as int];
                assert(eff_names(conf) =~= ex0 + prev) by {
                    assert forall|i: int| 0 <= i < conf.len() implies #[trigger] eff_names(
                        conf,
                    )[i] == (ex0 + prev)[i] by {
                        if i < base.len() {
                            assert(conf[i] == base[i]);
                        } else {
                            let j = i - base.len();
                            assert((#[trigger] metadata.dependencies@[4]@[base.len() + j]).arch_name
                                is None);
                            assert(metadata.dependencies@[4]@[base.len() + j].debian_name@
                                == prev[j]);
                            assert(conf[i].spec_effective_name() == conf[i].debian_name@);
                        }
                    }
                }
                assert(eff_names(conf).contains(nm) <==> (ex0.contains(nm) || prev.contains(nm)))
                    by {
                    if eff_names(conf).contains(nm) {
                        let i = choose|i: int|
                            0 <= i < eff_names(conf).len() && eff_names(conf)[i] == nm;
                        if i < ex0.len() {
                            assert(ex0[i] == nm);
                        } else {
                            assert(prev[i - ex0.len()] == nm);
                        }
                    }
                    if ex0.contains(nm) {
                        let i = choose|i: int| 0 <= i < ex0.len() && ex0[i] == nm;
                        assert(eff_names(conf)[i] == nm);
                    }
                    if prev.contains(nm) {
                        let i = choose|i: int| 0 <= i < prev.len() && prev[i] == nm;
                        assert(eff_names(conf)[ex0.len() + i] == nm);
                    }
                }
            }
            if !present {
                let d = Dependency::new(names[k].as_str());
                metadata.add_dep(conflicts_idx, d);
                proof {
                    assert(new_names(pre1, ex0) == prev.push(names_spec[k as int]));
                    assert(metadata.dependencies@[4]@.subrange(0, base.len() as int) =~= base);
                }
            } else {
                proof {
                    assert(new_names(pre1, ex0) == prev);
                }
            }
            k += 1;
        }
        proof {
            assert(names_spec.subrange(0, names_spec.len() as int) =~= names_spec);
        }
        Ok(())
    }
}

} // verus!
