//! The remote repository model: package records, request planning, and the
//! client-side provider filter.
//!
//! The network transport lives outside the library; these functions decide
//! what to ask and what to keep of an answer.

use vstd::prelude::*;

use crate::error::RexebError;
use crate::strutil::{chars_to_string, push_lit, str_chars};

verus! {

/// One package record of the remote repository.
#[derive(Debug)]
pub struct AurPackage {
    /// Package name.
    pub name: String,
    /// Package version.
    pub version: String,
    /// One-line description.
    pub description: Option<String>,
    /// Homepage URL.
    pub url: Option<String>,
    /// The base package it is built from.
    pub package_base: String,
    /// Vote count.
    pub num_votes: u32,
    /// Popularity metric, scaled to thousandths.
    pub popularity_milli: u64,
    /// When the package was flagged out of date, as seconds since the epoch.
    pub out_of_date: Option<i64>,
    /// Current maintainer.
    pub maintainer: Option<String>,
    /// First submission time, as seconds since the epoch.
    pub first_submitted: i64,
    /// Last modification time, as seconds since the epoch.
    pub last_modified: i64,
    /// Capabilities the package provides.
    pub provides: Option<Vec<String>>,
    /// Packages it replaces.
    pub replaces: Option<Vec<String>>,
    /// Packages it conflicts with.
    pub conflicts: Option<Vec<String>>,
}

/// The URL of a keyword search: the base, `/search/`, and the query.
pub fn search_url(base: &str, query: &str) -> (r: String)
    ensures
        r@ == base@ + "/search/"@ + query@,
{
    let mut out = str_chars(base);
    push_lit(&mut out, "/search/");
    push_lit(&mut out, query);
    proof {
        assert(out@ =~= base@ + "/search/"@ + query@);
    }
    chars_to_string(&out)
}

/// The query-string arguments of a batch info request: one `arg[]=` per
/// name, joined by `&`.
pub open spec fn spec_info_args(names: Seq<String>) -> Seq<char>
    decreases names.len(),
{
    if names.len() == 0 {
        Seq::empty()
    } else if names.len() == 1 {
        "arg[]="@ + names.last()@
    } else {
        spec_info_args(names.drop_last()) + "&"@ + "arg[]="@ + names.last()@
    }
}

/// The URL of a batch info request, or `None` when there is nothing to ask:
/// an empty name list needs no network call at all.
pub open spec fn spec_info_url(base: Seq<char>, names: Seq<String>) -> Option<Seq<char>> {
    if names.len() == 0 {
        None
    } else {
        Some(base + "/info?"@ + spec_info_args(names))
    }
}

/// Plans a batch info request: `None` exactly on an empty name list, where
/// the result is an empty answer with no network call.
#[verifier::loop_isolation(false)]
pub fn info_url(base: &str, names: &Vec<String>) -> (r: Option<String>)
    ensures
        names@.len() == 0 <==> r is None,
        r matches Some(u) ==> spec_info_url(base@, names@) matches Some(su) && su == u@,
{
    if names.len() == 0 {
        return None;
    }
    let mut out = str_chars(base);
    push_lit(&mut out, "/info?");
    let mut i: usize = 0;
    while i < names.len()
        invariant
            i <= names@.len(),
            i > 0 ==> out@ == base@ + "/info?"@ + spec_info_args(names@.subrange(0, i as int)),
            i == 0 ==> out@ == base@ + "/info?"@,
        decreases names@.len() - i,
    {
        let ghost pre = names@.subrange(0, i as int);
        let ghost pre1 = names@.subrange(0, i + 1 as int);
        proof {
            assert(pre1.drop_last() =~= pre);
        }
        if i > 0 {
            push_lit(&mut out, "&");
        }
        push_lit(&mut out, "arg[]=");
        push_lit(&mut out, names[i].as_str());
        proof {
            assert(out@ =~= base@ + "/info?"@ + spec_info_args(pre1));
        }
        i += 1;
    }
    proof {
        assert(names@.subrange(0, names@.len() as int) =~= names@);
    }
    Some(chars_to_string(&out))
}

/// Whether a package answers a capability: its name equals it, or its
/// declared provides list names it.
pub open spec fn spec_provides_capability(p: AurPackage, capability: Seq<char>) -> bool {
    p.name@ == capability || (p.provides matches Some(ps) && (exists|i: int|
        0 <= i < ps@.len() && #[trigger] ps@[i]@ == capability))
}

/// Runtime form of [`spec_provides_capability`].
fn provides_capability(p: &AurPackage, capability: &str) -> (r: bool)
    ensures
        r == spec_provides_capability(*p, capability@),
{
    if str_eq_aur(p.name.as_str(), capability) {
        return true;
    }
    if p.provides.is_none() {
        return false;
    }
    let ps = p.provides.as_ref().unwrap();
    let ghost psv = p.provides->Some_0;
    let mut i: usize = 0;
    while i < ps.len()
        invariant
            p.provides matches Some(pss) && pss == psv,
            ps@ == psv@,
            i <= ps@.len(),
            forall|j: int| 0 <= j < i ==> #[trigger] psv@[j]@ != capability@,
        decreases ps@.len() - i,
    {
        if str_eq_aur(ps[i].as_str(), capability) {
            proof {
                assert(psv@[i as int]@ == capability@);
                assert(spec_provides_capability(*p, capability@));
            }
            return true;
        }
        i += 1;
    }
    false
}

/// Relies on `str`'s `PartialEq`: equality of the two texts.
#[verifier::external_body]
fn str_eq_aur(a: &str, b: &str) -> (r: bool)
    ensures
        r == (a@ == b@),
{
    a == b
}

/// Keeps the search results that answer `capability` and orders them by
/// falling popularity. The result holds exactly the answering entries of the
/// input (as a multiset: nothing fabricated, nothing duplicated), and
/// popularity never rises along it.
#[verifier::loop_isolation(false)]
pub fn filter_providers(results: Vec<AurPackage>, capability: &str) -> (r: Vec<AurPackage>)
    ensures
        r@.to_multiset() == results@.filter(
            |p: AurPackage| spec_provides_capability(p, capability@),
        ).to_multiset(),
        r@.len() == results@.filter(
            |p: AurPackage| spec_provides_capability(p, capability@),
        ).len(),
        forall|i: int|
            0 <= i < r@.len() ==> spec_provides_capability(#[trigger] r@[i], capability@),
        forall|i: int, j: int|
            0 <= i < j < r@.len() ==> #[trigger] r@[i].popularity_milli
                >= (#[trigger] r@[j]).popularity_milli,
{
    broadcast use vstd::seq_lib::group_to_multiset_ensures;

    let ghost pred = |p: AurPackage| spec_provides_capability(p, capability@);
    let ghost orig = results@;
    let mut results = results;
    let mut kept: Vec<AurPackage> = Vec::new();
    let mut taken: usize = 0;
    let n0 = results.len();
    proof {
        assert(orig.len() == n0);
        assert(orig.subrange(0, 0) =~= Seq::<AurPackage>::empty());
        assert(Seq::<AurPackage>::empty().filter(pred) =~= Seq::<AurPackage>::empty());
        assert(results@ =~= orig.subrange(0, orig.len() as int));
    }
    while results.len() > 0
        invariant
            taken <= orig.len(),
            results@ =~= orig.subrange(taken as int, orig.len() as int),
            kept@ =~= orig.subrange(0, taken as int).filter(pred),
        decreases results@.len(),
    {
        let ghost pre = orig.subrange(0, taken as int);
        let ghost pre1 = orig.subrange(0, taken as int + 1);
        proof {
            assert(pre1.drop_last() =~= pre);
            assert(pre1.last() == orig[taken as int]);
            reveal_with_fuel(Seq::filter, 2);
        }
        let p = results.remove(0);
        proof {
            assert(p == orig[taken as int]);
        }
        if provides_capability(&p, capability) {
            kept.push(p);
        }
        proof {
            assert(kept@ =~= pre1.filter(pred));
        }
        taken += 1;
    }
    proof {
        assert(orig.subrange(0, orig.len() as int) =~= orig);
        assert(kept@ =~= orig.filter(pred));
    }
    // Order by falling popularity: repeatedly move the most popular entry.
    let mut out: Vec<AurPackage> = Vec::new();
    let ghost kept_len = kept@.len();
    let ghost kept_ms = kept@.to_multiset();
    proof {
        assert(out@.to_multiset().add(kept@.to_multiset()) =~= kept_ms);
    }
    while kept.len() > 0
        invariant
            out@.len() + kept@.len() == kept_len,
            out@.to_multiset().add(kept@.to_multiset()) == kept_ms,
            forall|i: int| 0 <= i < out@.len() ==> pred(#[trigger] out@[i]),
            forall|i: int| 0 <= i < kept@.len() ==> pred(#[trigger] kept@[i]),
            forall|i: int, j: int|
                0 <= i < j < out@.len() ==> #[trigger] out@[i].popularity_milli
                    >= (#[trigger] out@[j]).popularity_milli,
            forall|i: int, j: int|
                0 <= i < out@.len() && 0 <= j < kept@.len() ==> (#[trigger] out@[
                    i
                ]).popularity_milli >= (#[trigger] kept@[j]).popularity_milli,
        decreases kept@.len(),
    {
        let mut best: usize = 0;
        let mut m: usize = 1;
        while m < kept.len()
            invariant
                best < kept@.len(),
                m <= kept@.len(),
                forall|j: int|
                    0 <= j < m ==> kept@[best as int].popularity_milli >= (#[trigger] kept@[
                        j
                    ]).popularity_milli,
            decreases kept@.len() - m,
        {
            if kept[m].popularity_milli > kept[best].popularity_milli {
                best = m;
            }
            m += 1;
        }
        let ghost kept_old = kept@;
        let ghost out_old = out@;
        let chosen = kept.remove(best);
        out.push(chosen);
        proof {
            assert(forall|j: int|
                0 <= j < kept@.len() ==> #[trigger] kept@[j] == (if j < best as int {
                    kept_old[j]
                } else {
                    kept_old[j + 1]
                }));
            assert(kept@ =~= kept_old.remove(best as int));
            assert(kept@.to_multiset() =~= kept_old.to_multiset().remove(chosen));
            assert(out@.to_multiset() =~= out_old.to_multiset().insert(chosen));
            assert(kept_old.to_multiset().count(chosen) >= 1) by {
                assert(kept_old[best as int] == chosen);
                assert(kept_old.contains(chosen));
            }
            assert(out@.to_multiset().add(kept@.to_multiset()) =~= kept_ms);
        }
    }
    proof {
        assert(kept@.to_multiset().len() == 0);
        assert(out@.to_multiset().add(kept@.to_multiset()) =~= out@.to_multiset());
    }
    out
}

/// Classifies a remote answer into the two error kinds the service can
/// produce: a non-success HTTP status is a transport-level failure, a
/// service-reported error field is a structured service error, and anything
/// else is a good answer.
pub fn classify_response(status: u16, service_error: Option<String>) -> (r: crate::error::Result<
    (),
>)
    ensures
        !(200 <= status < 300) ==> (r matches Err(e) && (e matches RexebError::Network(m) && m@
            == "AUR API error: "@ + crate::fmtnum::spec_dec(status as nat))),
        200 <= status < 300 ==> (match service_error {
            Some(msg) => r matches Err(e) && (e matches RexebError::AurApi(m) && m == msg),
            None => r is Ok,
        }),
{
    if !(200 <= status && status < 300) {
        let mut msg = str_chars("AUR API error: ");
        let mut digits = crate::fmtnum::dec_chars(status as u64);
        msg.append(&mut digits);
        proof {
            assert(msg@ =~= "AUR API error: "@ + crate::fmtnum::spec_dec(status as nat));
        }
        return Err(RexebError::Network(chars_to_string(&msg)));
    }
    match service_error {
        Some(msg) => Err(RexebError::AurApi(msg)),
        None => Ok(()),
    }
}

} // verus!
