use vstd::prelude::*;
use vstd::string::{StrSliceExecFns, StringExecFns};
use crate::render::{braced_strs, render_braced};
use crate::sortstr::{
    lemma_sort_strs_multiset, lemma_sort_strs_sorted, sort_strings, sort_strs,
    strs_strictly_sorted,
};
use crate::strcmp::{str_le, str_lt};
use crate::strcmp::{strings_contain, strs_view};
use crate::types::{ErrorKind, Module, RejectionDetail, outcome_matches};

verus! {

/// The naming convention: an export whose name starts with this prefix is
/// not a callable entry point but declares that the module requires the
/// optional host capability named by the rest of the export's name.
pub open spec fn feature_prefix() -> Seq<char> {
    "requires_"@
}

/// Whether an export name declares a feature requirement: the prefix
/// followed by at least one more character.
pub open spec fn is_feature_export(name: Seq<char>) -> bool {
    name.len() > feature_prefix().len() && name.take(feature_prefix().len() as int)
        == feature_prefix()
}

/// The feature identifier an export name declares: everything after the
/// prefix, case-sensitively.
pub open spec fn feature_of(name: Seq<char>) -> Seq<char> {
    name.skip(feature_prefix().len() as int)
}

/// The feature identifiers declared by the exports, in order of first
/// occurrence, each once.
pub open spec fn collect_features(exports: Seq<Seq<char>>) -> Seq<Seq<char>>
    decreases exports.len(),
{
    if exports.len() == 0 {
        Seq::empty()
    } else {
        let rest = collect_features(exports.drop_last());
        let e = exports.last();
        if is_feature_export(e) && !rest.contains(feature_of(e)) {
            rest.push(feature_of(e))
        } else {
            rest
        }
    }
}

/// The set of features the module's exports declare as required.
pub open spec fn required_feature_set(exports: Seq<Seq<char>>) -> Set<Seq<char>> {
    Set::new(|f: Seq<char>| f.len() > 0 && exports.contains(feature_prefix() + f))
}

/// The required features, in order, that the enabled set does not hold.
pub open spec fn missing_features(
    required: Seq<Seq<char>>,
    enabled: Seq<Seq<char>>,
) -> Seq<Seq<char>>
    decreases required.len(),
{
    if required.len() == 0 {
        Seq::empty()
    } else {
        let rest = missing_features(required.drop_last(), enabled);
        if !enabled.contains(required.last()) {
            rest.push(required.last())
        } else {
            rest
        }
    }
}

/// Diagnostic for unenabled required features: the set difference, sorted
/// for reproducibility, rendered as a braced set.
pub open spec fn features_error_msg(diff: Seq<Seq<char>>) -> Seq<char> {
    "Wasm contract requires unsupported features: "@ + braced_strs(sort_strs(diff))
}

/// Feature validation: accepted exactly when every feature the exports
/// declare as required is enabled.
pub open spec fn spec_check_features(
    exports: Seq<Seq<char>>,
    enabled: Seq<Seq<char>>,
) -> Option<(ErrorKind, Seq<char>)> {
    let diff = missing_features(collect_features(exports), enabled);
    if diff.len() == 0 {
        None
    } else {
        Some((ErrorKind::UnsupportedFeatures, features_error_msg(diff)))
    }
}

/// The feature identifier `name` declares, when it declares one.
fn feature_suffix(name: &str) -> (r: Option<String>)
    ensures
        r is Some <==> is_feature_export(name@),
        r matches Some(s) ==> s@ == feature_of(name@),
{
    let prefix = "requires_";
    let lp = prefix.unicode_len();
    let ln = name.unicode_len();
    if ln <= lp {
        proof {
            assert(!is_feature_export(name@));
        }
        return None;
    }
    let mut i: usize = 0;
    while i < lp
        invariant
            i <= lp,
            prefix@ == feature_prefix(),
            lp == feature_prefix().len(),
            ln == name@.len(),
            ln > lp,
            forall|j: int| 0 <= j < i ==> name@[j] == feature_prefix()[j],
        decreases lp - i,
    {
        if name.get_char(i) != prefix.get_char(i) {
            proof {
                assert(name@.take(lp as int)[i as int] != feature_prefix()[i as int]);
            }
            return None;
        }
        i += 1;
    }
    let suffix = name.substring_char(lp, ln);
    proof {
        assert(name@.take(lp as int) =~= feature_prefix());
        assert(suffix@ =~= feature_of(name@));
    }
    Some(suffix.to_owned())
}

/// The features the module requires, read off its export names by the
/// prefix convention: in first-occurrence order, without duplicates.
pub fn required_features_from_module(module: &Module) -> (r: Vec<String>)
    ensures
        strs_view(r@) == collect_features(strs_view(module.exports@)),
{
    let ghost ev = strs_view(module.exports@);
    let mut found: Vec<String> = Vec::new();
    let mut i: usize = 0;
    proof {
        assert(ev.take(0) =~= Seq::<Seq<char>>::empty());
        assert(strs_view(found@) =~= Seq::<Seq<char>>::empty());
    }
    while i < module.exports.len()
        invariant
            i <= ev.len(),
            ev == strs_view(module.exports@),
            ev.len() == module.exports@.len(),
            strs_view(found@) == collect_features(ev.take(i as int)),
        decreases ev.len() - i,
    {
        let ghost prev = strs_view(found@);
        proof {
            assert(ev.take(i as int + 1).drop_last() =~= ev.take(i as int));
            assert(ev.take(i as int + 1).last() == ev[i as int]);
        }
        match feature_suffix(module.exports[i].as_str()) {
            None => {},
            Some(suffix) => {
                if !strings_contain(&found, suffix.as_str()) {
                    found.push(suffix);
                    proof {
                        assert(strs_view(found@) =~= prev.push(feature_of(ev[i as int])));
                    }
                }
            },
        }
        i += 1;
    }
    proof {
        assert(ev.take(ev.len() as int) =~= ev);
    }
    found
}

/// Accepts exactly the modules all of whose required features are among
/// `supported_features`; otherwise reports the sorted set of features
/// that are required but not enabled.
pub fn check_wasm_features(module: &Module, supported_features: &Vec<String>) -> (r: Result<
    (),
    RejectionDetail,
>)
    ensures
        outcome_matches(
            r,
            spec_check_features(strs_view(module.exports@), strs_view(supported_features@)),
        ),
{
    let ghost ev = strs_view(module.exports@);
    let ghost en = strs_view(supported_features@);
    let required = required_features_from_module(module);
    let ghost rv = strs_view(required@);
    let mut diff: Vec<String> = Vec::new();
    let mut i: usize = 0;
    proof {
        assert(rv.take(0) =~= Seq::<Seq<char>>::empty());
        assert(strs_view(diff@) =~= Seq::<Seq<char>>::empty());
    }
    while i < required.len()
        invariant
            i <= rv.len(),
            rv == strs_view(required@),
            rv.len() == required@.len(),
            en == strs_view(supported_features@),
            strs_view(diff@) == missing_features(rv.take(i as int), en),
        decreases rv.len() - i,
    {
        let ghost prev = strs_view(diff@);
        proof {
            assert(rv.take(i as int + 1).drop_last() =~= rv.take(i as int));
            assert(rv.take(i as int + 1).last() == rv[i as int]);
        }
        let f = required[i].clone();
        if !strings_contain(supported_features, f.as_str()) {
            diff.push(f);
            proof {
                assert(strs_view(diff@) =~= prev.push(rv[i as int]));
            }
        }
        i += 1;
    }
    proof {
        assert(rv.take(rv.len() as int) =~= rv);
    }
    if diff.len() == 0 {
        return Ok(());
    }
    let sorted = sort_strings(diff);
    let mut msg = String::from_str("Wasm contract requires unsupported features: ");
    let listing = render_braced(&sorted);
    msg.append(listing.as_str());
    proof {
        assert(msg@ =~= features_error_msg(missing_features(rv, en)));
    }
    Err(RejectionDetail { kind: ErrorKind::UnsupportedFeatures, msg })
}

/// Membership and uniqueness of the derived feature list: it holds a
/// feature exactly when some export declares it, and holds it once.
proof fn lemma_collect_features_props(exports: Seq<Seq<char>>)
    ensures
        collect_features(exports).no_duplicates(),
        forall|f: Seq<char>|
            #[trigger] collect_features(exports).contains(f) <==> (f.len() > 0
                && exports.contains(feature_prefix() + f)),
    decreases exports.len(),
{
    let c = collect_features(exports);
    if exports.len() == 0 {
        assert forall|f: Seq<char>| !(#[trigger] exports.contains(feature_prefix() + f)) by {}
    } else {
        let dl = exports.drop_last();
        let e = exports.last();
        lemma_collect_features_props(dl);
        let rest = collect_features(dl);
        assert forall|x: Seq<char>| #[trigger] exports.contains(x) <==> (dl.contains(x) || x
            == e) by {
            if exports.contains(x) {
                let i = choose|i: int| 0 <= i < exports.len() && exports[i] == x;
                if i < exports.len() - 1 {
                    assert(dl[i] == x);
                }
            }
            if dl.contains(x) {
                let i = choose|i: int| 0 <= i < dl.len() && dl[i] == x;
                assert(exports[i] == x);
            }
            if x == e {
                assert(exports[exports.len() - 1] == x);
            }
        }
        if is_feature_export(e) {
            assert(feature_prefix() + feature_of(e) =~= e);
            assert(feature_of(e).len() > 0);
        }
        assert forall|f: Seq<char>| f.len() > 0 && e == feature_prefix() + f implies
            is_feature_export(e) && feature_of(e) == f by {
            assert((feature_prefix() + f).take(feature_prefix().len() as int)
                =~= feature_prefix());
            assert((feature_prefix() + f).skip(feature_prefix().len() as int) =~= f);
        }
        if is_feature_export(e) && !rest.contains(feature_of(e)) {
            let x = feature_of(e);
            assert(c == rest.push(x));
            assert forall|i: int, j: int|
                0 <= i < c.len() && 0 <= j < c.len() && i != j implies c[i] != c[j] by {
                if i < rest.len() && j < rest.len() {
                    assert(rest[i] == c[i] && rest[j] == c[j]);
                } else if j == rest.len() && i < rest.len() {
                    assert(rest[i] == c[i]);
                    assert(rest.contains(rest[i]));
                } else if i == rest.len() && j < rest.len() {
                    assert(rest[j] == c[j]);
                    assert(rest.contains(rest[j]));
                }
            }
            assert forall|f: Seq<char>| #[trigger] c.contains(f) <==> (rest.contains(f) || f
                == x) by {
                if c.contains(f) {
                    let i = choose|i: int| 0 <= i < c.len() && c[i] == f;
                    if i < rest.len() {
                        assert(rest[i] == f);
                    }
                }
                if rest.contains(f) {
                    let i = choose|i: int| 0 <= i < rest.len() && rest[i] == f;
                    assert(c[i] == f);
                }
                if f == x {
                    assert(c[c.len() - 1] == f);
                }
            }
        } else {
            assert(c == rest);
        }
    }
}

/// Membership and uniqueness of the missing-feature list: it holds a
/// feature exactly when it is required but not enabled.
proof fn lemma_missing_features_props(required: Seq<Seq<char>>, enabled: Seq<Seq<char>>)
    ensures
        forall|f: Seq<char>|
            #[trigger] missing_features(required, enabled).contains(f) <==> (required.contains(f)
                && !enabled.contains(f)),
        required.no_duplicates() ==> missing_features(required, enabled).no_duplicates(),
    decreases required.len(),
{
    let m = missing_features(required, enabled);
    if required.len() == 0 {
    } else {
        let dl = required.drop_last();
        let e = required.last();
        assert forall|i: int, j: int|
            required.no_duplicates() && 0 <= i < dl.len() && 0 <= j < dl.len() && i != j implies
            dl[i] != dl[j] by {
            assert(dl[i] == required[i] && dl[j] == required[j]);
        }
        lemma_missing_features_props(dl, enabled);
        let rest = missing_features(dl, enabled);
        assert forall|x: Seq<char>| #[trigger] required.contains(x) <==> (dl.contains(x) || x
            == e) by {
            if required.contains(x) {
                let i = choose|i: int| 0 <= i < required.len() && required[i] == x;
                if i < required.len() - 1 {
                    assert(dl[i] == x);
                }
            }
            if dl.contains(x) {
                let i = choose|i: int| 0 <= i < dl.len() && dl[i] == x;
                assert(required[i] == x);
            }
            if x == e {
                assert(required[required.len() - 1] == x);
            }
        }
        if !enabled.contains(e) {
            assert(m == rest.push(e));
            assert forall|f: Seq<char>| #[trigger] m.contains(f) <==> (rest.contains(f) || f
                == e) by {
                if m.contains(f) {
                    let i = choose|i: int| 0 <= i < m.len() && m[i] == f;
                    if i < rest.len() {
                        assert(rest[i] == f);
                    }
                }
                if rest.contains(f) {
                    let i = choose|i: int| 0 <= i < rest.len() && rest[i] == f;
                    assert(m[i] == f);
                }
                if f == e {
                    assert(m[m.len() - 1] == f);
                }
            }
            if required.no_duplicates() {
                assert(!dl.contains(e));
                assert forall|i: int, j: int|
                    0 <= i < m.len() && 0 <= j < m.len() && i != j implies m[i] != m[j] by {
                    if i < rest.len() && j < rest.len() {
                        assert(rest[i] == m[i] && rest[j] == m[j]);
                    } else if j == rest.len() && i < rest.len() {
                        assert(rest[i] == m[i]);
                        assert(rest.contains(rest[i]));
                    } else if i == rest.len() && j < rest.len() {
                        assert(rest[j] == m[j]);
                        assert(rest.contains(rest[j]));
                    }
                }
            }
        } else {
            assert(m == rest);
        }
    }
}

/// The subset law for features. Validation succeeds exactly when the
/// features the exports require form a subset of the enabled set; when it
/// fails, the reported message renders exactly the set difference
/// (required minus enabled), sorted and without repetition.
pub proof fn lemma_feature_subset_law(exports: Seq<Seq<char>>, enabled: Seq<Seq<char>>)
    ensures
        spec_check_features(exports, enabled) is None <==> required_feature_set(
            exports,
        ).subset_of(enabled.to_set()),
        spec_check_features(exports, enabled) matches Some(p) ==> ({
            let diff = sort_strs(missing_features(collect_features(exports), enabled));
            &&& p.0 == ErrorKind::UnsupportedFeatures
            &&& p.1 == "Wasm contract requires unsupported features: "@ + braced_strs(diff)
            &&& diff.to_set() == required_feature_set(exports).difference(enabled.to_set())
            &&& strs_strictly_sorted(diff)
        }),
{
    broadcast use vstd::seq_lib::group_to_multiset_ensures;

    let req = collect_features(exports);
    let miss = missing_features(req, enabled);
    lemma_collect_features_props(exports);
    lemma_missing_features_props(req, enabled);
    if miss.len() == 0 {
        assert forall|f: Seq<char>| required_feature_set(exports).contains(f) implies
            enabled.to_set().contains(f) by {
            assert(req.contains(f));
            if !enabled.contains(f) {
                assert(miss.contains(f));
            }
        }
    } else {
        let w = miss[0];
        assert(miss.contains(w));
        assert(required_feature_set(exports).contains(w));
        assert(!enabled.to_set().contains(w));
    }
    if miss.len() != 0 {
        let diff = sort_strs(miss);
        lemma_sort_strs_multiset(miss);
        lemma_sort_strs_sorted(miss);
        assert forall|f: Seq<char>| #[trigger] diff.contains(f) <==> miss.contains(f) by {
            assert(diff.contains(f) <==> diff.to_multiset().count(f) > 0);
            assert(miss.contains(f) <==> miss.to_multiset().count(f) > 0);
        }
        assert(diff.to_set() =~= required_feature_set(exports).difference(enabled.to_set()));
        miss.lemma_multiset_has_no_duplicates();
        assert forall|x: Seq<char>| diff.to_multiset().contains(x) implies diff.to_multiset().count(
            x,
        ) == 1 by {
            assert(miss.to_multiset().contains(x));
        }
        diff.lemma_multiset_has_no_duplicates_conv();
        assert forall|i: int| 0 <= i && i + 1 < diff.len() implies str_lt(
            #[trigger] diff[i],
            diff[i + 1],
        ) by {
            assert(str_le(diff[i], diff[i + 1]));
            assert(diff[i] != diff[i + 1]);
        }
    }
}

} // verus!
