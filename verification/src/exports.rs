use vstd::prelude::*;
use vstd::string::StringExecFns;
use crate::render::{bracketed_strs, render_bracketed};
use crate::strcmp::{str_refs_view, strings_contain, strs_view};
use crate::types::{ErrorKind, Module, RejectionDetail, outcome_matches};

verus! {

/// The first required name, in list order, that the exports do not
/// contain, if any.
pub open spec fn first_missing_export(
    exports: Seq<Seq<char>>,
    required: Seq<Seq<char>>,
) -> Option<Seq<char>>
    decreases required.len(),
{
    if required.len() == 0 {
        None
    } else if !exports.contains(required[0]) {
        Some(required[0])
    } else {
        first_missing_export(exports, required.drop_first())
    }
}

/// Diagnostic for a missing required export: it names the absent entry
/// point and lists the whole required set.
pub open spec fn missing_export_msg(name: Seq<char>, required: Seq<Seq<char>>) -> Seq<char> {
    "Wasm contract doesn't have required export: \""@ + name
        + "\". Exports required by VM: "@ + bracketed_strs(required) + "."@
}

/// Export validation: accepted exactly when every required name occurs
/// among the exports.
pub open spec fn spec_check_exports(
    exports: Seq<Seq<char>>,
    required: Seq<Seq<char>>,
) -> Option<(ErrorKind, Seq<char>)> {
    match first_missing_export(exports, required) {
        None => None,
        Some(name) => Some((ErrorKind::MissingExport, missing_export_msg(name, required))),
    }
}

/// Accepts exactly the modules that export every name in
/// `required_exports`, and names the first missing one otherwise.
pub fn check_wasm_exports(module: &Module, required_exports: &[&str]) -> (r: Result<
    (),
    RejectionDetail,
>)
    ensures
        outcome_matches(
            r,
            spec_check_exports(strs_view(module.exports@), str_refs_view(required_exports@)),
        ),
{
    let ghost ev = strs_view(module.exports@);
    let ghost rv = str_refs_view(required_exports@);
    let mut i: usize = 0;
    proof {
        assert(rv.skip(0) =~= rv);
    }
    while i < required_exports.len()
        invariant
            i <= rv.len(),
            rv == str_refs_view(required_exports@),
            rv.len() == required_exports@.len(),
            ev == strs_view(module.exports@),
            first_missing_export(ev, rv) == first_missing_export(ev, rv.skip(i as int)),
        decreases rv.len() - i,
    {
        let ghost tail = rv.skip(i as int);
        proof {
            assert(tail[0] == rv[i as int]);
        }
        if !strings_contain(&module.exports, required_exports[i]) {
            let mut msg = String::from_str("Wasm contract doesn't have required export: \"");
            msg.append(required_exports[i]);
            msg.append("\". Exports required by VM: ");
            let listing = render_bracketed(required_exports);
            msg.append(listing.as_str());
            msg.append(".");
            proof {
                assert(msg@ =~= missing_export_msg(rv[i as int], rv));
            }
            return Err(RejectionDetail { kind: ErrorKind::MissingExport, msg });
        }
        proof {
            assert(tail.drop_first() =~= rv.skip(i as int + 1));
        }
        i += 1;
    }
    proof {
        assert(rv.skip(rv.len() as int) =~= Seq::<Seq<char>>::empty());
    }
    Ok(())
}

} // verus!
