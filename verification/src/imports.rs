use vstd::prelude::*;
use vstd::string::StringExecFns;
use crate::render::{bracketed_strs, render_bracketed};
use crate::strcmp::{str_refs_view, str_slice_contains};
use crate::types::{ErrorKind, ImportEntry, ImportKind, Module, RejectionDetail, outcome_matches};

verus! {

/// The fully-qualified name of an import: providing module, a dot, and
/// the field name.
pub open spec fn full_import_name(imp: ImportEntry) -> Seq<char> {
    imp.module@ + "."@ + imp.name@
}

/// Diagnostic for an import outside the allow-list: it names the offender
/// and lists every import the host supports.
pub open spec fn unsupported_import_msg(name: Seq<char>, supported: Seq<Seq<char>>) -> Seq<char> {
    "Wasm contract requires unsupported import: \""@ + name
        + "\". Imports supported by VM: "@ + bracketed_strs(supported) + "."@
}

/// Diagnostic for an import of the wrong kind: the host only offers
/// function capabilities.
pub open spec fn non_function_import_msg(name: Seq<char>) -> Seq<char> {
    "Wasm contract requires non-function import: \""@ + name
        + "\". Right now, all supported imports are functions."@
}

/// Import validation, in declaration order: each import's qualified name
/// must be in the supported set, and the import must ask for a function.
/// The first offending import decides the rejection.
pub open spec fn spec_check_imports(
    imports: Seq<ImportEntry>,
    supported: Seq<Seq<char>>,
) -> Option<(ErrorKind, Seq<char>)>
    decreases imports.len(),
{
    if imports.len() == 0 {
        None
    } else {
        let full = full_import_name(imports[0]);
        if !supported.contains(full) {
            Some((ErrorKind::UnsupportedImport, unsupported_import_msg(full, supported)))
        } else if !(imports[0].kind == ImportKind::Function) {
            Some((ErrorKind::NonFunctionImport, non_function_import_msg(full)))
        } else {
            spec_check_imports(imports.drop_first(), supported)
        }
    }
}

/// Accepts exactly the modules whose imports all name supported,
/// function-kind host capabilities, and reports the first offender
/// otherwise.
pub fn check_wasm_imports(module: &Module, supported_imports: &[&str]) -> (r: Result<
    (),
    RejectionDetail,
>)
    ensures
        outcome_matches(
            r,
            spec_check_imports(module.imports@, str_refs_view(supported_imports@)),
        ),
{
    let ghost iv = module.imports@;
    let ghost sv = str_refs_view(supported_imports@);
    let mut i: usize = 0;
    proof {
        assert(iv.skip(0) =~= iv);
    }
    while i < module.imports.len()
        invariant
            i <= iv.len(),
            iv == module.imports@,
            sv == str_refs_view(supported_imports@),
            spec_check_imports(iv, sv) == spec_check_imports(iv.skip(i as int), sv),
        decreases iv.len() - i,
    {
        let ghost tail = iv.skip(i as int);
        proof {
            assert(tail[0] == iv[i as int]);
        }
        let imp = &module.imports[i];
        let mut full = imp.module.clone();
        full.append(".");
        full.append(imp.name.as_str());
        proof {
            assert(full@ =~= full_import_name(iv[i as int]));
        }
        if !str_slice_contains(supported_imports, full.as_str()) {
            let mut msg = String::from_str("Wasm contract requires unsupported import: \"");
            msg.append(full.as_str());
            msg.append("\". Imports supported by VM: ");
            let listing = render_bracketed(supported_imports);
            msg.append(listing.as_str());
            msg.append(".");
            proof {
                assert(msg@ =~= unsupported_import_msg(full_import_name(iv[i as int]), sv));
            }
            return Err(RejectionDetail { kind: ErrorKind::UnsupportedImport, msg });
        }
        let is_function = match imp.kind {
            ImportKind::Function => true,
            ImportKind::Memory => false,
            ImportKind::Table => false,
            ImportKind::Global => false,
        };
        if !is_function {
            let mut msg = String::from_str("Wasm contract requires non-function import: \"");
            msg.append(full.as_str());
            msg.append("\". Right now, all supported imports are functions.");
            proof {
                assert(msg@ =~= non_function_import_msg(full_import_name(iv[i as int])));
            }
            return Err(RejectionDetail { kind: ErrorKind::NonFunctionImport, msg });
        }
        proof {
            assert(tail.drop_first() =~= iv.skip(i as int + 1));
        }
        i += 1;
    }
    proof {
        assert(iv.skip(iv.len() as int) =~= Seq::<ImportEntry>::empty());
    }
    Ok(())
}

} // verus!
