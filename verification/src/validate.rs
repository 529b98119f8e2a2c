use vstd::prelude::*;
use vstd::string::StringExecFns;
use crate::exports::spec_check_exports;
use crate::features::spec_check_features;
use crate::imports::spec_check_imports;
use crate::memory::spec_check_memories;
use crate::parse::{parse_module, parse_wasm};
use crate::profiles::{
    required_exports_v010, required_exports_v1, spec_required_exports_v010,
    spec_required_exports_v1, spec_supported_imports_v010, spec_supported_imports_v1,
    supported_imports_v010, supported_imports_v1,
};
use crate::strcmp::strs_view;
use crate::types::{ErrorKind, Module, RejectionDetail, outcome_matches};
use crate::exports::check_wasm_exports;
use crate::features::check_wasm_features;
use crate::imports::check_wasm_imports;
use crate::memory::check_wasm_memories;

verus! {

/// Diagnostic for bytes that are not a binary module, carrying the
/// deserializer's own account of the failure.
pub open spec fn malformed_msg(cause: Seq<char>) -> Seq<char> {
    "Wasm bytecode could not be deserialized. Deserialization error: \""@ + cause + "\""@
}

/// One generation-trial outcome as text: success, or the quoted message.
pub open spec fn outcome_text(o: Option<(ErrorKind, Seq<char>)>) -> Seq<char> {
    match o {
        Option::None => "Ok(())"@,
        Option::Some(p) => "Err(\""@ + p.1 + "\")"@,
    }
}

/// Diagnostic when no generation's trial passed: it aggregates the four
/// underlying outcomes — the older generation's export and import checks,
/// then the newer generation's.
pub open spec fn no_generation_msg(
    e010: Option<(ErrorKind, Seq<char>)>,
    i010: Option<(ErrorKind, Seq<char>)>,
    e1: Option<(ErrorKind, Seq<char>)>,
    i1: Option<(ErrorKind, Seq<char>)>,
) -> Seq<char> {
    "Contract is not CosmWasm v0.10 or v1. To support v0.10 please fix the former two errors, to supports v1 please fix the latter two errors: $["@
        + outcome_text(e010) + ", "@ + outcome_text(i010) + ", "@ + outcome_text(e1) + ", "@
        + outcome_text(i1) + "]"@
}

/// Validation of an already deserialized module: the memory rules and the
/// feature rule are generation-independent and fatal; then each API
/// generation's export and import profile is tried, and the module is
/// accepted when at least one generation fully passes.
pub open spec fn spec_check_module(m: Module, enabled: Seq<Seq<char>>) -> Option<
    (ErrorKind, Seq<char>),
> {
    if spec_check_memories(m) is Some {
        spec_check_memories(m)
    } else if spec_check_features(strs_view(m.exports@), enabled) is Some {
        spec_check_features(strs_view(m.exports@), enabled)
    } else {
        let e010 = spec_check_exports(strs_view(m.exports@), spec_required_exports_v010());
        let i010 = spec_check_imports(m.imports@, spec_supported_imports_v010());
        let e1 = spec_check_exports(strs_view(m.exports@), spec_required_exports_v1());
        let i1 = spec_check_imports(m.imports@, spec_supported_imports_v1());
        if (e010 is None && i010 is None) || (e1 is None && i1 is None) {
            None
        } else {
            Some((ErrorKind::NoCompatibleGeneration, no_generation_msg(e010, i010, e1, i1)))
        }
    }
}

/// The whole validation as a function of the raw bytes and the enabled
/// feature set: deserialization failure is fatal, everything else follows
/// `spec_check_module`.
pub open spec fn spec_check_wasm(bytes: Seq<u8>, enabled: Seq<Seq<char>>) -> Option<
    (ErrorKind, Seq<char>),
> {
    match parse_wasm(bytes) {
        Err(cause) => Some((ErrorKind::MalformedInput, malformed_msg(cause))),
        Ok(m) => spec_check_module(m, enabled),
    }
}

/// Appends one generation-trial outcome as `outcome_text` renders it.
fn append_outcome(out: &mut String, r: &Result<(), RejectionDetail>)
    ensures
        final(out)@ == old(out)@ + (match r {
            Ok(u) => "Ok(())"@,
            Err(e) => "Err(\""@ + e.msg@ + "\")"@,
        }),
{
    match r {
        Ok(u) => {
            out.append("Ok(())");
        },
        Err(e) => {
            out.append("Err(\"");
            out.append(e.msg.as_str());
            out.append("\")");
            proof {
                assert(out@ =~= old(out)@ + ("Err(\""@ + e.msg@ + "\")"@));
            }
        },
    }
}

/// Checks that the bytes are a valid binary module compatible with the
/// host's contract API: exactly one bounded memory without a declared
/// maximum, no feature requirement outside `supported_features`, and the
/// full export and import profile of at least one API generation.
pub fn check_wasm(wasm_code: &[u8], supported_features: &Vec<String>) -> (r: Result<
    (),
    RejectionDetail,
>)
    ensures
        outcome_matches(r, spec_check_wasm(wasm_code@, strs_view(supported_features@))),
{
    let module = match parse_module(wasm_code) {
        Ok(m) => m,
        Err(cause) => {
            let mut msg = String::from_str(
                "Wasm bytecode could not be deserialized. Deserialization error: \"",
            );
            msg.append(cause.as_str());
            msg.append("\"");
            proof {
                assert(msg@ =~= malformed_msg(cause@));
            }
            return Err(RejectionDetail { kind: ErrorKind::MalformedInput, msg });
        },
    };
    match check_wasm_memories(&module) {
        Ok(u) => {},
        Err(e) => {
            return Err(e);
        },
    }
    match check_wasm_features(&module, supported_features) {
        Ok(u) => {},
        Err(e) => {
            return Err(e);
        },
    }
    let req010 = required_exports_v010();
    let sup010 = supported_imports_v010();
    let req1 = required_exports_v1();
    let sup1 = supported_imports_v1();
    let v010_exports = check_wasm_exports(&module, req010.as_slice());
    let v010_imports = check_wasm_imports(&module, sup010.as_slice());
    let v1_exports = check_wasm_exports(&module, req1.as_slice());
    let v1_imports = check_wasm_imports(&module, sup1.as_slice());
    let is_v010 = v010_exports.is_ok() && v010_imports.is_ok();
    let is_v1 = v1_exports.is_ok() && v1_imports.is_ok();
    if !is_v010 && !is_v1 {
        let ghost e010 = spec_check_exports(
            strs_view(module.exports@),
            spec_required_exports_v010(),
        );
        let ghost i010 = spec_check_imports(module.imports@, spec_supported_imports_v010());
        let ghost e1 = spec_check_exports(strs_view(module.exports@), spec_required_exports_v1());
        let ghost i1 = spec_check_imports(module.imports@, spec_supported_imports_v1());
        let mut msg = String::from_str(
            "Contract is not CosmWasm v0.10 or v1. To support v0.10 please fix the former two errors, to supports v1 please fix the latter two errors: $[",
        );
        append_outcome(&mut msg, &v010_exports);
        msg.append(", ");
        append_outcome(&mut msg, &v010_imports);
        msg.append(", ");
        append_outcome(&mut msg, &v1_exports);
        msg.append(", ");
        append_outcome(&mut msg, &v1_imports);
        msg.append("]");
        proof {
            assert(msg@ =~= no_generation_msg(e010, i010, e1, i1));
        }
        return Err(RejectionDetail { kind: ErrorKind::NoCompatibleGeneration, msg });
    }
    Ok(())
}

/// Bytes that do not deserialize are always rejected as malformed, with
/// the diagnostic built from the deserializer's own failure message.
pub proof fn lemma_malformed_rejection(bytes: Seq<u8>, enabled: Seq<Seq<char>>)
    requires
        parse_wasm(bytes) is Err,
    ensures
        spec_check_wasm(bytes, enabled) matches Some(p) && p.0 == ErrorKind::MalformedInput
            && p.1 == malformed_msg(parse_wasm(bytes)->Err_0),
{
}

/// Memory failures are generation-independent and fatal: a module that
/// breaks a memory rule is rejected with exactly that rule's diagnostic.
pub proof fn lemma_memory_rejection_is_fatal(m: Module, enabled: Seq<Seq<char>>)
    requires
        spec_check_memories(m) is Some,
    ensures
        spec_check_module(m, enabled) == spec_check_memories(m),
{
}

/// Feature failures are generation-independent and fatal: a module whose
/// memory passes but whose required features are not all enabled is
/// rejected with exactly the feature diagnostic.
pub proof fn lemma_feature_rejection_is_fatal(m: Module, enabled: Seq<Seq<char>>)
    requires
        spec_check_memories(m) is None,
        spec_check_features(strs_view(m.exports@), enabled) is Some,
    ensures
        spec_check_module(m, enabled) == spec_check_features(strs_view(m.exports@), enabled),
{
}

/// Validation is a pure function of the bytes and the enabled features:
/// two validation results for the same inputs agree on acceptance and,
/// on rejection, on the kind and the message.
pub proof fn lemma_check_wasm_deterministic(
    bytes: Seq<u8>,
    enabled: Seq<Seq<char>>,
    r1: Result<(), RejectionDetail>,
    r2: Result<(), RejectionDetail>,
)
    requires
        outcome_matches(r1, spec_check_wasm(bytes, enabled)),
        outcome_matches(r2, spec_check_wasm(bytes, enabled)),
    ensures
        r1 is Ok <==> r2 is Ok,
        r1 matches Err(e1) ==> (r2 matches Err(e2) && e1.kind == e2.kind && e1.msg@ == e2.msg@),
{
}

/// A module that passes the memory and feature rules and fully satisfies
/// at least one generation's export and import profile is accepted, no
/// matter how it fares against the other generation.
pub proof fn lemma_generation_acceptance(m: Module, enabled: Seq<Seq<char>>)
    requires
        spec_check_memories(m) is None,
        spec_check_features(strs_view(m.exports@), enabled) is None,
        (spec_check_exports(strs_view(m.exports@), spec_required_exports_v010()) is None
            && spec_check_imports(m.imports@, spec_supported_imports_v010()) is None) || (
        spec_check_exports(strs_view(m.exports@), spec_required_exports_v1()) is None
            && spec_check_imports(m.imports@, spec_supported_imports_v1()) is None),
    ensures
        spec_check_module(m, enabled) is None,
{
}

/// A module that passes the memory and feature rules but satisfies
/// neither generation's profile is rejected with the aggregate
/// diagnostic, which carries all four underlying outcomes.
pub proof fn lemma_no_generation_rejection(m: Module, enabled: Seq<Seq<char>>)
    requires
        spec_check_memories(m) is None,
        spec_check_features(strs_view(m.exports@), enabled) is None,
        spec_check_exports(strs_view(m.exports@), spec_required_exports_v010()) is Some
            || spec_check_imports(m.imports@, spec_supported_imports_v010()) is Some,
        spec_check_exports(strs_view(m.exports@), spec_required_exports_v1()) is Some
            || spec_check_imports(m.imports@, spec_supported_imports_v1()) is Some,
    ensures
        spec_check_module(m, enabled) matches Some(p) && p.0 == ErrorKind::NoCompatibleGeneration
            && p.1 == no_generation_msg(
            spec_check_exports(strs_view(m.exports@), spec_required_exports_v010()),
            spec_check_imports(m.imports@, spec_supported_imports_v010()),
            spec_check_exports(strs_view(m.exports@), spec_required_exports_v1()),
            spec_check_imports(m.imports@, spec_supported_imports_v1()),
        ),
{
}

} // verus!
