use vstd::prelude::*;
use vstd::string::StringExecFns;
use crate::types::{ErrorKind, Module, RejectionDetail, outcome_matches};

verus! {

/// Largest initial memory size, in pages, the host instantiates.
pub const MEMORY_LIMIT: u32 = 512;

/// The memory rules, in the order they are checked: the module must have a
/// memory section with exactly one entry, whose initial size stays within
/// the host's ceiling and which declares no maximum of its own.
pub open spec fn spec_check_memories(m: Module) -> Option<(ErrorKind, Seq<char>)> {
    match m.memories {
        Option::None => Some(
            (ErrorKind::MissingMemorySection, "Wasm contract doesn't have a memory section"@),
        ),
        Option::Some(entries) => if entries@.len() != 1 {
            Some((ErrorKind::InvalidMemoryCount, "Wasm contract must contain exactly one memory"@))
        } else if entries@[0].initial_pages > MEMORY_LIMIT {
            Some(
                (
                    ErrorKind::MemoryTooLarge,
                    "Wasm contract memory's minimum must not exceed 512 pages."@,
                ),
            )
        } else if entries@[0].maximum_pages is Some {
            Some(
                (
                    ErrorKind::MemoryMaximumMustBeUnset,
                    "Wasm contract memory's maximum must be unset. The host will set it for you."@,
                ),
            )
        } else {
            None
        },
    }
}

/// Accepts exactly the modules whose memory layout obeys
/// `spec_check_memories`, and reports the first broken rule otherwise.
pub fn check_wasm_memories(module: &Module) -> (r: Result<(), RejectionDetail>)
    ensures
        outcome_matches(r, spec_check_memories(*module)),
{
    let entries = match &module.memories {
        None => {
            return Err(
                RejectionDetail {
                    kind: ErrorKind::MissingMemorySection,
                    msg: String::from_str("Wasm contract doesn't have a memory section"),
                },
            );
        },
        Some(entries) => entries,
    };
    if entries.len() != 1 {
        return Err(
            RejectionDetail {
                kind: ErrorKind::InvalidMemoryCount,
                msg: String::from_str("Wasm contract must contain exactly one memory"),
            },
        );
    }
    let mem = entries[0];
    if mem.initial_pages > MEMORY_LIMIT {
        return Err(
            RejectionDetail {
                kind: ErrorKind::MemoryTooLarge,
                msg: String::from_str("Wasm contract memory's minimum must not exceed 512 pages."),
            },
        );
    }
    if mem.maximum_pages.is_some() {
        return Err(
            RejectionDetail {
                kind: ErrorKind::MemoryMaximumMustBeUnset,
                msg: String::from_str(
                    "Wasm contract memory's maximum must be unset. The host will set it for you.",
                ),
            },
        );
    }
    Ok(())
}

} // verus!
