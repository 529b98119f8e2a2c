use vstd::prelude::*;

verus! {

/// Kind of capability a module asks the host to supply for one import.
#[derive(Clone, Copy, PartialEq, Eq, Structural, Debug)]
pub enum ImportKind {
    Function,
    Memory,
    Table,
    Global,
}

/// One linear-memory declaration: its initial size and, if the module
/// declares one, its own maximum size, both counted in pages.
#[derive(Clone, Copy, PartialEq, Eq, Structural, Debug)]
pub struct MemoryInfo {
    pub initial_pages: u32,
    pub maximum_pages: Option<u32>,
}

/// One import declaration: the providing module, the field name inside it,
/// and the kind of capability requested.
#[derive(Clone, Debug)]
pub struct ImportEntry {
    pub module: String,
    pub name: String,
    pub kind: ImportKind,
}

/// Structured view of a deserialized binary module: the parts of its
/// metadata that the compatibility gate inspects.
///
/// `memories` is `None` when the module has no memory section at all, and
/// `Some` of the section's entries (possibly zero of them) otherwise.
#[derive(Clone, Debug)]
pub struct Module {
    pub memories: Option<Vec<MemoryInfo>>,
    pub exports: Vec<String>,
    pub imports: Vec<ImportEntry>,
}

/// Discriminant naming the rule a rejected module broke.
#[derive(Clone, Copy, PartialEq, Eq, Structural, Debug)]
pub enum ErrorKind {
    MalformedInput,
    MissingMemorySection,
    InvalidMemoryCount,
    MemoryTooLarge,
    MemoryMaximumMustBeUnset,
    MissingExport,
    UnsupportedImport,
    NonFunctionImport,
    UnsupportedFeatures,
    NoCompatibleGeneration,
}

/// A rejection: which rule was broken and the human-readable diagnostic
/// whose wording is part of the stable interface.
#[derive(Clone, Debug)]
pub struct RejectionDetail {
    pub kind: ErrorKind,
    pub msg: String,
}

/// How an executable validation result corresponds to a specification-level
/// outcome: `None` stands for acceptance, `Some` carries the rejection's
/// kind and the characters of its message.
pub open spec fn outcome_matches(
    r: Result<(), RejectionDetail>,
    s: Option<(ErrorKind, Seq<char>)>,
) -> bool {
    match r {
        Ok(u) => s is None,
        Err(e) => s matches Some(p) && e.kind == p.0 && e.msg@ == p.1,
    }
}

impl RejectionDetail {
    /// The diagnostic message, for callers that only surface text.
    pub fn message(&self) -> (r: String)
        ensures
            r@ == self.msg@,
    {
        self.msg.clone()
    }
}

} // verus!
