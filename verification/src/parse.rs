use vstd::prelude::*;
use parity_wasm::elements::{deserialize_buffer, External, Module as BinaryModule};
use crate::types::{ImportEntry, ImportKind, MemoryInfo, Module};

verus! {

#[verifier::external_type_specification]
#[verifier::external_body]
pub struct ExBinaryModule(BinaryModule);

/// The structured metadata encoded by the bytes — the memory entries, the
/// export names and the imports of the binary module they hold — or the
/// characters of the deserializer's failure message. A function of the
/// bytes alone.
pub uninterp spec fn parse_wasm(bytes: Seq<u8>) -> Result<Module, Seq<char>>;

/// The metadata a deserialized binary module carries: its memory entries,
/// its export names and its imports, as plain values. The accessor
/// wrappers below each read one part of it.
pub uninterp spec fn module_data(m: BinaryModule) -> Module;

/// Relies on parity_wasm::elements::deserialize_buffer: it reads a binary
/// module from a byte slice deterministically, returning the module or an
/// error whose rendering depends on the bytes alone.
#[verifier::external_body]
fn deserialize_wasm(code: &[u8]) -> (r: Result<BinaryModule, String>)
    ensures
        r is Ok <==> parse_wasm(code@) is Ok,
        r matches Ok(m) ==> parse_wasm(code@) matches Ok(d) && module_data(m) == d,
        r matches Err(e) ==> parse_wasm(code@) matches Err(d) && e@ == d,
{
    match deserialize_buffer::<BinaryModule>(code) {
        Ok(m) => Ok(m),
        Err(e) => Err(format!("{}", e)),
    }
}

/// Relies on parity_wasm's Module::memory_section and the memory
/// entries' limits: each entry carries an initial and an optional
/// maximum page count.
#[verifier::external_body]
fn read_memories(m: &BinaryModule) -> (r: Option<Vec<MemoryInfo>>)
    ensures
        r == module_data(*m).memories,
{
    m.memory_section().map(|s| s.entries().iter().map(|e| MemoryInfo {
        initial_pages: e.limits().initial(), maximum_pages: e.limits().maximum() }).collect())
}

/// Relies on parity_wasm's Module::export_section: export entries carry
/// their field name; a module without the section exports nothing.
#[verifier::external_body]
fn read_exports(m: &BinaryModule) -> (r: Vec<String>)
    ensures
        r == module_data(*m).exports,
{
    m.export_section().map_or(vec![], |s| s.entries().iter().map(|e| e.field().to_string()).collect())
}

/// Relies on parity_wasm's Module::import_section: import entries carry
/// the providing module, the field name, and the kind of external value
/// they request; a module without the section imports nothing.
#[verifier::external_body]
fn read_imports(m: &BinaryModule) -> (r: Vec<ImportEntry>)
    ensures
        r == module_data(*m).imports,
{
    m.import_section().map_or(vec![], |s| s.entries().iter().map(|e| ImportEntry {
        module: e.module().to_string(), name: e.field().to_string(),
        kind: match e.external() { External::Function(_) => ImportKind::Function,
            External::Table(_) => ImportKind::Table, External::Memory(_) => ImportKind::Memory,
            External::Global(_) => ImportKind::Global } }).collect())
}

/// Deserializes the bytes into the library's module representation, or
/// hands back the deserializer's failure message.
pub(crate) fn parse_module(code: &[u8]) -> (r: Result<Module, String>)
    ensures
        r is Ok <==> parse_wasm(code@) is Ok,
        r matches Ok(m) ==> parse_wasm(code@) matches Ok(d) && m == d,
        r matches Err(e) ==> parse_wasm(code@) matches Err(d) && e@ == d,
{
    match deserialize_wasm(code) {
        Ok(bm) => Ok(
            Module {
                memories: read_memories(&bm),
                exports: read_exports(&bm),
                imports: read_imports(&bm),
            },
        ),
        Err(e) => Err(e),
    }
}

} // verus!
