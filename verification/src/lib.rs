//! Compatibility gate for binary contract modules: before a module may be
//! instantiated by the host, its memory layout, imports, exports and
//! feature requirements are checked against the host's contract API.

pub mod exports;
pub mod features;
pub mod imports;
pub mod memory;
pub mod profiles;
pub mod render;
pub mod sortstr;
pub mod parse;
pub mod strcmp;
pub mod types;
pub mod validate;

pub use memory::{MEMORY_LIMIT, check_wasm_memories};
pub use exports::check_wasm_exports;
pub use imports::check_wasm_imports;
pub use features::{check_wasm_features, required_features_from_module};
pub use profiles::{
    required_exports_v010, required_exports_v1, required_ibc_exports, supported_imports_v010,
    supported_imports_v1,
};
pub use types::{ErrorKind, ImportEntry, ImportKind, MemoryInfo, Module, RejectionDetail};
pub use validate::check_wasm;
