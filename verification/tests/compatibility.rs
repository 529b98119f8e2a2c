use wasm_compat::{
    check_wasm, check_wasm_exports, check_wasm_features, check_wasm_imports, check_wasm_memories,
    required_exports_v010, required_features_from_module, required_ibc_exports,
    supported_imports_v010, ErrorKind, ImportEntry, ImportKind, MemoryInfo, Module,
    RejectionDetail,
};

fn default_features() -> Vec<String> {
    vec!["staking".to_string()]
}

fn module_with_memories(memories: Option<Vec<MemoryInfo>>) -> Module {
    Module { memories, exports: vec![], imports: vec![] }
}

fn module_with_exports(exports: &[&str]) -> Module {
    Module {
        memories: Some(vec![MemoryInfo { initial_pages: 1, maximum_pages: None }]),
        exports: exports.iter().map(|e| e.to_string()).collect(),
        imports: vec![],
    }
}

fn function_import(module: &str, name: &str) -> ImportEntry {
    ImportEntry { module: module.to_string(), name: name.to_string(), kind: ImportKind::Function }
}

fn expect_err(r: Result<(), RejectionDetail>) -> RejectionDetail {
    match r {
        Err(e) => e,
        Ok(_) => panic!("This must not succeeed"),
    }
}

#[test]
fn test_check_wasm() {
    // this is our reference check, must pass
    let wasm = wat::parse_str(
        r#"(module
        (memory 1)
        (type (func))
        (func (type 0) nop)
        (export "interface_version_8" (func 0))
        (export "allocate" (func 0))
        (export "deallocate" (func 0))
        (export "instantiate" (func 0))
    )"#,
    )
    .unwrap();
    check_wasm(&wasm, &default_features()).unwrap();
}

#[test]
fn test_check_wasm_corrupted_data() {
    let corrupted: Vec<u8> = vec![0x33, 0x22, 0x11, 0x00];
    let e = expect_err(check_wasm(&corrupted, &default_features()));
    assert_eq!(e.kind, ErrorKind::MalformedInput);
    assert!(e.msg.starts_with("Wasm bytecode could not be deserialized."));
}

#[test]
fn test_check_wasm_memories_ok() {
    let m = module_with_memories(Some(vec![MemoryInfo { initial_pages: 1, maximum_pages: None }]));
    check_wasm_memories(&m).unwrap()
}

#[test]
fn test_check_wasm_memories_no_memory() {
    let m = module_with_memories(None);
    let e = expect_err(check_wasm_memories(&m));
    assert_eq!(e.kind, ErrorKind::MissingMemorySection);
    assert!(e.msg.starts_with("Wasm contract doesn't have a memory section"));
}

#[test]
fn test_check_wasm_memories_two_memories() {
    let m = module_with_memories(Some(vec![
        MemoryInfo { initial_pages: 9, maximum_pages: None },
        MemoryInfo { initial_pages: 9, maximum_pages: None },
    ]));
    let e = expect_err(check_wasm_memories(&m));
    assert_eq!(e.kind, ErrorKind::InvalidMemoryCount);
    assert!(e.msg.starts_with("Wasm contract must contain exactly one memory"));
}

#[test]
fn test_check_wasm_memories_zero_memories() {
    // a memory section that is present but empty
    let m = module_with_memories(Some(vec![]));
    let e = expect_err(check_wasm_memories(&m));
    assert_eq!(e.kind, ErrorKind::InvalidMemoryCount);
    assert!(e.msg.starts_with("Wasm contract must contain exactly one memory"));
}

#[test]
fn test_check_wasm_memories_initial_size() {
    let ok = module_with_memories(Some(vec![MemoryInfo {
        initial_pages: 512,
        maximum_pages: None,
    }]));
    check_wasm_memories(&ok).unwrap();

    let too_big = module_with_memories(Some(vec![MemoryInfo {
        initial_pages: 513,
        maximum_pages: None,
    }]));
    let e = expect_err(check_wasm_memories(&too_big));
    assert_eq!(e.kind, ErrorKind::MemoryTooLarge);
    assert!(e.msg.starts_with("Wasm contract memory's minimum must not exceed 512 pages"));
}

#[test]
fn test_check_wasm_memories_maximum_size() {
    let m = module_with_memories(Some(vec![MemoryInfo {
        initial_pages: 1,
        maximum_pages: Some(5),
    }]));
    let e = expect_err(check_wasm_memories(&m));
    assert_eq!(e.kind, ErrorKind::MemoryMaximumMustBeUnset);
    assert!(e.msg.starts_with("Wasm contract memory's maximum must be unset"));
}

#[test]
fn test_check_wasm_exports() {
    // this is invalid, as it doesn't contain all required exports
    let m = module_with_exports(&["add_one"]);
    let e = expect_err(check_wasm_exports(&m, &required_exports_v010()));
    assert_eq!(e.kind, ErrorKind::MissingExport);
    assert!(
        e.msg.starts_with("Wasm contract doesn't have required export: \"cosmwasm_vm_version_3\"")
    );
}

#[test]
fn test_check_wasm_exports_of_old_contract() {
    // entry points of a contract built before the versioned interface
    let m = module_with_exports(&["allocate", "deallocate", "init", "handle", "query"]);
    let e = expect_err(check_wasm_exports(&m, &required_exports_v010()));
    assert_eq!(e.kind, ErrorKind::MissingExport);
    assert!(
        e.msg.starts_with("Wasm contract doesn't have required export: \"cosmwasm_vm_version_3\"")
    );
}

#[test]
fn missing_export_message_lists_requirements() {
    let m = module_with_exports(&[]);
    let e = expect_err(check_wasm_exports(&m, &required_exports_v010()));
    assert_eq!(
        e.msg,
        "Wasm contract doesn't have required export: \"cosmwasm_vm_version_3\". \
         Exports required by VM: [\"cosmwasm_vm_version_3\", \"query\", \"init\", \"handle\", \
         \"allocate\", \"deallocate\"]."
    );
}

#[test]
fn check_wasm_imports_ok() {
    let m = Module {
        memories: None,
        exports: vec![],
        imports: vec![
            function_import("env", "db_read"),
            function_import("env", "db_write"),
            function_import("env", "db_remove"),
            function_import("env", "canonicalize_address"),
            function_import("env", "humanize_address"),
        ],
    };
    check_wasm_imports(&m, &supported_imports_v010()).unwrap();
}

#[test]
fn check_wasm_imports_unknown_name() {
    let m = Module {
        memories: None,
        exports: vec![],
        imports: vec![function_import("env", "foobar")],
    };
    let e = expect_err(check_wasm_imports(&m, &supported_imports_v010()));
    assert_eq!(e.kind, ErrorKind::UnsupportedImport);
    assert!(e.msg.starts_with("Wasm contract requires unsupported import: \"env.foobar\""));
    assert!(e.msg.contains("\"env.db_read\""));
}

#[test]
fn test_check_wasm_imports_wrong_type() {
    let m = Module {
        memories: None,
        exports: vec![],
        imports: vec![ImportEntry {
            module: "env".to_string(),
            name: "db_read".to_string(),
            kind: ImportKind::Memory,
        }],
    };
    let e = expect_err(check_wasm_imports(&m, &supported_imports_v010()));
    assert_eq!(e.kind, ErrorKind::NonFunctionImport);
    assert!(e.msg.starts_with("Wasm contract requires non-function import: \"env.db_read\""));
}

#[test]
fn check_wasm_features_ok() {
    let m = module_with_exports(&[
        "requires_water",
        "requires_",
        "requires_nutrients",
        "require_milk",
        "REQUIRES_air",
        "requires_sun",
    ]);
    let supported = vec![
        "water".to_string(),
        "nutrients".to_string(),
        "sun".to_string(),
        "freedom".to_string(),
    ];
    check_wasm_features(&m, &supported).unwrap();
}

#[test]
fn check_wasm_features_fails_for_missing() {
    let m = module_with_exports(&[
        "requires_water",
        "requires_",
        "requires_nutrients",
        "require_milk",
        "REQUIRES_air",
        "requires_sun",
    ]);

    // Support set 1
    let supported = vec!["water".to_string(), "nutrients".to_string(), "freedom".to_string()];
    let e = expect_err(check_wasm_features(&m, &supported));
    assert_eq!(e.kind, ErrorKind::UnsupportedFeatures);
    assert_eq!(e.msg, "Wasm contract requires unsupported features: {\"sun\"}");

    // Support set 2: features are case sensitive (and lowercase by convention)
    let supported = vec!["nutrients".to_string(), "freedom".to_string(), "Water".to_string()];
    let e = expect_err(check_wasm_features(&m, &supported));
    assert_eq!(e.msg, "Wasm contract requires unsupported features: {\"sun\", \"water\"}");

    // Support set 3
    let supported = vec!["freedom".to_string()];
    let e = expect_err(check_wasm_features(&m, &supported));
    assert_eq!(e.msg, "Wasm contract requires unsupported features: {\"nutrients\", \"sun\", \"water\"}");

    // Support set 4
    let supported: Vec<String> = vec![];
    let e = expect_err(check_wasm_features(&m, &supported));
    assert_eq!(e.msg, "Wasm contract requires unsupported features: {\"nutrients\", \"sun\", \"water\"}");
}

#[test]
fn required_features_come_deduplicated_in_first_occurrence_order() {
    let m = module_with_exports(&["requires_b", "requires_a", "requires_b"]);
    let features = required_features_from_module(&m);
    assert_eq!(features, vec!["b".to_string(), "a".to_string()]);
}

#[test]
fn validate_reads_memory_from_bytes() {
    let wasm = wat::parse_str("(module (memory 513))").unwrap();
    let e = expect_err(check_wasm(&wasm, &default_features()));
    assert_eq!(e.kind, ErrorKind::MemoryTooLarge);
    assert!(e.msg.starts_with("Wasm contract memory's minimum must not exceed 512 pages."));

    let wasm = wat::parse_str("(module (memory 1 5))").unwrap();
    let e = expect_err(check_wasm(&wasm, &default_features()));
    assert_eq!(e.kind, ErrorKind::MemoryMaximumMustBeUnset);

    let wasm = wat::parse_str("(module)").unwrap();
    let e = expect_err(check_wasm(&wasm, &default_features()));
    assert_eq!(e.kind, ErrorKind::MissingMemorySection);
}

#[test]
fn validate_accepts_older_generation_module() {
    // satisfies the older generation in full; the newer generation's
    // export check fails, which must not matter
    let wasm = wat::parse_str(
        r#"(module
        (import "env" "db_read" (func (param i32 i32) (result i32)))
        (memory 1)
        (type (func))
        (func (type 0) nop)
        (export "cosmwasm_vm_version_3" (func 0))
        (export "query" (func 0))
        (export "init" (func 0))
        (export "handle" (func 0))
        (export "allocate" (func 0))
        (export "deallocate" (func 0))
    )"#,
    )
    .unwrap();
    check_wasm(&wasm, &default_features()).unwrap();
}

#[test]
fn validate_rejects_incompatible_module_with_all_causes() {
    let wasm = wat::parse_str(
        r#"(module
        (memory 1)
        (type (func))
        (func (type 0) nop)
        (export "add_one" (func 0))
    )"#,
    )
    .unwrap();
    let e = expect_err(check_wasm(&wasm, &default_features()));
    assert_eq!(e.kind, ErrorKind::NoCompatibleGeneration);
    assert!(e.msg.starts_with("Contract is not CosmWasm v0.10 or v1."));
    // all four generation-trial outcomes are aggregated: both export
    // failures and both (successful) import checks
    assert!(e.msg.contains("required export: \"cosmwasm_vm_version_3\""));
    assert!(e.msg.contains("required export: \"interface_version_8\""));
    assert_eq!(e.msg.matches("Ok(())").count(), 2);
}

#[test]
fn validate_twice_gives_identical_outcomes() {
    let corrupted: Vec<u8> = vec![0x00, 0x61, 0x73, 0x6d, 0xff];
    let e1 = expect_err(check_wasm(&corrupted, &default_features()));
    let e2 = expect_err(check_wasm(&corrupted, &default_features()));
    assert_eq!(e1.kind, e2.kind);
    assert_eq!(e1.msg, e2.msg);

    let wasm = wat::parse_str("(module (memory 1 2))").unwrap();
    let e1 = expect_err(check_wasm(&wasm, &default_features()));
    let e2 = expect_err(check_wasm(&wasm, &default_features()));
    assert_eq!(e1.kind, e2.kind);
    assert_eq!(e1.msg, e2.msg);
}

#[test]
fn ibc_entry_points_check_with_the_export_validator() {
    let m = module_with_exports(&[
        "ibc_channel_open",
        "ibc_channel_connect",
        "ibc_channel_close",
        "ibc_packet_receive",
        "ibc_packet_ack",
        "ibc_packet_timeout",
    ]);
    check_wasm_exports(&m, &required_ibc_exports()).unwrap();

    let partial = module_with_exports(&["ibc_channel_open"]);
    let e = expect_err(check_wasm_exports(&partial, &required_ibc_exports()));
    assert!(e.msg.starts_with("Wasm contract doesn't have required export: \"ibc_channel_connect\""));
}
