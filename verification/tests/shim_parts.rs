use extism_py::manifest::{compare_imports, copy_types, sort_imports, Export, ExportKind, Import};
use extism_py::shim::{
    body_of_entry, body_of_trampoline, check_manifest, dispatch_function, name_of_trampoline,
    params_of_trampoline, push_function, repeat_int64, supports_import, Bridge, BridgeIndices,
    GenerateError, Instruction,
};
use extism_py::text::{compare_bytes, compare_text, Order};
use extism_py::types::ValueType;

fn standard() -> BridgeIndices {
    BridgeIndices {
        arg_start: 0,
        arg_i32: 1,
        arg_i64: 2,
        arg_f32: 3,
        arg_f64: 4,
        invoke: 5,
        invoke_i64: 6,
        invoke_i32: 7,
    }
}

fn import(module: &str, name: &str) -> Import {
    Import::new(module.to_string(), name.to_string(), vec![], vec![])
}

#[test]
fn bytes_compare_by_the_first_difference() {
    assert_eq!(compare_bytes(b"abc", b"abd"), Order::Less);
    assert_eq!(compare_bytes(b"abd", b"abc"), Order::Greater);
    assert_eq!(compare_bytes(b"abc", b"abc"), Order::Equal);
    assert_eq!(compare_bytes(b"", b""), Order::Equal);
}

#[test]
fn a_proper_prefix_comes_first() {
    assert_eq!(compare_bytes(b"ab", b"abc"), Order::Less);
    assert_eq!(compare_bytes(b"abc", b"ab"), Order::Greater);
    assert_eq!(compare_bytes(b"", b"a"), Order::Less);
}

#[test]
fn text_compares_as_str_does() {
    let words = ["", "a", "ab", "b", "extism", "Extism", "\u{e9}", "z", "\u{1F600}", "zz"];
    for a in words {
        for b in words {
            let expected = match a.cmp(b) {
                std::cmp::Ordering::Less => Order::Less,
                std::cmp::Ordering::Equal => Order::Equal,
                std::cmp::Ordering::Greater => Order::Greater,
            };
            assert_eq!(compare_text(a, b), expected, "{a:?} against {b:?}");
        }
    }
}

#[test]
fn imports_compare_by_module_then_by_name() {
    assert_eq!(compare_imports(&import("a", "z"), &import("b", "a")), Order::Less);
    assert_eq!(compare_imports(&import("a", "b"), &import("a", "a")), Order::Greater);
    assert_eq!(compare_imports(&import("a", "a"), &import("a", "a")), Order::Equal);
    assert_eq!(compare_imports(&import("a", "bc"), &import("ab", "a")), Order::Less);
}

#[test]
fn sorting_puts_imports_in_table_order() {
    let sorted = sort_imports(&vec![
        import("b", "x"),
        import("a", "y"),
        import("c", "a"),
        import("a", "x"),
    ]);
    assert_eq!(
        sorted,
        vec![import("a", "x"), import("a", "y"), import("b", "x"), import("c", "a")]
    );
    assert_eq!(sort_imports(&vec![]), vec![]);
}

#[test]
fn sorting_keeps_every_import_and_the_order_of_equals() {
    let first = Import::new("m".to_string(), "f".to_string(), vec![ValueType::Int64], vec![]);
    let second = Import::new("m".to_string(), "f".to_string(), vec![], vec![ValueType::Int64]);
    let sorted = sort_imports(&vec![import("z", "z"), first.clone(), second.clone()]);
    assert_eq!(sorted, vec![first, second, import("z", "z")]);
}

#[test]
fn copies_are_equal_to_what_they_copy() {
    let types = vec![ValueType::Int32, ValueType::Float64];
    assert_eq!(copy_types(&types), types);
    let export = Export::new("e".to_string(), types.clone(), vec![], ExportKind::SharedEntry);
    assert_eq!(export.duplicate(), export);
    let import = Import::new("m".to_string(), "n".to_string(), types, vec![ValueType::Int64]);
    assert_eq!(import.duplicate(), import);
}

#[test]
fn value_types_have_their_names() {
    assert_eq!(ValueType::Int32.name(), "I32");
    assert_eq!(ValueType::Int64.name(), "I64");
    assert_eq!(ValueType::Float32.name(), "F32");
    assert_eq!(ValueType::Float64.name(), "F64");
    assert!(ValueType::Int32.integer() && ValueType::Int64.integer());
    assert!(!ValueType::Float32.integer() && !ValueType::Float64.integer());
}

#[test]
fn the_bridge_functions_are_imported_from_core() {
    let all = Bridge::all();
    assert_eq!(
        all,
        vec![
            Bridge::ArgStart,
            Bridge::ArgI32,
            Bridge::ArgI64,
            Bridge::ArgF32,
            Bridge::ArgF64,
            Bridge::Invoke,
            Bridge::InvokeI64,
            Bridge::InvokeI32
        ]
    );
    assert_eq!(
        Bridge::ArgStart.declaration(),
        Import::new("core".to_string(), "__arg_start".to_string(), vec![], vec![])
    );
    assert_eq!(
        Bridge::ArgF32.declaration(),
        Import::new("core".to_string(), "__arg_f32".to_string(), vec![ValueType::Float32], vec![])
    );
    assert_eq!(
        Bridge::InvokeI64.declaration(),
        Import::new(
            "core".to_string(),
            "__invoke_i64".to_string(),
            vec![ValueType::Int32, ValueType::Int32],
            vec![ValueType::Int64]
        )
    );
    assert_eq!(
        Bridge::InvokeI32.declaration(),
        Import::new(
            "core".to_string(),
            "__invoke_i32".to_string(),
            vec![ValueType::Int32, ValueType::Int32],
            vec![ValueType::Int32]
        )
    );
    assert_eq!(
        Bridge::Invoke.declaration(),
        Import::new(
            "core".to_string(),
            "__invoke".to_string(),
            vec![ValueType::Int32, ValueType::Int32],
            vec![]
        )
    );
}

#[test]
fn bridge_indices_are_looked_up_by_function() {
    let indices = BridgeIndices {
        arg_start: 10,
        arg_i32: 11,
        arg_i64: 12,
        arg_f32: 13,
        arg_f64: 14,
        invoke: 15,
        invoke_i64: 16,
        invoke_i32: 17,
    };
    for (k, bridge) in Bridge::all().into_iter().enumerate() {
        assert_eq!(indices.index(bridge), 10 + k as u32);
    }
}

#[test]
fn each_value_type_has_its_push_function() {
    assert_eq!(push_function(ValueType::Int32), Bridge::ArgI32);
    assert_eq!(push_function(ValueType::Int64), Bridge::ArgI64);
    assert_eq!(push_function(ValueType::Float32), Bridge::ArgF32);
    assert_eq!(push_function(ValueType::Float64), Bridge::ArgF64);
}

#[test]
fn the_dispatch_function_follows_the_result() {
    let export = |results| Export::new("e".to_string(), vec![], results, ExportKind::SharedEntry);
    assert_eq!(dispatch_function(&export(vec![])), Ok(Bridge::Invoke));
    assert_eq!(dispatch_function(&export(vec![ValueType::Int32])), Ok(Bridge::InvokeI32));
    assert_eq!(dispatch_function(&export(vec![ValueType::Int64])), Ok(Bridge::InvokeI64));
    assert_eq!(
        dispatch_function(&export(vec![ValueType::Float32])),
        Err(GenerateError::UnsupportedResult { export: "e".to_string(), result: ValueType::Float32 })
    );
    assert_eq!(
        dispatch_function(&export(vec![ValueType::Float64, ValueType::Int32])),
        Err(GenerateError::MultipleResults { export: "e".to_string() })
    );
}

#[test]
fn trampolines_are_named_by_operands_and_result() {
    for p in 0..=5usize {
        assert_eq!(name_of_trampoline(p, false), format!("__invokeHostFunc_{p}_0"));
        assert_eq!(name_of_trampoline(p, true), format!("__invokeHostFunc_{p}_1"));
    }
}

#[test]
fn a_trampoline_takes_the_slot_and_its_operands() {
    assert_eq!(params_of_trampoline(0), vec![ValueType::Int32]);
    assert_eq!(
        params_of_trampoline(3),
        vec![ValueType::Int32, ValueType::Int64, ValueType::Int64, ValueType::Int64]
    );
    assert_eq!(repeat_int64(0), vec![]);
    assert_eq!(repeat_int64(2), vec![ValueType::Int64, ValueType::Int64]);
}

#[test]
fn a_trampoline_reads_its_operands_then_the_slot_then_calls() {
    assert_eq!(
        body_of_trampoline(0, 40, 0),
        vec![Instruction::LocalGet(0), Instruction::CallIndirect { type_index: 40, table_index: 0 }]
    );
    assert_eq!(
        body_of_trampoline(3, 7, 2),
        vec![
            Instruction::LocalGet(1),
            Instruction::LocalGet(2),
            Instruction::LocalGet(3),
            Instruction::LocalGet(0),
            Instruction::CallIndirect { type_index: 7, table_index: 2 }
        ]
    );
    assert_eq!(body_of_trampoline(5, 0, 0).len(), 7);
}

#[test]
fn a_plugin_entry_opens_a_frame_and_dispatches_with_flag_zero() {
    let export = Export::new("run".to_string(), vec![], vec![ValueType::Int32], ExportKind::PluginEntry);
    assert_eq!(
        body_of_entry(&export, 4, &standard()),
        Ok(vec![
            Instruction::Call(0),
            Instruction::I32Const(4),
            Instruction::I32Const(0),
            Instruction::Call(7)
        ])
    );
}

#[test]
fn a_shared_entry_pushes_each_parameter_by_its_type() {
    let export = Export::new(
        "mix".to_string(),
        vec![ValueType::Int32, ValueType::Int64, ValueType::Float32, ValueType::Float64],
        vec![ValueType::Int64],
        ExportKind::SharedEntry,
    );
    assert_eq!(
        body_of_entry(&export, 0, &standard()),
        Ok(vec![
            Instruction::Call(0),
            Instruction::LocalGet(0),
            Instruction::Call(1),
            Instruction::LocalGet(1),
            Instruction::Call(2),
            Instruction::LocalGet(2),
            Instruction::Call(3),
            Instruction::LocalGet(3),
            Instruction::Call(4),
            Instruction::I32Const(0),
            Instruction::I32Const(1),
            Instruction::Call(6)
        ])
    );
}

#[test]
fn an_entry_without_result_dispatches_through_invoke() {
    let export = Export::new("quiet".to_string(), vec![], vec![], ExportKind::SharedEntry);
    let indices = BridgeIndices { invoke: 99, ..standard() };
    assert_eq!(
        body_of_entry(&export, 1, &indices),
        Ok(vec![
            Instruction::Call(0),
            Instruction::I32Const(1),
            Instruction::I32Const(1),
            Instruction::Call(99)
        ])
    );
}

#[test]
fn an_entry_with_a_faulty_result_has_no_body() {
    let export =
        Export::new("bad".to_string(), vec![], vec![ValueType::Float32], ExportKind::SharedEntry);
    assert_eq!(
        body_of_entry(&export, 0, &standard()),
        Err(GenerateError::UnsupportedResult { export: "bad".to_string(), result: ValueType::Float32 })
    );
}

#[test]
fn imports_are_supported_up_to_five_parameters_and_one_result() {
    let with = |params: usize, results: usize| {
        Import::new(
            "m".to_string(),
            "n".to_string(),
            vec![ValueType::Int64; params],
            vec![ValueType::Int64; results],
        )
    };
    assert!(supports_import(&with(0, 0)));
    assert!(supports_import(&with(5, 1)));
    assert!(!supports_import(&with(6, 0)));
    assert!(!supports_import(&with(0, 2)));
}

#[test]
fn the_first_unsupported_import_is_reported_before_any_export() {
    let bad_export =
        Export::new("e".to_string(), vec![], vec![ValueType::Float32], ExportKind::SharedEntry);
    let many = |name: &str| {
        Import::new("m".to_string(), name.to_string(), vec![ValueType::Int64; 6], vec![])
    };
    assert_eq!(
        check_manifest(&vec![bad_export.clone()], &vec![import("a", "ok"), many("x"), many("y")]),
        Err(GenerateError::UnsupportedImport { module: "m".to_string(), name: "x".to_string() })
    );
    assert_eq!(
        check_manifest(&vec![bad_export], &vec![import("a", "ok")]),
        Err(GenerateError::UnsupportedResult { export: "e".to_string(), result: ValueType::Float32 })
    );
    assert_eq!(check_manifest(&vec![], &vec![]), Ok(()));
}

#[test]
fn the_first_faulty_export_is_reported() {
    let export = |name: &str, results| {
        Export::new(name.to_string(), vec![], results, ExportKind::SharedEntry)
    };
    assert_eq!(
        check_manifest(
            &vec![
                export("fine", vec![ValueType::Int64]),
                export("two", vec![ValueType::Int32, ValueType::Int32]),
                export("float", vec![ValueType::Float64])
            ],
            &vec![]
        ),
        Err(GenerateError::MultipleResults { export: "two".to_string() })
    );
}
