use extism_py::generate::{generate, generate_shim};
use extism_py::manifest::{Export, ExportKind, Import, Manifest};
use extism_py::shim::GenerateError;
use extism_py::types::ValueType;
use wagen::parser::{
    CompositeInnerType, ElementItems, ElementKind, ExternalKind, Operator, Parser, Payload,
    TypeRef, ValType,
};

struct Parsed {
    types: Vec<(Vec<ValType>, Vec<ValType>)>,
    imports: Vec<(String, String, u32)>,
    functions: Vec<u32>,
    tables: Vec<(u64, Option<u64>)>,
    exports: Vec<(String, u32)>,
    elements: Vec<(Option<u32>, Vec<u32>)>,
    bodies: Vec<Vec<String>>,
}

fn read(bytes: &[u8]) -> Parsed {
    let mut module = Parsed {
        types: vec![],
        imports: vec![],
        functions: vec![],
        tables: vec![],
        exports: vec![],
        elements: vec![],
        bodies: vec![],
    };
    for payload in Parser::new(0).parse_all(bytes) {
        match payload.unwrap() {
            Payload::TypeSection(reader) => {
                for group in reader {
                    for ty in group.unwrap().into_types() {
                        match ty.composite_type.inner {
                            CompositeInnerType::Func(f) => {
                                module.types.push((f.params().to_vec(), f.results().to_vec()))
                            }
                            _ => panic!("a type that is no function type"),
                        }
                    }
                }
            }
            Payload::ImportSection(reader) => {
                for import in reader {
                    let import = import.unwrap();
                    match import.ty {
                        TypeRef::Func(ty) => module.imports.push((
                            import.module.to_string(),
                            import.name.to_string(),
                            ty,
                        )),
                        _ => panic!("an import that is no function"),
                    }
                }
            }
            Payload::FunctionSection(reader) => {
                for ty in reader {
                    module.functions.push(ty.unwrap());
                }
            }
            Payload::TableSection(reader) => {
                for table in reader {
                    let table = table.unwrap();
                    module.tables.push((table.ty.initial, table.ty.maximum));
                }
            }
            Payload::ExportSection(reader) => {
                for export in reader {
                    let export = export.unwrap();
                    assert_eq!(export.kind, ExternalKind::Func);
                    module.exports.push((export.name.to_string(), export.index));
                }
            }
            Payload::ElementSection(reader) => {
                for element in reader {
                    let element = element.unwrap();
                    let table = match element.kind {
                        ElementKind::Active { table_index, .. } => table_index,
                        _ => panic!("an element segment that is not active"),
                    };
                    let items = match element.items {
                        ElementItems::Functions(items) => items.into_iter().map(|i| i.unwrap()).collect(),
                        _ => panic!("an element segment of expressions"),
                    };
                    module.elements.push((table, items));
                }
            }
            Payload::CodeSectionEntry(body) => {
                let mut operators = vec![];
                for operator in body.get_operators_reader().unwrap() {
                    operators.push(match operator.unwrap() {
                        Operator::LocalGet { local_index } => format!("local.get {local_index}"),
                        Operator::I32Const { value } => format!("i32.const {value}"),
                        Operator::Call { function_index } => format!("call {function_index}"),
                        Operator::CallIndirect { type_index, table_index } => {
                            format!("call_indirect {type_index} {table_index}")
                        }
                        Operator::End => "end".to_string(),
                        other => panic!("unexpected operator {other:?}"),
                    });
                }
                module.bodies.push(operators);
            }
            _ => {}
        }
    }
    module
}

fn plugin_entry(name: &str) -> Export {
    Export::new(name.to_string(), vec![], vec![ValueType::Int32], ExportKind::PluginEntry)
}

fn shared_entry(name: &str, params: Vec<ValueType>, results: Vec<ValueType>) -> Export {
    Export::new(name.to_string(), params, results, ExportKind::SharedEntry)
}

fn host_import(module: &str, name: &str, params: usize, has_result: bool) -> Import {
    Import::new(
        module.to_string(),
        name.to_string(),
        vec![ValueType::Int64; params],
        if has_result { vec![ValueType::Int64] } else { vec![] },
    )
}

fn bridge_imports() -> Vec<(String, String)> {
    [
        "__arg_start",
        "__arg_i32",
        "__arg_i64",
        "__arg_f32",
        "__arg_f64",
        "__invoke",
        "__invoke_i64",
        "__invoke_i32",
    ]
    .iter()
    .map(|name| ("core".to_string(), name.to_string()))
    .collect()
}

#[test]
fn generates_a_valid_module_for_one_plugin_entry() {
    let bytes = generate(&vec![plugin_entry("count_vowels")], &vec![]).unwrap();
    assert!(wagen::validate(&bytes).is_ok());
    assert_eq!(&bytes[0..4], b"\0asm");
    let module = read(&bytes);
    assert_eq!(module.exports.len(), 13);
    assert_eq!(module.exports[12], ("count_vowels".to_string(), 8 + 12));
    let ty = module.functions[12] as usize;
    assert_eq!(module.types[ty], (vec![], vec![ValType::I32]));
    assert_eq!(
        module.bodies[12],
        vec!["call 0", "i32.const 0", "i32.const 0", "call 7", "end"]
    );
}

#[test]
fn imports_are_the_bridge_functions_then_the_host_functions_in_table_order() {
    let imports = vec![
        host_import("zeta", "last", 1, true),
        host_import("alpha", "second", 2, false),
        host_import("alpha", "first", 0, true),
    ];
    let bytes = generate(&vec![plugin_entry("run")], &imports).unwrap();
    let module = read(&bytes);
    let names: Vec<(String, String)> =
        module.imports.iter().map(|(m, n, _)| (m.clone(), n.clone())).collect();
    let mut expected = bridge_imports();
    expected.push(("alpha".to_string(), "first".to_string()));
    expected.push(("alpha".to_string(), "second".to_string()));
    expected.push(("zeta".to_string(), "last".to_string()));
    assert_eq!(names, expected);
    let signature = |i: usize| module.types[module.imports[i].2 as usize].clone();
    assert_eq!(signature(0), (vec![], vec![]));
    assert_eq!(signature(1), (vec![ValType::I32], vec![]));
    assert_eq!(signature(2), (vec![ValType::I64], vec![]));
    assert_eq!(signature(3), (vec![ValType::F32], vec![]));
    assert_eq!(signature(4), (vec![ValType::F64], vec![]));
    assert_eq!(signature(5), (vec![ValType::I32, ValType::I32], vec![]));
    assert_eq!(signature(6), (vec![ValType::I32, ValType::I32], vec![ValType::I64]));
    assert_eq!(signature(7), (vec![ValType::I32, ValType::I32], vec![ValType::I32]));
    assert_eq!(signature(8), (vec![], vec![ValType::I64]));
    assert_eq!(signature(9), (vec![ValType::I64, ValType::I64], vec![]));
    assert_eq!(signature(10), (vec![ValType::I64], vec![ValType::I64]));
}

#[test]
fn the_table_holds_one_slot_for_each_host_import_in_table_order() {
    let imports = vec![host_import("b", "g", 0, false), host_import("a", "f", 0, false)];
    let bytes = generate(&vec![plugin_entry("run")], &imports).unwrap();
    let module = read(&bytes);
    assert_eq!(module.tables, vec![(2, None)]);
    assert_eq!(module.elements, vec![(Some(0), vec![8, 9])]);
    assert_eq!(module.imports[8].1, "f");
    assert_eq!(module.imports[9].1, "g");
}

#[test]
fn a_shim_without_host_imports_has_an_empty_table() {
    let bytes = generate(&vec![plugin_entry("run")], &vec![]).unwrap();
    let module = read(&bytes);
    assert_eq!(module.tables, vec![(0, None)]);
    assert_eq!(module.elements, vec![(Some(0), vec![])]);
    assert_eq!(module.imports.len(), 8);
}

#[test]
fn the_twelve_trampolines_forward_their_operands_through_the_table() {
    let imports = vec![host_import("host", "f", 3, true)];
    let bytes = generate(&vec![plugin_entry("run")], &imports).unwrap();
    let module = read(&bytes);
    for p in 0..=5usize {
        for q in 0..=1usize {
            let k = 2 * p + q;
            let (name, index) = &module.exports[k];
            assert_eq!(name, &format!("__invokeHostFunc_{p}_{q}"));
            assert_eq!(*index as usize, 9 + k);
            let mut params = vec![ValType::I32];
            params.extend(vec![ValType::I64; p]);
            assert_eq!(
                module.types[module.functions[k] as usize],
                (params, vec![ValType::I64; q])
            );
            let mut body: Vec<String> = (1..=p).map(|i| format!("local.get {i}")).collect();
            body.push("local.get 0".to_string());
            let indirect = 9 + 2 * k;
            body.push(format!("call_indirect {indirect} 0"));
            body.push("end".to_string());
            assert_eq!(module.bodies[k], body);
            assert_eq!(module.types[indirect], (vec![ValType::I64; p], vec![ValType::I64; q]));
        }
    }
}

#[test]
fn the_trampoline_for_three_operands_and_a_result_makes_one_indirect_call() {
    let bytes = generate(&vec![plugin_entry("run")], &vec![]).unwrap();
    let module = read(&bytes);
    let k = 2 * 3 + 1;
    assert_eq!(module.exports[k].0, "__invokeHostFunc_3_1");
    let body = &module.bodies[k];
    assert_eq!(body.iter().filter(|op| op.starts_with("call_indirect")).count(), 1);
    assert_eq!(
        body,
        &vec!["local.get 1", "local.get 2", "local.get 3", "local.get 0", "call_indirect 22 0", "end"]
    );
    assert_eq!(module.types[22], (vec![ValType::I64; 3], vec![ValType::I64]));
}

#[test]
fn exports_keep_their_names_signatures_and_order() {
    let exports = vec![
        plugin_entry("first"),
        shared_entry("second", vec![ValueType::Int32, ValueType::Int64], vec![ValueType::Int64]),
        shared_entry("third", vec![ValueType::Float32, ValueType::Float64], vec![]),
    ];
    let bytes = generate(&exports, &vec![host_import("h", "f", 1, false)]).unwrap();
    let module = read(&bytes);
    let own: Vec<(String, u32)> = module.exports[12..].to_vec();
    assert_eq!(
        own,
        vec![
            ("first".to_string(), 21),
            ("second".to_string(), 22),
            ("third".to_string(), 23)
        ]
    );
    let signature = |k: usize| module.types[module.functions[12 + k] as usize].clone();
    assert_eq!(signature(0), (vec![], vec![ValType::I32]));
    assert_eq!(signature(1), (vec![ValType::I32, ValType::I64], vec![ValType::I64]));
    assert_eq!(signature(2), (vec![ValType::F32, ValType::F64], vec![]));
    assert_eq!(
        module.bodies[13],
        vec![
            "call 0",
            "local.get 0",
            "call 1",
            "local.get 1",
            "call 2",
            "i32.const 1",
            "i32.const 1",
            "call 6",
            "end"
        ]
    );
    assert_eq!(
        module.bodies[14],
        vec![
            "call 0",
            "local.get 0",
            "call 3",
            "local.get 1",
            "call 4",
            "i32.const 2",
            "i32.const 1",
            "call 5",
            "end"
        ]
    );
}

#[test]
fn two_results_are_rejected_with_the_name_of_the_export() {
    let export = shared_entry("pair", vec![], vec![ValueType::Int32, ValueType::Int32]);
    assert_eq!(
        generate(&vec![plugin_entry("first"), export], &vec![]),
        Err(GenerateError::MultipleResults { export: "pair".to_string() })
    );
}

#[test]
fn no_result_and_one_integer_result_are_accepted() {
    assert!(generate(&vec![shared_entry("none", vec![], vec![])], &vec![]).is_ok());
    assert!(generate(&vec![shared_entry("one", vec![], vec![ValueType::Int32])], &vec![]).is_ok());
    assert!(generate(&vec![shared_entry("wide", vec![], vec![ValueType::Int64])], &vec![]).is_ok());
}

#[test]
fn a_floating_point_result_is_rejected_with_the_name_of_the_export() {
    assert_eq!(
        generate(&vec![shared_entry("ratio", vec![], vec![ValueType::Float64])], &vec![]),
        Err(GenerateError::UnsupportedResult {
            export: "ratio".to_string(),
            result: ValueType::Float64
        })
    );
    assert_eq!(
        generate(&vec![shared_entry("half", vec![], vec![ValueType::Float32])], &vec![]),
        Err(GenerateError::UnsupportedResult {
            export: "half".to_string(),
            result: ValueType::Float32
        })
    );
}

#[test]
fn an_import_with_six_parameters_is_rejected_with_its_name() {
    assert_eq!(
        generate(&vec![plugin_entry("run")], &vec![host_import("host", "many", 6, false)]),
        Err(GenerateError::UnsupportedImport {
            module: "host".to_string(),
            name: "many".to_string()
        })
    );
    assert!(generate(&vec![plugin_entry("run")], &vec![host_import("host", "five", 5, true)]).is_ok());
}

#[test]
fn an_import_with_two_results_is_rejected_before_any_export() {
    let import = Import::new(
        "host".to_string(),
        "pair".to_string(),
        vec![],
        vec![ValueType::Int64, ValueType::Int64],
    );
    let export = shared_entry("pair", vec![], vec![ValueType::Int32, ValueType::Int32]);
    assert_eq!(
        generate(&vec![export], &vec![import]),
        Err(GenerateError::UnsupportedImport {
            module: "host".to_string(),
            name: "pair".to_string()
        })
    );
}

#[test]
fn two_exports_of_one_name_make_an_invalid_module() {
    match generate(&vec![plugin_entry("twice"), plugin_entry("twice")], &vec![]) {
        Err(GenerateError::Invalid { message }) => assert!(!message.is_empty()),
        other => panic!("expected an invalid module, got {other:?}"),
    }
}

#[test]
fn an_export_named_like_a_trampoline_makes_an_invalid_module() {
    assert!(matches!(
        generate(&vec![plugin_entry("__invokeHostFunc_0_0")], &vec![]),
        Err(GenerateError::Invalid { .. })
    ));
}

#[test]
fn a_module_above_the_weight_limit_is_too_large() {
    let name = "a".repeat(17_000_000);
    assert_eq!(generate(&vec![plugin_entry(&name)], &vec![]), Err(GenerateError::TooLarge));
}

#[test]
fn the_same_manifest_gives_the_same_bytes() {
    let exports = vec![plugin_entry("run"), shared_entry("helper", vec![ValueType::Int64], vec![])];
    let imports = vec![host_import("a", "f", 1, true), host_import("b", "g", 2, false)];
    assert_eq!(generate(&exports, &imports), generate(&exports, &imports));
}

#[test]
fn the_order_in_which_imports_are_declared_does_not_change_the_bytes() {
    let exports = vec![plugin_entry("run")];
    let forward = vec![
        host_import("a", "f", 1, true),
        host_import("a", "g", 0, false),
        host_import("b", "f", 2, false),
    ];
    let backward: Vec<Import> = forward.iter().rev().cloned().collect();
    assert_eq!(generate(&exports, &forward), generate(&exports, &backward));
}

#[test]
fn the_bytes_depend_on_the_manifest() {
    let one = generate(&vec![plugin_entry("one")], &vec![]).unwrap();
    let other = generate(&vec![plugin_entry("other")], &vec![]).unwrap();
    assert_ne!(one, other);
    let with_import =
        generate(&vec![plugin_entry("one")], &vec![host_import("h", "f", 0, false)]).unwrap();
    assert_ne!(one, with_import);
}

#[test]
fn generation_errors_name_what_they_are_about() {
    assert_eq!(
        GenerateError::MultipleResults { export: "pair".to_string() }.message(),
        "Multiple return arguments are not currently supported but used in exported function pair"
    );
    assert_eq!(
        GenerateError::UnsupportedResult { export: "ratio".to_string(), result: ValueType::Float32 }
            .message(),
        "Unsupported result type: F32 in exported function ratio"
    );
    assert_eq!(
        GenerateError::UnsupportedImport { module: "host".to_string(), name: "many".to_string() }
            .message(),
        "Unsupported arity of imported function host.many"
    );
    assert_eq!(GenerateError::TooLarge.message(), "The shim module would be too large");
    assert_eq!(
        GenerateError::Invalid { message: "duplicate export".to_string() }.message(),
        "Invalid shim module: duplicate export"
    );
}

#[test]
fn a_manifest_gives_the_shim_of_its_exports_and_imports() {
    let exports = vec![plugin_entry("run")];
    let imports = vec![host_import("h", "f", 2, true)];
    let manifest = Manifest::new(exports.clone(), imports.clone());
    assert_eq!(manifest, Manifest { exports: exports.clone(), imports: imports.clone() });
    assert_eq!(generate_shim(&manifest), generate(&exports, &imports));
    let bad = Manifest::new(vec![shared_entry("f", vec![], vec![ValueType::Float32])], vec![]);
    assert_eq!(
        generate_shim(&bad),
        Err(GenerateError::UnsupportedResult { export: "f".to_string(), result: ValueType::Float32 })
    );
}
