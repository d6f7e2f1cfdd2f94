use extism_py::analysis::{
    collect, collect_functions, find_imports_and_exports, function_definitions, get_export,
    get_export_decorator, get_import, get_import_fn_decorator, AnalysisError, Decorator,
    FunctionDef,
};
use extism_py::generate::generate;
use extism_py::manifest::{Export, ExportKind, Import};
use extism_py::types::ValueType;

fn attribute(base: &str, attr: &str) -> Decorator {
    Decorator::Attribute { base: Some(base.to_string()), attr: attr.to_string() }
}

fn call(base: &str, attr: &str, args: Vec<Option<&str>>) -> Decorator {
    Decorator::Call {
        base: Some(base.to_string()),
        attr: attr.to_string(),
        args: args.into_iter().map(|a| a.map(|s| s.to_string())).collect(),
    }
}

fn function(name: &str, arg_count: usize, has_return: bool, decorators: Vec<Decorator>) -> FunctionDef {
    FunctionDef { name: name.to_string(), arg_count, has_return, decorators }
}

fn plugin_export(name: &str) -> Export {
    Export::new(name.to_string(), vec![], vec![ValueType::Int32], ExportKind::PluginEntry)
}

#[test]
fn a_plugin_function_is_read_off_the_source() {
    let source = "import extism\n\n@extism.plugin_fn\ndef count_vowels():\n    pass\n";
    assert_eq!(
        find_imports_and_exports(source),
        Ok((vec![], vec![plugin_export("count_vowels")]))
    );
}

#[test]
fn the_function_definitions_of_a_source_are_listed_in_order() {
    let source = "\
import extism

x = 1

@extism.plugin_fn
def first():
    pass

def plain(a, b) -> int:
    return a

@extism.import_fn(\"host\", \"reverse\")
@other
def second(text: str): ...

class C:
    @extism.plugin_fn
    def method(self):
        pass
";
    assert_eq!(
        function_definitions(source),
        Ok(vec![
            function("first", 0, false, vec![attribute("extism", "plugin_fn")]),
            function("plain", 2, true, vec![]),
            function(
                "second",
                1,
                false,
                vec![call("extism", "import_fn", vec![Some("host"), Some("reverse")]), Decorator::Other]
            ),
        ])
    );
}

#[test]
fn decorators_that_are_no_attribute_of_a_name_are_of_no_account() {
    let source = "\
@plugin_fn
def bare():
    pass

@a.b.plugin_fn
def deep():
    pass

@make().plugin_fn
def made():
    pass

@import_fn(\"m\", \"n\")
def called():
    pass
";
    assert_eq!(
        function_definitions(source),
        Ok(vec![
            function("bare", 0, false, vec![Decorator::Other]),
            function(
                "deep",
                0,
                false,
                vec![Decorator::Attribute { base: None, attr: "plugin_fn".to_string() }]
            ),
            function(
                "made",
                0,
                false,
                vec![Decorator::Attribute { base: None, attr: "plugin_fn".to_string() }]
            ),
            function("called", 0, false, vec![Decorator::Other]),
        ])
    );
    assert_eq!(find_imports_and_exports(source), Ok((vec![], vec![])));
}

#[test]
fn arguments_that_are_no_string_constants_are_left_empty() {
    let source = "@extism.import_fn(name, 1, \"text\", b\"bytes\")\ndef f(): ...\n";
    assert_eq!(
        function_definitions(source),
        Ok(vec![function(
            "f",
            0,
            false,
            vec![call("extism", "import_fn", vec![None, None, Some("text"), None])]
        )])
    );
}

#[test]
fn imports_and_exports_of_a_source_keep_their_order() {
    let source = "\
import extism

@extism.import_fn(\"host\", \"b\")
def b(x, y) -> int: ...

@extism.shared_fn
def helper(n) -> str:
    return n

@extism.plugin_fn
def run():
    pass

@extism.import_fn(\"host\", \"a\")
def a(): ...

@extism.shared_fn
def quiet():
    pass
";
    assert_eq!(
        find_imports_and_exports(source),
        Ok((
            vec![
                Import::new(
                    "host".to_string(),
                    "b".to_string(),
                    vec![ValueType::Int64, ValueType::Int64],
                    vec![ValueType::Int64]
                ),
                Import::new("host".to_string(), "a".to_string(), vec![], vec![]),
            ],
            vec![
                Export::new(
                    "helper".to_string(),
                    vec![ValueType::Int64],
                    vec![ValueType::Int64],
                    ExportKind::SharedEntry
                ),
                plugin_export("run"),
                Export::new("quiet".to_string(), vec![], vec![], ExportKind::SharedEntry),
            ]
        ))
    );
}

#[test]
fn a_source_that_is_no_module_is_a_parse_error() {
    match find_imports_and_exports("def (:\n") {
        Err(AnalysisError::Parse { message }) => assert!(!message.is_empty()),
        other => panic!("expected a parse error, got {other:?}"),
    }
    assert!(matches!(function_definitions("def (:\n"), Err(AnalysisError::Parse { .. })));
}

#[test]
fn an_empty_source_declares_nothing() {
    assert_eq!(find_imports_and_exports(""), Ok((vec![], vec![])));
    assert_eq!(function_definitions(""), Ok(vec![]));
}

#[test]
fn a_called_export_decorator_is_an_error() {
    assert_eq!(
        find_imports_and_exports("@extism.plugin_fn()\ndef f():\n    pass\n"),
        Err(AnalysisError::PluginFnArguments)
    );
    assert_eq!(
        find_imports_and_exports("@extism.shared_fn(1)\ndef f():\n    pass\n"),
        Err(AnalysisError::SharedFnArguments)
    );
    assert_eq!(AnalysisError::PluginFnArguments.message(), "extism.plugin_fn takes no arguments");
    assert_eq!(AnalysisError::SharedFnArguments.message(), "extism.shared_fn takes no arguments");
}

#[test]
fn an_import_without_module_and_name_is_an_error() {
    assert_eq!(
        find_imports_and_exports("@extism.import_fn(\"host\")\ndef f(): ...\n"),
        Err(AnalysisError::InvalidImport)
    );
    assert_eq!(
        find_imports_and_exports("@extism.import_fn()\ndef f(): ...\n"),
        Err(AnalysisError::InvalidImport)
    );
    assert_eq!(
        find_imports_and_exports("@extism.import_fn(module, \"f\")\ndef f(): ...\n"),
        Err(AnalysisError::InvalidImport)
    );
    assert_eq!(
        AnalysisError::InvalidImport.message(),
        "Invalid import, import_fn must include a module name and function name"
    );
}

#[test]
fn the_error_of_the_first_faulty_function_is_reported() {
    let source = "\
@extism.plugin_fn
def fine():
    pass

@extism.shared_fn()
def first_fault():
    pass

@extism.import_fn()
def second_fault(): ...
";
    assert_eq!(find_imports_and_exports(source), Err(AnalysisError::SharedFnArguments));
}

#[test]
fn a_decorator_is_known_by_its_base_or_by_extism_and_its_attribute() {
    let f = |d: Decorator| function("f", 0, false, vec![d]);
    assert_eq!(get_export_decorator(&f(attribute("extism", "plugin_fn"))), Ok(Some(plugin_export("f"))));
    assert_eq!(get_export_decorator(&f(attribute("plugin_fn", "anything"))), Ok(Some(plugin_export("f"))));
    assert_eq!(get_export_decorator(&f(attribute("other", "plugin_fn"))), Ok(None));
    assert_eq!(get_export_decorator(&f(attribute("extism", "other"))), Ok(None));
    assert_eq!(
        get_export_decorator(&f(attribute("shared_fn", "x"))),
        Ok(Some(Export::new("f".to_string(), vec![], vec![], ExportKind::SharedEntry)))
    );
    assert_eq!(
        get_export_decorator(&f(Decorator::Attribute { base: None, attr: "plugin_fn".to_string() })),
        Ok(None)
    );
    assert_eq!(get_export_decorator(&f(Decorator::Other)), Ok(None));
    assert_eq!(
        get_export_decorator(&f(call("plugin_fn", "x", vec![]))),
        Err(AnalysisError::PluginFnArguments)
    );
    assert_eq!(
        get_export_decorator(&f(call("extism", "shared_fn", vec![]))),
        Err(AnalysisError::SharedFnArguments)
    );
    assert_eq!(get_export_decorator(&f(call("extism", "import_fn", vec![]))), Ok(None));
}

#[test]
fn the_first_export_decorator_decides() {
    let f = function(
        "f",
        0,
        true,
        vec![
            Decorator::Other,
            attribute("extism", "cache"),
            attribute("extism", "shared_fn"),
            attribute("extism", "plugin_fn"),
            call("extism", "plugin_fn", vec![]),
        ],
    );
    assert_eq!(
        get_export_decorator(&f),
        Ok(Some(Export::new(
            "f".to_string(),
            vec![],
            vec![ValueType::Int64],
            ExportKind::SharedEntry
        )))
    );
}

#[test]
fn a_shared_entry_has_the_signature_of_its_function() {
    let f = function("f", 3, true, vec![]);
    assert_eq!(
        get_export(&f, false),
        Export::new(
            "f".to_string(),
            vec![ValueType::Int64, ValueType::Int64, ValueType::Int64],
            vec![ValueType::Int64],
            ExportKind::SharedEntry
        )
    );
    let g = function("g", 1, false, vec![]);
    assert_eq!(
        get_export(&g, false),
        Export::new("g".to_string(), vec![ValueType::Int64], vec![], ExportKind::SharedEntry)
    );
    let h = function("h", 0, true, vec![]);
    assert_eq!(
        get_export(&h, false),
        Export::new("h".to_string(), vec![], vec![ValueType::Int64], ExportKind::SharedEntry)
    );
}

#[test]
fn a_plugin_entry_takes_nothing_whatever_its_function_takes() {
    let f = function("f", 3, true, vec![]);
    assert_eq!(get_export(&f, true), plugin_export("f"));
    let g = function("g", 1, false, vec![]);
    assert_eq!(get_export(&g, true), plugin_export("g"));
}

#[test]
fn a_shared_function_of_two_parameters_is_exported_with_two() {
    let source = "import extism

@extism.shared_fn
def add(a, b) -> int:
    return a + b
";
    assert_eq!(
        find_imports_and_exports(source),
        Ok((
            vec![],
            vec![Export::new(
                "add".to_string(),
                vec![ValueType::Int64, ValueType::Int64],
                vec![ValueType::Int64],
                ExportKind::SharedEntry
            )]
        ))
    );
}

#[test]
fn an_import_takes_one_integer_for_each_parameter() {
    let f = function("f", 3, true, vec![]);
    let args = vec![Some("host".to_string()), Some("reverse".to_string()), None];
    assert_eq!(
        get_import(&f, &args),
        Ok(Import::new(
            "host".to_string(),
            "reverse".to_string(),
            vec![ValueType::Int64; 3],
            vec![ValueType::Int64]
        ))
    );
    let g = function("g", 0, false, vec![]);
    assert_eq!(
        get_import(&g, &args),
        Ok(Import::new("host".to_string(), "reverse".to_string(), vec![], vec![]))
    );
    assert_eq!(get_import(&f, &vec![None, Some("n".to_string())]), Err(AnalysisError::InvalidImport));
    assert_eq!(get_import(&f, &vec![Some("m".to_string()), None]), Err(AnalysisError::InvalidImport));
    assert_eq!(get_import(&f, &vec![Some("m".to_string())]), Err(AnalysisError::InvalidImport));
    assert_eq!(get_import(&f, &vec![]), Err(AnalysisError::InvalidImport));
}

#[test]
fn the_first_import_decorator_decides() {
    let f = function(
        "f",
        1,
        false,
        vec![
            attribute("extism", "import_fn"),
            call("other", "import_fn", vec![Some("x"), Some("y")]),
            call("import_fn", "whatever", vec![Some("m"), Some("n")]),
            call("extism", "import_fn", vec![]),
        ],
    );
    assert_eq!(
        get_import_fn_decorator(&f),
        Ok(Some(Import::new("m".to_string(), "n".to_string(), vec![ValueType::Int64], vec![])))
    );
    assert_eq!(get_import_fn_decorator(&function("g", 0, false, vec![])), Ok(None));
    assert_eq!(
        get_import_fn_decorator(&function("h", 0, false, vec![call("extism", "import_fn", vec![])])),
        Err(AnalysisError::InvalidImport)
    );
}

#[test]
fn an_import_decorator_wins_over_an_export_decorator() {
    let f = function(
        "f",
        0,
        false,
        vec![attribute("extism", "plugin_fn"), call("extism", "import_fn", vec![Some("m"), Some("n")])],
    );
    let mut exports = vec![];
    let mut imports = vec![];
    assert_eq!(collect(&f, &mut exports, &mut imports), Ok(()));
    assert_eq!(imports, vec![Import::new("m".to_string(), "n".to_string(), vec![], vec![])]);
    assert_eq!(exports, vec![]);
}

#[test]
fn collecting_adds_to_what_is_there_and_nothing_on_an_error() {
    let mut exports = vec![plugin_export("before")];
    let mut imports = vec![];
    let f = function("f", 0, false, vec![attribute("extism", "plugin_fn")]);
    assert_eq!(collect(&f, &mut exports, &mut imports), Ok(()));
    assert_eq!(exports, vec![plugin_export("before"), plugin_export("f")]);
    let plain = function("plain", 0, false, vec![Decorator::Other]);
    assert_eq!(collect(&plain, &mut exports, &mut imports), Ok(()));
    let bad = function("bad", 0, false, vec![call("extism", "plugin_fn", vec![])]);
    assert_eq!(collect(&bad, &mut exports, &mut imports), Err(AnalysisError::PluginFnArguments));
    assert_eq!(exports, vec![plugin_export("before"), plugin_export("f")]);
    assert_eq!(imports, vec![]);
}

#[test]
fn functions_are_collected_in_order() {
    let functions = vec![
        function("a", 0, false, vec![attribute("extism", "plugin_fn")]),
        function("b", 2, true, vec![call("extism", "import_fn", vec![Some("m"), Some("b")])]),
        function("c", 0, false, vec![]),
        function("d", 0, false, vec![attribute("extism", "shared_fn")]),
    ];
    assert_eq!(
        collect_functions(&functions),
        Ok((
            vec![Import::new(
                "m".to_string(),
                "b".to_string(),
                vec![ValueType::Int64; 2],
                vec![ValueType::Int64]
            )],
            vec![
                plugin_export("a"),
                Export::new("d".to_string(), vec![], vec![], ExportKind::SharedEntry)
            ]
        ))
    );
    assert_eq!(collect_functions(&vec![]), Ok((vec![], vec![])));
}

#[test]
fn a_plugin_that_counts_vowels_gets_a_shim_with_its_entry() {
    let source = "\
import extism

@extism.plugin_fn
def count_vowels():
    text = extism.input_str()
    extism.output_str(str(sum(1 for c in text if c in \"aeiouAEIOU\")))
";
    let (imports, exports) = find_imports_and_exports(source).unwrap();
    assert_eq!(exports, vec![plugin_export("count_vowels")]);
    let bytes = generate(&exports, &imports).unwrap();
    assert!(wagen::validate(&bytes).is_ok());
}

#[test]
fn the_manifest_of_a_source_is_what_its_definitions_declare() {
    let sources = [
        "",
        "x = 1\n",
        "import extism\n\n@extism.plugin_fn\ndef run():\n    pass\n",
        "import extism\n\n@extism.import_fn(\"host\", \"get\")\ndef get(key) -> str: ...\n\n@extism.shared_fn\ndef twice(n) -> int:\n    return n\n",
        "import extism\n\n@extism.plugin_fn()\ndef run():\n    pass\n",
        "import extism\n\n@extism.import_fn(\"host\")\ndef get(): ...\n",
    ];
    for source in sources {
        let definitions = function_definitions(source).unwrap();
        assert_eq!(find_imports_and_exports(source), collect_functions(&definitions));
    }
}

#[test]
fn the_words_of_a_source_that_is_too_long() {
    assert_eq!(AnalysisError::TooLong.message(), "The source is too long to be parsed");
}
