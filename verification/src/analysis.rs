//! The manifest of a plugin, read off the decorators of the functions at the
//! top level of its source.

use crate::manifest::{Export, ExportKind, ExportView, Import, ImportView};
use crate::shim::{export_error, first_export_error, int64s, repeat_int64};
use crate::syntax::{
    attribute_of, attribute_parts, call_of, call_parts, function_definition, function_parts,
    module_statements, parse_module, string_constant, string_of, SOURCE_LIMIT,
};
use crate::types::ValueType;
use vstd::prelude::*;

verus! {

/// A decorator of a function definition, as far as the manifest depends on
/// it.
#[derive(Clone, Debug, PartialEq, Eq)]
pub enum Decorator {
    /// `base.attr(args)`: a call of an attribute. `base` is the name in front
    /// of the dot, if a plain name stands there. Each argument is the text of
    /// a string constant, or nothing where the argument is anything else.
    Call { base: Option<String>, attr: String, args: Vec<Option<String>> },
    /// `base.attr`: an attribute that is not called.
    Attribute { base: Option<String>, attr: String },
    /// Anything else.
    Other,
}

/// A function definition, as far as the manifest depends on it.
#[derive(Clone, Debug, PartialEq, Eq)]
pub struct FunctionDef {
    pub name: String,
    /// The number of parameters that can be passed by position or by name.
    pub arg_count: usize,
    /// Whether a return type is declared.
    pub has_return: bool,
    pub decorators: Vec<Decorator>,
}

/// Why no manifest can be read off a source.
#[derive(Clone, Debug, PartialEq, Eq)]
pub enum AnalysisError {
    /// The source is longer than the parser can read.
    TooLong,
    /// The source is no module of the language; holds the parser's words.
    Parse { message: String },
    /// An import decorator lacks the module or the name of the host function,
    /// or one of them is no string constant.
    InvalidImport,
    /// The decorator that marks a plugin entry was called.
    PluginFnArguments,
    /// The decorator that marks a shared entry was called.
    SharedFnArguments,
}

/// The kind of an error of the analysis.
#[derive(Clone, Copy, Debug, PartialEq, Eq, Structural)]
pub enum AnalysisErrorKind {
    TooLong,
    Parse,
    InvalidImport,
    PluginFnArguments,
    SharedFnArguments,
}

/// What a function definition adds to the manifest.
pub enum Declared {
    Import(ImportView),
    Export(ExportView),
    Nothing,
}

/// The words of an error for the user.
pub open spec fn analysis_error_text(error: AnalysisError) -> Seq<char> {
    match error {
        AnalysisError::TooLong => "The source is too long to be parsed"@,
        AnalysisError::Parse { message } => message@,
        AnalysisError::InvalidImport => "Invalid import, import_fn must include a module name and function name"@,
        AnalysisError::PluginFnArguments => "extism.plugin_fn takes no arguments"@,
        AnalysisError::SharedFnArguments => "extism.shared_fn takes no arguments"@,
    }
}

impl AnalysisError {
    /// The words of the error for the user.
    pub fn message(&self) -> (r: String)
        ensures
            r@ == analysis_error_text(*self),
    {
        match self {
            AnalysisError::TooLong => String::from_str("The source is too long to be parsed"),
            AnalysisError::Parse { message } => message.clone(),
            AnalysisError::InvalidImport => String::from_str(
                "Invalid import, import_fn must include a module name and function name",
            ),
            AnalysisError::PluginFnArguments => String::from_str(
                "extism.plugin_fn takes no arguments",
            ),
            AnalysisError::SharedFnArguments => String::from_str(
                "extism.shared_fn takes no arguments",
            ),
        }
    }

    /// The kind of the error.
    pub open spec fn kind(self) -> AnalysisErrorKind {
        match self {
            AnalysisError::TooLong => AnalysisErrorKind::TooLong,
            AnalysisError::Parse { .. } => AnalysisErrorKind::Parse,
            AnalysisError::InvalidImport => AnalysisErrorKind::InvalidImport,
            AnalysisError::PluginFnArguments => AnalysisErrorKind::PluginFnArguments,
            AnalysisError::SharedFnArguments => AnalysisErrorKind::SharedFnArguments,
        }
    }
}

/// Whether a decorator `base.attr` is the decorator `what`: `what` itself
/// stands in front of the dot, or `extism` does and `attr` is `what`.
pub open spec fn names(base: Option<String>, attr: String, what: Seq<char>) -> bool {
    base matches Some(name) && (name@ == what || (name@ == "extism"@ && attr@ == what))
}

/// Whether a decorator declares a host function.
pub open spec fn declares_import(decorator: Decorator) -> bool {
    decorator matches Decorator::Call { base, attr, args } && names(base, attr, "import_fn"@)
}

/// The results of a function that is reached with 64-bit integers: one
/// `Int64` if it returns anything.
pub open spec fn optional_int64(has_return: bool) -> Seq<ValueType> {
    if has_return {
        seq![ValueType::Int64]
    } else {
        seq![]
    }
}

/// The import that a function with an import decorator declares: the module
/// and name that the decorator's first two arguments give, one `Int64`
/// parameter for each parameter of the function, and an `Int64` result if
/// the function declares a return type.
pub open spec fn import_for(function: FunctionDef, args: Seq<Option<String>>) -> Result<
    ImportView,
    AnalysisErrorKind,
> {
    if args.len() >= 2 && args[0] is Some && args[1] is Some {
        Ok(
            ImportView {
                module: args[0]->0@,
                name: args[1]->0@,
                params: int64s(function.arg_count as int),
                results: optional_int64(function.has_return),
            },
        )
    } else {
        Err(AnalysisErrorKind::InvalidImport)
    }
}

/// The export that a function with an export decorator declares, under the
/// function's name. A plugin entry takes nothing and returns an `Int32`
/// status. A shared entry has the function's own signature: one `Int64`
/// parameter for each parameter of the function, and an `Int64` result if
/// the function declares a return type.
pub open spec fn export_for(function: FunctionDef, plugin_entry: bool) -> ExportView {
    ExportView {
        name: function.name@,
        params: if plugin_entry {
            seq![]
        } else {
            int64s(function.arg_count as int)
        },
        results: if plugin_entry {
            seq![ValueType::Int32]
        } else {
            optional_int64(function.has_return)
        },
        kind: if plugin_entry {
            ExportKind::PluginEntry
        } else {
            ExportKind::SharedEntry
        },
    }
}

/// The import that the first import decorator among `decorators` declares
/// for the function, if there is such a decorator.
pub open spec fn import_declared(function: FunctionDef, decorators: Seq<Decorator>) -> Result<
    Option<ImportView>,
    AnalysisErrorKind,
>
    decreases decorators.len(),
{
    if decorators.len() == 0 {
        Ok(None)
    } else if declares_import(decorators[0]) {
        match import_for(function, decorators[0]->Call_args@) {
            Ok(import) => Ok(Some(import)),
            Err(e) => Err(e),
        }
    } else {
        import_declared(function, decorators.drop_first())
    }
}

/// What an export decorator says, if the decorator is one: the export of a
/// plain `plugin_fn` or `shared_fn`, an error where either is called.
pub open spec fn export_decorator(function: FunctionDef, decorator: Decorator) -> Option<
    Result<ExportView, AnalysisErrorKind>,
> {
    match decorator {
        Decorator::Call { base, attr, args } => if names(base, attr, "plugin_fn"@) {
            Some(Err(AnalysisErrorKind::PluginFnArguments))
        } else if names(base, attr, "shared_fn"@) {
            Some(Err(AnalysisErrorKind::SharedFnArguments))
        } else {
            None
        },
        Decorator::Attribute { base, attr } => if names(base, attr, "plugin_fn"@) {
            Some(Ok(export_for(function, true)))
        } else if names(base, attr, "shared_fn"@) {
            Some(Ok(export_for(function, false)))
        } else {
            None
        },
        Decorator::Other => None,
    }
}

/// The export that the first export decorator among `decorators` declares
/// for the function, if there is such a decorator.
pub open spec fn export_declared(function: FunctionDef, decorators: Seq<Decorator>) -> Result<
    Option<ExportView>,
    AnalysisErrorKind,
>
    decreases decorators.len(),
{
    if decorators.len() == 0 {
        Ok(None)
    } else {
        match export_decorator(function, decorators[0]) {
            Some(Ok(export)) => Ok(Some(export)),
            Some(Err(e)) => Err(e),
            None => export_declared(function, decorators.drop_first()),
        }
    }
}

/// What a function definition adds to the manifest: the import of its import
/// decorator; else the export of its export decorator; else nothing.
pub open spec fn declared(function: FunctionDef) -> Result<Declared, AnalysisErrorKind> {
    match import_declared(function, function.decorators@) {
        Err(e) => Err(e),
        Ok(Some(import)) => Ok(Declared::Import(import)),
        Ok(None) => match export_declared(function, function.decorators@) {
            Err(e) => Err(e),
            Ok(Some(export)) => Ok(Declared::Export(export)),
            Ok(None) => Ok(Declared::Nothing),
        },
    }
}

/// The imports and exports that the function definitions declare, each list
/// in the order of the definitions; or the error of the first definition that
/// has one.
pub open spec fn collected(functions: Seq<FunctionDef>) -> Result<
    (Seq<ImportView>, Seq<ExportView>),
    AnalysisErrorKind,
>
    decreases functions.len(),
{
    if functions.len() == 0 {
        Ok((Seq::empty(), Seq::empty()))
    } else {
        match collected(functions.drop_last()) {
            Err(e) => Err(e),
            Ok((imports, exports)) => match declared(functions.last()) {
                Err(e) => Err(e),
                Ok(Declared::Import(import)) => Ok((imports.push(import), exports)),
                Ok(Declared::Export(export)) => Ok((imports, exports.push(export))),
                Ok(Declared::Nothing) => Ok((imports, exports)),
            },
        }
    }
}

/// Says whether a decorator `base.attr` is the decorator `what`.
fn is_named(base: &Option<String>, attr: &String, what: &str) -> (r: bool)
    ensures
        r == names(*base, *attr, what@),
{
    match base {
        Some(name) => {
            let wanted = String::from_str(what);
            let prefix = String::from_str("extism");
            *name == wanted || (*name == prefix && *attr == wanted)
        },
        None => false,
    }
}

/// One `Int64` if the function returns anything.
fn results_of(has_return: bool) -> (r: Vec<ValueType>)
    ensures
        r@ == optional_int64(has_return),
{
    let mut r: Vec<ValueType> = Vec::new();
    if has_return {
        r.push(ValueType::Int64);
    }
    assert(r@ =~= optional_int64(has_return));
    r
}

/// Builds the import that a function with an import decorator declares, from
/// the decorator's arguments.
pub fn get_import(f: &FunctionDef, args: &Vec<Option<String>>) -> (r: Result<Import, AnalysisError>)
    ensures
        match r {
            Ok(import) => import_for(*f, args@) == Ok::<ImportView, AnalysisErrorKind>(import@),
            Err(e) => import_for(*f, args@) == Err::<ImportView, AnalysisErrorKind>(e.kind()),
        },
{
    if args.len() < 2 {
        return Err(AnalysisError::InvalidImport);
    }
    match (&args[0], &args[1]) {
        (Some(module), Some(func)) => Ok(
            Import {
                module: module.clone(),
                name: func.clone(),
                params: repeat_int64(f.arg_count),
                results: results_of(f.has_return),
            },
        ),
        _ => Err(AnalysisError::InvalidImport),
    }
}

/// Builds the export that a function with an export decorator declares.
pub fn get_export(f: &FunctionDef, is_plugin_fn: bool) -> (r: Export)
    ensures
        r@ == export_for(*f, is_plugin_fn),
{
    let mut results: Vec<ValueType> = Vec::new();
    if is_plugin_fn {
        results.push(ValueType::Int32);
    } else if f.has_return {
        results.push(ValueType::Int64);
    }
    let params: Vec<ValueType> = if is_plugin_fn {
        Vec::new()
    } else {
        repeat_int64(f.arg_count)
    };
    assert(params@ =~= export_for(*f, is_plugin_fn).params);
    assert(results@ =~= export_for(*f, is_plugin_fn).results);
    Export {
        name: f.name.clone(),
        params,
        results,
        kind: if is_plugin_fn {
            ExportKind::PluginEntry
        } else {
            ExportKind::SharedEntry
        },
    }
}

/// Finds the import that the function's first import decorator declares.
pub fn get_import_fn_decorator(f: &FunctionDef) -> (r: Result<Option<Import>, AnalysisError>)
    ensures
        match r {
            Ok(Some(import)) => import_declared(*f, f.decorators@) == Ok::<
                Option<ImportView>,
                AnalysisErrorKind,
            >(Some(import@)),
            Ok(None) => import_declared(*f, f.decorators@) == Ok::<
                Option<ImportView>,
                AnalysisErrorKind,
            >(None),
            Err(e) => import_declared(*f, f.decorators@) == Err::<
                Option<ImportView>,
                AnalysisErrorKind,
            >(e.kind()),
        },
{
    let mut i: usize = 0;
    assert(f.decorators@.skip(0) =~= f.decorators@);
    while i < f.decorators.len()
        invariant
            i <= f.decorators.len(),
            import_declared(*f, f.decorators@) == import_declared(*f, f.decorators@.skip(i as int)),
        decreases f.decorators.len() - i,
    {
        proof {
            let rest = f.decorators@.skip(i as int);
            assert(rest[0] == f.decorators@[i as int]);
            assert(rest.drop_first() =~= f.decorators@.skip(i + 1));
        }
        match &f.decorators[i] {
            Decorator::Call { base, attr, args } => {
                if is_named(base, attr, "import_fn") {
                    return match get_import(f, args) {
                        Ok(import) => Ok(Some(import)),
                        Err(e) => Err(e),
                    };
                }
            },
            _ => {},
        }
        i += 1;
    }
    Ok(None)
}

/// Finds the export that the function's first export decorator declares.
pub fn get_export_decorator(f: &FunctionDef) -> (r: Result<Option<Export>, AnalysisError>)
    ensures
        match r {
            Ok(Some(export)) => export_declared(*f, f.decorators@) == Ok::<
                Option<ExportView>,
                AnalysisErrorKind,
            >(Some(export@)),
            Ok(None) => export_declared(*f, f.decorators@) == Ok::<
                Option<ExportView>,
                AnalysisErrorKind,
            >(None),
            Err(e) => export_declared(*f, f.decorators@) == Err::<
                Option<ExportView>,
                AnalysisErrorKind,
            >(e.kind()),
        },
{
    let mut i: usize = 0;
    assert(f.decorators@.skip(0) =~= f.decorators@);
    while i < f.decorators.len()
        invariant
            i <= f.decorators.len(),
            export_declared(*f, f.decorators@) == export_declared(*f, f.decorators@.skip(i as int)),
        decreases f.decorators.len() - i,
    {
        proof {
            let rest = f.decorators@.skip(i as int);
            assert(rest[0] == f.decorators@[i as int]);
            assert(rest.drop_first() =~= f.decorators@.skip(i + 1));
        }
        match &f.decorators[i] {
            Decorator::Call { base, attr, args } => {
                if is_named(base, attr, "plugin_fn") {
                    return Err(AnalysisError::PluginFnArguments);
                } else if is_named(base, attr, "shared_fn") {
                    return Err(AnalysisError::SharedFnArguments);
                }
            },
            Decorator::Attribute { base, attr } => {
                if is_named(base, attr, "plugin_fn") {
                    return Ok(Some(get_export(f, true)));
                } else if is_named(base, attr, "shared_fn") {
                    return Ok(Some(get_export(f, false)));
                }
            },
            Decorator::Other => {},
        }
        i += 1;
    }
    Ok(None)
}

/// Adds to the lists what a function definition declares.
pub fn collect(f: &FunctionDef, exports: &mut Vec<Export>, imports: &mut Vec<Import>) -> (r:
    Result<(), AnalysisError>)
    ensures
        match r {
            Ok(_) => match declared(*f) {
                Ok(Declared::Import(import)) => {
                    &&& final(imports)@.len() == old(imports)@.len() + 1
                    &&& final(imports)@.drop_last() == old(imports)@
                    &&& final(imports)@.last()@ == import
                    &&& final(exports)@ == old(exports)@
                },
                Ok(Declared::Export(export)) => {
                    &&& final(exports)@.len() == old(exports)@.len() + 1
                    &&& final(exports)@.drop_last() == old(exports)@
                    &&& final(exports)@.last()@ == export
                    &&& final(imports)@ == old(imports)@
                },
                Ok(Declared::Nothing) => final(imports)@ == old(imports)@ && final(exports)@
                    == old(exports)@,
                Err(_) => false,
            },
            Err(e) => declared(*f) matches Err(kind) && kind == e.kind() && final(imports)@ == old(
                imports,
            )@ && final(exports)@ == old(exports)@,
        },
{
    match get_import_fn_decorator(f) {
        Err(e) => Err(e),
        Ok(Some(import)) => {
            imports.push(import);
            assert(imports@.drop_last() =~= old(imports)@);
            Ok(())
        },
        Ok(None) => match get_export_decorator(f) {
            Err(e) => Err(e),
            Ok(Some(export)) => {
                exports.push(export);
                assert(exports@.drop_last() =~= old(exports)@);
                Ok(())
            },
            Ok(None) => Ok(()),
        },
    }
}

/// Collects the imports and exports that the function definitions declare.
pub fn collect_functions(functions: &Vec<FunctionDef>) -> (r: Result<
    (Vec<Import>, Vec<Export>),
    AnalysisError,
>)
    ensures
        match r {
            Ok((imports, exports)) => collected(functions@) == Ok::<
                (Seq<ImportView>, Seq<ExportView>),
                AnalysisErrorKind,
            >((crate::manifest::import_views(imports@), crate::manifest::export_views(exports@))),
            Err(e) => collected(functions@) == Err::<
                (Seq<ImportView>, Seq<ExportView>),
                AnalysisErrorKind,
            >(e.kind()),
        },
{
    let mut exports: Vec<Export> = Vec::new();
    let mut imports: Vec<Import> = Vec::new();
    let mut i: usize = 0;
    assert(functions@.take(0) =~= Seq::<FunctionDef>::empty());
    assert(crate::manifest::import_views(imports@) =~= Seq::<ImportView>::empty());
    assert(crate::manifest::export_views(exports@) =~= Seq::<ExportView>::empty());
    while i < functions.len()
        invariant
            i <= functions.len(),
            collected(functions@.take(i as int)) == Ok::<
                (Seq<ImportView>, Seq<ExportView>),
                AnalysisErrorKind,
            >((crate::manifest::import_views(imports@), crate::manifest::export_views(exports@))),
        decreases functions.len() - i,
    {
        let ghost imports_before = imports@;
        let ghost exports_before = exports@;
        proof {
            assert(functions@.take(i + 1).drop_last() =~= functions@.take(i as int));
            assert(functions@.take(i + 1).last() == functions@[i as int]);
        }
        match collect(&functions[i], &mut exports, &mut imports) {
            Ok(_) => {
                proof {
                    match declared(functions@[i as int]) {
                        Ok(Declared::Import(import)) => {
                            assert forall|k: int| 0 <= k < imports_before.len() implies imports@[k]
                                == imports_before[k] by {
                                assert(imports@.drop_last()[k] == imports@[k]);
                            }
                            assert(crate::manifest::import_views(imports@)
                                =~= crate::manifest::import_views(imports_before).push(import));
                        },
                        Ok(Declared::Export(export)) => {
                            assert forall|k: int| 0 <= k < exports_before.len() implies exports@[k]
                                == exports_before[k] by {
                                assert(exports@.drop_last()[k] == exports@[k]);
                            }
                            assert(crate::manifest::export_views(exports@)
                                =~= crate::manifest::export_views(exports_before).push(export));
                        },
                        _ => {},
                    }
                }
            },
            Err(e) => {
                proof {
                    lemma_error_stays(functions@, i + 1);
                }
                return Err(e);
            },
        }
        i += 1;
    }
    assert(functions@.take(functions.len() as int) =~= functions@);
    Ok((imports, exports))
}

/// An error among the first definitions is the error of all.
proof fn lemma_error_stays(functions: Seq<FunctionDef>, count: int)
    requires
        0 <= count <= functions.len(),
        collected(functions.take(count)) is Err,
    ensures
        collected(functions) == collected(functions.take(count)),
    decreases functions.len() - count,
{
    if count == functions.len() {
        assert(functions.take(count) =~= functions);
    } else {
        assert(functions.take(count + 1).drop_last() =~= functions.take(count));
        lemma_error_stays(functions, count + 1);
    }
}

/// Reads a decorator off its expression.
fn decorator_of(expression: &rustpython_parser::ast::Expr) -> (r: Decorator)
    ensures
        r@ == decorator_in(*expression),
{
    match call_parts(expression) {
        Some((callee, arguments)) => match attribute_parts(callee) {
            Some((base, attr)) => {
                let mut args: Vec<Option<String>> = Vec::new();
                let mut i: usize = 0;
                while i < arguments.len()
                    invariant
                        i <= arguments.len(),
                        args.len() == i,
                        forall|k: int|
                            0 <= k < i ==> text_of(#[trigger] args@[k]) == strings_in(
                                arguments@,
                            )[k],
                    decreases arguments.len() - i,
                {
                    args.push(string_constant(&arguments[i]));
                    i += 1;
                }
                assert(args@.map_values(|text: Option<String>| text_of(text)) =~= strings_in(
                    arguments@,
                ));
                Decorator::Call { base, attr, args }
            },
            None => Decorator::Other,
        },
        None => match attribute_parts(expression) {
            Some((base, attr)) => Decorator::Attribute { base, attr },
            None => Decorator::Other,
        },
    }
}

/// The function definitions among the statements, in order: each with its
/// name, the number of its parameters, whether it declares a return type,
/// and its decorators.
fn functions_of(statements: &Vec<rustpython_parser::ast::Stmt>) -> (r: Vec<FunctionDef>)
    ensures
        function_views(r@) == functions_in(statements@),
{
    let mut functions: Vec<FunctionDef> = Vec::new();
    let mut i: usize = 0;
    assert(function_views(functions@) =~= functions_in(statements@.take(0)));
    while i < statements.len()
        invariant
            i <= statements.len(),
            function_views(functions@) == functions_in(statements@.take(i as int)),
        decreases statements.len() - i,
    {
        let ghost before = functions@;
        assert(statements@.take(i + 1).drop_last() =~= statements@.take(i as int));
        match function_parts(&statements[i]) {
            Some((name, arg_count, has_return, expressions)) => {
                let mut decorators: Vec<Decorator> = Vec::new();
                let mut j: usize = 0;
                while j < expressions.len()
                    invariant
                        j <= expressions.len(),
                        decorators.len() == j,
                        forall|k: int|
                            0 <= k < j ==> (#[trigger] decorators@[k])@ == decorator_in(
                                expressions@[k],
                            ),
                    decreases expressions.len() - j,
                {
                    decorators.push(decorator_of(&expressions[j]));
                    j += 1;
                }
                assert(decorator_views(decorators@) =~= decorators_in(expressions@));
                functions.push(FunctionDef { name, arg_count, has_return, decorators });
                assert(function_views(functions@) =~= function_views(before).push(
                    functions@[functions.len() - 1]@,
                ));
            },
            None => {},
        }
        i += 1;
    }
    assert(statements@.take(i as int) =~= statements@);
    functions
}

/// Parses the source and lists the function definitions at its top level:
/// those that the statements of the module hold, in order. A source that is
/// too long for the parser is refused unread, and one that is no module
/// gives the parser's error.
pub fn function_definitions(source: &str) -> (r: Result<Vec<FunctionDef>, AnalysisError>)
    ensures
        match r {
            Ok(functions) => definitions_in(source@) == Ok::<
                Seq<FunctionDefView>,
                AnalysisErrorKind,
            >(function_views(functions@)),
            Err(e) => definitions_in(source@) == Err::<Seq<FunctionDefView>, AnalysisErrorKind>(
                e.kind(),
            ),
        },
{
    if source.as_bytes().len() > SOURCE_LIMIT {
        return Err(AnalysisError::TooLong);
    }
    match parse_module(source) {
        Ok(statements) => Ok(functions_of(&statements)),
        Err(message) => Err(AnalysisError::Parse { message }),
    }
}

/// Reads the imports and exports of a plugin off its source. The result is
/// what `collect_functions` makes of the function definitions at the top
/// level of the source, and the error of the parse where the source is too
/// long or no module.
pub fn find_imports_and_exports(data: &str) -> (r: Result<(Vec<Import>, Vec<Export>), AnalysisError>)
    ensures
        match definitions_in(data@) {
            Ok(definitions) => exists|functions: Seq<FunctionDef>|
                {
                    &&& #[trigger] function_views(functions) == definitions
                    &&& match r {
                        Ok((imports, exports)) => collected(functions) == Ok::<
                            (Seq<ImportView>, Seq<ExportView>),
                            AnalysisErrorKind,
                        >(
                            (
                                crate::manifest::import_views(imports@),
                                crate::manifest::export_views(exports@),
                            ),
                        ),
                        Err(e) => collected(functions) == Err::<
                            (Seq<ImportView>, Seq<ExportView>),
                            AnalysisErrorKind,
                        >(e.kind()),
                    }
                },
            Err(kind) => r matches Err(e) && e.kind() == kind,
        },
        r matches Ok((imports, exports)) ==> {
            &&& forall|j: int|
                0 <= j < exports.len() ==> export_from_analysis((#[trigger] exports@[j])@)
            &&& forall|i: int|
                0 <= i < imports.len() ==> import_from_analysis((#[trigger] imports@[i])@)
            &&& first_export_error(crate::manifest::export_views(exports@)) is None
        },
{
    let functions = match function_definitions(data) {
        Ok(functions) => functions,
        Err(e) => {
            return Err(e);
        },
    };
    let r = collect_functions(&functions);
    proof {
        lemma_collected_fits_generator(functions@);
        assert(function_views(functions@) == definitions_in(data@)->Ok_0);
        if let Ok((imports, exports)) = &r {
            assert forall|j: int| 0 <= j < exports.len() implies export_from_analysis(
                (#[trigger] exports@[j])@,
            ) by {
                assert(crate::manifest::export_views(exports@)[j] == exports@[j]@);
            }
            assert forall|i: int| 0 <= i < imports.len() implies import_from_analysis(
                (#[trigger] imports@[i])@,
            ) by {
                let views = crate::manifest::import_views(imports@);
                assert(views[i] == imports@[i]@);
                assert(collected(functions@) matches Ok((found, _)) && found == views);
                assert(import_from_analysis(views[i]));
            }
        }
    }
    r
}

/// Whether an export is one that the analysis declares: no parameters and
/// an `Int32` status for a plugin entry, `Int64` parameters and at most one
/// `Int64` result for a shared entry.
pub open spec fn export_from_analysis(export: ExportView) -> bool {
    match export.kind {
        ExportKind::PluginEntry => export.params.len() == 0 && export.results
            == seq![ValueType::Int32],
        ExportKind::SharedEntry => export.params == int64s(export.params.len() as int) && (
        export.results == optional_int64(true) || export.results == optional_int64(false)),
    }
}

/// Whether an import is one that the analysis declares: `Int64` parameters,
/// and at most one `Int64` result.
pub open spec fn import_from_analysis(import: ImportView) -> bool {
    &&& import.params == int64s(import.params.len() as int)
    &&& import.results == optional_int64(true) || import.results == optional_int64(false)
}

/// The export of a function's export decorator is one that the analysis
/// declares.
proof fn lemma_export_declared(function: FunctionDef, decorators: Seq<Decorator>)
    ensures
        export_declared(function, decorators) matches Ok(Some(export)) ==> export_from_analysis(
            export,
        ),
    decreases decorators.len(),
{
    if decorators.len() > 0 {
        lemma_export_declared(function, decorators.drop_first());
    }
}

/// The import of a function's import decorator is one that the analysis
/// declares.
proof fn lemma_import_declared(function: FunctionDef, decorators: Seq<Decorator>)
    ensures
        import_declared(function, decorators) matches Ok(Some(import)) ==> import_from_analysis(
            import,
        ),
    decreases decorators.len(),
{
    if decorators.len() > 0 {
        lemma_import_declared(function, decorators.drop_first());
    }
}

/// What the analysis collects fits the generator: every export is of the
/// analysis' own making and has a dispatch function, so that no export is
/// refused, and every import takes `Int64` values and returns at most one.
pub proof fn lemma_collected_fits_generator(functions: Seq<FunctionDef>)
    ensures
        collected(functions) matches Ok((imports, exports)) ==> {
            &&& forall|j: int|
                0 <= j < exports.len() ==> export_from_analysis(#[trigger] exports[j])
                    && export_error(exports[j]) is None
            &&& forall|i: int| 0 <= i < imports.len() ==> import_from_analysis(#[trigger] imports[i])
            &&& first_export_error(exports) is None
        },
    decreases functions.len(),
{
    if functions.len() > 0 {
        lemma_collected_fits_generator(functions.drop_last());
        let last = functions.last();
        lemma_export_declared(last, last.decorators@);
        lemma_import_declared(last, last.decorators@);
    }
    if let Ok((imports, exports)) = collected(functions) {
        assert forall|j: int| 0 <= j < exports.len() implies export_error(#[trigger] exports[j])
            is None by {
            assert(export_from_analysis(exports[j]));
        }
        lemma_exports_accepted(exports);
    }
}

/// Exports without fault raise no error.
proof fn lemma_exports_accepted(exports: Seq<ExportView>)
    requires
        forall|j: int| 0 <= j < exports.len() ==> export_error(#[trigger] exports[j]) is None,
    ensures
        first_export_error(exports) is None,
    decreases exports.len(),
{
    if exports.len() > 0 {
        let rest = exports.drop_first();
        assert(export_error(exports[0]) is None);
        assert forall|j: int| 0 <= j < rest.len() implies export_error(#[trigger] rest[j])
            is None by {
            assert(rest[j] == exports[j + 1]);
        }
        lemma_exports_accepted(rest);
    }
}

/// What a decorator holds, as texts.
pub enum DecoratorView {
    Call { base: Option<Seq<char>>, attr: Seq<char>, args: Seq<Option<Seq<char>>> },
    Attribute { base: Option<Seq<char>>, attr: Seq<char> },
    Other,
}

/// What a function definition holds, as texts and numbers.
pub struct FunctionDefView {
    pub name: Seq<char>,
    pub arg_count: nat,
    pub has_return: bool,
    pub decorators: Seq<DecoratorView>,
}

/// The text of a string that may be missing.
pub open spec fn text_of(text: Option<String>) -> Option<Seq<char>> {
    match text {
        Some(text) => Some(text@),
        None => None,
    }
}

impl View for Decorator {
    type V = DecoratorView;

    open spec fn view(&self) -> DecoratorView {
        match *self {
            Decorator::Call { base, attr, args } => DecoratorView::Call {
                base: text_of(base),
                attr: attr@,
                args: args@.map_values(|text: Option<String>| text_of(text)),
            },
            Decorator::Attribute { base, attr } => DecoratorView::Attribute {
                base: text_of(base),
                attr: attr@,
            },
            Decorator::Other => DecoratorView::Other,
        }
    }
}

/// What each of the decorators holds.
pub open spec fn decorator_views(decorators: Seq<Decorator>) -> Seq<DecoratorView> {
    decorators.map_values(|decorator: Decorator| decorator@)
}

impl View for FunctionDef {
    type V = FunctionDefView;

    open spec fn view(&self) -> FunctionDefView {
        FunctionDefView {
            name: self.name@,
            arg_count: self.arg_count as nat,
            has_return: self.has_return,
            decorators: decorator_views(self.decorators@),
        }
    }
}

/// What each of the function definitions holds.
pub open spec fn function_views(functions: Seq<FunctionDef>) -> Seq<FunctionDefView> {
    functions.map_values(|function: FunctionDef| function@)
}

/// For each expression the text that it is, if it is a string constant.
pub open spec fn strings_in(expressions: Seq<rustpython_parser::ast::Expr>) -> Seq<
    Option<Seq<char>>,
> {
    expressions.map_values(|expression: rustpython_parser::ast::Expr| string_of(expression))
}

/// The decorator that an expression holds. A call of an attribute access
/// `base.attr(..)` is a call decorator, with `base` if it is a plain name and
/// with the text of each positional argument that is a string constant. An
/// attribute access that is not called is an attribute decorator. Any other
/// expression, a call of anything but an attribute access among them, is no
/// decorator that the manifest depends on.
pub open spec fn decorator_in(expression: rustpython_parser::ast::Expr) -> DecoratorView {
    match call_of(expression) {
        Some((callee, arguments)) => match attribute_of(callee) {
            Some((base, attr)) => DecoratorView::Call { base, attr, args: strings_in(arguments) },
            None => DecoratorView::Other,
        },
        None => match attribute_of(expression) {
            Some((base, attr)) => DecoratorView::Attribute { base, attr },
            None => DecoratorView::Other,
        },
    }
}

/// The decorator that each of the expressions holds.
pub open spec fn decorators_in(expressions: Seq<rustpython_parser::ast::Expr>) -> Seq<
    DecoratorView,
> {
    expressions.map_values(|expression: rustpython_parser::ast::Expr| decorator_in(expression))
}

/// The function definitions that the statements hold, in the order of the
/// statements; a statement that is no function definition adds nothing.
pub open spec fn functions_in(statements: Seq<rustpython_parser::ast::Stmt>) -> Seq<
    FunctionDefView,
>
    decreases statements.len(),
{
    if statements.len() == 0 {
        Seq::empty()
    } else {
        let before = functions_in(statements.drop_last());
        match function_definition(statements.last()) {
            Some((name, arg_count, has_return, decorators)) => before.push(
                FunctionDefView {
                    name,
                    arg_count,
                    has_return,
                    decorators: decorators_in(decorators),
                },
            ),
            None => before,
        }
    }
}

/// Whether a source is short enough for the parser.
pub open spec fn readable(source: Seq<char>) -> bool {
    vstd::utf8::encode_utf8(source).len() <= SOURCE_LIMIT
}

/// The function definitions at the top level of a source, in the order in
/// which they are written; or why there are none to be had: the source is
/// too long for the parser, or it is no module of the language.
pub open spec fn definitions_in(source: Seq<char>) -> Result<
    Seq<FunctionDefView>,
    AnalysisErrorKind,
> {
    if !readable(source) {
        Err(AnalysisErrorKind::TooLong)
    } else {
        match module_statements(source) {
            Some(statements) => Ok(functions_in(statements)),
            None => Err(AnalysisErrorKind::Parse),
        }
    }
}

/// Two decorators that hold the same are told apart by nothing that the
/// manifest is read from.
proof fn lemma_decorator_reads_views(a: FunctionDef, b: FunctionDef, x: Decorator, y: Decorator)
    requires
        a@ == b@,
        x@ == y@,
    ensures
        declares_import(x) == declares_import(y),
        declares_import(x) ==> import_for(a, x->Call_args@) == import_for(b, y->Call_args@),
        export_decorator(a, x) == export_decorator(b, y),
{
    match (x, y) {
        (
            Decorator::Call { base: base_x, attr: attr_x, args: args_x },
            Decorator::Call { base: base_y, attr: attr_y, args: args_y },
        ) => {
            let texts_x = args_x@.map_values(|text: Option<String>| text_of(text));
            let texts_y = args_y@.map_values(|text: Option<String>| text_of(text));
            assert(texts_x == texts_y);
            assert(args_x@.len() == texts_x.len());
            assert(args_y@.len() == texts_y.len());
            if args_x@.len() >= 2 {
                assert(texts_x[0] == text_of(args_x@[0]));
                assert(texts_y[0] == text_of(args_y@[0]));
                assert(texts_x[1] == text_of(args_x@[1]));
                assert(texts_y[1] == text_of(args_y@[1]));
            }
        },
        _ => {},
    }
}

/// The import that a function declares depends on what the function and its
/// decorators hold alone.
proof fn lemma_import_reads_views(
    a: FunctionDef,
    b: FunctionDef,
    xs: Seq<Decorator>,
    ys: Seq<Decorator>,
)
    requires
        a@ == b@,
        decorator_views(xs) == decorator_views(ys),
    ensures
        import_declared(a, xs) == import_declared(b, ys),
    decreases xs.len(),
{
    assert(xs.len() == decorator_views(xs).len());
    assert(ys.len() == decorator_views(ys).len());
    if xs.len() > 0 {
        assert(decorator_views(xs)[0] == xs[0]@);
        assert(decorator_views(ys)[0] == ys[0]@);
        lemma_decorator_reads_views(a, b, xs[0], ys[0]);
        assert(decorator_views(xs.drop_first()) =~= decorator_views(xs).drop_first());
        assert(decorator_views(ys.drop_first()) =~= decorator_views(ys).drop_first());
        lemma_import_reads_views(a, b, xs.drop_first(), ys.drop_first());
    }
}

/// The export that a function declares depends on what the function and its
/// decorators hold alone.
proof fn lemma_export_reads_views(
    a: FunctionDef,
    b: FunctionDef,
    xs: Seq<Decorator>,
    ys: Seq<Decorator>,
)
    requires
        a@ == b@,
        decorator_views(xs) == decorator_views(ys),
    ensures
        export_declared(a, xs) == export_declared(b, ys),
    decreases xs.len(),
{
    assert(xs.len() == decorator_views(xs).len());
    assert(ys.len() == decorator_views(ys).len());
    if xs.len() > 0 {
        assert(decorator_views(xs)[0] == xs[0]@);
        assert(decorator_views(ys)[0] == ys[0]@);
        lemma_decorator_reads_views(a, b, xs[0], ys[0]);
        assert(decorator_views(xs.drop_first()) =~= decorator_views(xs).drop_first());
        assert(decorator_views(ys.drop_first()) =~= decorator_views(ys).drop_first());
        lemma_export_reads_views(a, b, xs.drop_first(), ys.drop_first());
    }
}

/// What a function definition adds to the manifest depends on what it holds
/// alone: two definitions that hold the same declare the same.
pub proof fn lemma_declared_reads_views(a: FunctionDef, b: FunctionDef)
    requires
        a@ == b@,
    ensures
        declared(a) == declared(b),
{
    lemma_import_reads_views(a, b, a.decorators@, b.decorators@);
    lemma_export_reads_views(a, b, a.decorators@, b.decorators@);
}

/// What is collected depends on what the function definitions hold alone:
/// two lists that hold the same give the same imports and exports, or the
/// same error.
pub proof fn lemma_collected_reads_views(a: Seq<FunctionDef>, b: Seq<FunctionDef>)
    requires
        function_views(a) == function_views(b),
    ensures
        collected(a) == collected(b),
    decreases a.len(),
{
    assert(a.len() == function_views(a).len());
    assert(b.len() == function_views(b).len());
    if a.len() > 0 {
        assert(function_views(a)[a.len() - 1] == a.last()@);
        assert(function_views(b)[b.len() - 1] == b.last()@);
        assert(function_views(a.drop_last()) =~= function_views(a).drop_last());
        assert(function_views(b.drop_last()) =~= function_views(b).drop_last());
        lemma_collected_reads_views(a.drop_last(), b.drop_last());
        lemma_declared_reads_views(a.last(), b.last());
    }
}

} // verus!
