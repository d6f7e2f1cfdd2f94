//! What the shim module holds: the bridge functions it imports from the
//! interpreter, the trampolines through which the interpreter reaches host
//! functions, and the body of each exported function.

use crate::manifest::{Export, ExportKind, ExportView, Import, ImportView};
use crate::types::ValueType;
use vstd::prelude::*;

verus! {

/// The most parameters that a host function reached through a trampoline may
/// take.
pub const MAX_HOST_PARAMS: usize = 5;

/// The number of trampolines: one for each parameter count from 0 to
/// `MAX_HOST_PARAMS`, without and with a result.
pub const TRAMPOLINES: usize = 12;

/// The number of bridge functions that the shim imports from the interpreter.
pub const BRIDGES: usize = 8;

/// A bridge function of the interpreter, which the shim imports from the
/// module `core`.
#[derive(Clone, Copy, Debug, PartialEq, Eq, Structural)]
pub enum Bridge {
    /// Opens the argument frame of a call.
    ArgStart,
    /// Appends an `Int32` argument to the open frame.
    ArgI32,
    /// Appends an `Int64` argument to the open frame.
    ArgI64,
    /// Appends a `Float32` argument to the open frame.
    ArgF32,
    /// Appends a `Float64` argument to the open frame.
    ArgF64,
    /// Dispatches the call; no result.
    Invoke,
    /// Dispatches the call; `Int64` result.
    InvokeI64,
    /// Dispatches the call; `Int32` result.
    InvokeI32,
}

/// An instruction of a shim function's body.
#[derive(Clone, Copy, Debug, PartialEq, Eq, Structural)]
pub enum Instruction {
    /// Pushes the local (a parameter) with this number.
    LocalGet(u32),
    /// Pushes a constant.
    I32Const(i32),
    /// Calls the function with this index.
    Call(u32),
    /// Pops a table slot and calls the function found there, which must have
    /// the type with this index.
    CallIndirect { type_index: u32, table_index: u32 },
}

/// Why no shim can be generated for a manifest.
#[derive(Clone, Debug, PartialEq, Eq)]
pub enum GenerateError {
    /// The import takes more parameters than any trampoline forwards, or
    /// returns more than one value.
    UnsupportedImport { module: String, name: String },
    /// The export declares more than one result.
    MultipleResults { export: String },
    /// The export's result has a type for which there is no dispatch function.
    UnsupportedResult { export: String, result: ValueType },
    /// The module would be larger than the binary format can describe.
    TooLarge,
    /// The generated module did not pass validation.
    Invalid { message: String },
}

/// An error as a mathematical value. Of an invalid module only the fact is
/// kept, not the validator's words.
pub enum GenerateErrorView {
    UnsupportedImport { module: Seq<char>, name: Seq<char> },
    MultipleResults { export: Seq<char> },
    UnsupportedResult { export: Seq<char>, result: ValueType },
    TooLarge,
    Invalid,
}

impl View for GenerateError {
    type V = GenerateErrorView;

    open spec fn view(&self) -> GenerateErrorView {
        match self {
            GenerateError::UnsupportedImport { module, name } => GenerateErrorView::UnsupportedImport {
                module: module@,
                name: name@,
            },
            GenerateError::MultipleResults { export } => GenerateErrorView::MultipleResults {
                export: export@,
            },
            GenerateError::UnsupportedResult { export, result } => GenerateErrorView::UnsupportedResult {
                export: export@,
                result: *result,
            },
            GenerateError::TooLarge => GenerateErrorView::TooLarge,
            GenerateError::Invalid { message } => GenerateErrorView::Invalid,
        }
    }
}

/// The words of an error for the user. An error of the manifest names the
/// import or export that it is about.
pub open spec fn generate_error_text(error: GenerateError) -> Seq<char> {
    match error {
        GenerateError::UnsupportedImport { module, name } => "Unsupported arity of imported function "@
            + module@ + "."@ + name@,
        GenerateError::MultipleResults { export } => "Multiple return arguments are not currently supported but used in exported function "@
            + export@,
        GenerateError::UnsupportedResult { export, result } => "Unsupported result type: "@
            + result.name_of() + " in exported function "@ + export@,
        GenerateError::TooLarge => "The shim module would be too large"@,
        GenerateError::Invalid { message } => "Invalid shim module: "@ + message@,
    }
}

impl GenerateError {
    /// The words of the error for the user.
    pub fn message(&self) -> (r: String)
        ensures
            r@ == generate_error_text(*self),
    {
        match self {
            GenerateError::UnsupportedImport { module, name } => {
                let mut text = String::from_str("Unsupported arity of imported function ");
                text.append(module.as_str());
                text.append(".");
                text.append(name.as_str());
                text
            },
            GenerateError::MultipleResults { export } => {
                let mut text = String::from_str(
                    "Multiple return arguments are not currently supported but used in exported function ",
                );
                text.append(export.as_str());
                text
            },
            GenerateError::UnsupportedResult { export, result } => {
                let mut text = String::from_str("Unsupported result type: ");
                let name = result.name();
                text.append(name.as_str());
                text.append(" in exported function ");
                text.append(export.as_str());
                text
            },
            GenerateError::TooLarge => String::from_str("The shim module would be too large"),
            GenerateError::Invalid { message } => {
                let mut text = String::from_str("Invalid shim module: ");
                text.append(message.as_str());
                text
            },
        }
    }
}

/// The indices under which the module knows the eight bridge functions.
#[derive(Clone, Copy, Debug, PartialEq, Eq, Structural)]
pub struct BridgeIndices {
    pub arg_start: u32,
    pub arg_i32: u32,
    pub arg_i64: u32,
    pub arg_f32: u32,
    pub arg_f64: u32,
    pub invoke: u32,
    pub invoke_i64: u32,
    pub invoke_i32: u32,
}

impl Bridge {
    /// The position of the bridge function among the shim's imports.
    pub open spec fn position(self) -> int {
        match self {
            Bridge::ArgStart => 0,
            Bridge::ArgI32 => 1,
            Bridge::ArgI64 => 2,
            Bridge::ArgF32 => 3,
            Bridge::ArgF64 => 4,
            Bridge::Invoke => 5,
            Bridge::InvokeI64 => 6,
            Bridge::InvokeI32 => 7,
        }
    }

    /// The bridge function at a position.
    pub open spec fn at(position: int) -> Bridge {
        if position == 0 {
            Bridge::ArgStart
        } else if position == 1 {
            Bridge::ArgI32
        } else if position == 2 {
            Bridge::ArgI64
        } else if position == 3 {
            Bridge::ArgF32
        } else if position == 4 {
            Bridge::ArgF64
        } else if position == 5 {
            Bridge::Invoke
        } else if position == 6 {
            Bridge::InvokeI64
        } else {
            Bridge::InvokeI32
        }
    }

    /// The name under which the interpreter exports the bridge function.
    pub open spec fn name(self) -> Seq<char> {
        match self {
            Bridge::ArgStart => "__arg_start"@,
            Bridge::ArgI32 => "__arg_i32"@,
            Bridge::ArgI64 => "__arg_i64"@,
            Bridge::ArgF32 => "__arg_f32"@,
            Bridge::ArgF64 => "__arg_f64"@,
            Bridge::Invoke => "__invoke"@,
            Bridge::InvokeI64 => "__invoke_i64"@,
            Bridge::InvokeI32 => "__invoke_i32"@,
        }
    }

    /// The parameters of the bridge function: the argument to append, or the
    /// export's index and kind.
    pub open spec fn params(self) -> Seq<ValueType> {
        match self {
            Bridge::ArgStart => seq![],
            Bridge::ArgI32 => seq![ValueType::Int32],
            Bridge::ArgI64 => seq![ValueType::Int64],
            Bridge::ArgF32 => seq![ValueType::Float32],
            Bridge::ArgF64 => seq![ValueType::Float64],
            Bridge::Invoke => seq![ValueType::Int32, ValueType::Int32],
            Bridge::InvokeI64 => seq![ValueType::Int32, ValueType::Int32],
            Bridge::InvokeI32 => seq![ValueType::Int32, ValueType::Int32],
        }
    }

    /// The results of the bridge function.
    pub open spec fn results(self) -> Seq<ValueType> {
        match self {
            Bridge::InvokeI64 => seq![ValueType::Int64],
            Bridge::InvokeI32 => seq![ValueType::Int32],
            _ => seq![],
        }
    }

    /// The import that declares the bridge function.
    pub open spec fn import(self) -> ImportView {
        ImportView {
            module: "core"@,
            name: self.name(),
            params: self.params(),
            results: self.results(),
        }
    }

    /// The bridge function that appends an argument of type `ty`.
    pub open spec fn push_of(ty: ValueType) -> Bridge {
        match ty {
            ValueType::Int32 => Bridge::ArgI32,
            ValueType::Int64 => Bridge::ArgI64,
            ValueType::Float32 => Bridge::ArgF32,
            ValueType::Float64 => Bridge::ArgF64,
        }
    }

    /// The bridge function that dispatches a call with these results, if there
    /// is one: none for more than one result or a floating-point result.
    pub open spec fn dispatch_of(results: Seq<ValueType>) -> Option<Bridge> {
        if results.len() == 0 {
            Some(Bridge::Invoke)
        } else if results.len() == 1 && results[0] == ValueType::Int32 {
            Some(Bridge::InvokeI32)
        } else if results.len() == 1 && results[0] == ValueType::Int64 {
            Some(Bridge::InvokeI64)
        } else {
            None
        }
    }

    /// Builds the import that declares the bridge function.
    pub fn declaration(self) -> (r: Import)
        ensures
            r@ == self.import(),
    {
        let name = match self {
            Bridge::ArgStart => String::from_str("__arg_start"),
            Bridge::ArgI32 => String::from_str("__arg_i32"),
            Bridge::ArgI64 => String::from_str("__arg_i64"),
            Bridge::ArgF32 => String::from_str("__arg_f32"),
            Bridge::ArgF64 => String::from_str("__arg_f64"),
            Bridge::Invoke => String::from_str("__invoke"),
            Bridge::InvokeI64 => String::from_str("__invoke_i64"),
            Bridge::InvokeI32 => String::from_str("__invoke_i32"),
        };
        let mut params: Vec<ValueType> = Vec::new();
        match self {
            Bridge::ArgStart => {},
            Bridge::ArgI32 => {
                params.push(ValueType::Int32);
            },
            Bridge::ArgI64 => {
                params.push(ValueType::Int64);
            },
            Bridge::ArgF32 => {
                params.push(ValueType::Float32);
            },
            Bridge::ArgF64 => {
                params.push(ValueType::Float64);
            },
            _ => {
                params.push(ValueType::Int32);
                params.push(ValueType::Int32);
            },
        }
        let mut results: Vec<ValueType> = Vec::new();
        match self {
            Bridge::InvokeI64 => {
                results.push(ValueType::Int64);
            },
            Bridge::InvokeI32 => {
                results.push(ValueType::Int32);
            },
            _ => {},
        }
        assert(params@ =~= self.params());
        assert(results@ =~= self.results());
        Import::new(String::from_str("core"), name, params, results)
    }

    /// The bridge functions in the order in which the shim imports them.
    pub fn all() -> (r: Vec<Bridge>)
        ensures
            r@ == Seq::new(BRIDGES as nat, |k: int| Bridge::at(k)),
    {
        let r = vec![
            Bridge::ArgStart,
            Bridge::ArgI32,
            Bridge::ArgI64,
            Bridge::ArgF32,
            Bridge::ArgF64,
            Bridge::Invoke,
            Bridge::InvokeI64,
            Bridge::InvokeI32,
        ];
        assert(r@ =~= Seq::new(BRIDGES as nat, |k: int| Bridge::at(k)));
        r
    }
}

impl BridgeIndices {
    /// The indices of the bridge functions where they are the module's first
    /// imports, in their own order.
    pub open spec fn standard() -> BridgeIndices {
        BridgeIndices {
            arg_start: 0,
            arg_i32: 1,
            arg_i64: 2,
            arg_f32: 3,
            arg_f64: 4,
            invoke: 5,
            invoke_i64: 6,
            invoke_i32: 7,
        }
    }

    /// The index of a bridge function.
    pub open spec fn of(self, bridge: Bridge) -> u32 {
        match bridge {
            Bridge::ArgStart => self.arg_start,
            Bridge::ArgI32 => self.arg_i32,
            Bridge::ArgI64 => self.arg_i64,
            Bridge::ArgF32 => self.arg_f32,
            Bridge::ArgF64 => self.arg_f64,
            Bridge::Invoke => self.invoke,
            Bridge::InvokeI64 => self.invoke_i64,
            Bridge::InvokeI32 => self.invoke_i32,
        }
    }

    /// Looks up the index of a bridge function.
    pub fn index(&self, bridge: Bridge) -> (r: u32)
        ensures
            r == self.of(bridge),
    {
        match bridge {
            Bridge::ArgStart => self.arg_start,
            Bridge::ArgI32 => self.arg_i32,
            Bridge::ArgI64 => self.arg_i64,
            Bridge::ArgF32 => self.arg_f32,
            Bridge::ArgF64 => self.arg_f64,
            Bridge::Invoke => self.invoke,
            Bridge::InvokeI64 => self.invoke_i64,
            Bridge::InvokeI32 => self.invoke_i32,
        }
    }
}

/// Whether the trampolines can reach an import: at most `MAX_HOST_PARAMS`
/// parameters and at most one result.
pub open spec fn import_supported(import: ImportView) -> bool {
    import.params.len() <= MAX_HOST_PARAMS && import.results.len() <= 1
}

/// What is wrong with an export, if anything: more than one result, or one
/// result of a type that no dispatch function returns.
pub open spec fn export_error(export: ExportView) -> Option<GenerateErrorView> {
    if export.results.len() > 1 {
        Some(GenerateErrorView::MultipleResults { export: export.name })
    } else if Bridge::dispatch_of(export.results) is None {
        Some(GenerateErrorView::UnsupportedResult { export: export.name, result: export.results[0] })
    } else {
        None
    }
}

/// The first import that no trampoline can reach, if there is one.
pub open spec fn first_import_error(imports: Seq<ImportView>) -> Option<GenerateErrorView>
    decreases imports.len(),
{
    if imports.len() == 0 {
        None
    } else if !import_supported(imports[0]) {
        Some(GenerateErrorView::UnsupportedImport { module: imports[0].module, name: imports[0].name })
    } else {
        first_import_error(imports.drop_first())
    }
}

/// The error of the first export that has one.
pub open spec fn first_export_error(exports: Seq<ExportView>) -> Option<GenerateErrorView>
    decreases exports.len(),
{
    if exports.len() == 0 {
        None
    } else if export_error(exports[0]) is Some {
        export_error(exports[0])
    } else {
        first_export_error(exports.drop_first())
    }
}

/// The error that a manifest is rejected with: that of its first unsupported
/// import in declaration order, else that of its first faulty export.
pub open spec fn manifest_error(exports: Seq<ExportView>, imports: Seq<ImportView>) -> Option<
    GenerateErrorView,
> {
    if first_import_error(imports) is Some {
        first_import_error(imports)
    } else {
        first_export_error(exports)
    }
}

/// The name of the trampoline that forwards `params` arguments and returns
/// `results` values.
pub open spec fn trampoline_name(params: int, results: int) -> Seq<char> {
    if results == 0 {
        if params == 0 {
            "__invokeHostFunc_0_0"@
        } else if params == 1 {
            "__invokeHostFunc_1_0"@
        } else if params == 2 {
            "__invokeHostFunc_2_0"@
        } else if params == 3 {
            "__invokeHostFunc_3_0"@
        } else if params == 4 {
            "__invokeHostFunc_4_0"@
        } else {
            "__invokeHostFunc_5_0"@
        }
    } else {
        if params == 0 {
            "__invokeHostFunc_0_1"@
        } else if params == 1 {
            "__invokeHostFunc_1_1"@
        } else if params == 2 {
            "__invokeHostFunc_2_1"@
        } else if params == 3 {
            "__invokeHostFunc_3_1"@
        } else if params == 4 {
            "__invokeHostFunc_4_1"@
        } else {
            "__invokeHostFunc_5_1"@
        }
    }
}

/// `count` times `Int64`: the operands that a trampoline forwards, or what it
/// returns.
pub open spec fn int64s(count: int) -> Seq<ValueType> {
    Seq::new(count as nat, |i: int| ValueType::Int64)
}

/// The parameters of a trampoline: the table slot of the host function, then
/// the operands to forward.
pub open spec fn trampoline_params(params: int) -> Seq<ValueType> {
    seq![ValueType::Int32] + int64s(params)
}

/// The body of a trampoline: it pushes the operands in order, then the table
/// slot, and makes one indirect call through the table.
pub open spec fn trampoline_body(params: int, type_index: u32, table_index: u32) -> Seq<
    Instruction,
> {
    Seq::new(params as nat, |i: int| Instruction::LocalGet((i + 1) as u32)) + seq![
        Instruction::LocalGet(0),
        Instruction::CallIndirect { type_index, table_index },
    ]
}

/// The instructions that hand an export's parameters to the interpreter: each
/// parameter in declared order, followed by the call that appends a value of
/// its type.
pub open spec fn push_arguments(params: Seq<ValueType>, bridge: BridgeIndices) -> Seq<Instruction> {
    Seq::new(
        2 * params.len(),
        |j: int|
            if j % 2 == 0 {
                Instruction::LocalGet((j / 2) as u32)
            } else {
                Instruction::Call(bridge.of(Bridge::push_of(params[j / 2])))
            },
    )
}

/// The number that tells the interpreter the kind of an export: 0 for a
/// plugin entry, 1 for a shared entry.
pub open spec fn kind_flag(kind: ExportKind) -> i32 {
    match kind {
        ExportKind::PluginEntry => 0,
        ExportKind::SharedEntry => 1,
    }
}

/// The body of an exported function: open a frame, append each argument,
/// then dispatch with the export's index and kind.
pub open spec fn entry_body(export: ExportView, index: i32, bridge: BridgeIndices) -> Seq<
    Instruction,
> {
    seq![Instruction::Call(bridge.arg_start)] + push_arguments(export.params, bridge) + seq![
        Instruction::I32Const(index),
        Instruction::I32Const(kind_flag(export.kind)),
        Instruction::Call(bridge.of(Bridge::dispatch_of(export.results).unwrap())),
    ]
}

/// Says whether the trampolines can reach the import.
pub fn supports_import(import: &Import) -> (r: bool)
    ensures
        r == import_supported(import@),
{
    import.params.len() <= MAX_HOST_PARAMS && import.results.len() <= 1
}

/// Picks the bridge function that appends an argument of type `ty`.
pub fn push_function(ty: ValueType) -> (r: Bridge)
    ensures
        r == Bridge::push_of(ty),
{
    match ty {
        ValueType::Int32 => Bridge::ArgI32,
        ValueType::Int64 => Bridge::ArgI64,
        ValueType::Float32 => Bridge::ArgF32,
        ValueType::Float64 => Bridge::ArgF64,
    }
}

/// Picks the bridge function that dispatches the export, or says why there is
/// none.
pub fn dispatch_function(export: &Export) -> (r: Result<Bridge, GenerateError>)
    ensures
        match r {
            Ok(bridge) => export_error(export@) is None && Bridge::dispatch_of(export@.results)
                == Some(bridge),
            Err(e) => export_error(export@) == Some(e@),
        },
{
    if export.results.len() > 1 {
        return Err(GenerateError::MultipleResults { export: export.name.clone() });
    }
    if export.results.len() == 0 {
        return Ok(Bridge::Invoke);
    }
    match export.results[0] {
        ValueType::Int32 => Ok(Bridge::InvokeI32),
        ValueType::Int64 => Ok(Bridge::InvokeI64),
        ValueType::Float32 => Err(
            GenerateError::UnsupportedResult {
                export: export.name.clone(),
                result: ValueType::Float32,
            },
        ),
        ValueType::Float64 => Err(
            GenerateError::UnsupportedResult {
                export: export.name.clone(),
                result: ValueType::Float64,
            },
        ),
    }
}

/// Checks a manifest against what the shim can express.
pub fn check_manifest(exports: &Vec<Export>, imports: &Vec<Import>) -> (r: Result<(), GenerateError>)
    ensures
        match r {
            Ok(_) => manifest_error(
                crate::manifest::export_views(exports@),
                crate::manifest::import_views(imports@),
            ) is None,
            Err(e) => manifest_error(
                crate::manifest::export_views(exports@),
                crate::manifest::import_views(imports@),
            ) == Some(e@),
        },
{
    let ghost all_imports = crate::manifest::import_views(imports@);
    let ghost all_exports = crate::manifest::export_views(exports@);
    let mut i: usize = 0;
    assert(all_imports.skip(0) =~= all_imports);
    assert(all_exports.skip(0) =~= all_exports);
    while i < imports.len()
        invariant
            i <= imports.len(),
            all_imports == crate::manifest::import_views(imports@),
            first_import_error(all_imports) == first_import_error(all_imports.skip(i as int)),
        decreases imports.len() - i,
    {
        proof {
            let rest = all_imports.skip(i as int);
            assert(rest[0] == imports@[i as int]@);
            assert(rest.drop_first() =~= all_imports.skip(i + 1));
        }
        if !supports_import(&imports[i]) {
            return Err(
                GenerateError::UnsupportedImport {
                    module: imports[i].module.clone(),
                    name: imports[i].name.clone(),
                },
            );
        }
        i += 1;
    }
    let mut j: usize = 0;
    while j < exports.len()
        invariant
            j <= exports.len(),
            all_exports == crate::manifest::export_views(exports@),
            all_imports == crate::manifest::import_views(imports@),
            first_import_error(all_imports) is None,
            first_export_error(all_exports) == first_export_error(all_exports.skip(j as int)),
        decreases exports.len() - j,
    {
        proof {
            let rest = all_exports.skip(j as int);
            assert(rest[0] == exports@[j as int]@);
            assert(rest.drop_first() =~= all_exports.skip(j + 1));
        }
        match dispatch_function(&exports[j]) {
            Ok(_) => {},
            Err(e) => {
                proof {
                    let rest = all_exports.skip(j as int);
                    assert(export_error(rest[0]) == Some(e@));
                    assert(first_export_error(rest) == Some(e@));
                }
                return Err(e);
            },
        }
        j += 1;
    }
    Ok(())
}

/// The name of a trampoline.
pub fn name_of_trampoline(params: usize, has_result: bool) -> (r: String)
    requires
        params <= MAX_HOST_PARAMS,
    ensures
        r@ == trampoline_name(params as int, if has_result { 1int } else { 0int }),
{
    if has_result {
        if params == 0 {
            String::from_str("__invokeHostFunc_0_1")
        } else if params == 1 {
            String::from_str("__invokeHostFunc_1_1")
        } else if params == 2 {
            String::from_str("__invokeHostFunc_2_1")
        } else if params == 3 {
            String::from_str("__invokeHostFunc_3_1")
        } else if params == 4 {
            String::from_str("__invokeHostFunc_4_1")
        } else {
            String::from_str("__invokeHostFunc_5_1")
        }
    } else {
        if params == 0 {
            String::from_str("__invokeHostFunc_0_0")
        } else if params == 1 {
            String::from_str("__invokeHostFunc_1_0")
        } else if params == 2 {
            String::from_str("__invokeHostFunc_2_0")
        } else if params == 3 {
            String::from_str("__invokeHostFunc_3_0")
        } else if params == 4 {
            String::from_str("__invokeHostFunc_4_0")
        } else {
            String::from_str("__invokeHostFunc_5_0")
        }
    }
}

/// `count` times `Int64`.
pub fn repeat_int64(count: usize) -> (r: Vec<ValueType>)
    ensures
        r@ == int64s(count as int),
{
    let mut r: Vec<ValueType> = Vec::new();
    let mut i: usize = 0;
    while i < count
        invariant
            i <= count,
            r@ == int64s(i as int),
        decreases count - i,
    {
        r.push(ValueType::Int64);
        assert(r@ =~= int64s(i + 1));
        i += 1;
    }
    r
}

/// The parameters of the trampoline that forwards `params` operands.
pub fn params_of_trampoline(params: usize) -> (r: Vec<ValueType>)
    ensures
        r@ == trampoline_params(params as int),
{
    let mut r: Vec<ValueType> = Vec::new();
    r.push(ValueType::Int32);
    let mut i: usize = 0;
    while i < params
        invariant
            i <= params,
            r@ == trampoline_params(i as int),
        decreases params - i,
    {
        r.push(ValueType::Int64);
        assert(r@ =~= trampoline_params(i + 1));
        i += 1;
    }
    r
}

/// Builds the body of the trampoline that forwards `params` operands through
/// the table `table_index` to a function of the type `type_index`.
pub fn body_of_trampoline(params: usize, type_index: u32, table_index: u32) -> (r: Vec<Instruction>)
    requires
        params < u32::MAX,
    ensures
        r@ == trampoline_body(params as int, type_index, table_index),
{
    let mut r: Vec<Instruction> = Vec::new();
    let mut i: usize = 0;
    while i < params
        invariant
            i <= params < u32::MAX,
            r@ == Seq::new(i as nat, |k: int| Instruction::LocalGet((k + 1) as u32)),
        decreases params - i,
    {
        r.push(Instruction::LocalGet((i + 1) as u32));
        assert(r@ =~= Seq::new((i + 1) as nat, |k: int| Instruction::LocalGet((k + 1) as u32)));
        i += 1;
    }
    r.push(Instruction::LocalGet(0));
    r.push(Instruction::CallIndirect { type_index, table_index });
    assert(r@ =~= trampoline_body(params as int, type_index, table_index));
    r
}

/// Builds the body of the function that the shim exports for `export`, the
/// export with number `index`; or says why the export cannot be dispatched.
pub fn body_of_entry(export: &Export, index: i32, bridge: &BridgeIndices) -> (r: Result<
    Vec<Instruction>,
    GenerateError,
>)
    requires
        export.params.len() <= u32::MAX,
    ensures
        match r {
            Ok(body) => export_error(export@) is None && body@ == entry_body(export@, index, *bridge),
            Err(e) => export_error(export@) == Some(e@),
        },
{
    let dispatch = match dispatch_function(export) {
        Ok(dispatch) => dispatch,
        Err(e) => {
            return Err(e);
        },
    };
    let mut body: Vec<Instruction> = Vec::new();
    body.push(Instruction::Call(bridge.arg_start));
    let ghost head = seq![Instruction::Call(bridge.arg_start)];
    let mut i: usize = 0;
    assert(body@ =~= head + push_arguments(export@.params.take(0), *bridge));
    while i < export.params.len()
        invariant
            i <= export.params.len() <= u32::MAX,
            head == seq![Instruction::Call(bridge.arg_start)],
            body@ == head + push_arguments(export@.params.take(i as int), *bridge),
        decreases export.params.len() - i,
    {
        body.push(Instruction::LocalGet(i as u32));
        body.push(Instruction::Call(bridge.index(push_function(export.params[i]))));
        assert(body@ =~= head + push_arguments(export@.params.take(i + 1), *bridge));
        i += 1;
    }
    assert(export@.params.take(i as int) =~= export@.params);
    body.push(Instruction::I32Const(index));
    body.push(
        Instruction::I32Const(
            match export.kind {
                ExportKind::PluginEntry => 0,
                ExportKind::SharedEntry => 1,
            },
        ),
    );
    body.push(Instruction::Call(bridge.index(dispatch)));
    assert(body@ =~= entry_body(export@, index, *bridge));
    Ok(body)
}

} // verus!
