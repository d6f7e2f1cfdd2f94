//! The module builder of the `wagen` crate, as this library uses it: what a
//! module under construction holds, and what the builder answers.
//!
//! The builder keeps a module as separate sections. Verified code sees of a
//! module what the builder keeps: its tables, its element segments, and its
//! types, imports and functions in the order of the type section. Each
//! function below that calls the builder says which of the three grows, and
//! that the others stay.

use crate::shim::Instruction;
use crate::types::ValueType;
use vstd::prelude::*;
use vstd::utf8::encode_utf8;

verus! {

/// `wagen::Module`: a module under construction. What is known of it is its
/// `module_tables`, its `module_items` and its `module_elements`.
#[verifier::external_type_specification]
#[verifier::external_body]
pub struct ExModule<'a>(wagen::Module<'a>);

/// `wagen::Function`: a function of a module under construction. What is
/// known of it is its `function_body` and its `function_export`.
#[verifier::external_type_specification]
#[verifier::external_body]
pub struct ExFunction<'a>(wagen::Function<'a>);

/// `wasmparser::BinaryReaderError`, under the name by which `wagen` hands it
/// on: why the validator refuses a module.
#[verifier::external_type_specification]
#[verifier::external_body]
pub struct ExBinaryReaderError(wagen::parser::BinaryReaderError);

/// One item of a module that has a function type: each stands for one entry
/// of the type section.
pub enum Declaration {
    /// An imported function, and with it the type of its signature.
    Import { module: Seq<char>, name: Seq<char>, params: Seq<ValueType>, results: Seq<ValueType> },
    /// A function type.
    Type { params: Seq<ValueType>, results: Seq<ValueType> },
    /// A function without locals, and with it the type of its signature.
    /// `export` is the name under which the module exports it, if it does.
    Function {
        name: Seq<char>,
        params: Seq<ValueType>,
        results: Seq<ValueType>,
        export: Option<Seq<char>>,
        body: Seq<Instruction>,
    },
}

/// The largest weight of a module that this library builds.
pub const WEIGHT_LIMIT: usize = 0x0200_0000;

/// The length of a text in UTF-8.
pub open spec fn utf8_length(text: Seq<char>) -> nat {
    encode_utf8(text).len()
}

/// The weight of an item: one, and one more for each byte of a name, each
/// value type and each instruction in it. An item takes at most 64 bytes of
/// the binary module for each unit of its weight.
pub open spec fn weight(declaration: Declaration) -> nat {
    match declaration {
        Declaration::Import { module, name, params, results } => 1 + utf8_length(module) + utf8_length(
            name,
        ) + params.len() + results.len(),
        Declaration::Type { params, results } => 1 + params.len() + results.len(),
        Declaration::Function { name, params, results, export, body } => 1 + utf8_length(name) + (
        match export {
            Some(exported) => utf8_length(exported),
            None => 0,
        }) + params.len() + results.len() + body.len(),
    }
}

/// The sum of the weights of the items.
pub open spec fn items_weight(items: Seq<Declaration>) -> nat
    decreases items.len(),
{
    if items.len() == 0 {
        0
    } else {
        items_weight(items.drop_last()) + weight(items.last())
    }
}

/// The weight of element segments: for each segment one, and one more for
/// each function in it. A segment takes at most 64 bytes of the binary
/// module for each unit of its weight.
pub open spec fn elements_weight(elements: Seq<(u32, Seq<u32>)>) -> nat
    decreases elements.len(),
{
    if elements.len() == 0 {
        0
    } else {
        elements_weight(elements.drop_last()) + 1 + elements.last().1.len()
    }
}

/// The weight of a module: one for each table, and the weights of its items
/// and of its element segments.
pub open spec fn module_weight(
    tables: Seq<u64>,
    items: Seq<Declaration>,
    elements: Seq<(u32, Seq<u32>)>,
) -> nat {
    tables.len() + items_weight(items) + elements_weight(elements)
}

/// The number of imports among the items.
pub open spec fn imports_in(items: Seq<Declaration>) -> nat
    decreases items.len(),
{
    if items.len() == 0 {
        0
    } else {
        imports_in(items.drop_last()) + if items.last() is Import {
            1nat
        } else {
            0nat
        }
    }
}

/// The tables of a module, in the order of the table section: of each the
/// least number of slots. Every table holds function references and has no
/// upper limit.
pub uninterp spec fn module_tables(module: wagen::Module) -> Seq<u64>;

/// The types, imports and functions of a module, in the order of the type
/// section. An import and a function each bring the type of their signature,
/// and stand where that type stands; the imports among them are in the order
/// of the import section, the functions in the order of the function
/// section.
pub uninterp spec fn module_items(module: wagen::Module) -> Seq<Declaration>;

/// The element segments of a module, in the order of the element section:
/// of each the table that it fills from slot 0 on, and the functions that it
/// writes there.
pub uninterp spec fn module_elements(module: wagen::Module) -> Seq<(u32, Seq<u32>)>;

/// The weight of what a module holds.
pub open spec fn weight_of(module: wagen::Module) -> nat {
    module_weight(module_tables(module), module_items(module), module_elements(module))
}

/// The instructions pushed to a function's body so far.
pub uninterp spec fn function_body(function: wagen::Function) -> Seq<Instruction>;

/// The name under which a function is marked for export, if it is.
pub uninterp spec fn function_export(function: wagen::Function) -> Option<Seq<char>>;

/// The binary module that the builder encodes from the tables, the items
/// and the element segments of a module.
pub uninterp spec fn module_bytes(
    tables: Seq<u64>,
    items: Seq<Declaration>,
    elements: Seq<(u32, Seq<u32>)>,
) -> Seq<u8>;

/// Whether the validator of `wasmparser`, with every feature switched on,
/// accepts the bytes as a module.
pub uninterp spec fn valid_module(bytes: Seq<u8>) -> bool;

/// `wagen::Module::new`: a module that holds nothing.
#[verifier::external_body]
pub(crate) fn new_module() -> (module: wagen::Module<'static>)
    ensures
        module_tables(module) == Seq::<u64>::empty(),
        module_items(module) == Seq::<Declaration>::empty(),
        module_elements(module) == Seq::<(u32, Seq<u32>)>::empty(),
{
    wagen::Module::new()
}

/// `wagen::Tables::push`, on the module's tables: appends a table of function
/// references to the table section and answers its index, the number of tables
/// in the section before. It touches nothing else of the module.
#[verifier::external_body]
pub(crate) fn declare_table(module: &mut wagen::Module<'static>, minimum: u64) -> (index: u32)
    requires
        weight_of(*old(module)) + 1 <= WEIGHT_LIMIT,
    ensures
        module_tables(*final(module)) == module_tables(*old(module)).push(minimum),
        module_items(*final(module)) == module_items(*old(module)),
        module_elements(*final(module)) == module_elements(*old(module)),
        index == module_tables(*old(module)).len(),
{
    module.tables().push(
        wagen::TableType {
            element_type: wagen::RefType::FUNCREF,
            table64: false,
            minimum,
            maximum: None,
            shared: false,
        },
    )
}

/// `wagen::Module::import`: appends the signature to the type section and the
/// function to the import section, and answers the import's index, the number
/// of imports in the section before. It touches nothing else of the module.
#[verifier::external_body]
pub(crate) fn declare_import(
    module: &mut wagen::Module<'static>,
    from: &str,
    name: &str,
    params: &Vec<ValueType>,
    results: &Vec<ValueType>,
) -> (index: u32)
    requires
        weight_of(*old(module)) + 1 + utf8_length(from@) + utf8_length(name@) + params.len()
            + results.len() <= WEIGHT_LIMIT,
    ensures
        module_items(*final(module)) == module_items(*old(module)).push(
            Declaration::Import { module: from@, name: name@, params: params@, results: results@ },
        ),
        module_tables(*final(module)) == module_tables(*old(module)),
        module_elements(*final(module)) == module_elements(*old(module)),
        index == imports_in(module_items(*old(module))),
{
    let convert = |ty: &ValueType|
        match ty {
            ValueType::Int32 => wagen::ValType::I32,
            ValueType::Int64 => wagen::ValType::I64,
            ValueType::Float32 => wagen::ValType::F32,
            ValueType::Float64 => wagen::ValType::F64,
        };
    module.import(from, name, None, params.iter().map(convert), results.iter().map(convert)).index()
}

/// `wagen::Types::push`, on the module's types, with a function type: appends
/// the type to the type section and answers its index, the number of types
/// in the section before. It touches nothing else of the module.
#[verifier::external_body]
pub(crate) fn declare_type(
    module: &mut wagen::Module<'static>,
    params: &Vec<ValueType>,
    results: &Vec<ValueType>,
) -> (index: u32)
    requires
        weight_of(*old(module)) + 1 + params.len() + results.len() <= WEIGHT_LIMIT,
    ensures
        module_items(*final(module)) == module_items(*old(module)).push(
            Declaration::Type { params: params@, results: results@ },
        ),
        module_tables(*final(module)) == module_tables(*old(module)),
        module_elements(*final(module)) == module_elements(*old(module)),
        index == module_items(*old(module)).len(),
{
    let convert = |ty: &ValueType|
        match ty {
            ValueType::Int32 => wagen::ValType::I32,
            ValueType::Int64 => wagen::ValType::I64,
            ValueType::Float32 => wagen::ValType::F32,
            ValueType::Float64 => wagen::ValType::F64,
        };
    module.types().push(|encoder| encoder.function(params.iter().map(convert), results.iter().map(convert)))
}

/// `wagen::Module::func`, without locals: appends the signature to the type
/// section and a function to the function section, and lends the function
/// out. The function starts with an empty body and no export; the module
/// holds it as the borrower leaves it. It touches nothing else of the module.
#[verifier::external_body]
pub(crate) fn declare_function<'b>(
    module: &'b mut wagen::Module<'static>,
    name: &str,
    params: &Vec<ValueType>,
    results: &Vec<ValueType>,
) -> (function: &'b mut wagen::Function<'static>)
    requires
        weight_of(*old(module)) + 1 + utf8_length(name@) + params.len() + results.len()
            <= WEIGHT_LIMIT,
    ensures
        function_body(*function) == Seq::<Instruction>::empty(),
        function_export(*function) == None::<Seq<char>>,
        module_items(*final(module)) == module_items(*old(module)).push(
            Declaration::Function {
                name: name@,
                params: params@,
                results: results@,
                export: function_export(*final(function)),
                body: function_body(*final(function)),
            },
        ),
        module_tables(*final(module)) == module_tables(*old(module)),
        module_elements(*final(module)) == module_elements(*old(module)),
{
    let convert = |ty: &ValueType|
        match ty {
            ValueType::Int32 => wagen::ValType::I32,
            ValueType::Int64 => wagen::ValType::I64,
            ValueType::Float32 => wagen::ValType::F32,
            ValueType::Float64 => wagen::ValType::F64,
        };
    module.func(name, params.iter().map(convert), results.iter().map(convert), [])
}

/// `wagen::Function::export`: marks the function for export under `name`.
#[verifier::external_body]
pub(crate) fn export_function(function: &mut wagen::Function<'static>, name: &str)
    ensures
        function_export(*final(function)) == Some(name@),
        function_body(*final(function)) == function_body(*old(function)),
{
    function.export(name);
}

/// `wagen::Function::push`, with a list of instructions: appends them to the
/// function's body in order.
#[verifier::external_body]
pub(crate) fn push_instructions(function: &mut wagen::Function<'static>, body: &Vec<Instruction>)
    ensures
        function_body(*final(function)) == function_body(*old(function)) + body@,
        function_export(*final(function)) == function_export(*old(function)),
{
    function.push(
        body.iter().map(
            |instruction|
                match *instruction {
                    Instruction::LocalGet(local) => wagen::Instr::LocalGet(local),
                    Instruction::I32Const(value) => wagen::Instr::I32Const(value),
                    Instruction::Call(index) => wagen::Instr::Call(index),
                    Instruction::CallIndirect { type_index, table_index } => {
                        wagen::Instr::CallIndirect { type_index, table_index }
                    },
                },
        ).collect::<Vec<_>>(),
    );
}

/// `wagen::Module::active_element`, with function indices: appends to the
/// element section an active segment that writes the functions into `table`
/// from slot 0 on. It touches nothing else of the module.
#[verifier::external_body]
pub(crate) fn declare_elements(
    module: &mut wagen::Module<'static>,
    table: u32,
    functions: &Vec<u32>,
)
    requires
        weight_of(*old(module)) + 1 + functions.len() <= WEIGHT_LIMIT,
    ensures
        module_elements(*final(module)) == module_elements(*old(module)).push(
            (table, functions@),
        ),
        module_tables(*final(module)) == module_tables(*old(module)),
        module_items(*final(module)) == module_items(*old(module)),
{
    module.active_element(Some(table), wagen::Elements::Functions(functions.as_slice().into()));
}

/// `wagen::Module::finish`: encodes the module. The bytes depend on what the
/// module holds alone. The encoder stops the program where a length does not
/// fit 32 bits; the weight limit keeps every section below that.
#[verifier::external_body]
pub(crate) fn finish_module(module: wagen::Module<'static>) -> (bytes: Vec<u8>)
    requires
        weight_of(module) <= WEIGHT_LIMIT,
    ensures
        bytes@ == module_bytes(
            module_tables(module),
            module_items(module),
            module_elements(module),
        ),
{
    module.finish()
}

/// `wagen::validate`: runs the validator of `wasmparser`, with every feature
/// switched on, over the bytes.
#[verifier::external_body]
pub(crate) fn validate_module(bytes: &Vec<u8>) -> (r: Result<
    (),
    wagen::parser::BinaryReaderError,
>)
    ensures
        r is Ok <==> valid_module(bytes@),
{
    wagen::validate(bytes).map(|_| ())
}

/// `BinaryReaderError::message`: the validator's words on what is wrong.
#[verifier::external_body]
pub(crate) fn validation_message(error: &wagen::parser::BinaryReaderError) -> String {
    error.message().to_string()
}

/// What a further item adds to the weight and to the number of imports.
pub proof fn lemma_declare(items: Seq<Declaration>, declaration: Declaration)
    ensures
        items_weight(items.push(declaration)) == items_weight(items) + weight(declaration),
        imports_in(items.push(declaration)) == imports_in(items) + if declaration is Import {
            1nat
        } else {
            0nat
        },
{
    assert(items.push(declaration).drop_last() =~= items);
}

/// The first items of a module weigh no more than all of them.
pub proof fn lemma_weight_of_prefix(items: Seq<Declaration>, count: int)
    requires
        0 <= count <= items.len(),
    ensures
        items_weight(items.take(count)) <= items_weight(items),
    decreases items.len(),
{
    if count == items.len() {
        assert(items.take(count) =~= items);
    } else {
        lemma_weight_of_prefix(items.drop_last(), count);
        assert(items.drop_last().take(count) =~= items.take(count));
    }
}

/// The weight of a single element segment.
pub proof fn lemma_weight_of_segment(table: u32, functions: Seq<u32>)
    ensures
        elements_weight(seq![(table, functions)]) == 1 + functions.len(),
        elements_weight(Seq::<(u32, Seq<u32>)>::empty().push((table, functions))) == 1
            + functions.len(),
{
    let one = seq![(table, functions)];
    assert(one.drop_last() =~= Seq::<(u32, Seq<u32>)>::empty());
    assert(elements_weight(one.drop_last()) == 0);
    assert(one.last() == (table, functions));
    assert(elements_weight(one) == elements_weight(one.drop_last()) + 1 + one.last().1.len());
    assert(Seq::<(u32, Seq<u32>)>::empty().push((table, functions)) =~= one);
}

} // verus!
