//! What the bodies of the shim's functions do when they run: which calls
//! they make, with which operands, and what they leave on the stack. The
//! bodies are straight-line code, so a run is told by the values' origins
//! alone.

use crate::bridge::{call_ops, dispatched, lemma_call_round_trip, run, Arg, Op};
use crate::encoder::Declaration;
use crate::generate::{
    entry_function, shim_declaration, shim_declarations, shim_length, trampoline_function,
    trampoline_type,
};
use crate::interface::{imported, lemma_shim_interface, shim_imports};
use crate::manifest::{lemma_sorted_imports, sorted_imports, ExportView, ImportView};
use crate::shim::{
    entry_body, export_error, kind_flag, push_arguments, trampoline_body, Bridge, BridgeIndices,
    Instruction, BRIDGES, MAX_HOST_PARAMS, TRAMPOLINES,
};
use crate::types::ValueType;
use vstd::prelude::*;

verus! {

/// A value on the operand stack, told by where it comes from.
pub enum Operand {
    /// The parameter with this number.
    Local(u32),
    /// A constant.
    Const(i32),
    /// What the call with this number returned at this position.
    Returned { call: nat, position: nat },
}

/// A call that a body makes.
pub enum Effect {
    /// A call of the function with this index.
    Call { function: u32, operands: Seq<Operand> },
    /// A call through a table, of the function in the slot that `slot` names.
    CallIndirect { type_index: u32, table_index: u32, slot: Operand, operands: Seq<Operand> },
}

/// How many values a function takes and returns.
pub struct Arity {
    pub params: nat,
    pub results: nat,
}

/// What a body runs against: the arity of each function and of each type, by
/// index.
pub struct Environment {
    pub functions: spec_fn(u32) -> Arity,
    pub types: spec_fn(u32) -> Arity,
}

/// The state of a run: the operand stack, and the calls made so far.
pub struct Machine {
    pub stack: Seq<Operand>,
    pub effects: Seq<Effect>,
}

/// The values that the call with number `call` returns.
pub open spec fn returned(call: nat, results: nat) -> Seq<Operand> {
    Seq::new(results, |position: int| Operand::Returned { call, position: position as nat })
}

/// The machine after one instruction, if the stack holds what the
/// instruction takes.
pub open spec fn step(machine: Machine, instruction: Instruction, env: Environment) -> Option<
    Machine,
> {
    let depth = machine.stack.len() as int;
    match instruction {
        Instruction::LocalGet(local) => Some(
            Machine { stack: machine.stack.push(Operand::Local(local)), ..machine },
        ),
        Instruction::I32Const(value) => Some(
            Machine { stack: machine.stack.push(Operand::Const(value)), ..machine },
        ),
        Instruction::Call(function) => {
            let arity = (env.functions)(function);
            if depth < arity.params {
                None
            } else {
                Some(
                    Machine {
                        stack: machine.stack.take(depth - arity.params) + returned(
                            machine.effects.len(),
                            arity.results,
                        ),
                        effects: machine.effects.push(
                            Effect::Call {
                                function,
                                operands: machine.stack.skip(depth - arity.params),
                            },
                        ),
                    },
                )
            }
        },
        Instruction::CallIndirect { type_index, table_index } => {
            let arity = (env.types)(type_index);
            if depth < arity.params + 1 {
                None
            } else {
                Some(
                    Machine {
                        stack: machine.stack.take(depth - 1 - arity.params) + returned(
                            machine.effects.len(),
                            arity.results,
                        ),
                        effects: machine.effects.push(
                            Effect::CallIndirect {
                                type_index,
                                table_index,
                                slot: machine.stack.last(),
                                operands: machine.stack.subrange(
                                    depth - 1 - arity.params,
                                    depth - 1,
                                ),
                            },
                        ),
                    },
                )
            }
        },
    }
}

/// The machine after a body has run from an empty stack, if every
/// instruction found what it takes.
pub open spec fn execute(body: Seq<Instruction>, env: Environment) -> Option<Machine>
    decreases body.len(),
{
    if body.len() == 0 {
        Some(Machine { stack: Seq::empty(), effects: Seq::empty() })
    } else {
        match execute(body.drop_last(), env) {
            Some(machine) => step(machine, body.last(), env),
            None => None,
        }
    }
}

/// The arity of a signature.
pub open spec fn arity_of(params: Seq<ValueType>, results: Seq<ValueType>) -> Arity {
    Arity { params: params.len(), results: results.len() }
}

/// The function types of the items of a module, in the order of their
/// indices: one for each type, each import and each function.
pub open spec fn declared_types(declarations: Seq<Declaration>) -> Seq<Arity>
    decreases declarations.len(),
{
    if declarations.len() == 0 {
        Seq::empty()
    } else {
        let before = declared_types(declarations.drop_last());
        match declarations.last() {
            Declaration::Import { module, name, params, results } => before.push(
                arity_of(params, results),
            ),
            Declaration::Type { params, results } => before.push(arity_of(params, results)),
            Declaration::Function { name, params, results, export, body } => before.push(
                arity_of(params, results),
            ),
        }
    }
}

/// The environment that a module gives to the bodies of its functions, as
/// far as the shim's bodies need it: the arities of the imported functions,
/// which come first among the function indices, and of the types.
pub open spec fn environment_of(declarations: Seq<Declaration>) -> Environment {
    Environment {
        functions: |index: u32|
            if index < imported(declarations).len() {
                arity_of(
                    imported(declarations)[index as int].params,
                    imported(declarations)[index as int].results,
                )
            } else {
                Arity { params: 0, results: 0 }
            },
        types: |index: u32|
            if index < declared_types(declarations).len() {
                declared_types(declarations)[index as int]
            } else {
                Arity { params: 0, results: 0 }
            },
    }
}

/// Whether an environment knows the bridge functions under their standard
/// indices.
pub open spec fn knows_bridge(env: Environment) -> bool {
    forall|k: u32|
        k < BRIDGES ==> #[trigger] (env.functions)(k) == arity_of(
            Bridge::at(k as int).params(),
            Bridge::at(k as int).results(),
        )
}

/// The parameters `1` to `count`, in order.
pub open spec fn operands_read(count: int) -> Seq<Operand> {
    Seq::new(count as nat, |i: int| Operand::Local((i + 1) as u32))
}

/// A body that reads the parameters `1` to `count` leaves them on the stack
/// and calls nothing.
proof fn lemma_reads(count: int, env: Environment)
    requires
        0 <= count,
    ensures
        execute(Seq::new(count as nat, |i: int| Instruction::LocalGet((i + 1) as u32)), env)
            == Some(Machine { stack: operands_read(count), effects: Seq::empty() }),
    decreases count,
{
    let body = Seq::new(count as nat, |i: int| Instruction::LocalGet((i + 1) as u32));
    if count > 0 {
        lemma_reads(count - 1, env);
        assert(body.drop_last() =~= Seq::new(
            (count - 1) as nat,
            |i: int| Instruction::LocalGet((i + 1) as u32),
        ));
        assert(operands_read(count - 1).push(Operand::Local(count as u32)) =~= operands_read(
            count,
        ));
    } else {
        assert(operands_read(count) =~= Seq::<Operand>::empty());
    }
}

/// A trampoline, run where its type has as many parameters as the
/// trampoline forwards, makes exactly one call: an indirect call through its
/// table, of the function in the slot that its first parameter names, with
/// its other parameters as operands in order. It leaves on the stack what
/// that call returns, and nothing else.
pub proof fn lemma_trampoline_run(
    params: int,
    results: nat,
    type_index: u32,
    table_index: u32,
    env: Environment,
)
    requires
        0 <= params,
        (env.types)(type_index) == (Arity { params: params as nat, results }),
    ensures
        execute(trampoline_body(params, type_index, table_index), env) == Some(
            Machine {
                stack: returned(0, results),
                effects: seq![
                    Effect::CallIndirect {
                        type_index,
                        table_index,
                        slot: Operand::Local(0),
                        operands: operands_read(params),
                    },
                ],
            },
        ),
{
    let body = trampoline_body(params, type_index, table_index);
    let reads = Seq::new(params as nat, |i: int| Instruction::LocalGet((i + 1) as u32));
    lemma_reads(params, env);
    let with_slot = body.drop_last();
    assert(with_slot.drop_last() =~= reads);
    assert(with_slot.last() == Instruction::LocalGet(0));
    let before_call = Machine {
        stack: operands_read(params).push(Operand::Local(0)),
        effects: Seq::empty(),
    };
    assert(execute(with_slot, env) == Some(before_call));
    assert(body.last() == Instruction::CallIndirect { type_index, table_index });
    let after = step(before_call, body.last(), env).unwrap();
    assert(before_call.stack.subrange(0, params) =~= operands_read(params));
    assert(before_call.stack.take(0) + returned(0, results) =~= returned(0, results));
    assert(after.effects =~= seq![
        Effect::CallIndirect {
            type_index,
            table_index,
            slot: Operand::Local(0),
            operands: operands_read(params),
        },
    ]);
    assert(after.stack =~= returned(0, results));
}

/// The calls by which an exported function hands its parameters over: for
/// each parameter in order, the push function of its type with the
/// parameter as operand.
pub open spec fn push_calls(params: Seq<ValueType>) -> Seq<Effect> {
    Seq::new(
        params.len(),
        |i: int|
            Effect::Call {
                function: BridgeIndices::standard().of(Bridge::push_of(params[i])),
                operands: seq![Operand::Local(i as u32)],
            },
    )
}

/// The calls of an exported function: the start of the call, the pushes,
/// and the dispatch with the export's number and kind.
pub open spec fn entry_calls(export: ExportView, index: i32) -> Seq<Effect> {
    seq![Effect::Call { function: 0, operands: seq![] }] + push_calls(export.params) + seq![
        Effect::Call {
            function: BridgeIndices::standard().of(
                Bridge::dispatch_of(export.results).unwrap(),
            ),
            operands: seq![Operand::Const(index), Operand::Const(kind_flag(export.kind))],
        },
    ]
}

/// The start of the call and the pushes of the first parameters leave the
/// stack empty.
proof fn lemma_pushes_run(params: Seq<ValueType>, env: Environment)
    requires
        knows_bridge(env),
    ensures
        execute(
            seq![Instruction::Call(0)] + push_arguments(params, BridgeIndices::standard()),
            env,
        ) == Some(
            Machine {
                stack: Seq::empty(),
                effects: seq![Effect::Call { function: 0, operands: seq![] }] + push_calls(params),
            },
        ),
    decreases params.len(),
{
    let bridge = BridgeIndices::standard();
    let head = seq![Instruction::Call(0)];
    let start = seq![Effect::Call { function: 0, operands: seq![] }];
    let body = head + push_arguments(params, bridge);
    assert((env.functions)(0u32) == arity_of(Bridge::at(0).params(), Bridge::at(0).results()));
    if params.len() == 0 {
        assert(body =~= head);
        assert(body.drop_last() =~= Seq::<Instruction>::empty());
        let empty = Machine { stack: Seq::empty(), effects: Seq::empty() };
        assert(execute(body.drop_last(), env) == Some(empty));
        let after = step(empty, Instruction::Call(0), env).unwrap();
        assert(after.stack =~= Seq::<Operand>::empty());
        assert(after.effects =~= start + push_calls(params));
    } else {
        let fewer = params.drop_last();
        let last = (params.len() - 1) as int;
        lemma_pushes_run(fewer, env);
        let before = Machine { stack: Seq::empty(), effects: start + push_calls(fewer) };
        let with_get = body.drop_last();
        assert(with_get.drop_last() =~= head + push_arguments(fewer, bridge));
        assert(with_get.last() == Instruction::LocalGet(last as u32));
        let got = Machine { stack: seq![Operand::Local(last as u32)], effects: before.effects };
        assert(step(before, with_get.last(), env).unwrap().stack =~= got.stack);
        assert(execute(with_get, env) == Some(got));
        let push = Bridge::push_of(params[last]);
        assert(body.last() == Instruction::Call(bridge.of(push)));
        let k = push.position();
        assert(bridge.of(push) == k as u32);
        assert(Bridge::at(k) == push);
        assert((env.functions)(k as u32) == arity_of(push.params(), push.results()));
        let after = step(got, body.last(), env).unwrap();
        assert(got.stack.skip(0) =~= seq![Operand::Local(last as u32)]);
        assert(after.stack =~= Seq::<Operand>::empty());
        assert(after.effects =~= start + push_calls(params));
    }
}

/// An exported function, run where the bridge functions have their standard
/// indices, starts a call, pushes each of its parameters in order through
/// the push function of the parameter's type, and dispatches with its number
/// and kind; it makes no other call, and leaves on the stack what the
/// dispatch returns.
pub proof fn lemma_entry_run(export: ExportView, index: i32, env: Environment)
    requires
        knows_bridge(env),
        Bridge::dispatch_of(export.results) is Some,
    ensures
        execute(entry_body(export, index, BridgeIndices::standard()), env) == Some(
            Machine {
                stack: returned(export.params.len() + 1, export.results.len()),
                effects: entry_calls(export, index),
            },
        ),
{
    let bridge = BridgeIndices::standard();
    let body = entry_body(export, index, bridge);
    let opening = seq![Instruction::Call(0)] + push_arguments(export.params, bridge);
    lemma_pushes_run(export.params, env);
    let pushed = Machine {
        stack: Seq::empty(),
        effects: seq![Effect::Call { function: 0, operands: seq![] }] + push_calls(export.params),
    };
    let b2 = body.drop_last();
    let b1 = b2.drop_last();
    assert(b1.drop_last() =~= opening);
    assert(b1.last() == Instruction::I32Const(index));
    assert(b2.last() == Instruction::I32Const(kind_flag(export.kind)));
    let m1 = Machine { stack: seq![Operand::Const(index)], effects: pushed.effects };
    assert(step(pushed, b1.last(), env).unwrap().stack =~= m1.stack);
    assert(execute(b1, env) == Some(m1));
    let m2 = Machine {
        stack: seq![Operand::Const(index), Operand::Const(kind_flag(export.kind))],
        effects: pushed.effects,
    };
    assert(step(m1, b2.last(), env).unwrap().stack =~= m2.stack);
    assert(execute(b2, env) == Some(m2));
    let dispatch = Bridge::dispatch_of(export.results).unwrap();
    let k = dispatch.position();
    assert(body.last() == Instruction::Call(bridge.of(dispatch)));
    assert(bridge.of(dispatch) == k as u32);
    assert(Bridge::at(k) == dispatch);
    assert((env.functions)(k as u32) == arity_of(dispatch.params(), dispatch.results()));
    assert(dispatch.results().len() == export.results.len());
    let after = step(m2, body.last(), env).unwrap();
    assert(m2.stack.skip(0) =~= m2.stack);
    assert(m2.stack.take(0) + returned(pushed.effects.len(), export.results.len()) =~= returned(
        export.params.len() + 1,
        export.results.len(),
    ));
    assert(after.stack =~= returned(export.params.len() + 1, export.results.len()));
    assert(after.effects =~= entry_calls(export, index));
}

/// What a call of a bridge function does to the stack of argument frames,
/// given the values of the caller's parameters: the start opens a frame, a
/// push appends the parameter that is its operand, a dispatch closes the
/// frame.
pub open spec fn bridge_op(effect: Effect, values: Seq<Arg>) -> Op {
    match effect {
        Effect::Call { function, operands } => if function == 0 {
            Op::Begin
        } else if function < 5 {
            match operands[0] {
                Operand::Local(local) => Op::Push(values[local as int]),
                _ => Op::Begin,
            }
        } else {
            Op::Dispatch
        },
        Effect::CallIndirect { .. } => Op::Dispatch,
    }
}

/// The calls of an exported function are one call on the stack of argument
/// frames: they open a frame, append the values of the function's
/// parameters in order, and dispatch. So the dispatch calls the plugin with
/// exactly these values, and the stack is left as it was found.
pub proof fn lemma_entry_protocol(export: ExportView, index: i32, values: Seq<Arg>)
    requires
        values.len() == export.params.len(),
        export.params.len() <= u32::MAX,
        Bridge::dispatch_of(export.results) is Some,
    ensures
        entry_calls(export, index).map_values(|e: Effect| bridge_op(e, values)) == call_ops(values),
{
    let calls = entry_calls(export, index);
    let ops = calls.map_values(|e: Effect| bridge_op(e, values));
    let expected = call_ops(values);
    assert(ops.len() == expected.len());
    assert forall|j: int| 0 <= j < ops.len() implies ops[j] == expected[j] by {
        if j == 0 {
        } else if j <= export.params.len() {
            let i = j - 1;
            assert(calls[j] == push_calls(export.params)[i]);
            let push = Bridge::push_of(export.params[i]);
            assert(0 < BridgeIndices::standard().of(push) < 5);
            assert(expected[j] == Op::Push(values[i]));
        } else {
            let dispatch = Bridge::dispatch_of(export.results).unwrap();
            assert(BridgeIndices::standard().of(dispatch) >= 5);
        }
    }
    assert(ops =~= expected);
}

/// The types of the shim for a manifest, in the order of their indices: those
/// of the bridge imports and of the host imports in table order, then for
/// each trampoline the type it calls through and its own, then those of the
/// exported functions.
pub open spec fn shim_types(exports: Seq<ExportView>, imports: Seq<ImportView>) -> Seq<Arity> {
    let sorted = sorted_imports(imports);
    let n = imports.len() as int;
    Seq::new(
        (BRIDGES + n + 2 * TRAMPOLINES + exports.len()) as nat,
        |index: int|
            if index < BRIDGES {
                arity_of(Bridge::at(index).params(), Bridge::at(index).results())
            } else if index < BRIDGES + n {
                arity_of(sorted[index - BRIDGES].params, sorted[index - BRIDGES].results)
            } else if index < BRIDGES + n + 2 * TRAMPOLINES {
                let place = index - BRIDGES - n;
                if place % 2 == 0 {
                    Arity { params: (place / 2 / 2) as nat, results: (place / 2 % 2) as nat }
                } else {
                    Arity { params: (place / 2 / 2 + 1) as nat, results: (place / 2 % 2) as nat }
                }
            } else {
                let export = exports[index - BRIDGES - n - 2 * TRAMPOLINES];
                arity_of(export.params, export.results)
            },
    )
}

/// The types of the first `count` items of a shim are the first of
/// `shim_types`.
proof fn lemma_types_of_prefix(exports: Seq<ExportView>, imports: Seq<ImportView>, count: int)
    requires
        0 <= count <= shim_length(exports.len() as int, imports.len() as int),
    ensures
        declared_types(shim_declarations(exports, imports).take(count)) == shim_types(
            exports,
            imports,
        ).take(count),
    decreases count,
{
    let shim = shim_declarations(exports, imports);
    let types = shim_types(exports, imports);
    let n = imports.len() as int;
    lemma_sorted_imports(imports);
    if count == 0 {
        assert(declared_types(shim.take(0)) =~= types.take(0));
    } else {
        lemma_types_of_prefix(exports, imports, count - 1);
        let at = count - 1;
        let prefix = shim.take(count);
        assert(prefix.drop_last() =~= shim.take(at));
        assert(prefix.last() == shim_declaration(exports, sorted_imports(imports), at));
        if BRIDGES + n <= at < BRIDGES + n + 2 * TRAMPOLINES {
            let place = at - BRIDGES - n;
            if place % 2 == 0 {
                assert(prefix.last() == trampoline_type(place / 2));
            } else {
                assert(prefix.last() == trampoline_function(place / 2, n));
            }
        }
        assert(types.take(at + 1) =~= types.take(at).push(types[at]));
    }
}

/// In the shim for a manifest the functions and types have the indices that
/// its bodies use: the bridge functions are the functions 0 to 7, and the
/// type through which the trampoline for `params` operands and `results`
/// results calls has that many parameters and results.
pub proof fn lemma_shim_environment(
    exports: Seq<ExportView>,
    imports: Seq<ImportView>,
    params: int,
    results: int,
)
    requires
        0 <= params <= MAX_HOST_PARAMS,
        0 <= results <= 1,
        imports.len() + exports.len() <= 0x0200_0000,
    ensures
        knows_bridge(environment_of(shim_declarations(exports, imports))),
        (environment_of(shim_declarations(exports, imports)).types)(
            (BRIDGES + imports.len() + 2 * (2 * params + results)) as u32,
        ) == (Arity { params: params as nat, results: results as nat }),
{
    let shim = shim_declarations(exports, imports);
    let env = environment_of(shim);
    let n = imports.len() as int;
    lemma_sorted_imports(imports);
    lemma_shim_interface(exports, imports);
    lemma_types_of_prefix(exports, imports, shim.len() as int);
    assert(shim.take(shim.len() as int) =~= shim);
    let types = shim_types(exports, imports);
    assert(types.take(types.len() as int) =~= types);
    assert(declared_types(shim) == types);
    assert forall|k: u32| k < BRIDGES implies #[trigger] (env.functions)(k) == arity_of(
        Bridge::at(k as int).params(),
        Bridge::at(k as int).results(),
    ) by {
        assert(shim_imports(imports)[k as int] == Bridge::at(k as int).import());
    }
    let index = BRIDGES + n + 2 * (2 * params + results);
    assert(types[index] == (Arity { params: params as nat, results: results as nat }));
}

/// The exported function of a shim, run in the shim, is one call of the
/// plugin: on any stack of argument frames it opens a frame, appends the
/// values of its parameters in order and dispatches, so that the dispatch
/// calls with exactly these values and the frames of the calls around it are
/// as they were.
pub proof fn lemma_export_is_one_call(
    exports: Seq<ExportView>,
    imports: Seq<ImportView>,
    number: int,
    values: Seq<Arg>,
    stack: Seq<Seq<Arg>>,
)
    requires
        0 <= number < exports.len(),
        export_error(exports[number]) is None,
        values.len() == exports[number].params.len(),
        exports[number].params.len() <= u32::MAX,
        imports.len() + exports.len() <= 0x0200_0000,
    ensures
        ({
            let shim = shim_declarations(exports, imports);
            let at = BRIDGES + imports.len() + 2 * TRAMPOLINES + number;
            let calls = entry_calls(exports[number], number as i32);
            let ops = calls.map_values(|e: Effect| bridge_op(e, values));
            &&& shim[at] == entry_function(exports[number], number)
            &&& execute(
                entry_body(exports[number], number as i32, BridgeIndices::standard()),
                environment_of(shim),
            ) == Some(
                Machine {
                    stack: returned(
                        exports[number].params.len() + 1,
                        exports[number].results.len(),
                    ),
                    effects: calls,
                },
            )
            &&& run(stack, ops) == stack
            &&& dispatched(stack, ops) == seq![values]
        }),
{
    let shim = shim_declarations(exports, imports);
    lemma_sorted_imports(imports);
    lemma_shim_environment(exports, imports, 0, 0);
    lemma_entry_run(exports[number], number as i32, environment_of(shim));
    lemma_entry_protocol(exports[number], number as i32, values);
    lemma_call_round_trip(stack, values);
}

/// The trampoline of a shim for `params` operands and `results` results, run
/// in the shim, makes exactly one call: an indirect call through table 0
/// that forwards its `params` operands in order to the function in the slot
/// that its first parameter names, and leaves the `results` values that this
/// call returns.
pub proof fn lemma_trampoline_is_one_indirect_call(
    exports: Seq<ExportView>,
    imports: Seq<ImportView>,
    params: int,
    results: int,
)
    requires
        0 <= params <= MAX_HOST_PARAMS,
        0 <= results <= 1,
        imports.len() + exports.len() <= 0x0200_0000,
    ensures
        ({
            let shim = shim_declarations(exports, imports);
            let k = 2 * params + results;
            let type_index = (BRIDGES + imports.len() + 2 * k) as u32;
            &&& shim[BRIDGES + imports.len() + 2 * k + 1] == trampoline_function(
                k,
                imports.len() as int,
            )
            &&& execute(trampoline_body(params, type_index, 0), environment_of(shim)) == Some(
                Machine {
                    stack: returned(0, results as nat),
                    effects: seq![
                        Effect::CallIndirect {
                            type_index,
                            table_index: 0,
                            slot: Operand::Local(0),
                            operands: operands_read(params),
                        },
                    ],
                },
            )
            &&& operands_read(params).len() == params
        }),
{
    let shim = shim_declarations(exports, imports);
    let k = 2 * params + results;
    let type_index = (BRIDGES + imports.len() + 2 * k) as u32;
    lemma_sorted_imports(imports);
    lemma_shim_environment(exports, imports, params, results);
    lemma_trampoline_run(params, results as nat, type_index, 0, environment_of(shim));
}

} // verus!
