//! What a shim shows to the outside: the functions it imports and the
//! functions it exports, and the laws that tie both to the manifest.

use crate::encoder::{valid_module, Declaration, WEIGHT_LIMIT};
use crate::generate::{
    generated, shim_bytes, shim_declaration, shim_declarations, shim_elements, shim_length,
    shim_tables, shim_weight, trampoline_function, trampoline_type,
};
use crate::manifest::{
    keys_tell_apart, lemma_sorted_imports, lemma_table_order_ignores_declaration_order, ordered,
    sorted_imports, ExportView, ImportView,
};
use crate::shim::{
    export_error, first_import_error, import_supported, int64s,
    manifest_error, trampoline_body, trampoline_name, trampoline_params, Bridge, GenerateErrorView,
    Instruction, BRIDGES, MAX_HOST_PARAMS, TRAMPOLINES,
};
use crate::types::ValueType;
use vstd::prelude::*;

verus! {

/// An exported function as the outside sees it: its name and signature.
pub struct Signature {
    pub name: Seq<char>,
    pub params: Seq<ValueType>,
    pub results: Seq<ValueType>,
}

/// The imports among the items of a module, in order.
pub open spec fn imported(declarations: Seq<Declaration>) -> Seq<ImportView>
    decreases declarations.len(),
{
    if declarations.len() == 0 {
        Seq::empty()
    } else {
        let before = imported(declarations.drop_last());
        match declarations.last() {
            Declaration::Import { module, name, params, results } => before.push(
                ImportView { module, name, params, results },
            ),
            _ => before,
        }
    }
}

/// The exported functions among the items of a module, in order, each under
/// the name of its export.
pub open spec fn exported(declarations: Seq<Declaration>) -> Seq<Signature>
    decreases declarations.len(),
{
    if declarations.len() == 0 {
        Seq::empty()
    } else {
        let before = exported(declarations.drop_last());
        match declarations.last() {
            Declaration::Function { name, params, results, export: Some(exported), body } => {
                before.push(Signature { name: exported, params, results })
            },
            _ => before,
        }
    }
}

/// The signature under which trampoline number `k` is exported.
pub open spec fn trampoline_signature(k: int) -> Signature {
    Signature {
        name: trampoline_name(k / 2, k % 2),
        params: trampoline_params(k / 2),
        results: int64s(k % 2),
    }
}

/// The signature that an export asks for.
pub open spec fn export_signature(export: ExportView) -> Signature {
    Signature { name: export.name, params: export.params, results: export.results }
}

/// What the shim for these imports imports: the bridge functions, then the
/// host imports in table order.
pub open spec fn shim_imports(imports: Seq<ImportView>) -> Seq<ImportView> {
    Seq::new(BRIDGES as nat, |k: int| Bridge::at(k).import()) + sorted_imports(imports)
}

/// What the shim for these exports exports: the trampolines, then one
/// function for each export, in declaration order.
pub open spec fn shim_exports(exports: Seq<ExportView>) -> Seq<Signature> {
    Seq::new(TRAMPOLINES as nat, |k: int| trampoline_signature(k)) + exports.map_values(
        |e: ExportView| export_signature(e),
    )
}

/// How many imports stand among the first `count` items of a shim with
/// `imports` host imports.
pub open spec fn imports_within(count: int, imports: int) -> int {
    if count <= BRIDGES + imports {
        count
    } else {
        BRIDGES + imports
    }
}

/// How many exported functions stand among the first `count` items of a shim
/// with `imports` host imports.
pub open spec fn exports_within(count: int, imports: int) -> int {
    if count <= BRIDGES + imports {
        0
    } else if count <= BRIDGES + imports + 2 * TRAMPOLINES {
        (count - BRIDGES - imports) / 2
    } else {
        count - BRIDGES - imports - TRAMPOLINES
    }
}

/// The imports and exports among the first `count` items of a shim are the
/// first of `shim_imports` and `shim_exports`.
proof fn lemma_interface_of_prefix(exports: Seq<ExportView>, imports: Seq<ImportView>, count: int)
    requires
        0 <= count <= shim_length(exports.len() as int, imports.len() as int),
    ensures
        imported(shim_declarations(exports, imports).take(count)) == shim_imports(imports).take(
            imports_within(count, imports.len() as int),
        ),
        exported(shim_declarations(exports, imports).take(count)) == shim_exports(exports).take(
            exports_within(count, imports.len() as int),
        ),
    decreases count,
{
    let shim = shim_declarations(exports, imports);
    let n = imports.len() as int;
    lemma_sorted_imports(imports);
    if count == 0 {
        assert(imported(shim.take(0)) =~= shim_imports(imports).take(0));
        assert(exported(shim.take(0)) =~= shim_exports(exports).take(0));
    } else {
        lemma_interface_of_prefix(exports, imports, count - 1);
        let at = count - 1;
        let prefix = shim.take(count);
        assert(prefix.drop_last() =~= shim.take(at));
        assert(prefix.last() == shim_declaration(exports, sorted_imports(imports), at));
        let imports_before = imports_within(at, n);
        let exports_before = exports_within(at, n);
        if at < BRIDGES + n {
            assert(shim_imports(imports).take(imports_before + 1) =~= shim_imports(imports).take(
                imports_before,
            ).push(shim_imports(imports)[imports_before]));
        } else if at < BRIDGES + n + 2 * TRAMPOLINES {
            let place = at - BRIDGES - n;
            if place % 2 == 1 {
                assert(shim_exports(exports).take(exports_before + 1) =~= shim_exports(
                    exports,
                ).take(exports_before).push(shim_exports(exports)[exports_before]));
            }
        } else {
            assert(shim_exports(exports).take(exports_before + 1) =~= shim_exports(exports).take(
                exports_before,
            ).push(shim_exports(exports)[exports_before]));
        }
    }
}

/// The shim for a manifest imports the bridge functions and the manifest's
/// imports, each as often as the manifest names it and in table order, and
/// nothing else; it exports the trampolines and, under its name and with its
/// signature, one function for each export of the manifest in declaration
/// order, and nothing else. Its one table has a slot for each host import,
/// and its one element segment writes the host imports into that table, slot
/// by slot in table order.
pub proof fn lemma_shim_interface(exports: Seq<ExportView>, imports: Seq<ImportView>)
    ensures
        imported(shim_declarations(exports, imports)) == shim_imports(imports),
        exported(shim_declarations(exports, imports)) == shim_exports(exports),
        shim_tables(imports).len() == 1,
        imports.len() <= u64::MAX ==> shim_tables(imports)[0] == imports.len(),
        shim_elements(imports).len() == 1,
        shim_elements(imports)[0].0 == 0,
        shim_elements(imports)[0].1.len() == imports.len(),
        forall|slot: int|
            0 <= slot < imports.len() && BRIDGES + slot <= u32::MAX ==> (
            #[trigger] shim_elements(imports)[0].1[slot]) == BRIDGES + slot,
        sorted_imports(imports).to_multiset() == imports.to_multiset(),
        ordered(sorted_imports(imports)),
{
    let shim = shim_declarations(exports, imports);
    lemma_sorted_imports(imports);
    lemma_interface_of_prefix(exports, imports, shim.len() as int);
    assert(shim.take(shim.len() as int) =~= shim);
    assert(shim_imports(imports).take(BRIDGES + imports.len()) =~= shim_imports(imports));
    assert(shim_exports(exports).take(TRAMPOLINES + exports.len()) =~= shim_exports(exports));
}

/// A manifest in which an export declares more than one result is rejected.
/// Where its imports are supported and no earlier export is faulty, the error
/// names that export.
pub proof fn lemma_multiple_results_rejected(
    exports: Seq<ExportView>,
    imports: Seq<ImportView>,
    index: int,
)
    requires
        0 <= index < exports.len(),
        exports[index].results.len() > 1,
    ensures
        manifest_error(exports, imports) is Some,
        first_import_error(imports) is None && (forall|j: int|
            0 <= j < index ==> export_error(#[trigger] exports[j]) is None) ==> manifest_error(
            exports,
            imports,
        ) == Some(GenerateErrorView::MultipleResults { export: exports[index].name }),
    decreases exports.len(),
{
    if index > 0 {
        let rest = exports.drop_first();
        lemma_multiple_results_rejected(rest, imports, index - 1);
        if forall|j: int| 0 <= j < index ==> export_error(#[trigger] exports[j]) is None {
            assert(export_error(exports[0]) is None);
            assert forall|j: int| 0 <= j < index - 1 implies export_error(#[trigger] rest[j])
                is None by {
                assert(rest[j] == exports[j + 1]);
            }
        }
    }
}

/// A manifest is accepted if each import has at most `MAX_HOST_PARAMS`
/// parameters and at most one result, and each export has no result or one
/// result of an integer type.
pub proof fn lemma_supported_manifest_accepted(exports: Seq<ExportView>, imports: Seq<ImportView>)
    requires
        forall|i: int| 0 <= i < imports.len() ==> import_supported(#[trigger] imports[i]),
        forall|j: int|
            0 <= j < exports.len() ==> (#[trigger] exports[j]).results.len() == 0 || (
            exports[j].results.len() == 1 && exports[j].results[0].is_integer()),
    ensures
        manifest_error(exports, imports) is None,
    decreases exports.len() + imports.len(),
{
    if imports.len() > 0 {
        let rest = imports.drop_first();
        assert(import_supported(imports[0]));
        assert forall|i: int| 0 <= i < rest.len() implies import_supported(#[trigger] rest[i]) by {
            assert(rest[i] == imports[i + 1]);
        }
        lemma_supported_manifest_accepted(exports, rest);
    } else if exports.len() > 0 {
        let rest = exports.drop_first();
        assert(exports[0].results.len() == 0 || (exports[0].results.len() == 1
            && exports[0].results[0].is_integer()));
        assert forall|j: int| 0 <= j < rest.len() implies (#[trigger] rest[j]).results.len() == 0
            || (rest[j].results.len() == 1 && rest[j].results[0].is_integer()) by {
            assert(rest[j] == exports[j + 1]);
        }
        lemma_supported_manifest_accepted(rest, imports);
    }
}

/// Generation for a supported manifest succeeds exactly where the shim is
/// within the weight limit and the validator accepts its module. The result
/// is then the module of the shim's table, items and element segment, which
/// exports the trampolines and one function for each export of the manifest,
/// under its name and with its signature: none is missing and there is none
/// more.
pub proof fn lemma_supported_manifest_generated(
    exports: Seq<ExportView>,
    imports: Seq<ImportView>,
    r: Result<Seq<u8>, GenerateErrorView>,
)
    requires
        forall|i: int| 0 <= i < imports.len() ==> import_supported(#[trigger] imports[i]),
        forall|j: int|
            0 <= j < exports.len() ==> (#[trigger] exports[j]).results.len() == 0 || (
            exports[j].results.len() == 1 && exports[j].results[0].is_integer()),
        generated(exports, imports, r),
    ensures
        r is Ok <==> shim_weight(exports, imports) <= WEIGHT_LIMIT && valid_module(
            shim_bytes(exports, imports),
        ),
        r matches Ok(bytes) ==> bytes == shim_bytes(exports, imports),
        exported(shim_declarations(exports, imports)) == shim_exports(exports),
{
    lemma_supported_manifest_accepted(exports, imports);
    lemma_shim_interface(exports, imports);
}

/// The number of indirect calls in a body.
pub open spec fn indirect_calls(body: Seq<Instruction>) -> nat
    decreases body.len(),
{
    if body.len() == 0 {
        0
    } else {
        indirect_calls(body.drop_last()) + if body.last() is CallIndirect {
            1nat
        } else {
            0nat
        }
    }
}

/// A body of nothing but reads of locals makes no indirect call.
proof fn lemma_locals_make_no_call(params: int)
    requires
        0 <= params,
    ensures
        indirect_calls(Seq::new(params as nat, |i: int| Instruction::LocalGet((i + 1) as u32)))
            == 0,
    decreases params,
{
    let body = Seq::new(params as nat, |i: int| Instruction::LocalGet((i + 1) as u32));
    if params > 0 {
        lemma_locals_make_no_call(params - 1);
        assert(body.drop_last() =~= Seq::new(
            (params - 1) as nat,
            |i: int| Instruction::LocalGet((i + 1) as u32),
        ));
    }
}

/// A shim holds twelve trampolines, one for each count of operands from 0 to
/// 5 without and with a result; each stands behind the type through which it
/// calls. The trampoline for `params` operands reads its operands in order,
/// then the table slot, and makes exactly one indirect call, through table 0
/// and with a type of `params` parameters and as many results as it returns
/// itself.
pub proof fn lemma_trampolines(
    exports: Seq<ExportView>,
    imports: Seq<ImportView>,
    params: int,
    results: int,
)
    requires
        0 <= params <= MAX_HOST_PARAMS,
        0 <= results <= 1,
    ensures
        ({
            let shim = shim_declarations(exports, imports);
            let k = 2 * params + results;
            let at = BRIDGES + imports.len() + 2 * k;
            let type_index = at as u32;
            &&& at + 1 < shim.len()
            &&& shim[at] == Declaration::Type { params: int64s(params), results: int64s(results) }
            &&& shim[at + 1] == Declaration::Function {
                name: trampoline_name(params, results),
                params: trampoline_params(params),
                results: int64s(results),
                export: Some(trampoline_name(params, results)),
                body: trampoline_body(params, type_index, 0),
            }
            &&& trampoline_body(params, type_index, 0).len() == params + 2
            &&& forall|i: int|
                0 <= i < params ==> trampoline_body(params, type_index, 0)[i]
                    == Instruction::LocalGet((i + 1) as u32)
            &&& trampoline_body(params, type_index, 0)[params] == Instruction::LocalGet(0)
            &&& trampoline_body(params, type_index, 0)[params + 1] == Instruction::CallIndirect {
                type_index,
                table_index: 0,
            }
            &&& indirect_calls(trampoline_body(params, type_index, 0)) == 1
            &&& exported(shim).subrange(0, TRAMPOLINES as int) == Seq::new(
                TRAMPOLINES as nat,
                |k: int| trampoline_signature(k),
            )
        }),
{
    let shim = shim_declarations(exports, imports);
    let k = 2 * params + results;
    let at = BRIDGES + imports.len() + 2 * k;
    let type_index = at as u32;
    lemma_sorted_imports(imports);
    lemma_shim_interface(exports, imports);
    assert(shim[at] == trampoline_type(k));
    assert(shim[at + 1] == trampoline_function(k, imports.len() as int));
    let body = trampoline_body(params, type_index, 0);
    let reads = Seq::new(params as nat, |i: int| Instruction::LocalGet((i + 1) as u32));
    lemma_locals_make_no_call(params);
    assert(body.drop_last().drop_last() =~= reads);
    assert(indirect_calls(body) == 1) by {
        assert(body.last() is CallIndirect);
        assert(body.drop_last().last() is LocalGet);
        assert(indirect_calls(body.drop_last().drop_last()) == 0);
        assert(indirect_calls(body.drop_last()) == 0);
    }
    assert(exported(shim).subrange(0, TRAMPOLINES as int) =~= Seq::new(
        TRAMPOLINES as nat,
        |k: int| trampoline_signature(k),
    ));
}

/// A manifest has one result of generation only.
pub proof fn lemma_generation_is_determined(
    exports: Seq<ExportView>,
    imports: Seq<ImportView>,
    first: Result<Seq<u8>, GenerateErrorView>,
    second: Result<Seq<u8>, GenerateErrorView>,
)
    requires
        generated(exports, imports, first),
        generated(exports, imports, second),
    ensures
        first == second,
{
}

/// Imports that the trampolines can reach raise no error.
proof fn lemma_supported_imports(imports: Seq<ImportView>)
    requires
        forall|i: int| 0 <= i < imports.len() ==> import_supported(#[trigger] imports[i]),
    ensures
        first_import_error(imports) is None,
    decreases imports.len(),
{
    if imports.len() > 0 {
        let rest = imports.drop_first();
        assert(import_supported(imports[0]));
        assert forall|i: int| 0 <= i < rest.len() implies import_supported(#[trigger] rest[i]) by {
            assert(rest[i] == imports[i + 1]);
        }
        lemma_supported_imports(rest);
    }
}

/// The shim does not depend on the order in which the manifest names its
/// imports: two manifests with the same exports and the same supported
/// imports, named in whatever order, have the same shim and the same result
/// of generation, where the module and name of an import tell it apart from
/// the others.
pub proof fn lemma_generation_ignores_import_order(
    exports: Seq<ExportView>,
    a: Seq<ImportView>,
    b: Seq<ImportView>,
    first: Result<Seq<u8>, GenerateErrorView>,
    second: Result<Seq<u8>, GenerateErrorView>,
)
    requires
        a.to_multiset() == b.to_multiset(),
        keys_tell_apart(a),
        forall|i: int| 0 <= i < a.len() ==> import_supported(#[trigger] a[i]),
        generated(exports, a, first),
        generated(exports, b, second),
    ensures
        shim_tables(a) == shim_tables(b),
        shim_declarations(exports, a) == shim_declarations(exports, b),
        shim_elements(a) == shim_elements(b),
        first == second,
{
    broadcast use vstd::seq_lib::group_to_multiset_ensures;

    a.to_multiset_ensures();
    b.to_multiset_ensures();
    lemma_table_order_ignores_declaration_order(a, b);
    assert(a.len() == b.len());
    assert(shim_declarations(exports, a) =~= shim_declarations(exports, b));
    assert forall|i: int| 0 <= i < b.len() implies import_supported(#[trigger] b[i]) by {
        assert(b.contains(b[i]));
        assert(a.to_multiset().count(b[i]) > 0);
        assert(a.contains(b[i]));
        let p = choose|p: int| 0 <= p < a.len() && a[p] == b[i];
        assert(import_supported(a[p]));
    }
    lemma_supported_imports(a);
    lemma_supported_imports(b);
}

} // verus!
