//! The shim generator: from a manifest to the binary module that exposes the
//! plugin's exports to the host and the host's functions to the interpreter.

use crate::encoder::{
    declare_elements, declare_function, declare_import, declare_table, declare_type,
    export_function, finish_module, function_body, imports_in, items_weight, lemma_declare,
    lemma_weight_of_prefix, lemma_weight_of_segment, module_bytes, module_elements, module_items,
    module_tables, module_weight, new_module, push_instructions, valid_module, validate_module,
    validation_message, weight, weight_of, Declaration, WEIGHT_LIMIT,
};
use crate::manifest::{
    export_views, import_views, sort_imports, sorted_imports, Export, ExportView, Import,
    ImportView, Manifest,
};
use crate::shim::{
    body_of_entry, body_of_trampoline, check_manifest, entry_body, export_error,
    first_export_error, int64s, manifest_error, name_of_trampoline, params_of_trampoline,
    repeat_int64, trampoline_body, trampoline_name, trampoline_params, Bridge, BridgeIndices,
    GenerateError, GenerateErrorView, Instruction, BRIDGES, TRAMPOLINES,
};
use crate::types::ValueType;
use vstd::prelude::*;

verus! {

/// The declaration of an import.
pub open spec fn import_declaration(import: ImportView) -> Declaration {
    Declaration::Import {
        module: import.module,
        name: import.name,
        params: import.params,
        results: import.results,
    }
}

/// The type through which trampoline number `k` calls: `k / 2` operands of
/// type `Int64`, and a result of that type if `k` is odd.
pub open spec fn trampoline_type(k: int) -> Declaration {
    Declaration::Type { params: int64s(k / 2), results: int64s(k % 2) }
}

/// Trampoline number `k` of a shim with `imports` host imports. It calls
/// through table 0 with the type that stands just before it.
pub open spec fn trampoline_function(k: int, imports: int) -> Declaration {
    Declaration::Function {
        name: trampoline_name(k / 2, k % 2),
        params: trampoline_params(k / 2),
        results: int64s(k % 2),
        export: Some(trampoline_name(k / 2, k % 2)),
        body: trampoline_body(k / 2, (BRIDGES + imports + 2 * k) as u32, 0),
    }
}

/// The function that the shim exports for the export with number `index`:
/// the export's own name and signature.
pub open spec fn entry_function(export: ExportView, index: int) -> Declaration {
    Declaration::Function {
        name: export.name,
        params: export.params,
        results: export.results,
        export: Some(export.name),
        body: entry_body(export, index as i32, BridgeIndices::standard()),
    }
}

/// The item at a position of the shim for `exports` and for `imports` in
/// table order: the bridge imports, the host imports, the trampolines each
/// behind the type it calls through, and the exported functions.
pub open spec fn shim_declaration(
    exports: Seq<ExportView>,
    imports: Seq<ImportView>,
    at: int,
) -> Declaration {
    let n = imports.len() as int;
    if at < BRIDGES {
        import_declaration(Bridge::at(at).import())
    } else if at < BRIDGES + n {
        import_declaration(imports[at - BRIDGES])
    } else if at < BRIDGES + n + 2 * TRAMPOLINES {
        let place = at - BRIDGES - n;
        if place % 2 == 0 {
            trampoline_type(place / 2)
        } else {
            trampoline_function(place / 2, n)
        }
    } else {
        entry_function(
            exports[at - BRIDGES - n - 2 * TRAMPOLINES],
            at - BRIDGES - n - 2 * TRAMPOLINES,
        )
    }
}

/// The number of items of a shim with so many exports and imports.
pub open spec fn shim_length(exports: int, imports: int) -> int {
    BRIDGES + imports + 2 * TRAMPOLINES + exports
}

/// The types, imports and functions of the shim of a manifest, in the order
/// of its type section.
pub open spec fn shim_declarations(exports: Seq<ExportView>, imports: Seq<ImportView>) -> Seq<
    Declaration,
> {
    Seq::new(
        shim_length(exports.len() as int, imports.len() as int) as nat,
        |at: int| shim_declaration(exports, sorted_imports(imports), at),
    )
}

/// The tables of the shim of a manifest: one, with a slot for each host
/// import.
pub open spec fn shim_tables(imports: Seq<ImportView>) -> Seq<u64> {
    seq![imports.len() as u64]
}

/// The element segments of the shim of a manifest: one, which fills table 0
/// with the host imports in table order. The host imports are the functions
/// behind the bridge imports.
pub open spec fn shim_elements(imports: Seq<ImportView>) -> Seq<(u32, Seq<u32>)> {
    seq![(0u32, Seq::new(imports.len(), |slot: int| (BRIDGES + slot) as u32))]
}

/// The weight of the shim of a manifest.
pub open spec fn shim_weight(exports: Seq<ExportView>, imports: Seq<ImportView>) -> nat {
    module_weight(shim_tables(imports), shim_declarations(exports, imports), shim_elements(imports))
}

/// The binary module of the shim of a manifest.
pub open spec fn shim_bytes(exports: Seq<ExportView>, imports: Seq<ImportView>) -> Seq<u8> {
    module_bytes(shim_tables(imports), shim_declarations(exports, imports), shim_elements(imports))
}

/// Adds up the weight of a further part of a module on top of `total`, as
/// long as the sum stays within the limit.
fn charge(total: usize, a: usize, b: usize, c: usize, d: usize, e: usize) -> (r: Option<usize>)
    ensures
        r == if total + 1 + a + b + c + d + e <= WEIGHT_LIMIT {
            Some((total + 1 + a + b + c + d + e) as usize)
        } else {
            None
        },
{
    if total >= WEIGHT_LIMIT {
        return None;
    }
    let mut sum: usize = total + 1;
    if a > WEIGHT_LIMIT - sum {
        return None;
    }
    sum = sum + a;
    if b > WEIGHT_LIMIT - sum {
        return None;
    }
    sum = sum + b;
    if c > WEIGHT_LIMIT - sum {
        return None;
    }
    sum = sum + c;
    if d > WEIGHT_LIMIT - sum {
        return None;
    }
    sum = sum + d;
    if e > WEIGHT_LIMIT - sum {
        return None;
    }
    Some(sum + e)
}

/// Declares a table, if the module stays within the weight limit.
fn emit_table(module: &mut wagen::Module<'static>, used: &mut usize, minimum: u64) -> (r: Result<
    u32,
    GenerateError,
>)
    requires
        *old(used) == weight_of(*old(module)),
    ensures
        match r {
            Ok(index) => {
                &&& module_tables(*final(module)) == module_tables(*old(module)).push(minimum)
                &&& module_items(*final(module)) == module_items(*old(module))
                &&& module_elements(*final(module)) == module_elements(*old(module))
                &&& *final(used) == weight_of(*final(module))
                &&& *final(used) == *old(used) + 1
                &&& *final(used) <= WEIGHT_LIMIT
                &&& index == module_tables(*old(module)).len()
            },
            Err(e) => e@ is TooLarge && *old(used) + 1 > WEIGHT_LIMIT,
        },
{
    match charge(*used, 0, 0, 0, 0, 0) {
        Some(sum) => {
            let index = declare_table(module, minimum);
            *used = sum;
            Ok(index)
        },
        None => Err(GenerateError::TooLarge),
    }
}

/// Declares an import, if the module stays within the weight limit.
fn emit_import(module: &mut wagen::Module<'static>, used: &mut usize, import: &Import) -> (r:
    Result<u32, GenerateError>)
    requires
        *old(used) == weight_of(*old(module)),
    ensures
        match r {
            Ok(index) => {
                &&& module_items(*final(module)) == module_items(*old(module)).push(
                    import_declaration(import@),
                )
                &&& module_tables(*final(module)) == module_tables(*old(module))
                &&& module_elements(*final(module)) == module_elements(*old(module))
                &&& *final(used) == weight_of(*final(module))
                &&& *final(used) == *old(used) + weight(import_declaration(import@))
                &&& *final(used) <= WEIGHT_LIMIT
                &&& index == imports_in(module_items(*old(module)))
            },
            Err(e) => e@ is TooLarge && *old(used) + weight(import_declaration(import@))
                > WEIGHT_LIMIT,
        },
{
    proof {
        lemma_declare(module_items(*module), import_declaration(import@));
    }
    match charge(
        *used,
        import.module.as_str().as_bytes().len(),
        import.name.as_str().as_bytes().len(),
        import.params.len(),
        import.results.len(),
        0,
    ) {
        Some(sum) => {
            let index = declare_import(
                module,
                import.module.as_str(),
                import.name.as_str(),
                &import.params,
                &import.results,
            );
            *used = sum;
            Ok(index)
        },
        None => Err(GenerateError::TooLarge),
    }
}

/// Declares a function type, if the module stays within the weight limit.
fn emit_type(
    module: &mut wagen::Module<'static>,
    used: &mut usize,
    params: &Vec<ValueType>,
    results: &Vec<ValueType>,
) -> (r: Result<u32, GenerateError>)
    requires
        *old(used) == weight_of(*old(module)),
    ensures
        match r {
            Ok(index) => {
                &&& module_items(*final(module)) == module_items(*old(module)).push(
                    Declaration::Type { params: params@, results: results@ },
                )
                &&& module_tables(*final(module)) == module_tables(*old(module))
                &&& module_elements(*final(module)) == module_elements(*old(module))
                &&& *final(used) == weight_of(*final(module))
                &&& *final(used) == *old(used) + weight(
                    Declaration::Type { params: params@, results: results@ },
                )
                &&& *final(used) <= WEIGHT_LIMIT
                &&& index == module_items(*old(module)).len()
            },
            Err(e) => e@ is TooLarge && *old(used) + weight(
                Declaration::Type { params: params@, results: results@ },
            ) > WEIGHT_LIMIT,
        },
{
    proof {
        lemma_declare(
            module_items(*module),
            Declaration::Type { params: params@, results: results@ },
        );
    }
    match charge(*used, params.len(), results.len(), 0, 0, 0) {
        Some(sum) => {
            let index = declare_type(module, params, results);
            *used = sum;
            Ok(index)
        },
        None => Err(GenerateError::TooLarge),
    }
}

/// A function that is exported under its own name.
pub open spec fn exported_function(
    name: Seq<char>,
    params: Seq<ValueType>,
    results: Seq<ValueType>,
    body: Seq<Instruction>,
) -> Declaration {
    Declaration::Function { name, params, results, export: Some(name), body }
}

/// Declares a function with this body and exports it under its name, if the
/// module stays within the weight limit.
fn emit_function(
    module: &mut wagen::Module<'static>,
    used: &mut usize,
    name: &str,
    params: &Vec<ValueType>,
    results: &Vec<ValueType>,
    body: &Vec<Instruction>,
) -> (r: Result<(), GenerateError>)
    requires
        *old(used) == weight_of(*old(module)),
    ensures
        match r {
            Ok(_) => {
                &&& module_items(*final(module)) == module_items(*old(module)).push(
                    exported_function(name@, params@, results@, body@),
                )
                &&& module_tables(*final(module)) == module_tables(*old(module))
                &&& module_elements(*final(module)) == module_elements(*old(module))
                &&& *final(used) == weight_of(*final(module))
                &&& *final(used) == *old(used) + weight(
                    exported_function(name@, params@, results@, body@),
                )
                &&& *final(used) <= WEIGHT_LIMIT
            },
            Err(e) => e@ is TooLarge && *old(used) + weight(
                exported_function(name@, params@, results@, body@),
            ) > WEIGHT_LIMIT,
        },
{
    proof {
        lemma_declare(module_items(*module), exported_function(name@, params@, results@, body@));
    }
    let name_size = name.as_bytes().len();
    match charge(*used, name_size, name_size, params.len(), results.len(), body.len()) {
        Some(sum) => {
            let function = declare_function(module, name, params, results);
            export_function(function, name);
            push_instructions(function, body);
            assert(function_body(*function) =~= body@);
            *used = sum;
            Ok(())
        },
        None => Err(GenerateError::TooLarge),
    }
}

/// Declares the elements that fill a table, on a module without element
/// segments, if the module stays within the weight limit.
fn emit_elements(
    module: &mut wagen::Module<'static>,
    used: &mut usize,
    table: u32,
    functions: &Vec<u32>,
) -> (r: Result<(), GenerateError>)
    requires
        *old(used) == weight_of(*old(module)),
        module_elements(*old(module)) == Seq::<(u32, Seq<u32>)>::empty(),
    ensures
        match r {
            Ok(_) => {
                &&& module_elements(*final(module)) == seq![(table, functions@)]
                &&& module_tables(*final(module)) == module_tables(*old(module))
                &&& module_items(*final(module)) == module_items(*old(module))
                &&& *final(used) == weight_of(*final(module))
                &&& *final(used) == *old(used) + 1 + functions.len()
                &&& *final(used) <= WEIGHT_LIMIT
            },
            Err(e) => e@ is TooLarge && *old(used) + 1 + functions.len() > WEIGHT_LIMIT,
        },
{
    proof {
        lemma_weight_of_segment(table, functions@);
    }
    match charge(*used, functions.len(), 0, 0, 0, 0) {
        Some(sum) => {
            declare_elements(module, table, functions);
            assert(module_elements(*module) =~= seq![(table, functions@)]);
            *used = sum;
            Ok(())
        },
        None => Err(GenerateError::TooLarge),
    }
}

/// A shim whose next item would take the items past the weight limit is too
/// heavy as a whole.
proof fn lemma_too_large(
    exports: Seq<ExportView>,
    imports: Seq<ImportView>,
    done: int,
    next: Declaration,
)
    requires
        0 <= done < shim_declarations(exports, imports).len(),
        shim_declarations(exports, imports)[done] == next,
        1 + items_weight(shim_declarations(exports, imports).take(done)) + weight(next)
            > WEIGHT_LIMIT,
    ensures
        shim_weight(exports, imports) > WEIGHT_LIMIT,
{
    let shim = shim_declarations(exports, imports);
    lemma_declare(shim.take(done), next);
    assert(shim.take(done).push(next) =~= shim.take(done + 1));
    lemma_weight_of_prefix(shim, done + 1);
}

/// The weight of a shim: one for its table, the weight of its items, and for
/// its element segment one and one more for each host import.
proof fn lemma_shim_weight(exports: Seq<ExportView>, imports: Seq<ImportView>)
    ensures
        shim_weight(exports, imports) == 1 + items_weight(shim_declarations(exports, imports)) + 1
            + imports.len(),
{
    lemma_weight_of_segment(0, Seq::new(imports.len(), |slot: int| (BRIDGES + slot) as u32));
}

/// Declares trampoline number `t` behind the type through which it calls, if
/// the module stays within the weight limit.
fn emit_trampoline(
    module: &mut wagen::Module<'static>,
    used: &mut usize,
    t: usize,
    imports: usize,
    table: u32,
) -> (r: Result<(), GenerateError>)
    requires
        t < TRAMPOLINES,
        table == 0,
        *old(used) == weight_of(*old(module)),
        module_items(*old(module)).len() == BRIDGES + imports + 2 * t,
    ensures
        match r {
            Ok(_) => {
                &&& module_items(*final(module)) == module_items(*old(module)).push(
                    trampoline_type(t as int),
                ).push(trampoline_function(t as int, imports as int))
                &&& module_tables(*final(module)) == module_tables(*old(module))
                &&& module_elements(*final(module)) == module_elements(*old(module))
                &&& *final(used) == weight_of(*final(module))
                &&& *final(used) == *old(used) + weight(trampoline_type(t as int)) + weight(
                    trampoline_function(t as int, imports as int),
                )
                &&& *final(used) <= WEIGHT_LIMIT
            },
            Err(e) => e@ is TooLarge && *old(used) + weight(trampoline_type(t as int)) + weight(
                trampoline_function(t as int, imports as int),
            ) > WEIGHT_LIMIT,
        },
{
    let operands = t / 2;
    let has_result = t % 2 == 1;
    let params = repeat_int64(operands);
    let results = repeat_int64(if has_result {
        1
    } else {
        0
    });
    let type_index = match emit_type(module, used, &params, &results) {
        Ok(index) => index,
        Err(e) => {
            return Err(e);
        },
    };
    let name = name_of_trampoline(operands, has_result);
    let signature = params_of_trampoline(operands);
    let body = body_of_trampoline(operands, type_index, table);
    emit_function(module, used, name.as_str(), &signature, &results, &body)
}

/// An export of a manifest without faulty exports is not faulty.
proof fn lemma_no_export_error(exports: Seq<ExportView>, index: int)
    requires
        first_export_error(exports) is None,
        0 <= index < exports.len(),
    ensures
        export_error(exports[index]) is None,
    decreases exports.len(),
{
    if index > 0 {
        lemma_no_export_error(exports.drop_first(), index - 1);
    }
}

/// What `generate` answers for a manifest: the error that the manifest is
/// rejected with; else `TooLarge` for a shim above the weight limit; else
/// `Invalid` for a module that the validator refuses; else the module.
pub open spec fn generated(
    exports: Seq<ExportView>,
    imports: Seq<ImportView>,
    r: Result<Seq<u8>, GenerateErrorView>,
) -> bool {
    match manifest_error(exports, imports) {
        Some(error) => r == Err::<Seq<u8>, GenerateErrorView>(error),
        None => if shim_weight(exports, imports) > WEIGHT_LIMIT {
            r == Err::<Seq<u8>, GenerateErrorView>(GenerateErrorView::TooLarge)
        } else if !valid_module(shim_bytes(exports, imports)) {
            r == Err::<Seq<u8>, GenerateErrorView>(GenerateErrorView::Invalid)
        } else {
            r == Ok::<Seq<u8>, GenerateErrorView>(shim_bytes(exports, imports))
        },
    }
}

/// Generates the shim module for a plugin's exports and imports.
///
/// The module imports the eight bridge functions and each host import, holds
/// a table of the host imports in table order, and exports the twelve
/// trampolines and one function for each export, under the export's name and
/// with its signature.
pub fn generate(exports: &Vec<Export>, imports: &Vec<Import>) -> (r: Result<Vec<u8>, GenerateError>)
    ensures
        generated(
            export_views(exports@),
            import_views(imports@),
            match r {
                Ok(bytes) => Ok(bytes@),
                Err(e) => Err(e@),
            },
        ),
{
    let ghost all_exports = export_views(exports@);
    let ghost all_imports = import_views(imports@);
    let ghost shim = shim_declarations(all_exports, all_imports);
    match check_manifest(exports, imports) {
        Ok(_) => {},
        Err(e) => {
            return Err(e);
        },
    }
    let sorted = sort_imports(imports);
    let ghost table_order = import_views(sorted@);
    let n = sorted.len();
    let mut module = new_module();
    let mut used: usize = 0;
    let ghost mut done: int = 0;
    proof {
        lemma_shim_weight(all_exports, all_imports);
        assert(shim.take(0) =~= Seq::<Declaration>::empty());
    }

    let table = match emit_table(&mut module, &mut used, n as u64) {
        Ok(table) => table,
        Err(e) => {
            return Err(e);
        },
    };
    assert(module_tables(module) =~= shim_tables(all_imports));

    let bridges = Bridge::all();
    let mut indices: Vec<u32> = Vec::new();
    let mut k: usize = 0;
    while k < BRIDGES
        invariant
            k <= BRIDGES,
            bridges@ == Seq::new(BRIDGES as nat, |k: int| Bridge::at(k)),
            shim == shim_declarations(all_exports, all_imports),
            all_exports == export_views(exports@),
            all_imports == import_views(imports@),
            table_order == sorted_imports(all_imports),
            table_order.len() == all_imports.len() == n,
            manifest_error(all_exports, all_imports) is None,
            shim_weight(all_exports, all_imports) == 1 + items_weight(shim) + 1 + n,
            done == k,
            module_tables(module) == shim_tables(all_imports),
            module_items(module) == shim.take(done),
            module_elements(module) == Seq::<(u32, Seq<u32>)>::empty(),
            used == weight_of(module),
            used == 1 + items_weight(shim.take(done)),
            used <= WEIGHT_LIMIT,
            imports_in(module_items(module)) == k,
            indices@ == Seq::new(k as nat, |i: int| i as u32),
        decreases BRIDGES - k,
    {
        let import = bridges[k].declaration();
        assert(shim[done] == import_declaration(import@));
        proof {
            lemma_declare(shim.take(done), shim[done]);
        }
        let index = match emit_import(&mut module, &mut used, &import) {
            Ok(index) => index,
            Err(e) => {
                proof {
                    lemma_too_large(all_exports, all_imports, done, shim[done]);
                }
                return Err(e);
            },
        };
        proof {
            assert(shim.take(done).push(shim[done]) =~= shim.take(done + 1));
            done = done + 1;
        }
        indices.push(index);
        assert(indices@ =~= Seq::new((k + 1) as nat, |i: int| i as u32));
        k += 1;
    }
    let bridge = BridgeIndices {
        arg_start: indices[0],
        arg_i32: indices[1],
        arg_i64: indices[2],
        arg_f32: indices[3],
        arg_f64: indices[4],
        invoke: indices[5],
        invoke_i64: indices[6],
        invoke_i32: indices[7],
    };
    assert(bridge == BridgeIndices::standard());

    let mut elements: Vec<u32> = Vec::new();
    let mut i: usize = 0;
    while i < n
        invariant
            i <= n,
            n == sorted.len(),
            shim == shim_declarations(all_exports, all_imports),
            all_exports == export_views(exports@),
            all_imports == import_views(imports@),
            table_order == import_views(sorted@),
            table_order == sorted_imports(all_imports),
            table_order.len() == all_imports.len() == n,
            manifest_error(all_exports, all_imports) is None,
            shim_weight(all_exports, all_imports) == 1 + items_weight(shim) + 1 + n,
            done == BRIDGES + i,
            module_tables(module) == shim_tables(all_imports),
            module_items(module) == shim.take(done),
            module_elements(module) == Seq::<(u32, Seq<u32>)>::empty(),
            used == weight_of(module),
            used == 1 + items_weight(shim.take(done)),
            used <= WEIGHT_LIMIT,
            imports_in(module_items(module)) == BRIDGES + i,
            elements@ == Seq::new(i as nat, |slot: int| (BRIDGES + slot) as u32),
        decreases n - i,
    {
        assert(shim[done] == import_declaration(sorted@[i as int]@));
        proof {
            lemma_declare(shim.take(done), shim[done]);
        }
        let index = match emit_import(&mut module, &mut used, &sorted[i]) {
            Ok(index) => index,
            Err(e) => {
                proof {
                    lemma_too_large(all_exports, all_imports, done, shim[done]);
                }
                return Err(e);
            },
        };
        proof {
            assert(shim.take(done).push(shim[done]) =~= shim.take(done + 1));
            done = done + 1;
        }
        elements.push(index);
        assert(elements@ =~= Seq::new((i + 1) as nat, |slot: int| (BRIDGES + slot) as u32));
        i += 1;
    }

    let mut t: usize = 0;
    while t < TRAMPOLINES
        invariant
            t <= TRAMPOLINES,
            table == 0,
            shim == shim_declarations(all_exports, all_imports),
            all_exports == export_views(exports@),
            all_imports == import_views(imports@),
            table_order == sorted_imports(all_imports),
            table_order.len() == all_imports.len() == n,
            manifest_error(all_exports, all_imports) is None,
            shim_weight(all_exports, all_imports) == 1 + items_weight(shim) + 1 + n,
            done == BRIDGES + n + 2 * t,
            module_tables(module) == shim_tables(all_imports),
            module_items(module) == shim.take(done),
            module_elements(module) == Seq::<(u32, Seq<u32>)>::empty(),
            used == weight_of(module),
            used == 1 + items_weight(shim.take(done)),
            used <= WEIGHT_LIMIT,
            elements@ == Seq::new(n as nat, |slot: int| (BRIDGES + slot) as u32),
        decreases TRAMPOLINES - t,
    {
        assert(shim[done] == trampoline_type(t as int));
        assert(shim[done + 1] == trampoline_function(t as int, n as int));
        proof {
            lemma_declare(shim.take(done), shim[done]);
            lemma_declare(shim.take(done + 1), shim[done + 1]);
            assert(shim.take(done).push(shim[done]) =~= shim.take(done + 1));
            assert(shim.take(done + 1).push(shim[done + 1]) =~= shim.take(done + 2));
        }
        match emit_trampoline(&mut module, &mut used, t, n, table) {
            Ok(_) => {},
            Err(e) => {
                proof {
                    lemma_weight_of_prefix(shim, done + 2);
                }
                return Err(e);
            },
        }
        proof {
            done = done + 2;
        }
        t += 1;
    }

    match emit_elements(&mut module, &mut used, table, &elements) {
        Ok(_) => {},
        Err(e) => {
            proof {
                lemma_weight_of_prefix(shim, done);
            }
            return Err(e);
        },
    }
    assert(module_elements(module) =~= shim_elements(all_imports));

    let mut j: usize = 0;
    while j < exports.len()
        invariant
            j <= exports.len(),
            bridge == BridgeIndices::standard(),
            shim == shim_declarations(all_exports, all_imports),
            all_exports == export_views(exports@),
            all_imports == import_views(imports@),
            table_order == sorted_imports(all_imports),
            table_order.len() == all_imports.len() == n,
            manifest_error(all_exports, all_imports) is None,
            shim_weight(all_exports, all_imports) == 1 + items_weight(shim) + 1 + n,
            done == BRIDGES + n + 2 * TRAMPOLINES + j,
            module_tables(module) == shim_tables(all_imports),
            module_items(module) == shim.take(done),
            module_elements(module) == shim_elements(all_imports),
            used == weight_of(module),
            used == 1 + items_weight(shim.take(done)) + 1 + n,
            used <= WEIGHT_LIMIT,
        decreases exports.len() - j,
    {
        let export = &exports[j];
        assert(shim[done] == entry_function(export@, j as int));
        proof {
            lemma_no_export_error(all_exports, j as int);
            lemma_declare(shim.take(done), shim[done]);
            assert(shim.take(done).push(shim[done]) =~= shim.take(done + 1));
            lemma_weight_of_prefix(shim, done + 1);
        }
        if export.params.len() > WEIGHT_LIMIT {
            return Err(GenerateError::TooLarge);
        }
        let body = match body_of_entry(export, j as i32, &bridge) {
            Ok(body) => body,
            Err(e) => {
                return Err(e);
            },
        };
        match emit_function(
            &mut module,
            &mut used,
            export.name.as_str(),
            &export.params,
            &export.results,
            &body,
        ) {
            Ok(_) => {},
            Err(e) => {
                return Err(e);
            },
        }
        proof {
            done = done + 1;
        }
        j += 1;
    }
    assert(shim.take(done) =~= shim);

    let bytes = finish_module(module);
    match validate_module(&bytes) {
        Ok(_) => Ok(bytes),
        Err(error) => Err(GenerateError::Invalid { message: validation_message(&error) }),
    }
}

/// Generates the shim module for a manifest.
pub fn generate_shim(manifest: &Manifest) -> (r: Result<Vec<u8>, GenerateError>)
    ensures
        generated(
            export_views(manifest.exports@),
            import_views(manifest.imports@),
            match r {
                Ok(bytes) => Ok(bytes@),
                Err(e) => Err(e@),
            },
        ),
{
    generate(&manifest.exports, &manifest.imports)
}

} // verus!
