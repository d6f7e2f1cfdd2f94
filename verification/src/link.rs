//! The link step: the command that merges the interpreter's module with the
//! shim, and the text that the snapshot loads.

use vstd::prelude::*;

verus! {

/// The texts of a list of strings.
pub open spec fn texts(strings: Seq<String>) -> Seq<Seq<char>> {
    strings.map_values(|s: String| s@)
}

/// The name of the tool that merges two modules.
pub open spec fn merge_tool() -> Seq<char> {
    "wasm-merge"@
}

/// The name under which the interpreter's module enters the merge; the shim
/// imports its bridge functions from this name.
pub open spec fn core_namespace() -> Seq<char> {
    "core"@
}

/// The name under which the shim enters the merge; the interpreter imports
/// the trampolines from this name.
pub open spec fn shim_namespace() -> Seq<char> {
    "shim"@
}

/// The arguments of the merge: the interpreter's module under `core`, the
/// shim under `shim`, the output, and the two features that the modules use.
pub open spec fn merge_arguments_of(core: Seq<char>, shim: Seq<char>, output: Seq<char>) -> Seq<
    Seq<char>,
> {
    seq![
        core,
        core_namespace(),
        shim,
        shim_namespace(),
        "-o"@,
        output,
        "--enable-reference-types"@,
        "--enable-bulk-memory"@,
    ]
}

/// Builds the arguments of the merge.
pub fn merge_arguments(core: &str, shim: &str, output: &str) -> (r: Vec<String>)
    ensures
        texts(r@) == merge_arguments_of(core@, shim@, output@),
{
    let mut r: Vec<String> = Vec::new();
    r.push(String::from_str(core));
    r.push(String::from_str("core"));
    r.push(String::from_str(shim));
    r.push(String::from_str("shim"));
    r.push(String::from_str("-o"));
    r.push(String::from_str(output));
    r.push(String::from_str("--enable-reference-types"));
    r.push(String::from_str("--enable-bulk-memory"));
    assert(texts(r@) =~= merge_arguments_of(core@, shim@, output@));
    r
}

/// The text that the snapshot loads as the plugin's module: the plugin's
/// source, a line break, and the runtime support that dispatches calls.
pub open spec fn plugin_text_of(source: Seq<char>, support: Seq<char>) -> Seq<char> {
    source + "\n"@ + support
}

/// Builds the text that the snapshot loads as the plugin's module.
pub fn plugin_text(source: String, support: &str) -> (r: String)
    ensures
        r@ == plugin_text_of(source@, support@),
{
    let mut text = source;
    text.append("\n");
    text.append(support);
    text
}

} // verus!
