//! What the command line asks of the compiler.

use vstd::prelude::*;

verus! {

/// The options of one run of the compiler.
#[derive(Clone, Debug, PartialEq, Eq)]
pub struct Options {
    /// The plugin's source file.
    pub input_py: String,
    /// Where the module is written.
    pub output: String,
    /// Whether to build only the snapshot of the interpreter, with the source
    /// that arrives on standard input.
    pub core: bool,
}

/// The options as a mathematical value.
pub struct OptionsView {
    pub input_py: Seq<char>,
    pub output: Seq<char>,
    pub core: bool,
}

impl View for Options {
    type V = OptionsView;

    open spec fn view(&self) -> OptionsView {
        OptionsView { input_py: self.input_py@, output: self.output@, core: self.core }
    }
}

impl Options {
    /// The output file of a run that names none.
    pub open spec fn default_output() -> Seq<char> {
        "index.wasm"@
    }

    /// The options of a run on `input_py` that says nothing else: the module
    /// goes to `index.wasm`, and the whole plugin is built.
    pub fn new(input_py: String) -> (r: Options)
        ensures
            r@ == (OptionsView {
                input_py: input_py@,
                output: Options::default_output(),
                core: false,
            }),
    {
        Options { input_py, output: String::from_str("index.wasm"), core: false }
    }

    /// The arguments with which the compiler calls itself to build the
    /// snapshot of the interpreter at `core_path`: `-c`, the input, `-o`, the
    /// path.
    pub open spec fn snapshot_arguments_of(input_py: Seq<char>, core_path: Seq<char>) -> Seq<
        Seq<char>,
    > {
        seq!["-c"@, input_py, "-o"@, core_path]
    }

    /// Builds the arguments with which the compiler calls itself to build the
    /// snapshot of the interpreter at `core_path`.
    pub fn snapshot_arguments(&self, core_path: &str) -> (r: Vec<String>)
        ensures
            crate::link::texts(r@) == Options::snapshot_arguments_of(self.input_py@, core_path@),
    {
        let mut r: Vec<String> = Vec::new();
        r.push(String::from_str("-c"));
        r.push(self.input_py.clone());
        r.push(String::from_str("-o"));
        r.push(String::from_str(core_path));
        assert(crate::link::texts(r@) =~= Options::snapshot_arguments_of(
            self.input_py@,
            core_path@,
        ));
        r
    }
}

} // verus!
