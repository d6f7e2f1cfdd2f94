//! The snapshot and optimisation steps: where the interpreter's files are
//! looked for, which directories the snapshot may see, and what is done to
//! the module on its way to the output file.

use crate::link::texts;
use vstd::prelude::*;

verus! {

/// What is to be done with one module: whether to snapshot it, whether to
/// optimise it, and whether the optimiser keeps debug information.
pub struct Optimizer<'a> {
    wizen: bool,
    optimize: bool,
    wasm: &'a [u8],
    debug: bool,
}

/// An optimizer as a mathematical value.
pub struct OptimizerView {
    pub wizen: bool,
    pub optimize: bool,
    pub wasm: Seq<u8>,
    pub debug: bool,
}

/// A part of a path of the host.
#[derive(Clone, Debug, PartialEq, Eq)]
pub enum PathPart {
    /// A drive or share, as Windows paths begin with.
    Prefix,
    /// The root directory.
    Root,
    /// `.`
    Current,
    /// `..`
    Parent,
    /// A directory or file name.
    Normal(String),
}

/// A path of the host: its text, and the parts that the host's rules split
/// it into.
#[derive(Clone, Debug, PartialEq, Eq)]
pub struct HostPath {
    pub text: String,
    pub parts: Vec<PathPart>,
}

/// A directory of the host and the path under which the snapshot sees it.
#[derive(Clone, Debug, PartialEq, Eq)]
pub struct MappedDir {
    pub guest: String,
    pub host: String,
}

/// A directory and its guest path as mathematical values.
pub struct MappedDirView {
    pub guest: Seq<char>,
    pub host: Seq<char>,
}

impl View for MappedDir {
    type V = MappedDirView;

    open spec fn view(&self) -> MappedDirView {
        MappedDirView { guest: self.guest@, host: self.host@ }
    }
}

/// A directory of the module search path: the path under which the snapshot
/// is to see it, the directory itself, and whether it exists.
#[derive(Clone, Debug, PartialEq, Eq)]
pub struct SearchDir {
    pub guest: String,
    pub host: String,
    pub exists: bool,
}

/// A place where the interpreter's files may lie, and whether it exists.
#[derive(Clone, Debug, PartialEq, Eq)]
pub struct Candidate {
    pub path: String,
    pub exists: bool,
}

/// Which directory of the interpreter's files the snapshot sees as `/usr`.
#[derive(Clone, Copy, Debug, PartialEq, Eq, Structural)]
pub enum DepsLayout {
    /// The directory `usr` below the files' root.
    Usr,
    /// The root itself, as older releases laid it out.
    Root,
}

/// Why a module cannot be built.
#[derive(Clone, Debug, PartialEq, Eq)]
pub enum BuildError {
    /// Neither `usr` nor `local` exists below the root of the interpreter's
    /// files; holds the path that was tried.
    MissingDeps { path: String },
    /// The optimiser is not installed.
    MissingOptimizer,
    /// The merge tool is not installed.
    MissingMerge,
    /// The merge tool reported a failure.
    MergeFailed,
    /// The snapshot of the interpreter could not be built.
    SnapshotFailed,
    /// The plugin declares no export.
    NoExports,
    /// No manifest could be read off the plugin's source.
    AnalysisFailed,
    /// No shim could be generated for the manifest.
    ShimFailed,
    /// The optimiser could not be started.
    OptimizeFailed,
    /// A step reported its end when none was under way.
    OutOfTurn,
}

/// The words of an error for the user. A missing tool is named, with the
/// place to get it from.
pub open spec fn build_error_text(error: BuildError) -> Seq<char> {
    match error {
        BuildError::MissingDeps { path } => "wasi-deps path doesn't exist: "@ + path@,
        BuildError::MissingOptimizer => "Failed to detect wasm-opt. Please install binaryen and make sure wasm-opt is on your path: https://github.com/WebAssembly/binaryen"@,
        BuildError::MissingMerge => "Failed to detect wasm-merge. Please install binaryen and make sure wasm-merge is on your path: https://github.com/WebAssembly/binaryen"@,
        BuildError::MergeFailed => "wasm-merge failed. Couldn't merge shim"@,
        BuildError::SnapshotFailed => "Couldn't create wasm from input"@,
        BuildError::NoExports => "No exports found, use the @extism.plugin_fn decorator to specify exported functions"@,
        BuildError::AnalysisFailed => "Couldn't read the plugin's imports and exports"@,
        BuildError::ShimFailed => "Couldn't generate the shim"@,
        BuildError::OptimizeFailed => "Couldn't run wasm-opt"@,
        BuildError::OutOfTurn => "A build step ended that was not under way"@,
    }
}

impl BuildError {
    /// The words of the error for the user.
    pub fn message(&self) -> (r: String)
        ensures
            r@ == build_error_text(*self),
    {
        match self {
            BuildError::MissingDeps { path } => {
                let mut text = String::from_str("wasi-deps path doesn't exist: ");
                text.append(path.as_str());
                text
            },
            BuildError::MissingOptimizer => String::from_str(
                "Failed to detect wasm-opt. Please install binaryen and make sure wasm-opt is on your path: https://github.com/WebAssembly/binaryen",
            ),
            BuildError::MissingMerge => String::from_str(
                "Failed to detect wasm-merge. Please install binaryen and make sure wasm-merge is on your path: https://github.com/WebAssembly/binaryen",
            ),
            BuildError::MergeFailed => String::from_str("wasm-merge failed. Couldn't merge shim"),
            BuildError::SnapshotFailed => String::from_str("Couldn't create wasm from input"),
            BuildError::NoExports => String::from_str(
                "No exports found, use the @extism.plugin_fn decorator to specify exported functions",
            ),
            BuildError::AnalysisFailed => String::from_str(
                "Couldn't read the plugin's imports and exports",
            ),
            BuildError::ShimFailed => String::from_str("Couldn't generate the shim"),
            BuildError::OptimizeFailed => String::from_str("Couldn't run wasm-opt"),
            BuildError::OutOfTurn => String::from_str("A build step ended that was not under way"),
        }
    }
}

/// One step on the module's way to the output file.
#[derive(Clone, Debug, PartialEq, Eq)]
pub enum BuildStep {
    /// Run the module's initialisation with these directories visible, and
    /// write the snapshot to the output file.
    Snapshot { dirs: Vec<MappedDir> },
    /// Write the module to the output file as it is.
    Copy,
    /// Run the optimiser on the output file.
    Optimize { debug: bool },
}

/// A step as a mathematical value.
pub enum BuildStepView {
    Snapshot { dirs: Seq<MappedDirView> },
    Copy,
    Optimize { debug: bool },
}

impl View for BuildStep {
    type V = BuildStepView;

    open spec fn view(&self) -> BuildStepView {
        match self {
            BuildStep::Snapshot { dirs } => BuildStepView::Snapshot {
                dirs: dirs@.map_values(|d: MappedDir| d@),
            },
            BuildStep::Copy => BuildStepView::Copy,
            BuildStep::Optimize { debug } => BuildStepView::Optimize { debug: *debug },
        }
    }
}

/// The steps of a list, each as a mathematical value.
pub open spec fn step_views(steps: Seq<BuildStep>) -> Seq<BuildStepView> {
    steps.map_values(|s: BuildStep| s@)
}

/// The names of the normal parts of a path, in order.
pub open spec fn normal_names(parts: Seq<PathPart>) -> Seq<Seq<char>>
    decreases parts.len(),
{
    if parts.len() == 0 {
        Seq::empty()
    } else {
        let before = normal_names(parts.drop_last());
        match parts.last() {
            PathPart::Normal(name) => before.push(name@),
            _ => before,
        }
    }
}

/// The names, each behind a `/`.
pub open spec fn rooted(names: Seq<Seq<char>>) -> Seq<char>
    decreases names.len(),
{
    if names.len() == 0 {
        Seq::empty()
    } else {
        rooted(names.drop_last()) + "/"@ + names.last()
    }
}

/// The guest path of a host path: `/` and the path's normal parts, joined by
/// `/`. Drive, root, `.` and `..` are left out.
pub open spec fn guest_path(parts: Seq<PathPart>) -> Seq<char> {
    if normal_names(parts).len() == 0 {
        "/"@
    } else {
        rooted(normal_names(parts))
    }
}

/// The directories that the snapshot sees: the interpreter's files as
/// `/usr`, then each directory of the search path that exists.
pub open spec fn mapped_dirs(deps: Seq<char>, search: Seq<SearchDir>) -> Seq<MappedDirView>
    decreases search.len(),
{
    if search.len() == 0 {
        seq![MappedDirView { guest: "/usr"@, host: deps }]
    } else {
        let before = mapped_dirs(deps, search.drop_last());
        if search.last().exists {
            before.push(MappedDirView { guest: search.last().guest@, host: search.last().host@ })
        } else {
            before
        }
    }
}

/// The directory in which the interpreter's files are looked for: the one
/// that the environment names; else the first candidate that exists; else the
/// fallback.
pub open spec fn deps_dir(
    named: Option<Seq<char>>,
    candidates: Seq<Candidate>,
    fallback: Seq<char>,
) -> Seq<char>
    decreases candidates.len(),
{
    match named {
        Some(path) => path,
        None => if candidates.len() == 0 {
            fallback
        } else if candidates[0].exists {
            candidates[0].path@
        } else {
            deps_dir(named, candidates.drop_first(), fallback)
        },
    }
}

/// The places where the interpreter's files are looked for when the
/// environment names none, in the order in which they are tried.
pub open spec fn deps_places() -> Seq<Seq<char>> {
    seq![
        "../lib/target/wasm32-wasi/wasi-deps"@,
        "lib/target/wasm32-wasi/wasi-deps"@,
        "/usr/local/share/extism-py"@,
        "/usr/share/extism-py"@,
    ]
}

/// The arguments of the optimiser for the file `dest`: the two features that
/// the module uses, the level, `-g` to keep debug information or `--strip`
/// to drop it, and the file as input and as output.
pub open spec fn optimizer_arguments_of(dest: Seq<char>, debug: bool) -> Seq<Seq<char>> {
    seq![
        "--enable-reference-types"@,
        "--enable-bulk-memory"@,
        "-O2"@,
        if debug {
            "-g"@
        } else {
            "--strip"@
        },
        dest,
        "-o"@,
        dest,
    ]
}

/// The steps for a module: snapshot or copy, then optimise if asked to.
pub open spec fn build_steps(
    optimizer: OptimizerView,
    deps: Seq<char>,
    search: Seq<SearchDir>,
) -> Seq<BuildStepView> {
    let first = if optimizer.wizen {
        BuildStepView::Snapshot { dirs: mapped_dirs(deps, search) }
    } else {
        BuildStepView::Copy
    };
    if optimizer.optimize {
        seq![first, BuildStepView::Optimize { debug: optimizer.debug }]
    } else {
        seq![first]
    }
}

/// Lists the places where the interpreter's files are looked for.
pub fn deps_candidates() -> (r: Vec<String>)
    ensures
        texts(r@) == deps_places(),
{
    let mut r: Vec<String> = Vec::new();
    r.push(String::from_str("../lib/target/wasm32-wasi/wasi-deps"));
    r.push(String::from_str("lib/target/wasm32-wasi/wasi-deps"));
    r.push(String::from_str("/usr/local/share/extism-py"));
    r.push(String::from_str("/usr/share/extism-py"));
    assert(texts(r@) =~= deps_places());
    r
}

/// Picks the directory in which the interpreter's files are looked for.
pub fn find_deps(named: Option<String>, candidates: &Vec<Candidate>, fallback: String) -> (r:
    String)
    ensures
        r@ == deps_dir(
            match named {
                Some(path) => Some(path@),
                None => None,
            },
            candidates@,
            fallback@,
        ),
{
    match named {
        Some(path) => path,
        None => {
            let mut i: usize = 0;
            assert(candidates@.skip(0) =~= candidates@);
            while i < candidates.len()
                invariant
                    i <= candidates.len(),
                    named is None,
                    deps_dir(None, candidates@, fallback@) == deps_dir(
                        None,
                        candidates@.skip(i as int),
                        fallback@,
                    ),
                decreases candidates.len() - i,
            {
                assert(candidates@.skip(i as int).drop_first() =~= candidates@.skip(i + 1));
                assert(candidates@.skip(i as int)[0] == candidates@[i as int]);
                if candidates[i].exists {
                    return candidates[i].path.clone();
                }
                i += 1;
            }
            fallback
        },
    }
}

/// Says which directory the snapshot sees as `/usr`, given whether `usr` and
/// `local` exist below the root of the interpreter's files: `usr` if it
/// exists, else the root if `local` exists there. Where neither exists, the
/// error names `usr_path`, the place where `usr` was looked for.
pub fn deps_layout(usr_path: &str, usr_exists: bool, local_exists: bool) -> (r: Result<
    DepsLayout,
    BuildError,
>)
    ensures
        match r {
            Ok(layout) => if usr_exists {
                layout == DepsLayout::Usr
            } else {
                local_exists && layout == DepsLayout::Root
            },
            Err(e) => {
                &&& !usr_exists
                &&& !local_exists
                &&& e matches BuildError::MissingDeps { path }
                &&& path@ == usr_path@
            },
        },
{
    if usr_exists {
        Ok(DepsLayout::Usr)
    } else if local_exists {
        Ok(DepsLayout::Root)
    } else {
        Err(BuildError::MissingDeps { path: String::from_str(usr_path) })
    }
}

/// Builds the arguments of the optimiser for the file `dest`.
pub fn optimizer_arguments(dest: &str, debug: bool) -> (r: Vec<String>)
    ensures
        texts(r@) == optimizer_arguments_of(dest@, debug),
{
    let mut r: Vec<String> = Vec::new();
    r.push(String::from_str("--enable-reference-types"));
    r.push(String::from_str("--enable-bulk-memory"));
    r.push(String::from_str("-O2"));
    if debug {
        r.push(String::from_str("-g"));
    } else {
        r.push(String::from_str("--strip"));
    }
    r.push(String::from_str(dest));
    r.push(String::from_str("-o"));
    r.push(String::from_str(dest));
    assert(texts(r@) =~= optimizer_arguments_of(dest@, debug));
    r
}

/// The module search path of a run whose environment names none: the
/// current directory.
pub fn search_path(named: Option<String>) -> (r: String)
    ensures
        r@ == match named {
            Some(path) => path@,
            None => "."@,
        },
{
    match named {
        Some(path) => path,
        None => String::from_str("."),
    }
}

/// Builds the guest path of a host path.
pub fn guest_path_of(parts: &Vec<PathPart>) -> (r: String)
    ensures
        r@ == guest_path(parts@),
{
    let mut r = String::new();
    let mut any = false;
    let mut i: usize = 0;
    assert(parts@.take(0) =~= Seq::<PathPart>::empty());
    while i < parts.len()
        invariant
            i <= parts.len(),
            any == (normal_names(parts@.take(i as int)).len() > 0),
            r@ == rooted(normal_names(parts@.take(i as int))),
        decreases parts.len() - i,
    {
        assert(parts@.take(i + 1).drop_last() =~= parts@.take(i as int));
        match &parts[i] {
            PathPart::Normal(name) => {
                proof {
                    let names = normal_names(parts@.take(i + 1));
                    assert(names.drop_last() =~= normal_names(parts@.take(i as int)));
                }
                r.append("/");
                r.append(name.as_str());
                any = true;
            },
            _ => {},
        }
        i += 1;
    }
    assert(parts@.take(parts.len() as int) =~= parts@);
    if any {
        r
    } else {
        String::from_str("/")
    }
}

impl<'a> View for Optimizer<'a> {
    type V = OptimizerView;

    closed spec fn view(&self) -> OptimizerView {
        OptimizerView {
            wizen: self.wizen,
            optimize: self.optimize,
            wasm: self.wasm@,
            debug: self.debug,
        }
    }
}

impl<'a> Optimizer<'a> {
    /// An optimizer for `wasm` that neither snapshots nor optimises.
    pub fn new(wasm: &'a [u8]) -> (r: Self)
        ensures
            r@ == (OptimizerView { wizen: false, optimize: false, wasm: wasm@, debug: false }),
    {
        Self { wasm, optimize: false, wizen: false, debug: false }
    }

    /// Says whether to optimise the module.
    pub fn optimize(self, optimize: bool) -> (r: Self)
        ensures
            r@ == (OptimizerView { optimize, ..self@ }),
    {
        Self { optimize, wizen: self.wizen, wasm: self.wasm, debug: self.debug }
    }

    /// Says whether the optimiser keeps debug information.
    pub fn debug(self, debug: bool) -> (r: Self)
        ensures
            r@ == (OptimizerView { debug, ..self@ }),
    {
        Self { debug, wizen: self.wizen, wasm: self.wasm, optimize: self.optimize }
    }

    /// Says whether to snapshot the module.
    pub fn wizen(self, wizen: bool) -> (r: Self)
        ensures
            r@ == (OptimizerView { wizen, ..self@ }),
    {
        Self { wizen, optimize: self.optimize, wasm: self.wasm, debug: self.debug }
    }

    /// Whether the module is snapshotted.
    pub fn snapshots(&self) -> (r: bool)
        ensures
            r == self@.wizen,
    {
        self.wizen
    }

    /// Whether the module is optimised.
    pub fn optimizes(&self) -> (r: bool)
        ensures
            r == self@.optimize,
    {
        self.optimize
    }

    /// Whether the optimiser keeps debug information.
    pub fn keeps_debug(&self) -> (r: bool)
        ensures
            r == self@.debug,
    {
        self.debug
    }

    /// The module.
    pub fn wasm(&self) -> (r: &'a [u8])
        ensures
            r@ == self@.wasm,
    {
        self.wasm
    }

    /// Gives each directory of the search path the guest path that the
    /// snapshot is to see it under: `/` and the normal parts of the host
    /// path, joined by `/`.
    pub fn convert_windows_paths(&self, paths: Vec<(String, HostPath)>) -> (r: Vec<
        (String, HostPath),
    >)
        ensures
            r.len() == paths.len(),
            forall|i: int|
                0 <= i < r.len() ==> (#[trigger] r[i]).0@ == guest_path(paths[i].1.parts@)
                    && r[i].1.text@ == paths[i].1.text@ && r[i].1.parts@ == paths[i].1.parts@,
    {
        let mut ret: Vec<(String, HostPath)> = Vec::new();
        let mut i: usize = 0;
        while i < paths.len()
            invariant
                i <= paths.len(),
                ret.len() == i,
                forall|j: int|
                    0 <= j < i ==> (#[trigger] ret[j]).0@ == guest_path(paths[j].1.parts@)
                        && ret[j].1.text@ == paths[j].1.text@ && ret[j].1.parts@
                        == paths[j].1.parts@,
            decreases paths.len() - i,
        {
            let normalized = guest_path_of(&paths[i].1.parts);
            let path = copy_path(&paths[i].1);
            ret.push((normalized, path));
            i += 1;
        }
        ret
    }

    /// Lays out what is done with the module: a snapshot with the
    /// interpreter's files as `/usr` and the existing directories of the
    /// search path, or a plain copy; then the optimiser, if asked for.
    pub fn plan(&self, deps: &str, search: &Vec<SearchDir>) -> (r: Vec<BuildStep>)
        ensures
            step_views(r@) == build_steps(self@, deps@, search@),
    {
        let mut steps: Vec<BuildStep> = Vec::new();
        if self.wizen {
            let mut dirs: Vec<MappedDir> = Vec::new();
            dirs.push(MappedDir { guest: String::from_str("/usr"), host: String::from_str(deps) });
            let mut i: usize = 0;
            assert(search@.take(0) =~= Seq::<SearchDir>::empty());
            assert(dirs@.map_values(|d: MappedDir| d@) =~= mapped_dirs(deps@, search@.take(0)));
            while i < search.len()
                invariant
                    i <= search.len(),
                    dirs@.map_values(|d: MappedDir| d@) == mapped_dirs(
                        deps@,
                        search@.take(i as int),
                    ),
                decreases search.len() - i,
            {
                assert(search@.take(i + 1).drop_last() =~= search@.take(i as int));
                if search[i].exists {
                    let ghost before = dirs@;
                    dirs.push(
                        MappedDir { guest: search[i].guest.clone(), host: search[i].host.clone() },
                    );
                    assert(dirs@.map_values(|d: MappedDir| d@) =~= before.map_values(
                        |d: MappedDir| d@,
                    ).push(dirs@.last()@));
                }
                i += 1;
            }
            assert(search@.take(search.len() as int) =~= search@);
            steps.push(BuildStep::Snapshot { dirs });
        } else {
            steps.push(BuildStep::Copy);
        }
        if self.optimize {
            steps.push(BuildStep::Optimize { debug: self.debug });
        }
        assert(step_views(steps@) =~= build_steps(self@, deps@, search@));
        steps
    }
}

/// Copies a host path.
pub fn copy_path(path: &HostPath) -> (r: HostPath)
    ensures
        r.text@ == path.text@,
        r.parts@ == path.parts@,
{
    let mut parts: Vec<PathPart> = Vec::new();
    let mut i: usize = 0;
    while i < path.parts.len()
        invariant
            i <= path.parts.len(),
            parts@ == path.parts@.take(i as int),
        decreases path.parts.len() - i,
    {
        let part = match &path.parts[i] {
            PathPart::Prefix => PathPart::Prefix,
            PathPart::Root => PathPart::Root,
            PathPart::Current => PathPart::Current,
            PathPart::Parent => PathPart::Parent,
            PathPart::Normal(name) => PathPart::Normal(name.clone()),
        };
        parts.push(part);
        assert(parts@ =~= path.parts@.take(i + 1));
        i += 1;
    }
    assert(path.parts@.take(path.parts.len() as int) =~= path.parts@);
    HostPath { text: path.text.clone(), parts }
}

} // verus!
