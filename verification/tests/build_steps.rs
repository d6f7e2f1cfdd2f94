use extism_py::link::{merge_arguments, plugin_text};
use extism_py::opt::{
    copy_path, deps_candidates, deps_layout, find_deps, guest_path_of, optimizer_arguments,
    search_path, BuildError, BuildStep, Candidate, DepsLayout, HostPath, MappedDir, Optimizer,
    PathPart, SearchDir,
};
use extism_py::options::Options;
use extism_py::pipeline::{advance, tool_event, Action, Event, Stage};

fn normal(name: &str) -> PathPart {
    PathPart::Normal(name.to_string())
}

fn candidate(path: &str, exists: bool) -> Candidate {
    Candidate { path: path.to_string(), exists }
}

fn search(guest: &str, host: &str, exists: bool) -> SearchDir {
    SearchDir { guest: guest.to_string(), host: host.to_string(), exists }
}

fn mapped(guest: &str, host: &str) -> MappedDir {
    MappedDir { guest: guest.to_string(), host: host.to_string() }
}

#[test]
fn a_new_optimizer_does_nothing_but_copy() {
    let wasm = [0u8, 1, 2];
    let optimizer = Optimizer::new(&wasm);
    assert!(!optimizer.snapshots());
    assert!(!optimizer.optimizes());
    assert!(!optimizer.keeps_debug());
    assert_eq!(optimizer.wasm(), &wasm);
    assert_eq!(optimizer.plan("/deps/usr", &vec![]), vec![BuildStep::Copy]);
}

#[test]
fn each_builder_sets_its_own_flag() {
    let wasm = [7u8];
    let optimizer = Optimizer::new(&wasm).wizen(true);
    assert!(optimizer.snapshots() && !optimizer.optimizes() && !optimizer.keeps_debug());
    let optimizer = Optimizer::new(&wasm).optimize(true);
    assert!(!optimizer.snapshots() && optimizer.optimizes() && !optimizer.keeps_debug());
    let optimizer = Optimizer::new(&wasm).debug(true);
    assert!(!optimizer.snapshots() && !optimizer.optimizes() && optimizer.keeps_debug());
    let optimizer = Optimizer::new(&wasm).wizen(true).optimize(true).debug(true).wizen(false);
    assert!(!optimizer.snapshots() && optimizer.optimizes() && optimizer.keeps_debug());
    assert_eq!(optimizer.wasm(), &wasm);
}

#[test]
fn a_snapshot_sees_the_deps_and_the_search_dirs_that_exist() {
    let wasm = [0u8];
    let dirs = vec![
        search("/site", "/home/me/site", true),
        search("/gone", "/home/me/gone", false),
        search(".", ".", true),
    ];
    assert_eq!(
        Optimizer::new(&wasm).wizen(true).plan("/deps/usr", &dirs),
        vec![BuildStep::Snapshot {
            dirs: vec![mapped("/usr", "/deps/usr"), mapped("/site", "/home/me/site"), mapped(".", ".")]
        }]
    );
    assert_eq!(
        Optimizer::new(&wasm).wizen(true).plan("/deps", &vec![]),
        vec![BuildStep::Snapshot { dirs: vec![mapped("/usr", "/deps")] }]
    );
}

#[test]
fn the_optimiser_runs_last_if_asked_for() {
    let wasm = [0u8];
    assert_eq!(
        Optimizer::new(&wasm).optimize(true).plan("/deps", &vec![]),
        vec![BuildStep::Copy, BuildStep::Optimize { debug: false }]
    );
    assert_eq!(
        Optimizer::new(&wasm).wizen(true).optimize(true).debug(true).plan("/deps", &vec![]),
        vec![
            BuildStep::Snapshot { dirs: vec![mapped("/usr", "/deps")] },
            BuildStep::Optimize { debug: true }
        ]
    );
    assert_eq!(Optimizer::new(&wasm).debug(true).plan("/deps", &vec![]), vec![BuildStep::Copy]);
}

#[test]
fn the_directory_named_by_the_environment_wins() {
    let candidates = vec![candidate("a", true)];
    assert_eq!(
        find_deps(Some("/from/env".to_string()), &candidates, "/fallback".to_string()),
        "/from/env"
    );
}

#[test]
fn the_first_candidate_that_exists_is_taken() {
    let candidates =
        vec![candidate("a", false), candidate("b", true), candidate("c", true), candidate("d", false)];
    assert_eq!(find_deps(None, &candidates, "/fallback".to_string()), "b");
}

#[test]
fn the_fallback_is_taken_where_no_candidate_exists() {
    let candidates = vec![candidate("a", false), candidate("b", false)];
    assert_eq!(find_deps(None, &candidates, "/fallback".to_string()), "/fallback");
    assert_eq!(find_deps(None, &vec![], "/fallback".to_string()), "/fallback");
}

#[test]
fn the_candidates_are_the_known_places_in_order() {
    assert_eq!(
        deps_candidates(),
        vec![
            "../lib/target/wasm32-wasi/wasi-deps",
            "lib/target/wasm32-wasi/wasi-deps",
            "/usr/local/share/extism-py",
            "/usr/share/extism-py"
        ]
    );
}

#[test]
fn usr_is_mapped_if_it_exists_else_the_root_with_local() {
    assert_eq!(deps_layout("/deps/usr", true, false), Ok(DepsLayout::Usr));
    assert_eq!(deps_layout("/deps/usr", true, true), Ok(DepsLayout::Usr));
    assert_eq!(deps_layout("/deps/usr", false, true), Ok(DepsLayout::Root));
    assert_eq!(
        deps_layout("/deps/usr", false, false),
        Err(BuildError::MissingDeps { path: "/deps/usr".to_string() })
    );
    assert_eq!(
        BuildError::MissingDeps { path: "/deps/usr".to_string() }.message(),
        "wasi-deps path doesn't exist: /deps/usr"
    );
}

#[test]
fn the_optimiser_strips_unless_debug_is_kept() {
    assert_eq!(
        optimizer_arguments("out.wasm", false),
        vec![
            "--enable-reference-types",
            "--enable-bulk-memory",
            "-O2",
            "--strip",
            "out.wasm",
            "-o",
            "out.wasm"
        ]
    );
    assert_eq!(
        optimizer_arguments("a b.wasm", true),
        vec!["--enable-reference-types", "--enable-bulk-memory", "-O2", "-g", "a b.wasm", "-o", "a b.wasm"]
    );
}

#[test]
fn the_search_path_is_the_current_directory_unless_named() {
    assert_eq!(search_path(None), ".");
    assert_eq!(search_path(Some("/a:/b".to_string())), "/a:/b");
    assert_eq!(search_path(Some(String::new())), "");
}

#[test]
fn a_guest_path_is_made_of_the_normal_parts() {
    assert_eq!(
        guest_path_of(&vec![PathPart::Prefix, PathPart::Root, normal("Users"), normal("me"), normal("site")]),
        "/Users/me/site"
    );
    assert_eq!(
        guest_path_of(&vec![PathPart::Current, normal("a"), PathPart::Parent, normal("b")]),
        "/a/b"
    );
    assert_eq!(guest_path_of(&vec![normal("one")]), "/one");
    assert_eq!(guest_path_of(&vec![]), "/");
    assert_eq!(guest_path_of(&vec![PathPart::Prefix, PathPart::Root]), "/");
}

#[test]
fn windows_paths_get_guest_paths_and_stay_what_they_are() {
    let wasm = [0u8];
    let first = HostPath {
        text: "C:\\Users\\me".to_string(),
        parts: vec![PathPart::Prefix, PathPart::Root, normal("Users"), normal("me")],
    };
    let second = HostPath { text: ".".to_string(), parts: vec![PathPart::Current] };
    let converted = Optimizer::new(&wasm).convert_windows_paths(vec![
        ("C:\\Users\\me".to_string(), first.clone()),
        (".".to_string(), second.clone()),
    ]);
    assert_eq!(
        converted,
        vec![("/Users/me".to_string(), first.clone()), ("/".to_string(), second)]
    );
    assert_eq!(copy_path(&first), first);
    assert_eq!(Optimizer::new(&wasm).convert_windows_paths(vec![]), vec![]);
}

#[test]
fn the_merge_puts_core_and_shim_under_their_names() {
    assert_eq!(
        merge_arguments("/tmp/core.wasm", "/tmp/shim.wasm", "out.wasm"),
        vec![
            "/tmp/core.wasm",
            "core",
            "/tmp/shim.wasm",
            "shim",
            "-o",
            "out.wasm",
            "--enable-reference-types",
            "--enable-bulk-memory"
        ]
    );
}

#[test]
fn the_plugin_text_is_source_then_support() {
    assert_eq!(plugin_text("x = 1".to_string(), "def __invoke(): ..."), "x = 1\ndef __invoke(): ...");
    assert_eq!(plugin_text(String::new(), ""), "\n");
}

#[test]
fn options_default_to_index_wasm_and_a_whole_build() {
    let options = Options::new("plugin.py".to_string());
    assert_eq!(
        options,
        Options { input_py: "plugin.py".to_string(), output: "index.wasm".to_string(), core: false }
    );
    assert_eq!(
        options.snapshot_arguments("/tmp/core.wasm"),
        vec!["-c", "plugin.py", "-o", "/tmp/core.wasm"]
    );
}

#[test]
fn a_whole_build_goes_through_every_step() {
    let mut stage = Stage::Start;
    let mut actions = vec![];
    for event in [
        Event::Begin { core: false },
        Event::Succeeded,
        Event::Analysed { exports: 1 },
        Event::Succeeded,
        Event::Succeeded,
        Event::Succeeded,
        Event::Succeeded,
        Event::Succeeded,
    ] {
        let (next, action) = advance(stage, event);
        stage = next;
        actions.push(action);
    }
    assert_eq!(stage, Stage::Done);
    assert_eq!(
        actions,
        vec![
            Action::SpawnSnapshot,
            Action::Analyse,
            Action::GenerateShim,
            Action::ProbeMerge,
            Action::RunMerge,
            Action::ProbeOptimizer,
            Action::RunOptimizer,
            Action::Stop
        ]
    );
}

#[test]
fn a_build_of_the_interpreter_alone_writes_the_snapshot() {
    assert_eq!(
        advance(Stage::Start, Event::Begin { core: true }),
        (Stage::CoreSnapshot, Action::WriteSnapshot)
    );
    assert_eq!(advance(Stage::CoreSnapshot, Event::Succeeded), (Stage::Done, Action::Stop));
    assert_eq!(
        advance(Stage::CoreSnapshot, Event::Failed),
        (Stage::Failed, Action::Fail(BuildError::SnapshotFailed))
    );
}

#[test]
fn a_plugin_without_exports_stops_the_build() {
    assert_eq!(
        advance(Stage::Analysis, Event::Analysed { exports: 0 }),
        (Stage::Failed, Action::Fail(BuildError::NoExports))
    );
    assert_eq!(
        BuildError::NoExports.message(),
        "No exports found, use the @extism.plugin_fn decorator to specify exported functions"
    );
}

#[test]
fn each_failing_step_stops_the_build_with_its_error() {
    for (stage, error) in [
        (Stage::Snapshot, BuildError::SnapshotFailed),
        (Stage::Analysis, BuildError::AnalysisFailed),
        (Stage::Shim, BuildError::ShimFailed),
        (Stage::MergeProbe, BuildError::MissingMerge),
        (Stage::Merge, BuildError::MergeFailed),
        (Stage::OptimizerProbe, BuildError::MissingOptimizer),
        (Stage::Optimize, BuildError::OptimizeFailed),
        (Stage::Start, BuildError::OutOfTurn),
    ] {
        assert_eq!(advance(stage, Event::Failed), (Stage::Failed, Action::Fail(error)));
    }
}

#[test]
fn a_finished_build_stays_finished() {
    for event in [
        Event::Begin { core: false },
        Event::Succeeded,
        Event::Failed,
        Event::Analysed { exports: 3 },
    ] {
        assert_eq!(advance(Stage::Done, event), (Stage::Done, Action::Stop));
        assert_eq!(advance(Stage::Failed, event), (Stage::Failed, Action::Stop));
    }
}

#[test]
fn an_event_out_of_turn_stops_the_build() {
    assert_eq!(
        advance(Stage::Merge, Event::Begin { core: false }),
        (Stage::Failed, Action::Fail(BuildError::OutOfTurn))
    );
    assert_eq!(
        advance(Stage::Start, Event::Succeeded),
        (Stage::Failed, Action::Fail(BuildError::OutOfTurn))
    );
    assert_eq!(
        advance(Stage::Analysis, Event::Succeeded),
        (Stage::Failed, Action::Fail(BuildError::OutOfTurn))
    );
    assert_eq!(
        advance(Stage::Shim, Event::Analysed { exports: 1 }),
        (Stage::Failed, Action::Fail(BuildError::OutOfTurn))
    );
}

#[test]
fn a_missing_tool_is_named_with_the_place_to_get_it() {
    assert_eq!(
        BuildError::MissingMerge.message(),
        "Failed to detect wasm-merge. Please install binaryen and make sure wasm-merge is on your path: https://github.com/WebAssembly/binaryen"
    );
    assert_eq!(
        BuildError::MissingOptimizer.message(),
        "Failed to detect wasm-opt. Please install binaryen and make sure wasm-opt is on your path: https://github.com/WebAssembly/binaryen"
    );
    assert_eq!(BuildError::MergeFailed.message(), "wasm-merge failed. Couldn't merge shim");
    assert_eq!(BuildError::SnapshotFailed.message(), "Couldn't create wasm from input");
}

#[test]
fn a_tool_succeeds_only_if_it_started_and_ended_well() {
    assert_eq!(tool_event(true, true), Event::Succeeded);
    assert_eq!(tool_event(true, false), Event::Failed);
    assert_eq!(tool_event(false, true), Event::Failed);
    assert_eq!(tool_event(false, false), Event::Failed);
}

#[test]
fn an_optimiser_that_ends_badly_fails_the_build() {
    assert_eq!(
        advance(Stage::Optimize, tool_event(true, false)),
        (Stage::Failed, Action::Fail(BuildError::OptimizeFailed))
    );
    assert_eq!(
        advance(Stage::Merge, tool_event(true, false)),
        (Stage::Failed, Action::Fail(BuildError::MergeFailed))
    );
    assert_eq!(
        advance(Stage::Snapshot, tool_event(false, false)),
        (Stage::Failed, Action::Fail(BuildError::SnapshotFailed))
    );
    assert_eq!(advance(Stage::Optimize, tool_event(true, true)), (Stage::Done, Action::Stop));
}
