use copper::command::{CompilerCommand, CompilerCommandExecutor};
use copper::compiler::Compiler;
use copper::error::Error;
use copper::language::ProjectLanguage;
use copper::project::ProjectConfig;
use copper::session::{Action, BuildSession, Phase, RunOutcome};
use copper::target::{select_sources, CompilerOptions, TargetInformation};
use copper::toolchain::ProjectCompiler;
use copper::unit::{UnitConfig, UnitType};

fn strings(v: &[&str]) -> Vec<String> {
    v.iter().map(|s| s.to_string()).collect()
}

fn project_with_app(language: ProjectLanguage) -> ProjectConfig {
    let mut p = ProjectConfig::new(
        "/work/proj".to_string(),
        "demo".to_string(),
        language,
        ProjectCompiler::GCC,
        None,
        None,
        Vec::new(),
    );
    p.add_unit("app".to_string(), UnitType::Binary, "src".to_string());
    p
}

/// Drives a session with a listing for every unit and a toolchain stub whose
/// exit status for each run is given by `succeeds`; returns every
/// invocation's arguments and how the build ended.
fn drive(
    session: &mut BuildSession,
    listing: &[&str],
    succeeds: &dyn Fn(usize) -> bool,
) -> (Vec<Vec<String>>, Result<(), Error>) {
    let mut runs: Vec<Vec<String>> = Vec::new();
    loop {
        match session.next_action() {
            Action::ListSources { .. } => session.sources_listed(Ok(strings(listing))),
            Action::Run(inv) => {
                let ok = succeeds(runs.len());
                runs.push(inv.args.clone());
                session.process_finished(RunOutcome::Exited {
                    success: ok,
                    output: if ok { String::new() } else { "a.c:1: error".to_string() },
                });
            }
            Action::Finish(r) => return (runs, r),
        }
    }
}

#[test]
fn sources_are_filtered_by_extension() {
    let files = strings(&["src/a.c", "src/b.cpp", "src/c.h", "src/README", "src/sub/d.c"]);
    assert_eq!(
        select_sources(&files, &ProjectLanguage::C.extensions()),
        strings(&["src/a.c", "src/sub/d.c"])
    );
    assert_eq!(
        select_sources(&files, &ProjectLanguage::CPP.extensions()),
        strings(&["src/a.c", "src/b.cpp", "src/sub/d.c"])
    );
}

#[test]
fn target_resolves_against_root() {
    let p = project_with_app(ProjectLanguage::C);
    let unit = p.find_unit("app").unwrap();
    let t = unit
        .get_target_information(&p, &strings(&["/work/proj/src/a.c", "/work/proj/src/x.txt"]))
        .unwrap();
    assert_eq!(t.name, "app");
    assert_eq!(t.source_files, strings(&["/work/proj/src/a.c"]));
    assert_eq!(t.output_directory, "/work/proj/build/bin");
    assert_eq!(t.intermediate_directory, "/work/proj/build/obj");
}

#[test]
fn target_without_overrides_derives_directories() {
    let p = project_with_app(ProjectLanguage::C);
    let mut unit = p.find_unit("app").unwrap().clone();
    unit.output_directory = None;
    unit.intermediate_directory = None;
    assert_eq!(unit.generate_output_directory(&p), "build/bin");
    assert_eq!(unit.generate_intermediate_directory(&p), "build/obj");
    let first = unit.get_target_information(&p, &strings(&["/work/proj/src/a.c"])).unwrap();
    let second = unit.get_target_information(&p, &strings(&["/work/proj/src/a.c"])).unwrap();
    assert_eq!(first.output_directory, "/work/proj/build/bin");
    assert_eq!(first.intermediate_directory, "/work/proj/build/obj");
    assert_eq!(first.output_directory, second.output_directory);
    assert_eq!(first.intermediate_directory, second.intermediate_directory);
}

#[test]
fn target_without_sources_fails() {
    let p = project_with_app(ProjectLanguage::C);
    let unit = p.find_unit("app").unwrap();
    let r = unit.get_target_information(&p, &strings(&["/work/proj/src/main.cpp"]));
    assert_eq!(r.unwrap_err(), Error::NoSourceFiles("app".to_string()));
}

#[test]
fn library_target_is_unsupported() {
    let p = project_with_app(ProjectLanguage::C);
    let unit = UnitConfig::new(
        "core".to_string(),
        UnitType::StaticLibrary,
        "src".to_string(),
        "build/lib".to_string(),
        "build/obj".to_string(),
        None,
        None,
    );
    let r = unit.get_target_information(&p, &strings(&["/work/proj/src/a.c"]));
    assert_eq!(r.unwrap_err(), Error::UnsupportedUnitType("static-library".to_string()));
}

#[test]
fn target_splits_arguments_into_words() {
    let t = TargetInformation::new(
        "app".to_string(),
        UnitType::Binary,
        Vec::new(),
        "out".to_string(),
        "obj".to_string(),
        None,
        Some("  -O2\t-Wall ".to_string()),
    );
    assert_eq!(t.additional_args, strings(&["-O2", "-Wall"]));
    assert!(t.include_paths.is_empty());
}

#[test]
fn executor_assembles_arguments_in_order() {
    let flags = ProjectCompiler::GCC.command_flags().unwrap();
    let command = CompilerCommand::new(
        "gcc".to_string(),
        flags,
        "root".to_string(),
        strings(&["inc"]),
        strings(&["-g"]),
    );
    let mut e = command.executor();
    assert_eq!(e.args, strings(&["-I", "root/inc", "-g"]));
    e.set_language(&ProjectLanguage::CPP);
    e.set_compile_flag();
    e.set_output_file("root/obj/a.o");
    e.add_input_file("root/a.c");
    let inv = e.finish();
    assert_eq!(inv.program, "gcc");
    assert_eq!(
        inv.args,
        strings(&["-I", "root/inc", "-g", "-x", "c++", "-c", "-o", "root/obj/a.o", "root/a.c"])
    );
    assert_eq!(inv.required_paths, strings(&["root/inc", "root/a.c"]));
    assert_eq!(inv.output_directories, strings(&["root/obj"]));
    let mut bare = CompilerCommandExecutor::new("cc", flags, "");
    bare.add_arg("-v");
    bare.add_include_path("/abs");
    assert_eq!(bare.args, strings(&["-v", "-I", "/abs"]));
}

#[test]
fn msvc_cannot_be_initialized() {
    let options = CompilerOptions::new("root".to_string(), ProjectLanguage::C, None, None);
    let r = Compiler::initialize(ProjectCompiler::MSVC, options);
    assert_eq!(r.unwrap_err(), Error::UnsupportedCompiler("msvc".to_string()));
}

#[test]
fn compiler_plans_compiles_then_link() {
    let options = CompilerOptions::new(
        "root".to_string(),
        ProjectLanguage::C,
        Some(strings(&["inc"])),
        Some("-O2".to_string()),
    );
    let c = Compiler::initialize(ProjectCompiler::GCC, options).unwrap();
    let t = TargetInformation::new(
        "app".to_string(),
        UnitType::Binary,
        strings(&["root/src/a.c", "root/src/b.c"]),
        "root/build/bin".to_string(),
        "root/build/obj".to_string(),
        Some(strings(&["src/inc"])),
        Some("-Wall".to_string()),
    );
    let plan = c.build(&t, false);
    assert_eq!(plan.len(), 3);
    assert_eq!(
        plan[0].args,
        strings(&[
            "-I", "root/inc", "-O2", "-x", "c", "-c", "-I", "root/src/inc", "-Wall", "-o",
            "root/build/obj/a.o", "root/src/a.c",
        ])
    );
    assert_eq!(plan[1].args[10], "root/build/obj/b.o");
    assert_eq!(
        plan[2].args,
        strings(&[
            "-I", "root/inc", "-O2", "root/build/obj/a.o", "root/build/obj/b.o", "-o",
            "root/build/bin/app",
        ])
    );
    assert_eq!(plan[2].output_directories, strings(&["root/build/bin"]));
    let windows_link = c.link_objects(&t, true);
    assert_eq!(windows_link.args.last().unwrap(), "root/build/bin/app.exe");
}

#[test]
fn two_sources_build_with_three_runs() {
    let p = project_with_app(ProjectLanguage::C);
    let mut s = BuildSession::start(p, None, true, false).unwrap();
    let (runs, result) = drive(&mut s, &["/work/proj/src/a.c", "/work/proj/src/b.c"], &|_| true);
    assert_eq!(result, Ok(()));
    assert_eq!(runs.len(), 3);
    assert_eq!(runs[0].last().unwrap(), "/work/proj/src/a.c");
    assert_eq!(runs[1].last().unwrap(), "/work/proj/src/b.c");
    assert_eq!(runs[2].last().unwrap(), "/work/proj/build/bin/app");
    assert_eq!(s.phase, Phase::Finished);
}

#[test]
fn first_compile_failure_stops_the_build() {
    let p = project_with_app(ProjectLanguage::C);
    let mut s = BuildSession::start(p, None, true, false).unwrap();
    let (runs, result) = drive(&mut s, &["/work/proj/src/a.c", "/work/proj/src/b.c"], &|_| false);
    assert_eq!(runs.len(), 1);
    assert_eq!(
        result,
        Err(Error::CompileError { unit: "app".to_string(), output: "a.c:1: error".to_string() })
    );
}

#[test]
fn failed_link_is_a_link_error() {
    let p = project_with_app(ProjectLanguage::C);
    let mut s = BuildSession::start(p, None, true, false).unwrap();
    let (runs, result) = drive(&mut s, &["/work/proj/src/a.c"], &|i| i == 0);
    assert_eq!(runs.len(), 2);
    assert_eq!(
        result,
        Err(Error::LinkError { unit: "app".to_string(), output: "a.c:1: error".to_string() })
    );
}

#[test]
fn unit_without_sources_runs_nothing() {
    let p = project_with_app(ProjectLanguage::C);
    let mut s = BuildSession::start(p, None, true, false).unwrap();
    let (runs, result) = drive(&mut s, &["/work/proj/src/notes.txt"], &|_| true);
    assert!(runs.is_empty());
    assert_eq!(result, Err(Error::NoSourceFiles("app".to_string())));
}

#[test]
fn unknown_unit_stops_the_build() {
    let p = project_with_app(ProjectLanguage::C);
    let names = strings(&["app", "ghost", "app"]);
    let mut s = BuildSession::start(p, Some(names), true, false).unwrap();
    let (runs, result) = drive(&mut s, &["/work/proj/src/a.c"], &|_| true);
    assert_eq!(runs.len(), 2);
    assert_eq!(result, Err(Error::UnitNotFound("ghost".to_string())));
}

#[test]
fn empty_project_has_no_units() {
    let p = ProjectConfig::new(
        "root".to_string(),
        "empty".to_string(),
        ProjectLanguage::C,
        ProjectCompiler::GCC,
        None,
        None,
        Vec::new(),
    );
    assert_eq!(BuildSession::start(p, None, true, false).unwrap_err(), Error::NoUnits);
}

#[test]
fn unavailable_toolchain_is_reported() {
    let p = project_with_app(ProjectLanguage::C);
    assert_eq!(
        BuildSession::start(p, None, false, false).unwrap_err(),
        Error::CompilerUnavailable("gcc".to_string())
    );
}

#[test]
fn listing_sources_asks_for_the_unit_directory() {
    let p = project_with_app(ProjectLanguage::CPP);
    let mut s = BuildSession::start(p, None, true, false).unwrap();
    match s.next_action() {
        Action::ListSources { directory, extensions } => {
            assert_eq!(directory, "/work/proj/src");
            assert_eq!(extensions, strings(&["c", "cpp"]));
        }
        other => panic!("unexpected action {:?}", other),
    }
    s.sources_listed(Err("permission denied".to_string()));
    assert_eq!(s.outcome, Err(Error::IoError("permission denied".to_string())));
}

#[test]
fn missing_path_ends_the_build() {
    let p = project_with_app(ProjectLanguage::C);
    let mut s = BuildSession::start(p, None, true, false).unwrap();
    s.next_action();
    s.sources_listed(Ok(strings(&["/work/proj/src/a.c"])));
    match s.next_action() {
        Action::Run(inv) => assert_eq!(inv.required_paths, strings(&["/work/proj/src/a.c"])),
        other => panic!("unexpected action {:?}", other),
    }
    s.process_finished(RunOutcome::PathMissing("/work/proj/src/a.c".to_string()));
    match s.next_action() {
        Action::Finish(r) => {
            assert_eq!(r, Err(Error::PathNotFound("/work/proj/src/a.c".to_string())))
        }
        other => panic!("unexpected action {:?}", other),
    }
}
