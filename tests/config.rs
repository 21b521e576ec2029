use copper::error::Error;
use copper::language::ProjectLanguage;
use copper::project::{ProjectConfig, ProjectRecord};
use copper::toolchain::{check_if_available, ProjectCompiler};
use copper::unit::{UnitConfig, UnitRecord, UnitType};

fn sample_project() -> ProjectConfig {
    ProjectConfig::new(
        "proj".to_string(),
        "demo".to_string(),
        ProjectLanguage::C,
        ProjectCompiler::GCC,
        Some(vec!["include".to_string()]),
        None,
        Vec::new(),
    )
}

#[test]
fn language_names_and_extensions() {
    assert_eq!(ProjectLanguage::str_variants(), ["c", "c++"]);
    assert_eq!(ProjectLanguage::C.extensions(), vec!["c".to_string()]);
    assert_eq!(ProjectLanguage::CPP.extensions(), vec!["c".to_string(), "cpp".to_string()]);
    assert_eq!(ProjectLanguage::CPP.as_str(), "c++");
}

#[test]
fn language_parse_ignores_case_and_space() {
    assert_eq!(ProjectLanguage::parse("c"), Ok(ProjectLanguage::C));
    assert_eq!(ProjectLanguage::parse(" C++ "), Ok(ProjectLanguage::CPP));
    assert_eq!(ProjectLanguage::parse("rust"), Err(Error::InvalidLanguage("rust".to_string())));
}

#[test]
fn compiler_names_and_executables() {
    assert_eq!(ProjectCompiler::str_variants(), ["gcc", "g++", "clang", "msvc"]);
    assert_eq!(ProjectCompiler::GPP.executable_name(), "g++");
    assert_eq!(ProjectCompiler::MSVC.executable_name(), "cl");
    assert_eq!(ProjectCompiler::parse("GCC"), Ok(ProjectCompiler::GCC));
    assert_eq!(ProjectCompiler::parse("gpp"), Ok(ProjectCompiler::GPP));
    assert_eq!(ProjectCompiler::parse(" cl"), Ok(ProjectCompiler::MSVC));
    assert_eq!(ProjectCompiler::parse("icc"), Err(Error::InvalidCompiler("icc".to_string())));
}

#[test]
fn compiler_flags_of_gcc_family() {
    let f = ProjectCompiler::CLANG.command_flags().unwrap();
    assert_eq!((f.output, f.compile, f.include_dir, f.language), ("-o", "-c", "-I", "-x"));
    assert!(ProjectCompiler::MSVC.command_flags().is_none());
}

#[test]
fn availability_needs_every_executable() {
    let found = vec!["gcc".to_string()];
    assert!(check_if_available(&ProjectCompiler::GCC, false, &found));
    assert!(!check_if_available(&ProjectCompiler::CLANG, false, &found));
    assert!(!check_if_available(&ProjectCompiler::GCC, true, &found));
    let windows_found = vec!["cl.exe".to_string(), "link.exe".to_string()];
    assert!(check_if_available(&ProjectCompiler::MSVC, true, &windows_found));
    assert!(!check_if_available(&ProjectCompiler::MSVC, true, &vec!["cl.exe".to_string()]));
    assert!(!check_if_available(&ProjectCompiler::MSVC, false, &windows_found));
    assert_eq!(
        ProjectCompiler::MSVC.probe_names(true),
        Some(vec!["cl.exe".to_string(), "link.exe".to_string()])
    );
}

#[test]
fn unit_type_names() {
    assert_eq!(UnitType::str_variants(), ["binary", "static-library", "dynamic-library"]);
    assert_eq!(UnitType::parse("bin"), Ok(UnitType::Binary));
    assert_eq!(UnitType::parse("Static-Library"), Ok(UnitType::StaticLibrary));
    assert_eq!(UnitType::parse("dynamic-lib"), Ok(UnitType::DynamicLibrary));
    assert_eq!(UnitType::parse("module"), Err(Error::InvalidUnitType("module".to_string())));
}

#[test]
fn new_project_has_default_directories() {
    let p = sample_project();
    assert_eq!(p.default_build_directory, "build");
    assert_eq!(p.default_binary_directory, "bin");
    assert_eq!(p.default_library_directory, "lib");
    assert_eq!(p.default_object_directory, "obj");
}

#[test]
fn add_unit_derives_directories_from_type() {
    let mut p = sample_project();
    p.add_unit("app".to_string(), UnitType::Binary, "src/app".to_string());
    p.add_unit("core".to_string(), UnitType::StaticLibrary, "src/core".to_string());
    let app = p.find_unit("app").unwrap();
    assert_eq!(app.output_directory, Some("build/bin".to_string()));
    assert_eq!(app.intermediate_directory, Some("build/obj".to_string()));
    assert_eq!(app.include_paths, None);
    assert_eq!(app.additional_compiler_args, None);
    let core = p.find_unit("core").unwrap();
    assert_eq!(core.output_directory, Some("build/lib".to_string()));
    assert_eq!(p.get_unit_names(), vec!["app".to_string(), "core".to_string()]);
    assert!(p.find_unit("missing").is_none());
}

#[test]
fn add_unit_replaces_unit_of_same_name() {
    let mut p = sample_project();
    p.add_unit("app".to_string(), UnitType::Binary, "src/app".to_string());
    p.add_unit("app".to_string(), UnitType::DynamicLibrary, "src/other".to_string());
    assert_eq!(p.units.len(), 1);
    let app = p.find_unit("app").unwrap();
    assert_eq!(app.unit_type, UnitType::DynamicLibrary);
    assert_eq!(app.source, "src/other");
}

#[test]
fn save_omits_default_directories() {
    let mut p = sample_project();
    p.default_binary_directory = "binaries".to_string();
    let r = p.to_record();
    assert_eq!(r.name, "demo");
    assert_eq!(r.language, "c");
    assert_eq!(r.compiler, "gcc");
    assert_eq!(r.default_build_directory, None);
    assert_eq!(r.default_binary_directory, Some("binaries".to_string()));
    assert_eq!(r.default_object_directory, None);
    assert_eq!(r.global_include_paths, Some(vec!["include".to_string()]));
}

#[test]
fn added_unit_survives_save_and_load() {
    let mut p = sample_project();
    p.add_unit("app".to_string(), UnitType::Binary, "src/app".to_string());
    let loaded = ProjectConfig::from_record(&p.to_record(), "elsewhere").unwrap();
    assert_eq!(loaded.project_location, "elsewhere");
    let app = loaded.find_unit("app").unwrap();
    assert_eq!(app.unit_type, UnitType::Binary);
    assert_eq!(app.source, "src/app");
    assert_eq!(app.output_directory, Some("build/bin".to_string()));
    assert_eq!(app.intermediate_directory, Some("build/obj".to_string()));
}

fn hand_written_record() -> ProjectRecord {
    ProjectRecord {
        name: "demo".to_string(),
        language: "C++".to_string(),
        compiler: "G++".to_string(),
        default_build_directory: Some("build".to_string()),
        default_binary_directory: Some("out".to_string()),
        default_library_directory: None,
        default_object_directory: None,
        global_include_paths: None,
        global_additional_compiler_args: Some("-O2 -Wall".to_string()),
        units: vec![UnitRecord {
            name: "app".to_string(),
            unit_type: "BIN".to_string(),
            source: "src".to_string(),
            output_directory: None,
            intermediate_directory: None,
            include_paths: None,
            additional_compiler_args: None,
        }],
    }
}

#[test]
fn save_after_load_normalises_once() {
    let r = hand_written_record();
    let p = ProjectConfig::from_record(&r, "root").unwrap();
    assert_eq!(p.default_build_directory, "build");
    assert_eq!(p.default_binary_directory, "out");
    assert_eq!(p.default_library_directory, "lib");
    let once = p.to_record();
    assert_eq!(once.language, "c++");
    assert_eq!(once.compiler, "g++");
    assert_eq!(once.default_build_directory, None);
    assert_eq!(once.default_binary_directory, Some("out".to_string()));
    assert_eq!(once.units[0].unit_type, "binary");
    assert_eq!(once.units[0].output_directory, None);
    let twice = ProjectConfig::from_record(&once, "root").unwrap().to_record();
    assert_eq!(format!("{:?}", once), format!("{:?}", twice));
}

#[test]
fn load_reports_first_bad_name() {
    let mut r = hand_written_record();
    r.units[0].unit_type = "plugin".to_string();
    assert_eq!(
        ProjectConfig::from_record(&r, "root").unwrap_err(),
        Error::InvalidUnitType("plugin".to_string())
    );
    r.compiler = "tcc".to_string();
    assert_eq!(
        ProjectConfig::from_record(&r, "root").unwrap_err(),
        Error::InvalidCompiler("tcc".to_string())
    );
    r.language = "go".to_string();
    assert_eq!(
        ProjectConfig::from_record(&r, "root").unwrap_err(),
        Error::InvalidLanguage("go".to_string())
    );
}

#[test]
fn unit_record_round_trip() {
    let u = UnitConfig::new(
        "lib".to_string(),
        UnitType::StaticLibrary,
        "src/lib".to_string(),
        "out".to_string(),
        "objs".to_string(),
        Some(vec!["inc".to_string()]),
        Some("-g".to_string()),
    );
    let r = u.to_record();
    assert_eq!(r.unit_type, "static-library");
    let back = UnitConfig::from_record(&r).unwrap();
    assert_eq!(back.output_directory, Some("out".to_string()));
    assert_eq!(back.include_paths, Some(vec!["inc".to_string()]));
    assert_eq!(back.additional_compiler_args, Some("-g".to_string()));
}

#[test]
fn compiler_options_carry_globals() {
    let p = sample_project();
    let o = p.get_compiler_options();
    assert_eq!(o.root_path, "proj");
    assert_eq!(o.target_language, ProjectLanguage::C);
    assert_eq!(o.include_paths, Some(vec!["include".to_string()]));
    assert_eq!(o.additional_flags, None);
}
