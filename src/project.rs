//! The project: its settings, its unit table, and the form in which it is
//! written to and read from the project file.
use vstd::prelude::*;
use vstd::string::*;
use crate::error::Error;
use crate::language::{language_text, parsed_language, ProjectLanguage};
use crate::path::{join, joined};
use crate::text::{copy_opt_text, copy_opt_texts, opt_text, opt_texts};
use crate::toolchain::{compiler_text, parsed_compiler, ProjectCompiler};
use crate::unit::{
    unit_type_text, parsed_unit_type, unit_loaded, unit_saved, UnitConfig, UnitRecord, UnitRecordView, UnitType,
    UnitView,
};

verus! {

/// Name of the project file inside the project root.
pub const PROJECT_FILE_NAME: &'static str = "copper.toml";

/// Default directory under which all build output goes.
pub open spec fn default_build() -> Seq<char> {
    seq!['b', 'u', 'i', 'l', 'd']
}

/// Default directory of binaries, inside the build directory.
pub open spec fn default_binary() -> Seq<char> {
    seq!['b', 'i', 'n']
}

/// Default directory of libraries, inside the build directory.
pub open spec fn default_library() -> Seq<char> {
    seq!['l', 'i', 'b']
}

/// Default directory of object files, inside the build directory.
pub open spec fn default_object() -> Seq<char> {
    seq!['o', 'b', 'j']
}

/// The default build directory.
pub fn default_build_directory() -> (r: String)
    ensures
        r@ == default_build(),
{
    proof {
        reveal_strlit("build");
        assert("build"@ =~= default_build());
    }
    String::from_str("build")
}

/// The default binary directory.
pub fn default_binary_directory() -> (r: String)
    ensures
        r@ == default_binary(),
{
    proof {
        reveal_strlit("bin");
        assert("bin"@ =~= default_binary());
    }
    String::from_str("bin")
}

/// The default library directory.
pub fn default_library_directory() -> (r: String)
    ensures
        r@ == default_library(),
{
    proof {
        reveal_strlit("lib");
        assert("lib"@ =~= default_library());
    }
    String::from_str("lib")
}

/// The default object directory.
pub fn default_object_directory() -> (r: String)
    ensures
        r@ == default_object(),
{
    proof {
        reveal_strlit("obj");
        assert("obj"@ =~= default_object());
    }
    String::from_str("obj")
}

/// A project as it is held in memory.
#[derive(Debug)]
pub struct ProjectConfig {
    /// Where the project lives; given when the project is loaded, never stored.
    pub project_location: String,
    pub name: String,
    pub language: ProjectLanguage,
    pub compiler: ProjectCompiler,
    /// Directory of all build output, relative to the project root.
    pub default_build_directory: String,
    /// Directory of binaries, relative to the build directory.
    pub default_binary_directory: String,
    /// Directory of libraries, relative to the build directory.
    pub default_library_directory: String,
    /// Directory of object files, relative to the build directory.
    pub default_object_directory: String,
    /// Include directories of every unit, relative to the project root.
    pub global_include_paths: Option<Vec<String>>,
    /// Compiler arguments of every unit, separated by white space.
    pub global_additional_compiler_args: Option<String>,
    /// The unit table.
    pub units: Vec<UnitConfig>,
}

/// The content of a project.
pub ghost struct ProjectView {
    pub location: Seq<char>,
    pub name: Seq<char>,
    pub language: ProjectLanguage,
    pub compiler: ProjectCompiler,
    pub build_directory: Seq<char>,
    pub binary_directory: Seq<char>,
    pub library_directory: Seq<char>,
    pub object_directory: Seq<char>,
    pub global_include_paths: Option<Seq<Seq<char>>>,
    pub global_args: Option<Seq<char>>,
    pub units: Seq<UnitView>,
}

/// The contents of a sequence of units.
pub open spec fn units_view(units: Seq<UnitConfig>) -> Seq<UnitView> {
    units.map_values(|u: UnitConfig| u@)
}

impl View for ProjectConfig {
    type V = ProjectView;

    open spec fn view(&self) -> ProjectView {
        ProjectView {
            location: self.project_location@,
            name: self.name@,
            language: self.language,
            compiler: self.compiler,
            build_directory: self.default_build_directory@,
            binary_directory: self.default_binary_directory@,
            library_directory: self.default_library_directory@,
            object_directory: self.default_object_directory@,
            global_include_paths: opt_texts(self.global_include_paths),
            global_args: opt_text(self.global_additional_compiler_args),
            units: units_view(self.units@),
        }
    }
}

/// A project as the project file writes it: names for its enumerations,
/// and no directory that equals its default.
#[derive(Debug, Clone)]
pub struct ProjectRecord {
    pub name: String,
    pub language: String,
    pub compiler: String,
    pub default_build_directory: Option<String>,
    pub default_binary_directory: Option<String>,
    pub default_library_directory: Option<String>,
    pub default_object_directory: Option<String>,
    pub global_include_paths: Option<Vec<String>>,
    pub global_additional_compiler_args: Option<String>,
    pub units: Vec<UnitRecord>,
}

/// The content of a stored project.
pub ghost struct ProjectRecordView {
    pub name: Seq<char>,
    pub language: Seq<char>,
    pub compiler: Seq<char>,
    pub build_directory: Option<Seq<char>>,
    pub binary_directory: Option<Seq<char>>,
    pub library_directory: Option<Seq<char>>,
    pub object_directory: Option<Seq<char>>,
    pub global_include_paths: Option<Seq<Seq<char>>>,
    pub global_args: Option<Seq<char>>,
    pub units: Seq<UnitRecordView>,
}

impl View for ProjectRecord {
    type V = ProjectRecordView;

    open spec fn view(&self) -> ProjectRecordView {
        ProjectRecordView {
            name: self.name@,
            language: self.language@,
            compiler: self.compiler@,
            build_directory: opt_text(self.default_build_directory),
            binary_directory: opt_text(self.default_binary_directory),
            library_directory: opt_text(self.default_library_directory),
            object_directory: opt_text(self.default_object_directory),
            global_include_paths: opt_texts(self.global_include_paths),
            global_args: opt_text(self.global_additional_compiler_args),
            units: self.units@.map_values(|u: UnitRecord| u@),
        }
    }
}

/// A directory as stored: absent where it equals its default.
pub open spec fn omit_default(d: Seq<char>, default: Seq<char>) -> Option<Seq<char>> {
    if d == default {
        None
    } else {
        Some(d)
    }
}

/// A stored directory as read: its default where absent.
pub open spec fn or_default(o: Option<Seq<char>>, default: Seq<char>) -> Seq<char> {
    match o {
        Some(d) => d,
        None => default,
    }
}

/// A stored directory after one load and save.
pub open spec fn normal_dir(o: Option<Seq<char>>, default: Seq<char>) -> Option<Seq<char>> {
    match o {
        Some(d) => omit_default(d, default),
        None => None,
    }
}

/// What the project file holds for a project.
pub open spec fn project_saved(p: ProjectView) -> ProjectRecordView {
    ProjectRecordView {
        name: p.name,
        language: language_text(p.language),
        compiler: compiler_text(p.compiler),
        build_directory: omit_default(p.build_directory, default_build()),
        binary_directory: omit_default(p.binary_directory, default_binary()),
        library_directory: omit_default(p.library_directory, default_library()),
        object_directory: omit_default(p.object_directory, default_object()),
        global_include_paths: p.global_include_paths,
        global_args: p.global_args,
        units: p.units.map_values(|u: UnitView| unit_saved(u)),
    }
}

/// Whether every name in a stored project stands for something.
pub open spec fn record_loads(r: ProjectRecordView) -> bool {
    &&& parsed_language(r.language) is Some
    &&& parsed_compiler(r.compiler) is Some
    &&& forall|i: int| 0 <= i < r.units.len() ==> (#[trigger] parsed_unit_type(r.units[i].unit_type)) is Some
}

/// The project that a stored project reads as, with its root at `root`.
pub open spec fn project_loaded(r: ProjectRecordView, root: Seq<char>) -> ProjectView
    recommends
        record_loads(r),
{
    ProjectView {
        location: root,
        name: r.name,
        language: parsed_language(r.language)->Some_0,
        compiler: parsed_compiler(r.compiler)->Some_0,
        build_directory: or_default(r.build_directory, default_build()),
        binary_directory: or_default(r.binary_directory, default_binary()),
        library_directory: or_default(r.library_directory, default_library()),
        object_directory: or_default(r.object_directory, default_object()),
        global_include_paths: r.global_include_paths,
        global_args: r.global_args,
        units: r.units.map_values(|u: UnitRecordView| unit_loaded(u)),
    }
}

/// A stored unit with its type written by its own name.
pub open spec fn unit_record_normalized(u: UnitRecordView) -> UnitRecordView {
    UnitRecordView { unit_type: crate::unit::unit_type_text(parsed_unit_type(u.unit_type)->Some_0), ..u }
}

/// A stored project with every name written as the project file writes it
/// and every directory that equals its default left out.
pub open spec fn record_normalized(r: ProjectRecordView) -> ProjectRecordView {
    ProjectRecordView {
        name: r.name,
        language: language_text(parsed_language(r.language)->Some_0),
        compiler: compiler_text(parsed_compiler(r.compiler)->Some_0),
        build_directory: normal_dir(r.build_directory, default_build()),
        binary_directory: normal_dir(r.binary_directory, default_binary()),
        library_directory: normal_dir(r.library_directory, default_library()),
        object_directory: normal_dir(r.object_directory, default_object()),
        global_include_paths: r.global_include_paths,
        global_args: r.global_args,
        units: r.units.map_values(|u: UnitRecordView| unit_record_normalized(u)),
    }
}

/// Position of the first unit named `name`, or -1.
pub open spec fn unit_position(units: Seq<UnitView>, name: Seq<char>) -> int
    decreases units.len(),
{
    if units.len() == 0 {
        -1
    } else if units[0].name == name {
        0
    } else {
        let k = unit_position(units.drop_first(), name);
        if k < 0 {
            -1
        } else {
            k + 1
        }
    }
}

/// The unit that `add_unit` makes in project `p`.
pub open spec fn new_unit_view(p: ProjectView, name: Seq<char>, t: UnitType, source: Seq<char>) -> UnitView {
    UnitView {
        name,
        unit_type: t,
        source,
        output_directory: Some(
            joined(
                p.build_directory,
                if t is Binary {
                    p.binary_directory
                } else {
                    p.library_directory
                },
            ),
        ),
        intermediate_directory: Some(joined(p.build_directory, p.object_directory)),
        include_paths: None,
        additional_compiler_args: None,
    }
}

/// The unit table with `u` in place of the first unit of its name, or
/// with `u` at its end where no unit has that name.
pub open spec fn with_unit(units: Seq<UnitView>, u: UnitView) -> Seq<UnitView> {
    let k = unit_position(units, u.name);
    if k >= 0 {
        units.update(k, u)
    } else {
        units.push(u)
    }
}

pub proof fn lemma_unit_position(units: Seq<UnitView>, name: Seq<char>, i: int)
    requires
        0 <= i <= units.len(),
        forall|j: int| 0 <= j < i ==> units[j].name != name,
    ensures
        i < units.len() && units[i].name == name ==> unit_position(units, name) == i,
        i == units.len() ==> unit_position(units, name) == -1,
    decreases i,
{
    if i > 0 {
        lemma_unit_position(units.drop_first(), name, i - 1);
    }
}

pub proof fn lemma_unit_position_bounds(units: Seq<UnitView>, name: Seq<char>)
    ensures
        -1 <= unit_position(units, name) < units.len(),
        unit_position(units, name) >= 0 ==> units[unit_position(units, name)].name == name,
    decreases units.len(),
{
    if units.len() > 0 && units[0].name != name {
        lemma_unit_position_bounds(units.drop_first(), name);
    }
}

impl ProjectConfig {
    /// A project with the default directory layout.
    pub fn new(
        project_location: String,
        name: String,
        language: ProjectLanguage,
        compiler: ProjectCompiler,
        global_include_paths: Option<Vec<String>>,
        global_compiler_args: Option<String>,
        units: Vec<UnitConfig>,
    ) -> (r: ProjectConfig)
        ensures
            r@ == (ProjectView {
                location: project_location@,
                name: name@,
                language,
                compiler,
                build_directory: default_build(),
                binary_directory: default_binary(),
                library_directory: default_library(),
                object_directory: default_object(),
                global_include_paths: opt_texts(global_include_paths),
                global_args: opt_text(global_compiler_args),
                units: units_view(units@),
            }),
    {
        ProjectConfig {
            project_location,
            name,
            language,
            compiler,
            default_build_directory: default_build_directory(),
            default_binary_directory: default_binary_directory(),
            default_library_directory: default_library_directory(),
            default_object_directory: default_object_directory(),
            global_include_paths,
            global_additional_compiler_args: global_compiler_args,
            units,
        }
    }

    /// Position of the first unit named `name`.
    fn position_of(&self, name: &str) -> (r: Option<usize>)
        ensures
            match r {
                Some(i) => i as int == unit_position(self@.units, name@) && i < self.units@.len(),
                None => unit_position(self@.units, name@) == -1,
            },
    {
        let target = String::from_str(name);
        let mut i: usize = 0;
        while i < self.units.len()
            invariant
                i <= self.units@.len(),
                target@ == name@,
                forall|j: int| 0 <= j < i ==> (#[trigger] self@.units[j]).name != name@,
            decreases self.units.len() - i,
        {
            if self.units[i].name == target {
                proof {
                    lemma_unit_position(self@.units, name@, i as int);
                }
                return Some(i);
            }
            i = i + 1;
        }
        proof {
            lemma_unit_position(self@.units, name@, i as int);
        }
        None
    }

    /// The first unit named `unit_name`, if there is one.
    pub fn find_unit(&self, unit_name: &str) -> (r: Option<&UnitConfig>)
        ensures
            match r {
                Some(u) => unit_position(self@.units, unit_name@) >= 0 && u@ == self@.units[unit_position(
                    self@.units,
                    unit_name@,
                )],
                None => unit_position(self@.units, unit_name@) == -1,
            },
    {
        match self.position_of(unit_name) {
            Some(i) => Some(&self.units[i]),
            None => None,
        }
    }

    /// The names of all units, in table order.
    pub fn get_unit_names(&self) -> (r: Vec<String>)
        ensures
            r@.len() == self@.units.len(),
            forall|i: int| 0 <= i < r@.len() ==> #[trigger] r@[i]@ == self@.units[i].name,
    {
        let mut r: Vec<String> = Vec::new();
        let mut i: usize = 0;
        while i < self.units.len()
            invariant
                i <= self.units@.len(),
                r@.len() == i,
                forall|j: int| 0 <= j < i ==> #[trigger] r@[j]@ == self@.units[j].name,
            decreases self.units.len() - i,
        {
            r.push(self.units[i].name.clone());
            i = i + 1;
        }
        r
    }

    /// Adds a unit with the project's default directories for its type and
    /// no include paths or arguments of its own. A unit of the same name is
    /// replaced in place, so that names stay unique.
    pub fn add_unit(&mut self, unit_name: String, unit_type: UnitType, unit_source: String)
        ensures
            final(self)@ == (ProjectView {
                units: with_unit(
                    old(self)@.units,
                    new_unit_view(old(self)@, unit_name@, unit_type, unit_source@),
                ),
                ..old(self)@
            }),
    {
        let type_directory = match unit_type {
            UnitType::Binary => &self.default_binary_directory,
            _ => &self.default_library_directory,
        };
        let output = join(self.default_build_directory.as_str(), type_directory.as_str());
        let intermediate = join(
            self.default_build_directory.as_str(),
            self.default_object_directory.as_str(),
        );
        let position = self.position_of(unit_name.as_str());
        let unit = UnitConfig::new(unit_name, unit_type, unit_source, output, intermediate, None, None);
        let ghost before = self.units@;
        match position {
            Some(i) => {
                self.units[i] = unit;
                assert(units_view(self.units@) =~= units_view(before).update(i as int, unit@));
            },
            None => {
                self.units.push(unit);
                assert(units_view(self.units@) =~= units_view(before).push(unit@));
            },
        }
    }

    /// The stored form of this project.
    pub fn to_record(&self) -> (r: ProjectRecord)
        ensures
            r@ == project_saved(self@),
    {
        let mut units: Vec<UnitRecord> = Vec::new();
        let mut i: usize = 0;
        while i < self.units.len()
            invariant
                i <= self.units@.len(),
                units@.len() == i,
                forall|j: int| 0 <= j < i ==> #[trigger] units@[j]@ == unit_saved(self.units@[j]@),
            decreases self.units.len() - i,
        {
            units.push(self.units[i].to_record());
            i = i + 1;
        }
        let r = ProjectRecord {
            name: self.name.clone(),
            language: String::from_str(self.language.as_str()),
            compiler: String::from_str(self.compiler.as_str()),
            default_build_directory: omit_if_default(&self.default_build_directory, default_build_directory()),
            default_binary_directory: omit_if_default(&self.default_binary_directory, default_binary_directory()),
            default_library_directory: omit_if_default(&self.default_library_directory, default_library_directory()),
            default_object_directory: omit_if_default(&self.default_object_directory, default_object_directory()),
            global_include_paths: copy_opt_texts(&self.global_include_paths),
            global_additional_compiler_args: copy_opt_text(&self.global_additional_compiler_args),
            units,
        };
        assert(r@.units =~= self@.units.map_values(|u: UnitView| unit_saved(u)));
        r
    }

    /// The project a stored project reads as, rooted at `root`. Fails on the
    /// first name that stands for nothing: the language, then the compiler,
    /// then the type of each unit in order.
    pub fn from_record(record: &ProjectRecord, root: &str) -> (r: Result<ProjectConfig, Error>)
        ensures
            match r {
                Ok(p) => record_loads(record@) && p@ == project_loaded(record@, root@),
                Err(e) => !record_loads(record@) && if parsed_language(record@.language) is None {
                    e == Error::InvalidLanguage(e->InvalidLanguage_0) && e->InvalidLanguage_0@
                        == record@.language
                } else if parsed_compiler(record@.compiler) is None {
                    e == Error::InvalidCompiler(e->InvalidCompiler_0) && e->InvalidCompiler_0@
                        == record@.compiler
                } else {
                    exists|k: int|
                        0 <= k < record@.units.len() && parsed_unit_type(
                            #[trigger] record@.units[k].unit_type,
                        ) is None && (forall|j: int|
                            0 <= j < k ==> (#[trigger] parsed_unit_type(
                                record@.units[j].unit_type,
                            )) is Some) && e == Error::InvalidUnitType(e->InvalidUnitType_0)
                            && e->InvalidUnitType_0@ == record@.units[k].unit_type
                },
            },
    {
        let language = match ProjectLanguage::parse(record.language.as_str()) {
            Ok(l) => l,
            Err(e) => {
                return Err(e);
            },
        };
        let compiler = match ProjectCompiler::parse(record.compiler.as_str()) {
            Ok(c) => c,
            Err(e) => {
                return Err(e);
            },
        };
        let mut units: Vec<UnitConfig> = Vec::new();
        let mut i: usize = 0;
        while i < record.units.len()
            invariant
                i <= record.units@.len(),
                units@.len() == i,
                parsed_language(record@.language) == Some(language),
                parsed_compiler(record@.compiler) == Some(compiler),
                forall|j: int| 0 <= j < i ==> (#[trigger] parsed_unit_type(record@.units[j].unit_type)) is Some,
                forall|j: int| 0 <= j < i ==> #[trigger] units@[j]@ == unit_loaded(record@.units[j]),
            decreases record.units.len() - i,
        {
            match UnitConfig::from_record(&record.units[i]) {
                Ok(u) => {
                    units.push(u);
                },
                Err(e) => {
                    assert(record@.units[i as int] == record.units@[i as int]@);
                    assert(parsed_unit_type(record@.units[i as int].unit_type) is None);
                    assert(!record_loads(record@));
                    assert(parsed_language(record@.language) is Some);
                    assert(parsed_compiler(record@.compiler) is Some);
                    assert(e == Error::InvalidUnitType(e->InvalidUnitType_0)
                        && e->InvalidUnitType_0@ == record@.units[i as int].unit_type);
                    return Err(e);
                },
            }
            i = i + 1;
        }
        let p = ProjectConfig {
            project_location: String::from_str(root),
            name: record.name.clone(),
            language,
            compiler,
            default_build_directory: or_default_directory(&record.default_build_directory, default_build_directory()),
            default_binary_directory: or_default_directory(&record.default_binary_directory, default_binary_directory()),
            default_library_directory: or_default_directory(&record.default_library_directory, default_library_directory()),
            default_object_directory: or_default_directory(&record.default_object_directory, default_object_directory()),
            global_include_paths: copy_opt_texts(&record.global_include_paths),
            global_additional_compiler_args: copy_opt_text(&record.global_additional_compiler_args),
            units,
        };
        assert(p@.units =~= record@.units.map_values(|u: UnitRecordView| unit_loaded(u)));
        Ok(p)
    }
}

fn omit_if_default(d: &String, default: String) -> (r: Option<String>)
    ensures
        opt_text(r) == omit_default(d@, default@),
{
    if *d == default {
        None
    } else {
        Some(d.clone())
    }
}

fn or_default_directory(o: &Option<String>, default: String) -> (r: String)
    ensures
        r@ == or_default(opt_text(*o), default@),
{
    match o {
        Some(d) => d.clone(),
        None => default,
    }
}

/// Every language and toolchain reads back from its own name.
pub proof fn lemma_own_names(l: ProjectLanguage, c: ProjectCompiler)
    ensures
        parsed_language(language_text(l)) == Some(l),
        parsed_compiler(compiler_text(c)) == Some(c),
{
    assert(language_text(l).len() != 1 ==> language_text(l) != seq!['c']);
    assert(compiler_text(c).len() != 3 ==> compiler_text(c) != seq!['g', 'c', 'c']);
    assert(compiler_text(c).len() != 3 ==> compiler_text(c) != seq!['g', '+', '+']);
    assert(compiler_text(c).len() != 3 ==> compiler_text(c) != seq!['g', 'p', 'p']);
    assert(compiler_text(c).len() != 5 ==> compiler_text(c) != seq!['c', 'l', 'a', 'n', 'g']);
    assert(seq!['g', 'c', 'c'] != seq!['g', '+', '+']) by {
        assert(seq!['g', 'c', 'c'][1] != seq!['g', '+', '+'][1]);
    }
    assert(seq!['g', '+', '+'] != seq!['g', 'p', 'p']) by {
        assert(seq!['g', '+', '+'][1] != seq!['g', 'p', 'p'][1]);
    }
    assert(seq!['g', 'c', 'c'] != seq!['g', 'p', 'p']) by {
        assert(seq!['g', 'c', 'c'][1] != seq!['g', 'p', 'p'][1]);
    }
}

/// Every unit type reads back from its own name.
pub proof fn lemma_own_unit_type_name(t: UnitType)
    ensures
        parsed_unit_type(unit_type_text(t)) == Some(t),
{
    let s = unit_type_text(t);
    assert(s.len() != 6 ==> s != unit_type_text(UnitType::Binary));
    assert(s.len() != 3 ==> s != seq!['b', 'i', 'n']);
    assert(s.len() != 14 ==> s != unit_type_text(UnitType::StaticLibrary));
    assert(s.len() != 10 ==> s != seq!['s', 't', 'a', 't', 'i', 'c', '-', 'l', 'i', 'b']);
}

/// The toolchain a new project gets: MSVC on Windows, elsewhere GCC for C
/// and G++ for C++.
pub open spec fn default_compiler_spec(language: ProjectLanguage, windows: bool) -> ProjectCompiler {
    if windows {
        ProjectCompiler::MSVC
    } else if language is C {
        ProjectCompiler::GCC
    } else {
        ProjectCompiler::GPP
    }
}

/// The toolchain a new project gets (see `default_compiler_spec`).
pub fn default_compiler(language: ProjectLanguage, windows: bool) -> (r: ProjectCompiler)
    ensures
        r == default_compiler_spec(language, windows),
{
    if windows {
        ProjectCompiler::MSVC
    } else {
        match language {
            ProjectLanguage::C => ProjectCompiler::GCC,
            ProjectLanguage::CPP => ProjectCompiler::GPP,
        }
    }
}

/// The one unit of a new project: with an example layout, a binary
/// `example_app` built from `src/app` into the default directories; else a
/// binary named after the project, built in the project root itself.
pub open spec fn initial_unit(name: Seq<char>, example: bool) -> UnitView {
    if example {
        UnitView {
            name: seq!['e', 'x', 'a', 'm', 'p', 'l', 'e', '_', 'a', 'p', 'p'],
            unit_type: UnitType::Binary,
            source: joined(seq!['s', 'r', 'c'], seq!['a', 'p', 'p']),
            output_directory: Some(joined(default_build(), default_binary())),
            intermediate_directory: Some(joined(default_build(), default_object())),
            include_paths: None,
            additional_compiler_args: None,
        }
    } else {
        UnitView {
            name,
            unit_type: UnitType::Binary,
            source: seq!['.'],
            output_directory: Some(seq!['.']),
            intermediate_directory: Some(seq!['.']),
            include_paths: None,
            additional_compiler_args: None,
        }
    }
}

/// The include directory of a new project with an example layout.
pub open spec fn example_include() -> Seq<char> {
    joined(seq!['s', 'r', 'c'], seq!['i', 'n', 'c', 'l', 'u', 'd', 'e'])
}

impl ProjectConfig {
    /// A new project with one unit (see `initial_unit`); with an example
    /// layout it also includes `src/include` in every unit.
    pub fn initial(
        project_location: String,
        name: String,
        language: ProjectLanguage,
        compiler: ProjectCompiler,
        generate_example: bool,
    ) -> (r: ProjectConfig)
        ensures
            r@ == (ProjectView {
                location: project_location@,
                name: name@,
                language,
                compiler,
                build_directory: default_build(),
                binary_directory: default_binary(),
                library_directory: default_library(),
                object_directory: default_object(),
                global_include_paths: if generate_example {
                    Some(seq![example_include()])
                } else {
                    None
                },
                global_args: None,
                units: seq![initial_unit(name@, generate_example)],
            }),
    {
        proof {
            reveal_strlit("src");
            reveal_strlit("app");
            reveal_strlit("include");
            reveal_strlit("example_app");
            reveal_strlit(".");
            assert("src"@ =~= seq!['s', 'r', 'c']);
            assert("app"@ =~= seq!['a', 'p', 'p']);
            assert("include"@ =~= seq!['i', 'n', 'c', 'l', 'u', 'd', 'e']);
            assert("example_app"@ =~= seq!['e', 'x', 'a', 'm', 'p', 'l', 'e', '_', 'a', 'p', 'p']);
            assert("."@ =~= seq!['.']);
        }
        let mut units: Vec<UnitConfig> = Vec::new();
        let mut includes: Option<Vec<String>> = None;
        if generate_example {
            let build = default_build_directory();
            let mut paths: Vec<String> = Vec::new();
            paths.push(join("src", "include"));
            assert(paths.deep_view() =~= seq![example_include()]);
            includes = Some(paths);
            units.push(
                UnitConfig::new(
                    String::from_str("example_app"),
                    UnitType::Binary,
                    join("src", "app"),
                    join(build.as_str(), default_binary_directory().as_str()),
                    join(build.as_str(), default_object_directory().as_str()),
                    None,
                    None,
                ),
            );
        } else {
            units.push(
                UnitConfig::new(
                    name.clone(),
                    UnitType::Binary,
                    String::from_str("."),
                    String::from_str("."),
                    String::from_str("."),
                    None,
                    None,
                ),
            );
        }
        assert(units_view(units@) =~= seq![initial_unit(name@, generate_example)]);
        ProjectConfig::new(project_location, name, language, compiler, includes, None, units)
    }
}

/// Loading what was saved gives back the project saved, rooted where it
/// was loaded from.
pub proof fn lemma_load_after_save(p: ProjectView, root: Seq<char>)
    ensures
        record_loads(project_saved(p)),
        project_loaded(project_saved(p), root) == (ProjectView { location: root, ..p }),
{
    let r = project_saved(p);
    lemma_own_names(p.language, p.compiler);
    assert forall|i: int| 0 <= i < r.units.len() implies (#[trigger] parsed_unit_type(r.units[i].unit_type)) is Some by {
        assert(r.units[i] == unit_saved(p.units[i]));
        lemma_own_unit_type_name(p.units[i].unit_type);
    }
    let back = r.units.map_values(|u: UnitRecordView| unit_loaded(u));
    assert forall|i: int| 0 <= i < p.units.len() implies back[i] == p.units[i] by {
        assert(r.units[i] == unit_saved(p.units[i]));
        lemma_own_unit_type_name(p.units[i].unit_type);
    }
    assert(back =~= p.units);
}

/// Saving what was loaded writes the file as it was read, but with every
/// name in its own spelling and every default directory left out; saving
/// and loading once more changes nothing further.
pub proof fn lemma_save_after_load(r: ProjectRecordView, root: Seq<char>)
    requires
        record_loads(r),
    ensures
        project_saved(project_loaded(r, root)) == record_normalized(r),
        record_loads(record_normalized(r)),
        project_loaded(record_normalized(r), root) == project_loaded(r, root),
        record_normalized(record_normalized(r)) == record_normalized(r),
{
    let p = project_loaded(r, root);
    let n = record_normalized(r);
    assert forall|i: int| 0 <= i < r.units.len() implies #[trigger] project_saved(p).units[i] == n.units[i] by {
        assert(parsed_unit_type(r.units[i].unit_type) is Some);
    }
    assert(project_saved(p).units =~= n.units);
    assert forall|i: int| 0 <= i < n.units.len() implies (#[trigger] parsed_unit_type(n.units[i].unit_type)) is Some by {
        assert(parsed_unit_type(r.units[i].unit_type) is Some);
    }
    let back = n.units.map_values(|u: UnitRecordView| unit_loaded(u));
    assert forall|i: int| 0 <= i < r.units.len() implies back[i] == p.units[i] by {
        assert(parsed_unit_type(r.units[i].unit_type) is Some);
    }
    assert(back =~= p.units);
    let nn = record_normalized(n);
    assert forall|i: int| 0 <= i < n.units.len() implies nn.units[i] == n.units[i] by {
        assert(parsed_unit_type(r.units[i].unit_type) is Some);
    }
    assert(nn.units =~= n.units);
}

/// A unit added to a project is in the unit table that saving and loading
/// the project gives, with its directories derived from the project's
/// defaults for its type, and the rest of the table is as it was.
pub proof fn lemma_added_unit_persists(
    p: ProjectView,
    name: Seq<char>,
    t: UnitType,
    source: Seq<char>,
    root: Seq<char>,
)
    ensures
        ({
            let added = ProjectView {
                units: with_unit(p.units, new_unit_view(p, name, t, source)),
                ..p
            };
            let loaded = project_loaded(project_saved(added), root);
            &&& loaded.units == added.units
            &&& unit_position(loaded.units, name) >= 0
            &&& loaded.units[unit_position(loaded.units, name)] == new_unit_view(p, name, t, source)
        }),
{
    let u = new_unit_view(p, name, t, source);
    let added = ProjectView { units: with_unit(p.units, u), ..p };
    lemma_load_after_save(added, root);
    lemma_unit_position_bounds(p.units, name);
    let k = unit_position(p.units, name);
    if k >= 0 {
        assert forall|j: int| 0 <= j < k implies added.units[j].name != name by {
            lemma_first_position(p.units, name, j);
        }
        lemma_unit_position(added.units, name, k);
    } else {
        assert forall|j: int| 0 <= j < p.units.len() implies added.units[j].name != name by {
            lemma_first_position(p.units, name, j);
        }
        lemma_unit_position(added.units, name, p.units.len() as int);
    }
}

proof fn lemma_first_position(units: Seq<UnitView>, name: Seq<char>, j: int)
    requires
        0 <= j < units.len(),
        unit_position(units, name) < 0 || j < unit_position(units, name),
    ensures
        units[j].name != name,
    decreases j,
{
    if j > 0 {
        if units[0].name != name {
            lemma_first_position(units.drop_first(), name, j - 1);
        }
    }
}

} // verus!
