//! Target information: everything a build of one unit needs, resolved
//! against the project root once before any compiler runs.
use vstd::prelude::*;
use vstd::string::*;
use crate::error::Error;
use crate::language::{language_extensions, ProjectLanguage};
use crate::path::{extension_of, file_extension, file_name, file_name_of, join, joined};
use crate::project::{or_default, ProjectConfig, ProjectView};
use crate::text::{
    contains_text, copy_opt_text, copy_opt_texts, opt_text, opt_texts, split_words,
    words_of,
};
use crate::unit::{unit_type_text, UnitConfig, UnitType, UnitView};

verus! {

/// Settings of the toolchain that hold for every unit of a project.
#[derive(Debug)]
pub struct CompilerOptions {
    /// The project root, against which include paths are resolved.
    pub root_path: String,
    /// The language every source is compiled as.
    pub target_language: ProjectLanguage,
    /// Include directories of every unit, relative to the root.
    pub include_paths: Option<Vec<String>>,
    /// Arguments of every unit, separated by white space.
    pub additional_flags: Option<String>,
}

/// Everything a build of one unit needs.
#[derive(Debug)]
pub struct TargetInformation {
    /// Name of the unit and of its artifact.
    pub name: String,
    pub unit_type: UnitType,
    /// The unit's sources, in the order they were found.
    pub source_files: Vec<String>,
    /// Where the artifact goes.
    pub output_directory: String,
    /// Where the object files go.
    pub intermediate_directory: String,
    /// Include directories of the unit, relative to the project root.
    pub include_paths: Vec<String>,
    /// Further arguments of the unit, one word each.
    pub additional_args: Vec<String>,
}

/// The content of a target.
pub ghost struct TargetView {
    pub name: Seq<char>,
    pub unit_type: UnitType,
    pub source_files: Seq<Seq<char>>,
    pub output_directory: Seq<char>,
    pub intermediate_directory: Seq<char>,
    pub include_paths: Seq<Seq<char>>,
    pub additional_args: Seq<Seq<char>>,
}

impl View for TargetInformation {
    type V = TargetView;

    open spec fn view(&self) -> TargetView {
        TargetView {
            name: self.name@,
            unit_type: self.unit_type,
            source_files: self.source_files.deep_view(),
            output_directory: self.output_directory@,
            intermediate_directory: self.intermediate_directory@,
            include_paths: self.include_paths.deep_view(),
            additional_args: self.additional_args.deep_view(),
        }
    }
}

/// An optional list of paths, empty where absent.
pub open spec fn paths_or_none(o: Option<Seq<Seq<char>>>) -> Seq<Seq<char>> {
    match o {
        Some(v) => v,
        None => seq![],
    }
}

/// The words of optional arguments, none where absent.
pub open spec fn words_or_none(o: Option<Seq<char>>) -> Seq<Seq<char>> {
    match o {
        Some(s) => words_of(s),
        None => seq![],
    }
}

/// Whether `f` is a source file: its extension is one of `exts`.
pub open spec fn is_source(f: Seq<char>, exts: Seq<Seq<char>>) -> bool {
    match file_extension(file_name(f)) {
        Some(e) => exts.contains(e),
        None => false,
    }
}

/// The source files among `files`, in their order.
pub open spec fn selected_sources(files: Seq<Seq<char>>, exts: Seq<Seq<char>>) -> Seq<Seq<char>>
    decreases files.len(),
{
    if files.len() == 0 {
        seq![]
    } else {
        let rest = selected_sources(files.drop_last(), exts);
        if is_source(files.last(), exts) {
            rest.push(files.last())
        } else {
            rest
        }
    }
}

/// The output directory a unit without one of its own takes.
pub open spec fn derived_output(t: UnitType, p: ProjectView) -> Seq<char> {
    joined(
        p.build_directory,
        if t is Binary {
            p.binary_directory
        } else {
            p.library_directory
        },
    )
}

/// The object directory a unit without one of its own takes.
pub open spec fn derived_intermediate(p: ProjectView) -> Seq<char> {
    joined(p.build_directory, p.object_directory)
}

/// The directory of a unit's sources.
pub open spec fn source_directory(u: UnitView, p: ProjectView) -> Seq<char> {
    joined(p.location, u.source)
}

/// The target that unit `u` of project `p` resolves to, when `files` were
/// found in its source directory.
pub open spec fn target_spec(u: UnitView, p: ProjectView, files: Seq<Seq<char>>) -> TargetView {
    TargetView {
        name: u.name,
        unit_type: u.unit_type,
        source_files: selected_sources(files, language_extensions(p.language)),
        output_directory: joined(p.location, or_default(u.output_directory, derived_output(u.unit_type, p))),
        intermediate_directory: joined(
            p.location,
            or_default(u.intermediate_directory, derived_intermediate(p)),
        ),
        include_paths: paths_or_none(u.include_paths),
        additional_args: words_or_none(u.additional_compiler_args),
    }
}

/// Whether `f` is a source file of the given extensions.
pub fn is_source_file(f: &String, exts: &Vec<String>) -> (r: bool)
    ensures
        r == is_source(f@, exts.deep_view()),
{
    let name = file_name_of(f.as_str());
    match extension_of(name.as_str()) {
        Some(e) => contains_text(exts, &e),
        None => false,
    }
}

/// The source files among `files`, in their order.
pub fn select_sources(files: &Vec<String>, exts: &Vec<String>) -> (r: Vec<String>)
    ensures
        r.deep_view() == selected_sources(files.deep_view(), exts.deep_view()),
{
    let mut r: Vec<String> = Vec::new();
    let mut i: usize = 0;
    assert(files.deep_view().subrange(0, 0) =~= Seq::<Seq<char>>::empty());
    while i < files.len()
        invariant
            i <= files@.len(),
            r.deep_view() == selected_sources(files.deep_view().subrange(0, i as int), exts.deep_view()),
        decreases files.len() - i,
    {
        let ghost before = r.deep_view();
        assert(files.deep_view().subrange(0, i + 1).drop_last() =~= files.deep_view().subrange(0, i as int));
        if is_source_file(&files[i], exts) {
            r.push(files[i].clone());
            assert(r.deep_view() =~= before.push(files.deep_view()[i as int]));
        }
        i = i + 1;
    }
    assert(files.deep_view().subrange(0, i as int) =~= files.deep_view());
    r
}

impl CompilerOptions {
    pub fn new(
        root_path: String,
        target_language: ProjectLanguage,
        include_paths: Option<Vec<String>>,
        additional_flags: Option<String>,
    ) -> (r: CompilerOptions)
        ensures
            r.root_path == root_path,
            r.target_language == target_language,
            r.include_paths == include_paths,
            r.additional_flags == additional_flags,
    {
        CompilerOptions { root_path, target_language, include_paths, additional_flags }
    }
}

impl TargetInformation {
    /// A target; absent include paths are none, and the arguments are split
    /// into words.
    pub fn new(
        name: String,
        unit_type: UnitType,
        source_files: Vec<String>,
        output_directory: String,
        intermediate_directory: String,
        include_paths: Option<Vec<String>>,
        additional_args: Option<String>,
    ) -> (r: TargetInformation)
        ensures
            r@ == (TargetView {
                name: name@,
                unit_type,
                source_files: source_files.deep_view(),
                output_directory: output_directory@,
                intermediate_directory: intermediate_directory@,
                include_paths: paths_or_none(opt_texts(include_paths)),
                additional_args: words_or_none(opt_text(additional_args)),
            }),
    {
        let includes = match include_paths {
            Some(v) => v,
            None => Vec::new(),
        };
        assert(includes.deep_view() =~= paths_or_none(opt_texts(include_paths)));
        let words = match additional_args {
            Some(s) => split_words(s.as_str()),
            None => Vec::new(),
        };
        assert(words.deep_view() =~= words_or_none(opt_text(additional_args)));
        TargetInformation {
            name,
            unit_type,
            source_files,
            output_directory,
            intermediate_directory,
            include_paths: includes,
            additional_args: words,
        }
    }
}

impl ProjectConfig {
    /// The settings that every unit of this project is compiled with.
    pub fn get_compiler_options(&self) -> (r: CompilerOptions)
        ensures
            r.root_path@ == self@.location,
            r.target_language == self@.language,
            opt_texts(r.include_paths) == self@.global_include_paths,
            opt_text(r.additional_flags) == self@.global_args,
    {
        CompilerOptions::new(
            self.project_location.clone(),
            self.language,
            copy_opt_texts(&self.global_include_paths),
            copy_opt_text(&self.global_additional_compiler_args),
        )
    }
}

impl UnitConfig {
    /// The output directory this unit takes from the project's defaults.
    pub fn generate_output_directory(&self, parent_project: &ProjectConfig) -> (r: String)
        ensures
            r@ == derived_output(self.unit_type, parent_project@),
    {
        match self.unit_type {
            UnitType::Binary => join(
                parent_project.default_build_directory.as_str(),
                parent_project.default_binary_directory.as_str(),
            ),
            _ => join(
                parent_project.default_build_directory.as_str(),
                parent_project.default_library_directory.as_str(),
            ),
        }
    }

    /// The object directory this unit takes from the project's defaults.
    pub fn generate_intermediate_directory(&self, parent_project: &ProjectConfig) -> (r: String)
        ensures
            r@ == derived_intermediate(parent_project@),
    {
        join(
            parent_project.default_build_directory.as_str(),
            parent_project.default_object_directory.as_str(),
        )
    }

    /// Resolves this unit of `parent_project`, given the files found in its
    /// source directory. Fails where none of them is a source of the
    /// project's language, and then where the unit is not a binary.
    pub fn get_target_information(&self, parent_project: &ProjectConfig, files: &Vec<String>) -> (r:
        Result<TargetInformation, Error>)
        ensures
            ({
                let spec = target_spec(self@, parent_project@, files.deep_view());
                match r {
                    Ok(t) => spec.source_files.len() > 0 && self.unit_type is Binary && t@ == spec,
                    Err(e) => if spec.source_files.len() == 0 {
                        e == Error::NoSourceFiles(self.name)
                    } else {
                        !(self.unit_type is Binary) && e == Error::UnsupportedUnitType(
                            e->UnsupportedUnitType_0,
                        ) && e->UnsupportedUnitType_0@ == unit_type_text(self.unit_type)
                    },
                }
            }),
    {
        let exts = parent_project.language.extensions();
        let sources = select_sources(files, &exts);
        if sources.len() == 0 {
            return Err(Error::NoSourceFiles(self.name.clone()));
        }
        if let UnitType::Binary = self.unit_type {
        } else {
            return Err(Error::UnsupportedUnitType(String::from_str(self.unit_type.as_str())));
        }
        let output = match &self.output_directory {
            Some(d) => d.clone(),
            None => self.generate_output_directory(parent_project),
        };
        let intermediate = match &self.intermediate_directory {
            Some(d) => d.clone(),
            None => self.generate_intermediate_directory(parent_project),
        };
        let root = parent_project.project_location.as_str();
        Ok(
            TargetInformation::new(
                self.name.clone(),
                self.unit_type,
                sources,
                join(root, output.as_str()),
                join(root, intermediate.as_str()),
                copy_opt_texts(&self.include_paths),
                copy_opt_text(&self.additional_compiler_args),
            ),
        )
    }
}

/// A unit without directories of its own is built in the same places on
/// every build: the project's derived directories under its root, whatever
/// else its source directory holds.
pub proof fn lemma_derived_locations_stable(
    u: UnitView,
    p: ProjectView,
    first: Seq<Seq<char>>,
    second: Seq<Seq<char>>,
)
    requires
        u.output_directory is None,
        u.intermediate_directory is None,
    ensures
        target_spec(u, p, first).output_directory == joined(p.location, derived_output(u.unit_type, p)),
        target_spec(u, p, first).intermediate_directory == joined(p.location, derived_intermediate(p)),
        target_spec(u, p, first).output_directory == target_spec(u, p, second).output_directory,
        target_spec(u, p, first).intermediate_directory == target_spec(
            u,
            p,
            second,
        ).intermediate_directory,
{
}

} // verus!
