//! Units: the named artifacts of a project, and their stored form.
use vstd::prelude::*;
use vstd::string::*;
use crate::error::Error;
use crate::text::{copy_opt_text, copy_opt_texts, lowercase_of, opt_text, opt_texts, to_lower};

verus! {

/// The kind of artifact a unit produces.
#[derive(Debug, Clone, Copy, PartialEq, Eq, Structural)]
pub enum UnitType {
    Binary,
    StaticLibrary,
    DynamicLibrary,
}

/// The name of a unit type in the project file.
pub open spec fn unit_type_text(t: UnitType) -> Seq<char> {
    match t {
        UnitType::Binary => seq!['b', 'i', 'n', 'a', 'r', 'y'],
        UnitType::StaticLibrary => seq![
            's', 't', 'a', 't', 'i', 'c', '-', 'l', 'i', 'b', 'r', 'a', 'r', 'y'
        ],
        UnitType::DynamicLibrary => seq![
            'd', 'y', 'n', 'a', 'm', 'i', 'c', '-', 'l', 'i', 'b', 'r', 'a', 'r', 'y'
        ],
    }
}

/// The unit type a name stands for; `bin`, `static-lib` and `dynamic-lib`
/// are accepted beside the names of the project file.
pub open spec fn unit_type_named(key: Seq<char>) -> Option<UnitType> {
    if key == unit_type_text(UnitType::Binary) || key == seq!['b', 'i', 'n'] {
        Some(UnitType::Binary)
    } else if key == unit_type_text(UnitType::StaticLibrary) || key == seq![
        's', 't', 'a', 't', 'i', 'c', '-', 'l', 'i', 'b'
    ] {
        Some(UnitType::StaticLibrary)
    } else if key == unit_type_text(UnitType::DynamicLibrary) || key == seq![
        'd', 'y', 'n', 'a', 'm', 'i', 'c', '-', 'l', 'i', 'b'
    ] {
        Some(UnitType::DynamicLibrary)
    } else {
        None
    }
}

/// The unit type a name read from a project file stands for: the name
/// itself, or failing that its lower-case form.
pub open spec fn parsed_unit_type(s: Seq<char>) -> Option<UnitType> {
    match unit_type_named(s) {
        Some(t) => Some(t),
        None => unit_type_named(lowercase_of(s)),
    }
}

/// The unit type that `key` names exactly.
fn type_for_key(key: &String) -> (r: Option<UnitType>)
    ensures
        r == unit_type_named(key@),
{
    proof {
        reveal_strlit("binary");
        reveal_strlit("bin");
        reveal_strlit("static-library");
        reveal_strlit("static-lib");
        reveal_strlit("dynamic-library");
        reveal_strlit("dynamic-lib");
        assert("binary"@ =~= unit_type_text(UnitType::Binary));
        assert("bin"@ =~= seq!['b', 'i', 'n']);
        assert("static-library"@ =~= unit_type_text(UnitType::StaticLibrary));
        assert("static-lib"@ =~= seq!['s', 't', 'a', 't', 'i', 'c', '-', 'l', 'i', 'b']);
        assert("dynamic-library"@ =~= unit_type_text(UnitType::DynamicLibrary));
        assert("dynamic-lib"@ =~= seq!['d', 'y', 'n', 'a', 'm', 'i', 'c', '-', 'l', 'i', 'b']);
    }
    if *key == String::from_str("binary") || *key == String::from_str("bin") {
        Some(UnitType::Binary)
    } else if *key == String::from_str("static-library") || *key == String::from_str("static-lib") {
        Some(UnitType::StaticLibrary)
    } else if *key == String::from_str("dynamic-library") || *key == String::from_str("dynamic-lib") {
        Some(UnitType::DynamicLibrary)
    } else {
        None
    }
}

impl UnitType {
    /// The names that the project file accepts, one for each unit type.
    pub fn str_variants() -> (r: [&'static str; 3])
        ensures
            r@[0]@ == unit_type_text(UnitType::Binary),
            r@[1]@ == unit_type_text(UnitType::StaticLibrary),
            r@[2]@ == unit_type_text(UnitType::DynamicLibrary),
    {
        proof {
            reveal_strlit("binary");
            reveal_strlit("static-library");
            reveal_strlit("dynamic-library");
        }
        ["binary", "static-library", "dynamic-library"]
    }

    /// The name of this unit type.
    pub fn as_str(&self) -> (r: &'static str)
        ensures
            r@ == unit_type_text(*self),
    {
        proof {
            reveal_strlit("binary");
            reveal_strlit("static-library");
            reveal_strlit("dynamic-library");
        }
        match self {
            UnitType::Binary => "binary",
            UnitType::StaticLibrary => "static-library",
            UnitType::DynamicLibrary => "dynamic-library",
        }
    }

    /// Reads a unit type from its name, ignoring case.
    pub fn parse(value: &str) -> (r: Result<UnitType, Error>)
        ensures
            match r {
                Ok(t) => parsed_unit_type(value@) == Some(t),
                Err(e) => parsed_unit_type(value@) is None
                    && e == Error::InvalidUnitType(e->InvalidUnitType_0)
                    && e->InvalidUnitType_0@ == value@,
            },
    {
        let exact = String::from_str(value);
        if let Some(t) = type_for_key(&exact) {
            return Ok(t);
        }
        let lower = to_lower(value);
        if let Some(t) = type_for_key(&lower) {
            return Ok(t);
        }
        Err(Error::InvalidUnitType(String::from_str(value)))
    }
}

/// A unit as the project holds it. An absent directory is derived from the
/// project's defaults when the unit is built.
#[derive(Debug, Clone)]
pub struct UnitConfig {
    /// Name of the unit; `ProjectConfig::add_unit` keeps names unique.
    pub name: String,
    /// What the unit produces.
    pub unit_type: UnitType,
    /// Directory of the unit's sources, relative to the project root.
    pub source: String,
    /// Where the artifact goes, relative to the project root.
    pub output_directory: Option<String>,
    /// Where the object files go, relative to the project root.
    pub intermediate_directory: Option<String>,
    /// Include directories of this unit alone.
    pub include_paths: Option<Vec<String>>,
    /// Further compiler arguments, separated by white space.
    pub additional_compiler_args: Option<String>,
}

/// The content of a unit.
pub ghost struct UnitView {
    pub name: Seq<char>,
    pub unit_type: UnitType,
    pub source: Seq<char>,
    pub output_directory: Option<Seq<char>>,
    pub intermediate_directory: Option<Seq<char>>,
    pub include_paths: Option<Seq<Seq<char>>>,
    pub additional_compiler_args: Option<Seq<char>>,
}

impl View for UnitConfig {
    type V = UnitView;

    open spec fn view(&self) -> UnitView {
        UnitView {
            name: self.name@,
            unit_type: self.unit_type,
            source: self.source@,
            output_directory: opt_text(self.output_directory),
            intermediate_directory: opt_text(self.intermediate_directory),
            include_paths: opt_texts(self.include_paths),
            additional_compiler_args: opt_text(self.additional_compiler_args),
        }
    }
}

/// A unit as the project file writes it: its type is a name.
#[derive(Debug, Clone)]
pub struct UnitRecord {
    pub name: String,
    pub unit_type: String,
    pub source: String,
    pub output_directory: Option<String>,
    pub intermediate_directory: Option<String>,
    pub include_paths: Option<Vec<String>>,
    pub additional_compiler_args: Option<String>,
}

/// The content of a stored unit.
pub ghost struct UnitRecordView {
    pub name: Seq<char>,
    pub unit_type: Seq<char>,
    pub source: Seq<char>,
    pub output_directory: Option<Seq<char>>,
    pub intermediate_directory: Option<Seq<char>>,
    pub include_paths: Option<Seq<Seq<char>>>,
    pub additional_compiler_args: Option<Seq<char>>,
}

impl View for UnitRecord {
    type V = UnitRecordView;

    open spec fn view(&self) -> UnitRecordView {
        UnitRecordView {
            name: self.name@,
            unit_type: self.unit_type@,
            source: self.source@,
            output_directory: opt_text(self.output_directory),
            intermediate_directory: opt_text(self.intermediate_directory),
            include_paths: opt_texts(self.include_paths),
            additional_compiler_args: opt_text(self.additional_compiler_args),
        }
    }
}

/// How a unit is written to the project file.
pub open spec fn unit_saved(u: UnitView) -> UnitRecordView {
    UnitRecordView {
        name: u.name,
        unit_type: unit_type_text(u.unit_type),
        source: u.source,
        output_directory: u.output_directory,
        intermediate_directory: u.intermediate_directory,
        include_paths: u.include_paths,
        additional_compiler_args: u.additional_compiler_args,
    }
}

/// The unit that a stored unit with a known type reads as.
pub open spec fn unit_loaded(r: UnitRecordView) -> UnitView
    recommends
        parsed_unit_type(r.unit_type) is Some,
{
    UnitView {
        name: r.name,
        unit_type: parsed_unit_type(r.unit_type)->Some_0,
        source: r.source,
        output_directory: r.output_directory,
        intermediate_directory: r.intermediate_directory,
        include_paths: r.include_paths,
        additional_compiler_args: r.additional_compiler_args,
    }
}

impl UnitConfig {
    /// A unit with both directories given.
    pub fn new(
        name: String,
        unit_type: UnitType,
        source: String,
        output_directory: String,
        intermediate_directory: String,
        include_paths: Option<Vec<String>>,
        additional_compiler_args: Option<String>,
    ) -> (r: UnitConfig)
        ensures
            r@ == (UnitView {
                name: name@,
                unit_type,
                source: source@,
                output_directory: Some(output_directory@),
                intermediate_directory: Some(intermediate_directory@),
                include_paths: opt_texts(include_paths),
                additional_compiler_args: opt_text(additional_compiler_args),
            }),
    {
        UnitConfig {
            name,
            unit_type,
            source,
            output_directory: Some(output_directory),
            intermediate_directory: Some(intermediate_directory),
            include_paths,
            additional_compiler_args,
        }
    }

    /// The stored form of this unit.
    pub fn to_record(&self) -> (r: UnitRecord)
        ensures
            r@ == unit_saved(self@),
    {
        UnitRecord {
            name: self.name.clone(),
            unit_type: String::from_str(self.unit_type.as_str()),
            source: self.source.clone(),
            output_directory: copy_opt_text(&self.output_directory),
            intermediate_directory: copy_opt_text(&self.intermediate_directory),
            include_paths: copy_opt_texts(&self.include_paths),
            additional_compiler_args: copy_opt_text(&self.additional_compiler_args),
        }
    }

    /// The unit a stored unit reads as; fails where its type names none.
    pub fn from_record(record: &UnitRecord) -> (r: Result<UnitConfig, Error>)
        ensures
            match r {
                Ok(u) => parsed_unit_type(record@.unit_type) is Some && u@ == unit_loaded(record@),
                Err(e) => parsed_unit_type(record@.unit_type) is None
                    && e == Error::InvalidUnitType(e->InvalidUnitType_0)
                    && e->InvalidUnitType_0@ == record@.unit_type,
            },
    {
        let unit_type = match UnitType::parse(record.unit_type.as_str()) {
            Ok(t) => t,
            Err(e) => {
                return Err(e);
            },
        };
        Ok(
            UnitConfig {
                name: record.name.clone(),
                unit_type,
                source: record.source.clone(),
                output_directory: copy_opt_text(&record.output_directory),
                intermediate_directory: copy_opt_text(&record.intermediate_directory),
                include_paths: copy_opt_texts(&record.include_paths),
                additional_compiler_args: copy_opt_text(&record.additional_compiler_args),
            },
        )
    }
}

} // verus!
