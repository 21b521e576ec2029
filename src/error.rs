//! The failures that loading, resolving and building a project can end in.
use vstd::prelude::*;

verus! {

/// Every failure the library reports. None is recovered from inside the
/// library: each ends the operation that met it.
#[derive(Debug, Clone, PartialEq, Eq)]
pub enum Error {
    /// The project file is absent.
    ProjectNotFound,
    /// The project file could not be read as a project.
    MalformedProject(String),
    /// A requested unit is not in the project.
    UnitNotFound(String),
    /// The named unit has no source file of the project's language.
    NoSourceFiles(String),
    /// A build was asked of a project without units.
    NoUnits,
    /// Text that names no language.
    InvalidLanguage(String),
    /// Text that names no compiler.
    InvalidCompiler(String),
    /// Text that names no unit type.
    InvalidUnitType(String),
    /// The project's compiler has no command-line support here.
    UnsupportedCompiler(String),
    /// The executables of the project's compiler are not on the search path.
    CompilerUnavailable(String),
    /// Building this kind of unit is not supported.
    UnsupportedUnitType(String),
    /// An include path or an input file does not exist.
    PathNotFound(String),
    /// A file system or process failure, with its message.
    IoError(String),
    /// Compiling a source of `unit` failed; `output` is what the compiler printed.
    CompileError { unit: String, output: String },
    /// Linking `unit` failed; `output` is what the linker printed.
    LinkError { unit: String, output: String },
}

impl Error {
    /// A copy of this error.
    pub fn duplicate(&self) -> (r: Error)
        ensures
            r == *self,
    {
        match self {
            Error::ProjectNotFound => Error::ProjectNotFound,
            Error::MalformedProject(s) => Error::MalformedProject(s.clone()),
            Error::UnitNotFound(s) => Error::UnitNotFound(s.clone()),
            Error::NoSourceFiles(s) => Error::NoSourceFiles(s.clone()),
            Error::NoUnits => Error::NoUnits,
            Error::InvalidLanguage(s) => Error::InvalidLanguage(s.clone()),
            Error::InvalidCompiler(s) => Error::InvalidCompiler(s.clone()),
            Error::InvalidUnitType(s) => Error::InvalidUnitType(s.clone()),
            Error::UnsupportedCompiler(s) => Error::UnsupportedCompiler(s.clone()),
            Error::CompilerUnavailable(s) => Error::CompilerUnavailable(s.clone()),
            Error::UnsupportedUnitType(s) => Error::UnsupportedUnitType(s.clone()),
            Error::PathNotFound(s) => Error::PathNotFound(s.clone()),
            Error::IoError(s) => Error::IoError(s.clone()),
            Error::CompileError { unit, output } => Error::CompileError {
                unit: unit.clone(),
                output: output.clone(),
            },
            Error::LinkError { unit, output } => Error::LinkError {
                unit: unit.clone(),
                output: output.clone(),
            },
        }
    }
}

/// A copy of the outcome of an operation.
pub fn copy_outcome(r: &Result<(), Error>) -> (c: Result<(), Error>)
    ensures
        c == *r,
{
    match r {
        Ok(u) => Ok(*u),
        Err(e) => Err(e.duplicate()),
    }
}

} // verus!
