//! The toolchains a project can select: their names, their executables, the
//! spelling of their command-line options, and what must be on the search
//! path for one to count as available.
use vstd::prelude::*;
use vstd::string::*;
use crate::error::Error;
use crate::text::{contains_text, lowercase_of, to_lower, trim_text, trimmed_of};

verus! {

/// The toolchain a project builds with.
#[derive(Debug, Clone, Copy, PartialEq, Eq, Structural)]
pub enum ProjectCompiler {
    GCC,
    GPP,
    CLANG,
    MSVC,
}

/// How a toolchain spells the options that a build passes to it.
#[derive(Debug, Clone, Copy)]
pub struct CompilerCommandFlags {
    /// Precedes the output file.
    pub output: &'static str,
    /// Asks for an object file rather than a linked artifact.
    pub compile: &'static str,
    /// Precedes an include directory.
    pub include_dir: &'static str,
    /// Precedes the source language.
    pub language: &'static str,
}

/// The name of a toolchain in the project file.
pub open spec fn compiler_text(c: ProjectCompiler) -> Seq<char> {
    match c {
        ProjectCompiler::GCC => seq!['g', 'c', 'c'],
        ProjectCompiler::GPP => seq!['g', '+', '+'],
        ProjectCompiler::CLANG => seq!['c', 'l', 'a', 'n', 'g'],
        ProjectCompiler::MSVC => seq!['m', 's', 'v', 'c'],
    }
}

/// The executable a toolchain is run as.
pub open spec fn executable_text(c: ProjectCompiler) -> Seq<char> {
    match c {
        ProjectCompiler::GCC => seq!['g', 'c', 'c'],
        ProjectCompiler::GPP => seq!['g', '+', '+'],
        ProjectCompiler::CLANG => seq!['c', 'l', 'a', 'n', 'g'],
        ProjectCompiler::MSVC => seq!['c', 'l'],
    }
}

/// The toolchain that a normalised name stands for; `gpp` and `cl` are
/// accepted beside the names of the project file.
pub open spec fn compiler_named(key: Seq<char>) -> Option<ProjectCompiler> {
    if key == seq!['g', 'c', 'c'] {
        Some(ProjectCompiler::GCC)
    } else if key == seq!['g', '+', '+'] || key == seq!['g', 'p', 'p'] {
        Some(ProjectCompiler::GPP)
    } else if key == seq!['c', 'l', 'a', 'n', 'g'] {
        Some(ProjectCompiler::CLANG)
    } else if key == seq!['m', 's', 'v', 'c'] || key == seq!['c', 'l'] {
        Some(ProjectCompiler::MSVC)
    } else {
        None
    }
}

/// The toolchain a name read from a project file stands for: the name
/// itself, or failing that its lower-case form without surrounding space.
pub open spec fn parsed_compiler(s: Seq<char>) -> Option<ProjectCompiler> {
    match compiler_named(s) {
        Some(c) => Some(c),
        None => compiler_named(trimmed_of(lowercase_of(s))),
    }
}

/// Whether the toolchain takes GCC's options; only these can be driven.
pub open spec fn is_gcc_family(c: ProjectCompiler) -> bool {
    !(c is MSVC)
}

/// The option spellings of the GCC family.
pub open spec fn gcc_flags(f: CompilerCommandFlags) -> bool {
    &&& f.output@ == seq!['-', 'o']
    &&& f.compile@ == seq!['-', 'c']
    &&& f.include_dir@ == seq!['-', 'I']
    &&& f.language@ == seq!['-', 'x']
}

/// File name of an executable on the host.
pub open spec fn host_executable(name: Seq<char>, windows: bool) -> Seq<char> {
    if windows {
        name + seq!['.', 'e', 'x', 'e']
    } else {
        name
    }
}

/// The executables that must all be on the search path for the toolchain
/// to be available; `None` where it cannot be available on this host.
pub open spec fn probe_spec(c: ProjectCompiler, windows: bool) -> Option<Seq<Seq<char>>> {
    if c is MSVC {
        if windows {
            Some(seq![host_executable(executable_text(c), true), host_executable(seq!['l', 'i', 'n', 'k'], true)])
        } else {
            None
        }
    } else {
        Some(seq![host_executable(executable_text(c), windows)])
    }
}

/// Whether every executable of the toolchain is among `found`.
pub open spec fn available_spec(c: ProjectCompiler, windows: bool, found: Seq<Seq<char>>) -> bool {
    match probe_spec(c, windows) {
        Some(names) => forall|i: int| 0 <= i < names.len() ==> found.contains(#[trigger] names[i]),
        None => false,
    }
}

fn host_name(name: &str, windows: bool) -> (r: String)
    ensures
        r@ == host_executable(name@, windows),
{
    proof {
        reveal_strlit(".exe");
        assert(".exe"@ =~= seq!['.', 'e', 'x', 'e']);
    }
    let base = String::from_str(name);
    if windows {
        base.concat(".exe")
    } else {
        base
    }
}

impl ProjectCompiler {
    /// The names that the project file accepts, one for each toolchain.
    pub fn str_variants() -> (r: [&'static str; 4])
        ensures
            r@[0]@ == compiler_text(ProjectCompiler::GCC),
            r@[1]@ == compiler_text(ProjectCompiler::GPP),
            r@[2]@ == compiler_text(ProjectCompiler::CLANG),
            r@[3]@ == compiler_text(ProjectCompiler::MSVC),
    {
        proof {
            reveal_strlit("gcc");
            reveal_strlit("g++");
            reveal_strlit("clang");
            reveal_strlit("msvc");
        }
        ["gcc", "g++", "clang", "msvc"]
    }

    /// The name of this toolchain in the project file.
    pub fn as_str(&self) -> (r: &'static str)
        ensures
            r@ == compiler_text(*self),
    {
        proof {
            reveal_strlit("gcc");
            reveal_strlit("g++");
            reveal_strlit("clang");
            reveal_strlit("msvc");
        }
        match self {
            ProjectCompiler::GCC => "gcc",
            ProjectCompiler::GPP => "g++",
            ProjectCompiler::CLANG => "clang",
            ProjectCompiler::MSVC => "msvc",
        }
    }

    /// The executable this toolchain is run as.
    pub fn executable_name(&self) -> (r: String)
        ensures
            r@ == executable_text(*self),
    {
        proof {
            reveal_strlit("gcc");
            reveal_strlit("g++");
            reveal_strlit("clang");
            reveal_strlit("cl");
            assert("gcc"@ =~= seq!['g', 'c', 'c']);
            assert("g++"@ =~= seq!['g', '+', '+']);
            assert("clang"@ =~= seq!['c', 'l', 'a', 'n', 'g']);
            assert("cl"@ =~= seq!['c', 'l']);
        }
        match self {
            ProjectCompiler::GCC => String::from_str("gcc"),
            ProjectCompiler::GPP => String::from_str("g++"),
            ProjectCompiler::CLANG => String::from_str("clang"),
            ProjectCompiler::MSVC => String::from_str("cl"),
        }
    }

    /// The option spellings of this toolchain, where it can be driven.
    pub fn command_flags(&self) -> (r: Option<CompilerCommandFlags>)
        ensures
            is_gcc_family(*self) <==> r is Some,
            r matches Some(f) ==> gcc_flags(f),
    {
        proof {
            reveal_strlit("-o");
            reveal_strlit("-c");
            reveal_strlit("-I");
            reveal_strlit("-x");
            assert("-o"@ =~= seq!['-', 'o']);
            assert("-c"@ =~= seq!['-', 'c']);
            assert("-I"@ =~= seq!['-', 'I']);
            assert("-x"@ =~= seq!['-', 'x']);
        }
        match self {
            ProjectCompiler::MSVC => None,
            _ => Some(CompilerCommandFlags { output: "-o", compile: "-c", include_dir: "-I", language: "-x" }),
        }
    }

    /// The executables to look for on the search path (see `probe_spec`).
    pub fn probe_names(&self, windows: bool) -> (r: Option<Vec<String>>)
        ensures
            match r {
                Some(v) => probe_spec(*self, windows) == Some(v.deep_view()),
                None => probe_spec(*self, windows) is None,
            },
    {
        let exe = self.executable_name();
        let mut names: Vec<String> = Vec::new();
        match self {
            ProjectCompiler::MSVC => {
                if !windows {
                    return None;
                }
                proof {
                    reveal_strlit("link");
                    assert("link"@ =~= seq!['l', 'i', 'n', 'k']);
                }
                names.push(host_name(exe.as_str(), true));
                names.push(host_name("link", true));
            },
            _ => {
                names.push(host_name(exe.as_str(), windows));
            },
        }
        assert(names.deep_view() =~= probe_spec(*self, windows)->Some_0);
        Some(names)
    }

    /// Reads a toolchain from its name, ignoring case and surrounding space.
    pub fn parse(value: &str) -> (r: Result<ProjectCompiler, Error>)
        ensures
            match r {
                Ok(c) => parsed_compiler(value@) == Some(c),
                Err(e) => parsed_compiler(value@) is None
                    && e == Error::InvalidCompiler(e->InvalidCompiler_0)
                    && e->InvalidCompiler_0@ == value@,
            },
    {
        proof {
            reveal_strlit("gcc");
            reveal_strlit("g++");
            reveal_strlit("gpp");
            reveal_strlit("clang");
            reveal_strlit("msvc");
            reveal_strlit("cl");
            assert("gcc"@ =~= seq!['g', 'c', 'c']);
            assert("g++"@ =~= seq!['g', '+', '+']);
            assert("gpp"@ =~= seq!['g', 'p', 'p']);
            assert("clang"@ =~= seq!['c', 'l', 'a', 'n', 'g']);
            assert("msvc"@ =~= seq!['m', 's', 'v', 'c']);
            assert("cl"@ =~= seq!['c', 'l']);
        }
        let exact = String::from_str(value);
        if exact == String::from_str("gcc") {
            return Ok(ProjectCompiler::GCC);
        } else if exact == String::from_str("g++") || exact == String::from_str("gpp") {
            return Ok(ProjectCompiler::GPP);
        } else if exact == String::from_str("clang") {
            return Ok(ProjectCompiler::CLANG);
        } else if exact == String::from_str("msvc") || exact == String::from_str("cl") {
            return Ok(ProjectCompiler::MSVC);
        }
        let lower = to_lower(value);
        let key = trim_text(lower.as_str());
        if key == String::from_str("gcc") {
            Ok(ProjectCompiler::GCC)
        } else if key == String::from_str("g++") || key == String::from_str("gpp") {
            Ok(ProjectCompiler::GPP)
        } else if key == String::from_str("clang") {
            Ok(ProjectCompiler::CLANG)
        } else if key == String::from_str("msvc") || key == String::from_str("cl") {
            Ok(ProjectCompiler::MSVC)
        } else {
            Err(Error::InvalidCompiler(String::from_str(value)))
        }
    }
}

/// Whether `compiler` is available, given the executables that a search of
/// the search path `found` (see `ProjectCompiler::probe_names`).
pub fn check_if_available(compiler: &ProjectCompiler, windows: bool, found: &Vec<String>) -> (r: bool)
    ensures
        r == available_spec(*compiler, windows, found.deep_view()),
{
    match compiler.probe_names(windows) {
        None => false,
        Some(names) => {
            let mut i: usize = 0;
            while i < names.len()
                invariant
                    i <= names.len(),
                    probe_spec(*compiler, windows) == Some(names.deep_view()),
                    forall|j: int| 0 <= j < i ==> found.deep_view().contains(#[trigger] names.deep_view()[j]),
                decreases names.len() - i,
            {
                if !contains_text(found, &names[i]) {
                    let ghost ns = probe_spec(*compiler, windows)->Some_0;
                    assert(ns[i as int] == names.deep_view()[i as int]);
                    assert(!found.deep_view().contains(ns[i as int]));
                    return false;
                }
                i = i + 1;
            }
            true
        },
    }
}

} // verus!
