//! The languages a project can be written in, with their names in the
//! project file and the file extensions of their sources.
use vstd::prelude::*;
use vstd::string::*;
use crate::error::Error;
use crate::text::{lowercase_of, to_lower, trim_text, trimmed_of};

verus! {

/// The language of a project.
#[derive(Debug, Clone, Copy, PartialEq, Eq, Structural)]
pub enum ProjectLanguage {
    C,
    CPP,
}

/// The name of a language, as the project file and the compiler's language
/// option spell it.
pub open spec fn language_text(l: ProjectLanguage) -> Seq<char> {
    match l {
        ProjectLanguage::C => seq!['c'],
        ProjectLanguage::CPP => seq!['c', '+', '+'],
    }
}

/// The extensions of the source files of a language.
pub open spec fn language_extensions(l: ProjectLanguage) -> Seq<Seq<char>> {
    match l {
        ProjectLanguage::C => seq![seq!['c']],
        ProjectLanguage::CPP => seq![seq!['c'], seq!['c', 'p', 'p']],
    }
}

/// The language that a normalised name stands for.
pub open spec fn language_named(key: Seq<char>) -> Option<ProjectLanguage> {
    if key == seq!['c'] {
        Some(ProjectLanguage::C)
    } else if key == seq!['c', '+', '+'] {
        Some(ProjectLanguage::CPP)
    } else {
        None
    }
}

/// The language a name read from a project file stands for: the name
/// itself, or failing that its lower-case form without surrounding space.
pub open spec fn parsed_language(s: Seq<char>) -> Option<ProjectLanguage> {
    match language_named(s) {
        Some(l) => Some(l),
        None => language_named(trimmed_of(lowercase_of(s))),
    }
}

impl ProjectLanguage {
    /// The names that the project file accepts, one for each language.
    pub fn str_variants() -> (r: [&'static str; 2])
        ensures
            r@[0]@ == language_text(ProjectLanguage::C),
            r@[1]@ == language_text(ProjectLanguage::CPP),
    {
        proof {
            reveal_strlit("c");
            reveal_strlit("c++");
        }
        ["c", "c++"]
    }

    /// The name of this language.
    pub fn as_str(&self) -> (r: &'static str)
        ensures
            r@ == language_text(*self),
    {
        proof {
            reveal_strlit("c");
            reveal_strlit("c++");
        }
        match self {
            ProjectLanguage::C => "c",
            ProjectLanguage::CPP => "c++",
        }
    }

    /// The extensions of this language's source files.
    pub fn extensions(&self) -> (r: Vec<String>)
        ensures
            r.deep_view() == language_extensions(*self),
    {
        proof {
            reveal_strlit("c");
            reveal_strlit("cpp");
            assert("c"@ =~= seq!['c']);
            assert("cpp"@ =~= seq!['c', 'p', 'p']);
        }
        let mut r: Vec<String> = Vec::new();
        r.push(String::from_str("c"));
        if let ProjectLanguage::CPP = self {
            r.push(String::from_str("cpp"));
        }
        assert(r.deep_view() =~= language_extensions(*self));
        r
    }

    /// Reads a language from its name, ignoring case and surrounding space.
    pub fn parse(value: &str) -> (r: Result<ProjectLanguage, Error>)
        ensures
            match r {
                Ok(l) => parsed_language(value@) == Some(l),
                Err(e) => parsed_language(value@) is None
                    && e == Error::InvalidLanguage(e->InvalidLanguage_0)
                    && e->InvalidLanguage_0@ == value@,
            },
    {
        proof {
            reveal_strlit("c");
            reveal_strlit("c++");
            assert("c"@ =~= seq!['c']);
            assert("c++"@ =~= seq!['c', '+', '+']);
        }
        let exact = String::from_str(value);
        if exact == String::from_str("c") {
            return Ok(ProjectLanguage::C);
        } else if exact == String::from_str("c++") {
            return Ok(ProjectLanguage::CPP);
        }
        let lower = to_lower(value);
        let key = trim_text(lower.as_str());
        if key == String::from_str("c") {
            Ok(ProjectLanguage::C)
        } else if key == String::from_str("c++") {
            Ok(ProjectLanguage::CPP)
        } else {
            Err(Error::InvalidLanguage(String::from_str(value)))
        }
    }
}

} // verus!
