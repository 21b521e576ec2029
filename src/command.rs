//! Building one compiler invocation: the program, its arguments, the paths
//! that must exist before it may run, and the directory its output needs.
use vstd::prelude::*;
use vstd::string::*;
use crate::language::{language_text, ProjectLanguage};
use crate::path::{find_last, join, joined, last_index_of, lemma_last_index_bounds};
use crate::text::copy_strings;
use crate::toolchain::CompilerCommandFlags;

verus! {

/// One run of the toolchain. It may run only if every path of
/// `required_paths` exists, and after `output_directories` have been made.
#[derive(Debug)]
pub struct Invocation {
    pub program: String,
    pub args: Vec<String>,
    pub required_paths: Vec<String>,
    pub output_directories: Vec<String>,
}

/// The content of an invocation.
pub ghost struct InvocationView {
    pub program: Seq<char>,
    pub args: Seq<Seq<char>>,
    pub required_paths: Seq<Seq<char>>,
    pub output_directories: Seq<Seq<char>>,
}

impl View for Invocation {
    type V = InvocationView;

    open spec fn view(&self) -> InvocationView {
        InvocationView {
            program: self.program@,
            args: self.args.deep_view(),
            required_paths: self.required_paths.deep_view(),
            output_directories: self.output_directories.deep_view(),
        }
    }
}

impl Invocation {
    /// A copy of this invocation.
    pub fn duplicate(&self) -> (r: Invocation)
        ensures
            r@ == self@,
    {
        let r = Invocation {
            program: self.program.clone(),
            args: copy_strings(&self.args),
            required_paths: copy_strings(&self.required_paths),
            output_directories: copy_strings(&self.output_directories),
        };
        assert(r.args.deep_view() =~= self.args.deep_view());
        assert(r.required_paths.deep_view() =~= self.required_paths.deep_view());
        assert(r.output_directories.deep_view() =~= self.output_directories.deep_view());
        r
    }
}

/// The directory that holds `p`; empty where `p` has no directory part.
pub open spec fn parent_of(p: Seq<char>) -> Seq<char> {
    let k = last_index_of(p, '/');
    if k > 0 {
        p.subrange(0, k)
    } else if k == 0 {
        seq!['/']
    } else {
        seq![]
    }
}

/// `paths`, each resolved against `root`.
pub open spec fn rooted(root: Seq<char>, paths: Seq<Seq<char>>) -> Seq<Seq<char>> {
    paths.map_values(|p: Seq<char>| joined(root, p))
}

/// The arguments that name `paths` as include directories under `root`.
pub open spec fn include_args(flag: Seq<char>, root: Seq<char>, paths: Seq<Seq<char>>) -> Seq<Seq<char>>
    decreases paths.len(),
{
    if paths.len() == 0 {
        seq![]
    } else {
        include_args(flag, root, paths.drop_last()) + seq![flag, joined(root, paths.last())]
    }
}

/// A toolchain with the settings shared by all its invocations in a build.
#[derive(Debug)]
pub struct CompilerCommand {
    pub executable_name: String,
    pub command_flags: CompilerCommandFlags,
    /// The project root; include paths are resolved against it.
    pub root_relative_path: String,
    /// Include directories of every invocation.
    pub include_paths: Vec<String>,
    /// Arguments of every invocation, one word each.
    pub additional_args: Vec<String>,
}

/// An invocation being assembled.
#[derive(Debug)]
pub struct CompilerCommandExecutor {
    pub program: String,
    pub flags: CompilerCommandFlags,
    pub relative_path: String,
    pub args: Vec<String>,
    pub required_paths: Vec<String>,
    pub output_directories: Vec<String>,
}

/// The arguments every invocation of `c` starts with.
pub open spec fn base_args(c: CompilerCommand) -> Seq<Seq<char>> {
    include_args(c.command_flags.include_dir@, c.root_relative_path@, c.include_paths.deep_view())
        + c.additional_args.deep_view()
}

/// The paths every invocation of `c` needs.
pub open spec fn base_required(c: CompilerCommand) -> Seq<Seq<char>> {
    rooted(c.root_relative_path@, c.include_paths.deep_view())
}

impl CompilerCommand {
    pub fn new(
        executable_name: String,
        command_flags: CompilerCommandFlags,
        root_relative_path: String,
        include_paths: Vec<String>,
        additional_args: Vec<String>,
    ) -> (r: CompilerCommand)
        ensures
            r.executable_name == executable_name,
            r.command_flags == command_flags,
            r.root_relative_path == root_relative_path,
            r.include_paths == include_paths,
            r.additional_args == additional_args,
    {
        CompilerCommand {
            executable_name,
            command_flags,
            root_relative_path,
            include_paths,
            additional_args,
        }
    }

    /// A new invocation with this command's include paths and arguments.
    pub fn executor(&self) -> (r: CompilerCommandExecutor)
        ensures
            r.program@ == self.executable_name@,
            r.flags == self.command_flags,
            r.relative_path@ == self.root_relative_path@,
            r.args.deep_view() == base_args(*self),
            r.required_paths.deep_view() == base_required(*self),
            r.output_directories.deep_view() == Seq::<Seq<char>>::empty(),
    {
        let mut e = CompilerCommandExecutor::new(
            self.executable_name.as_str(),
            self.command_flags,
            self.root_relative_path.as_str(),
        );
        let ghost flag = self.command_flags.include_dir@;
        let ghost root = self.root_relative_path@;
        let ghost paths = self.include_paths.deep_view();
        let mut i: usize = 0;
        assert(paths.subrange(0, 0) =~= Seq::<Seq<char>>::empty());
        while i < self.include_paths.len()
            invariant
                i <= self.include_paths@.len(),
                paths == self.include_paths.deep_view(),
                flag == self.command_flags.include_dir@,
                root == self.root_relative_path@,
                e.program@ == self.executable_name@,
                e.flags == self.command_flags,
                e.relative_path@ == root,
                e.args.deep_view() == include_args(flag, root, paths.subrange(0, i as int)),
                e.required_paths.deep_view() == rooted(root, paths.subrange(0, i as int)),
                e.output_directories.deep_view() == Seq::<Seq<char>>::empty(),
            decreases self.include_paths.len() - i,
        {
            assert(paths.subrange(0, i + 1).drop_last() =~= paths.subrange(0, i as int));
            assert(rooted(root, paths.subrange(0, i + 1)) =~= rooted(root, paths.subrange(0, i as int)).push(
                joined(root, paths[i as int]),
            ));
            e.add_include_path(self.include_paths[i].as_str());
            i = i + 1;
        }
        assert(paths.subrange(0, i as int) =~= paths);
        let ghost before = e.args.deep_view();
        let mut j: usize = 0;
        while j < self.additional_args.len()
            invariant
                j <= self.additional_args@.len(),
                e.program@ == self.executable_name@,
                e.flags == self.command_flags,
                e.relative_path@ == root,
                e.args.deep_view() == before + self.additional_args.deep_view().subrange(0, j as int),
                e.required_paths.deep_view() == base_required(*self),
                e.output_directories.deep_view() == Seq::<Seq<char>>::empty(),
            decreases self.additional_args.len() - j,
        {
            e.add_arg(self.additional_args[j].as_str());
            assert(before + self.additional_args.deep_view().subrange(0, j + 1) =~= (before
                + self.additional_args.deep_view().subrange(0, j as int)).push(
                self.additional_args.deep_view()[j as int],
            ));
            j = j + 1;
        }
        assert(self.additional_args.deep_view().subrange(0, j as int) =~= self.additional_args.deep_view());
        e
    }
}

impl CompilerCommandExecutor {
    /// An invocation of `executable_name` without arguments.
    pub fn new(executable_name: &str, flags: CompilerCommandFlags, relative_path: &str) -> (r:
        CompilerCommandExecutor)
        ensures
            r.program@ == executable_name@,
            r.flags == flags,
            r.relative_path@ == relative_path@,
            r.args.deep_view() == Seq::<Seq<char>>::empty(),
            r.required_paths.deep_view() == Seq::<Seq<char>>::empty(),
            r.output_directories.deep_view() == Seq::<Seq<char>>::empty(),
    {
        let r = CompilerCommandExecutor {
            program: String::from_str(executable_name),
            flags,
            relative_path: String::from_str(relative_path),
            args: Vec::new(),
            required_paths: Vec::new(),
            output_directories: Vec::new(),
        };
        assert(r.args.deep_view() =~= Seq::<Seq<char>>::empty());
        assert(r.required_paths.deep_view() =~= Seq::<Seq<char>>::empty());
        assert(r.output_directories.deep_view() =~= Seq::<Seq<char>>::empty());
        r
    }

    /// Asks for an object file rather than a linked artifact.
    pub fn set_compile_flag(&mut self)
        ensures
            final(self).args.deep_view() == old(self).args.deep_view().push(old(self).flags.compile@),
            final(self).program == old(self).program,
            final(self).flags == old(self).flags,
            final(self).relative_path == old(self).relative_path,
            final(self).required_paths == old(self).required_paths,
            final(self).output_directories == old(self).output_directories,
    {
        let a = String::from_str(self.flags.compile);
        self.args.push(a);
        assert(self.args.deep_view() =~= old(self).args.deep_view().push(old(self).flags.compile@));
    }

    /// Names the language the sources are written in.
    pub fn set_language(&mut self, language: &ProjectLanguage)
        ensures
            final(self).args.deep_view() == old(self).args.deep_view() + seq![
                old(self).flags.language@,
                language_text(*language),
            ],
            final(self).program == old(self).program,
            final(self).flags == old(self).flags,
            final(self).relative_path == old(self).relative_path,
            final(self).required_paths == old(self).required_paths,
            final(self).output_directories == old(self).output_directories,
    {
        let a = String::from_str(self.flags.language);
        let b = String::from_str(language.as_str());
        self.args.push(a);
        self.args.push(b);
        assert(self.args.deep_view() =~= old(self).args.deep_view() + seq![
            old(self).flags.language@,
            language_text(*language),
        ]);
    }

    /// Names the output file; its directory is made before the run.
    pub fn set_output_file(&mut self, output_file: &str)
        ensures
            final(self).args.deep_view() == old(self).args.deep_view() + seq![
                old(self).flags.output@,
                output_file@,
            ],
            final(self).output_directories.deep_view() == old(self).output_directories.deep_view().push(
                parent_of(output_file@),
            ),
            final(self).program == old(self).program,
            final(self).flags == old(self).flags,
            final(self).relative_path == old(self).relative_path,
            final(self).required_paths == old(self).required_paths,
    {
        proof {
            lemma_last_index_bounds(output_file@, '/');
            reveal_strlit("/");
        }
        let parent = match find_last(output_file, '/') {
            Some(k) => {
                if k > 0 {
                    String::from_str(output_file.substring_char(0, k))
                } else {
                    assert("/"@ =~= seq!['/']);
                    String::from_str("/")
                }
            },
            None => String::new(),
        };
        assert(parent@ =~= parent_of(output_file@));
        self.output_directories.push(parent);
        let a = String::from_str(self.flags.output);
        let b = String::from_str(output_file);
        self.args.push(a);
        self.args.push(b);
        assert(self.args.deep_view() =~= old(self).args.deep_view() + seq![
            old(self).flags.output@,
            output_file@,
        ]);
        assert(self.output_directories.deep_view() =~= old(self).output_directories.deep_view().push(
            parent_of(output_file@),
        ));
    }

    /// Adds an include directory, resolved against the project root; it
    /// must exist for the invocation to run.
    pub fn add_include_path(&mut self, include_path: &str)
        ensures
            final(self).args.deep_view() == old(self).args.deep_view() + seq![
                old(self).flags.include_dir@,
                joined(old(self).relative_path@, include_path@),
            ],
            final(self).required_paths.deep_view() == old(self).required_paths.deep_view().push(
                joined(old(self).relative_path@, include_path@),
            ),
            final(self).program == old(self).program,
            final(self).flags == old(self).flags,
            final(self).relative_path == old(self).relative_path,
            final(self).output_directories == old(self).output_directories,
    {
        let full = join(self.relative_path.as_str(), include_path);
        let again = full.clone();
        self.required_paths.push(full);
        let a = String::from_str(self.flags.include_dir);
        self.args.push(a);
        self.args.push(again);
        assert(self.args.deep_view() =~= old(self).args.deep_view() + seq![
            old(self).flags.include_dir@,
            joined(old(self).relative_path@, include_path@),
        ]);
        assert(self.required_paths.deep_view() =~= old(self).required_paths.deep_view().push(
            joined(old(self).relative_path@, include_path@),
        ));
    }

    /// Adds an input file; it must exist for the invocation to run.
    pub fn add_input_file(&mut self, source_file: &str)
        ensures
            final(self).args.deep_view() == old(self).args.deep_view().push(source_file@),
            final(self).required_paths.deep_view() == old(self).required_paths.deep_view().push(
                source_file@,
            ),
            final(self).program == old(self).program,
            final(self).flags == old(self).flags,
            final(self).relative_path == old(self).relative_path,
            final(self).output_directories == old(self).output_directories,
    {
        self.required_paths.push(String::from_str(source_file));
        self.args.push(String::from_str(source_file));
        assert(self.args.deep_view() =~= old(self).args.deep_view().push(source_file@));
        assert(self.required_paths.deep_view() =~= old(self).required_paths.deep_view().push(
            source_file@,
        ));
    }

    /// Adds an argument as it is.
    pub fn add_arg(&mut self, arg: &str)
        ensures
            final(self).args.deep_view() == old(self).args.deep_view().push(arg@),
            final(self).program == old(self).program,
            final(self).flags == old(self).flags,
            final(self).relative_path == old(self).relative_path,
            final(self).required_paths == old(self).required_paths,
            final(self).output_directories == old(self).output_directories,
    {
        self.args.push(String::from_str(arg));
        assert(self.args.deep_view() =~= old(self).args.deep_view().push(arg@));
    }

    /// The invocation assembled so far.
    pub fn finish(self) -> (r: Invocation)
        ensures
            r@ == (InvocationView {
                program: self.program@,
                args: self.args.deep_view(),
                required_paths: self.required_paths.deep_view(),
                output_directories: self.output_directories.deep_view(),
            }),
    {
        Invocation {
            program: self.program,
            args: self.args,
            required_paths: self.required_paths,
            output_directories: self.output_directories,
        }
    }
}

} // verus!
