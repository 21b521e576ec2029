//! The compiler of a project: turns a resolved target into the invocations
//! that compile each of its sources and then link them.
use vstd::prelude::*;
use vstd::string::*;
use crate::command::{
    base_args, base_required, include_args, parent_of, rooted, CompilerCommand, Invocation,
    InvocationView,
};
use crate::error::Error;
use crate::language::{language_text, ProjectLanguage};
use crate::path::{join, joined, object_path, object_path_for};
use crate::target::{paths_or_none, words_or_none, CompilerOptions, TargetInformation, TargetView};
use crate::text::{opt_text, opt_texts, split_words};
use crate::toolchain::{compiler_text, executable_text, gcc_flags, is_gcc_family, ProjectCompiler};

verus! {

/// A toolchain set up for one project.
#[derive(Debug)]
pub struct Compiler {
    pub command: CompilerCommand,
    pub compiler: ProjectCompiler,
    pub language: ProjectLanguage,
}

/// The object files of a target, one for each source, in source order.
pub open spec fn object_files(t: TargetView) -> Seq<Seq<char>> {
    t.source_files.map_values(|s: Seq<char>| object_path(t.intermediate_directory, s))
}

/// The file a target is linked into; a binary built for Windows carries
/// the `.exe` suffix.
pub open spec fn artifact_path(t: TargetView, windows: bool) -> Seq<char> {
    let base = joined(t.output_directory, t.name);
    if windows && t.unit_type is Binary {
        base + seq!['.', 'e', 'x', 'e']
    } else {
        base
    }
}

/// The invocation that compiles `source` of target `t`.
pub open spec fn compile_spec(c: Compiler, t: TargetView, source: Seq<char>) -> InvocationView {
    let f = c.command.command_flags;
    let root = c.command.root_relative_path@;
    let object = object_path(t.intermediate_directory, source);
    InvocationView {
        program: c.command.executable_name@,
        args: base_args(c.command) + seq![f.language@, language_text(c.language)] + seq![f.compile@]
            + include_args(f.include_dir@, root, t.include_paths) + t.additional_args + seq![
            f.output@,
            object,
        ] + seq![source],
        required_paths: base_required(c.command) + rooted(root, t.include_paths) + seq![source],
        output_directories: seq![parent_of(object)],
    }
}

/// The invocation that links the object files of target `t`.
pub open spec fn link_spec(c: Compiler, t: TargetView, windows: bool) -> InvocationView {
    let f = c.command.command_flags;
    let out = artifact_path(t, windows);
    InvocationView {
        program: c.command.executable_name@,
        args: base_args(c.command) + object_files(t) + seq![f.output@, out],
        required_paths: base_required(c.command) + object_files(t),
        output_directories: seq![parent_of(out)],
    }
}

/// All invocations that build target `t`: one compile for each source, in
/// order, then one link.
pub open spec fn plan_spec(c: Compiler, t: TargetView, windows: bool) -> Seq<InvocationView> {
    Seq::new(t.source_files.len(), |i: int| compile_spec(c, t, t.source_files[i])).push(
        link_spec(c, t, windows),
    )
}

/// A target with `n` sources is built by `n + 1` invocations: the `i`-th
/// compiles the `i`-th source into its object file, and the last links
/// every object file into the artifact under the output directory.
pub proof fn lemma_plan_shape(c: Compiler, t: TargetView, windows: bool)
    ensures
        plan_spec(c, t, windows).len() == t.source_files.len() + 1,
        forall|i: int|
            0 <= i < t.source_files.len() ==> {
                let args = (#[trigger] plan_spec(c, t, windows)[i]).args;
                &&& args.last() == t.source_files[i]
                &&& args[args.len() - 2] == object_path(t.intermediate_directory, t.source_files[i])
            },
        plan_spec(c, t, windows).last().args.last() == artifact_path(t, windows),
        plan_spec(c, t, windows).last().required_paths == base_required(c.command) + object_files(t),
{
    let n = t.source_files.len() as int;
    assert(plan_spec(c, t, windows).last() == link_spec(c, t, windows));
    assert forall|i: int| 0 <= i < n implies {
        let args = (#[trigger] plan_spec(c, t, windows)[i]).args;
        &&& args.last() == t.source_files[i]
        &&& args[args.len() - 2] == object_path(t.intermediate_directory, t.source_files[i])
    } by {
        assert(plan_spec(c, t, windows)[i] == compile_spec(c, t, t.source_files[i]));
    }
}

impl Compiler {
    /// Sets up `project_compiler` with the project-wide `options`. Only
    /// toolchains that take GCC's options can be set up.
    pub fn initialize(project_compiler: ProjectCompiler, options: CompilerOptions) -> (r: Result<
        Compiler,
        Error,
    >)
        ensures
            match r {
                Ok(c) => {
                    &&& is_gcc_family(project_compiler)
                    &&& c.compiler == project_compiler
                    &&& c.language == options.target_language
                    &&& c.command.executable_name@ == executable_text(project_compiler)
                    &&& gcc_flags(c.command.command_flags)
                    &&& c.command.root_relative_path == options.root_path
                    &&& c.command.include_paths.deep_view() == paths_or_none(
                        opt_texts(options.include_paths),
                    )
                    &&& c.command.additional_args.deep_view() == words_or_none(
                        opt_text(options.additional_flags),
                    )
                },
                Err(e) => !is_gcc_family(project_compiler) && e == Error::UnsupportedCompiler(
                    e->UnsupportedCompiler_0,
                ) && e->UnsupportedCompiler_0@ == compiler_text(project_compiler),
            },
    {
        let flags = match project_compiler.command_flags() {
            Some(f) => f,
            None => {
                return Err(Error::UnsupportedCompiler(String::from_str(project_compiler.as_str())));
            },
        };
        let ghost includes_given = opt_texts(options.include_paths);
        let ghost args_given = opt_text(options.additional_flags);
        let include_paths = match options.include_paths {
            Some(v) => v,
            None => Vec::new(),
        };
        assert(include_paths.deep_view() =~= paths_or_none(includes_given));
        let additional_args = match options.additional_flags {
            Some(s) => split_words(s.as_str()),
            None => Vec::new(),
        };
        assert(additional_args.deep_view() =~= words_or_none(args_given));
        Ok(
            Compiler {
                command: CompilerCommand::new(
                    project_compiler.executable_name(),
                    flags,
                    options.root_path,
                    include_paths,
                    additional_args,
                ),
                compiler: project_compiler,
                language: options.target_language,
            },
        )
    }

    /// The invocation that compiles `source` of `target` into its object file.
    pub fn compile_source(&self, target: &TargetInformation, source: &str) -> (r: Invocation)
        ensures
            r@ == compile_spec(*self, target@, source@),
    {
        let mut e = self.command.executor();
        e.set_language(&self.language);
        e.set_compile_flag();
        let mut i: usize = 0;
        let ghost start = e.args.deep_view();
        let ghost start_required = e.required_paths.deep_view();
        let ghost flag = self.command.command_flags.include_dir@;
        let ghost root = self.command.root_relative_path@;
        let ghost paths = target@.include_paths;
        assert(paths.subrange(0, 0) =~= Seq::<Seq<char>>::empty());
        assert(start + include_args(flag, root, paths.subrange(0, 0)) =~= start);
        assert(start_required + rooted(root, paths.subrange(0, 0)) =~= start_required);
        while i < target.include_paths.len()
            invariant
                i <= target.include_paths@.len(),
                paths == target@.include_paths,
                e.program@ == self.command.executable_name@,
                e.flags == self.command.command_flags,
                e.relative_path@ == root,
                flag == e.flags.include_dir@,
                e.args.deep_view() == start + include_args(flag, root, paths.subrange(0, i as int)),
                e.required_paths.deep_view() == start_required + rooted(root, paths.subrange(0, i as int)),
                e.output_directories.deep_view() == Seq::<Seq<char>>::empty(),
            decreases target.include_paths.len() - i,
        {
            assert(paths.subrange(0, i + 1).drop_last() =~= paths.subrange(0, i as int));
            e.add_include_path(target.include_paths[i].as_str());
            assert(e.args.deep_view() =~= start + include_args(flag, root, paths.subrange(0, i + 1)));
            assert(e.required_paths.deep_view() =~= start_required + rooted(root, paths.subrange(0, i + 1)));
            i = i + 1;
        }
        assert(paths.subrange(0, i as int) =~= paths);
        let ghost middle = e.args.deep_view();
        let mut j: usize = 0;
        while j < target.additional_args.len()
            invariant
                j <= target.additional_args@.len(),
                e.program@ == self.command.executable_name@,
                e.flags == self.command.command_flags,
                e.relative_path@ == root,
                e.args.deep_view() == middle + target.additional_args.deep_view().subrange(0, j as int),
                e.required_paths.deep_view() == start_required + rooted(root, paths),
                e.output_directories.deep_view() == Seq::<Seq<char>>::empty(),
            decreases target.additional_args.len() - j,
        {
            e.add_arg(target.additional_args[j].as_str());
            assert(middle + target.additional_args.deep_view().subrange(0, j + 1) =~= (middle
                + target.additional_args.deep_view().subrange(0, j as int)).push(
                target.additional_args.deep_view()[j as int],
            ));
            j = j + 1;
        }
        assert(target.additional_args.deep_view().subrange(0, j as int) =~= target.additional_args.deep_view());
        let object = object_path_for(target.intermediate_directory.as_str(), source);
        e.set_output_file(object.as_str());
        e.add_input_file(source);
        let r = e.finish();
        assert(r@.args =~= compile_spec(*self, target@, source@).args);
        assert(r@.required_paths =~= compile_spec(*self, target@, source@).required_paths);
        assert(r@.output_directories =~= compile_spec(*self, target@, source@).output_directories);
        r
    }

    /// The invocations that compile every source of `target`, in order.
    pub fn compile(&self, target: &TargetInformation) -> (r: Vec<Invocation>)
        ensures
            r@.len() == target@.source_files.len(),
            forall|i: int|
                0 <= i < r@.len() ==> #[trigger] r@[i]@ == compile_spec(*self, target@, target@.source_files[i]),
    {
        let mut r: Vec<Invocation> = Vec::new();
        let mut i: usize = 0;
        while i < target.source_files.len()
            invariant
                i <= target.source_files@.len(),
                r@.len() == i,
                forall|j: int|
                    0 <= j < i ==> #[trigger] r@[j]@ == compile_spec(*self, target@, target@.source_files[j]),
            decreases target.source_files.len() - i,
        {
            r.push(self.compile_source(target, target.source_files[i].as_str()));
            i = i + 1;
        }
        r
    }

    /// The invocation that links the object files of `target` into its
    /// artifact.
    pub fn link_objects(&self, target: &TargetInformation, windows: bool) -> (r: Invocation)
        ensures
            r@ == link_spec(*self, target@, windows),
    {
        let mut e = self.command.executor();
        let ghost start = e.args.deep_view();
        let ghost start_required = e.required_paths.deep_view();
        let ghost objects = object_files(target@);
        let mut i: usize = 0;
        assert(objects.subrange(0, 0) =~= Seq::<Seq<char>>::empty());
        assert(start + objects.subrange(0, 0) =~= start);
        assert(start_required + objects.subrange(0, 0) =~= start_required);
        while i < target.source_files.len()
            invariant
                i <= target.source_files@.len(),
                objects == object_files(target@),
                e.program@ == self.command.executable_name@,
                e.flags == self.command.command_flags,
                e.args.deep_view() == start + objects.subrange(0, i as int),
                e.required_paths.deep_view() == start_required + objects.subrange(0, i as int),
                e.output_directories.deep_view() == Seq::<Seq<char>>::empty(),
            decreases target.source_files.len() - i,
        {
            let object = object_path_for(
                target.intermediate_directory.as_str(),
                target.source_files[i].as_str(),
            );
            e.add_input_file(object.as_str());
            assert(start + objects.subrange(0, i + 1) =~= (start + objects.subrange(0, i as int)).push(
                objects[i as int],
            ));
            assert(start_required + objects.subrange(0, i + 1) =~= (start_required + objects.subrange(
                0,
                i as int,
            )).push(objects[i as int]));
            i = i + 1;
        }
        assert(objects.subrange(0, i as int) =~= objects);
        proof {
            reveal_strlit(".exe");
            assert(".exe"@ =~= seq!['.', 'e', 'x', 'e']);
        }
        let base = join(target.output_directory.as_str(), target.name.as_str());
        let out = if windows && matches!(target.unit_type, crate::unit::UnitType::Binary) {
            base.concat(".exe")
        } else {
            base
        };
        e.set_output_file(out.as_str());
        let r = e.finish();
        assert(r@.args =~= link_spec(*self, target@, windows).args);
        assert(r@.output_directories =~= link_spec(*self, target@, windows).output_directories);
        r
    }

    /// Every invocation that builds `target`: each compile in source order,
    /// then the link.
    pub fn build(&self, target: &TargetInformation, windows: bool) -> (r: Vec<Invocation>)
        ensures
            r@.len() == plan_spec(*self, target@, windows).len(),
            forall|i: int| 0 <= i < r@.len() ==> #[trigger] r@[i]@ == plan_spec(*self, target@, windows)[i],
    {
        let mut r = self.compile(target);
        r.push(self.link_objects(target, windows));
        r
    }
}

} // verus!
