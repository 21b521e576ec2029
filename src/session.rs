//! A build of a project as a sequence of decisions. The session says what
//! to do next (list a unit's sources, run an invocation, stop); whoever
//! drives it does that and reports back. Units are taken in request order,
//! each compile in source order and then the link; the first failure ends
//! the build.
use vstd::prelude::*;
use vstd::string::*;
use crate::command::{Invocation, InvocationView};
use crate::compiler::{plan_spec, Compiler};
use crate::error::{copy_outcome, Error};
use crate::language::language_extensions;
use crate::path::join;
use crate::text::opt_texts;
use crate::project::{unit_position, ProjectConfig, ProjectView};
use crate::target::{paths_or_none, source_directory, target_spec, words_or_none};
use crate::toolchain::{compiler_text, executable_text, gcc_flags, is_gcc_family};
use crate::unit::{unit_type_text, UnitView};

verus! {

/// Where a build stands.
#[derive(Debug, Clone, Copy, PartialEq, Eq, Structural)]
pub enum Phase {
    /// About to take up the unit at `position`, or to finish after the last.
    Resolving,
    /// Waiting for the files in the current unit's source directory.
    Listing,
    /// Waiting for the outcome of invocation `step` of the current plan.
    Running,
    /// Done; `outcome` holds how it ended.
    Finished,
}

/// What the driver of a session is to do next.
#[derive(Debug)]
pub enum Action {
    /// List every file under `directory`, recursively, and report them.
    ListSources { directory: String, extensions: Vec<String> },
    /// Run this invocation and report how it ended.
    Run(Invocation),
    /// The build is over.
    Finish(Result<(), Error>),
}

/// How an invocation ended.
#[derive(Debug)]
pub enum RunOutcome {
    /// The process ran; `output` is what it printed.
    Exited { success: bool, output: String },
    /// A path that the invocation needs does not exist; nothing was run.
    PathMissing(String),
    /// The process could not be started, or its directory not made.
    Failed(String),
}

/// The state of one build.
#[derive(Debug)]
pub struct BuildSession {
    pub project: ProjectConfig,
    pub compiler: Compiler,
    /// Whether artifacts are built for Windows.
    pub windows: bool,
    /// The units to build, in order.
    pub names: Vec<String>,
    /// Index in `names` of the unit at hand.
    pub position: usize,
    pub phase: Phase,
    /// The invocations of the unit at hand.
    pub plan: Vec<Invocation>,
    /// Index in `plan` of the invocation at hand.
    pub step: usize,
    /// How the build ended, once it has.
    pub outcome: Result<(), Error>,
}

/// The unit named at `position` of the session's request.
pub open spec fn current_unit(s: BuildSession) -> UnitView {
    s.project@.units[unit_position(s.project@.units, s.names@[s.position as int]@)]
}

/// The views of a sequence of invocations.
pub open spec fn plan_view(plan: Seq<Invocation>) -> Seq<InvocationView> {
    plan.map_values(|i: Invocation| i@)
}

/// The session with a new phase and outcome, and nothing else changed.
pub open spec fn ended(s: BuildSession, t: BuildSession, outcome: Result<(), Error>) -> bool {
    &&& t.phase == Phase::Finished
    &&& t.outcome == outcome
    &&& t.project == s.project
    &&& t.compiler == s.compiler
    &&& t.windows == s.windows
    &&& t.names == s.names
    &&& t.position == s.position
}

/// The session left as it was.
pub open spec fn unchanged(s: BuildSession, t: BuildSession) -> bool {
    &&& t.phase == s.phase
    &&& t.outcome == s.outcome
    &&& t.project == s.project
    &&& t.compiler == s.compiler
    &&& t.windows == s.windows
    &&& t.names == s.names
    &&& t.position == s.position
    &&& t.plan == s.plan
    &&& t.step == s.step
}

/// The request: the names given, or every unit of the project in order.
pub open spec fn requested(p: ProjectView, names: Option<Seq<Seq<char>>>) -> Seq<Seq<char>> {
    match names {
        Some(n) => n,
        None => p.units.map_values(|u: UnitView| u.name),
    }
}

impl BuildSession {
    /// Whether the session's indices agree with its phase.
    pub open spec fn well_formed(&self) -> bool {
        &&& self.position <= self.names@.len()
        &&& (self.phase is Listing || self.phase is Running) ==> {
            &&& self.position < self.names@.len()
            &&& unit_position(self.project@.units, self.names@[self.position as int]@) >= 0
        }
        &&& self.phase is Running ==> self.step < self.plan@.len()
    }

    /// A build of the units named in `unit_names`, or of every unit where
    /// none are named. Fails where that leaves no unit, then where the
    /// toolchain is not available, then where it cannot be driven.
    pub fn start(
        project: ProjectConfig,
        unit_names: Option<Vec<String>>,
        toolchain_available: bool,
        windows: bool,
    ) -> (r: Result<BuildSession, Error>)
        ensures
            ({
                let names = requested(project@, opt_texts(unit_names));
                match r {
                    Ok(s) => {
                        &&& names.len() > 0 && toolchain_available && is_gcc_family(project.compiler)
                        &&& s.well_formed()
                        &&& s.phase == Phase::Resolving
                        &&& s.position == 0
                        &&& s.names.deep_view() == names
                        &&& s.project == project
                        &&& s.windows == windows
                        &&& s.compiler.compiler == project.compiler
                        &&& s.compiler.language == project.language
                        &&& s.compiler.command.root_relative_path@ == project@.location
                        &&& s.compiler.command.executable_name@ == executable_text(project.compiler)
                        &&& gcc_flags(s.compiler.command.command_flags)
                        &&& s.compiler.command.include_paths.deep_view() == paths_or_none(
                            project@.global_include_paths,
                        )
                        &&& s.compiler.command.additional_args.deep_view() == words_or_none(
                            project@.global_args,
                        )
                    },
                    Err(e) => if names.len() == 0 {
                        e == Error::NoUnits
                    } else if !toolchain_available {
                        e == Error::CompilerUnavailable(e->CompilerUnavailable_0)
                            && e->CompilerUnavailable_0@ == compiler_text(project.compiler)
                    } else {
                        !is_gcc_family(project.compiler) && e == Error::UnsupportedCompiler(
                            e->UnsupportedCompiler_0,
                        ) && e->UnsupportedCompiler_0@ == compiler_text(project.compiler)
                    },
                }
            }),
    {
        let ghost given = opt_texts(unit_names);
        let names = match unit_names {
            Some(v) => v,
            None => project.get_unit_names(),
        };
        assert(names.deep_view() =~= requested(project@, given));
        if names.len() == 0 {
            return Err(Error::NoUnits);
        }
        if !toolchain_available {
            return Err(Error::CompilerUnavailable(String::from_str(project.compiler.as_str())));
        }
        let compiler = match Compiler::initialize(project.compiler, project.get_compiler_options()) {
            Ok(c) => c,
            Err(e) => {
                return Err(e);
            },
        };
        Ok(
            BuildSession {
                project,
                compiler,
                windows,
                names,
                position: 0,
                phase: Phase::Resolving,
                plan: Vec::new(),
                step: 0,
                outcome: Ok(()),
            },
        )
    }

    /// What to do next. Taking up a unit looks it up first: a name that is
    /// not in the project ends the build; after the last unit the build
    /// ends in success.
    pub fn next_action(&mut self) -> (r: Action)
        requires
            old(self).well_formed(),
        ensures
            final(self).well_formed(),
            ({
                let s = *old(self);
                let t = *final(self);
                match s.phase {
                    Phase::Finished => unchanged(s, t) && r == Action::Finish(s.outcome),
                    Phase::Resolving => if s.position == s.names@.len() {
                        ended(s, t, Ok(())) && r == Action::Finish(Ok(()))
                    } else if unit_position(s.project@.units, s.names@[s.position as int]@) < 0 {
                        ended(s, t, Err(Error::UnitNotFound(s.names@[s.position as int])))
                            && r == Action::Finish(t.outcome)
                    } else {
                        &&& t.phase == Phase::Listing
                        &&& t.project == s.project && t.compiler == s.compiler
                        &&& t.windows == s.windows && t.names == s.names
                        &&& t.position == s.position
                        &&& r matches Action::ListSources { directory, extensions }
                        &&& directory@ == source_directory(current_unit(s), s.project@)
                        &&& extensions.deep_view() == language_extensions(s.project.language)
                    },
                    Phase::Listing => {
                        &&& unchanged(s, t)
                        &&& r matches Action::ListSources { directory, extensions }
                        &&& directory@ == source_directory(current_unit(s), s.project@)
                        &&& extensions.deep_view() == language_extensions(s.project.language)
                    },
                    Phase::Running => {
                        &&& unchanged(s, t)
                        &&& r matches Action::Run(inv)
                        &&& inv@ == s.plan@[s.step as int]@
                    },
                }
            }),
    {
        match self.phase {
            Phase::Finished => Action::Finish(copy_outcome(&self.outcome)),
            Phase::Running => Action::Run(self.plan[self.step].duplicate()),
            Phase::Listing => self.list_action(),
            Phase::Resolving => {
                if self.position == self.names.len() {
                    self.phase = Phase::Finished;
                    self.outcome = Ok(());
                    return Action::Finish(Ok(()));
                }
                if self.project.find_unit(self.names[self.position].as_str()).is_none() {
                    let e = Error::UnitNotFound(self.names[self.position].clone());
                    self.phase = Phase::Finished;
                    self.outcome = Err(e.duplicate());
                    return Action::Finish(Err(e));
                }
                self.phase = Phase::Listing;
                self.list_action()
            },
        }
    }

    fn list_action(&self) -> (r: Action)
        requires
            self.well_formed(),
            self.phase is Listing,
        ensures
            ({
                &&& r matches Action::ListSources { directory, extensions }
                &&& directory@ == source_directory(current_unit(*self), self.project@)
                &&& extensions.deep_view() == language_extensions(self.project.language)
            }),
    {
        let extensions = self.project.language.extensions();
        let directory = match self.project.find_unit(self.names[self.position].as_str()) {
            Some(u) => join(self.project.project_location.as_str(), u.source.as_str()),
            None => String::new(),
        };
        Action::ListSources { directory, extensions }
    }

    /// Takes the files found in the current unit's source directory, or the
    /// message of the failure to list them. The unit then resolves to its
    /// target and the compiles and link that build it; a unit without
    /// sources of the project's language ends the build with
    /// `NoSourceFiles` before anything runs. Outside the listing phase this
    /// changes nothing.
    pub fn sources_listed(&mut self, listing: Result<Vec<String>, String>)
        requires
            old(self).well_formed(),
        ensures
            final(self).well_formed(),
            ({
                let s = *old(self);
                let t = *final(self);
                if !(s.phase is Listing) {
                    unchanged(s, t)
                } else {
                    match listing {
                        Err(msg) => ended(s, t, Err(Error::IoError(msg))),
                        Ok(files) => {
                            let u = current_unit(s);
                            let target = target_spec(u, s.project@, files.deep_view());
                            if target.source_files.len() == 0 {
                                &&& ended(s, t, t.outcome)
                                &&& t.outcome matches Err(Error::NoSourceFiles(n))
                                &&& n@ == u.name
                            } else if !(u.unit_type is Binary) {
                                &&& ended(s, t, t.outcome)
                                &&& t.outcome matches Err(Error::UnsupportedUnitType(n))
                                &&& n@ == unit_type_text(u.unit_type)
                            } else {
                                &&& t.phase == Phase::Running
                                &&& t.step == 0
                                &&& plan_view(t.plan@) == plan_spec(s.compiler, target, s.windows)
                                &&& t.project == s.project && t.compiler == s.compiler
                                &&& t.windows == s.windows && t.names == s.names
                                &&& t.position == s.position
                            }
                        },
                    }
                }
            }),
    {
        if self.phase != Phase::Listing {
            return;
        }
        let files = match listing {
            Err(msg) => {
                self.phase = Phase::Finished;
                self.outcome = Err(Error::IoError(msg));
                return;
            },
            Ok(files) => files,
        };
        let resolved = match self.project.find_unit(self.names[self.position].as_str()) {
            Some(u) => u.get_target_information(&self.project, &files),
            None => Err(Error::UnitNotFound(self.names[self.position].clone())),
        };
        match resolved {
            Err(e) => {
                self.phase = Phase::Finished;
                self.outcome = Err(e);
            },
            Ok(target) => {
                let plan = self.compiler.build(&target, self.windows);
                assert(plan_view(plan@) =~= plan_spec(self.compiler, target@, self.windows));
                self.plan = plan;
                self.step = 0;
                self.phase = Phase::Running;
            },
        }
    }

    /// Takes the outcome of the invocation at hand. Success moves on to the
    /// next invocation, or to the next unit after the link; any failure ends
    /// the build, a failed compile with `CompileError` and a failed link with
    /// `LinkError`, each carrying what the process printed. Outside the
    /// running phase this changes nothing.
    pub fn process_finished(&mut self, outcome: RunOutcome)
        requires
            old(self).well_formed(),
        ensures
            final(self).well_formed(),
            ({
                let s = *old(self);
                let t = *final(self);
                if !(s.phase is Running) {
                    unchanged(s, t)
                } else {
                    match outcome {
                        RunOutcome::Exited { success: true, output: _ } => {
                            &&& t.project == s.project && t.compiler == s.compiler
                            &&& t.windows == s.windows && t.names == s.names
                            &&& t.outcome == s.outcome
                            &&& if s.step + 1 < s.plan@.len() {
                                t.phase == Phase::Running && t.step == s.step + 1 && t.plan == s.plan
                                    && t.position == s.position
                            } else {
                                t.phase == Phase::Resolving && t.position == s.position + 1
                            }
                        },
                        RunOutcome::Exited { success: false, output } => if s.step + 1 < s.plan@.len() {
                            ended(
                                s,
                                t,
                                Err(Error::CompileError { unit: s.names@[s.position as int], output }),
                            )
                        } else {
                            ended(
                                s,
                                t,
                                Err(Error::LinkError { unit: s.names@[s.position as int], output }),
                            )
                        },
                        RunOutcome::PathMissing(p) => ended(s, t, Err(Error::PathNotFound(p))),
                        RunOutcome::Failed(msg) => ended(s, t, Err(Error::IoError(msg))),
                    }
                }
            }),
    {
        if self.phase != Phase::Running {
            return;
        }
        let steps = self.plan.len();
        let units = self.names.len();
        match outcome {
            RunOutcome::Exited { success, output } => {
                if success {
                    if self.step + 1 < steps {
                        self.step = self.step + 1;
                    } else {
                        assert(self.position < units);
                        self.position = self.position + 1;
                        self.phase = Phase::Resolving;
                    }
                } else {
                    let unit = self.names[self.position].clone();
                    self.outcome = if self.step + 1 < steps {
                        Err(Error::CompileError { unit, output })
                    } else {
                        Err(Error::LinkError { unit, output })
                    };
                    self.phase = Phase::Finished;
                }
            },
            RunOutcome::PathMissing(p) => {
                self.outcome = Err(Error::PathNotFound(p));
                self.phase = Phase::Finished;
            },
            RunOutcome::Failed(msg) => {
                self.outcome = Err(Error::IoError(msg));
                self.phase = Phase::Finished;
            },
        }
    }
}

} // verus!
