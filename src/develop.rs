//! The development install as a state machine.
//!
//! An install resolves the environment's interpreter, derives the build
//! context, opens the environment for writing, compiles for the bridge and
//! places the artifact. The machine decides each of these steps as an
//! [`Action`] for the caller to perform, and takes the result back as an
//! [`Event`]. It ends with [`Action::Finish`], which carries the outcome.

use vstd::prelude::*;
use crate::artifacts::{artifact_of, find_artifact};
use crate::config::{
    develop_options,
    BridgeModel,
    BridgeView,
    BuildContext,
    BuildOptions,
    ContextView,
    OptionsView,
};
use crate::error::{outcome_view, EnvironmentProblem, ErrorView, InstallError, ProblemView};
use crate::interpreter::{accept_interpreter, accepted, check_view, InterpreterView, ResolvedInterpreter};
use crate::target::{file_name_of, join, Target};

verus! {

/// Where an install stands, with what it has learned so far.
#[derive(Debug, PartialEq, Eq)]
pub enum Stage {
    /// Waiting for the check of the interpreter at `python`.
    Resolving { python: String, options: BuildOptions },
    /// Waiting for the build context.
    Configuring { interpreter: ResolvedInterpreter },
    /// Waiting for the environment to be opened for writing.
    Opening { interpreter: ResolvedInterpreter, context: BuildContext },
    /// Waiting for the compilation.
    Compiling { interpreter: ResolvedInterpreter, context: BuildContext },
    /// Waiting for the artifact to be placed at `destination`.
    Installing { destination: String },
    /// Finished; no event is awaited.
    Done,
}

/// One development install into the virtual environment at `venv_dir`.
#[derive(Debug, PartialEq, Eq)]
pub struct Develop {
    pub target: Target,
    pub venv_dir: String,
    pub stage: Stage,
}

/// The result of an action, as the caller reports it.
#[derive(Debug, PartialEq, Eq)]
pub enum Event {
    /// What the interpreter check found: an error, no interpreter, or one.
    InterpreterChecked(Result<Option<ResolvedInterpreter>, String>),
    /// The build context, or why it could not be derived.
    ContextDerived(Result<BuildContext, String>),
    /// Whether the environment could be opened for writing.
    WriterOpened(Result<(), String>),
    /// The artifacts of an executable build, as (kind, path) pairs.
    BinaryCompiled(Result<Vec<(String, String)>, String>),
    /// The path of the shared library built.
    LibraryCompiled(Result<String, String>),
    /// Whether the artifact was placed.
    Installed(Result<(), String>),
}

/// A step for the caller to perform.
#[derive(Debug, PartialEq, Eq)]
pub enum Action {
    /// Check that `python` is an interpreter inside a virtual environment.
    CheckInterpreter { python: String },
    /// Derive the build context from `options`.
    DeriveContext { options: BuildOptions },
    /// Open the environment at `venv_dir` for writing.
    OpenWriter { target: Target, venv_dir: String },
    /// Compile the project's executable, with no interpreter.
    CompileBinary,
    /// Compile the project's shared library, for `interpreter` if one is given.
    CompileLibrary { interpreter: Option<ResolvedInterpreter> },
    /// Copy the executable at `from` to `to`.
    CopyBinary { from: String, to: String },
    /// Generate the wrapper module `module_name` that loads `artifact`.
    WriteCffiModule { module_name: String, artifact: String, target: Target },
    /// Install `artifact` as the extension module `module_name` for
    /// `interpreter`.
    WriteBindingsModule {
        module_name: String,
        artifact: String,
        interpreter: ResolvedInterpreter,
    },
    /// Stop, with this outcome.
    Finish { outcome: Result<(), InstallError> },
}

/// The model of a [`Stage`].
pub enum StageView {
    Resolving { python: Seq<char>, options: OptionsView },
    Configuring { interpreter: InterpreterView },
    Opening { interpreter: InterpreterView, context: ContextView },
    Compiling { interpreter: InterpreterView, context: ContextView },
    Installing { destination: Seq<char> },
    Done,
}

/// The model of a [`Develop`].
pub struct DevelopView {
    pub target: Target,
    pub venv_dir: Seq<char>,
    pub stage: StageView,
}

/// The model of an [`Event`].
pub enum EventView {
    InterpreterChecked(Result<Option<InterpreterView>, Seq<char>>),
    ContextDerived(Result<ContextView, Seq<char>>),
    WriterOpened(Result<(), Seq<char>>),
    BinaryCompiled(Result<Seq<(Seq<char>, Seq<char>)>, Seq<char>>),
    LibraryCompiled(Result<Seq<char>, Seq<char>>),
    Installed(Result<(), Seq<char>>),
}

/// The model of an [`Action`].
pub enum ActionView {
    CheckInterpreter { python: Seq<char> },
    DeriveContext { options: OptionsView },
    OpenWriter { target: Target, venv_dir: Seq<char> },
    CompileBinary,
    CompileLibrary { interpreter: Option<InterpreterView> },
    CopyBinary { from: Seq<char>, to: Seq<char> },
    WriteCffiModule { module_name: Seq<char>, artifact: Seq<char>, target: Target },
    WriteBindingsModule { module_name: Seq<char>, artifact: Seq<char>, interpreter: InterpreterView },
    Finish { outcome: Result<(), ErrorView> },
}

/// The model of a step's result that carries nothing on success.
pub open spec fn done_view(r: Result<(), String>) -> Result<(), Seq<char>> {
    match r {
        Ok(()) => Ok(()),
        Err(cause) => Err(cause@),
    }
}

impl View for Stage {
    type V = StageView;

    open spec fn view(&self) -> StageView {
        match self {
            Stage::Resolving { python, options } => StageView::Resolving {
                python: python@,
                options: options@,
            },
            Stage::Configuring { interpreter } => StageView::Configuring {
                interpreter: interpreter@,
            },
            Stage::Opening { interpreter, context } => StageView::Opening {
                interpreter: interpreter@,
                context: context@,
            },
            Stage::Compiling { interpreter, context } => StageView::Compiling {
                interpreter: interpreter@,
                context: context@,
            },
            Stage::Installing { destination } => StageView::Installing {
                destination: destination@,
            },
            Stage::Done => StageView::Done,
        }
    }
}

impl View for Develop {
    type V = DevelopView;

    open spec fn view(&self) -> DevelopView {
        DevelopView { target: self.target, venv_dir: self.venv_dir@, stage: self.stage@ }
    }
}

impl View for Event {
    type V = EventView;

    open spec fn view(&self) -> EventView {
        match self {
            Event::InterpreterChecked(checked) => EventView::InterpreterChecked(check_view(*checked)),
            Event::ContextDerived(derived) => EventView::ContextDerived(
                match derived {
                    Ok(context) => Ok(context@),
                    Err(cause) => Err(cause@),
                },
            ),
            Event::WriterOpened(opened) => EventView::WriterOpened(done_view(*opened)),
            Event::BinaryCompiled(compiled) => EventView::BinaryCompiled(
                match compiled {
                    Ok(artifacts) => Ok(artifacts.deep_view()),
                    Err(cause) => Err(cause@),
                },
            ),
            Event::LibraryCompiled(compiled) => EventView::LibraryCompiled(
                match compiled {
                    Ok(artifact) => Ok(artifact@),
                    Err(cause) => Err(cause@),
                },
            ),
            Event::Installed(installed) => EventView::Installed(done_view(*installed)),
        }
    }
}

impl View for Action {
    type V = ActionView;

    open spec fn view(&self) -> ActionView {
        match self {
            Action::CheckInterpreter { python } => ActionView::CheckInterpreter { python: python@ },
            Action::DeriveContext { options } => ActionView::DeriveContext { options: options@ },
            Action::OpenWriter { target, venv_dir } => ActionView::OpenWriter {
                target: *target,
                venv_dir: venv_dir@,
            },
            Action::CompileBinary => ActionView::CompileBinary,
            Action::CompileLibrary { interpreter } => ActionView::CompileLibrary {
                interpreter: match interpreter {
                    Some(i) => Some(i@),
                    None => None,
                },
            },
            Action::CopyBinary { from, to } => ActionView::CopyBinary { from: from@, to: to@ },
            Action::WriteCffiModule { module_name, artifact, target } => ActionView::WriteCffiModule {
                module_name: module_name@,
                artifact: artifact@,
                target: *target,
            },
            Action::WriteBindingsModule {
                module_name,
                artifact,
                interpreter,
            } => ActionView::WriteBindingsModule {
                module_name: module_name@,
                artifact: artifact@,
                interpreter: interpreter@,
            },
            Action::Finish { outcome } => ActionView::Finish { outcome: outcome_view(*outcome) },
        }
    }
}

/// The compilation a bridge asks for: an executable for `Bin`; a shared
/// library for the others, tied to the interpreter only for `Bindings`.
pub open spec fn compile_action(bridge: BridgeView, interpreter: InterpreterView) -> ActionView {
    match bridge {
        BridgeView::Bin => ActionView::CompileBinary,
        BridgeView::Cffi => ActionView::CompileLibrary { interpreter: None },
        BridgeView::Bindings { .. } => ActionView::CompileLibrary { interpreter: Some(interpreter) },
    }
}

/// Where the executable at `artifact` goes in the environment at `venv_dir`:
/// its executable directory, under the artifact's own file name.
pub open spec fn binary_destination(target: Target, venv_dir: Seq<char>, artifact: Seq<char>) -> Option<
    Seq<char>,
> {
    match file_name_of(target.os, artifact) {
        Some(name) => Some(join(target.os, target.venv_bin_dir_of(venv_dir), name)),
        None => None,
    }
}

/// The action that installs the shared library at `artifact` for a library
/// bridge.
pub open spec fn library_action(
    target: Target,
    interpreter: InterpreterView,
    context: ContextView,
    artifact: Seq<char>,
) -> ActionView {
    match context.bridge {
        BridgeView::Bindings { .. } => ActionView::WriteBindingsModule {
            module_name: context.module_name,
            artifact,
            interpreter,
        },
        _ => ActionView::WriteCffiModule { module_name: context.module_name, artifact, target },
    }
}

/// A fresh install into the environment at `venv_dir`: it first asks for
/// the check of the environment's interpreter.
pub open spec fn start_of(target: Target, venv_dir: Seq<char>, options: OptionsView) -> (
    DevelopView,
    ActionView,
) {
    let python = target.venv_python_of(venv_dir);
    (
        DevelopView { target, venv_dir, stage: StageView::Resolving { python, options } },
        ActionView::CheckInterpreter { python },
    )
}

impl DevelopView {
    /// This install, moved on to `stage`.
    pub open spec fn at(self, stage: StageView) -> DevelopView {
        DevelopView { stage, ..self }
    }

    /// This install, stopped with `outcome`.
    pub open spec fn finish(self, outcome: Result<(), ErrorView>) -> (DevelopView, ActionView) {
        (self.at(StageView::Done), ActionView::Finish { outcome })
    }

    /// Whether `event` is the result this install waits for.
    pub open spec fn awaits(self, event: EventView) -> bool {
        match (self.stage, event) {
            (StageView::Resolving { .. }, EventView::InterpreterChecked(_)) => true,
            (StageView::Configuring { .. }, EventView::ContextDerived(_)) => true,
            (StageView::Opening { .. }, EventView::WriterOpened(_)) => true,
            (StageView::Compiling { context, .. }, EventView::BinaryCompiled(_)) => context.bridge is Bin,
            (StageView::Compiling { context, .. }, EventView::LibraryCompiled(_)) => !(context.bridge is Bin),
            (StageView::Installing { .. }, EventView::Installed(_)) => true,
            _ => false,
        }
    }

    /// The actions this install asks for when handed `events` in turn; it
    /// stops at the first event it does not wait for.
    pub open spec fn run(self, events: Seq<EventView>) -> Seq<ActionView>
        decreases events.len(),
    {
        if events.len() == 0 || !self.awaits(events[0]) {
            seq![]
        } else {
            let (after, action) = self.next(events[0]);
            seq![action] + after.run(events.drop_first())
        }
    }

    /// The install after `event`, and the action it asks for next.
    pub open spec fn next(self, event: EventView) -> (DevelopView, ActionView)
        recommends
            self.awaits(event),
    {
        match (self.stage, event) {
            (StageView::Resolving { python, options }, EventView::InterpreterChecked(checked)) => {
                match accepted(python, checked) {
                    Ok(interpreter) => (
                        self.at(StageView::Configuring { interpreter }),
                        ActionView::DeriveContext { options },
                    ),
                    Err(e) => self.finish(Err(e)),
                }
            },
            (StageView::Configuring { interpreter }, EventView::ContextDerived(derived)) => {
                match derived {
                    Ok(context) => (
                        self.at(StageView::Opening { interpreter, context }),
                        ActionView::OpenWriter { target: self.target, venv_dir: self.venv_dir },
                    ),
                    Err(cause) => self.finish(Err(ErrorView::InvalidConfiguration { cause })),
                }
            },
            (StageView::Opening { interpreter, context }, EventView::WriterOpened(opened)) => {
                match opened {
                    Ok(()) => (
                        self.at(StageView::Compiling { interpreter, context }),
                        compile_action(context.bridge, interpreter),
                    ),
                    Err(cause) => self.finish(
                        Err(
                            ErrorView::InvalidEnvironment {
                                path: self.venv_dir,
                                problem: ProblemView::BadLayout { cause },
                            },
                        ),
                    ),
                }
            },
            (StageView::Compiling { .. }, EventView::BinaryCompiled(compiled)) => {
                match compiled {
                    Err(cause) => self.finish(Err(ErrorView::ToolchainFailure { cause })),
                    Ok(artifacts) => match artifact_of(artifacts, "bin"@) {
                        Some(from) => match binary_destination(self.target, self.venv_dir, from) {
                            Some(to) => (
                                self.at(StageView::Installing { destination: to }),
                                ActionView::CopyBinary { from, to },
                            ),
                            None => self.finish(Err(ErrorView::BuildIncomplete { kind: "bin"@ })),
                        },
                        None => self.finish(Err(ErrorView::BuildIncomplete { kind: "bin"@ })),
                    },
                }
            },
            (StageView::Compiling { interpreter, context }, EventView::LibraryCompiled(compiled)) => {
                match compiled {
                    Err(cause) => self.finish(Err(ErrorView::ToolchainFailure { cause })),
                    Ok(artifact) => (
                        self.at(StageView::Installing { destination: context.module_name }),
                        library_action(self.target, interpreter, context, artifact),
                    ),
                }
            },
            (StageView::Installing { destination }, EventView::Installed(installed)) => {
                match installed {
                    Ok(()) => self.finish(Ok(())),
                    Err(cause) => self.finish(
                        Err(ErrorView::InstallationFailed { destination, cause }),
                    ),
                }
            },
            _ => arbitrary(),
        }
    }
}

/// The install in `venv_dir`, stopped with `outcome`.
fn finish(target: Target, venv_dir: String, outcome: Result<(), InstallError>) -> (r: (Develop, Action))
    ensures
        (r.0@, r.1@) == (DevelopView { target, venv_dir: venv_dir@, stage: StageView::Done }).finish(
            outcome_view(outcome),
        ),
{
    (Develop { target, venv_dir, stage: Stage::Done }, Action::Finish { outcome })
}

impl Develop {
    /// Starts a development install into the virtual environment at
    /// `venv_dir` of the project at `manifest_file`, and returns the first
    /// action: the check of the environment's interpreter.
    pub fn start(
        target: Target,
        venv_dir: String,
        bindings: Option<String>,
        manifest_file: String,
        cargo_extra_args: Vec<String>,
        rustc_extra_args: Vec<String>,
        release: bool,
    ) -> (r: (Develop, Action))
        ensures
            (r.0@, r.1@) == start_of(
                target,
                venv_dir@,
                develop_options(
                    bindings.deep_view(),
                    manifest_file@,
                    cargo_extra_args.deep_view(),
                    rustc_extra_args.deep_view(),
                    release,
                ),
            ),
    {
        let python = target.venv_python(venv_dir.as_str());
        let options = BuildOptions::for_develop(
            bindings,
            manifest_file,
            cargo_extra_args,
            rustc_extra_args,
            release,
        );
        let check = Action::CheckInterpreter { python: python.clone() };
        (Develop { target, venv_dir, stage: Stage::Resolving { python, options } }, check)
    }

    /// Whether `event` is the result this install waits for.
    pub fn awaits(&self, event: &Event) -> (r: bool)
        ensures
            r == self@.awaits(event@),
    {
        match (&self.stage, event) {
            (Stage::Resolving { .. }, Event::InterpreterChecked(_)) => true,
            (Stage::Configuring { .. }, Event::ContextDerived(_)) => true,
            (Stage::Opening { .. }, Event::WriterOpened(_)) => true,
            (Stage::Compiling { context, .. }, Event::BinaryCompiled(_)) => {
                matches!(context.bridge, BridgeModel::Bin)
            },
            (Stage::Compiling { context, .. }, Event::LibraryCompiled(_)) => {
                !matches!(context.bridge, BridgeModel::Bin)
            },
            (Stage::Installing { .. }, Event::Installed(_)) => true,
            _ => false,
        }
    }

    /// Takes the result of the last action and returns the install after it,
    /// with the next action.
    pub fn step(self, event: Event) -> (r: (Develop, Action))
        requires
            self@.awaits(event@),
        ensures
            (r.0@, r.1@) == self@.next(event@),
    {
        let Develop { target, venv_dir, stage } = self;
        match (stage, event) {
            (Stage::Resolving { python, options }, Event::InterpreterChecked(checked)) => {
                match accept_interpreter(&python, checked) {
                    Ok(interpreter) => (
                        Develop { target, venv_dir, stage: Stage::Configuring { interpreter } },
                        Action::DeriveContext { options },
                    ),
                    Err(e) => finish(target, venv_dir, Err(e)),
                }
            },
            (Stage::Configuring { interpreter }, Event::ContextDerived(derived)) => {
                match derived {
                    Ok(context) => {
                        let open = Action::OpenWriter { target, venv_dir: venv_dir.clone() };
                        (
                            Develop {
                                target,
                                venv_dir,
                                stage: Stage::Opening { interpreter, context },
                            },
                            open,
                        )
                    },
                    Err(cause) => finish(
                        target,
                        venv_dir,
                        Err(InstallError::InvalidConfiguration { cause }),
                    ),
                }
            },
            (Stage::Opening { interpreter, context }, Event::WriterOpened(opened)) => {
                match opened {
                    Ok(()) => {
                        let compile = match context.bridge {
                            BridgeModel::Bin => Action::CompileBinary,
                            BridgeModel::Cffi => Action::CompileLibrary { interpreter: None },
                            BridgeModel::Bindings { .. } => Action::CompileLibrary {
                                interpreter: Some(interpreter.clone()),
                            },
                        };
                        (
                            Develop {
                                target,
                                venv_dir,
                                stage: Stage::Compiling { interpreter, context },
                            },
                            compile,
                        )
                    },
                    Err(cause) => {
                        let path = venv_dir.clone();
                        finish(
                            target,
                            venv_dir,
                            Err(
                                InstallError::InvalidEnvironment {
                                    path,
                                    problem: EnvironmentProblem::BadLayout { cause },
                                },
                            ),
                        )
                    },
                }
            },
            (Stage::Compiling { .. }, Event::BinaryCompiled(compiled)) => {
                match compiled {
                    Err(cause) => finish(target, venv_dir, Err(InstallError::ToolchainFailure { cause })),
                    Ok(artifacts) => {
                        let kind = String::from_str("bin");
                        match find_artifact(&artifacts, &kind) {
                            Some(from) => match target.file_name(from.as_str()) {
                                Some(name) => {
                                    let dir = target.venv_bin_dir(venv_dir.as_str());
                                    let to = target.join(dir.as_str(), name.as_str());
                                    let destination = to.clone();
                                    (
                                        Develop {
                                            target,
                                            venv_dir,
                                            stage: Stage::Installing { destination },
                                        },
                                        Action::CopyBinary { from, to },
                                    )
                                },
                                None => finish(
                                    target,
                                    venv_dir,
                                    Err(InstallError::BuildIncomplete { kind }),
                                ),
                            },
                            None => finish(target, venv_dir, Err(InstallError::BuildIncomplete { kind })),
                        }
                    },
                }
            },
            (Stage::Compiling { interpreter, context }, Event::LibraryCompiled(compiled)) => {
                match compiled {
                    Err(cause) => finish(target, venv_dir, Err(InstallError::ToolchainFailure { cause })),
                    Ok(artifact) => {
                        let destination = context.module_name.clone();
                        let module_name = context.module_name;
                        let install = match context.bridge {
                            BridgeModel::Bindings { .. } => Action::WriteBindingsModule {
                                module_name,
                                artifact,
                                interpreter,
                            },
                            _ => Action::WriteCffiModule { module_name, artifact, target },
                        };
                        (
                            Develop { target, venv_dir, stage: Stage::Installing { destination } },
                            install,
                        )
                    },
                }
            },
            (Stage::Installing { destination }, Event::Installed(installed)) => {
                match installed {
                    Ok(()) => finish(target, venv_dir, Ok(())),
                    Err(cause) => finish(
                        target,
                        venv_dir,
                        Err(InstallError::InstallationFailed { destination, cause }),
                    ),
                }
            },
            _ => (Develop { target, venv_dir, stage: Stage::Done }, Action::CompileBinary),
        }
    }
}

} // verus!
