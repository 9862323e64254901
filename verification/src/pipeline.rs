//! The build pipeline as a state machine.
//!
//! The pipeline decides; the caller acts. Each call of [`Pipeline::next`]
//! takes the outcome of the previous external step as an event and returns
//! the next action: create a directory, run the generator, check which
//! sources exist, resolve the toolchain, run the compiler, or stop. The
//! stages run in a fixed order — generation must succeed before any compiler
//! work begins — and the first failure moves the machine to a terminal failed
//! state from which every further event is ignored.

use vstd::prelude::*;
use crate::command::{spec_command_args, command_args, Platform, ScannerSource};
use crate::errors::{BuildError, ErrorModel};
use crate::request::{BuildRequest, ReqModel};
use crate::sources::{resolve_scanner, spec_resolve_scanner, ScannerDialect};
use crate::toolchain::{Toolchain, ToolchainModel};

verus! {

/// The mathematical value of a pipeline state.
pub enum StateModel {
    Init,
    CreatingArtifactDir,
    Generating,
    CreatingDestDir,
    ResolvingSources,
    ResolvingToolchain { scanner_c: bool, scanner_cpp: bool },
    Compiling,
    Done,
    Failed { error: ErrorModel },
}

/// The mathematical value of an event.
pub enum EventModel {
    Start,
    DirCreated,
    DirFailed { message: Seq<char> },
    GeneratorExited { success: bool, stderr: Seq<char> },
    GeneratorSpawnFailed { message: Seq<char> },
    SourcesChecked { parser_exists: bool, scanner_c_exists: bool, scanner_cpp_exists: bool },
    ToolchainResolved { toolchain: ToolchainModel },
    ToolchainFailed { error: ErrorModel },
    CompilerExited { success: bool, stdout: Seq<char>, stderr: Seq<char> },
    CompilerSpawnFailed { message: Seq<char> },
}

/// The mathematical value of an action.
pub enum ActionModel {
    CreateDir { path: Seq<char> },
    RunGenerator {
        program: Seq<char>,
        subcommand: Seq<char>,
        grammar_js: Seq<char>,
        working_dir: Seq<char>,
    },
    CheckSources { parser: Seq<char>, scanner_c: Seq<char>, scanner_cpp: Seq<char> },
    ResolveToolchain { target: Seq<char> },
    RunCompiler { program: Seq<char>, env: Seq<(Seq<char>, Seq<char>)>, args: Seq<Seq<char>> },
    Succeed,
    Fail,
}

/// Where the pipeline stands between two external steps.
#[derive(Debug)]
pub enum PipelineState {
    /// Nothing has happened yet.
    Init,
    /// The artifact directory is being created.
    CreatingArtifactDir,
    /// The external generator is running.
    Generating,
    /// The destination directory for the library is being created.
    CreatingDestDir,
    /// The generated sources are being checked for existence.
    ResolvingSources,
    /// The native compiler is being resolved; remembers which scanner
    /// sources exist.
    ResolvingToolchain { scanner_c: bool, scanner_cpp: bool },
    /// The native compiler is running.
    Compiling,
    /// The library was built; terminal.
    Done,
    /// The run aborted; terminal.
    Failed { error: BuildError },
}

impl View for PipelineState {
    type V = StateModel;

    open spec fn view(&self) -> StateModel {
        match self {
            PipelineState::Init => StateModel::Init,
            PipelineState::CreatingArtifactDir => StateModel::CreatingArtifactDir,
            PipelineState::Generating => StateModel::Generating,
            PipelineState::CreatingDestDir => StateModel::CreatingDestDir,
            PipelineState::ResolvingSources => StateModel::ResolvingSources,
            PipelineState::ResolvingToolchain { scanner_c, scanner_cpp } => {
                StateModel::ResolvingToolchain {
                    scanner_c: *scanner_c,
                    scanner_cpp: *scanner_cpp,
                }
            },
            PipelineState::Compiling => StateModel::Compiling,
            PipelineState::Done => StateModel::Done,
            PipelineState::Failed { error } => StateModel::Failed { error: error@ },
        }
    }
}

/// The outcome of one external step, reported back to the pipeline.
#[derive(Debug)]
pub enum Event {
    /// Begin the run.
    Start,
    /// The requested directory now exists.
    DirCreated,
    /// The requested directory could not be created.
    DirFailed { message: String },
    /// The generator ran; its exit status and captured standard error.
    GeneratorExited { success: bool, stderr: String },
    /// The generator could not be spawned.
    GeneratorSpawnFailed { message: String },
    /// Which of the requested source files exist.
    SourcesChecked { parser_exists: bool, scanner_c_exists: bool, scanner_cpp_exists: bool },
    /// A native compiler was resolved for the target triple.
    ToolchainResolved { toolchain: Toolchain },
    /// No native compiler could be resolved.
    ToolchainFailed { error: BuildError },
    /// The compiler ran; its exit status and both captured streams.
    CompilerExited { success: bool, stdout: String, stderr: String },
    /// The compiler could not be spawned.
    CompilerSpawnFailed { message: String },
}

impl View for Event {
    type V = EventModel;

    open spec fn view(&self) -> EventModel {
        match self {
            Event::Start => EventModel::Start,
            Event::DirCreated => EventModel::DirCreated,
            Event::DirFailed { message } => EventModel::DirFailed { message: message@ },
            Event::GeneratorExited { success, stderr } => EventModel::GeneratorExited {
                success: *success,
                stderr: stderr@,
            },
            Event::GeneratorSpawnFailed { message } => EventModel::GeneratorSpawnFailed {
                message: message@,
            },
            Event::SourcesChecked { parser_exists, scanner_c_exists, scanner_cpp_exists } => {
                EventModel::SourcesChecked {
                    parser_exists: *parser_exists,
                    scanner_c_exists: *scanner_c_exists,
                    scanner_cpp_exists: *scanner_cpp_exists,
                }
            },
            Event::ToolchainResolved { toolchain } => EventModel::ToolchainResolved {
                toolchain: toolchain@,
            },
            Event::ToolchainFailed { error } => EventModel::ToolchainFailed { error: error@ },
            Event::CompilerExited { success, stdout, stderr } => EventModel::CompilerExited {
                success: *success,
                stdout: stdout@,
                stderr: stderr@,
            },
            Event::CompilerSpawnFailed { message } => EventModel::CompilerSpawnFailed {
                message: message@,
            },
        }
    }
}

/// What the caller must do next on the pipeline's behalf.
#[derive(Debug)]
pub enum Action {
    /// Create the directory (and its parents) if it does not exist yet.
    CreateDir { path: String },
    /// Run the external generator on the grammar definition, with the given
    /// working directory, and capture its output.
    RunGenerator { program: String, subcommand: String, grammar_js: String, working_dir: String },
    /// Report which of these source files exist as regular files.
    CheckSources { parser: String, scanner_c: String, scanner_cpp: String },
    /// Resolve a native compiler for the target triple.
    ResolveToolchain { target: String },
    /// Run the compiler with these environment variables and arguments and
    /// capture its output.
    RunCompiler { program: String, env: Vec<(String, String)>, args: Vec<String> },
    /// The library was built; the run is over.
    Succeed,
    /// No further work: the run has aborted — the error stands in the
    /// pipeline's state — or the event did not belong to the current state
    /// and was ignored.
    Fail,
}

impl View for Action {
    type V = ActionModel;

    open spec fn view(&self) -> ActionModel {
        match self {
            Action::CreateDir { path } => ActionModel::CreateDir { path: path@ },
            Action::RunGenerator { program, subcommand, grammar_js, working_dir } => {
                ActionModel::RunGenerator {
                    program: program@,
                    subcommand: subcommand@,
                    grammar_js: grammar_js@,
                    working_dir: working_dir@,
                }
            },
            Action::CheckSources { parser, scanner_c, scanner_cpp } => ActionModel::CheckSources {
                parser: parser@,
                scanner_c: scanner_c@,
                scanner_cpp: scanner_cpp@,
            },
            Action::ResolveToolchain { target } => ActionModel::ResolveToolchain {
                target: target@,
            },
            Action::RunCompiler { program, env, args } => ActionModel::RunCompiler {
                program: program@,
                env: env.deep_view(),
                args: args.deep_view(),
            },
            Action::Succeed => ActionModel::Succeed,
            Action::Fail => ActionModel::Fail,
        }
    }
}

/// The scanner source the invocation compiles, given which scanner files
/// exist: the resolved dialect paired with the path of its file.
pub open spec fn spec_scanner_choice(req: ReqModel, c_exists: bool, cpp_exists: bool) -> Option<
    (ScannerDialect, Seq<char>),
> {
    match spec_resolve_scanner(c_exists, cpp_exists) {
        Some(ScannerDialect::C) => Some((ScannerDialect::C, req.scanner_c_path())),
        Some(ScannerDialect::Cpp) => Some((ScannerDialect::Cpp, req.scanner_cpp_path())),
        None => None,
    }
}

/// The transition function of the pipeline: from the current state and the
/// event that arrived, the next state and the action the caller must take.
/// An event that does not belong to the current state changes nothing and
/// asks for nothing; in particular the two terminal states ignore every
/// event.
pub open spec fn spec_step(req: ReqModel, s: StateModel, e: EventModel) -> (StateModel, ActionModel) {
    match (s, e) {
        (StateModel::Init, EventModel::Start) => (
            StateModel::CreatingArtifactDir,
            ActionModel::CreateDir { path: req.artifact_path },
        ),
        (StateModel::CreatingArtifactDir, EventModel::DirCreated) => (
            StateModel::Generating,
            ActionModel::RunGenerator {
                program: "tree-sitter"@,
                subcommand: "generate"@,
                grammar_js: req.grammar_js(),
                working_dir: req.artifact_path,
            },
        ),
        (StateModel::CreatingArtifactDir, EventModel::DirFailed { message }) => (
            StateModel::Failed { error: ErrorModel::Io { message } },
            ActionModel::Fail,
        ),
        (StateModel::Generating, EventModel::GeneratorExited { success, stderr }) => if success {
            (StateModel::CreatingDestDir, ActionModel::CreateDir { path: req.dest_dir() })
        } else {
            (StateModel::Failed { error: ErrorModel::Generation { stderr } }, ActionModel::Fail)
        },
        (StateModel::Generating, EventModel::GeneratorSpawnFailed { message }) => (
            StateModel::Failed { error: ErrorModel::GeneratorSpawn { message } },
            ActionModel::Fail,
        ),
        (StateModel::CreatingDestDir, EventModel::DirCreated) => (
            StateModel::ResolvingSources,
            ActionModel::CheckSources {
                parser: req.parser_path(),
                scanner_c: req.scanner_c_path(),
                scanner_cpp: req.scanner_cpp_path(),
            },
        ),
        (StateModel::CreatingDestDir, EventModel::DirFailed { message }) => (
            StateModel::Failed { error: ErrorModel::Io { message } },
            ActionModel::Fail,
        ),
        (
            StateModel::ResolvingSources,
            EventModel::SourcesChecked { parser_exists, scanner_c_exists, scanner_cpp_exists },
        ) => if parser_exists {
            (
                StateModel::ResolvingToolchain {
                    scanner_c: scanner_c_exists,
                    scanner_cpp: scanner_cpp_exists,
                },
                ActionModel::ResolveToolchain { target: req.target },
            )
        } else {
            (
                StateModel::Failed { error: ErrorModel::MissingSource { path: req.parser_path() } },
                ActionModel::Fail,
            )
        },
        (
            StateModel::ResolvingToolchain { scanner_c, scanner_cpp },
            EventModel::ToolchainResolved { toolchain },
        ) => (
            StateModel::Compiling,
            ActionModel::RunCompiler {
                program: toolchain.path,
                env: toolchain.env,
                args: spec_command_args(
                    req.platform,
                    req.src_dir(),
                    req.lib_path(),
                    req.parser_path(),
                    spec_scanner_choice(req, scanner_c, scanner_cpp),
                ),
            },
        ),
        (StateModel::ResolvingToolchain { .. }, EventModel::ToolchainFailed { error }) => (
            StateModel::Failed { error },
            ActionModel::Fail,
        ),
        (StateModel::Compiling, EventModel::CompilerExited { success, stdout, stderr }) => if success {
            (StateModel::Done, ActionModel::Succeed)
        } else {
            (
                StateModel::Failed { error: ErrorModel::Compilation { stdout, stderr } },
                ActionModel::Fail,
            )
        },
        (StateModel::Compiling, EventModel::CompilerSpawnFailed { message }) => (
            StateModel::Failed { error: ErrorModel::CompilerSpawn { message } },
            ActionModel::Fail,
        ),
        _ => (s, ActionModel::Fail),
    }
}

/// The actions a run issues: starting in state `s`, feed the events in order
/// and collect each step's action.
pub open spec fn spec_run(req: ReqModel, s: StateModel, events: Seq<EventModel>) -> Seq<ActionModel>
    decreases events.len(),
{
    if events.len() == 0 {
        Seq::empty()
    } else {
        seq![spec_step(req, s, events[0]).1] + spec_run(
            req,
            spec_step(req, s, events[0]).0,
            events.drop_first(),
        )
    }
}

/// A run issues exactly one action per event.
pub proof fn lemma_run_len(req: ReqModel, s: StateModel, events: Seq<EventModel>)
    ensures
        spec_run(req, s, events).len() == events.len(),
    decreases events.len(),
{
    if events.len() > 0 {
        lemma_run_len(req, spec_step(req, s, events[0]).0, events.drop_first());
    }
}

/// A compiler invocation is issued only when a toolchain answer arrives in
/// the toolchain-resolution stage: no other state and no other event produce
/// one.
pub proof fn lemma_compile_only_after_toolchain(req: ReqModel, s: StateModel, e: EventModel)
    ensures
        spec_step(req, s, e).1 is RunCompiler ==> s is ResolvingToolchain
            && e is ToolchainResolved,
{
}

/// Both terminal states ignore every event: the state stays and no work is
/// asked for.
pub proof fn lemma_terminal_states_stay(req: ReqModel, s: StateModel, e: EventModel)
    ensures
        s is Failed || s is Done ==> spec_step(req, s, e) == (s, ActionModel::Fail),
{
}

/// From a failed state, a run never invokes the compiler, whatever events
/// still arrive.
pub proof fn lemma_failed_never_compiles(req: ReqModel, error: ErrorModel, events: Seq<EventModel>)
    ensures
        forall|i: int|
            0 <= i < spec_run(req, StateModel::Failed { error }, events).len() ==> !(spec_run(
                req,
                StateModel::Failed { error },
                events,
            )[i] is RunCompiler),
    decreases events.len(),
{
    let s = StateModel::Failed { error };
    if events.len() > 0 {
        assert(spec_step(req, s, events[0]).0 == s);
        lemma_failed_never_compiles(req, error, events.drop_first());
        lemma_run_len(req, s, events);
        assert forall|i: int| 0 <= i < spec_run(req, s, events).len() implies !(spec_run(
            req,
            s,
            events,
        )[i] is RunCompiler) by {
            if i > 0 {
                assert(spec_run(req, s, events)[i] == spec_run(req, s, events.drop_first())[i - 1]);
            }
        }
    }
}

/// With a parser source and no scanner file, the invocation the pipeline
/// constructs holds the parser source exactly once and holds neither scanner
/// candidate, on either platform convention.
pub proof fn lemma_pipeline_invocation_no_scanner(req: ReqModel, toolchain: ToolchainModel)
    ensures
        ({
            let step = spec_step(
                req,
                StateModel::ResolvingToolchain { scanner_c: false, scanner_cpp: false },
                EventModel::ToolchainResolved { toolchain },
            );
            let args = step.1->RunCompiler_args;
            &&& step.1 is RunCompiler
            &&& exists|k: int|
                0 <= k < args.len() && args[k] == req.parser_path() && (forall|i: int|
                    0 <= i < args.len() && i != k ==> args[i] != req.parser_path())
            &&& forall|i: int|
                0 <= i < args.len() ==> args[i] != req.scanner_c_path() && args[i]
                    != req.scanner_cpp_path()
        }),
{
    let step = spec_step(
        req,
        StateModel::ResolvingToolchain { scanner_c: false, scanner_cpp: false },
        EventModel::ToolchainResolved { toolchain },
    );
    let args = step.1->RunCompiler_args;
    match req.platform {
        Platform::Posix => {
            crate::command::lemma_posix_invocation_no_scanner(req);
            assert(args == crate::command::spec_posix_args(
                req.src_dir(),
                req.lib_path(),
                req.parser_path(),
                None,
            ));
            assert(0 <= 10 < args.len() && args[10] == req.parser_path() && (forall|i: int|
                0 <= i < args.len() && i != 10 ==> args[i] != req.parser_path()));
        },
        Platform::Windows => {
            crate::command::lemma_windows_invocation_no_scanner(req);
            assert(args == crate::command::spec_windows_args(
                req.src_dir(),
                req.lib_path(),
                req.parser_path(),
                None,
            ));
            assert(0 <= 5 < args.len() && args[5] == req.parser_path() && (forall|i: int|
                0 <= i < args.len() && i != 5 ==> args[i] != req.parser_path()));
        },
    }
}

/// Ordering law: when the generator exits non-zero, the pipeline aborts at
/// once. The step moves the machine to the failed state carrying the
/// generator's standard error, asks for no work, and no compiler invocation
/// is issued by that step or by any later one, whatever events still arrive.
pub proof fn lemma_generator_failure_aborts(req: ReqModel, stderr: Seq<char>, rest: Seq<EventModel>)
    ensures
        ({
            let e = EventModel::GeneratorExited { success: false, stderr };
            let step = spec_step(req, StateModel::Generating, e);
            let run = spec_run(req, StateModel::Generating, seq![e] + rest);
            &&& step.0 == StateModel::Failed { error: ErrorModel::Generation { stderr } }
            &&& step.1 == ActionModel::Fail
            &&& forall|i: int| 0 <= i < run.len() ==> !(run[i] is RunCompiler)
        }),
{
    let e = EventModel::GeneratorExited { success: false, stderr };
    let events = seq![e] + rest;
    let error = ErrorModel::Generation { stderr };
    let run = spec_run(req, StateModel::Generating, events);
    assert(events[0] == e);
    assert(events.drop_first() =~= rest);
    lemma_failed_never_compiles(req, error, rest);
    lemma_run_len(req, StateModel::Failed { error }, rest);
    lemma_run_len(req, StateModel::Generating, events);
    assert forall|i: int| 0 <= i < run.len() implies !(run[i] is RunCompiler) by {
        if i > 0 {
            assert(run[i] == spec_run(req, StateModel::Failed { error }, rest)[i - 1]);
        }
    }
}

/// Ordering law: when the required parser source is absent, the builder
/// aborts before any compiler invocation. The step moves the machine to the
/// failed state naming the missing file, and no compiler invocation is issued
/// by that step or by any later one, whatever events still arrive.
pub proof fn lemma_missing_parser_aborts(
    req: ReqModel,
    scanner_c_exists: bool,
    scanner_cpp_exists: bool,
    rest: Seq<EventModel>,
)
    ensures
        ({
            let e = EventModel::SourcesChecked {
                parser_exists: false,
                scanner_c_exists,
                scanner_cpp_exists,
            };
            let step = spec_step(req, StateModel::ResolvingSources, e);
            let run = spec_run(req, StateModel::ResolvingSources, seq![e] + rest);
            &&& step.0 == StateModel::Failed {
                error: ErrorModel::MissingSource { path: req.parser_path() },
            }
            &&& step.1 == ActionModel::Fail
            &&& forall|i: int| 0 <= i < run.len() ==> !(run[i] is RunCompiler)
        }),
{
    let e = EventModel::SourcesChecked {
        parser_exists: false,
        scanner_c_exists,
        scanner_cpp_exists,
    };
    let events = seq![e] + rest;
    let error = ErrorModel::MissingSource { path: req.parser_path() };
    let run = spec_run(req, StateModel::ResolvingSources, events);
    assert(events[0] == e);
    assert(events.drop_first() =~= rest);
    lemma_failed_never_compiles(req, error, rest);
    lemma_run_len(req, StateModel::Failed { error }, rest);
    lemma_run_len(req, StateModel::ResolvingSources, events);
    assert forall|i: int| 0 <= i < run.len() implies !(run[i] is RunCompiler) by {
        if i > 0 {
            assert(run[i] == spec_run(req, StateModel::Failed { error }, rest)[i - 1]);
        }
    }
}

/// Precedence law at the invocation level: when both scanner files exist, the
/// C dialect is selected, with the C-dialect file's path; the C++ file is
/// compiled only when it is the sole candidate.
pub proof fn lemma_scanner_choice_precedence(req: ReqModel)
    ensures
        spec_scanner_choice(req, true, true) == Some(
            (ScannerDialect::C, req.scanner_c_path()),
        ),
        spec_scanner_choice(req, true, false) == Some(
            (ScannerDialect::C, req.scanner_c_path()),
        ),
        spec_scanner_choice(req, false, true) == Some(
            (ScannerDialect::Cpp, req.scanner_cpp_path()),
        ),
        spec_scanner_choice(req, false, false) == None::<(ScannerDialect, Seq<char>)>,
{
}

/// One build run: the immutable request and where the machine stands.
pub struct Pipeline {
    pub request: BuildRequest,
    pub state: PipelineState,
}

impl Pipeline {
    /// A fresh pipeline for one build request.
    pub fn new(request: BuildRequest) -> (p: Pipeline)
        ensures
            p.request == request,
            p.state@ == StateModel::Init,
    {
        Pipeline { request, state: PipelineState::Init }
    }

    /// Feeds the outcome of the previous external step into the machine and
    /// returns the next action, exactly as the transition function says.
    pub fn next(&mut self, event: Event) -> (a: Action)
        ensures
            final(self).request == old(self).request,
            final(self).state@ == spec_step(old(self).request@, old(self).state@, event@).0,
            a@ == spec_step(old(self).request@, old(self).state@, event@).1,
    {
        match (&self.state, event) {
            (PipelineState::Init, Event::Start) => {
                let path = String::from_str(self.request.artifact_path.as_str());
                self.state = PipelineState::CreatingArtifactDir;
                Action::CreateDir { path }
            },
            (PipelineState::CreatingArtifactDir, Event::DirCreated) => {
                let grammar_js = self.request.grammar_js();
                let working_dir = String::from_str(self.request.artifact_path.as_str());
                self.state = PipelineState::Generating;
                Action::RunGenerator {
                    program: String::from_str("tree-sitter"),
                    subcommand: String::from_str("generate"),
                    grammar_js,
                    working_dir,
                }
            },
            (PipelineState::CreatingArtifactDir, Event::DirFailed { message }) => {
                self.state = PipelineState::Failed { error: BuildError::Io { message } };
                Action::Fail
            },
            (PipelineState::Generating, Event::GeneratorExited { success, stderr }) => {
                if success {
                    let path = self.request.dest_dir();
                    self.state = PipelineState::CreatingDestDir;
                    Action::CreateDir { path }
                } else {
                    self.state = PipelineState::Failed {
                        error: BuildError::Generation { stderr },
                    };
                    Action::Fail
                }
            },
            (PipelineState::Generating, Event::GeneratorSpawnFailed { message }) => {
                self.state = PipelineState::Failed {
                    error: BuildError::GeneratorSpawn { message },
                };
                Action::Fail
            },
            (PipelineState::CreatingDestDir, Event::DirCreated) => {
                let parser = self.request.parser_path();
                let scanner_c = self.request.scanner_c_path();
                let scanner_cpp = self.request.scanner_cpp_path();
                self.state = PipelineState::ResolvingSources;
                Action::CheckSources { parser, scanner_c, scanner_cpp }
            },
            (PipelineState::CreatingDestDir, Event::DirFailed { message }) => {
                self.state = PipelineState::Failed { error: BuildError::Io { message } };
                Action::Fail
            },
            (
                PipelineState::ResolvingSources,
                Event::SourcesChecked { parser_exists, scanner_c_exists, scanner_cpp_exists },
            ) => {
                if parser_exists {
                    let target = String::from_str(self.request.target.as_str());
                    self.state = PipelineState::ResolvingToolchain {
                        scanner_c: scanner_c_exists,
                        scanner_cpp: scanner_cpp_exists,
                    };
                    Action::ResolveToolchain { target }
                } else {
                    let path = self.request.parser_path();
                    self.state = PipelineState::Failed {
                        error: BuildError::MissingSource { path },
                    };
                    Action::Fail
                }
            },
            (
                PipelineState::ResolvingToolchain { scanner_c, scanner_cpp },
                Event::ToolchainResolved { toolchain },
            ) => {
                let c_exists: bool = *scanner_c;
                let cpp_exists: bool = *scanner_cpp;
                let scanner: Option<ScannerSource> = match resolve_scanner(c_exists, cpp_exists) {
                    Some(ScannerDialect::C) => Some(
                        ScannerSource {
                            dialect: ScannerDialect::C,
                            path: self.request.scanner_c_path(),
                        },
                    ),
                    Some(ScannerDialect::Cpp) => Some(
                        ScannerSource {
                            dialect: ScannerDialect::Cpp,
                            path: self.request.scanner_cpp_path(),
                        },
                    ),
                    None => None,
                };
                let src_dir = self.request.src_dir();
                let lib_path = self.request.lib_path();
                let parser_path = self.request.parser_path();
                let args = command_args(
                    self.request.platform,
                    src_dir.as_str(),
                    lib_path.as_str(),
                    parser_path.as_str(),
                    &scanner,
                );
                self.state = PipelineState::Compiling;
                Action::RunCompiler { program: toolchain.path, env: toolchain.env, args }
            },
            (PipelineState::ResolvingToolchain { .. }, Event::ToolchainFailed { error }) => {
                self.state = PipelineState::Failed { error };
                Action::Fail
            },
            (PipelineState::Compiling, Event::CompilerExited { success, stdout, stderr }) => {
                if success {
                    self.state = PipelineState::Done;
                    Action::Succeed
                } else {
                    self.state = PipelineState::Failed {
                        error: BuildError::Compilation { stdout, stderr },
                    };
                    Action::Fail
                }
            },
            (PipelineState::Compiling, Event::CompilerSpawnFailed { message }) => {
                self.state = PipelineState::Failed {
                    error: BuildError::CompilerSpawn { message },
                };
                Action::Fail
            },
            _ => Action::Fail,
        }
    }

    /// Whether the run has ended successfully.
    pub fn is_done(&self) -> (r: bool)
        ensures
            r == (self.state@ is Done),
    {
        match self.state {
            PipelineState::Done => true,
            _ => false,
        }
    }

    /// The terminal error message, if the run has aborted.
    pub fn error_message(&self) -> (r: Option<String>)
        ensures
            r is Some <==> self.state@ is Failed,
            r matches Some(m) ==> m@ == crate::errors::spec_error_message(
                self.state@->Failed_error,
            ),
    {
        match &self.state {
            PipelineState::Failed { error } => Some(error.message()),
            _ => None,
        }
    }
}

} // verus!
