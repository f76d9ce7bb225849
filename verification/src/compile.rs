//! One compilation, step by step.
//!
//! A compilation alternates between work that only the caller can do
//! (creating a directory, writing and reading files, running the compiler)
//! and decisions. The decisions are made here: a compilation in progress
//! names the action it waits for, and each event that the caller reports
//! leads to the next action or to the outcome. Every failure ends the
//! compilation with an outcome; nothing is tried twice.

use crate::diagnostic::{diagnostics, CompileError, Diagnostic};
use crate::extract::{
    diagnostics_of, extract_diagnostics, lemma_never_empty, refused_rule, rules_accepted, RuleError,
};
use crate::invoke::{
    combined_log,
    COMPILER_PROGRAM,
    invocation_for,
    invocation_of,
    launch_failure,
    launch_failure_message,
    log_of,
    Invocation,
    InvocationView,
    KEEP_INTERMEDIATES_FLAG,
    OUTPUT_DIRECTORY_FLAG,
    SYNCTEX_FLAG,
};
use crate::layout::{
    auxiliary_directory_of,
    layout_of,
    mode_of,
    path_file_stem,
    path_joined,
    resolve_layout,
    resolved,
    CompilationRequest,
    LayoutView,
    Mode,
    RequestView,
    WorkspaceLayout,
    ARTIFACT_EXTENSION,
    NO_FILE_NAME,
    SCRATCH_ARTIFACT_NAME,
    SCRATCH_SOURCE_NAME,
};
use vstd::prelude::*;

verus! {

/// The message for a compiler that reported success and left no artifact.
pub const ARTIFACT_MISSING: &'static str = "编译成功但未找到生成的 PDF 文件";

/// The message for an event that cannot follow the pending action.
pub const UNEXPECTED_EVENT: &'static str = "the event does not answer the pending action";

/// How a compilation ends.
#[derive(Clone, Debug, PartialEq, Eq)]
pub enum CompilationOutcome {
    /// The bytes of the artifact.
    Success(Vec<u8>),
    /// What went wrong: at least one error.
    Failure(Vec<CompileError>),
}

/// What a `CompilationOutcome` holds, as mathematical values.
pub enum OutcomeView {
    Success(Seq<u8>),
    Failure(Seq<Diagnostic>),
}

impl View for CompilationOutcome {
    type V = OutcomeView;

    open spec fn view(&self) -> OutcomeView {
        match self {
            CompilationOutcome::Success(bytes) => OutcomeView::Success(bytes@),
            CompilationOutcome::Failure(errors) => OutcomeView::Failure(diagnostics(errors@)),
        }
    }
}

impl OutcomeView {
    /// Whether a failure names at least one problem.
    pub open spec fn well_formed(self) -> bool {
        self matches OutcomeView::Failure(found) ==> found.len() >= 1
    }

    /// The failure with one error that belongs to no line.
    pub open spec fn failed_with(message: Seq<char>) -> OutcomeView {
        OutcomeView::Failure(seq![Diagnostic::unlocalized(message)])
    }
}

impl CompilationOutcome {
    /// The failure with the given error alone.
    pub fn failed_with(error: CompileError) -> (outcome: CompilationOutcome)
        ensures
            outcome@ == OutcomeView::Failure(seq![error@]),
    {
        let mut errors: Vec<CompileError> = Vec::new();
        errors.push(error);
        proof {
            assert(diagnostics(errors@) =~= seq![error@]);
        }
        CompilationOutcome::Failure(errors)
    }
}

/// The action that a compilation in progress waits for.
#[derive(Clone, Copy, Debug, PartialEq, Eq, Structural)]
pub enum Phase {
    /// The output directory is to be there.
    Directory,
    /// The document's text is to be written to the source file.
    Source,
    /// The compiler is to run.
    Compiler,
    /// The artifact is to be read.
    Artifact,
}

/// A compilation in progress.
#[derive(Clone, Debug, PartialEq, Eq)]
pub struct Compilation {
    pub mode: Mode,
    pub layout: WorkspaceLayout,
    pub source_text: String,
    pub phase: Phase,
}

/// What a `Compilation` holds, as mathematical values.
pub struct CompilationView {
    pub mode: Mode,
    pub layout: LayoutView,
    pub source_text: Seq<char>,
    pub phase: Phase,
}

impl View for Compilation {
    type V = CompilationView;

    open spec fn view(&self) -> CompilationView {
        CompilationView {
            mode: self.mode,
            layout: self.layout@,
            source_text: self.source_text@,
            phase: self.phase,
        }
    }
}

impl CompilationView {
    /// This compilation in another phase.
    pub open spec fn in_phase(self, phase: Phase) -> CompilationView {
        CompilationView { phase, ..self }
    }
}

/// Work that the caller does for a compilation.
#[derive(Clone, Debug, PartialEq, Eq)]
pub enum Action {
    /// Create the directory unless it is there; with `recursive`, create
    /// the directories above it too.
    EnsureDirectory { path: String, recursive: bool },
    /// Write the text to the file, replacing what it held.
    WriteSource { path: String, text: String },
    /// Run the compiler and wait until it exits.
    RunCompiler(Invocation),
    /// Read the whole file, if it is there.
    ReadArtifact { path: String },
}

/// What an `Action` holds, as mathematical values.
pub enum ActionView {
    EnsureDirectory { path: Seq<char>, recursive: bool },
    WriteSource { path: Seq<char>, text: Seq<char> },
    RunCompiler(InvocationView),
    ReadArtifact { path: Seq<char> },
}

impl View for Action {
    type V = ActionView;

    open spec fn view(&self) -> ActionView {
        match self {
            Action::EnsureDirectory { path, recursive } => ActionView::EnsureDirectory {
                path: path@,
                recursive: *recursive,
            },
            Action::WriteSource { path, text } => ActionView::WriteSource {
                path: path@,
                text: text@,
            },
            Action::RunCompiler(call) => ActionView::RunCompiler(call@),
            Action::ReadArtifact { path } => ActionView::ReadArtifact { path: path@ },
        }
    }
}

/// What happened when the caller did the pending action.
#[derive(Clone, Debug, PartialEq, Eq)]
pub enum Event {
    /// The directory is there, or the source file is written.
    Completed,
    /// The directory could not be created, or a file could not be written
    /// or read.
    IoFailed { description: String },
    /// The compiler could not be started.
    LaunchFailed { description: String },
    /// The compiler ran and exited.
    CompilerExited { succeeded: bool, standard_output: Vec<u8>, standard_error: Vec<u8> },
    /// There is no artifact file.
    ArtifactMissing,
    /// The artifact file holds these bytes.
    ArtifactRead { bytes: Vec<u8> },
}

/// What an `Event` holds, as mathematical values.
pub enum EventView {
    Completed,
    IoFailed { description: Seq<char> },
    LaunchFailed { description: Seq<char> },
    CompilerExited { succeeded: bool, standard_output: Seq<u8>, standard_error: Seq<u8> },
    ArtifactMissing,
    ArtifactRead { bytes: Seq<u8> },
}

impl View for Event {
    type V = EventView;

    open spec fn view(&self) -> EventView {
        match self {
            Event::Completed => EventView::Completed,
            Event::IoFailed { description } => EventView::IoFailed { description: description@ },
            Event::LaunchFailed { description } => EventView::LaunchFailed {
                description: description@,
            },
            Event::CompilerExited {
                succeeded,
                standard_output,
                standard_error,
            } => EventView::CompilerExited {
                succeeded: *succeeded,
                standard_output: standard_output@,
                standard_error: standard_error@,
            },
            Event::ArtifactMissing => EventView::ArtifactMissing,
            Event::ArtifactRead { bytes } => EventView::ArtifactRead { bytes: bytes@ },
        }
    }
}

/// Where a compilation stands after a decision.
#[derive(Clone, Debug, PartialEq, Eq)]
pub enum Step {
    /// The compilation goes on: the caller does its pending action.
    Continue(Compilation),
    /// The compilation has ended.
    Done(CompilationOutcome),
}

/// What a `Step` holds, as mathematical values.
pub enum StepView {
    Continue(CompilationView),
    Done(OutcomeView),
}

impl View for Step {
    type V = StepView;

    open spec fn view(&self) -> StepView {
        match self {
            Step::Continue(state) => StepView::Continue(state@),
            Step::Done(outcome) => StepView::Done(outcome@),
        }
    }
}

/// The action that a compilation waits for. The scratch directory is
/// created alone; an auxiliary directory is created with those above it.
pub open spec fn action_of(state: CompilationView) -> ActionView {
    match state.phase {
        Phase::Directory => ActionView::EnsureDirectory {
            path: state.layout.output_directory,
            recursive: state.mode == Mode::FileBacked,
        },
        Phase::Source => ActionView::WriteSource {
            path: state.layout.source_file_path,
            text: state.source_text,
        },
        Phase::Compiler => ActionView::RunCompiler(invocation_of(state.mode, state.layout)),
        Phase::Artifact => ActionView::ReadArtifact { path: state.layout.artifact_file_path },
    }
}

/// The first step of a compilation, given the layout that was resolved for
/// it or the error that refused it.
pub open spec fn first_step(
    mode: Mode,
    source_text: Seq<char>,
    layout: Result<LayoutView, Diagnostic>,
) -> StepView {
    match layout {
        Ok(layout) => StepView::Continue(
            CompilationView { mode, layout, source_text, phase: Phase::Directory },
        ),
        Err(refusal) => StepView::Done(OutcomeView::Failure(seq![refusal])),
    }
}

/// What the compiler's exit means: where it reports success the artifact is
/// read next, otherwise the compilation fails with the diagnostics of the
/// log.
pub open spec fn step_after_exit(
    state: CompilationView,
    succeeded: bool,
    standard_output: Seq<u8>,
    standard_error: Seq<u8>,
) -> StepView {
    if succeeded {
        StepView::Continue(state.in_phase(Phase::Artifact))
    } else {
        StepView::Done(OutcomeView::Failure(diagnostics_of(log_of(standard_output, standard_error))))
    }
}

/// The step that follows when `event` answers the pending action of
/// `state`. An event that cannot follow that action ends the compilation.
pub open spec fn step_after(state: CompilationView, event: EventView) -> StepView {
    match state.phase {
        Phase::Directory => match event {
            EventView::Completed => StepView::Continue(state.in_phase(Phase::Source)),
            EventView::IoFailed { description } => StepView::Done(
                OutcomeView::failed_with(description),
            ),
            _ => StepView::Done(OutcomeView::failed_with(UNEXPECTED_EVENT@)),
        },
        Phase::Source => match event {
            EventView::Completed => StepView::Continue(state.in_phase(Phase::Compiler)),
            EventView::IoFailed { description } => StepView::Done(
                OutcomeView::failed_with(description),
            ),
            _ => StepView::Done(OutcomeView::failed_with(UNEXPECTED_EVENT@)),
        },
        Phase::Compiler => match event {
            EventView::CompilerExited {
                succeeded,
                standard_output,
                standard_error,
            } => step_after_exit(state, succeeded, standard_output, standard_error),
            EventView::LaunchFailed { description } => StepView::Done(
                OutcomeView::failed_with(launch_failure_message(description)),
            ),
            _ => StepView::Done(OutcomeView::failed_with(UNEXPECTED_EVENT@)),
        },
        Phase::Artifact => match event {
            EventView::ArtifactRead { bytes } => StepView::Done(OutcomeView::Success(bytes)),
            EventView::ArtifactMissing => StepView::Done(
                OutcomeView::failed_with(ARTIFACT_MISSING@),
            ),
            EventView::IoFailed { description } => StepView::Done(
                OutcomeView::failed_with(description),
            ),
            _ => StepView::Done(OutcomeView::failed_with(UNEXPECTED_EVENT@)),
        },
    }
}

/// Whether a log is scanned when `event` answers the pending action of
/// `state`: only the log of a compiler that exited with a failure is.
pub open spec fn scans_log(state: CompilationView, event: EventView) -> bool {
    &&& state.phase == Phase::Compiler
    &&& event matches EventView::CompilerExited { succeeded, .. }
    &&& !succeeded
}

/// The step after steps and events in turn: a compilation that has ended
/// stays as it is.
pub open spec fn run(step: StepView, events: Seq<EventView>) -> StepView
    decreases events.len(),
{
    if events.len() == 0 {
        step
    } else {
        match step {
            StepView::Continue(state) => run(step_after(state, events[0]), events.drop_first()),
            StepView::Done(_) => step,
        }
    }
}

/// Whether an action names no path but those of the layout.
pub open spec fn stays_within(action: ActionView, layout: LayoutView) -> bool {
    match action {
        ActionView::EnsureDirectory { path, .. } => path == layout.output_directory,
        ActionView::WriteSource { path, .. } => path == layout.source_file_path,
        ActionView::RunCompiler(call) => {
            &&& forall|i: int|
                0 <= i < call.arguments.len() ==> {
                    ||| #[trigger] call.arguments[i] == layout.source_file_path
                    ||| call.arguments[i] == layout.output_directory
                    ||| call.arguments[i] == OUTPUT_DIRECTORY_FLAG@
                    ||| call.arguments[i] == KEEP_INTERMEDIATES_FLAG@
                    ||| call.arguments[i] == SYNCTEX_FLAG@
                }
            &&& call.working_directory matches Some(directory) ==> directory
                == layout.output_directory
        },
        ActionView::ReadArtifact { path } => path == layout.artifact_file_path,
    }
}

impl Compilation {
    /// The action that this compilation waits for.
    pub fn pending_action(&self) -> (action: Action)
        ensures
            action@ == action_of(self@),
    {
        match self.phase {
            Phase::Directory => Action::EnsureDirectory {
                path: self.layout.output_directory.clone(),
                recursive: match self.mode {
                    Mode::FileBacked => true,
                    Mode::Scratch => false,
                },
            },
            Phase::Source => Action::WriteSource {
                path: self.layout.source_file_path.clone(),
                text: self.source_text.clone(),
            },
            Phase::Compiler => Action::RunCompiler(invocation_for(self.mode, &self.layout)),
            Phase::Artifact => Action::ReadArtifact {
                path: self.layout.artifact_file_path.clone(),
            },
        }
    }

    /// This compilation in another phase.
    fn into_phase(self, phase: Phase) -> (next: Compilation)
        ensures
            next@ == self@.in_phase(phase),
    {
        Compilation {
            mode: self.mode,
            layout: self.layout,
            source_text: self.source_text,
            phase,
        }
    }

    /// The step that follows when `event` answers the pending action.
    /// Fails exactly where the log of a failed compiler run is to be
    /// scanned and the `regex` crate does not accept both line patterns.
    pub fn advance(self, event: Event) -> (r: Result<Step, RuleError>)
        ensures
            r is Ok <==> !scans_log(self@, event@) || rules_accepted(),
            r matches Ok(step) ==> step@ == step_after(self@, event@),
            r matches Err(e) ==> e.rule == refused_rule(),
    {
        match self.phase {
            Phase::Directory => match event {
                Event::Completed => Ok(Step::Continue(self.into_phase(Phase::Source))),
                Event::IoFailed { description } => Ok(failed(description.as_str())),
                _ => Ok(failed(UNEXPECTED_EVENT)),
            },
            Phase::Source => match event {
                Event::Completed => Ok(Step::Continue(self.into_phase(Phase::Compiler))),
                Event::IoFailed { description } => Ok(failed(description.as_str())),
                _ => Ok(failed(UNEXPECTED_EVENT)),
            },
            Phase::Compiler => match event {
                Event::CompilerExited { succeeded, standard_output, standard_error } => {
                    match handle_compilation_result(
                        succeeded,
                        standard_output.as_slice(),
                        standard_error.as_slice(),
                    ) {
                        Ok(None) => Ok(Step::Continue(self.into_phase(Phase::Artifact))),
                        Ok(Some(errors)) => Ok(Step::Done(CompilationOutcome::Failure(errors))),
                        Err(e) => Err(e),
                    }
                },
                Event::LaunchFailed { description } => Ok(
                    Step::Done(CompilationOutcome::failed_with(launch_failure(description.as_str()))),
                ),
                _ => Ok(failed(UNEXPECTED_EVENT)),
            },
            Phase::Artifact => match event {
                Event::ArtifactRead { bytes } => Ok(Step::Done(artifact_outcome(Some(bytes)))),
                Event::ArtifactMissing => Ok(Step::Done(artifact_outcome(None))),
                Event::IoFailed { description } => Ok(failed(description.as_str())),
                _ => Ok(failed(UNEXPECTED_EVENT)),
            },
        }
    }
}

/// The end of a compilation with one error that belongs to no line.
fn failed(message: &str) -> (step: Step)
    ensures
        step@ == StepView::Done(OutcomeView::failed_with(message@)),
{
    Step::Done(CompilationOutcome::failed_with(CompileError::simple(message)))
}

/// What the compiler's exit means, given whether it reported success and
/// what it wrote to its two streams: `None` where it reported success, so
/// that the artifact is read next; otherwise the diagnostics of its log.
/// Fails exactly where the compiler reported a failure and the `regex`
/// crate does not accept both line patterns.
pub fn handle_compilation_result(
    succeeded: bool,
    standard_output: &[u8],
    standard_error: &[u8],
) -> (r: Result<Option<Vec<CompileError>>, RuleError>)
    ensures
        r is Ok <==> succeeded || rules_accepted(),
        r matches Ok(verdict) ==> match verdict {
            None => succeeded,
            Some(errors) => !succeeded && diagnostics(errors@) == diagnostics_of(
                log_of(standard_output@, standard_error@),
            ) && errors@.len() >= 1,
        },
        r matches Err(e) ==> e.rule == refused_rule(),
{
    if succeeded {
        return Ok(None);
    }
    let log = combined_log(standard_output, standard_error);
    match extract_diagnostics(log.as_str()) {
        Ok(errors) => Ok(Some(errors)),
        Err(e) => Err(e),
    }
}

/// The outcome of a compilation whose compiler reported success, given the
/// bytes of the artifact or `None` where there is no artifact.
pub fn artifact_outcome(artifact: Option<Vec<u8>>) -> (outcome: CompilationOutcome)
    ensures
        outcome@ == match artifact {
            Some(bytes) => OutcomeView::Success(bytes@),
            None => OutcomeView::failed_with(ARTIFACT_MISSING@),
        },
{
    match artifact {
        Some(bytes) => CompilationOutcome::Success(bytes),
        None => CompilationOutcome::failed_with(CompileError::simple(ARTIFACT_MISSING)),
    }
}

/// The first step of a compilation, given the layout that was resolved for
/// it or the error that refused it.
pub fn begin(mode: Mode, source_text: String, layout: Result<WorkspaceLayout, CompileError>) -> (step:
    Step)
    ensures
        step@ == first_step(mode, source_text@, resolved(layout)),
{
    match layout {
        Ok(layout) => Step::Continue(
            Compilation { mode, layout, source_text, phase: Phase::Directory },
        ),
        Err(refusal) => Step::Done(CompilationOutcome::failed_with(refusal)),
    }
}

/// Begins the compilation of a document. A document without a file is
/// compiled in `scratch_directory` and always begins; a document with a
/// file begins unless no file name can be taken from its location, and
/// then ends before anything is written or run.
pub fn compile_latex(request: CompilationRequest, scratch_directory: &str) -> (step: Step)
    ensures
        step@ == first_step(
            mode_of(request@),
            request@.source_text,
            layout_of(request@, scratch_directory@),
        ),
{
    let mode = request.mode();
    let layout = resolve_layout(&request, scratch_directory);
    begin(mode, request.source_text, layout)
}

/// A document without a file is compiled in the scratch directory alone:
/// the directory is created without those above it, the text is written to
/// the source file of fixed name in it, the compiler gets that file as its
/// sole argument and runs in the directory, and the artifact of fixed name
/// is read from it.
pub proof fn lemma_scratch_actions(source_text: Seq<char>, scratch_directory: Seq<char>)
    ensures
        ({
            let request = RequestView { source_text, source_location: None };
            let source = path_joined(scratch_directory, SCRATCH_SOURCE_NAME@);
            &&& first_step(
                mode_of(request),
                source_text,
                layout_of(request, scratch_directory),
            ) matches StepView::Continue(state)
            &&& state.phase == Phase::Directory
            &&& action_of(state) == ActionView::EnsureDirectory {
                path: scratch_directory,
                recursive: false,
            }
            &&& action_of(state.in_phase(Phase::Source)) == ActionView::WriteSource {
                path: source,
                text: source_text,
            }
            &&& action_of(state.in_phase(Phase::Compiler)) == ActionView::RunCompiler(
                InvocationView {
                    program: COMPILER_PROGRAM@,
                    arguments: seq![source],
                    working_directory: Some(scratch_directory),
                },
            )
            &&& action_of(state.in_phase(Phase::Artifact)) == ActionView::ReadArtifact {
                path: path_joined(scratch_directory, SCRATCH_ARTIFACT_NAME@),
            }
        }),
{
}

/// A saved document is compiled beside its file and never in the scratch
/// directory: the auxiliary directory in the document's directory is
/// created, with those above it; the text is written to the document
/// itself; the compiler is told that directory as its output directory and
/// the document as its input; and the artifact is read from that directory
/// under the document's stem.
pub proof fn lemma_file_backed_actions(
    source_text: Seq<char>,
    location: Seq<char>,
    stem: Seq<char>,
    scratch_directory: Seq<char>,
)
    requires
        path_file_stem(location) == Some(stem),
    ensures
        ({
            let request = RequestView { source_text, source_location: Some(location) };
            let auxiliary = auxiliary_directory_of(location);
            &&& first_step(
                mode_of(request),
                source_text,
                layout_of(request, scratch_directory),
            ) matches StepView::Continue(state)
            &&& state.phase == Phase::Directory
            &&& action_of(state) == ActionView::EnsureDirectory { path: auxiliary, recursive: true }
            &&& action_of(state.in_phase(Phase::Source)) == ActionView::WriteSource {
                path: location,
                text: source_text,
            }
            &&& action_of(state.in_phase(Phase::Compiler)) == ActionView::RunCompiler(
                InvocationView {
                    program: COMPILER_PROGRAM@,
                    arguments: seq![
                        OUTPUT_DIRECTORY_FLAG@,
                        auxiliary,
                        KEEP_INTERMEDIATES_FLAG@,
                        SYNCTEX_FLAG@,
                        location,
                    ],
                    working_directory: None,
                },
            )
            &&& action_of(state.in_phase(Phase::Artifact)) == ActionView::ReadArtifact {
                path: path_joined(auxiliary, stem + ARTIFACT_EXTENSION@),
            }
        }),
{
}

/// A saved document from whose location no file name can be taken is
/// refused at once: the compilation ends before any action.
pub proof fn lemma_location_without_file_name_is_refused(
    source_text: Seq<char>,
    location: Seq<char>,
    scratch_directory: Seq<char>,
)
    requires
        path_file_stem(location) is None,
    ensures
        ({
            let request = RequestView { source_text, source_location: Some(location) };
            first_step(mode_of(request), source_text, layout_of(request, scratch_directory))
                == StepView::Done(OutcomeView::failed_with(NO_FILE_NAME@))
        }),
{
}

/// A failure always names at least one problem.
pub proof fn lemma_failure_never_empty(state: CompilationView, event: EventView)
    ensures
        step_after(state, event) matches StepView::Done(outcome) ==> outcome.well_formed(),
{
    if let EventView::CompilerExited { succeeded, standard_output, standard_error } = event {
        lemma_never_empty(log_of(standard_output, standard_error));
    }
}

/// A step changes the phase of a compilation and nothing else: the mode,
/// the layout and the document's text stay as they began.
pub proof fn lemma_step_keeps_layout(state: CompilationView, event: EventView)
    ensures
        step_after(state, event) matches StepView::Continue(next) ==> {
            &&& next.mode == state.mode
            &&& next.layout == state.layout
            &&& next.source_text == state.source_text
        },
{
}

/// Every action of a compilation names no path but those of its own
/// layout: the output directory, the source file and the artifact.
pub proof fn lemma_actions_stay_within_layout(state: CompilationView)
    ensures
        stays_within(action_of(state), state.layout),
{
}

/// Where each action succeeds and the compiler reports success, the
/// outcome is the artifact, byte for byte.
pub proof fn lemma_success_returns_artifact(
    state: CompilationView,
    standard_output: Seq<u8>,
    standard_error: Seq<u8>,
    bytes: Seq<u8>,
)
    requires
        state.phase == Phase::Directory,
    ensures
        run(
            StepView::Continue(state),
            seq![
                EventView::Completed,
                EventView::Completed,
                EventView::CompilerExited { succeeded: true, standard_output, standard_error },
                EventView::ArtifactRead { bytes },
            ],
        ) == StepView::Done(OutcomeView::Success(bytes)),
{
    let events = seq![
        EventView::Completed,
        EventView::Completed,
        EventView::CompilerExited { succeeded: true, standard_output, standard_error },
        EventView::ArtifactRead { bytes },
    ];
    reveal_with_fuel(run, 5);
    let e1 = events.drop_first();
    let e2 = e1.drop_first();
    let e3 = e2.drop_first();
    let e4 = e3.drop_first();
    assert(e1[0] == events[1]);
    assert(e2[0] == events[2]);
    assert(e3[0] == events[3]);
    assert(e4.len() == 0);
}

} // verus!
