//! One invocation from start to end: resolve the base, extract the diff and,
//! for a review, ask the model and render the answer.
//!
//! The session performs nothing by itself. Each [`Step`] names the one thing
//! to do next: run a `git` command, send the chat request, print the output
//! or report the failure. The caller does it and comes back with what
//! happened.

use crate::extract::{diff_command, extract_diff, extract_spec, ExtractionError};
use crate::git::{CommandOutcome, CommandOutcomeView, GitCommand, GitCommandView};
use crate::render::{render, render_spec};
use crate::resolve::{
    advance, advance_spec, begin, begin_spec, upstream_candidates, Resolution, ResolutionError,
    ResolutionErrorView, ResolutionView, Resolver, ResolverView,
};
use crate::review::{
    compose_request, conclude, conclude_spec, instructions, instructions_spec, request_spec,
    ChatOutcome, ChatOutcomeView, ChatRequest, ChatRequestView, RequestError, RequestErrorView,
};
use crate::text::decoded;
use vstd::prelude::*;
use vstd::string::*;
use vstd::utf8::{decode_utf8_encode_utf8, encode_utf8, valid_utf8};

verus! {

/// The notice that goes before the changes are fetched.
pub const FETCHING_NOTICE: &'static str = "fetching changes…";

/// The notice that goes before the changes are sent to the model.
pub const SENDING_NOTICE: &'static str = "sending to review service…";

/// What the caller asked for.
#[derive(Debug, PartialEq, Eq)]
pub enum Operation {
    /// Review the changes. `instructions` replaces the default instructions
    /// and `against` the automatic choice of the base.
    Review { instructions: Option<String>, against: Option<String> },
    /// Print the changes that would be reviewed.
    ShowDiff { against: Option<String> },
}

/// The mathematical view of [`Operation`]: texts and lists are sequences.
pub enum OperationView {
    Review { instructions: Option<Seq<char>>, against: Option<Seq<char>> },
    ShowDiff { against: Option<Seq<char>> },
}

impl View for Operation {
    type V = OperationView;

    open spec fn view(&self) -> OperationView {
        match self {
            Operation::Review { instructions, against } => OperationView::Review {
                instructions: instructions.deep_view(),
                against: against.deep_view(),
            },
            Operation::ShowDiff { against } => OperationView::ShowDiff {
                against: against.deep_view(),
            },
        }
    }
}

impl OperationView {
    /// The operation that is run where `selected` names none: a review
    /// without overrides.
    pub open spec fn or_default(selected: Option<OperationView>) -> OperationView {
        match selected {
            Some(operation) => operation,
            None => OperationView::Review { instructions: None, against: None },
        }
    }

    /// The explicit comparison revision, if any.
    pub open spec fn against(self) -> Option<Seq<char>> {
        match self {
            OperationView::Review { against, .. } => against,
            OperationView::ShowDiff { against } => against,
        }
    }

    /// What is to be done with the changes.
    pub open spec fn goal(self) -> GoalView {
        match self {
            OperationView::Review { instructions, .. } => GoalView::Review {
                instructions: instructions_spec(instructions),
            },
            OperationView::ShowDiff { .. } => GoalView::ShowDiff,
        }
    }
}

/// `selected` by its view.
pub open spec fn selection_view(selected: Option<Operation>) -> Option<OperationView> {
    match selected {
        Some(operation) => Some(operation@),
        None => None,
    }
}

impl Operation {
    /// The operation to run: the selected one, or a review without overrides
    /// where none was selected.
    pub fn or_default(selected: Option<Operation>) -> (operation: Operation)
        ensures
            operation@ == OperationView::or_default(selection_view(selected)),
    {
        match selected {
            Some(operation) => operation,
            None => Operation::Review { instructions: None, against: None },
        }
    }
}

/// What is to be done with the changes once they are there.
#[derive(Debug, PartialEq, Eq)]
pub enum Goal {
    /// Send them to the model under `instructions`.
    Review { instructions: String },
    /// Print them.
    ShowDiff,
}

/// The mathematical view of [`Goal`]: texts and lists are sequences.
pub enum GoalView {
    Review { instructions: Seq<char> },
    ShowDiff,
}

impl View for Goal {
    type V = GoalView;

    open spec fn view(&self) -> GoalView {
        match self {
            Goal::Review { instructions } => GoalView::Review { instructions: instructions@ },
            Goal::ShowDiff => GoalView::ShowDiff,
        }
    }
}

/// Which `git` command a session is waiting for.
#[derive(Debug, PartialEq, Eq)]
pub enum GitPhase {
    /// A command of the revision resolver.
    Resolving { resolver: Resolver },
    /// The diff against the resolved base.
    Diffing,
}

/// The mathematical view of [`GitPhase`]: texts and lists are sequences.
pub enum GitPhaseView {
    Resolving { resolver: ResolverView },
    Diffing,
}

impl View for GitPhase {
    type V = GitPhaseView;

    open spec fn view(&self) -> GitPhaseView {
        match self {
            GitPhase::Resolving { resolver } => GitPhaseView::Resolving { resolver: resolver@ },
            GitPhase::Diffing => GitPhaseView::Diffing,
        }
    }
}

/// A session that waits for the outcome of a `git` command.
#[derive(Debug, PartialEq, Eq)]
pub struct AwaitingGit {
    pub goal: Goal,
    pub verbose: bool,
    pub phase: GitPhase,
}

/// The mathematical view of [`AwaitingGit`]: texts and lists are sequences.
pub struct AwaitingGitView {
    pub goal: GoalView,
    pub verbose: bool,
    pub phase: GitPhaseView,
}

impl View for AwaitingGit {
    type V = AwaitingGitView;

    open spec fn view(&self) -> AwaitingGitView {
        AwaitingGitView { goal: self.goal@, verbose: self.verbose, phase: self.phase@ }
    }
}

/// Why an invocation failed.
#[derive(Debug, PartialEq, Eq)]
pub enum Failure {
    Resolution(ResolutionError),
    Extraction(ExtractionError),
    Request(RequestError),
}

/// The mathematical view of [`Failure`]: texts and lists are sequences.
pub enum FailureView {
    Resolution(ResolutionErrorView),
    Extraction(ExtractionError),
    Request(RequestErrorView),
}

impl View for Failure {
    type V = FailureView;

    open spec fn view(&self) -> FailureView {
        match self {
            Failure::Resolution(error) => FailureView::Resolution(error@),
            Failure::Extraction(error) => FailureView::Extraction(*error),
            Failure::Request(error) => FailureView::Request(error@),
        }
    }
}

impl FailureView {
    /// The failure in words.
    pub open spec fn message(self) -> Seq<char> {
        match self {
            FailureView::Resolution(error) => error.message(),
            FailureView::Extraction(error) => error.message_spec(),
            FailureView::Request(error) => error.message(),
        }
    }
}

impl Failure {
    /// The failure in words, as it is shown to the user.
    pub fn message(&self) -> (text: String)
        ensures
            text@ == self@.message(),
    {
        match self {
            Failure::Resolution(error) => error.message(),
            Failure::Extraction(error) => error.message(),
            Failure::Request(error) => error.message(),
        }
    }
}

/// What an invocation writes to standard output.
#[derive(Debug, PartialEq, Eq)]
pub enum Output {
    /// The change set as text, as `git` wrote it.
    Diff { text: String },
    /// The rendered review.
    Report { text: String },
}

/// The mathematical view of [`Output`]: texts and lists are sequences.
pub enum OutputView {
    Diff { text: Seq<char> },
    Report { text: Seq<char> },
}

impl View for Output {
    type V = OutputView;

    open spec fn view(&self) -> OutputView {
        match self {
            Output::Diff { text } => OutputView::Diff { text: text@ },
            Output::Report { text } => OutputView::Report { text: text@ },
        }
    }
}

/// The one thing to do next.
#[derive(Debug, PartialEq, Eq)]
pub enum Action {
    /// Run `command` and hand its outcome to [`AwaitingGit::resume`] of `state`.
    Run { state: AwaitingGit, command: GitCommand },
    /// Send `request` to the chat boundary and hand its answer to [`finish`].
    Ask { request: ChatRequest },
    /// Write `output` to standard output; the invocation succeeded.
    Finish { output: Output },
    /// Report `failure`; the invocation failed.
    Fail { failure: Failure },
}

/// The mathematical view of [`Action`]: texts and lists are sequences.
pub enum ActionView {
    Run { state: AwaitingGitView, command: GitCommandView },
    Ask { request: ChatRequestView },
    Finish { output: OutputView },
    Fail { failure: FailureView },
}

impl View for Action {
    type V = ActionView;

    open spec fn view(&self) -> ActionView {
        match self {
            Action::Run { state, command } => ActionView::Run { state: state@, command: command@ },
            Action::Ask { request } => ActionView::Ask { request: request@ },
            Action::Finish { output } => ActionView::Finish { output: output@ },
            Action::Fail { failure } => ActionView::Fail { failure: failure@ },
        }
    }
}

/// A step of a session: a progress notice for the diagnostic stream, where
/// one is due, and the action to take.
#[derive(Debug, PartialEq, Eq)]
pub struct Step {
    pub notice: Option<String>,
    pub action: Action,
}

/// The mathematical view of [`Step`]: texts and lists are sequences.
pub struct StepView {
    pub notice: Option<Seq<char>>,
    pub action: ActionView,
}

impl View for Step {
    type V = StepView;

    open spec fn view(&self) -> StepView {
        StepView { notice: self.notice.deep_view(), action: self.action@ }
    }
}

/// The notice `text`, where the session is verbose.
pub open spec fn notice_spec(verbose: bool, text: Seq<char>) -> Option<Seq<char>> {
    if verbose {
        Some(text)
    } else {
        None
    }
}

/// What follows a step of the resolver: its pending command, the diff
/// against the base it resolved, or its failure.
pub open spec fn after_resolution(
    goal: GoalView,
    verbose: bool,
    resolution: ResolutionView,
) -> ActionView {
    match resolution {
        ResolutionView::Pending { state, command } => ActionView::Run {
            state: AwaitingGitView {
                goal,
                verbose,
                phase: GitPhaseView::Resolving { resolver: state },
            },
            command,
        },
        ResolutionView::Resolved { base } => ActionView::Run {
            state: AwaitingGitView { goal, verbose, phase: GitPhaseView::Diffing },
            command: GitCommandView::Diff { base },
        },
        ResolutionView::Failed { error } => ActionView::Fail {
            failure: FailureView::Resolution(error),
        },
    }
}

/// What follows the extraction: the change set is printed or sent to the
/// model, as the goal says, and a failure ends the session.
pub open spec fn after_extraction(
    goal: GoalView,
    verbose: bool,
    extraction: Result<Seq<u8>, ExtractionError>,
) -> StepView {
    match extraction {
        Err(error) => StepView {
            notice: None,
            action: ActionView::Fail { failure: FailureView::Extraction(error) },
        },
        Ok(changes) => match goal {
            GoalView::ShowDiff => StepView {
                notice: None,
                action: ActionView::Finish { output: OutputView::Diff { text: decoded(changes) } },
            },
            GoalView::Review { instructions } => StepView {
                notice: notice_spec(verbose, SENDING_NOTICE@),
                action: ActionView::Ask { request: request_spec(changes, instructions) },
            },
        },
    }
}

/// The first step of `operation`.
pub open spec fn start_spec(operation: OperationView, verbose: bool) -> StepView {
    StepView {
        notice: notice_spec(verbose, FETCHING_NOTICE@),
        action: after_resolution(operation.goal(), verbose, begin_spec(operation.against())),
    }
}

/// The step that follows `state` once its command came to `outcome`.
pub open spec fn resume_spec(state: AwaitingGitView, outcome: CommandOutcomeView) -> StepView {
    match state.phase {
        GitPhaseView::Resolving { resolver } => StepView {
            notice: None,
            action: after_resolution(state.goal, state.verbose, advance_spec(resolver, outcome)),
        },
        GitPhaseView::Diffing => after_extraction(state.goal, state.verbose, extract_spec(outcome)),
    }
}

/// The last step of a review, once the chat boundary answered with `outcome`.
pub open spec fn finish_spec(outcome: ChatOutcomeView) -> StepView {
    StepView {
        notice: None,
        action: match conclude_spec(outcome) {
            Ok(review) => ActionView::Finish {
                output: OutputView::Report { text: render_spec(review) },
            },
            Err(error) => ActionView::Fail { failure: FailureView::Request(error) },
        },
    }
}

fn notice(verbose: bool, text: &str) -> (notice: Option<String>)
    ensures
        notice.deep_view() == notice_spec(verbose, text@),
{
    if verbose {
        Some(String::from_str(text))
    } else {
        None
    }
}

fn follow_resolution(goal: Goal, verbose: bool, resolution: Resolution) -> (action: Action)
    ensures
        action@ == after_resolution(goal@, verbose, resolution@),
{
    match resolution {
        Resolution::Pending { state, command } => Action::Run {
            state: AwaitingGit { goal, verbose, phase: GitPhase::Resolving { resolver: state } },
            command,
        },
        Resolution::Resolved { base } => Action::Run {
            state: AwaitingGit { goal, verbose, phase: GitPhase::Diffing },
            command: diff_command(base),
        },
        Resolution::Failed { error } => Action::Fail { failure: Failure::Resolution(error) },
    }
}

/// Starts the session for `operation`.
///
/// The first step asks for the first command of the revision resolver. A
/// verbose session announces that the changes are being fetched.
pub fn start(operation: Operation, verbose: bool) -> (step: Step)
    ensures
        step@ == start_spec(operation@, verbose),
{
    let (goal, against) = match operation {
        Operation::Review { instructions: custom, against } => (
            Goal::Review { instructions: instructions(custom) },
            against,
        ),
        Operation::ShowDiff { against } => (Goal::ShowDiff, against),
    };
    let action = follow_resolution(goal, verbose, begin(against));
    Step { notice: notice(verbose, FETCHING_NOTICE), action }
}

impl AwaitingGit {
    /// Takes the outcome of the command that was asked for and says what
    /// follows.
    ///
    /// While the base is being resolved, the resolver decides: its next
    /// command, the diff against the base, or its failure. The outcome of the
    /// diff gives the change set, which is printed for `ShowDiff` and sent to
    /// the model for `Review`; a verbose review announces the sending.
    /// Every failure ends the session.
    pub fn resume(self, outcome: CommandOutcome) -> (step: Step)
        ensures
            step@ == resume_spec(self@, outcome@),
    {
        let AwaitingGit { goal, verbose, phase } = self;
        match phase {
            GitPhase::Resolving { resolver } => {
                let resolution = advance(resolver, &outcome);
                Step { notice: None, action: follow_resolution(goal, verbose, resolution) }
            },
            GitPhase::Diffing => {
                match extract_diff(outcome) {
                    Err(error) => Step {
                        notice: None,
                        action: Action::Fail { failure: Failure::Extraction(error) },
                    },
                    Ok(changes) => match goal {
                        Goal::ShowDiff => Step {
                            notice: None,
                            action: Action::Finish { output: Output::Diff { text: changes.text() } },
                        },
                        Goal::Review { instructions } => Step {
                            notice: notice(verbose, SENDING_NOTICE),
                            action: Action::Ask { request: compose_request(&changes, instructions) },
                        },
                    },
                }
            },
        }
    }
}

/// Ends a review with the answer of the chat boundary: the rendered report,
/// or the boundary's failure. Nothing is rendered of a failed request.
pub fn finish(outcome: ChatOutcome) -> (step: Step)
    ensures
        step@ == finish_spec(outcome@),
{
    match conclude(outcome) {
        Ok(review) => Step {
            notice: None,
            action: Action::Finish { output: Output::Report { text: render(&review) } },
        },
        Err(error) => Step { notice: None, action: Action::Fail { failure: Failure::Request(error) } },
    }
}

/// An upper bound on the `git` commands that are still to be run from
/// `state`, the pending one included.
pub open spec fn commands_left(state: AwaitingGitView) -> nat {
    match state.phase {
        GitPhaseView::Resolving { resolver: ResolverView::Probing { candidate } } => if candidate
            < upstream_candidates().len() {
            (upstream_candidates().len() - candidate + 1) as nat
        } else {
            2
        },
        GitPhaseView::Resolving { resolver: ResolverView::Verifying { .. } } => 2,
        GitPhaseView::Diffing => 1,
    }
}

/// A session is short: it starts with a command and at most three are run in
/// all, two lookups of the merge base and the diff, or the verification and
/// the diff.
pub proof fn a_session_runs_three_commands_at_most(operation: OperationView, verbose: bool)
    ensures
        start_spec(operation, verbose).action matches ActionView::Run { state, .. }
            && commands_left(state) <= 3,
{
}

/// Every outcome brings the end closer: where another command follows, fewer
/// are left than before, and the diff is the last one.
pub proof fn each_command_brings_the_end_closer(
    state: AwaitingGitView,
    outcome: CommandOutcomeView,
)
    ensures
        resume_spec(state, outcome).action matches ActionView::Run { state: next, .. }
            ==> commands_left(next) < commands_left(state),
        state.phase is Diffing ==> !(resume_spec(state, outcome).action is Run),
{
}

/// The model is asked once: its answer ends the session, with the report or
/// with the failure.
pub proof fn the_answer_ends_the_session(outcome: ChatOutcomeView)
    ensures
        finish_spec(outcome).action is Finish || finish_spec(outcome).action is Fail,
        finish_spec(outcome).notice is None,
{
}

/// `action` with the verbosity of its session switched off.
pub open spec fn quiet(action: ActionView) -> ActionView {
    match action {
        ActionView::Run { state, command } => ActionView::Run {
            state: AwaitingGitView { verbose: false, ..state },
            command,
        },
        _ => action,
    }
}

/// An explicit revision is verified before anything else, and where it does
/// not verify the session fails with `InvalidRevision` at once: no diff is
/// run and no request is sent.
pub proof fn invalid_revision_ends_the_session(
    operation: OperationView,
    verbose: bool,
    revision: Seq<char>,
    outcome: CommandOutcomeView,
)
    requires
        operation.against() == Some(revision),
        !outcome.succeeded(),
    ensures
        start_spec(operation, verbose).action matches ActionView::Run { state, command }
            && command == (GitCommandView::VerifyRevision { revision }) && resume_spec(
            state,
            outcome,
        ).action == (ActionView::Fail {
            failure: FailureView::Resolution(ResolutionErrorView::InvalidRevision { revision }),
        }),
{
}

/// Showing the diff stops after the extraction: whatever `git` answers, the
/// session never asks the model, and it stays a session that shows the
/// diff.
pub proof fn show_diff_never_asks(state: AwaitingGitView, outcome: CommandOutcomeView)
    requires
        state.goal is ShowDiff,
    ensures
        !(resume_spec(state, outcome).action is Ask),
        !(resume_spec(state, outcome).action matches ActionView::Finish { output } && output
            is Report),
        resume_spec(state, outcome).action matches ActionView::Run { state: next, .. }
            ==> next.goal is ShowDiff,
{
}

/// Where the diff succeeds, showing it prints the change set as text and
/// nothing else.
pub proof fn show_diff_prints_the_changes(state: AwaitingGitView, outcome: CommandOutcomeView)
    requires
        state.goal is ShowDiff,
        state.phase is Diffing,
        outcome.succeeded(),
        outcome.stdout().len() > 0,
    ensures
        resume_spec(state, outcome) == (StepView {
            notice: None,
            action: ActionView::Finish {
                output: OutputView::Diff { text: decoded(outcome.stdout()) },
            },
        }),
{
}

/// A diff that is valid UTF-8 is printed unmodified: the text that is shown
/// encodes to the very bytes that `git` wrote.
pub proof fn show_diff_prints_the_changes_unmodified(
    state: AwaitingGitView,
    outcome: CommandOutcomeView,
)
    requires
        state.goal is ShowDiff,
        state.phase is Diffing,
        outcome.succeeded(),
        outcome.stdout().len() > 0,
        valid_utf8(outcome.stdout()),
    ensures
        resume_spec(state, outcome).action matches ActionView::Finish {
            output: OutputView::Diff { text },
        } && encode_utf8(text) == outcome.stdout(),
{
    decode_utf8_encode_utf8(outcome.stdout());
}

/// Verbosity adds notices and changes nothing else: a verbose session and a
/// quiet one take the same actions, and a quiet one gives no notice.
pub proof fn verbosity_only_adds_notices(state: AwaitingGitView, outcome: CommandOutcomeView)
    ensures
        quiet(resume_spec(state, outcome).action) == quiet(
            resume_spec(AwaitingGitView { verbose: !state.verbose, ..state }, outcome).action,
        ),
        !state.verbose ==> resume_spec(state, outcome).notice is None,
{
}

/// Verbosity changes nothing but the notice of the first step either.
pub proof fn verbosity_only_adds_a_first_notice(operation: OperationView)
    ensures
        quiet(start_spec(operation, true).action) == quiet(start_spec(operation, false).action),
        start_spec(operation, false).notice is None,
{
}

} // verus!
