//! The revision resolver: which revision the current head is compared with.
//!
//! An explicit revision is verified and then used as it is. Without one, the
//! common ancestor with an upstream default branch is looked up, candidate by
//! candidate. The resolver never runs `git` itself: each step either asks for
//! one command and waits for its outcome, or ends.

use crate::git::{CommandOutcome, CommandOutcomeView, GitCommand, GitCommandView};
use crate::text::{decode_lossy, decoded, trim, trimmed};
use vstd::prelude::*;
use vstd::string::*;

verus! {

/// The revision against which the current head is diffed.
#[derive(Debug, PartialEq, Eq)]
pub struct ResolvedBase {
    pub revision: String,
}

impl View for ResolvedBase {
    type V = Seq<char>;

    open spec fn view(&self) -> Seq<char> {
        self.revision@
    }
}

/// Why no base could be resolved.
#[derive(Debug, PartialEq, Eq)]
pub enum ResolutionError {
    /// The explicit revision does not name a revision of the repository.
    InvalidRevision { revision: String },
    /// No upstream candidate gave a common ancestor.
    NoMergeBase,
}

/// The mathematical view of [`ResolutionError`]: texts and lists are sequences.
pub enum ResolutionErrorView {
    InvalidRevision { revision: Seq<char> },
    NoMergeBase,
}

impl View for ResolutionError {
    type V = ResolutionErrorView;

    open spec fn view(&self) -> ResolutionErrorView {
        match self {
            ResolutionError::InvalidRevision { revision } => ResolutionErrorView::InvalidRevision {
                revision: revision@,
            },
            ResolutionError::NoMergeBase => ResolutionErrorView::NoMergeBase,
        }
    }
}

impl ResolutionErrorView {
    /// The error in words.
    pub open spec fn message(self) -> Seq<char> {
        match self {
            ResolutionErrorView::InvalidRevision { revision } => "Invalid git revision: "@
                + revision,
            ResolutionErrorView::NoMergeBase =>
                "Failed to find merge base with origin/main or origin/master"@,
        }
    }
}

impl ResolutionError {
    /// The error in words.
    pub fn message(&self) -> (text: String)
        ensures
            text@ == self@.message(),
    {
        match self {
            ResolutionError::InvalidRevision { revision } => {
                let mut text = String::from_str("Invalid git revision: ");
                text.append(revision.as_str());
                text
            },
            ResolutionError::NoMergeBase => String::from_str(
                "Failed to find merge base with origin/main or origin/master",
            ),
        }
    }
}

/// The upstream default branches, in the order in which they are tried.
pub open spec fn upstream_candidates() -> Seq<Seq<char>> {
    seq!["origin/main"@, "origin/master"@]
}

/// How many upstream candidates there are.
pub const UPSTREAM_COUNT: usize = 2;

/// The upstream candidate at `index`, if there is one.
pub fn upstream_candidate(index: usize) -> (name: Option<&'static str>)
    ensures
        match name {
            Some(name) => index < upstream_candidates().len() && name@
                == upstream_candidates()[index as int],
            None => index >= upstream_candidates().len(),
        },
{
    if index == 0 {
        Some("origin/main")
    } else if index == 1 {
        Some("origin/master")
    } else {
        None
    }
}

/// What the resolver is waiting for.
#[derive(Debug, PartialEq, Eq)]
pub enum Resolver {
    /// The outcome of verifying the explicit `revision`.
    Verifying { revision: String },
    /// The outcome of the merge-base lookup for upstream candidate `candidate`.
    Probing { candidate: usize },
}

/// The mathematical view of [`Resolver`]: texts and lists are sequences.
pub enum ResolverView {
    Verifying { revision: Seq<char> },
    Probing { candidate: nat },
}

impl View for Resolver {
    type V = ResolverView;

    open spec fn view(&self) -> ResolverView {
        match self {
            Resolver::Verifying { revision } => ResolverView::Verifying { revision: revision@ },
            Resolver::Probing { candidate } => ResolverView::Probing { candidate: *candidate as nat },
        }
    }
}

/// One step of the resolver.
#[derive(Debug, PartialEq, Eq)]
pub enum Resolution {
    /// `command` is to be run and its outcome handed to [`advance`] with `state`.
    Pending { state: Resolver, command: GitCommand },
    /// The base is known.
    Resolved { base: ResolvedBase },
    /// There is no base.
    Failed { error: ResolutionError },
}

/// The mathematical view of [`Resolution`]: texts and lists are sequences.
pub enum ResolutionView {
    Pending { state: ResolverView, command: GitCommandView },
    Resolved { base: Seq<char> },
    Failed { error: ResolutionErrorView },
}

impl View for Resolution {
    type V = ResolutionView;

    open spec fn view(&self) -> ResolutionView {
        match self {
            Resolution::Pending { state, command } => ResolutionView::Pending {
                state: state@,
                command: command@,
            },
            Resolution::Resolved { base } => ResolutionView::Resolved { base: base@ },
            Resolution::Failed { error } => ResolutionView::Failed { error: error@ },
        }
    }
}

/// The lookup for upstream candidate `candidate`, or failure when the
/// candidates are used up.
pub open spec fn probe_spec(candidate: nat) -> ResolutionView {
    if candidate < upstream_candidates().len() {
        ResolutionView::Pending {
            state: ResolverView::Probing { candidate },
            command: GitCommandView::MergeBase { upstream: upstream_candidates()[candidate as int] },
        }
    } else {
        ResolutionView::Failed { error: ResolutionErrorView::NoMergeBase }
    }
}

/// What the output `text` of a successful merge-base lookup resolves to: the
/// text without surrounding white space, which must not be empty.
pub open spec fn merge_base_spec(text: Seq<char>) -> ResolutionView {
    if trimmed(text).len() == 0 {
        ResolutionView::Failed { error: ResolutionErrorView::NoMergeBase }
    } else {
        ResolutionView::Resolved { base: trimmed(text) }
    }
}

/// The first step for the comparison `explicit`.
pub open spec fn begin_spec(explicit: Option<Seq<char>>) -> ResolutionView {
    match explicit {
        Some(revision) => ResolutionView::Pending {
            state: ResolverView::Verifying { revision },
            command: GitCommandView::VerifyRevision { revision },
        },
        None => probe_spec(0),
    }
}

/// The step that follows `state` once its command came to `outcome`.
pub open spec fn advance_spec(state: ResolverView, outcome: CommandOutcomeView) -> ResolutionView {
    match state {
        ResolverView::Verifying { revision } => if outcome.succeeded() {
            ResolutionView::Resolved { base: revision }
        } else {
            ResolutionView::Failed { error: ResolutionErrorView::InvalidRevision { revision } }
        },
        ResolverView::Probing { candidate } => if outcome.succeeded() {
            merge_base_spec(decoded(outcome.stdout()))
        } else {
            probe_spec(candidate + 1)
        },
    }
}

/// Where the resolver stands after the outcomes `outcomes`, fed in order for
/// as long as a command is pending.
pub open spec fn run_spec(step: ResolutionView, outcomes: Seq<CommandOutcomeView>) -> ResolutionView
    decreases outcomes.len(),
{
    match step {
        ResolutionView::Pending { state, .. } => if outcomes.len() > 0 {
            run_spec(advance_spec(state, outcomes.first()), outcomes.drop_first())
        } else {
            step
        },
        _ => step,
    }
}

/// The resolution of `explicit` in a repository whose `git` answers the
/// resolver's commands with `outcomes`, in order.
pub open spec fn resolve_spec(
    explicit: Option<Seq<char>>,
    outcomes: Seq<CommandOutcomeView>,
) -> ResolutionView {
    run_spec(begin_spec(explicit), outcomes)
}

/// Asks for the merge-base lookup of upstream candidate `candidate`.
pub fn probe(candidate: usize) -> (step: Resolution)
    ensures
        step@ == probe_spec(candidate as nat),
{
    match upstream_candidate(candidate) {
        Some(name) => Resolution::Pending {
            state: Resolver::Probing { candidate },
            command: GitCommand::MergeBase { upstream: String::from_str(name) },
        },
        None => Resolution::Failed { error: ResolutionError::NoMergeBase },
    }
}

/// Reads the base from the output of a successful merge-base lookup.
pub fn merge_base_from(text: &str) -> (step: Resolution)
    ensures
        step@ == merge_base_spec(text@),
{
    let revision = trim(text);
    if revision.as_str().unicode_len() == 0 {
        Resolution::Failed { error: ResolutionError::NoMergeBase }
    } else {
        Resolution::Resolved { base: ResolvedBase { revision } }
    }
}

/// Starts resolving: an explicit revision is verified first, and without one
/// the first upstream candidate is looked up.
pub fn begin(explicit: Option<String>) -> (step: Resolution)
    ensures
        step@ == begin_spec(explicit.deep_view()),
{
    match explicit {
        Some(revision) => {
            let command = GitCommand::VerifyRevision { revision: revision.clone() };
            Resolution::Pending { state: Resolver::Verifying { revision }, command }
        },
        None => probe(0),
    }
}

/// Takes the outcome of the pending command and says what follows.
///
/// A verified revision is the base as it stands. A lookup that exits with
/// status 0 ends the search, with its trimmed output as the base or, where
/// that is empty, with `NoMergeBase`; one that fails passes the turn to the
/// next candidate, and its failure is reported only when none is left.
pub fn advance(state: Resolver, outcome: &CommandOutcome) -> (step: Resolution)
    ensures
        step@ == advance_spec(state@, outcome@),
{
    match state {
        Resolver::Verifying { revision } => {
            if outcome.succeeded() {
                Resolution::Resolved { base: ResolvedBase { revision } }
            } else {
                Resolution::Failed { error: ResolutionError::InvalidRevision { revision } }
            }
        },
        Resolver::Probing { candidate } => {
            match outcome {
                CommandOutcome::Exited { code: Some(0), stdout } => {
                    let text = decode_lossy(stdout.as_slice());
                    merge_base_from(text.as_str())
                },
                _ => {
                    if candidate < UPSTREAM_COUNT {
                        probe(candidate + 1)
                    } else {
                        Resolution::Failed { error: ResolutionError::NoMergeBase }
                    }
                },
            }
        },
    }
}

/// An explicit revision that fails to verify is rejected as invalid,
/// whatever else the repository would answer: nothing further is asked.
pub proof fn unverified_revision_is_invalid(
    revision: Seq<char>,
    outcomes: Seq<CommandOutcomeView>,
)
    requires
        outcomes.len() > 0,
        !outcomes[0].succeeded(),
    ensures
        resolve_spec(Some(revision), outcomes) == (ResolutionView::Failed {
            error: ResolutionErrorView::InvalidRevision { revision },
        }),
{
    reveal_with_fuel(run_spec, 2);
}

/// An explicit revision that verifies is the base, exactly as it was given.
pub proof fn verified_revision_is_the_base(revision: Seq<char>, outcomes: Seq<CommandOutcomeView>)
    requires
        outcomes.len() > 0,
        outcomes[0].succeeded(),
    ensures
        resolve_spec(Some(revision), outcomes) == (ResolutionView::Resolved { base: revision }),
{
    reveal_with_fuel(run_spec, 2);
}

/// Where the lookup fails for every upstream candidate, there is no merge base.
pub proof fn no_upstream_no_merge_base(outcomes: Seq<CommandOutcomeView>)
    requires
        outcomes.len() >= upstream_candidates().len(),
        forall|i: int| 0 <= i < upstream_candidates().len() ==> !(#[trigger] outcomes[i]).succeeded(),
    ensures
        resolve_spec(None, outcomes) == (ResolutionView::Failed {
            error: ResolutionErrorView::NoMergeBase,
        }),
{
    reveal_with_fuel(run_spec, 3);
    let rest = outcomes.drop_first();
    assert(rest.first() == outcomes[1]);
    assert(!outcomes[0].succeeded());
    assert(!outcomes[1].succeeded());
}

/// Where the first candidate's lookup succeeds, its output decides and the
/// second candidate is never asked.
pub proof fn first_upstream_decides(outcomes: Seq<CommandOutcomeView>)
    requires
        outcomes.len() >= 1,
        outcomes[0].succeeded(),
    ensures
        resolve_spec(None, outcomes) == merge_base_spec(decoded(outcomes[0].stdout())),
{
    reveal_with_fuel(run_spec, 2);
}

/// Where the first candidate's lookup fails and the second one succeeds, the
/// result is what the second lookup's output resolves to. Nothing of the
/// first attempt remains in it.
pub proof fn fallback_upstream_decides(outcomes: Seq<CommandOutcomeView>)
    requires
        outcomes.len() >= 2,
        !outcomes[0].succeeded(),
        outcomes[1].succeeded(),
    ensures
        resolve_spec(None, outcomes) == merge_base_spec(decoded(outcomes[1].stdout())),
        resolve_spec(None, outcomes) == resolve_spec(
            None,
            seq![CommandOutcomeView::Unavailable, outcomes[1]],
        ),
{
    reveal_with_fuel(run_spec, 3);
    let rest = outcomes.drop_first();
    assert(rest.first() == outcomes[1]);
    let other = seq![CommandOutcomeView::Unavailable, outcomes[1]];
    assert(other.drop_first().first() == outcomes[1]);
}

} // verus!
