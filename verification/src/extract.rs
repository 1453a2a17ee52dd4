//! The diff extractor: from the outcome of `git diff` to the change set under review.

use crate::git::{CommandOutcome, CommandOutcomeView, GitCommand, GitCommandView};
use crate::resolve::ResolvedBase;
use crate::text::{decode_lossy, decoded, signed_decimal, signed_digits};
use vstd::prelude::*;
use vstd::string::*;

verus! {

/// Why there is no change set.
#[derive(Clone, Copy, Debug, PartialEq, Eq, Structural)]
pub enum ExtractionError {
    /// The diff did not run, or did not exit with status 0. `code` is its exit
    /// code where it has one.
    SubprocessFailure { code: Option<i32> },
    /// The diff ran and found no changes.
    EmptyChangeSet,
}

impl ExtractionError {
    /// The error in words.
    pub open spec fn message_spec(self) -> Seq<char> {
        match self {
            ExtractionError::SubprocessFailure { code: Some(code) } =>
                "`git diff` failed with status: exit status: "@ + signed_digits(code as int),
            ExtractionError::SubprocessFailure { code: None } => "Failed to run `git diff`"@,
            ExtractionError::EmptyChangeSet => "No changes found"@,
        }
    }

    /// The error in words.
    pub fn message(&self) -> (text: String)
        ensures
            text@ == self.message_spec(),
    {
        match self {
            ExtractionError::SubprocessFailure { code: Some(code) } => {
                let mut text = String::from_str("`git diff` failed with status: exit status: ");
                let number = signed_decimal(*code);
                text.append(number.as_str());
                text
            },
            ExtractionError::SubprocessFailure { code: None } => String::from_str(
                "Failed to run `git diff`",
            ),
            ExtractionError::EmptyChangeSet => String::from_str("No changes found"),
        }
    }
}

/// The unified diff between the resolved base and the current head, as the
/// bytes that `git` wrote. It is never empty.
#[derive(Debug, PartialEq, Eq)]
pub struct ChangeSet {
    raw: Vec<u8>,
}

impl View for ChangeSet {
    type V = Seq<u8>;

    closed spec fn view(&self) -> Seq<u8> {
        self.raw@
    }
}

impl ChangeSet {
    #[verifier::type_invariant]
    spec fn holds_changes(&self) -> bool {
        self.raw@.len() > 0
    }

    /// The diff as it was written.
    pub fn bytes(&self) -> (bytes: &[u8])
        ensures
            bytes@ == self@,
            bytes@.len() > 0,
    {
        proof {
            use_type_invariant(self);
        }
        self.raw.as_slice()
    }

    /// The diff as text. Bytes that are not valid UTF-8 are replaced, never
    /// rejected.
    pub fn text(&self) -> (text: String)
        ensures
            text@ == decoded(self@),
    {
        decode_lossy(self.raw.as_slice())
    }
}

/// The command that produces the diff between `base` and the current head.
pub fn diff_command(base: ResolvedBase) -> (command: GitCommand)
    ensures
        command@ == (GitCommandView::Diff { base: base@ }),
{
    GitCommand::Diff { base: base.revision }
}

/// What the outcome of the diff command amounts to: a failure of the
/// subprocess, an empty change set, or the bytes of the diff.
pub open spec fn extract_spec(outcome: CommandOutcomeView) -> Result<Seq<u8>, ExtractionError> {
    if !outcome.succeeded() {
        Err(ExtractionError::SubprocessFailure { code: outcome.exit_code() })
    } else if outcome.stdout().len() == 0 {
        Err(ExtractionError::EmptyChangeSet)
    } else {
        Ok(outcome.stdout())
    }
}

/// A result of [`extract_diff`] with the change set taken by its view.
pub open spec fn extraction_view(
    result: Result<ChangeSet, ExtractionError>,
) -> Result<Seq<u8>, ExtractionError> {
    match result {
        Ok(changes) => Ok(changes@),
        Err(error) => Err(error),
    }
}

/// Reads the change set from the outcome of the diff command.
///
/// Anything but exit status 0 is a `SubprocessFailure`; status 0 with nothing
/// on standard output is `EmptyChangeSet`; otherwise the output is the change
/// set, byte for byte.
pub fn extract_diff(outcome: CommandOutcome) -> (result: Result<ChangeSet, ExtractionError>)
    ensures
        extraction_view(result) == extract_spec(outcome@),
{
    match outcome {
        CommandOutcome::Unavailable => Err(ExtractionError::SubprocessFailure { code: None }),
        CommandOutcome::Exited { code, stdout } => {
            let clean = match code {
                Some(c) => c == 0,
                None => false,
            };
            if !clean {
                Err(ExtractionError::SubprocessFailure { code })
            } else if stdout.len() == 0 {
                Err(ExtractionError::EmptyChangeSet)
            } else {
                Ok(ChangeSet { raw: stdout })
            }
        },
    }
}

/// A diff that runs and writes nothing, as it does where the base is the
/// head itself, yields `EmptyChangeSet`.
pub proof fn no_output_is_empty_change_set(outcome: CommandOutcomeView)
    requires
        outcome.succeeded(),
        outcome.stdout().len() == 0,
    ensures
        extract_spec(outcome) == Err::<Seq<u8>, ExtractionError>(ExtractionError::EmptyChangeSet),
{
}

/// A change set is never empty: every `Ok` of the extractor holds at least one byte.
pub proof fn extracted_changes_are_nonempty(outcome: CommandOutcomeView)
    ensures
        extract_spec(outcome) matches Ok(bytes) ==> bytes.len() > 0,
{
}

} // verus!
