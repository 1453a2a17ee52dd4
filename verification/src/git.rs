//! The version-control subprocess boundary: what is asked of `git` and what comes back.
//!
//! Nothing here runs a process. A [`GitCommand`] says which invocation is
//! wanted; the caller runs it and reports a [`CommandOutcome`].

use crate::text::{decimal, decimal_digits};
use vstd::prelude::*;
use vstd::string::*;

verus! {

/// Lines of context asked for around each hunk of a diff.
pub const CONTEXT_LINES: u32 = 30;

/// The name by which the current working head is passed to `git`.
pub open spec fn head_ref() -> Seq<char> {
    "HEAD"@
}

/// The flag that asks `git diff` for [`CONTEXT_LINES`] lines of context.
pub open spec fn context_flag_chars() -> Seq<char> {
    "-U"@ + decimal_digits(CONTEXT_LINES as nat)
}

/// One invocation of `git`.
#[derive(Debug, PartialEq, Eq)]
pub enum GitCommand {
    /// Check that `revision` names a revision of the repository.
    VerifyRevision { revision: String },
    /// Find the common ancestor of `upstream` and the current head.
    MergeBase { upstream: String },
    /// Produce the unified diff between `base` and the current head.
    Diff { base: String },
}

/// The mathematical view of [`GitCommand`]: texts and lists are sequences.
pub enum GitCommandView {
    VerifyRevision { revision: Seq<char> },
    MergeBase { upstream: Seq<char> },
    Diff { base: Seq<char> },
}

impl View for GitCommand {
    type V = GitCommandView;

    open spec fn view(&self) -> GitCommandView {
        match self {
            GitCommand::VerifyRevision { revision } => GitCommandView::VerifyRevision {
                revision: revision@,
            },
            GitCommand::MergeBase { upstream } => GitCommandView::MergeBase { upstream: upstream@ },
            GitCommand::Diff { base } => GitCommandView::Diff { base: base@ },
        }
    }
}

impl GitCommandView {
    /// The argument vector handed to `git`, program name excluded.
    pub open spec fn args(self) -> Seq<Seq<char>> {
        match self {
            GitCommandView::VerifyRevision { revision } => seq![
                "rev-parse"@,
                "--verify"@,
                revision,
            ],
            GitCommandView::MergeBase { upstream } => seq!["merge-base"@, upstream, head_ref()],
            GitCommandView::Diff { base } => seq!["diff"@, context_flag_chars(), base, head_ref()],
        }
    }
}

/// The flag that asks `git diff` for [`CONTEXT_LINES`] lines of context.
pub fn context_flag() -> (flag: String)
    ensures
        flag@ == context_flag_chars(),
{
    let mut flag = String::from_str("-U");
    let width = decimal(CONTEXT_LINES as u128);
    flag.append(width.as_str());
    flag
}

impl GitCommand {
    /// The argument vector handed to `git`, program name excluded.
    pub fn args(&self) -> (args: Vec<String>)
        ensures
            args.deep_view() == self@.args(),
    {
        let mut args: Vec<String> = Vec::new();
        match self {
            GitCommand::VerifyRevision { revision } => {
                args.push(String::from_str("rev-parse"));
                args.push(String::from_str("--verify"));
                args.push(revision.clone());
            },
            GitCommand::MergeBase { upstream } => {
                args.push(String::from_str("merge-base"));
                args.push(upstream.clone());
                args.push(String::from_str("HEAD"));
            },
            GitCommand::Diff { base } => {
                args.push(String::from_str("diff"));
                args.push(context_flag());
                args.push(base.clone());
                args.push(String::from_str("HEAD"));
            },
        }
        assert(args.deep_view() =~= self@.args());
        args
    }
}

/// What running a [`GitCommand`] came to. Standard error is not part of it.
#[derive(Debug, PartialEq, Eq)]
pub enum CommandOutcome {
    /// The process could not be started or waited for.
    Unavailable,
    /// The process ran to its end with exit code `code` (`None` when it was
    /// ended by a signal) and wrote `stdout` to standard output.
    Exited { code: Option<i32>, stdout: Vec<u8> },
}

/// The mathematical view of [`CommandOutcome`]: texts and lists are sequences.
pub enum CommandOutcomeView {
    Unavailable,
    Exited { code: Option<i32>, stdout: Seq<u8> },
}

impl View for CommandOutcome {
    type V = CommandOutcomeView;

    open spec fn view(&self) -> CommandOutcomeView {
        match self {
            CommandOutcome::Unavailable => CommandOutcomeView::Unavailable,
            CommandOutcome::Exited { code, stdout } => CommandOutcomeView::Exited {
                code: *code,
                stdout: stdout@,
            },
        }
    }
}

impl CommandOutcomeView {
    /// The process ran and exited with status 0.
    pub open spec fn succeeded(self) -> bool {
        self matches CommandOutcomeView::Exited { code, .. } && code == Some(0i32)
    }

    /// The exit code, where the process ran and exited by itself.
    pub open spec fn exit_code(self) -> Option<i32> {
        match self {
            CommandOutcomeView::Unavailable => None,
            CommandOutcomeView::Exited { code, .. } => code,
        }
    }

    /// What the process wrote to standard output; empty where it did not run.
    pub open spec fn stdout(self) -> Seq<u8> {
        match self {
            CommandOutcomeView::Unavailable => Seq::empty(),
            CommandOutcomeView::Exited { stdout, .. } => stdout,
        }
    }
}

impl CommandOutcome {
    /// Whether the process ran and exited with status 0.
    pub fn succeeded(&self) -> (b: bool)
        ensures
            b == self@.succeeded(),
    {
        match self {
            CommandOutcome::Unavailable => false,
            CommandOutcome::Exited { code, .. } => match code {
                Some(c) => *c == 0,
                None => false,
            },
        }
    }
}

} // verus!
