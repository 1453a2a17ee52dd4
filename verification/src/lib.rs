//! Change-set resolution and review rendering for a command-line code review tool.
//!
//! The tool diffs the current head against a base revision, sends the diff to
//! a chat model and prints the model's remarks. This library holds every
//! decision of that pipeline and performs none of its effects: it says which
//! `git` command to run and what to send, and it is told what came back.
//!
//! - [`git`]: the commands asked of `git` and the outcomes reported back.
//! - [`resolve`]: the base revision, explicit or found by merge base.
//! - [`extract`]: the change set read from the outcome of the diff.
//! - [`review`]: the request to the chat boundary and what its answer amounts to.
//! - [`render`]: the printed report.
//! - [`session`]: one invocation, step by step.
//! - [`category`], [`money`], [`text`]: the comment categories, the cost
//!   estimate and the text helpers that the others build on.
//!
//! Every function is verified against its contract but one: the call of
//! `String::from_utf8_lossy` in `text`, whose contract is assumed.

pub mod category;
pub mod extract;
pub mod git;
pub mod money;
pub mod render;
pub mod resolve;
pub mod review;
pub mod session;
pub mod text;
