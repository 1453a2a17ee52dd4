//! The review requester: what is sent to the chat boundary and what its
//! answer amounts to.
//!
//! The request itself is made by the caller. This module fixes what it
//! carries and turns the boundary's answer into a review result or an error.

use crate::category::CommentCategory;
use crate::extract::ChangeSet;
use crate::money::Money;
use crate::text::decoded;
use vstd::prelude::*;
use vstd::string::*;

verus! {

/// The model that reviews the changes.
pub const MODEL: &'static str = "o3";

/// The instructions sent when the caller supplies none. They fix the
/// model's persona and two policies: the code is known to compile and to
/// pass its tests, and comments that only restate the code are unwanted.
pub const DEFAULT_INSTRUCTIONS: &'static str =
    r#"You are a helpful assistant that reviews code. The types of responses you can leave are "Nitpick", "LeftoverDebug", "UnnecessaryComment", "StyleIssue", "Question", "Issue", "Suggestion", "Idea". Also, redisplay the line of code that you are commenting on and tell the user where that line is in the file. Keep in mind that you will not see the entire file, only a diff that shows the sections that changed. This means that you may see variables and functions being used without seeing where they are defined. You are being invoked on code that compiles and passes all tests (you are simply a last pass sanity check).

Nitpick: Small style issues, small issues in performance (e.g. cloning a vector when passing by reference would work).
LeftoverDebug: Debug statements, println! statements, etc. that were probably left in by mistake.
UnnecessaryComment: Comments that are not needed, or explain something overly-obvious. Be very strict about this. Comments that explain what the code does are not needed. The only comments that are needed are ones provided as documentation for public parts of the API, and those that explain *why* the code is the way it is (rather than what it does).
StyleIssue: Style issues that do not fall under the other categories.
Question: Questions about the code, or questions that the user should answer before merging (e.g. have you updated the docs?).
Issue: Issues with the code that are not style related.
Suggestion: Suggestions for improvements.
Idea: Ideas for improvements.

Remember, the code you are reviewing has already been compiled without errors and passed all tests. There is no possibility that the code would not compile, and there are no errors in the code that would prevent it from compiling.
    "#;

/// One remark of the model.
#[derive(Debug, PartialEq, Eq)]
pub struct ReviewComment {
    pub category: CommentCategory,
    /// The file or section that the remark is about.
    pub location: String,
    /// The source line that the remark quotes.
    pub line_excerpt: String,
    /// The remark itself.
    pub body: String,
}

/// The mathematical view of [`ReviewComment`]: texts and lists are sequences.
pub struct ReviewCommentView {
    pub category: CommentCategory,
    pub location: Seq<char>,
    pub line_excerpt: Seq<char>,
    pub body: Seq<char>,
}

impl View for ReviewComment {
    type V = ReviewCommentView;

    open spec fn view(&self) -> ReviewCommentView {
        ReviewCommentView {
            category: self.category,
            location: self.location@,
            line_excerpt: self.line_excerpt@,
            body: self.body@,
        }
    }
}

/// The views of `comments`, in the same order.
pub open spec fn comment_views(comments: Seq<ReviewComment>) -> Seq<ReviewCommentView> {
    Seq::new(comments.len(), |i: int| comments[i]@)
}

/// The model's remarks in the order in which they were made, and what the
/// request cost.
#[derive(Debug, PartialEq, Eq)]
pub struct ReviewResult {
    pub comments: Vec<ReviewComment>,
    pub cost: Money,
}

/// The mathematical view of [`ReviewResult`]: texts and lists are sequences.
pub struct ReviewResultView {
    pub comments: Seq<ReviewCommentView>,
    pub cost: Money,
}

impl View for ReviewResult {
    type V = ReviewResultView;

    open spec fn view(&self) -> ReviewResultView {
        ReviewResultView { comments: comment_views(self.comments@), cost: self.cost }
    }
}

/// What is sent to the chat boundary: one system instruction and one user
/// content, for one model.
#[derive(Debug, PartialEq, Eq)]
pub struct ChatRequest {
    pub model: String,
    pub instructions: String,
    pub changes: String,
}

/// The mathematical view of [`ChatRequest`]: texts and lists are sequences.
pub struct ChatRequestView {
    pub model: Seq<char>,
    pub instructions: Seq<char>,
    pub changes: Seq<char>,
}

impl View for ChatRequest {
    type V = ChatRequestView;

    open spec fn view(&self) -> ChatRequestView {
        ChatRequestView {
            model: self.model@,
            instructions: self.instructions@,
            changes: self.changes@,
        }
    }
}

/// How the chat boundary let a request down.
#[derive(Clone, Copy, Debug, PartialEq, Eq, Structural)]
pub enum BoundaryFault {
    /// The request did not get through, or no answer came back.
    Transport,
    /// An answer came back that does not fit the declared schema.
    MalformedPayload,
}

/// Why there is no review.
#[derive(Debug, PartialEq, Eq)]
pub enum RequestError {
    /// The chat boundary failed in the way `fault` says; `detail` is its own
    /// account of it.
    BoundaryError { fault: BoundaryFault, detail: String },
}

/// The mathematical view of [`RequestError`]: texts and lists are sequences.
pub enum RequestErrorView {
    BoundaryError { fault: BoundaryFault, detail: Seq<char> },
}

impl View for RequestError {
    type V = RequestErrorView;

    open spec fn view(&self) -> RequestErrorView {
        match self {
            RequestError::BoundaryError { fault, detail } => RequestErrorView::BoundaryError {
                fault: *fault,
                detail: detail@,
            },
        }
    }
}

impl RequestErrorView {
    /// The error in words.
    pub open spec fn message(self) -> Seq<char> {
        match self {
            RequestErrorView::BoundaryError { fault: BoundaryFault::Transport, detail } =>
                "Review request failed: "@ + detail,
            RequestErrorView::BoundaryError { fault: BoundaryFault::MalformedPayload, detail } =>
                "Review response was malformed: "@ + detail,
        }
    }
}

impl RequestError {
    /// The error in words.
    pub fn message(&self) -> (text: String)
        ensures
            text@ == self@.message(),
    {
        match self {
            RequestError::BoundaryError { fault, detail } => {
                let mut text = match fault {
                    BoundaryFault::Transport => String::from_str("Review request failed: "),
                    BoundaryFault::MalformedPayload => String::from_str(
                        "Review response was malformed: ",
                    ),
                };
                text.append(detail.as_str());
                text
            },
        }
    }
}

/// What the chat boundary answered.
#[derive(Debug, PartialEq, Eq)]
pub enum ChatOutcome {
    /// The boundary failed in the way `fault` says; `detail` is its own
    /// account of it.
    Failed { fault: BoundaryFault, detail: String },
    /// The boundary answered with `comments`. `cost` is the cost of the usage
    /// so far, where the boundary can tell it.
    Answered { comments: Vec<ReviewComment>, cost: Option<Money> },
}

/// The mathematical view of [`ChatOutcome`]: texts and lists are sequences.
pub enum ChatOutcomeView {
    Failed { fault: BoundaryFault, detail: Seq<char> },
    Answered { comments: Seq<ReviewCommentView>, cost: Option<Money> },
}

impl View for ChatOutcome {
    type V = ChatOutcomeView;

    open spec fn view(&self) -> ChatOutcomeView {
        match self {
            ChatOutcome::Failed { fault, detail } => ChatOutcomeView::Failed {
                fault: *fault,
                detail: detail@,
            },
            ChatOutcome::Answered { comments, cost } => ChatOutcomeView::Answered {
                comments: comment_views(comments@),
                cost: *cost,
            },
        }
    }
}

/// The instructions in force: the caller's where there are any, which then
/// replace the default ones altogether.
pub open spec fn instructions_spec(custom: Option<Seq<char>>) -> Seq<char> {
    match custom {
        Some(text) => text,
        None => DEFAULT_INSTRUCTIONS@,
    }
}

/// The instructions in force: the caller's where there are any, which then
/// replace the default ones altogether.
pub fn instructions(custom: Option<String>) -> (text: String)
    ensures
        text@ == instructions_spec(custom.deep_view()),
{
    match custom {
        Some(text) => text,
        None => String::from_str(DEFAULT_INSTRUCTIONS),
    }
}

/// The request that puts `changes` before the model under `instructions`.
pub open spec fn request_spec(changes: Seq<u8>, instructions: Seq<char>) -> ChatRequestView {
    ChatRequestView { model: MODEL@, instructions, changes: decoded(changes) }
}

/// Packages the changes and the instructions into the one request of an
/// invocation.
pub fn compose_request(changes: &ChangeSet, instructions: String) -> (request: ChatRequest)
    ensures
        request@ == request_spec(changes@, instructions@),
{
    ChatRequest { model: String::from_str(MODEL), instructions, changes: changes.text() }
}

/// The cost to display: the boundary's figure, or nothing where it has none.
pub open spec fn cost_or_zero(cost: Option<Money>) -> Money {
    match cost {
        Some(cost) => cost,
        None => Money { microcents: 0 },
    }
}

/// What the boundary's answer amounts to.
pub open spec fn conclude_spec(
    outcome: ChatOutcomeView,
) -> Result<ReviewResultView, RequestErrorView> {
    match outcome {
        ChatOutcomeView::Failed { fault, detail } => Err(
            RequestErrorView::BoundaryError { fault, detail },
        ),
        ChatOutcomeView::Answered { comments, cost } => Ok(
            ReviewResultView { comments, cost: cost_or_zero(cost) },
        ),
    }
}

/// A result of [`conclude`] with the review taken by its view.
pub open spec fn conclusion_view(
    result: Result<ReviewResult, RequestError>,
) -> Result<ReviewResultView, RequestErrorView> {
    match result {
        Ok(review) => Ok(review@),
        Err(error) => Err(error@),
    }
}

/// Turns the boundary's answer into the review result.
///
/// A failure of the boundary is a `BoundaryError` and leaves nothing to
/// render. An answer is kept as it came, comment for comment and in the same
/// order; a missing cost counts as zero.
pub fn conclude(outcome: ChatOutcome) -> (result: Result<ReviewResult, RequestError>)
    ensures
        conclusion_view(result) == conclude_spec(outcome@),
{
    match outcome {
        ChatOutcome::Failed { fault, detail } => Err(
            RequestError::BoundaryError { fault, detail },
        ),
        ChatOutcome::Answered { comments, cost } => {
            let cost = match cost {
                Some(cost) => cost,
                None => Money::zero(),
            };
            Ok(ReviewResult { comments, cost })
        },
    }
}

} // verus!
