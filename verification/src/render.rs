//! The result renderer: the report that is printed for a review.
//!
//! The report is a header with the cost estimate followed by one block per
//! comment, in the order in which the comments were received. Nothing is
//! filtered, sorted, merged or cut.

use crate::category::{reset, reset_chars};
use crate::money::{dollars_and_cents, rounded_cents, Money};
use crate::review::{ReviewComment, ReviewCommentView, ReviewResult, ReviewResultView};
use crate::text::{padding, spaces, trim, trimmed};
use vstd::prelude::*;
use vstd::string::*;

verus! {

/// The header: a title line with the cost, an underline and a blank line.
pub open spec fn header_spec(cost: Money) -> Seq<char> {
    "Code Review Results [$"@ + dollars_and_cents(rounded_cents(cost.microcents as nat)) + "]\n"@
        + "===================\n\n"@
}

/// The first line of a block: the bracketed category and the location, both
/// in the category's color.
pub open spec fn tag_line_spec(comment: ReviewCommentView) -> Seq<char> {
    comment.category.color_chars() + "["@ + comment.category.name_chars() + "] in: "@
        + comment.location + reset_chars() + "\n"@
}

/// The second line of a block: the quoted line without surrounding white
/// space, indented by the length of the category's name and one more.
pub open spec fn excerpt_line_spec(comment: ReviewCommentView) -> Seq<char> {
    padding(comment.category.indent_spec()) + "line: "@ + trimmed(comment.line_excerpt) + "\n"@
}

/// The end of a block: the remark in the category's color, and a blank line.
pub open spec fn body_lines_spec(comment: ReviewCommentView) -> Seq<char> {
    comment.category.color_chars() + comment.body + reset_chars() + "\n\n"@
}

/// The block that is printed for one comment.
pub open spec fn block_spec(comment: ReviewCommentView) -> Seq<char> {
    tag_line_spec(comment) + excerpt_line_spec(comment) + body_lines_spec(comment)
}

/// The blocks of `comments`, one after the other.
pub open spec fn blocks_spec(comments: Seq<ReviewCommentView>) -> Seq<char>
    decreases comments.len(),
{
    if comments.len() == 0 {
        Seq::empty()
    } else {
        blocks_spec(comments.drop_last()) + block_spec(comments.last())
    }
}

/// The whole report.
pub open spec fn render_spec(result: ReviewResultView) -> Seq<char> {
    header_spec(result.cost) + blocks_spec(result.comments)
}

/// Where in the report the block of comment `index` starts. For the number
/// of comments it is where the report ends.
pub open spec fn block_start(result: ReviewResultView, index: int) -> int {
    (header_spec(result.cost).len() + blocks_spec(result.comments.take(index)).len()) as int
}

/// Writes the header for `cost`.
pub fn render_header(cost: Money) -> (text: String)
    ensures
        text@ == header_spec(cost),
{
    let mut text = String::from_str("Code Review Results [$");
    let amount = cost.format();
    text.append(amount.as_str());
    text.append("]\n");
    text.append("===================\n\n");
    text
}

/// Writes the block for `comment`.
pub fn render_comment(comment: &ReviewComment) -> (text: String)
    ensures
        text@ == block_spec(comment@),
{
    let color = comment.category.color();
    let mut text = String::from_str(color);
    text.append("[");
    text.append(comment.category.name());
    text.append("] in: ");
    text.append(comment.location.as_str());
    text.append(reset());
    text.append("\n");
    assert(text@ == tag_line_spec(comment@));
    let indent = spaces(comment.category.indent());
    let excerpt = trim(comment.line_excerpt.as_str());
    text.append(indent.as_str());
    text.append("line: ");
    text.append(excerpt.as_str());
    text.append("\n");
    assert(text@ == tag_line_spec(comment@) + excerpt_line_spec(comment@));
    text.append(color);
    text.append(comment.body.as_str());
    text.append(reset());
    text.append("\n\n");
    assert(text@ == block_spec(comment@));
    text
}

/// Writes the report for `result`: the header, then the block of every
/// comment in the order of `result.comments`.
pub fn render(result: &ReviewResult) -> (text: String)
    ensures
        text@ == render_spec(result@),
{
    let mut text = render_header(result.cost);
    let count = result.comments.len();
    let mut index: usize = 0;
    assert(result@.comments.take(0) =~= Seq::empty());
    while index < count
        invariant
            index <= count,
            count == result.comments@.len(),
            text@ == header_spec(result.cost) + blocks_spec(result@.comments.take(index as int)),
        decreases count - index,
    {
        let block = render_comment(&result.comments[index]);
        proof {
            let before = result@.comments.take(index as int);
            let after = result@.comments.take(index + 1);
            assert(after.drop_last() =~= before);
            assert(after.last() == result.comments@[index as int]@);
        }
        text.append(block.as_str());
        index = index + 1;
    }
    assert(result@.comments.take(count as int) =~= result@.comments);
    text
}

/// The blocks of two runs of comments, one after the other, are the blocks of
/// the joined run.
pub proof fn blocks_of_joined_comments(
    first: Seq<ReviewCommentView>,
    second: Seq<ReviewCommentView>,
)
    ensures
        blocks_spec(first + second) == blocks_spec(first) + blocks_spec(second),
    decreases second.len(),
{
    if second.len() == 0 {
        assert(first + second =~= first);
        assert(blocks_spec(first) + blocks_spec(second) =~= blocks_spec(first));
    } else {
        blocks_of_joined_comments(first, second.drop_last());
        assert((first + second).drop_last() =~= first + second.drop_last());
        assert((first + second).last() == second.last());
        assert(blocks_spec(first + second) =~= blocks_spec(first) + blocks_spec(second));
    }
}

/// No block is empty.
pub proof fn block_is_not_empty(comment: ReviewCommentView)
    ensures
        block_spec(comment).len() > 0,
{
    reveal_strlit("\n\n");
}

/// The report keeps the order of the comments and leaves none out: the block
/// of each comment stands in the report, whole, right where the block before
/// it ends. The first block starts where the header ends and the last one
/// ends the report.
pub proof fn blocks_stand_in_order(result: ReviewResultView, index: int)
    requires
        0 <= index < result.comments.len(),
    ensures
        block_start(result, 0) == header_spec(result.cost).len(),
        block_start(result, result.comments.len() as int) == render_spec(result).len(),
        block_start(result, index) < block_start(result, index + 1) <= render_spec(result).len(),
        render_spec(result).subrange(block_start(result, index), block_start(result, index + 1))
            == block_spec(result.comments[index]),
{
    let comments = result.comments;
    let header = header_spec(result.cost);
    let before = comments.take(index);
    let upto = comments.take(index + 1);
    let after = comments.skip(index + 1);
    assert(comments.take(0) =~= Seq::empty());
    assert(comments.take(comments.len() as int) =~= comments);
    assert(upto.drop_last() =~= before);
    assert(upto.last() == comments[index]);
    assert(comments =~= upto + after);
    blocks_of_joined_comments(upto, after);
    block_is_not_empty(comments[index]);
    assert(render_spec(result) =~= header + blocks_spec(before) + block_spec(comments[index])
        + blocks_spec(after));
    assert(render_spec(result).subrange(block_start(result, index), block_start(result, index + 1))
        =~= block_spec(comments[index]));
}

/// A later comment's block starts no earlier than an earlier one's ends.
pub proof fn later_blocks_start_later(result: ReviewResultView, earlier: int, later: int)
    requires
        0 <= earlier < later < result.comments.len(),
    ensures
        block_start(result, earlier + 1) <= block_start(result, later),
    decreases later - earlier,
{
    if earlier + 1 < later {
        later_blocks_start_later(result, earlier, later - 1);
        blocks_stand_in_order(result, later - 1);
    }
}

/// The report depends on nothing but the review result: results with the
/// same comments and the same cost have the same report.
pub proof fn equal_results_render_equally(first: ReviewResult, second: ReviewResult)
    requires
        first@ == second@,
    ensures
        render_spec(first@) == render_spec(second@),
{
}

} // verus!
