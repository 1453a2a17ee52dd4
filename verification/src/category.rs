//! The closed set of review comment categories and their presentation.

use vstd::prelude::*;

verus! {

/// The kind of remark made about a change.
#[derive(Clone, Copy, Debug, PartialEq, Eq, Structural)]
pub enum CommentCategory {
    Nitpick,
    LeftoverDebug,
    UnnecessaryComment,
    StyleIssue,
    Question,
    Issue,
    Suggestion,
    Idea,
}

impl CommentCategory {
    /// The category's name as it is printed between the brackets of a tag.
    pub open spec fn name_chars(self) -> Seq<char> {
        match self {
            CommentCategory::Nitpick => "Nitpick"@,
            CommentCategory::LeftoverDebug => "LeftoverDebug"@,
            CommentCategory::UnnecessaryComment => "UnnecessaryComment"@,
            CommentCategory::StyleIssue => "StyleIssue"@,
            CommentCategory::Question => "Question"@,
            CommentCategory::Issue => "Issue"@,
            CommentCategory::Suggestion => "Suggestion"@,
            CommentCategory::Idea => "Idea"@,
        }
    }

    /// The category's name as it is printed between the brackets of a tag.
    pub fn name(self) -> (s: &'static str)
        ensures
            s@ == self.name_chars(),
    {
        match self {
            CommentCategory::Nitpick => "Nitpick",
            CommentCategory::LeftoverDebug => "LeftoverDebug",
            CommentCategory::UnnecessaryComment => "UnnecessaryComment",
            CommentCategory::StyleIssue => "StyleIssue",
            CommentCategory::Question => "Question",
            CommentCategory::Issue => "Issue",
            CommentCategory::Suggestion => "Suggestion",
            CommentCategory::Idea => "Idea",
        }
    }

    /// The escape sequence that switches the terminal to the category's color.
    pub open spec fn color_chars(self) -> Seq<char> {
        match self {
            CommentCategory::Nitpick => "\x1b[38;5;208m"@,
            CommentCategory::LeftoverDebug => "\x1b[38;5;9m"@,
            CommentCategory::UnnecessaryComment => "\x1b[38;5;8m"@,
            CommentCategory::StyleIssue => "\x1b[38;5;226m"@,
            CommentCategory::Question => "\x1b[38;5;39m"@,
            CommentCategory::Issue => "\x1b[38;5;196m"@,
            CommentCategory::Suggestion => "\x1b[38;5;34m"@,
            CommentCategory::Idea => "\x1b[38;5;141m"@,
        }
    }

    /// The color in which the category is displayed: orange for a nitpick,
    /// bright red for leftover debugging, gray for an unnecessary comment,
    /// yellow for a style issue, blue for a question, red for an issue, green
    /// for a suggestion and purple for an idea.
    pub fn color(self) -> (s: &'static str)
        ensures
            s@ == self.color_chars(),
    {
        match self {
            CommentCategory::Nitpick => "\x1b[38;5;208m",
            CommentCategory::LeftoverDebug => "\x1b[38;5;9m",
            CommentCategory::UnnecessaryComment => "\x1b[38;5;8m",
            CommentCategory::StyleIssue => "\x1b[38;5;226m",
            CommentCategory::Question => "\x1b[38;5;39m",
            CommentCategory::Issue => "\x1b[38;5;196m",
            CommentCategory::Suggestion => "\x1b[38;5;34m",
            CommentCategory::Idea => "\x1b[38;5;141m",
        }
    }

    /// How far the excerpt line of a comment is indented: the length of the
    /// category's name and one more.
    pub open spec fn indent_spec(self) -> nat {
        self.name_chars().len() + 1
    }

    /// The length of the category's name.
    pub fn name_len(self) -> (n: usize)
        ensures
            n == self.name_chars().len(),
            4 <= n <= 18,
    {
        proof {
            reveal_strlit("Nitpick");
            reveal_strlit("LeftoverDebug");
            reveal_strlit("UnnecessaryComment");
            reveal_strlit("StyleIssue");
            reveal_strlit("Question");
            reveal_strlit("Issue");
            reveal_strlit("Suggestion");
            reveal_strlit("Idea");
        }
        match self {
            CommentCategory::Nitpick => 7,
            CommentCategory::LeftoverDebug => 13,
            CommentCategory::UnnecessaryComment => 18,
            CommentCategory::StyleIssue => 10,
            CommentCategory::Question => 8,
            CommentCategory::Issue => 5,
            CommentCategory::Suggestion => 10,
            CommentCategory::Idea => 4,
        }
    }

    /// How far the excerpt line of a comment is indented.
    pub fn indent(self) -> (width: usize)
        ensures
            width == self.indent_spec(),
    {
        self.name_len() + 1
    }
}

/// The escape sequence that ends a colored stretch.
pub open spec fn reset_chars() -> Seq<char> {
    "\x1b[0m"@
}

/// The escape sequence that ends a colored stretch.
pub fn reset() -> (s: &'static str)
    ensures
        s@ == reset_chars(),
{
    "\x1b[0m"
}

/// Two categories' indentations differ by exactly as much as the lengths of
/// their names.
pub proof fn indent_follows_name_length(a: CommentCategory, b: CommentCategory)
    ensures
        a.indent_spec() - b.indent_spec() == a.name_chars().len() - b.name_chars().len(),
        a.name_chars().len() == b.name_chars().len() <==> a.indent_spec() == b.indent_spec(),
{
}

} // verus!
