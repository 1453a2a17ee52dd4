//! Text helpers: whitespace trimming, padding, decimal digits and permissive decoding.

use vstd::prelude::*;
use vstd::string::*;
use vstd::utf8::{decode_utf8, valid_utf8};

verus! {

/// Whether `c` is white space: the code points that carry the Unicode
/// `White_Space` property.
pub open spec fn is_whitespace_char(c: char) -> bool {
    let n = c as u32;
    ||| 0x09 <= n <= 0x0D
    ||| n == 0x20
    ||| n == 0x85
    ||| n == 0xA0
    ||| n == 0x1680
    ||| 0x2000 <= n <= 0x200A
    ||| n == 0x2028
    ||| n == 0x2029
    ||| n == 0x202F
    ||| n == 0x205F
    ||| n == 0x3000
}

/// Whether `c` is white space.
pub fn is_whitespace(c: char) -> (b: bool)
    ensures
        b == is_whitespace_char(c),
{
    let n: u32 = c as u32;
    (0x09 <= n && n <= 0x0D) || n == 0x20 || n == 0x85 || n == 0xA0 || n == 0x1680 || (0x2000 <= n
        && n <= 0x200A) || n == 0x2028 || n == 0x2029 || n == 0x202F || n == 0x205F || n == 0x3000
}

/// `s` without its leading white space.
pub open spec fn trim_start(s: Seq<char>) -> Seq<char>
    decreases s.len(),
{
    if s.len() > 0 && is_whitespace_char(s.first()) {
        trim_start(s.drop_first())
    } else {
        s
    }
}

/// `s` without its trailing white space.
pub open spec fn trim_end(s: Seq<char>) -> Seq<char>
    decreases s.len(),
{
    if s.len() > 0 && is_whitespace_char(s.last()) {
        trim_end(s.drop_last())
    } else {
        s
    }
}

/// `s` without its leading and trailing white space.
pub open spec fn trimmed(s: Seq<char>) -> Seq<char> {
    trim_end(trim_start(s))
}

/// Removes leading and trailing white space.
pub fn trim(s: &str) -> (t: String)
    ensures
        t@ == trimmed(s@),
{
    let n = s.unicode_len();
    let mut start: usize = 0;
    assert(s@.subrange(0, n as int) == s@);
    while start < n && is_whitespace(s.get_char(start))
        invariant
            start <= n,
            n == s@.len(),
            trim_start(s@) == trim_start(s@.subrange(start as int, n as int)),
        decreases n - start,
    {
        proof {
            let rest = s@.subrange(start as int, n as int);
            assert(rest.first() == s@[start as int]);
            assert(rest.drop_first() == s@.subrange(start + 1, n as int));
        }
        start = start + 1;
    }
    let mut end: usize = n;
    while end > start && is_whitespace(s.get_char(end - 1))
        invariant
            start <= end <= n,
            n == s@.len(),
            trim_end(s@.subrange(start as int, n as int)) == trim_end(
                s@.subrange(start as int, end as int),
            ),
        decreases end - start,
    {
        proof {
            let rest = s@.subrange(start as int, end as int);
            assert(rest.last() == s@[end - 1]);
            assert(rest.drop_last() == s@.subrange(start as int, end - 1));
        }
        end = end - 1;
    }
    proof {
        let head = s@.subrange(start as int, n as int);
        assert(trim_start(head) == head) by {
            if head.len() > 0 {
                assert(head.first() == s@[start as int]);
            }
        }
        let body = s@.subrange(start as int, end as int);
        assert(trim_end(body) == body) by {
            if body.len() > 0 {
                assert(body.last() == s@[end - 1]);
            }
        }
    }
    String::from_str(s.substring_char(start, end))
}

/// Text that is neither empty nor blank keeps a first and a last character
/// through trimming, and neither is white space.
pub proof fn trimmed_has_no_surrounding_whitespace(s: Seq<char>)
    ensures
        trimmed(s).len() > 0 ==> !is_whitespace_char(trimmed(s).first()) && !is_whitespace_char(
            trimmed(s).last(),
        ),
{
    trim_start_keeps_a_suffix(s);
    trim_end_keeps_a_prefix(trim_start(s));
}

/// Trimming cuts white space off the two ends and touches nothing between
/// them: the result is a stretch of the text, and all that lies before or
/// after it is white space.
pub proof fn trimmed_is_a_stretch(s: Seq<char>) -> (bounds: (int, int))
    ensures
        0 <= bounds.0 <= bounds.1 <= s.len(),
        trimmed(s) == s.subrange(bounds.0, bounds.1),
        forall|i: int| 0 <= i < bounds.0 ==> is_whitespace_char(#[trigger] s[i]),
        forall|i: int| bounds.1 <= i < s.len() ==> is_whitespace_char(#[trigger] s[i]),
{
    let start = trim_start_keeps_a_suffix(s);
    let rest = trim_start(s);
    let kept = trim_end_keeps_a_prefix(rest);
    assert(rest.subrange(0, kept) =~= s.subrange(start, start + kept));
    assert forall|i: int| start + kept <= i < s.len() implies is_whitespace_char(
        #[trigger] s[i],
    ) by {
        assert(s[i] == rest[i - start]);
    }
    (start, start + kept)
}

proof fn trim_start_keeps_a_suffix(s: Seq<char>) -> (start: int)
    ensures
        0 <= start <= s.len(),
        trim_start(s) == s.subrange(start, s.len() as int),
        forall|i: int| 0 <= i < start ==> is_whitespace_char(#[trigger] s[i]),
        trim_start(s).len() > 0 ==> !is_whitespace_char(trim_start(s).first()),
    decreases s.len(),
{
    if s.len() > 0 && is_whitespace_char(s.first()) {
        let inner = trim_start_keeps_a_suffix(s.drop_first());
        assert(s.drop_first().subrange(inner, s.len() - 1) =~= s.subrange(
            inner + 1,
            s.len() as int,
        ));
        assert forall|i: int| 0 <= i < inner + 1 implies is_whitespace_char(#[trigger] s[i]) by {
            if i > 0 {
                assert(s[i] == s.drop_first()[i - 1]);
            }
        }
        inner + 1
    } else {
        assert(s.subrange(0, s.len() as int) =~= s);
        0
    }
}

proof fn trim_end_keeps_a_prefix(s: Seq<char>) -> (end: int)
    ensures
        0 <= end <= s.len(),
        trim_end(s) == s.subrange(0, end),
        forall|i: int| end <= i < s.len() ==> is_whitespace_char(#[trigger] s[i]),
        trim_end(s).len() > 0 ==> !is_whitespace_char(trim_end(s).last()),
        trim_end(s).len() > 0 ==> trim_end(s).first() == s.first(),
    decreases s.len(),
{
    if s.len() > 0 && is_whitespace_char(s.last()) {
        let inner = trim_end_keeps_a_prefix(s.drop_last());
        assert(s.drop_last().subrange(0, inner) =~= s.subrange(0, inner));
        assert forall|i: int| inner <= i < s.len() implies is_whitespace_char(#[trigger] s[i]) by {
            if i < s.len() - 1 {
                assert(s[i] == s.drop_last()[i]);
            }
        }
        inner
    } else {
        assert(s.subrange(0, s.len() as int) =~= s);
        s.len() as int
    }
}

/// `count` spaces.
pub open spec fn padding(count: nat) -> Seq<char> {
    Seq::new(count, |i: int| ' ')
}

/// A string of `count` spaces.
pub fn spaces(count: usize) -> (s: String)
    ensures
        s@ == padding(count as nat),
{
    let mut s = String::new();
    let mut done: usize = 0;
    while done < count
        invariant
            done <= count,
            s@ == padding(done as nat),
        decreases count - done,
    {
        proof {
            reveal_strlit(" ");
            assert(padding(done as nat) + " "@ == padding((done + 1) as nat));
        }
        s.append(" ");
        done = done + 1;
    }
    s
}

/// The character that writes the digit `d`.
pub open spec fn digit_char(d: nat) -> char {
    if d == 0 {
        '0'
    } else if d == 1 {
        '1'
    } else if d == 2 {
        '2'
    } else if d == 3 {
        '3'
    } else if d == 4 {
        '4'
    } else if d == 5 {
        '5'
    } else if d == 6 {
        '6'
    } else if d == 7 {
        '7'
    } else if d == 8 {
        '8'
    } else {
        '9'
    }
}

/// The decimal numeral of `n`, most significant digit first, without leading zeros.
pub open spec fn decimal_digits(n: nat) -> Seq<char>
    decreases n,
{
    if n < 10 {
        seq![digit_char(n)]
    } else {
        decimal_digits(n / 10).push(digit_char(n % 10))
    }
}

/// The one-character text of the digit `d`.
pub(crate) fn digit(d: u8) -> (s: &'static str)
    requires
        d < 10,
    ensures
        s@ == seq![digit_char(d as nat)],
{
    proof {
        reveal_strlit("0");
        reveal_strlit("1");
        reveal_strlit("2");
        reveal_strlit("3");
        reveal_strlit("4");
        reveal_strlit("5");
        reveal_strlit("6");
        reveal_strlit("7");
        reveal_strlit("8");
        reveal_strlit("9");
    }
    let s = if d == 0 {
        "0"
    } else if d == 1 {
        "1"
    } else if d == 2 {
        "2"
    } else if d == 3 {
        "3"
    } else if d == 4 {
        "4"
    } else if d == 5 {
        "5"
    } else if d == 6 {
        "6"
    } else if d == 7 {
        "7"
    } else if d == 8 {
        "8"
    } else {
        "9"
    };
    assert(s@ =~= seq![digit_char(d as nat)]);
    s
}

/// Writes `n` in decimal.
pub fn decimal(n: u128) -> (s: String)
    ensures
        s@ == decimal_digits(n as nat),
    decreases n,
{
    if n < 10 {
        String::from_str(digit(n as u8))
    } else {
        let mut s = decimal(n / 10);
        s.append(digit((n % 10) as u8));
        s
    }
}

/// The decimal numeral of `n`, with a minus sign where it is negative.
pub open spec fn signed_digits(n: int) -> Seq<char> {
    if n < 0 {
        seq!['-'] + decimal_digits((-n) as nat)
    } else {
        decimal_digits(n as nat)
    }
}

/// Writes `n` in decimal, with a minus sign where it is negative.
pub fn signed_decimal(n: i32) -> (s: String)
    ensures
        s@ == signed_digits(n as int),
{
    if n < 0 {
        let magnitude: u128 = (-(n as i64)) as u128;
        let digits = decimal(magnitude);
        proof {
            reveal_strlit("-");
        }
        let mut s = String::from_str("-");
        s.append(digits.as_str());
        assert(s@ =~= signed_digits(n as int));
        s
    } else {
        decimal(n as u128)
    }
}

/// What permissive decoding makes of bytes that are not valid UTF-8.
pub uninterp spec fn utf8_lossy(bytes: Seq<u8>) -> Seq<char>;

/// The text that `bytes` are read as: their decoding where they are valid
/// UTF-8, and otherwise the text in which every invalid sequence is replaced.
pub open spec fn decoded(bytes: Seq<u8>) -> Seq<char> {
    if valid_utf8(bytes) {
        decode_utf8(bytes)
    } else {
        utf8_lossy(bytes)
    }
}

/// Calls `String::from_utf8_lossy`. Valid UTF-8 comes back as the text it
/// encodes. For other input the function puts U+FFFD in place of each invalid
/// sequence; the contract gives that text a name and claims nothing else of it.
#[verifier::external_body]
pub(crate) fn decode_lossy(bytes: &[u8]) -> (text: String)
    ensures
        valid_utf8(bytes@) ==> text@ == decode_utf8(bytes@),
        !valid_utf8(bytes@) ==> text@ == utf8_lossy(bytes@),
{
    String::from_utf8_lossy(bytes).into_owned()
}

} // verus!
