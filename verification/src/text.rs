//! The lexical layer: characters, tokens, lines and decimal numerals.
//!
//! Source text is handled as a sequence of characters. A line is cut into
//! tokens at commas and white space; a text is cut into lines at line feeds.

use vstd::prelude::*;
use vstd::string::StrSliceExecFns;

verus! {

/// White space: the characters that Unicode counts as such.
pub open spec fn is_space(c: char) -> bool {
    let n = c as u32;
    ||| 0x09 <= n <= 0x0D
    ||| n == 0x20
    ||| n == 0x85
    ||| n == 0xA0
    ||| n == 0x1680
    ||| 0x2000 <= n <= 0x200A
    ||| n == 0x2028
    ||| n == 0x2029
    ||| n == 0x202F
    ||| n == 0x205F
    ||| n == 0x3000
}

/// What parts tokens: a comma counts as white space.
pub open spec fn is_separator(c: char) -> bool {
    c == ',' || is_space(c)
}

/// The upper-case form of an ASCII letter; every other character is its
/// own.
pub open spec fn upper(c: char) -> char {
    if 'a' <= c <= 'z' {
        ((c as u32) - 32) as char
    } else {
        c
    }
}

/// A text with each ASCII letter in upper case.
pub open spec fn folded(s: Seq<char>) -> Seq<char> {
    Seq::new(s.len(), |k: int| upper(s[k]))
}

/// Tells whether `c` is white space.
pub fn space(c: char) -> (found: bool)
    ensures
        found == is_space(c),
{
    let n: u32 = c as u32;
    (0x09 <= n && n <= 0x0D) || n == 0x20 || n == 0x85 || n == 0xA0 || n == 0x1680 || (0x2000 <= n
        && n <= 0x200A) || n == 0x2028 || n == 0x2029 || n == 0x202F || n == 0x205F || n == 0x3000
}

/// Tells whether `c` parts tokens.
pub fn separator(c: char) -> (found: bool)
    ensures
        found == is_separator(c),
{
    c == ',' || space(c)
}

/// The characters of `s`, one by one.
pub fn chars_of(s: &str) -> (chars: Vec<char>)
    ensures
        chars@ == s@,
{
    let mut chars: Vec<char> = Vec::new();
    for c in it: s.chars()
        invariant
            chars@ == it.seq().take(it.index() as int),
            it.seq() == s@,
    {
        chars.push(c);
    }
    chars
}

/// Tells whether `token` is `name`, letter for letter.
pub fn same_text(token: &[char], name: &str) -> (same: bool)
    ensures
        same == (token@ == name@),
{
    let n: usize = name.unicode_len();
    if token.len() != n {
        return false;
    }
    let mut i: usize = 0;
    while i < n
        invariant
            i <= n,
            n == name@.len(),
            n == token@.len(),
            forall|k: int| 0 <= k < i ==> token@[k] == name@[k],
        decreases n - i,
    {
        if token[i] != name.get_char(i) {
            return false;
        }
        i = i + 1;
    }
    assert(token@ =~= name@);
    true
}

/// The upper-case form of `c` where it is an ASCII letter.
pub fn to_upper(c: char) -> (up: char)
    ensures
        up == upper(c),
{
    if 'a' <= c && c <= 'z' {
        let n: u8 = c as u8;
        (n - 32) as char
    } else {
        c
    }
}

/// Tells whether `token` is `name` once its ASCII letters are put in upper
/// case.
pub fn same_text_folded(token: &[char], name: &str) -> (same: bool)
    ensures
        same == (folded(token@) == name@),
{
    let n: usize = name.unicode_len();
    if token.len() != n {
        return false;
    }
    let mut i: usize = 0;
    while i < n
        invariant
            i <= n,
            n == name@.len(),
            n == token@.len(),
            forall|k: int| 0 <= k < i ==> upper(token@[k]) == name@[k],
        decreases n - i,
    {
        if to_upper(token[i]) != name.get_char(i) {
            assert(folded(token@)[i as int] != name@[i as int]);
            return false;
        }
        i = i + 1;
    }
    assert(folded(token@) =~= name@);
    true
}

/// Where the run of non-separators that holds place `i` ends: the first
/// place from `i` on that holds a separator, or the end of `s`.
pub open spec fn token_end(s: Seq<char>, i: int) -> int
    decreases s.len() - i,
{
    if 0 <= i < s.len() && !is_separator(s[i]) {
        token_end(s, i + 1)
    } else {
        i
    }
}

/// The tokens of `s` from place `i` on: the longest runs of characters
/// that are no separators, in their order.
pub open spec fn tokens_from(s: Seq<char>, i: int) -> Seq<Seq<char>>
    decreases s.len() - i,
{
    if i < 0 || i >= s.len() {
        Seq::empty()
    } else if is_separator(s[i]) {
        tokens_from(s, i + 1)
    } else {
        let end = token_end(s, i);
        proof {
            token_end_is_ahead(s, i);
        }
        seq![s.subrange(i, end)] + tokens_from(s, end)
    }
}

/// The tokens of a line.
pub open spec fn tokens(line: Seq<char>) -> Seq<Seq<char>> {
    tokens_from(line, 0)
}

/// A token ends at or behind the place where it was looked for, within the
/// text, and holds no separator.
pub proof fn token_end_is_ahead(s: Seq<char>, i: int)
    requires
        0 <= i <= s.len(),
    ensures
        i <= token_end(s, i) <= s.len(),
        0 <= i < s.len() && !is_separator(s[i]) ==> i < token_end(s, i),
        token_end(s, i) < s.len() ==> is_separator(s[token_end(s, i)]),
        forall|k: int| i <= k < token_end(s, i) ==> !is_separator(#[trigger] s[k]),
    decreases s.len() - i,
{
    if i < s.len() && !is_separator(s[i]) {
        token_end_is_ahead(s, i + 1);
    }
}

/// Where the line that holds place `i` ends: the first line feed from `i`
/// on, or the end of `s`.
pub open spec fn line_end(s: Seq<char>, i: int) -> int
    decreases s.len() - i,
{
    if 0 <= i < s.len() && s[i] != '\n' {
        line_end(s, i + 1)
    } else {
        i
    }
}

/// The lines of `s` from place `i` on. A line ends at a line feed, which
/// is no part of it; the last line may end with the text. Nothing follows
/// a final line feed.
pub open spec fn lines_from(s: Seq<char>, i: int) -> Seq<Seq<char>>
    decreases s.len() - i,
{
    if i < 0 || i >= s.len() {
        Seq::empty()
    } else {
        let end = line_end(s, i);
        proof {
            line_end_is_ahead(s, i);
        }
        if end < s.len() {
            seq![s.subrange(i, end)] + lines_from(s, end + 1)
        } else {
            seq![s.subrange(i, end)]
        }
    }
}

/// The lines of a text.
pub open spec fn lines(text: Seq<char>) -> Seq<Seq<char>> {
    lines_from(text, 0)
}

/// A line ends at or behind the place where it was looked for, within the
/// text, and holds no line feed.
pub proof fn line_end_is_ahead(s: Seq<char>, i: int)
    requires
        0 <= i <= s.len(),
    ensures
        i <= line_end(s, i) <= s.len(),
        line_end(s, i) < s.len() ==> s[line_end(s, i)] == '\n',
        forall|k: int| i <= k < line_end(s, i) ==> #[trigger] s[k] != '\n',
    decreases s.len() - i,
{
    if i < s.len() && s[i] != '\n' {
        line_end_is_ahead(s, i + 1);
    }
}

/// A line of white space only, the empty line among them.
pub open spec fn is_blank(line: Seq<char>) -> bool {
    forall|k: int| 0 <= k < line.len() ==> is_space(#[trigger] line[k])
}

/// A line whose first character that is no white space is a semicolon.
pub open spec fn is_comment(line: Seq<char>) -> bool {
    exists|k: int| 0 <= k < line.len() && #[trigger] line[k] == ';' && is_blank(line.take(k))
}

/// A line that gives no instruction.
pub open spec fn is_skipped(line: Seq<char>) -> bool {
    is_blank(line) || is_comment(line)
}

/// Tells whether `line` is blank or a comment.
pub fn skipped(line: &[char]) -> (skip: bool)
    ensures
        skip == is_skipped(line@),
{
    let n: usize = line.len();
    let mut k: usize = 0;
    while k < n && space(line[k])
        invariant
            k <= n,
            n == line@.len(),
            is_blank(line@.take(k as int)),
        decreases n - k,
    {
        proof {
            let longer = line@.take(k as int + 1);
            assert forall|j: int| 0 <= j < longer.len() implies is_space(#[trigger] longer[j]) by {
                if j < k {
                    assert(longer[j] == line@.take(k as int)[j]);
                }
            }
        }
        k = k + 1;
    }
    if k == n {
        assert(line@.take(n as int) == line@);
        return true;
    }
    let found: bool = line[k] == ';';
    proof {
        assert(!is_space(line@[k as int]));
        assert(!is_blank(line@));
        if !found {
            assert forall|j: int| 0 <= j < line@.len() && line@[j] == ';' implies !is_blank(
                line@.take(j),
            ) by {
                if j < k {
                    assert(line@.take(k as int)[j] == ';');
                } else if j > k {
                    assert(line@.take(j)[k as int] == line@[k as int]);
                }
            }
        }
    }
    found
}

/// One token of a line: the places `from` up to `to`.
#[derive(Debug, Clone, Copy, PartialEq, Eq, Structural)]
pub struct Span {
    pub from: usize,
    pub to: usize,
}

impl Span {
    /// The characters of `line` that the span covers.
    pub open spec fn cut(self, line: Seq<char>) -> Seq<char> {
        line.subrange(self.from as int, self.to as int)
    }

    /// The span lies within `line`.
    pub open spec fn fits(self, line: Seq<char>) -> bool {
        self.from <= self.to <= line.len()
    }
}

/// The spans in `spans` cut the sequence of tokens `cut` out of `line`.
pub open spec fn spans_cut(spans: Seq<Span>, line: Seq<char>, cut: Seq<Seq<char>>) -> bool {
    &&& spans.len() == cut.len()
    &&& forall|k: int|
        0 <= k < spans.len() ==> (#[trigger] spans[k]).fits(line) && spans[k].cut(line) == cut[k]
}

/// Finds the tokens of `line`.
pub fn tokenize(line: &[char]) -> (spans: Vec<Span>)
    ensures
        spans_cut(spans@, line@, tokens(line@)),
{
    let n: usize = line.len();
    let mut spans: Vec<Span> = Vec::new();
    let ghost mut found: Seq<Seq<char>> = Seq::empty();
    let mut i: usize = 0;
    while i < n
        invariant
            i <= n,
            n == line@.len(),
            spans_cut(spans@, line@, found),
            tokens(line@) == found + tokens_from(line@, i as int),
        decreases n - i,
    {
        if separator(line[i]) {
            i = i + 1;
        } else {
            let from: usize = i;
            proof {
                token_end_is_ahead(line@, from as int);
            }
            while i < n && !separator(line[i])
                invariant
                    from <= i <= n,
                    n == line@.len(),
                    token_end(line@, from as int) == token_end(line@, i as int),
                decreases n - i,
            {
                i = i + 1;
            }
            let span = Span { from, to: i };
            proof {
                let piece = line@.subrange(from as int, i as int);
                assert(tokens_from(line@, from as int) == seq![piece] + tokens_from(
                    line@,
                    i as int,
                ));
                assert(found + (seq![piece] + tokens_from(line@, i as int)) == found.push(piece)
                    + tokens_from(line@, i as int));
                found = found.push(piece);
            }
            spans.push(span);
        }
    }
    proof {
        assert(found + tokens_from(line@, n as int) == found);
    }
    spans
}

} // verus!
