//! Tokens as the lexer hands them over, lookahead predicates on a token
//! stream, and the rendering of a located message against the source.

use vstd::prelude::*;
use vstd::string::StringExecFns;

verus! {

/// The lexical category of a token.
#[derive(Clone, Copy, Debug, PartialEq, Eq, Structural)]
pub enum TokenKind {
    Keyword,
    Syntax,
    Identifier,
    Number,
    Operator,
}

/// Where a token starts in the source buffer, as a character offset.
#[derive(Clone, Copy, Debug, PartialEq, Eq, Structural)]
pub struct Location {
    pub index: usize,
}

/// One lexical token: its kind, the exact text it matched, and its place.
#[derive(Clone, Debug)]
pub struct Token {
    pub kind: TokenKind,
    pub value: String,
    pub loc: Location,
}

impl Token {
    /// A copy of this token, equal to it in every field.
    pub fn duplicate(&self) -> (r: Token)
        ensures
            r == *self,
    {
        Token { kind: self.kind, value: self.value.clone(), loc: self.loc }
    }
}

/// The token at `i` exists and has kind `kind`.
pub open spec fn kind_at(toks: Seq<Token>, i: int, kind: TokenKind) -> bool {
    0 <= i < toks.len() && toks[i].kind == kind
}

/// The token at `i` exists, has kind `kind`, and its text is `text`.
pub open spec fn token_is(toks: Seq<Token>, i: int, kind: TokenKind, text: Seq<char>) -> bool {
    kind_at(toks, i, kind) && toks[i].value@ == text
}

/// Whether the token at `index` is the keyword `value`; false past the end.
pub fn expect_keyword(tokens: &[Token], index: usize, value: &str) -> (r: bool)
    ensures
        r == token_is(tokens@, index as int, TokenKind::Keyword, value@),
{
    if index >= tokens.len() {
        return false;
    }
    let t = &tokens[index];
    t.kind == TokenKind::Keyword && t.value == value.to_owned()
}

/// Whether the token at `index` is the syntax mark `value`; false past the end.
pub fn expect_syntax(tokens: &[Token], index: usize, value: &str) -> (r: bool)
    ensures
        r == token_is(tokens@, index as int, TokenKind::Syntax, value@),
{
    if index >= tokens.len() {
        return false;
    }
    let t = &tokens[index];
    t.kind == TokenKind::Syntax && t.value == value.to_owned()
}

/// Whether the token at `index` is an identifier; false past the end.
pub fn expect_identifier(tokens: &[Token], index: usize) -> (r: bool)
    ensures
        r == kind_at(tokens@, index as int, TokenKind::Identifier),
{
    if index >= tokens.len() {
        return false;
    }
    tokens[index].kind == TokenKind::Identifier
}

/// The index at which the line holding position `i` of `raw` starts: just
/// past the last newline before `i`, or 0.
pub open spec fn line_start(raw: Seq<char>, i: int) -> int
    decreases i,
{
    if i <= 0 {
        0
    } else if raw[i - 1] == '\n' {
        i
    } else {
        line_start(raw, i - 1)
    }
}

/// The index at which the line holding position `i` of `raw` ends: the
/// first newline at or after `i`, or the end of `raw`.
pub open spec fn line_end(raw: Seq<char>, i: int) -> int
    decreases raw.len() - i,
{
    if i >= raw.len() {
        raw.len() as int
    } else if raw[i] == '\n' {
        i
    } else {
        line_end(raw, i + 1)
    }
}

/// `n` spaces.
pub open spec fn spaces(n: int) -> Seq<char> {
    Seq::new(n as nat, |k: int| ' ')
}

/// A diagnostic pointing at position `at` of `raw`: the message, a blank
/// line, the source line holding `at`, and a caret under `at`.
pub open spec fn render(raw: Seq<char>, at: int, message: Seq<char>) -> Seq<char> {
    let start = line_start(raw, at);
    message + "\n\n"@ + raw.subrange(start, line_end(raw, at)) + "\n"@ + spaces(at - start)
        + "^ Near here"@
}

/// A position clamped to the source buffer.
pub open spec fn clamp(index: int, len: int) -> int {
    if index < len {
        index
    } else {
        len
    }
}

/// Relies on std's `FromIterator<char>` for `String`: the string holds the
/// given characters in order.
#[verifier::external_body]
fn string_of_chars(chars: &Vec<char>) -> (r: String)
    ensures
        r@ == chars@,
{
    chars.iter().collect()
}

impl Location {
    /// Renders `message` with the source line that holds this location and a
    /// caret under it. A location past the end of `raw` points at its end.
    pub fn debug(&self, raw: &[char], message: &str) -> (r: String)
        ensures
            r@ == render(raw@, clamp(self.index as int, raw@.len() as int), message@),
    {
        let at: usize = if self.index < raw.len() {
            self.index
        } else {
            raw.len()
        };
        let mut start: usize = at;
        while start > 0 && raw[start - 1] != '\n'
            invariant
                start <= at <= raw@.len(),
                line_start(raw@, at as int) == line_start(raw@, start as int),
            decreases start,
        {
            start = start - 1;
        }
        let mut end: usize = at;
        while end < raw.len() && raw[end] != '\n'
            invariant
                at <= end <= raw@.len(),
                line_end(raw@, at as int) == line_end(raw@, end as int),
            decreases raw.len() - end,
        {
            end = end + 1;
        }
        let mut line: Vec<char> = Vec::new();
        let mut k: usize = start;
        while k < end
            invariant
                start <= k <= end <= raw@.len(),
                line@ == raw@.subrange(start as int, k as int),
            decreases end - k,
        {
            line.push(raw[k]);
            k = k + 1;
            assert(line@ =~= raw@.subrange(start as int, k as int));
        }
        let mut pad: Vec<char> = Vec::new();
        while pad.len() < at - start
            invariant
                pad.len() <= at - start,
                pad@ == spaces(pad.len() as int),
            decreases at - start - pad.len(),
        {
            pad.push(' ');
            assert(pad@ =~= spaces(pad.len() as int));
        }
        assert(pad@ =~= spaces(at - start));
        let line_text = string_of_chars(&line);
        let pad_text = string_of_chars(&pad);
        let mut r = String::from_str(message);
        r.append("\n\n");
        r.append(line_text.as_str());
        r.append("\n");
        r.append(pad_text.as_str());
        r.append("^ Near here");
        r
    }
}

} // verus!
