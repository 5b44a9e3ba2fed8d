//! What can go wrong while parsing, and how it is reported.

use vstd::prelude::*;
use crate::token::{clamp, render, Location, Token};

verus! {

/// Why a committed production could not be completed, or why no
/// statement form applies.
#[derive(Clone, Copy, Debug, PartialEq, Eq, Structural)]
pub enum Problem {
    /// No statement form starts at this token.
    InvalidToken,
    /// An expression statement (or `return` / `local`) lacks its `;`.
    ExpectedSemicolon,
    /// Two call arguments or two parameters are not separated by `,`.
    ExpectedComma,
    /// A call argument is not a valid expression.
    ExpectedArgument,
    /// The token stream ends inside a call's argument list.
    UnclosedCall,
    /// A binary operator is not followed by a number or an identifier.
    ExpectedOperand,
    /// `if` is not followed by a test expression.
    ExpectedCondition,
    /// A body block does not open with `{`.
    ExpectedOpenBrace,
    /// A body block holds something that is not a statement.
    ExpectedStatement,
    /// The token stream ends inside a body block.
    UnclosedBlock,
    /// `return` or `local ... =` is not followed by an expression.
    ExpectedExpression,
    /// `function` is not followed by an identifier.
    ExpectedFunctionName,
    /// A function name is not followed by `(`.
    ExpectedOpenParen,
    /// A parameter is not an identifier.
    ExpectedParameter,
    /// The token stream ends inside a parameter list.
    UnclosedParameters,
    /// `local` is not followed by an identifier.
    ExpectedLocalName,
    /// A `local` name is not followed by `=`.
    ExpectedEquals,
}

/// A problem together with the index of the token it concerns (the
/// token count when it concerns the end of the stream).
#[derive(Clone, Copy, Debug, PartialEq, Eq, Structural)]
pub struct Diagnostic {
    pub problem: Problem,
    pub index: usize,
}

/// The human-readable text of a problem.
pub open spec fn problem_text(p: Problem) -> Seq<char> {
    match p {
        Problem::InvalidToken => "Invalid token while parsing:"@,
        Problem::ExpectedSemicolon => "Expected semicolon after expression:"@,
        Problem::ExpectedComma => "Expected comma between arguments or parameters:"@,
        Problem::ExpectedArgument => "Expected valid expression in function call arguments:"@,
        Problem::UnclosedCall => "Expected closing parenthesis after function call arguments:"@,
        Problem::ExpectedOperand => "Expected valid right hand side binary operand:"@,
        Problem::ExpectedCondition => "Expected valid expression for if test:"@,
        Problem::ExpectedOpenBrace => "Expected opening brace before block:"@,
        Problem::ExpectedStatement => "Expected valid statement in block:"@,
        Problem::UnclosedBlock => "Expected closing brace after block:"@,
        Problem::ExpectedExpression => "Expected valid expression:"@,
        Problem::ExpectedFunctionName => "Expected valid identifier for function name:"@,
        Problem::ExpectedOpenParen => "Expected open parenthesis after function name:"@,
        Problem::ExpectedParameter => "Expected valid identifier for function parameter:"@,
        Problem::UnclosedParameters => "Expected closing parenthesis after function parameters:"@,
        Problem::ExpectedLocalName => "Expected valid identifier for local name:"@,
        Problem::ExpectedEquals => "Expected equals sign after local name:"@,
    }
}

impl Problem {
    /// The human-readable text of this problem.
    pub fn message(&self) -> (r: &'static str)
        ensures
            r@ == problem_text(*self),
    {
        match self {
            Problem::InvalidToken => "Invalid token while parsing:",
            Problem::ExpectedSemicolon => "Expected semicolon after expression:",
            Problem::ExpectedComma => "Expected comma between arguments or parameters:",
            Problem::ExpectedArgument => "Expected valid expression in function call arguments:",
            Problem::UnclosedCall => "Expected closing parenthesis after function call arguments:",
            Problem::ExpectedOperand => "Expected valid right hand side binary operand:",
            Problem::ExpectedCondition => "Expected valid expression for if test:",
            Problem::ExpectedOpenBrace => "Expected opening brace before block:",
            Problem::ExpectedStatement => "Expected valid statement in block:",
            Problem::UnclosedBlock => "Expected closing brace after block:",
            Problem::ExpectedExpression => "Expected valid expression:",
            Problem::ExpectedFunctionName => "Expected valid identifier for function name:",
            Problem::ExpectedOpenParen => "Expected open parenthesis after function name:",
            Problem::ExpectedParameter => "Expected valid identifier for function parameter:",
            Problem::UnclosedParameters => "Expected closing parenthesis after function parameters:",
            Problem::ExpectedLocalName => "Expected valid identifier for local name:",
            Problem::ExpectedEquals => "Expected equals sign after local name:",
        }
    }
}

/// The source position that a diagnostic at token `index` points at: the
/// token's own location, or the end of the source past the last token.
pub open spec fn position(raw: Seq<char>, toks: Seq<Token>, index: int) -> int {
    if 0 <= index < toks.len() {
        clamp(toks[index].loc.index as int, raw.len() as int)
    } else {
        raw.len() as int
    }
}

/// The full text of the diagnostic for `problem` at token `index`.
pub open spec fn diagnostic_text(raw: Seq<char>, toks: Seq<Token>, problem: Problem, index: int) -> Seq<char> {
    render(raw, position(raw, toks, index), problem_text(problem))
}

impl Diagnostic {
    /// Renders this diagnostic against the source buffer and the tokens it
    /// was found in.
    pub fn render(&self, raw: &[char], tokens: &[Token]) -> (r: String)
        ensures
            r@ == diagnostic_text(raw@, tokens@, self.problem, self.index as int),
    {
        let loc = if self.index < tokens.len() {
            tokens[self.index].loc
        } else {
            Location { index: raw.len() }
        };
        loc.debug(raw, self.problem.message())
    }
}

} // verus!
