//! The grammar as spec functions: for a token stream and a position, what
//! each production yields. The executable parser is verified against it.

use vstd::prelude::*;
use crate::ast::{ExprModel, Literal, StmtModel};
use crate::diagnostic::Problem;
use crate::token::{kind_at, token_is, Token, TokenKind};

verus! {

/// The outcome of trying one production at one position: a value and the
/// index just past it, no match, or a failure inside a committed production.
pub enum Step<T> {
    Done(T, int),
    NoMatch,
    Failed(Problem, int),
}

/// `prefix` in front of what `rest` produced; failures pass through.
pub open spec fn prepend<T>(prefix: Seq<T>, rest: Step<Seq<T>>) -> Step<Seq<T>> {
    match rest {
        Step::Done(items, k) => Step::Done(prefix + items, k),
        Step::NoMatch => Step::NoMatch,
        Step::Failed(p, k) => Step::Failed(p, k),
    }
}

/// Putting nothing in front leaves a step as it is.
pub proof fn lemma_prepend_empty<T>(rest: Step<Seq<T>>)
    ensures
        prepend(Seq::<T>::empty(), rest) == rest,
{
    if let Step::Done(items, k) = rest {
        assert(Seq::<T>::empty() + items =~= items);
    }
}

/// Putting `a` in front of `b` in front of a step is putting `a + b` in front.
pub proof fn lemma_prepend_twice<T>(a: Seq<T>, b: Seq<T>, rest: Step<Seq<T>>)
    ensures
        prepend(a, prepend(b, rest)) == prepend(a + b, rest),
{
    if let Step::Done(items, k) = rest {
        assert(a + (b + items) =~= (a + b) + items);
    }
}

/// The literal that the token at `i` forms, if it is a number or an identifier.
pub open spec fn literal_at(toks: Seq<Token>, i: int) -> Option<Literal> {
    if kind_at(toks, i, TokenKind::Number) {
        Some(Literal::Number(toks[i]))
    } else if kind_at(toks, i, TokenKind::Identifier) {
        Some(Literal::Identifier(toks[i]))
    } else {
        None
    }
}

/// An expression at `i`: a literal, a call `name(args)`, or `lit op lit`.
pub open spec fn expression(toks: Seq<Token>, i: int) -> Step<ExprModel>
    decreases toks.len() - i, 0int,
{
    match literal_at(toks, i) {
        None => Step::NoMatch,
        Some(left) => if token_is(toks, i + 1, TokenKind::Syntax, "("@) {
            match argument_list(toks, i + 2, true) {
                Step::Done(args, k) => Step::Done(ExprModel::Call { name: toks[i], arguments: args }, k),
                Step::NoMatch => Step::NoMatch,
                Step::Failed(p, k) => Step::Failed(p, k),
            }
        } else if !kind_at(toks, i + 1, TokenKind::Operator) {
            Step::Done(ExprModel::Literal(left), i + 1)
        } else {
            match literal_at(toks, i + 2) {
                Some(right) => Step::Done(
                    ExprModel::Binary {
                        operator: toks[i + 1],
                        left: Box::new(ExprModel::Literal(left)),
                        right: Box::new(ExprModel::Literal(right)),
                    },
                    i + 3,
                ),
                None => Step::Failed(Problem::ExpectedOperand, i + 2),
            }
        },
    }
}

/// The rest of a call's argument list from `i` up to and including its `)`.
/// `first` holds while no argument has been read; a `,` stands between
/// arguments and nowhere else.
pub open spec fn argument_list(toks: Seq<Token>, i: int, first: bool) -> Step<Seq<ExprModel>>
    decreases toks.len() - i, 1int,
{
    if i < 0 || i >= toks.len() {
        Step::Failed(Problem::UnclosedCall, i)
    } else if token_is(toks, i, TokenKind::Syntax, ")"@) {
        Step::Done(Seq::empty(), i + 1)
    } else if !first && !token_is(toks, i, TokenKind::Syntax, ","@) {
        Step::Failed(Problem::ExpectedComma, i)
    } else {
        let start = if first { i } else { i + 1 };
        match expression(toks, start) {
            Step::Done(e, j) => if start < j <= toks.len() {
                prepend(seq![e], argument_list(toks, j, false))
            } else {
                Step::Failed(Problem::ExpectedArgument, start)
            },
            Step::NoMatch => Step::Failed(Problem::ExpectedArgument, start),
            Step::Failed(p, k) => Step::Failed(p, k),
        }
    }
}

/// The grammar forms a statement can take, in the order they are tried.
#[derive(Clone, Copy, Debug, PartialEq, Eq, Structural)]
pub enum StatementForm {
    If,
    Expression,
    Return,
    FunctionDeclaration,
    Local,
}

/// The fixed order in which statement forms are tried.
pub open spec fn form_order() -> Seq<StatementForm> {
    seq![
        StatementForm::If,
        StatementForm::Expression,
        StatementForm::Return,
        StatementForm::FunctionDeclaration,
        StatementForm::Local,
    ]
}

/// `expression ;`.
pub open spec fn expression_statement(toks: Seq<Token>, i: int) -> Step<StmtModel> {
    match expression(toks, i) {
        Step::Done(e, j) => if token_is(toks, j, TokenKind::Syntax, ";"@) {
            Step::Done(StmtModel::Expression(e), j + 1)
        } else {
            Step::Failed(Problem::ExpectedSemicolon, j)
        },
        Step::NoMatch => Step::NoMatch,
        Step::Failed(p, k) => Step::Failed(p, k),
    }
}

/// `return expression ;`.
pub open spec fn return_statement(toks: Seq<Token>, i: int) -> Step<StmtModel> {
    if !token_is(toks, i, TokenKind::Keyword, "return"@) {
        Step::NoMatch
    } else {
        match expression(toks, i + 1) {
            Step::Done(e, j) => if token_is(toks, j, TokenKind::Syntax, ";"@) {
                Step::Done(StmtModel::Return(e), j + 1)
            } else {
                Step::Failed(Problem::ExpectedSemicolon, j)
            },
            Step::NoMatch => Step::Failed(Problem::ExpectedExpression, i + 1),
            Step::Failed(p, k) => Step::Failed(p, k),
        }
    }
}

/// `local name = expression ;`.
pub open spec fn local_statement(toks: Seq<Token>, i: int) -> Step<StmtModel> {
    if !token_is(toks, i, TokenKind::Keyword, "local"@) {
        Step::NoMatch
    } else if !kind_at(toks, i + 1, TokenKind::Identifier) {
        Step::Failed(Problem::ExpectedLocalName, i + 1)
    } else if !token_is(toks, i + 2, TokenKind::Syntax, "="@) {
        Step::Failed(Problem::ExpectedEquals, i + 2)
    } else {
        match expression(toks, i + 3) {
            Step::Done(e, j) => if token_is(toks, j, TokenKind::Syntax, ";"@) {
                Step::Done(StmtModel::Local { name: toks[i + 1], expression: e }, j + 1)
            } else {
                Step::Failed(Problem::ExpectedSemicolon, j)
            },
            Step::NoMatch => Step::Failed(Problem::ExpectedExpression, i + 3),
            Step::Failed(p, k) => Step::Failed(p, k),
        }
    }
}

/// The rest of a parameter list from `i` up to and including its `)`:
/// identifiers with a `,` between each two.
pub open spec fn parameters(toks: Seq<Token>, i: int, first: bool) -> Step<Seq<Token>>
    decreases toks.len() - i,
{
    if i < 0 || i >= toks.len() {
        Step::Failed(Problem::UnclosedParameters, i)
    } else if token_is(toks, i, TokenKind::Syntax, ")"@) {
        Step::Done(Seq::empty(), i + 1)
    } else if !first && !token_is(toks, i, TokenKind::Syntax, ","@) {
        Step::Failed(Problem::ExpectedComma, i)
    } else {
        let start = if first { i } else { i + 1 };
        if kind_at(toks, start, TokenKind::Identifier) {
            prepend(seq![toks[start]], parameters(toks, start + 1, false))
        } else {
            Step::Failed(Problem::ExpectedParameter, start)
        }
    }
}

/// `if test { body }`.
pub open spec fn if_statement(toks: Seq<Token>, i: int) -> Step<StmtModel>
    decreases toks.len() - i, 2int, 0int,
{
    if !token_is(toks, i, TokenKind::Keyword, "if"@) {
        Step::NoMatch
    } else {
        match expression(toks, i + 1) {
            Step::Done(test, j) => if !token_is(toks, j, TokenKind::Syntax, "{"@) {
                Step::Failed(Problem::ExpectedOpenBrace, j)
            } else if j <= i {
                Step::Failed(Problem::ExpectedCondition, i + 1)
            } else {
                match block(toks, j + 1) {
                    Step::Done(body, k) => Step::Done(StmtModel::If { test, body }, k),
                    Step::NoMatch => Step::NoMatch,
                    Step::Failed(p, k) => Step::Failed(p, k),
                }
            },
            Step::NoMatch => Step::Failed(Problem::ExpectedCondition, i + 1),
            Step::Failed(p, k) => Step::Failed(p, k),
        }
    }
}

/// `function name(parameters) { body }`.
pub open spec fn function_declaration(toks: Seq<Token>, i: int) -> Step<StmtModel>
    decreases toks.len() - i, 2int, 0int,
{
    if !token_is(toks, i, TokenKind::Keyword, "function"@) {
        Step::NoMatch
    } else if !kind_at(toks, i + 1, TokenKind::Identifier) {
        Step::Failed(Problem::ExpectedFunctionName, i + 1)
    } else if !token_is(toks, i + 2, TokenKind::Syntax, "("@) {
        Step::Failed(Problem::ExpectedOpenParen, i + 2)
    } else {
        match parameters(toks, i + 3, true) {
            Step::Done(ps, j) => if !token_is(toks, j, TokenKind::Syntax, "{"@) {
                Step::Failed(Problem::ExpectedOpenBrace, j)
            } else if j <= i {
                Step::Failed(Problem::ExpectedOpenParen, i + 2)
            } else {
                match block(toks, j + 1) {
                    Step::Done(body, k) => Step::Done(
                        StmtModel::Function { name: toks[i + 1], parameters: ps, body },
                        k,
                    ),
                    Step::NoMatch => Step::NoMatch,
                    Step::Failed(p, k) => Step::Failed(p, k),
                }
            },
            Step::NoMatch => Step::NoMatch,
            Step::Failed(p, k) => Step::Failed(p, k),
        }
    }
}

/// Trying one statement form at `i`.
pub open spec fn form_step(toks: Seq<Token>, i: int, form: StatementForm) -> Step<StmtModel>
    decreases toks.len() - i, 3int, 0int,
{
    match form {
        StatementForm::If => if_statement(toks, i),
        StatementForm::Expression => expression_statement(toks, i),
        StatementForm::Return => return_statement(toks, i),
        StatementForm::FunctionDeclaration => function_declaration(toks, i),
        StatementForm::Local => local_statement(toks, i),
    }
}

/// Trying `forms` in turn at `i`: the first that matches wins; if none
/// does, the first failure is reported; if none failed, nothing matched.
pub open spec fn dispatch(toks: Seq<Token>, i: int, forms: Seq<StatementForm>) -> Step<StmtModel>
    decreases toks.len() - i, 4int, forms.len(),
{
    if forms.len() == 0 {
        Step::NoMatch
    } else {
        let here = form_step(toks, i, forms[0]);
        let rest = dispatch(toks, i, forms.drop_first());
        if here is Done {
            here
        } else if rest is Done {
            rest
        } else if here is Failed {
            here
        } else {
            rest
        }
    }
}

/// One statement at `i`, by the forms in their fixed order.
pub open spec fn statement(toks: Seq<Token>, i: int) -> Step<StmtModel>
    decreases toks.len() - i, 5int, 0int,
{
    if i < 0 || i >= toks.len() {
        Step::NoMatch
    } else {
        dispatch(toks, i, form_order())
    }
}

/// The statements of a body block from `i` up to and including its `}`.
pub open spec fn block(toks: Seq<Token>, i: int) -> Step<Seq<StmtModel>>
    decreases toks.len() - i, 6int, 0int,
{
    if i < 0 || i >= toks.len() {
        Step::Failed(Problem::UnclosedBlock, i)
    } else if token_is(toks, i, TokenKind::Syntax, "}"@) {
        Step::Done(Seq::empty(), i + 1)
    } else {
        match statement(toks, i) {
            Step::Done(s, j) => if i < j <= toks.len() {
                prepend(seq![s], block(toks, j))
            } else {
                Step::Failed(Problem::ExpectedStatement, i)
            },
            Step::NoMatch => Step::Failed(Problem::ExpectedStatement, i),
            Step::Failed(p, k) => Step::Failed(p, k),
        }
    }
}

/// The statements from `i` to the end of the stream. Where no statement
/// form applies, the problem is an invalid token at that index.
pub open spec fn program(toks: Seq<Token>, i: int) -> Step<Seq<StmtModel>>
    decreases toks.len() - i,
{
    if i < 0 || i >= toks.len() {
        Step::Done(Seq::empty(), i)
    } else {
        match statement(toks, i) {
            Step::Done(s, j) => if i < j <= toks.len() {
                prepend(seq![s], program(toks, j))
            } else {
                Step::Failed(Problem::InvalidToken, i)
            },
            Step::NoMatch => Step::Failed(Problem::InvalidToken, i),
            Step::Failed(p, k) => Step::Failed(p, k),
        }
    }
}

/// A successful step ends past `i` and within the stream.
pub open spec fn consumes<T>(s: Step<T>, i: int, len: int) -> bool {
    s matches Step::Done(_, j) ==> i < j <= len
}

/// Every expression that parses consumes at least one token and ends
/// within the stream.
pub proof fn expression_consumes(toks: Seq<Token>, i: int)
    ensures
        consumes(expression(toks, i), i, toks.len() as int),
    decreases toks.len() - i, 0int,
{
    if literal_at(toks, i) is Some && token_is(toks, i + 1, TokenKind::Syntax, "("@) {
        argument_list_consumes(toks, i + 2, true);
    }
}

/// A call's argument list that parses ends past where it starts.
pub proof fn argument_list_consumes(toks: Seq<Token>, i: int, first: bool)
    ensures
        consumes(argument_list(toks, i, first), i, toks.len() as int),
    decreases toks.len() - i, 1int,
{
    let start = if first { i } else { i + 1 };
    if 0 <= i < toks.len() {
        if let Step::Done(_, j) = expression(toks, start) {
            if start < j <= toks.len() {
                argument_list_consumes(toks, j, false);
            }
        }
    }
}

/// A parameter list that parses ends past where it starts.
pub proof fn parameters_consume(toks: Seq<Token>, i: int, first: bool)
    ensures
        consumes(parameters(toks, i, first), i, toks.len() as int),
    decreases toks.len() - i,
{
    let start = if first { i } else { i + 1 };
    if 0 <= i < toks.len() && kind_at(toks, start, TokenKind::Identifier) {
        parameters_consume(toks, start + 1, false);
    }
}

/// A body block that parses ends past where it starts.
pub proof fn block_consumes(toks: Seq<Token>, i: int)
    ensures
        consumes(block(toks, i), i, toks.len() as int),
    decreases toks.len() - i,
{
    if 0 <= i < toks.len() {
        if let Step::Done(_, j) = statement(toks, i) {
            if i < j <= toks.len() {
                block_consumes(toks, j);
            }
        }
    }
}

/// Every statement form that matches consumes at least one token and ends
/// within the stream.
pub proof fn form_consumes(toks: Seq<Token>, i: int, form: StatementForm)
    ensures
        consumes(form_step(toks, i, form), i, toks.len() as int),
{
    match form {
        StatementForm::If => {
            if let Step::Done(_, j) = expression(toks, i + 1) {
                block_consumes(toks, j + 1);
            }
        },
        StatementForm::Expression => expression_consumes(toks, i),
        StatementForm::Return => expression_consumes(toks, i + 1),
        StatementForm::FunctionDeclaration => {
            if let Step::Done(_, j) = parameters(toks, i + 3, true) {
                block_consumes(toks, j + 1);
            }
        },
        StatementForm::Local => expression_consumes(toks, i + 3),
    }
}

/// Whatever the forms tried, the step that dispatch picks consumes input
/// whenever it matches.
pub proof fn dispatch_consumes(toks: Seq<Token>, i: int, forms: Seq<StatementForm>)
    ensures
        consumes(dispatch(toks, i, forms), i, toks.len() as int),
    decreases forms.len(),
{
    if forms.len() > 0 {
        form_consumes(toks, i, forms[0]);
        dispatch_consumes(toks, i, forms.drop_first());
    }
}

/// Every statement that parses consumes at least one token and ends within
/// the stream.
pub proof fn statement_consumes(toks: Seq<Token>, i: int)
    ensures
        consumes(statement(toks, i), i, toks.len() as int),
{
    dispatch_consumes(toks, i, form_order());
}

} // verus!
