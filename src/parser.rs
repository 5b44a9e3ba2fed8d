//! The executable recursive-descent parser.

use vstd::prelude::*;
use crate::ast::{
    ast_model, expr_model, exprs_model, lemma_exprs_model_prefix, lemma_stmts_model_prefix,
    stmt_model, Ast, BinaryOperation, ExprModel, Expression, FunctionCall, FunctionDeclaration, If,
    Literal, Local, Return, Statement, StmtModel,
};
use crate::diagnostic::{diagnostic_text, Diagnostic, Problem};
use crate::grammar::{
    argument_list, block, dispatch, expression, expression_statement, form_order, form_step,
    function_declaration, if_statement, lemma_prepend_empty, lemma_prepend_twice, literal_at,
    local_statement, parameters, prepend, program, return_statement, statement, StatementForm,
    Step,
};
use crate::token::{expect_identifier, expect_keyword, expect_syntax, token_is, Token, TokenKind};

verus! {

/// The result of trying one production at one position: the parsed value
/// and the index just past it, no match, or a failure inside a production
/// that had committed.
#[derive(Debug)]
pub enum Parsed<T> {
    Matched(T, usize),
    NoMatch,
    Failed(Diagnostic),
}

/// `r` is what the grammar step `s` describes, given the model of a value.
pub open spec fn agrees<T, M>(r: Parsed<T>, s: Step<M>, model: M) -> bool {
    match r {
        Parsed::Matched(_, j) => s == Step::Done(model, j as int),
        Parsed::NoMatch => s is NoMatch,
        Parsed::Failed(d) => s == Step::<M>::Failed(d.problem, d.index as int),
    }
}

/// `r` is the expression that the grammar step `s` describes.
pub open spec fn expr_agrees(r: Parsed<Expression>, s: Step<ExprModel>) -> bool {
    agrees(r, s, if let Parsed::Matched(e, _) = r { expr_model(e) } else { arbitrary() })
}

/// `r` is the statement that the grammar step `s` describes.
pub open spec fn stmt_agrees(r: Parsed<Statement>, s: Step<StmtModel>) -> bool {
    agrees(r, s, if let Parsed::Matched(v, _) = r { stmt_model(v) } else { arbitrary() })
}

/// `r` is the list of statements that the grammar step `s` describes.
pub open spec fn stmts_agree(r: Parsed<Vec<Statement>>, s: Step<Seq<StmtModel>>) -> bool {
    agrees(r, s, if let Parsed::Matched(v, _) = r { ast_model(v) } else { arbitrary() })
}

/// A successful result ends past `index` and within the stream.
pub open spec fn advances<T>(r: Parsed<T>, index: int, len: int) -> bool {
    r matches Parsed::Matched(_, j) ==> index < j <= len
}

fn fail<T>(problem: Problem, index: usize) -> (r: Parsed<T>)
    ensures
        r == Parsed::<T>::Failed(Diagnostic { problem, index }),
{
    Parsed::Failed(Diagnostic { problem, index })
}

/// The literal formed by the token at `index`, if it is a number or an identifier.
fn literal_token(tokens: &[Token], index: usize) -> (r: Option<Literal>)
    ensures
        r == literal_at(tokens@, index as int),
{
    if index >= tokens.len() {
        return None;
    }
    let t = tokens[index].duplicate();
    match t.kind {
        TokenKind::Number => Some(Literal::Number(t)),
        TokenKind::Identifier => Some(Literal::Identifier(t)),
        _ => None,
    }
}

/// Parses one expression at `index`: a literal, a call, or one binary
/// operation between two literals.
pub fn parse_expression(tokens: &[Token], index: usize) -> (r: Parsed<Expression>)
    ensures
        expr_agrees(r, expression(tokens@, index as int)),
        advances(r, index as int, tokens.len() as int),
    decreases tokens.len() - index, 0int,
{
    let ghost toks = tokens@;
    let left = match literal_token(tokens, index) {
        Some(l) => l,
        None => return Parsed::NoMatch,
    };
    if expect_syntax(tokens, index + 1, "(") {
        let mut arguments: Vec<Expression> = Vec::new();
        let mut next_index: usize = index + 2;
        proof {
            lemma_prepend_empty(argument_list(toks, index + 2, true));
        }
        loop
            invariant
                index + 2 <= next_index <= tokens.len(),
                toks == tokens@,
                token_is(toks, index + 1, TokenKind::Syntax, "("@),
                literal_at(toks, index as int) is Some,
                argument_list(toks, index + 2, true) == prepend(
                    exprs_model(arguments, arguments.len() as int),
                    argument_list(toks, next_index as int, arguments.len() == 0),
                ),
            decreases tokens.len() - next_index,
        {
            if next_index >= tokens.len() {
                return fail(Problem::UnclosedCall, next_index);
            }
            if expect_syntax(tokens, next_index, ")") {
                assert(exprs_model(arguments, arguments.len() as int) + Seq::empty()
                    =~= exprs_model(arguments, arguments.len() as int));
                let name = tokens[index].duplicate();
                return Parsed::Matched(
                    Expression::FunctionCall(FunctionCall { name, arguments }),
                    next_index + 1,
                );
            }
            let start: usize = if arguments.len() == 0 {
                next_index
            } else {
                if !expect_syntax(tokens, next_index, ",") {
                    return fail(Problem::ExpectedComma, next_index);
                }
                next_index + 1
            };
            match parse_expression(tokens, start) {
                Parsed::Matched(e, j) => {
                    let ghost before = arguments;
                    let ghost n = arguments.len() as int;
                    arguments.push(e);
                    proof {
                        lemma_exprs_model_prefix(before, arguments, n);
                        assert(exprs_model(arguments, n + 1) =~= exprs_model(before, n) + seq![
                            expr_model(e),
                        ]);
                        lemma_prepend_twice(
                            exprs_model(before, n),
                            seq![expr_model(e)],
                            argument_list(toks, j as int, false),
                        );
                    }
                    next_index = j;
                },
                Parsed::NoMatch => return fail(Problem::ExpectedArgument, start),
                Parsed::Failed(d) => return Parsed::Failed(d),
            }
        }
    } else if index + 1 >= tokens.len() || tokens[index + 1].kind != TokenKind::Operator {
        Parsed::Matched(Expression::Literal(left), index + 1)
    } else {
        let operator = tokens[index + 1].duplicate();
        match literal_token(tokens, index + 2) {
            Some(right) => {
                let r = Parsed::Matched(
                    Expression::BinaryOperation(BinaryOperation {
                        operator,
                        left: Box::new(Expression::Literal(left)),
                        right: Box::new(Expression::Literal(right)),
                    }),
                    index + 3,
                );
                assert(expr_model(Expression::Literal(left)) == ExprModel::Literal(left));
                assert(expr_model(Expression::Literal(right)) == ExprModel::Literal(right));
                r
            },
            None => fail(Problem::ExpectedOperand, index + 2),
        }
    }
}

/// Parses `expression ;` at `index`.
pub fn parse_expression_statement(tokens: &[Token], index: usize) -> (r: Parsed<Statement>)
    ensures
        stmt_agrees(r, expression_statement(tokens@, index as int)),
        advances(r, index as int, tokens.len() as int),
{
    match parse_expression(tokens, index) {
        Parsed::Matched(e, j) => {
            if !expect_syntax(tokens, j, ";") {
                return fail(Problem::ExpectedSemicolon, j);
            }
            Parsed::Matched(Statement::Expression(e), j + 1)
        },
        Parsed::NoMatch => Parsed::NoMatch,
        Parsed::Failed(d) => Parsed::Failed(d),
    }
}

/// Parses `return expression ;` at `index`.
pub fn parse_return(tokens: &[Token], index: usize) -> (r: Parsed<Statement>)
    ensures
        stmt_agrees(r, return_statement(tokens@, index as int)),
        advances(r, index as int, tokens.len() as int),
{
    // The stream's length fits in a usize, so indices into it can advance.
    let _ = tokens.len();
    if !expect_keyword(tokens, index, "return") {
        return Parsed::NoMatch;
    }
    match parse_expression(tokens, index + 1) {
        Parsed::Matched(e, j) => {
            if !expect_syntax(tokens, j, ";") {
                return fail(Problem::ExpectedSemicolon, j);
            }
            Parsed::Matched(Statement::Return(Return { expression: e }), j + 1)
        },
        Parsed::NoMatch => fail(Problem::ExpectedExpression, index + 1),
        Parsed::Failed(d) => Parsed::Failed(d),
    }
}

/// Parses `local name = expression ;` at `index`.
pub fn parse_local(tokens: &[Token], index: usize) -> (r: Parsed<Statement>)
    ensures
        stmt_agrees(r, local_statement(tokens@, index as int)),
        advances(r, index as int, tokens.len() as int),
{
    // The stream's length fits in a usize, so indices into it can advance.
    let _ = tokens.len();
    if !expect_keyword(tokens, index, "local") {
        return Parsed::NoMatch;
    }
    if !expect_identifier(tokens, index + 1) {
        return fail(Problem::ExpectedLocalName, index + 1);
    }
    if !expect_syntax(tokens, index + 2, "=") {
        return fail(Problem::ExpectedEquals, index + 2);
    }
    match parse_expression(tokens, index + 3) {
        Parsed::Matched(e, j) => {
            if !expect_syntax(tokens, j, ";") {
                return fail(Problem::ExpectedSemicolon, j);
            }
            let name = tokens[index + 1].duplicate();
            Parsed::Matched(Statement::Local(Local { name, expression: e }), j + 1)
        },
        Parsed::NoMatch => fail(Problem::ExpectedExpression, index + 3),
        Parsed::Failed(d) => Parsed::Failed(d),
    }
}

/// Parses the rest of a parameter list, from just past its `(` at `index`
/// up to and including its `)`.
pub fn parse_parameters(tokens: &[Token], index: usize) -> (r: Parsed<Vec<Token>>)
    ensures
        agrees(
            r,
            parameters(tokens@, index as int, true),
            if let Parsed::Matched(v, _) = r { v@ } else { arbitrary() },
        ),
        advances(r, index as int, tokens.len() as int),
{
    let ghost toks = tokens@;
    let mut params: Vec<Token> = Vec::new();
    let mut next_index: usize = index;
    proof {
        lemma_prepend_empty(parameters(toks, index as int, true));
    }
    loop
        invariant
            index <= next_index,
            next_index <= tokens.len() || (index == next_index && params.len() == 0),
            toks == tokens@,
            parameters(toks, index as int, true) == prepend(
                params@,
                parameters(toks, next_index as int, params.len() == 0),
            ),
        decreases tokens.len() - next_index,
    {
        if next_index >= tokens.len() {
            return fail(Problem::UnclosedParameters, next_index);
        }
        if expect_syntax(tokens, next_index, ")") {
            assert(params@ + Seq::empty() =~= params@);
            return Parsed::Matched(params, next_index + 1);
        }
        let start: usize = if params.len() == 0 {
            next_index
        } else {
            if !expect_syntax(tokens, next_index, ",") {
                return fail(Problem::ExpectedComma, next_index);
            }
            next_index + 1
        };
        if !expect_identifier(tokens, start) {
            return fail(Problem::ExpectedParameter, start);
        }
        let ghost before = params@;
        params.push(tokens[start].duplicate());
        proof {
            assert(params@ =~= before + seq![toks[start as int]]);
            lemma_prepend_twice(
                before,
                seq![toks[start as int]],
                parameters(toks, start + 1, false),
            );
        }
        next_index = start + 1;
    }
}

/// Parses `if test { body }` at `index`.
pub fn parse_if(tokens: &[Token], index: usize) -> (r: Parsed<Statement>)
    ensures
        stmt_agrees(r, if_statement(tokens@, index as int)),
        advances(r, index as int, tokens.len() as int),
    decreases tokens.len() - index, 2int, 0int,
{
    // The stream's length fits in a usize, so indices into it can advance.
    let _ = tokens.len();
    if !expect_keyword(tokens, index, "if") {
        return Parsed::NoMatch;
    }
    match parse_expression(tokens, index + 1) {
        Parsed::Matched(test, j) => {
            if !expect_syntax(tokens, j, "{") {
                return fail(Problem::ExpectedOpenBrace, j);
            }
            match parse_block(tokens, j + 1) {
                Parsed::Matched(body, k) => Parsed::Matched(Statement::If(If { test, body }), k),
                Parsed::NoMatch => Parsed::NoMatch,
                Parsed::Failed(d) => Parsed::Failed(d),
            }
        },
        Parsed::NoMatch => fail(Problem::ExpectedCondition, index + 1),
        Parsed::Failed(d) => Parsed::Failed(d),
    }
}

/// Parses `function name(parameters) { body }` at `index`.
pub fn parse_function(tokens: &[Token], index: usize) -> (r: Parsed<Statement>)
    ensures
        stmt_agrees(r, function_declaration(tokens@, index as int)),
        advances(r, index as int, tokens.len() as int),
    decreases tokens.len() - index, 2int, 0int,
{
    // The stream's length fits in a usize, so indices into it can advance.
    let _ = tokens.len();
    if !expect_keyword(tokens, index, "function") {
        return Parsed::NoMatch;
    }
    if !expect_identifier(tokens, index + 1) {
        return fail(Problem::ExpectedFunctionName, index + 1);
    }
    if !expect_syntax(tokens, index + 2, "(") {
        return fail(Problem::ExpectedOpenParen, index + 2);
    }
    match parse_parameters(tokens, index + 3) {
        Parsed::Matched(parameters, j) => {
            if !expect_syntax(tokens, j, "{") {
                return fail(Problem::ExpectedOpenBrace, j);
            }
            match parse_block(tokens, j + 1) {
                Parsed::Matched(body, k) => {
                    let name = tokens[index + 1].duplicate();
                    Parsed::Matched(
                        Statement::FunctionDeclaration(FunctionDeclaration { name, parameters, body }),
                        k,
                    )
                },
                Parsed::NoMatch => Parsed::NoMatch,
                Parsed::Failed(d) => Parsed::Failed(d),
            }
        },
        Parsed::NoMatch => Parsed::NoMatch,
        Parsed::Failed(d) => Parsed::Failed(d),
    }
}

/// Parses the statements of a body block, from just past its `{` at
/// `index` up to and including its `}`.
pub fn parse_block(tokens: &[Token], index: usize) -> (r: Parsed<Vec<Statement>>)
    ensures
        stmts_agree(r, block(tokens@, index as int)),
        advances(r, index as int, tokens.len() as int),
    decreases tokens.len() - index, 6int, 0int,
{
    let ghost toks = tokens@;
    let mut body: Vec<Statement> = Vec::new();
    let mut next_index: usize = index;
    proof {
        lemma_prepend_empty(block(toks, index as int));
    }
    loop
        invariant
            index <= next_index,
            next_index <= tokens.len() || (index == next_index && body.len() == 0),
            toks == tokens@,
            block(toks, index as int) == prepend(ast_model(body), block(toks, next_index as int)),
        decreases tokens.len() - next_index,
    {
        if next_index >= tokens.len() {
            return fail(Problem::UnclosedBlock, next_index);
        }
        if expect_syntax(tokens, next_index, "}") {
            assert(ast_model(body) + Seq::empty() =~= ast_model(body));
            return Parsed::Matched(body, next_index + 1);
        }
        match parse_statement(tokens, next_index) {
            Parsed::Matched(s, j) => {
                let ghost before = body;
                let ghost n = body.len() as int;
                body.push(s);
                proof {
                    lemma_stmts_model_prefix(before, body, n);
                    assert(ast_model(body) =~= ast_model(before) + seq![stmt_model(s)]);
                    lemma_prepend_twice(ast_model(before), seq![stmt_model(s)], block(toks, j as int));
                }
                next_index = j;
            },
            Parsed::NoMatch => return fail(Problem::ExpectedStatement, next_index),
            Parsed::Failed(d) => return Parsed::Failed(d),
        }
    }
}

impl StatementForm {
    /// Tries this statement form at `index`.
    pub fn try_parse(self, tokens: &[Token], index: usize) -> (r: Parsed<Statement>)
        ensures
            stmt_agrees(r, form_step(tokens@, index as int, self)),
            advances(r, index as int, tokens.len() as int),
        decreases tokens.len() - index, 3int, 0int,
    {
        match self {
            StatementForm::If => parse_if(tokens, index),
            StatementForm::Expression => parse_expression_statement(tokens, index),
            StatementForm::Return => parse_return(tokens, index),
            StatementForm::FunctionDeclaration => parse_function(tokens, index),
            StatementForm::Local => parse_local(tokens, index),
        }
    }
}

/// What the forms after the first `k` give, once the first failure among
/// those `k` (if any) is taken into account.
pub open spec fn settle(pending: Option<Diagnostic>, rest: Step<StmtModel>) -> Step<StmtModel> {
    if rest is Done {
        rest
    } else {
        match pending {
            Some(d) => Step::Failed(d.problem, d.index as int),
            None => rest,
        }
    }
}

/// Parses one statement at `index`, trying the statement forms in their
/// fixed order: the first that matches wins; if none does, the first
/// failure is reported.
pub fn parse_statement(tokens: &[Token], index: usize) -> (r: Parsed<Statement>)
    ensures
        stmt_agrees(r, statement(tokens@, index as int)),
        advances(r, index as int, tokens.len() as int),
    decreases tokens.len() - index, 5int, 0int,
{
    let ghost toks = tokens@;
    if index >= tokens.len() {
        return Parsed::NoMatch;
    }
    let forms = vec![
        StatementForm::If,
        StatementForm::Expression,
        StatementForm::Return,
        StatementForm::FunctionDeclaration,
        StatementForm::Local,
    ];
    let mut pending: Option<Diagnostic> = None;
    let mut k: usize = 0;
    assert(form_order().subrange(0, 5) =~= form_order());
    while k < forms.len()
        invariant
            forms@ == form_order(),
            k <= 5,
            index < tokens.len(),
            toks == tokens@,
            statement(toks, index as int) == settle(
                pending,
                dispatch(toks, index as int, form_order().subrange(k as int, 5)),
            ),
        decreases 5 - k,
    {
        let ghost tail = form_order().subrange(k as int, 5);
        assert(tail.drop_first() =~= form_order().subrange(k + 1, 5));
        match forms[k].try_parse(tokens, index) {
            Parsed::Matched(s, j) => return Parsed::Matched(s, j),
            Parsed::NoMatch => {},
            Parsed::Failed(d) => {
                if pending.is_none() {
                    pending = Some(d);
                }
            },
        }
        k = k + 1;
    }
    assert(form_order().subrange(5, 5).len() == 0);
    match pending {
        Some(d) => Parsed::Failed(d),
        None => Parsed::NoMatch,
    }
}

/// Parses a whole token stream into its statements, or reports the first
/// problem: a failure inside a committed production, or else the first
/// token at which no statement form applies.
pub fn parse_tokens(tokens: &[Token]) -> (r: Result<Vec<Statement>, Diagnostic>)
    ensures
        match r {
            Ok(ast) => program(tokens@, 0) == Step::Done(ast_model(ast), tokens.len() as int),
            Err(d) => program(tokens@, 0) == Step::<Seq<StmtModel>>::Failed(d.problem, d.index as int),
        },
{
    let ghost toks = tokens@;
    let mut ast: Vec<Statement> = Vec::new();
    let mut index: usize = 0;
    proof {
        lemma_prepend_empty(program(toks, 0));
    }
    while index < tokens.len()
        invariant
            index <= tokens.len(),
            toks == tokens@,
            program(toks, 0) == prepend(ast_model(ast), program(toks, index as int)),
        decreases tokens.len() - index,
    {
        match parse_statement(tokens, index) {
            Parsed::Matched(s, j) => {
                let ghost before = ast;
                let ghost n = ast.len() as int;
                ast.push(s);
                proof {
                    lemma_stmts_model_prefix(before, ast, n);
                    assert(ast_model(ast) =~= ast_model(before) + seq![stmt_model(s)]);
                    lemma_prepend_twice(ast_model(before), seq![stmt_model(s)], program(toks, j as int));
                }
                index = j;
            },
            Parsed::NoMatch => return Err(Diagnostic { problem: Problem::InvalidToken, index }),
            Parsed::Failed(d) => return Err(d),
        }
    }
    assert(ast_model(ast) + Seq::empty() =~= ast_model(ast));
    Ok(ast)
}

/// Parses a whole token stream. On success the statements are those the
/// grammar gives, in source order; on failure the message names the first
/// problem and shows the source line where it lies. Parsing recurses once
/// per level of nesting of blocks and calls, so the stack it needs grows
/// with the nesting depth of the input.
pub fn parse(raw: &[char], tokens: Vec<Token>) -> (r: Result<Ast, String>)
    ensures
        parse_outcome(raw@, tokens@, r),
{
    match parse_tokens(tokens.as_slice()) {
        Ok(ast) => Ok(ast),
        Err(d) => Err(d.render(raw, tokens.as_slice())),
    }
}

/// Parsing is deterministic: two successful parses of the same token
/// sequence give structurally identical statement lists, and two failing
/// parses of it give the same message.
pub proof fn parse_deterministic(
    raw: Seq<char>,
    tokens: Seq<Token>,
    first: Result<Ast, String>,
    second: Result<Ast, String>,
)
    requires
        parse_outcome(raw, tokens, first),
        parse_outcome(raw, tokens, second),
    ensures
        first is Ok <==> second is Ok,
        first is Ok ==> ast_model(first->Ok_0) == ast_model(second->Ok_0),
        first is Err ==> first->Err_0@ == second->Err_0@,
{
}

/// `r` is what [`parse`] returns for `raw` and `tokens`.
pub open spec fn parse_outcome(raw: Seq<char>, tokens: Seq<Token>, r: Result<Ast, String>) -> bool {
    match program(tokens, 0) {
        Step::Done(m, _) => r is Ok && ast_model(r->Ok_0) == m,
        Step::Failed(p, k) => r is Err && r->Err_0@ == diagnostic_text(raw, tokens, p, k),
        Step::NoMatch => false,
    }
}

} // verus!
