//! The statement tree that parsing produces, and its mathematical model.

use vstd::prelude::*;
use crate::token::Token;

verus! {

broadcast use vstd::std_specs::vec::axiom_vec_index_decreases;

/// A terminal value: an identifier or a number token.
#[derive(Debug)]
pub enum Literal {
    Identifier(Token),
    Number(Token),
}

/// A call `name(arguments...)`.
#[derive(Debug)]
pub struct FunctionCall {
    pub name: Token,
    pub arguments: Vec<Expression>,
}

/// `left operator right`, where both sides are literals.
#[derive(Debug)]
pub struct BinaryOperation {
    pub operator: Token,
    pub left: Box<Expression>,
    pub right: Box<Expression>,
}

#[derive(Debug)]
pub enum Expression {
    FunctionCall(FunctionCall),
    BinaryOperation(BinaryOperation),
    Literal(Literal),
}

/// `function name(parameters...) { body }`.
#[derive(Debug)]
pub struct FunctionDeclaration {
    pub name: Token,
    pub parameters: Vec<Token>,
    pub body: Vec<Statement>,
}

/// `if test { body }`.
#[derive(Debug)]
pub struct If {
    pub test: Expression,
    pub body: Vec<Statement>,
}

/// `local name = expression;`.
#[derive(Debug)]
pub struct Local {
    pub name: Token,
    pub expression: Expression,
}

/// `return expression;`.
#[derive(Debug)]
pub struct Return {
    pub expression: Expression,
}

#[derive(Debug)]
pub enum Statement {
    Expression(Expression),
    If(If),
    FunctionDeclaration(FunctionDeclaration),
    Return(Return),
    Local(Local),
}

/// A parsed program: its statements in source order.
pub type Ast = Vec<Statement>;

/// The mathematical content of an [`Expression`].
pub enum ExprModel {
    Literal(Literal),
    Call { name: Token, arguments: Seq<ExprModel> },
    Binary { operator: Token, left: Box<ExprModel>, right: Box<ExprModel> },
}

/// The mathematical content of a [`Statement`].
pub enum StmtModel {
    Expression(ExprModel),
    If { test: ExprModel, body: Seq<StmtModel> },
    Function { name: Token, parameters: Seq<Token>, body: Seq<StmtModel> },
    Return(ExprModel),
    Local { name: Token, expression: ExprModel },
}

pub open spec fn expr_model(e: Expression) -> ExprModel
    decreases e, 0int,
{
    match e {
        Expression::Literal(l) => ExprModel::Literal(l),
        Expression::FunctionCall(c) => ExprModel::Call {
            name: c.name,
            arguments: exprs_model(c.arguments, c.arguments.len() as int),
        },
        Expression::BinaryOperation(b) => ExprModel::Binary {
            operator: b.operator,
            left: Box::new(expr_model(*b.left)),
            right: Box::new(expr_model(*b.right)),
        },
    }
}

/// Models of the first `n` expressions of `v`.
pub open spec fn exprs_model(v: Vec<Expression>, n: int) -> Seq<ExprModel>
    decreases v, n,
{
    if n <= 0 || n > v.len() {
        Seq::empty()
    } else {
        exprs_model(v, n - 1).push(expr_model(v[n - 1]))
    }
}

pub open spec fn stmt_model(s: Statement) -> StmtModel
    decreases s, 0int,
{
    match s {
        Statement::Expression(e) => StmtModel::Expression(expr_model(e)),
        Statement::If(f) => StmtModel::If {
            test: expr_model(f.test),
            body: stmts_model(f.body, f.body.len() as int),
        },
        Statement::FunctionDeclaration(f) => StmtModel::Function {
            name: f.name,
            parameters: f.parameters@,
            body: stmts_model(f.body, f.body.len() as int),
        },
        Statement::Return(r) => StmtModel::Return(expr_model(r.expression)),
        Statement::Local(l) => StmtModel::Local { name: l.name, expression: expr_model(l.expression) },
    }
}

/// Models of the first `n` statements of `v`.
pub open spec fn stmts_model(v: Vec<Statement>, n: int) -> Seq<StmtModel>
    decreases v, n,
{
    if n <= 0 || n > v.len() {
        Seq::empty()
    } else {
        stmts_model(v, n - 1).push(stmt_model(v[n - 1]))
    }
}

/// Models of all statements of `v`.
pub open spec fn ast_model(v: Vec<Statement>) -> Seq<StmtModel> {
    stmts_model(v, v.len() as int)
}

/// The models of a prefix depend only on the elements in it.
pub proof fn lemma_exprs_model_prefix(v: Vec<Expression>, w: Vec<Expression>, n: int)
    requires
        0 <= n <= v.len(),
        n <= w.len(),
        forall|k: int| 0 <= k < n ==> v@[k] == w@[k],
    ensures
        exprs_model(v, n) == exprs_model(w, n),
    decreases n,
{
    if n > 0 {
        lemma_exprs_model_prefix(v, w, n - 1);
    }
}

/// The models of a prefix depend only on the elements in it.
pub proof fn lemma_stmts_model_prefix(v: Vec<Statement>, w: Vec<Statement>, n: int)
    requires
        0 <= n <= v.len(),
        n <= w.len(),
        forall|k: int| 0 <= k < n ==> v@[k] == w@[k],
    ensures
        stmts_model(v, n) == stmts_model(w, n),
    decreases n,
{
    if n > 0 {
        lemma_stmts_model_prefix(v, w, n - 1);
    }
}

} // verus!
