use parser::ast::{Expression, Literal, Statement};
use parser::diagnostic::{Diagnostic, Problem};
use parser::parser::{parse, parse_expression, parse_statement, parse_tokens, Parsed};
use parser::token::{expect_identifier, expect_keyword, expect_syntax, Location, Token, TokenKind};

use Problem::{
    ExpectedComma, ExpectedCondition, ExpectedEquals, ExpectedExpression, ExpectedFunctionName,
    ExpectedLocalName, ExpectedOpenBrace, ExpectedOpenParen, ExpectedParameter, ExpectedSemicolon,
    ExpectedStatement, InvalidToken, UnclosedBlock, UnclosedParameters,
};
use TokenKind::{Identifier, Keyword, Number, Operator, Syntax};

/// Lays the given tokens out in a source buffer, separated by spaces.
fn source(parts: &[(TokenKind, &str)]) -> (Vec<char>, Vec<Token>) {
    let mut raw: Vec<char> = Vec::new();
    let mut tokens = Vec::new();
    for (kind, text) in parts {
        if !raw.is_empty() {
            raw.push(' ');
        }
        tokens.push(Token { kind: *kind, value: text.to_string(), loc: Location { index: raw.len() } });
        raw.extend(text.chars());
    }
    (raw, tokens)
}

fn ident_name(e: &Expression) -> String {
    match e {
        Expression::Literal(Literal::Identifier(t)) => t.value.clone(),
        other => panic!("not an identifier literal: {:?}", other),
    }
}

fn failure(parts: &[(TokenKind, &str)]) -> Diagnostic {
    let (_, tokens) = source(parts);
    match parse_tokens(&tokens) {
        Err(d) => d,
        Ok(ast) => panic!("expected a failure, got {:?}", ast),
    }
}

#[test]
fn identifier_statement_shape() {
    let (raw, tokens) = source(&[(Identifier, "a"), (Syntax, ";")]);
    let ast = parse(&raw, tokens).unwrap();
    assert_eq!(ast.len(), 1);
    match &ast[0] {
        Statement::Expression(e) => assert_eq!(ident_name(e), "a"),
        other => panic!("unexpected {:?}", other),
    }
}

#[test]
fn binary_operation_statement() {
    let (raw, tokens) = source(&[(Identifier, "a"), (Operator, "+"), (Identifier, "b"), (Syntax, ";")]);
    let ast = parse(&raw, tokens).unwrap();
    assert_eq!(ast.len(), 1);
    match &ast[0] {
        Statement::Expression(Expression::BinaryOperation(b)) => {
            assert_eq!(b.operator.value, "+");
            assert_eq!(b.operator.kind, Operator);
            assert_eq!(ident_name(&b.left), "a");
            assert_eq!(ident_name(&b.right), "b");
        },
        other => panic!("unexpected {:?}", other),
    }
}

#[test]
fn call_with_no_arguments() {
    let (raw, tokens) = source(&[(Identifier, "f"), (Syntax, "("), (Syntax, ")"), (Syntax, ";")]);
    let ast = parse(&raw, tokens).unwrap();
    assert_eq!(ast.len(), 1);
    match &ast[0] {
        Statement::Expression(Expression::FunctionCall(c)) => {
            assert_eq!(c.name.value, "f");
            assert!(c.arguments.is_empty());
        },
        other => panic!("unexpected {:?}", other),
    }
}

#[test]
fn call_with_one_argument() {
    let (raw, tokens) =
        source(&[(Identifier, "f"), (Syntax, "("), (Identifier, "a"), (Syntax, ")"), (Syntax, ";")]);
    let ast = parse(&raw, tokens).unwrap();
    assert_eq!(ast.len(), 1);
    match &ast[0] {
        Statement::Expression(Expression::FunctionCall(c)) => {
            assert_eq!(c.name.value, "f");
            assert_eq!(c.arguments.len(), 1);
            assert_eq!(ident_name(&c.arguments[0]), "a");
        },
        other => panic!("unexpected {:?}", other),
    }
}

// Arguments are separated by commas, with none before the first.
#[test]
fn call_with_comma_separated_arguments() {
    let (raw, tokens) = source(&[
        (Identifier, "f"),
        (Syntax, "("),
        (Identifier, "a"),
        (Syntax, ","),
        (Number, "2"),
        (Syntax, ","),
        (Identifier, "g"),
        (Syntax, "("),
        (Syntax, ")"),
        (Syntax, ")"),
        (Syntax, ";"),
    ]);
    let ast = parse(&raw, tokens).unwrap();
    match &ast[0] {
        Statement::Expression(Expression::FunctionCall(c)) => {
            assert_eq!(c.arguments.len(), 3);
            assert_eq!(ident_name(&c.arguments[0]), "a");
            assert!(matches!(&c.arguments[1], Expression::Literal(Literal::Number(t)) if t.value == "2"));
            assert!(matches!(&c.arguments[2], Expression::FunctionCall(g) if g.arguments.is_empty()));
        },
        other => panic!("unexpected {:?}", other),
    }
}

#[test]
fn call_arguments_without_comma_fail() {
    let d = failure(&[(Identifier, "f"), (Syntax, "("), (Identifier, "a"), (Identifier, "b"), (Syntax, ")"), (Syntax, ";")]);
    assert_eq!(d, Diagnostic { problem: Problem::ExpectedComma, index: 3 });
}

#[test]
fn call_with_leading_comma_fails() {
    let d = failure(&[(Identifier, "f"), (Syntax, "("), (Syntax, ","), (Identifier, "a"), (Syntax, ")"), (Syntax, ";")]);
    assert_eq!(d, Diagnostic { problem: Problem::ExpectedArgument, index: 2 });
}

#[test]
fn unclosed_call_fails() {
    let d = failure(&[(Identifier, "f"), (Syntax, "("), (Identifier, "a")]);
    assert_eq!(d, Diagnostic { problem: Problem::UnclosedCall, index: 3 });
}

#[test]
fn missing_semicolon_fails() {
    let (raw, tokens) = source(&[(Identifier, "a")]);
    let err = parse(&raw, tokens).unwrap_err();
    assert!(err.contains("semicolon"));
    assert_eq!(err, "Expected semicolon after expression:\n\na\n ^ Near here");
}

#[test]
fn leading_operator_fails_at_first_token() {
    let (raw, tokens) = source(&[(Operator, "+"), (Identifier, "a"), (Syntax, ";")]);
    assert_eq!(parse_tokens(&tokens).unwrap_err(), Diagnostic { problem: Problem::InvalidToken, index: 0 });
    let err = parse(&raw, tokens).unwrap_err();
    assert_eq!(err, "Invalid token while parsing:\n\n+ a ;\n^ Near here");
}

#[test]
fn chained_operators_fail_at_terminator() {
    let d = failure(&[(Identifier, "a"), (Operator, "+"), (Identifier, "b"), (Operator, "+"), (Identifier, "c"), (Syntax, ";")]);
    assert_eq!(d, Diagnostic { problem: Problem::ExpectedSemicolon, index: 3 });
}

#[test]
fn invalid_right_operand_fails() {
    let d = failure(&[(Number, "1"), (Operator, "+"), (Syntax, ";")]);
    assert_eq!(d, Diagnostic { problem: Problem::ExpectedOperand, index: 2 });
    let d = failure(&[(Number, "1"), (Operator, "+")]);
    assert_eq!(d, Diagnostic { problem: Problem::ExpectedOperand, index: 2 });
}

#[test]
fn parsing_twice_gives_the_same_tree() {
    let (raw, tokens) = source(&[
        (Keyword, "local"),
        (Identifier, "x"),
        (Syntax, "="),
        (Identifier, "f"),
        (Syntax, "("),
        (Number, "1"),
        (Syntax, ")"),
        (Syntax, ";"),
        (Identifier, "x"),
        (Operator, "-"),
        (Number, "2"),
        (Syntax, ";"),
    ]);
    let first = parse(&raw, tokens.clone()).unwrap();
    let second = parse(&raw, tokens).unwrap();
    assert_eq!(format!("{:?}", first), format!("{:?}", second));
    assert_eq!(first.len(), 2);
}

#[test]
fn sub_parses_advance() {
    let (_, tokens) = source(&[(Identifier, "a"), (Operator, "<"), (Number, "3"), (Identifier, "g"), (Syntax, "("), (Syntax, ")")]);
    assert!(matches!(parse_expression(&tokens, 0), Parsed::Matched(_, 3)));
    assert!(matches!(parse_expression(&tokens, 2), Parsed::Matched(_, 3)));
    assert!(matches!(parse_expression(&tokens, 3), Parsed::Matched(_, 6)));
    assert!(matches!(parse_expression(&tokens, 1), Parsed::NoMatch));
    assert!(matches!(parse_expression(&tokens, 6), Parsed::NoMatch));
}

#[test]
fn empty_stream_gives_empty_tree() {
    let ast = parse(&[], Vec::new()).unwrap();
    assert!(ast.is_empty());
}

#[test]
fn lookahead_is_safe_past_the_end() {
    let (_, tokens) = source(&[(Keyword, "if"), (Syntax, "{"), (Identifier, "x")]);
    assert!(expect_keyword(&tokens, 0, "if"));
    assert!(!expect_keyword(&tokens, 0, "return"));
    assert!(!expect_keyword(&tokens, 1, "{"));
    assert!(expect_syntax(&tokens, 1, "{"));
    assert!(!expect_syntax(&tokens, 1, "}"));
    assert!(expect_identifier(&tokens, 2));
    assert!(!expect_identifier(&tokens, 1));
    assert!(!expect_keyword(&tokens, 3, "if"));
    assert!(!expect_syntax(&tokens, 99, "{"));
    assert!(!expect_identifier(&tokens, 3));
}

#[test]
fn statement_forms_all_parse() {
    let (raw, tokens) = source(&[
        (Keyword, "function"),
        (Identifier, "add"),
        (Syntax, "("),
        (Identifier, "a"),
        (Syntax, ","),
        (Identifier, "b"),
        (Syntax, ")"),
        (Syntax, "{"),
        (Keyword, "if"),
        (Identifier, "a"),
        (Syntax, "{"),
        (Keyword, "return"),
        (Identifier, "b"),
        (Syntax, ";"),
        (Syntax, "}"),
        (Keyword, "local"),
        (Identifier, "c"),
        (Syntax, "="),
        (Identifier, "a"),
        (Operator, "+"),
        (Identifier, "b"),
        (Syntax, ";"),
        (Keyword, "return"),
        (Identifier, "c"),
        (Syntax, ";"),
        (Syntax, "}"),
        (Identifier, "add"),
        (Syntax, "("),
        (Number, "1"),
        (Syntax, ","),
        (Number, "2"),
        (Syntax, ")"),
        (Syntax, ";"),
    ]);
    let ast = parse(&raw, tokens).unwrap();
    assert_eq!(ast.len(), 2);
    match &ast[0] {
        Statement::FunctionDeclaration(f) => {
            assert_eq!(f.name.value, "add");
            let names: Vec<&str> = f.parameters.iter().map(|t| t.value.as_str()).collect();
            assert_eq!(names, vec!["a", "b"]);
            assert_eq!(f.body.len(), 3);
            match &f.body[0] {
                Statement::If(i) => {
                    assert_eq!(ident_name(&i.test), "a");
                    assert_eq!(i.body.len(), 1);
                    assert!(matches!(&i.body[0], Statement::Return(r) if ident_name(&r.expression) == "b"));
                },
                other => panic!("unexpected {:?}", other),
            }
            match &f.body[1] {
                Statement::Local(l) => {
                    assert_eq!(l.name.value, "c");
                    assert!(matches!(&l.expression, Expression::BinaryOperation(_)));
                },
                other => panic!("unexpected {:?}", other),
            }
            assert!(matches!(&f.body[2], Statement::Return(_)));
        },
        other => panic!("unexpected {:?}", other),
    }
    assert!(matches!(&ast[1], Statement::Expression(Expression::FunctionCall(c)) if c.arguments.len() == 2));
}

#[test]
fn function_without_parameters_or_body() {
    let (_, tokens) = source(&[
        (Keyword, "function"),
        (Identifier, "f"),
        (Syntax, "("),
        (Syntax, ")"),
        (Syntax, "{"),
        (Syntax, "}"),
    ]);
    match parse_statement(&tokens, 0) {
        Parsed::Matched(Statement::FunctionDeclaration(f), 6) => {
            assert!(f.parameters.is_empty());
            assert!(f.body.is_empty());
        },
        other => panic!("unexpected {:?}", other),
    }
}

#[test]
fn statement_form_failures() {
    let cases: Vec<(Vec<(TokenKind, &str)>, Problem, usize)> = vec![
        (vec![(Keyword, "if"), (Syntax, "{")], ExpectedCondition, 1),
        (vec![(Keyword, "if"), (Identifier, "a"), (Identifier, "b")], ExpectedOpenBrace, 2),
        (vec![(Keyword, "if"), (Identifier, "a"), (Syntax, "{"), (Syntax, ";"), (Syntax, "}")], ExpectedStatement, 3),
        (vec![(Keyword, "if"), (Identifier, "a"), (Syntax, "{")], UnclosedBlock, 3),
        (vec![(Keyword, "return"), (Syntax, ";")], ExpectedExpression, 1),
        (vec![(Keyword, "return"), (Identifier, "a")], ExpectedSemicolon, 2),
        (vec![(Keyword, "function"), (Number, "1")], ExpectedFunctionName, 1),
        (vec![(Keyword, "function"), (Identifier, "f"), (Syntax, "{")], ExpectedOpenParen, 2),
        (vec![(Keyword, "function"), (Identifier, "f"), (Syntax, "("), (Number, "1")], ExpectedParameter, 3),
        (vec![(Keyword, "function"), (Identifier, "f"), (Syntax, "("), (Identifier, "a")], UnclosedParameters, 4),
        (vec![(Keyword, "function"), (Identifier, "f"), (Syntax, "("), (Identifier, "a"), (Identifier, "b")], ExpectedComma, 4),
        (vec![(Keyword, "function"), (Identifier, "f"), (Syntax, "("), (Syntax, ")"), (Syntax, ";")], ExpectedOpenBrace, 4),
        (vec![(Keyword, "local"), (Number, "1")], ExpectedLocalName, 1),
        (vec![(Keyword, "local"), (Identifier, "x"), (Operator, "+")], ExpectedEquals, 2),
        (vec![(Keyword, "local"), (Identifier, "x"), (Syntax, "="), (Syntax, ";")], ExpectedExpression, 3),
        (vec![(Keyword, "local"), (Identifier, "x"), (Syntax, "="), (Number, "1")], ExpectedSemicolon, 4),
        (vec![(Syntax, "}")], InvalidToken, 0),
        (vec![(Identifier, "a"), (Syntax, ";"), (Keyword, "end")], InvalidToken, 2),
    ];
    for (parts, problem, index) in cases {
        assert_eq!(failure(&parts), Diagnostic { problem, index }, "{:?}", parts);
    }
}

#[test]
fn diagnostic_shows_source_line_and_caret() {
    let raw: Vec<char> = "x;\n  foo bar;\nz;".chars().collect();
    let at_bar = Location { index: 9 };
    assert_eq!(at_bar.debug(&raw, "Oops:"), "Oops:\n\n  foo bar;\n      ^ Near here");
    let at_start = Location { index: 0 };
    assert_eq!(at_start.debug(&raw, "M"), "M\n\nx;\n^ Near here");
    let past_end = Location { index: 100 };
    assert_eq!(past_end.debug(&raw, "E"), "E\n\nz;\n  ^ Near here");
}

#[test]
fn diagnostic_on_later_line() {
    let raw: Vec<char> = "a;\nb".chars().collect();
    let tokens = vec![
        Token { kind: Identifier, value: "a".to_string(), loc: Location { index: 0 } },
        Token { kind: Syntax, value: ";".to_string(), loc: Location { index: 1 } },
        Token { kind: Identifier, value: "b".to_string(), loc: Location { index: 3 } },
    ];
    let err = parse(&raw, tokens).unwrap_err();
    assert_eq!(err, "Expected semicolon after expression:\n\nb\n ^ Near here");
}

#[test]
fn problem_messages() {
    assert_eq!(Problem::InvalidToken.message(), "Invalid token while parsing:");
    assert_eq!(Problem::ExpectedSemicolon.message(), "Expected semicolon after expression:");
}
