use rlox::expr::{BinaryOpType, Expr, Literal, UnaryOpType};
use rlox::parser::{stringify_ast, Parser, ParserError};
use rlox::scanner::Scanner;
use rlox::token::TokenType;

fn parse(src: &str) -> Result<Expr, ParserError> {
    let tokens = Scanner::new(src.as_bytes().to_vec()).scan_tokens().unwrap();
    Parser::new(tokens).parse()
}

fn number(e: &Expr) -> String {
    match e {
        Expr::Literal(Literal::Number(n)) => n.clone(),
        other => panic!("not a number literal: {:?}", other),
    }
}

#[test]
fn multiplication_binds_tighter_than_addition() {
    let e = parse("1 + 2 * 3").unwrap();
    match &e {
        Expr::Binary(l, op, r) => {
            assert_eq!(number(l), "1");
            assert_eq!(op.ty, BinaryOpType::Plus);
            match &**r {
                Expr::Binary(a, op2, b) => {
                    assert_eq!(number(a), "2");
                    assert_eq!(op2.ty, BinaryOpType::Star);
                    assert_eq!(number(b), "3");
                }
                other => panic!("unexpected {:?}", other),
            }
        }
        other => panic!("unexpected {:?}", other),
    }
    assert_eq!(stringify_ast(&e), "(+ 1 (* 2 3))");
}

#[test]
fn subtraction_is_left_associative() {
    let e = parse("8 - 3 - 2").unwrap();
    assert_eq!(stringify_ast(&e), "(- (- 8 3) 2)");
}

#[test]
fn grouping_overrides_precedence() {
    let e = parse("(1 + 2) * 3").unwrap();
    assert_eq!(stringify_ast(&e), "(* (group (+ 1 2)) 3)");
}

#[test]
fn precedence_of_all_levels() {
    let e = parse("1 == 2 < 3 + 4 * -5").unwrap();
    assert_eq!(stringify_ast(&e), "(== 1 (< 2 (+ 3 (* 4 (- 5)))))");
    let e = parse("1 != 2 >= 3 - 4 / !true").unwrap();
    assert_eq!(stringify_ast(&e), "(!= 1 (>= 2 (- 3 (/ 4 (! true)))))");
}

#[test]
fn unary_is_right_recursive() {
    let e = parse("--1").unwrap();
    match &e {
        Expr::Unary(op, inner) => {
            assert_eq!(op.ty, UnaryOpType::Minus);
            assert!(matches!(&**inner, Expr::Unary(op2, _) if op2.ty == UnaryOpType::Minus));
        }
        other => panic!("unexpected {:?}", other),
    }
    assert_eq!(stringify_ast(&e), "(- (- 1))");
}

#[test]
fn literals_of_every_kind() {
    assert_eq!(stringify_ast(&parse("true").unwrap()), "true");
    assert_eq!(stringify_ast(&parse("false").unwrap()), "false");
    assert_eq!(stringify_ast(&parse("nil").unwrap()), "nil");
    assert_eq!(stringify_ast(&parse("\"hi\"").unwrap()), "hi");
    assert_eq!(stringify_ast(&parse("4.25").unwrap()), "4.25");
}

#[test]
fn operator_keeps_its_position() {
    let e = parse("1 +\n 2").unwrap();
    match e {
        Expr::Binary(_, op, _) => assert_eq!((op.line, op.col), (1, 3)),
        other => panic!("unexpected {:?}", other),
    }
}

#[test]
fn missing_closing_paren_reports_end_of_input() {
    let err = parse("(1 + 2").unwrap_err();
    assert_eq!(err.token.ty, TokenType::Eof);
    assert_eq!(err.message, "Expect ')' after expression.");
    assert_eq!((err.line, err.column), (1, 6));
}

#[test]
fn token_without_production_is_an_error() {
    let err = parse("1 + )").unwrap_err();
    assert_eq!(err.token.ty, TokenType::RightParen);
    assert_eq!(err.message, "Expect expression.");
    let err = parse("").unwrap_err();
    assert_eq!(err.token.ty, TokenType::Eof);
}

#[test]
fn first_error_inside_group_is_reported() {
    let err = parse("(1 + )").unwrap_err();
    assert_eq!(err.token.ty, TokenType::RightParen);
    assert_eq!(err.message, "Expect expression.");
}

#[test]
fn synchronize_resumes_after_semicolon() {
    let tokens = Scanner::new(b"+ ; 5".to_vec()).scan_tokens().unwrap();
    let mut parser = Parser::new(tokens);
    assert!(parser.parse().is_err());
    parser.synchronize();
    assert_eq!(stringify_ast(&parser.parse().unwrap()), "5");
}

#[test]
fn synchronize_stops_before_statement_keyword() {
    let tokens = Scanner::new(b"+ 1 2 var".to_vec()).scan_tokens().unwrap();
    let mut parser = Parser::new(tokens);
    assert!(parser.parse().is_err());
    parser.synchronize();
    let err = parser.parse().unwrap_err();
    assert_eq!(err.token.ty, TokenType::Var);
}

#[test]
fn operator_text() {
    let tokens = Scanner::new(b"<= !".to_vec()).scan_tokens().unwrap();
    let op = rlox::expr::BinaryOp::from_token(&tokens[0]);
    assert_eq!(op.ty, BinaryOpType::LessEqual);
    assert_eq!(op.text(), "<=");
    let un = rlox::expr::UnaryOp::from_token(&tokens[1]);
    assert_eq!(un.ty, UnaryOpType::Bang);
    assert_eq!(un.text(), "!");
}
