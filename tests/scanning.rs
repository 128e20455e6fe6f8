use rlox::scanner::Scanner;
use rlox::token::{Literal, Token, TokenType};

fn scan(src: &str) -> Result<Vec<Token>, rlox::scanner::Error> {
    let mut scanner = Scanner::new(src.as_bytes().to_vec());
    scanner.scan_tokens()
}

fn types(tokens: &[Token]) -> Vec<TokenType> {
    tokens.iter().map(|t| t.ty).collect()
}

fn number_text(t: &Token) -> String {
    match &t.literal {
        Some(Literal::Number(n)) => n.clone(),
        other => panic!("not a number literal: {:?}", other),
    }
}

#[test]
fn integer_literal_is_one_number_token() {
    let tokens = scan("123").unwrap();
    assert_eq!(types(&tokens), vec![TokenType::Number, TokenType::Eof]);
    assert_eq!(tokens[0].lexeme, "123");
    assert_eq!(number_text(&tokens[0]).parse::<f64>().unwrap(), 123.0);
    assert_eq!((tokens[0].line, tokens[0].col), (1, 3));
    assert_eq!((tokens[1].line, tokens[1].col), (1, 3));
}

#[test]
fn fractional_literal_is_one_number_token() {
    let tokens = scan("12.5").unwrap();
    assert_eq!(types(&tokens), vec![TokenType::Number, TokenType::Eof]);
    assert_eq!(number_text(&tokens[0]).parse::<f64>().unwrap(), 12.5);
}

#[test]
fn trailing_dot_is_a_separate_token() {
    let tokens = scan("12.").unwrap();
    assert_eq!(types(&tokens), vec![TokenType::Number, TokenType::Dot, TokenType::Eof]);
    assert_eq!(tokens[0].lexeme, "12");
    assert_eq!(number_text(&tokens[0]).parse::<f64>().unwrap(), 12.0);
    assert_eq!(tokens[1].lexeme, ".");
}

#[test]
fn one_and_two_character_operators() {
    let tokens = scan("!= == <= >= ! = < > ( ) { } , . - + ; * /").unwrap();
    assert_eq!(
        types(&tokens),
        vec![
            TokenType::BangEqual,
            TokenType::EqualEqual,
            TokenType::LessEqual,
            TokenType::GreaterEqual,
            TokenType::Bang,
            TokenType::Equal,
            TokenType::Less,
            TokenType::Greater,
            TokenType::LeftParen,
            TokenType::RightParen,
            TokenType::LeftBrace,
            TokenType::RightBrace,
            TokenType::Comma,
            TokenType::Dot,
            TokenType::Minus,
            TokenType::Plus,
            TokenType::Semicolon,
            TokenType::Star,
            TokenType::Slash,
            TokenType::Eof,
        ]
    );
    assert_eq!(tokens[0].lexeme, "!=");
    assert_eq!(tokens[0].col, 2);
}

#[test]
fn lookahead_stops_at_end_of_input() {
    let tokens = scan("!").unwrap();
    assert_eq!(types(&tokens), vec![TokenType::Bang, TokenType::Eof]);
}

#[test]
fn comments_and_whitespace_make_no_tokens() {
    let tokens = scan("1 // note\n\t2\r").unwrap();
    assert_eq!(types(&tokens), vec![TokenType::Number, TokenType::Number, TokenType::Eof]);
    assert_eq!((tokens[1].line, tokens[1].col), (2, 2));
    assert_eq!((tokens[2].line, tokens[2].col), (2, 3));
}

#[test]
fn comment_runs_to_end_of_input() {
    let tokens = scan("// only").unwrap();
    assert_eq!(types(&tokens), vec![TokenType::Eof]);
}

#[test]
fn empty_source_gives_only_end_of_input() {
    let tokens = scan("").unwrap();
    assert_eq!(types(&tokens), vec![TokenType::Eof]);
    assert_eq!((tokens[0].line, tokens[0].col), (1, 0));
}

#[test]
fn string_literal_excludes_quotes_and_spans_lines() {
    let tokens = scan("\"a\nb\"").unwrap();
    assert_eq!(types(&tokens), vec![TokenType::String, TokenType::Eof]);
    assert_eq!(tokens[0].lexeme, "\"a\nb\"");
    match &tokens[0].literal {
        Some(Literal::Str(s)) => assert_eq!(s, "a\nb"),
        other => panic!("unexpected literal {:?}", other),
    }
    assert_eq!(tokens[0].line, 2);
}

#[test]
fn keywords_and_identifiers() {
    let tokens = scan("and orchid _x nil while").unwrap();
    assert_eq!(
        types(&tokens),
        vec![
            TokenType::And,
            TokenType::Identifier,
            TokenType::Identifier,
            TokenType::Nil,
            TokenType::While,
            TokenType::Eof,
        ]
    );
    assert_eq!(tokens[1].lexeme, "orchid");
    assert!(tokens[1].literal.is_none());
}

#[test]
fn every_keyword_is_recognised() {
    let words = [
        ("and", TokenType::And),
        ("class", TokenType::Class),
        ("else", TokenType::Else),
        ("false", TokenType::False),
        ("for", TokenType::For),
        ("fun", TokenType::Fun),
        ("if", TokenType::If),
        ("nil", TokenType::Nil),
        ("or", TokenType::Or),
        ("print", TokenType::Print),
        ("return", TokenType::Return),
        ("super", TokenType::Super),
        ("this", TokenType::This),
        ("true", TokenType::True),
        ("var", TokenType::Var),
        ("while", TokenType::While),
    ];
    for (w, ty) in words {
        let tokens = scan(w).unwrap();
        assert_eq!(tokens[0].ty, ty, "{}", w);
    }
}

#[test]
fn identifiers_take_unicode_letters() {
    let tokens = scan("café").unwrap();
    assert_eq!(types(&tokens), vec![TokenType::Identifier, TokenType::Eof]);
    assert_eq!(tokens[0].lexeme, "café");
    assert_eq!(tokens[0].col, 4);
}

#[test]
fn digits_end_an_identifier() {
    let tokens = scan("ab1").unwrap();
    assert_eq!(types(&tokens), vec![TokenType::Identifier, TokenType::Number, TokenType::Eof]);
    assert_eq!(tokens[0].lexeme, "ab");
}

#[test]
fn unterminated_string_is_a_lexical_error() {
    let err = scan("\"abc").unwrap_err();
    assert_eq!(err.message, "Unterminated string.");
    assert_eq!(err.line, 1);
}

#[test]
fn unterminated_string_reports_line_where_input_ended() {
    let err = scan("\"a\nb\nc").unwrap_err();
    assert_eq!(err.message, "Unterminated string.");
    assert_eq!(err.line, 3);
}

#[test]
fn unexpected_character_is_a_lexical_error() {
    let err = scan("1 + @").unwrap_err();
    assert_eq!(err.message, "Unexpected character '@'.");
    assert_eq!((err.line, err.col), (1, 5));
}

#[test]
fn newline_moves_to_next_line() {
    let tokens = scan("1\n\n  2").unwrap();
    assert_eq!((tokens[1].line, tokens[1].col), (3, 3));
}

#[test]
fn scanner_reports_end_of_input() {
    let mut scanner = Scanner::new(b"x".to_vec());
    assert!(!scanner.is_at_end());
    scanner.scan_tokens().unwrap();
    assert!(scanner.is_at_end());
}

#[test]
fn is_identifier_accepts_letters_and_underscore() {
    assert!(rlox::scanner::is_identifier('a'));
    assert!(rlox::scanner::is_identifier('_'));
    assert!(rlox::scanner::is_identifier('é'));
    assert!(!rlox::scanner::is_identifier('1'));
    assert!(!rlox::scanner::is_identifier(' '));
}

#[test]
fn token_to_string_shows_category_lexeme_literal_and_line() {
    let tokens = scan("12 \"ab\"\nor").unwrap();
    assert_eq!(tokens[0].to_string(), "Number 12 Some(Number(12)) (1)");
    assert_eq!(tokens[1].to_string(), "String \"ab\" Some(Str(\"ab\")) (1)");
    assert_eq!(tokens[2].to_string(), "Or or None (2)");
    assert_eq!(tokens[3].to_string(), "Eof  None (2)");
}

#[test]
fn token_new_keeps_its_fields() {
    let t = Token::new(TokenType::Identifier, "x".to_string(), None, 4, 2);
    assert_eq!((t.ty, t.lexeme.as_str(), t.line, t.col), (TokenType::Identifier, "x", 4, 2));
    assert!(t.literal.is_none());
    assert_eq!(TokenType::LessEqual.name(), "LessEqual");
}
