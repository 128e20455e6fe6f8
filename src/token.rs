use vstd::prelude::*;
use vstd::string::StringExecFns;
use crate::decimal::{decimal, decimal_string};

verus! {

/// Lexical category of a token.
#[derive(Debug, Clone, Copy, PartialEq, Eq, Structural)]
pub enum TokenType {
    // Single-character tokens.
    LeftParen,
    RightParen,
    LeftBrace,
    RightBrace,
    Comma,
    Dot,
    Minus,
    Plus,
    Semicolon,
    Slash,
    Star,
    // One or two character tokens.
    Bang,
    BangEqual,
    Equal,
    EqualEqual,
    Greater,
    GreaterEqual,
    Less,
    LessEqual,
    // Literals.
    Identifier,
    String,
    Number,
    // Keywords.
    And,
    Class,
    Else,
    False,
    Fun,
    For,
    If,
    Nil,
    Or,
    Print,
    Return,
    Super,
    This,
    True,
    Var,
    While,
    Eof,
}

/// Literal payload of a token.
///
/// A number keeps its decimal source text; its binary64 value is computed by
/// whoever evaluates it (see `interpreter::Arithmetic`).
#[derive(Debug, Clone)]
pub enum Literal {
    Identifier(String),
    Str(String),
    Number(String),
}

#[derive(Debug, Clone)]
pub struct Token {
    pub ty: TokenType,
    pub lexeme: String,
    pub literal: Option<Literal>,
    pub line: usize,
    pub col: usize,
}

/// Mathematical model of a literal.
pub enum LiteralModel {
    Identifier(Seq<char>),
    Str(Seq<char>),
    Number(Seq<char>),
}

/// Mathematical model of a token.
pub struct TokenModel {
    pub ty: TokenType,
    pub lexeme: Seq<char>,
    pub literal: Option<LiteralModel>,
    pub line: int,
    pub col: int,
}

impl View for Literal {
    type V = LiteralModel;

    open spec fn view(&self) -> LiteralModel {
        match self {
            Literal::Identifier(s) => LiteralModel::Identifier(s@),
            Literal::Str(s) => LiteralModel::Str(s@),
            Literal::Number(s) => LiteralModel::Number(s@),
        }
    }
}

impl View for Token {
    type V = TokenModel;

    open spec fn view(&self) -> TokenModel {
        TokenModel {
            ty: self.ty,
            lexeme: self.lexeme@,
            literal: match self.literal {
                Some(l) => Some(l@),
                None => None,
            },
            line: self.line as int,
            col: self.col as int,
        }
    }
}

/// The models of a sequence of tokens.
pub open spec fn tokens_model(v: Seq<Token>) -> Seq<TokenModel> {
    v.map_values(|t: Token| t@)
}

/// The name of a token category.
pub open spec fn category_name(t: TokenType) -> Seq<char> {
    match t {
        TokenType::LeftParen => "LeftParen"@,
        TokenType::RightParen => "RightParen"@,
        TokenType::LeftBrace => "LeftBrace"@,
        TokenType::RightBrace => "RightBrace"@,
        TokenType::Comma => "Comma"@,
        TokenType::Dot => "Dot"@,
        TokenType::Minus => "Minus"@,
        TokenType::Plus => "Plus"@,
        TokenType::Semicolon => "Semicolon"@,
        TokenType::Slash => "Slash"@,
        TokenType::Star => "Star"@,
        TokenType::Bang => "Bang"@,
        TokenType::BangEqual => "BangEqual"@,
        TokenType::Equal => "Equal"@,
        TokenType::EqualEqual => "EqualEqual"@,
        TokenType::Greater => "Greater"@,
        TokenType::GreaterEqual => "GreaterEqual"@,
        TokenType::Less => "Less"@,
        TokenType::LessEqual => "LessEqual"@,
        TokenType::Identifier => "Identifier"@,
        TokenType::String => "String"@,
        TokenType::Number => "Number"@,
        TokenType::And => "And"@,
        TokenType::Class => "Class"@,
        TokenType::Else => "Else"@,
        TokenType::False => "False"@,
        TokenType::Fun => "Fun"@,
        TokenType::For => "For"@,
        TokenType::If => "If"@,
        TokenType::Nil => "Nil"@,
        TokenType::Or => "Or"@,
        TokenType::Print => "Print"@,
        TokenType::Return => "Return"@,
        TokenType::Super => "Super"@,
        TokenType::This => "This"@,
        TokenType::True => "True"@,
        TokenType::Var => "Var"@,
        TokenType::While => "While"@,
        TokenType::Eof => "Eof"@,
    }
}

impl TokenType {
    /// The category's name.
    pub fn name(&self) -> (r: String)
        ensures
            r@ == category_name(*self),
    {
        match self {
            TokenType::LeftParen => "LeftParen".to_owned(),
            TokenType::RightParen => "RightParen".to_owned(),
            TokenType::LeftBrace => "LeftBrace".to_owned(),
            TokenType::RightBrace => "RightBrace".to_owned(),
            TokenType::Comma => "Comma".to_owned(),
            TokenType::Dot => "Dot".to_owned(),
            TokenType::Minus => "Minus".to_owned(),
            TokenType::Plus => "Plus".to_owned(),
            TokenType::Semicolon => "Semicolon".to_owned(),
            TokenType::Slash => "Slash".to_owned(),
            TokenType::Star => "Star".to_owned(),
            TokenType::Bang => "Bang".to_owned(),
            TokenType::BangEqual => "BangEqual".to_owned(),
            TokenType::Equal => "Equal".to_owned(),
            TokenType::EqualEqual => "EqualEqual".to_owned(),
            TokenType::Greater => "Greater".to_owned(),
            TokenType::GreaterEqual => "GreaterEqual".to_owned(),
            TokenType::Less => "Less".to_owned(),
            TokenType::LessEqual => "LessEqual".to_owned(),
            TokenType::Identifier => "Identifier".to_owned(),
            TokenType::String => "String".to_owned(),
            TokenType::Number => "Number".to_owned(),
            TokenType::And => "And".to_owned(),
            TokenType::Class => "Class".to_owned(),
            TokenType::Else => "Else".to_owned(),
            TokenType::False => "False".to_owned(),
            TokenType::Fun => "Fun".to_owned(),
            TokenType::For => "For".to_owned(),
            TokenType::If => "If".to_owned(),
            TokenType::Nil => "Nil".to_owned(),
            TokenType::Or => "Or".to_owned(),
            TokenType::Print => "Print".to_owned(),
            TokenType::Return => "Return".to_owned(),
            TokenType::Super => "Super".to_owned(),
            TokenType::This => "This".to_owned(),
            TokenType::True => "True".to_owned(),
            TokenType::Var => "Var".to_owned(),
            TokenType::While => "While".to_owned(),
            TokenType::Eof => "Eof".to_owned(),
        }
    }
}

/// How a token's literal is shown.
pub open spec fn literal_text(l: Option<LiteralModel>) -> Seq<char> {
    match l {
        None => "None"@,
        Some(LiteralModel::Identifier(s)) => "Some(Identifier(\""@ + s + "\"))"@,
        Some(LiteralModel::Str(s)) => "Some(Str(\""@ + s + "\"))"@,
        Some(LiteralModel::Number(s)) => "Some(Number("@ + s + "))"@,
    }
}

/// How a token is shown: category, lexeme, literal and line.
pub open spec fn token_text(t: TokenModel) -> Seq<char> {
    category_name(t.ty) + " "@ + t.lexeme + " "@ + literal_text(t.literal) + " ("@ + decimal(t.line as nat) + ")"@
}

impl Literal {
    /// A copy of this literal.
    pub fn duplicate(&self) -> (r: Literal)
        ensures
            r == *self,
    {
        match self {
            Literal::Identifier(s) => Literal::Identifier(s.clone()),
            Literal::Str(s) => Literal::Str(s.clone()),
            Literal::Number(s) => Literal::Number(s.clone()),
        }
    }
}

impl Token {
    pub fn new(ty: TokenType, lexeme: String, literal: Option<Literal>, line: usize, col: usize) -> (r: Token)
        ensures
            r.ty == ty,
            r.lexeme == lexeme,
            r.literal == literal,
            r.line == line,
            r.col == col,
    {
        Token { ty, lexeme, literal, line, col }
    }

    /// A copy of this token.
    pub fn duplicate(&self) -> (r: Token)
        ensures
            r == *self,
    {
        let literal = match &self.literal {
            Some(l) => Some(l.duplicate()),
            None => None,
        };
        Token { ty: self.ty, lexeme: self.lexeme.clone(), literal, line: self.line, col: self.col }
    }

    /// The token shown as category, lexeme, literal and line.
    pub fn to_string(&self) -> (r: String)
        ensures
            r@ == token_text(self@),
    {
        let mut s = self.ty.name();
        s.append(" ");
        s.append(self.lexeme.as_str());
        s.append(" ");
        match &self.literal {
            None => s.append("None"),
            Some(Literal::Identifier(x)) => {
                s.append("Some(Identifier(\"");
                s.append(x.as_str());
                s.append("\"))");
            },
            Some(Literal::Str(x)) => {
                s.append("Some(Str(\"");
                s.append(x.as_str());
                s.append("\"))");
            },
            Some(Literal::Number(x)) => {
                s.append("Some(Number(");
                s.append(x.as_str());
                s.append("))");
            },
        }
        s.append(" (");
        s.append(decimal_string(self.line).as_str());
        s.append(")");
        s
    }
}

} // verus!
