use vstd::prelude::*;
use crate::token::{Token, TokenModel, TokenType};

verus! {

/// An expression tree. Each node owns its children.
#[derive(Debug)]
pub enum Expr {
    Literal(Literal),
    Unary(UnaryOp, Box<Expr>),
    Binary(Box<Expr>, BinaryOp, Box<Expr>),
    Grouping(Box<Expr>),
}

/// A position in the source text.
#[derive(Debug, Clone, Copy, PartialEq, Eq, Structural)]
pub struct SourceLocation {
    pub line: usize,
    pub col: i64,
}

#[derive(Debug, Clone, Copy, PartialEq, Eq, Structural)]
pub enum LogicalOp {
    Or,
    And,
}

/// A name as written in the source, with its position.
#[derive(Debug, Clone)]
pub struct Symbol {
    pub name: String,
    pub line: usize,
    pub col: i64,
}

/// A function declaration.
#[derive(Debug)]
pub struct FunDecl {
    pub name: Symbol,
    pub params: Vec<Symbol>,
    pub body: Vec<Stmt>,
}

/// An anonymous function.
#[derive(Debug)]
pub struct LambdaDecl {
    pub params: Vec<Symbol>,
    pub body: Vec<Stmt>,
}

/// A class declaration.
#[derive(Debug)]
pub struct ClassDecl {
    pub name: Symbol,
    pub superclass: Option<Symbol>,
    pub methods: Vec<FunDecl>,
}

/// Statements of the larger language; this crate parses and evaluates
/// single expressions only.
#[derive(Debug)]
pub enum Stmt {
    Expr(Expr),
    FunDecl(FunDecl),
    ClassDecl(ClassDecl),
    If(Expr, Box<Stmt>, Option<Box<Stmt>>),
    Print(Expr),
    VarDecl(Symbol, Option<Expr>),
    Block(Vec<Stmt>),
    Return(SourceLocation, Option<Expr>),
    While(Expr, Box<Stmt>),
}

#[derive(Debug, Clone, Copy, PartialEq, Eq, Structural)]
pub enum UnaryOpType {
    Minus,
    Bang,
}

/// A prefix operator with the position of its token.
#[derive(Debug, Clone, Copy, PartialEq, Eq, Structural)]
pub struct UnaryOp {
    pub ty: UnaryOpType,
    pub line: usize,
    pub col: i64,
}

#[derive(Debug, Clone, Copy, PartialEq, Eq, Structural)]
pub enum BinaryOpType {
    EqualEqual,
    NotEqual,
    Less,
    LessEqual,
    Greater,
    GreaterEqual,
    Plus,
    Minus,
    Star,
    Slash,
}

/// An infix operator with the position of its token.
#[derive(Debug, Clone, Copy, PartialEq, Eq, Structural)]
pub struct BinaryOp {
    pub ty: BinaryOpType,
    pub line: usize,
    pub col: i64,
}

/// A literal in an expression. A number keeps its decimal source text.
#[derive(Debug, Clone)]
pub enum Literal {
    Number(String),
    String(String),
    Boolean(bool),
    Nil,
}

/// Mathematical model of a literal.
pub enum LiteralModel {
    Number(Seq<char>),
    String(Seq<char>),
    Boolean(bool),
    Nil,
}

/// Mathematical model of an expression tree.
pub enum ExprModel {
    Literal(LiteralModel),
    Unary(UnaryOp, Box<ExprModel>),
    Binary(Box<ExprModel>, BinaryOp, Box<ExprModel>),
    Grouping(Box<ExprModel>),
}

impl View for Literal {
    type V = LiteralModel;

    open spec fn view(&self) -> LiteralModel {
        match self {
            Literal::Number(s) => LiteralModel::Number(s@),
            Literal::String(s) => LiteralModel::String(s@),
            Literal::Boolean(b) => LiteralModel::Boolean(*b),
            Literal::Nil => LiteralModel::Nil,
        }
    }
}

pub open spec fn expr_model(e: Expr) -> ExprModel
    decreases e,
{
    match e {
        Expr::Literal(l) => ExprModel::Literal(l@),
        Expr::Unary(op, x) => ExprModel::Unary(op, Box::new(expr_model(*x))),
        Expr::Binary(l, op, r) => ExprModel::Binary(Box::new(expr_model(*l)), op, Box::new(expr_model(*r))),
        Expr::Grouping(x) => ExprModel::Grouping(Box::new(expr_model(*x))),
    }
}

impl View for Expr {
    type V = ExprModel;

    open spec fn view(&self) -> ExprModel {
        expr_model(*self)
    }
}

/// The prefix operator a token category stands for.
pub open spec fn unary_type(t: TokenType) -> Option<UnaryOpType> {
    match t {
        TokenType::Minus => Some(UnaryOpType::Minus),
        TokenType::Bang => Some(UnaryOpType::Bang),
        _ => None,
    }
}

/// The infix operator a token category stands for.
pub open spec fn binary_type(t: TokenType) -> Option<BinaryOpType> {
    match t {
        TokenType::EqualEqual => Some(BinaryOpType::EqualEqual),
        TokenType::BangEqual => Some(BinaryOpType::NotEqual),
        TokenType::Less => Some(BinaryOpType::Less),
        TokenType::LessEqual => Some(BinaryOpType::LessEqual),
        TokenType::Greater => Some(BinaryOpType::Greater),
        TokenType::GreaterEqual => Some(BinaryOpType::GreaterEqual),
        TokenType::Plus => Some(BinaryOpType::Plus),
        TokenType::Minus => Some(BinaryOpType::Minus),
        TokenType::Star => Some(BinaryOpType::Star),
        TokenType::Slash => Some(BinaryOpType::Slash),
        _ => None,
    }
}

pub open spec fn unary_op_of(t: TokenModel) -> UnaryOp {
    UnaryOp { ty: unary_type(t.ty)->0, line: t.line as usize, col: t.col as i64 }
}

pub open spec fn binary_op_of(t: TokenModel) -> BinaryOp {
    BinaryOp { ty: binary_type(t.ty)->0, line: t.line as usize, col: t.col as i64 }
}

pub open spec fn unary_text(t: UnaryOpType) -> Seq<char> {
    match t {
        UnaryOpType::Minus => "-"@,
        UnaryOpType::Bang => "!"@,
    }
}

pub open spec fn binary_text(t: BinaryOpType) -> Seq<char> {
    match t {
        BinaryOpType::EqualEqual => "=="@,
        BinaryOpType::NotEqual => "!="@,
        BinaryOpType::Less => "<"@,
        BinaryOpType::LessEqual => "<="@,
        BinaryOpType::Greater => ">"@,
        BinaryOpType::GreaterEqual => ">="@,
        BinaryOpType::Plus => "+"@,
        BinaryOpType::Minus => "-"@,
        BinaryOpType::Star => "*"@,
        BinaryOpType::Slash => "/"@,
    }
}

impl UnaryOp {
    /// The operator written by a `-` or `!` token.
    pub fn from_token(token: &Token) -> (r: UnaryOp)
        requires
            unary_type(token.ty) is Some,
        ensures
            r == unary_op_of(token@),
    {
        let ty = match token.ty {
            TokenType::Minus => UnaryOpType::Minus,
            _ => UnaryOpType::Bang,
        };
        UnaryOp { ty, line: token.line, col: token.col as i64 }
    }

    /// The operator's source text.
    pub fn text(&self) -> (r: String)
        ensures
            r@ == unary_text(self.ty),
    {
        match self.ty {
            UnaryOpType::Minus => "-".to_owned(),
            UnaryOpType::Bang => "!".to_owned(),
        }
    }
}

impl BinaryOp {
    /// The operator written by a comparison, equality or arithmetic token.
    pub fn from_token(token: &Token) -> (r: BinaryOp)
        requires
            binary_type(token.ty) is Some,
        ensures
            r == binary_op_of(token@),
    {
        let ty = match token.ty {
            TokenType::EqualEqual => BinaryOpType::EqualEqual,
            TokenType::BangEqual => BinaryOpType::NotEqual,
            TokenType::Less => BinaryOpType::Less,
            TokenType::LessEqual => BinaryOpType::LessEqual,
            TokenType::Greater => BinaryOpType::Greater,
            TokenType::GreaterEqual => BinaryOpType::GreaterEqual,
            TokenType::Plus => BinaryOpType::Plus,
            TokenType::Minus => BinaryOpType::Minus,
            TokenType::Star => BinaryOpType::Star,
            _ => BinaryOpType::Slash,
        };
        BinaryOp { ty, line: token.line, col: token.col as i64 }
    }

    /// The operator's source text.
    pub fn text(&self) -> (r: String)
        ensures
            r@ == binary_text(self.ty),
    {
        match self.ty {
            BinaryOpType::EqualEqual => "==".to_owned(),
            BinaryOpType::NotEqual => "!=".to_owned(),
            BinaryOpType::Less => "<".to_owned(),
            BinaryOpType::LessEqual => "<=".to_owned(),
            BinaryOpType::Greater => ">".to_owned(),
            BinaryOpType::GreaterEqual => ">=".to_owned(),
            BinaryOpType::Plus => "+".to_owned(),
            BinaryOpType::Minus => "-".to_owned(),
            BinaryOpType::Star => "*".to_owned(),
            BinaryOpType::Slash => "/".to_owned(),
        }
    }
}

} // verus!
