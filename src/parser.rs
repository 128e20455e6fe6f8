use vstd::prelude::*;
use vstd::string::StringExecFns;
use crate::expr::{
    binary_op_of, binary_text, unary_op_of, unary_text, BinaryOp, Expr, ExprModel, Literal,
    LiteralModel, UnaryOp,
};
use crate::token::{LiteralModel as TokenLiteral, Token, TokenModel, TokenType};
use crate::token;

verus! {

/// A parse error: the token where parsing stopped, and why.
#[derive(Debug, Clone)]
pub struct ParserError {
    pub token: Token,
    pub message: String,
    pub line: usize,
    pub column: usize,
}

pub struct ParserErrorModel {
    pub token: TokenModel,
    pub message: Seq<char>,
}

impl View for ParserError {
    type V = ParserErrorModel;

    open spec fn view(&self) -> ParserErrorModel {
        ParserErrorModel { token: self.token@, message: self.message@ }
    }
}

pub open spec fn missing_paren_message() -> Seq<char> {
    "Expect ')' after expression."@
}

pub open spec fn expect_expression_message() -> Seq<char> {
    "Expect expression."@
}

/// A token sequence the parser can walk: it ends with the end-of-input token.
pub open spec fn tokens_wf(ts: Seq<TokenModel>) -> bool {
    ts.len() > 0 && ts.last().ty == TokenType::Eof
}

/// An expression and the position after it, or the error found.
///
/// The grammar functions below guard their positions so that their recursion
/// is well founded; the guards' `else` branches (an error with an empty
/// message) are never taken on a token sequence the parser accepts, as the
/// exec functions' `advanced` results show.
pub type ParseResult = Result<(ExprModel, int), ParserErrorModel>;

pub open spec fn fail(t: TokenModel, message: Seq<char>) -> ParseResult {
    Err(ParserErrorModel { token: t, message })
}

/// The infix operator that binary level `lv` takes at a token category:
/// level 0 is factor (`/ *`), 1 term (`- +`), 2 comparison, 3 equality.
pub open spec fn level_op(lv: nat, t: TokenType) -> bool {
    if lv == 0 {
        t == TokenType::Slash || t == TokenType::Star
    } else if lv == 1 {
        t == TokenType::Minus || t == TokenType::Plus
    } else if lv == 2 {
        t == TokenType::Greater || t == TokenType::GreaterEqual || t == TokenType::Less
            || t == TokenType::LessEqual
    } else {
        t == TokenType::BangEqual || t == TokenType::EqualEqual
    }
}

/// `expression → equality`.
pub open spec fn expression(ts: Seq<TokenModel>, pos: int) -> ParseResult
    decreases ts.len() - pos, 10int,
{
    level(ts, pos, 3)
}

/// A binary level: one operand of the next level, then the operators of this
/// level, each with its right operand, folded to the left.
pub open spec fn level(ts: Seq<TokenModel>, pos: int, lv: nat) -> ParseResult
    decreases ts.len() - pos, 2 * lv + 3,
{
    if 0 <= pos < ts.len() && lv <= 3 {
        match operand(ts, pos, lv) {
            Err(e) => Err(e),
            Ok((left, p)) => if pos <= p < ts.len() {
                level_rest(ts, lv, left, p)
            } else {
                fail(ts[p], Seq::empty())
            },
        }
    } else {
        fail(ts[pos], Seq::empty())
    }
}

/// What level `lv` parses its operands with.
pub open spec fn operand(ts: Seq<TokenModel>, pos: int, lv: nat) -> ParseResult
    decreases ts.len() - pos, 2 * lv + 2,
{
    if 0 <= pos < ts.len() && 1 <= lv <= 3 {
        level(ts, pos, (lv - 1) as nat)
    } else {
        unary(ts, pos)
    }
}

/// The loop of a binary level, with `left` parsed and the parser at `p`.
pub open spec fn level_rest(ts: Seq<TokenModel>, lv: nat, left: ExprModel, p: int) -> ParseResult
    decreases ts.len() - p, 2 * lv + 2,
{
    if 0 <= p < ts.len() && lv <= 3 && level_op(lv, ts[p].ty) {
        match operand(ts, p + 1, lv) {
            Err(e) => Err(e),
            Ok((right, q)) => if p < q < ts.len() {
                level_rest(
                    ts,
                    lv,
                    ExprModel::Binary(Box::new(left), binary_op_of(ts[p]), Box::new(right)),
                    q,
                )
            } else {
                fail(ts[p], Seq::empty())
            },
        }
    } else {
        Ok((left, p))
    }
}

/// `unary → ( "!" | "-" ) unary | primary`.
pub open spec fn unary(ts: Seq<TokenModel>, pos: int) -> ParseResult
    decreases ts.len() - pos, 1int,
{
    if 0 <= pos < ts.len() && (ts[pos].ty == TokenType::Bang || ts[pos].ty == TokenType::Minus) {
        match unary(ts, pos + 1) {
            Err(e) => Err(e),
            Ok((right, q)) => Ok((ExprModel::Unary(unary_op_of(ts[pos]), Box::new(right)), q)),
        }
    } else {
        primary(ts, pos)
    }
}

/// `primary → NUMBER | STRING | "true" | "false" | "nil" | "(" expression ")"`.
pub open spec fn primary(ts: Seq<TokenModel>, pos: int) -> ParseResult
    decreases ts.len() - pos, 0int,
{
    if !(0 <= pos < ts.len()) {
        fail(ts[pos], Seq::empty())
    } else {
        let t = ts[pos];
        if t.ty == TokenType::False {
            Ok((ExprModel::Literal(LiteralModel::Boolean(false)), pos + 1))
        } else if t.ty == TokenType::True {
            Ok((ExprModel::Literal(LiteralModel::Boolean(true)), pos + 1))
        } else if t.ty == TokenType::Nil {
            Ok((ExprModel::Literal(LiteralModel::Nil), pos + 1))
        } else if t.ty == TokenType::Number && t.literal matches Some(TokenLiteral::Number(n)) {
            Ok((ExprModel::Literal(LiteralModel::Number(t.literal->0->Number_0)), pos + 1))
        } else if t.ty == TokenType::String && t.literal matches Some(TokenLiteral::Str(s)) {
            Ok((ExprModel::Literal(LiteralModel::String(t.literal->0->Str_0)), pos + 1))
        } else if t.ty == TokenType::LeftParen {
            match expression(ts, pos + 1) {
                Err(e) => Err(e),
                Ok((inner, q)) => if 0 <= q < ts.len() && ts[q].ty == TokenType::RightParen {
                    Ok((ExprModel::Grouping(Box::new(inner)), q + 1))
                } else {
                    fail(ts[q], missing_paren_message())
                },
            }
        } else {
            fail(t, expect_expression_message())
        }
    }
}

/// The meaning of a parse run that started at `pos` on tokens `ts`.
pub open spec fn parsed_as(r: Result<(Expr, usize), ParserError>, spec_r: ParseResult) -> bool {
    match r {
        Ok((e, p)) => spec_r == Ok::<(ExprModel, int), ParserErrorModel>((e@, p as int)),
        Err(err) => spec_r == Err::<(ExprModel, int), ParserErrorModel>(err@),
    }
}

pub open spec fn advanced(r: Result<(Expr, usize), ParserError>, pos: int, len: int) -> bool {
    r matches Ok((_, p)) ==> pos < p < len
}

impl ParserError {
    /// An error at `token`, which it carries with its position.
    pub fn new(token: &Token, message: String) -> (r: ParserError)
        ensures
            r@ == (ParserErrorModel { token: token@, message: message@ }),
            r.line == token.line,
            r.column == token.col,
    {
        ParserError { token: token.duplicate(), message, line: token.line, column: token.col }
    }
}

fn binary_level(ts: &Vec<Token>, pos: usize, lv: u8) -> (r: Result<(Expr, usize), ParserError>)
    requires
        tokens_wf(token::tokens_model(ts@)),
        pos < ts@.len(),
        lv <= 3,
    ensures
        parsed_as(r, level(token::tokens_model(ts@), pos as int, lv as nat)),
        advanced(r, pos as int, ts@.len() as int),
    decreases ts@.len() - pos, 2 * lv + 3,
{
    let ghost m = token::tokens_model(ts@);
    let n = ts.len();
    let first = if lv == 0 {
        unary_expr(ts, pos)
    } else {
        binary_level(ts, pos, lv - 1)
    };
    let (mut expr, mut p) = match first {
        Ok(x) => x,
        Err(e) => return Err(e),
    };
    assert(level(m, pos as int, lv as nat) == level_rest(m, lv as nat, expr@, p as int));
    loop
        invariant
            tokens_wf(m),
            m == token::tokens_model(ts@),
            n == ts@.len(),
            lv <= 3,
            pos < p < ts@.len(),
            level(m, pos as int, lv as nat) == level_rest(m, lv as nat, expr@, p as int),
        decreases ts@.len() - p,
    {
        let ty = ts[p].ty;
        let at_op = if lv == 0 {
            ty == TokenType::Slash || ty == TokenType::Star
        } else if lv == 1 {
            ty == TokenType::Minus || ty == TokenType::Plus
        } else if lv == 2 {
            ty == TokenType::Greater || ty == TokenType::GreaterEqual || ty == TokenType::Less
                || ty == TokenType::LessEqual
        } else {
            ty == TokenType::BangEqual || ty == TokenType::EqualEqual
        };
        assert(m[p as int] == ts@[p as int]@);
        assert(m[m.len() - 1] == ts@[ts@.len() - 1]@);
        if !at_op {
            return Ok((expr, p));
        }
        let op = BinaryOp::from_token(&ts[p]);
        let next = if lv == 0 {
            unary_expr(ts, p + 1)
        } else {
            binary_level(ts, p + 1, lv - 1)
        };
        assert(level_op(lv as nat, m[p as int].ty) == at_op);
        assert(operand(m, p + 1, lv as nat) == if lv == 0 {
            unary(m, p + 1)
        } else {
            level(m, p + 1, (lv - 1) as nat)
        });
        let ghost left = expr@;
        match next {
            Ok((right, q)) => {
                expr = Expr::Binary(Box::new(expr), op, Box::new(right));
                assert(expr@ == ExprModel::Binary(Box::new(left), binary_op_of(m[p as int]), Box::new(right@)));
                p = q;
            },
            Err(e) => {
                return Err(e);
            },
        }
    }
}

fn unary_expr(ts: &Vec<Token>, pos: usize) -> (r: Result<(Expr, usize), ParserError>)
    requires
        tokens_wf(token::tokens_model(ts@)),
        pos < ts@.len(),
    ensures
        parsed_as(r, unary(token::tokens_model(ts@), pos as int)),
        advanced(r, pos as int, ts@.len() as int),
    decreases ts@.len() - pos, 1int,
{
    let ghost m = token::tokens_model(ts@);
    let n = ts.len();
    assert(m[pos as int] == ts@[pos as int]@);
    let ty = ts[pos].ty;
    if ty == TokenType::Bang || ty == TokenType::Minus {
        assert(m[m.len() - 1] == ts@[ts@.len() - 1]@);
        let op = UnaryOp::from_token(&ts[pos]);
        match unary_expr(ts, pos + 1) {
            Ok((right, q)) => Ok((Expr::Unary(op, Box::new(right)), q)),
            Err(e) => Err(e),
        }
    } else {
        primary_expr(ts, pos)
    }
}

fn primary_expr(ts: &Vec<Token>, pos: usize) -> (r: Result<(Expr, usize), ParserError>)
    requires
        tokens_wf(token::tokens_model(ts@)),
        pos < ts@.len(),
    ensures
        parsed_as(r, primary(token::tokens_model(ts@), pos as int)),
        advanced(r, pos as int, ts@.len() as int),
    decreases ts@.len() - pos, 0int,
{
    let ghost m = token::tokens_model(ts@);
    let n = ts.len();
    assert(m[pos as int] == ts@[pos as int]@);
    assert(m[m.len() - 1] == ts@[ts@.len() - 1]@);
    let t = &ts[pos];
    if t.ty == TokenType::False {
        return Ok((Expr::Literal(Literal::Boolean(false)), pos + 1));
    } else if t.ty == TokenType::True {
        return Ok((Expr::Literal(Literal::Boolean(true)), pos + 1));
    } else if t.ty == TokenType::Nil {
        return Ok((Expr::Literal(Literal::Nil), pos + 1));
    } else if t.ty == TokenType::Number {
        if let Some(token::Literal::Number(n)) = &t.literal {
            return Ok((Expr::Literal(Literal::Number(n.clone())), pos + 1));
        }
    } else if t.ty == TokenType::String {
        if let Some(token::Literal::Str(s)) = &t.literal {
            return Ok((Expr::Literal(Literal::String(s.clone())), pos + 1));
        }
    } else if t.ty == TokenType::LeftParen {
        match binary_level(ts, pos + 1, 3) {
            Ok((inner, q)) => {
                assert(m[q as int] == ts@[q as int]@);
                if ts[q].ty == TokenType::RightParen {
                    return Ok((Expr::Grouping(Box::new(inner)), q + 1));
                }
                return Err(ParserError::new(&ts[q], "Expect ')' after expression.".to_owned()));
            },
            Err(e) => {
                return Err(e);
            },
        }
    }
    Err(ParserError::new(t, "Expect expression.".to_owned()))
}

/// Token categories that begin a declaration or statement.
pub open spec fn starts_statement(t: TokenType) -> bool {
    t == TokenType::Class || t == TokenType::Fun || t == TokenType::Var || t == TokenType::For
        || t == TokenType::If || t == TokenType::While || t == TokenType::Print
        || t == TokenType::Return
}

/// Where error recovery stops when it looks at position `p`: at the end of
/// input, after a semicolon, or before a token that begins a statement.
pub open spec fn sync_from(ts: Seq<TokenModel>, p: int) -> int
    decreases ts.len() - p,
{
    if 1 <= p < ts.len() && ts[p].ty != TokenType::Eof && ts[p - 1].ty != TokenType::Semicolon
        && !starts_statement(ts[p].ty) {
        sync_from(ts, p + 1)
    } else {
        p
    }
}

/// Builds one expression tree from a token sequence.
pub struct Parser {
    tokens: Vec<Token>,
    current: usize,
}

impl Parser {
    /// The tokens being parsed.
    pub closed spec fn token_models(&self) -> Seq<TokenModel> {
        token::tokens_model(self.tokens@)
    }

    /// The position of the next token to read.
    pub closed spec fn position(&self) -> int {
        self.current as int
    }

    pub closed spec fn wf(&self) -> bool {
        tokens_wf(token::tokens_model(self.tokens@)) && self.current < self.tokens@.len()
    }

    /// A parser at the first of `tokens`, which end with the end-of-input token.
    pub fn new(tokens: Vec<Token>) -> (r: Parser)
        requires
            tokens_wf(token::tokens_model(tokens@)),
        ensures
            r.wf(),
            r.token_models() == token::tokens_model(tokens@),
            r.position() == 0,
    {
        Parser { tokens, current: 0 }
    }

    /// Parses one expression from the current position.
    pub fn parse(&mut self) -> (r: Result<Expr, ParserError>)
        requires
            old(self).wf(),
        ensures
            final(self).wf(),
            final(self).token_models() == old(self).token_models(),
            match r {
                Ok(e) => expression(old(self).token_models(), old(self).position())
                    == Ok::<(ExprModel, int), ParserErrorModel>((e@, final(self).position())),
                Err(err) => expression(old(self).token_models(), old(self).position())
                    == Err::<(ExprModel, int), ParserErrorModel>(err@),
            },
    {
        match binary_level(&self.tokens, self.current, 3) {
            Ok((e, p)) => {
                self.current = p;
                Ok(e)
            },
            Err(err) => Err(err),
        }
    }

    /// Skips tokens after an error up to the next statement boundary: the
    /// token after a semicolon, or one that begins a statement.
    pub fn synchronize(&mut self)
        requires
            old(self).wf(),
        ensures
            final(self).wf(),
            final(self).token_models() == old(self).token_models(),
            final(self).position() == sync_from(
                old(self).token_models(),
                if old(self).token_models()[old(self).position()].ty == TokenType::Eof {
                    old(self).position()
                } else {
                    old(self).position() + 1
                },
            ),
    {
        let ghost m = token::tokens_model(self.tokens@);
        let n = self.tokens.len();
        assert(m[self.current as int] == self.tokens@[self.current as int]@);
        assert(m[m.len() - 1] == self.tokens@[n - 1]@);
        if self.tokens[self.current].ty != TokenType::Eof {
            self.current = self.current + 1;
        }
        while self.tokens[self.current].ty != TokenType::Eof
            invariant
                self.wf(),
                m == token::tokens_model(self.tokens@),
                m == token::tokens_model(old(self).tokens@),
                n == self.tokens@.len(),
                sync_from(m, self.current as int) == sync_from(m, old(self).current as int + if m[old(self).current as int].ty == TokenType::Eof { 0int } else { 1int }),
                self.current == old(self).current || self.current >= 1,
            decreases n - self.current,
        {
            assert(m[self.current as int] == self.tokens@[self.current as int]@);
            assert(m[m.len() - 1] == self.tokens@[n - 1]@);
            if self.current == 0 {
                return;
            }
            assert(m[self.current - 1] == self.tokens@[self.current - 1]@);
            if self.tokens[self.current - 1].ty == TokenType::Semicolon {
                return;
            }
            match self.tokens[self.current].ty {
                TokenType::Class | TokenType::Fun | TokenType::Var | TokenType::For | TokenType::If
                | TokenType::While | TokenType::Print | TokenType::Return => {
                    return;
                },
                _ => {},
            }
            self.current = self.current + 1;
        }
        assert(m[self.current as int] == self.tokens@[self.current as int]@);
    }
}

pub open spec fn literal_text(l: LiteralModel) -> Seq<char> {
    match l {
        LiteralModel::Number(n) => n,
        LiteralModel::String(s) => s,
        LiteralModel::Boolean(b) => if b {
            "true"@
        } else {
            "false"@
        },
        LiteralModel::Nil => "nil"@,
    }
}

/// Prefix rendering of an expression tree: `(op left right)`, `(op right)`,
/// `(group inner)`; a number is shown by its source text.
pub open spec fn ast_text(e: ExprModel) -> Seq<char>
    decreases e,
{
    match e {
        ExprModel::Literal(l) => literal_text(l),
        ExprModel::Unary(op, x) => "("@ + unary_text(op.ty) + " "@ + ast_text(*x) + ")"@,
        ExprModel::Binary(l, op, r) => "("@ + binary_text(op.ty) + " "@ + ast_text(*l) + " "@
            + ast_text(*r) + ")"@,
        ExprModel::Grouping(x) => "(group "@ + ast_text(*x) + ")"@,
    }
}

/// Renders an expression tree in prefix form.
pub fn stringify_ast(expr: &Expr) -> (r: String)
    ensures
        r@ == ast_text(expr@),
    decreases expr,
{
    match expr {
        Expr::Binary(left, operator, right) => {
            let mut s = "(".to_owned();
            s.append(operator.text().as_str());
            s.append(" ");
            s.append(stringify_ast(left).as_str());
            s.append(" ");
            s.append(stringify_ast(right).as_str());
            s.append(")");
            s
        },
        Expr::Grouping(inner) => {
            let mut s = "(group ".to_owned();
            s.append(stringify_ast(inner).as_str());
            s.append(")");
            s
        },
        Expr::Literal(literal) => match literal {
            Literal::Number(n) => n.clone(),
            Literal::String(s) => s.clone(),
            Literal::Boolean(b) => if *b {
                "true".to_owned()
            } else {
                "false".to_owned()
            },
            Literal::Nil => "nil".to_owned(),
        },
        Expr::Unary(operator, right) => {
            let mut s = "(".to_owned();
            s.append(operator.text().as_str());
            s.append(" ");
            s.append(stringify_ast(right).as_str());
            s.append(")");
            s
        },
    }
}

/// A number token, with its literal.
pub open spec fn number_token(t: TokenModel) -> bool {
    t.ty == TokenType::Number && t.literal matches Some(TokenLiteral::Number(_))
}

/// The literal expression of a number token.
pub open spec fn number_expr(t: TokenModel) -> ExprModel {
    ExprModel::Literal(LiteralModel::Number(t.literal->0->Number_0))
}

/// No binary level up to `lv` takes an operator of this category.
pub open spec fn no_op_upto(lv: nat, t: TokenType) -> bool {
    forall|l: nat| l <= lv ==> !level_op(l, t)
}

/// No binary level above `lv` takes an operator of this category.
pub open spec fn no_op_above(lv: nat, t: TokenType) -> bool {
    forall|l: nat| lv < l <= 3 ==> !level_op(l, t)
}

proof fn lemma_number_at(ts: Seq<TokenModel>, pos: int, lv: nat)
    requires
        0 <= pos,
        pos + 1 < ts.len(),
        lv <= 3,
        number_token(ts[pos]),
        no_op_upto(lv, ts[pos + 1].ty),
    ensures
        level(ts, pos, lv) == Ok::<(ExprModel, int), ParserErrorModel>((number_expr(ts[pos]), pos + 1)),
    decreases lv,
{
    assert(unary(ts, pos) == primary(ts, pos));
    if lv > 0 {
        lemma_number_at(ts, pos, (lv - 1) as nat);
    }
    assert(operand(ts, pos, lv) == Ok::<(ExprModel, int), ParserErrorModel>((number_expr(ts[pos]), pos + 1)));
    assert(!level_op(lv, ts[pos + 1].ty));
    assert(level_rest(ts, lv, number_expr(ts[pos]), pos + 1) == Ok::<(ExprModel, int), ParserErrorModel>((number_expr(ts[pos]), pos + 1)));
}

proof fn lemma_lift(ts: Seq<TokenModel>, pos: int, lv: nat, top: nat, e: ExprModel, q: int)
    requires
        level(ts, pos, lv) == Ok::<(ExprModel, int), ParserErrorModel>((e, q)),
        lv <= top <= 3,
        0 <= pos <= q < ts.len(),
        no_op_above(lv, ts[q].ty),
    ensures
        level(ts, pos, top) == Ok::<(ExprModel, int), ParserErrorModel>((e, q)),
    decreases top - lv,
{
    if lv < top {
        let up = (lv + 1) as nat;
        assert(operand(ts, pos, up) == level(ts, pos, lv));
        assert(!level_op(up, ts[q].ty));
        assert(level_rest(ts, up, e, q) == Ok::<(ExprModel, int), ParserErrorModel>((e, q)));
        assert(level(ts, pos, up) == Ok::<(ExprModel, int), ParserErrorModel>((e, q)));
        lemma_lift(ts, pos, up, top, e, q);
    }
}

proof fn lemma_operand_number(ts: Seq<TokenModel>, pos: int, lv: nat)
    requires
        0 <= pos,
        pos + 1 < ts.len(),
        lv <= 3,
        number_token(ts[pos]),
        lv == 0 || no_op_upto((lv - 1) as nat, ts[pos + 1].ty),
    ensures
        operand(ts, pos, lv) == Ok::<(ExprModel, int), ParserErrorModel>((number_expr(ts[pos]), pos + 1)),
{
    if lv == 0 {
        assert(unary(ts, pos) == primary(ts, pos));
    } else {
        lemma_number_at(ts, pos, (lv - 1) as nat);
    }
}

pub open spec fn binary(l: ExprModel, t: TokenModel, r: ExprModel) -> ExprModel {
    ExprModel::Binary(Box::new(l), binary_op_of(t), Box::new(r))
}

/// Operators of one precedence level group to the left: numbers `a`, `b`,
/// `c` with two operators of one level between them parse as
/// `(a op b) op c`.
pub proof fn law_left_associative(ts: Seq<TokenModel>, lv: nat)
    requires
        ts.len() == 6,
        lv <= 3,
        number_token(ts[0]),
        number_token(ts[2]),
        number_token(ts[4]),
        level_op(lv, ts[1].ty),
        level_op(lv, ts[3].ty),
        ts[5].ty == TokenType::Eof,
    ensures
        expression(ts, 0) == Ok::<(ExprModel, int), ParserErrorModel>((
            binary(binary(number_expr(ts[0]), ts[1], number_expr(ts[2])), ts[3], number_expr(ts[4])),
            5,
        )),
{
    let a = number_expr(ts[0]);
    let b = number_expr(ts[2]);
    let c = number_expr(ts[4]);
    let ab = binary(a, ts[1], b);
    let abc = binary(ab, ts[3], c);
    lemma_operand_number(ts, 0, lv);
    lemma_operand_number(ts, 2, lv);
    lemma_operand_number(ts, 4, lv);
    assert(level_rest(ts, lv, abc, 5) == Ok::<(ExprModel, int), ParserErrorModel>((abc, 5)));
    assert(level_rest(ts, lv, ab, 3) == level_rest(ts, lv, abc, 5));
    assert(level_rest(ts, lv, a, 1) == level_rest(ts, lv, ab, 3));
    assert(level(ts, 0, lv) == Ok::<(ExprModel, int), ParserErrorModel>((abc, 5)));
    lemma_lift(ts, 0, lv, 3, abc, 5);
}

/// A tighter operator takes its operands first: numbers `a`, `b`, `c` with
/// an operator of level `hi` and then one of a lower (tighter) level `lo`
/// parse as `a op (b op c)`.
pub proof fn law_precedence(ts: Seq<TokenModel>, lo: nat, hi: nat)
    requires
        ts.len() == 6,
        lo < hi <= 3,
        number_token(ts[0]),
        number_token(ts[2]),
        number_token(ts[4]),
        level_op(hi, ts[1].ty),
        level_op(lo, ts[3].ty),
        ts[5].ty == TokenType::Eof,
    ensures
        expression(ts, 0) == Ok::<(ExprModel, int), ParserErrorModel>((
            binary(number_expr(ts[0]), ts[1], binary(number_expr(ts[2]), ts[3], number_expr(ts[4]))),
            5,
        )),
{
    let a = number_expr(ts[0]);
    let b = number_expr(ts[2]);
    let c = number_expr(ts[4]);
    let bc = binary(b, ts[3], c);
    let abc = binary(a, ts[1], bc);
    lemma_operand_number(ts, 2, lo);
    lemma_operand_number(ts, 4, lo);
    assert(level_rest(ts, lo, bc, 5) == Ok::<(ExprModel, int), ParserErrorModel>((bc, 5)));
    assert(level_rest(ts, lo, b, 3) == level_rest(ts, lo, bc, 5));
    assert(level(ts, 2, lo) == Ok::<(ExprModel, int), ParserErrorModel>((bc, 5)));
    let below = (hi - 1) as nat;
    lemma_lift(ts, 2, lo, below, bc, 5);
    assert(operand(ts, 2, hi) == level(ts, 2, below));
    lemma_operand_number(ts, 0, hi);
    assert(level_rest(ts, hi, abc, 5) == Ok::<(ExprModel, int), ParserErrorModel>((abc, 5)));
    assert(level_rest(ts, hi, a, 1) == level_rest(ts, hi, abc, 5));
    assert(level(ts, 0, hi) == Ok::<(ExprModel, int), ParserErrorModel>((abc, 5)));
    lemma_lift(ts, 0, hi, 3, abc, 5);
}

proof fn lemma_error_rises(ts: Seq<TokenModel>, pos: int, lv: nat, err: ParserErrorModel)
    requires
        0 <= pos < ts.len(),
        lv <= 3,
        unary(ts, pos) == Err::<(ExprModel, int), ParserErrorModel>(err),
    ensures
        level(ts, pos, lv) == Err::<(ExprModel, int), ParserErrorModel>(err),
    decreases lv,
{
    if lv > 0 {
        lemma_error_rises(ts, pos, (lv - 1) as nat, err);
    }
}

/// A group whose expression runs up to the end of input fails with the
/// missing-parenthesis error at the end-of-input token.
pub proof fn law_missing_paren(ts: Seq<TokenModel>, inner: ExprModel, q: int)
    requires
        tokens_wf(ts),
        ts[0].ty == TokenType::LeftParen,
        expression(ts, 1) == Ok::<(ExprModel, int), ParserErrorModel>((inner, q)),
        1 <= q < ts.len(),
        ts[q].ty == TokenType::Eof,
    ensures
        expression(ts, 0) == Err::<(ExprModel, int), ParserErrorModel>(
            ParserErrorModel { token: ts[q], message: missing_paren_message() },
        ),
{
    let err = ParserErrorModel { token: ts[q], message: missing_paren_message() };
    assert(primary(ts, 0) == Err::<(ExprModel, int), ParserErrorModel>(err));
    assert(unary(ts, 0) == primary(ts, 0));
    lemma_error_rises(ts, 0, 3, err);
}

} // verus!
