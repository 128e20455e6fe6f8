use vstd::prelude::*;
use vstd::string::StringExecFns;
use vstd::utf8::{decode_utf8, valid_utf8};
use crate::token::{Literal, LiteralModel, Token, TokenModel, TokenType, tokens_model};

verus! {

/// A lexical error: where scanning stopped, and why.
#[derive(Debug, Clone)]
pub struct Error {
    pub line: usize,
    pub col: usize,
    pub message: String,
}

pub struct ErrorModel {
    pub line: int,
    pub col: int,
    pub message: Seq<char>,
}

impl View for Error {
    type V = ErrorModel;

    open spec fn view(&self) -> ErrorModel {
        ErrorModel { line: self.line as int, col: self.col as int, message: self.message@ }
    }
}

pub open spec fn unterminated_message() -> Seq<char> {
    "Unterminated string."@
}

pub open spec fn unexpected_message(c: char) -> Seq<char> {
    "Unexpected character '"@ + seq![c] + "'."@
}

/// What `char::is_alphabetic` says of a character.
pub uninterp spec fn alphabetic(c: char) -> bool;

/// Relies on `char::is_alphabetic`: whether the character has the Unicode
/// `Alphabetic` property, which depends on the character alone.
#[verifier::external_body]
fn is_alphabetic(c: char) -> (r: bool)
    ensures
        r == alphabetic(c),
{
    c.is_alphabetic()
}

/// Relies on `std::str::from_utf8`: it accepts exactly the valid UTF-8
/// buffers; the characters are those the bytes encode, at most one per byte.
#[verifier::external_body]
fn decode(source: &Vec<u8>) -> (r: Option<Vec<char>>)
    ensures
        r is Some <==> valid_utf8(source@),
        r matches Some(cs) ==> cs@ == decode_utf8(source@) && cs@.len() <= source@.len(),
{
    std::str::from_utf8(source.as_slice()).ok().map(|s| s.chars().collect())
}

/// Relies on `String::from_iter` over chars: the string holds those characters.
#[verifier::external_body]
fn text_of(s: &Vec<char>, start: usize, end: usize) -> (r: String)
    requires
        start <= end <= s@.len(),
    ensures
        r@ == s@.subrange(start as int, end as int),
{
    String::from_iter(s[start..end].iter())
}

pub open spec fn is_digit(c: char) -> bool {
    '0' <= c && c <= '9'
}

pub open spec fn is_ident_char(c: char) -> bool {
    alphabetic(c) || c == '_'
}

/// The end of the run of digits that starts at `i`.
pub open spec fn digits_end(s: Seq<char>, i: int) -> int
    decreases s.len() - i,
{
    if 0 <= i < s.len() && is_digit(s[i]) {
        digits_end(s, i + 1)
    } else {
        i
    }
}

/// The end of the run of identifier characters that starts at `i`.
pub open spec fn ident_end(s: Seq<char>, i: int) -> int
    decreases s.len() - i,
{
    if 0 <= i < s.len() && is_ident_char(s[i]) {
        ident_end(s, i + 1)
    } else {
        i
    }
}

/// The position of the next newline at or after `i`, or the end of input.
pub open spec fn line_end(s: Seq<char>, i: int) -> int
    decreases s.len() - i,
{
    if 0 <= i < s.len() && s[i] != '\n' {
        line_end(s, i + 1)
    } else {
        i
    }
}

/// Walks the body of a string literal from `i`: the position of the closing
/// quote (or the end of input), with the line and column reached there.
pub open spec fn string_scan(s: Seq<char>, i: int, line: int, col: int) -> (int, int, int)
    decreases s.len() - i,
{
    if 0 <= i < s.len() && s[i] != '"' {
        if s[i] == '\n' {
            string_scan(s, i + 1, line + 1, 1)
        } else {
            string_scan(s, i + 1, line, col + 1)
        }
    } else {
        (i, line, col)
    }
}

/// The category of a reserved word, if the text is one.
pub open spec fn keyword(t: Seq<char>) -> Option<TokenType> {
    if t == seq!['a', 'n', 'd'] {
        Some(TokenType::And)
    } else if t == seq!['c', 'l', 'a', 's', 's'] {
        Some(TokenType::Class)
    } else if t == seq!['e', 'l', 's', 'e'] {
        Some(TokenType::Else)
    } else if t == seq!['f', 'a', 'l', 's', 'e'] {
        Some(TokenType::False)
    } else if t == seq!['f', 'o', 'r'] {
        Some(TokenType::For)
    } else if t == seq!['f', 'u', 'n'] {
        Some(TokenType::Fun)
    } else if t == seq!['i', 'f'] {
        Some(TokenType::If)
    } else if t == seq!['n', 'i', 'l'] {
        Some(TokenType::Nil)
    } else if t == seq!['o', 'r'] {
        Some(TokenType::Or)
    } else if t == seq!['p', 'r', 'i', 'n', 't'] {
        Some(TokenType::Print)
    } else if t == seq!['r', 'e', 't', 'u', 'r', 'n'] {
        Some(TokenType::Return)
    } else if t == seq!['s', 'u', 'p', 'e', 'r'] {
        Some(TokenType::Super)
    } else if t == seq!['t', 'h', 'i', 's'] {
        Some(TokenType::This)
    } else if t == seq!['t', 'r', 'u', 'e'] {
        Some(TokenType::True)
    } else if t == seq!['v', 'a', 'r'] {
        Some(TokenType::Var)
    } else if t == seq!['w', 'h', 'i', 'l', 'e'] {
        Some(TokenType::While)
    } else {
        None
    }
}

/// The category of a character that is a token by itself.
pub open spec fn single_char_type(c: char) -> Option<TokenType> {
    if c == '(' {
        Some(TokenType::LeftParen)
    } else if c == ')' {
        Some(TokenType::RightParen)
    } else if c == '{' {
        Some(TokenType::LeftBrace)
    } else if c == '}' {
        Some(TokenType::RightBrace)
    } else if c == ',' {
        Some(TokenType::Comma)
    } else if c == '.' {
        Some(TokenType::Dot)
    } else if c == '-' {
        Some(TokenType::Minus)
    } else if c == '+' {
        Some(TokenType::Plus)
    } else if c == ';' {
        Some(TokenType::Semicolon)
    } else if c == '*' {
        Some(TokenType::Star)
    } else {
        None
    }
}

/// For `! = < >`: the category alone, and the category when `=` follows.
pub open spec fn operator_types(c: char) -> Option<(TokenType, TokenType)> {
    if c == '!' {
        Some((TokenType::Bang, TokenType::BangEqual))
    } else if c == '=' {
        Some((TokenType::Equal, TokenType::EqualEqual))
    } else if c == '<' {
        Some((TokenType::Less, TokenType::LessEqual))
    } else if c == '>' {
        Some((TokenType::Greater, TokenType::GreaterEqual))
    } else {
        None
    }
}

/// Outcome of scanning from one position: the token made, if any, and the
/// position, line and column after it; or a lexical error.
pub enum Step {
    Go(Option<TokenModel>, int, int, int),
    Fail(ErrorModel),
}

pub open spec fn plain(ty: TokenType, s: Seq<char>, from: int, to: int, line: int, col: int) -> TokenModel {
    TokenModel { ty, lexeme: s.subrange(from, to), literal: None, line, col }
}

/// One scanning step at `pos` (which is before the end of input), with the
/// line and column reached so far.
pub open spec fn step(s: Seq<char>, pos: int, line: int, col: int) -> Step {
    let c = s[pos];
    let next_is = |x: char| pos + 1 < s.len() && s[pos + 1] == x;
    if single_char_type(c) is Some {
        Step::Go(Some(plain(single_char_type(c)->0, s, pos, pos + 1, line, col + 1)), pos + 1, line, col + 1)
    } else if operator_types(c) is Some {
        let (one, two) = operator_types(c)->0;
        if next_is('=') {
            Step::Go(Some(plain(two, s, pos, pos + 2, line, col + 2)), pos + 2, line, col + 2)
        } else {
            Step::Go(Some(plain(one, s, pos, pos + 1, line, col + 1)), pos + 1, line, col + 1)
        }
    } else if c == '/' {
        if next_is('/') {
            let e = line_end(s, pos + 1);
            Step::Go(None, e, line, col + (e - pos))
        } else {
            Step::Go(Some(plain(TokenType::Slash, s, pos, pos + 1, line, col + 1)), pos + 1, line, col + 1)
        }
    } else if c == ' ' || c == '\r' || c == '\t' {
        Step::Go(None, pos + 1, line, col + 1)
    } else if is_digit(c) {
        let e1 = digits_end(s, pos + 1);
        let e = if e1 + 1 < s.len() && s[e1] == '.' && is_digit(s[e1 + 1]) {
            digits_end(s, e1 + 1)
        } else {
            e1
        };
        let text = s.subrange(pos, e);
        Step::Go(
            Some(TokenModel {
                ty: TokenType::Number,
                lexeme: text,
                literal: Some(LiteralModel::Number(text)),
                line,
                col: col + (e - pos),
            }),
            e,
            line,
            col + (e - pos),
        )
    } else if c == '"' {
        let (e, l, k) = string_scan(s, pos + 1, line, col + 1);
        if e >= s.len() {
            Step::Fail(ErrorModel { line: l, col: k, message: unterminated_message() })
        } else {
            Step::Go(
                Some(TokenModel {
                    ty: TokenType::String,
                    lexeme: s.subrange(pos, e + 1),
                    literal: Some(LiteralModel::Str(s.subrange(pos + 1, e))),
                    line: l,
                    col: k + 1,
                }),
                e + 1,
                l,
                k + 1,
            )
        }
    } else if is_ident_char(c) {
        let e = ident_end(s, pos + 1);
        let text = s.subrange(pos, e);
        let ty = match keyword(text) {
            Some(k) => k,
            None => TokenType::Identifier,
        };
        Step::Go(Some(plain(ty, s, pos, e, line, col + (e - pos))), e, line, col + (e - pos))
    } else if c == '\n' {
        Step::Go(None, pos + 1, line + 1, 0)
    } else {
        Step::Fail(ErrorModel { line, col: col + 1, message: unexpected_message(c) })
    }
}

/// Puts `ts` in front of the tokens of a successful scan.
pub open spec fn prefixed(
    ts: Seq<TokenModel>,
    r: Result<Seq<TokenModel>, ErrorModel>,
) -> Result<Seq<TokenModel>, ErrorModel> {
    match r {
        Ok(rest) => Ok(ts + rest),
        Err(e) => Err(e),
    }
}

pub open spec fn eof_token(line: int, col: int) -> TokenModel {
    TokenModel { ty: TokenType::Eof, lexeme: Seq::empty(), literal: None, line, col }
}

/// The tokens of `s` from `pos` on, with the line and column reached at
/// `pos`: every token up to the end-of-input token, or the first error.
pub open spec fn scan_from(s: Seq<char>, pos: int, line: int, col: int) -> Result<Seq<TokenModel>, ErrorModel>
    decreases s.len() - pos,
{
    if pos >= s.len() {
        Ok(seq![eof_token(line, col)])
    } else {
        match step(s, pos, line, col) {
            Step::Fail(e) => Err(e),
            Step::Go(t, p, l, k) => {
                if pos < p <= s.len() {
                    match t {
                        Some(t) => prefixed(seq![t], scan_from(s, p, l, k)),
                        None => scan_from(s, p, l, k),
                    }
                } else {
                    // Never taken: every step moves forward (see `scan_token`).
                    Err(ErrorModel { line: l, col: k, message: Seq::empty() })
                }
            }
        }
    }
}

/// The tokens of a whole source text.
pub open spec fn scan(s: Seq<char>) -> Result<Seq<TokenModel>, ErrorModel> {
    scan_from(s, 0, 1, 0)
}

/// Whether a character may occur in an identifier.
pub fn is_identifier(c: char) -> (r: bool)
    ensures
        r == is_ident_char(c),
{
    is_alphabetic(c) || c == '_'
}

fn is_digit_char(c: char) -> (r: bool)
    ensures
        r == is_digit(c),
{
    '0' <= c && c <= '9'
}

fn digits_end_at(s: &Vec<char>, i: usize) -> (e: usize)
    requires
        i <= s@.len(),
    ensures
        e == digits_end(s@, i as int),
        i <= e <= s@.len(),
{
    let mut j: usize = i;
    while j < s.len() && is_digit_char(s[j])
        invariant
            i <= j <= s@.len(),
            digits_end(s@, j as int) == digits_end(s@, i as int),
        decreases s@.len() - j,
    {
        j = j + 1;
    }
    j
}

fn ident_end_at(s: &Vec<char>, i: usize) -> (e: usize)
    requires
        i <= s@.len(),
    ensures
        e == ident_end(s@, i as int),
        i <= e <= s@.len(),
{
    let mut j: usize = i;
    while j < s.len() && is_identifier(s[j])
        invariant
            i <= j <= s@.len(),
            ident_end(s@, j as int) == ident_end(s@, i as int),
        decreases s@.len() - j,
    {
        j = j + 1;
    }
    j
}

fn line_end_at(s: &Vec<char>, i: usize) -> (e: usize)
    requires
        i <= s@.len(),
    ensures
        e == line_end(s@, i as int),
        i <= e <= s@.len(),
{
    let mut j: usize = i;
    while j < s.len() && s[j] != '\n'
        invariant
            i <= j <= s@.len(),
            line_end(s@, j as int) == line_end(s@, i as int),
        decreases s@.len() - j,
    {
        j = j + 1;
    }
    j
}

fn string_end_at(s: &Vec<char>, i: usize, line: usize, col: usize) -> (r: (usize, usize, usize))
    requires
        i <= s@.len(),
        line <= i,
        col <= i,
    ensures
        (r.0 as int, r.1 as int, r.2 as int) == string_scan(s@, i as int, line as int, col as int),
        i <= r.0 <= s@.len(),
        r.1 <= r.0,
        r.2 <= r.0,
{
    let mut j: usize = i;
    let mut l: usize = line;
    let mut k: usize = col;
    while j < s.len() && s[j] != '"'
        invariant
            i <= j <= s@.len(),
            l <= j,
            k <= j,
            string_scan(s@, j as int, l as int, k as int) == string_scan(s@, i as int, line as int, col as int),
        decreases s@.len() - j,
    {
        if s[j] == '\n' {
            l = l + 1;
            k = 1;
        } else {
            k = k + 1;
        }
        j = j + 1;
    }
    (j, l, k)
}

/// The category of a reserved word, if `s[start..end]` is one.
fn keyword_at(s: &Vec<char>, start: usize, end: usize) -> (r: Option<TokenType>)
    requires
        start <= end <= s@.len(),
    ensures
        r == keyword(s@.subrange(start as int, end as int)),
{
    let t = Ghost(s@.subrange(start as int, end as int));
    let n = end - start;
    let c = |i: usize| -> (r: char)
        requires
            i < n,
        ensures
            r == t@[i as int],
        { s[start + i] };
    if n == 2 {
        if c(0) == 'i' && c(1) == 'f' {
            assert(t@ =~= seq!['i', 'f']);
            return Some(TokenType::If);
        }
        if c(0) == 'o' && c(1) == 'r' {
            assert(t@ =~= seq!['o', 'r']);
            return Some(TokenType::Or);
        }
    } else if n == 3 {
        if c(0) == 'a' && c(1) == 'n' && c(2) == 'd' {
            assert(t@ =~= seq!['a', 'n', 'd']);
            return Some(TokenType::And);
        }
        if c(0) == 'f' && c(1) == 'o' && c(2) == 'r' {
            assert(t@ =~= seq!['f', 'o', 'r']);
            return Some(TokenType::For);
        }
        if c(0) == 'f' && c(1) == 'u' && c(2) == 'n' {
            assert(t@ =~= seq!['f', 'u', 'n']);
            return Some(TokenType::Fun);
        }
        if c(0) == 'n' && c(1) == 'i' && c(2) == 'l' {
            assert(t@ =~= seq!['n', 'i', 'l']);
            return Some(TokenType::Nil);
        }
        if c(0) == 'v' && c(1) == 'a' && c(2) == 'r' {
            assert(t@ =~= seq!['v', 'a', 'r']);
            return Some(TokenType::Var);
        }
    } else if n == 4 {
        if c(0) == 'e' && c(1) == 'l' && c(2) == 's' && c(3) == 'e' {
            assert(t@ =~= seq!['e', 'l', 's', 'e']);
            return Some(TokenType::Else);
        }
        if c(0) == 't' && c(1) == 'h' && c(2) == 'i' && c(3) == 's' {
            assert(t@ =~= seq!['t', 'h', 'i', 's']);
            return Some(TokenType::This);
        }
        if c(0) == 't' && c(1) == 'r' && c(2) == 'u' && c(3) == 'e' {
            assert(t@ =~= seq!['t', 'r', 'u', 'e']);
            return Some(TokenType::True);
        }
    } else if n == 5 {
        if c(0) == 'c' && c(1) == 'l' && c(2) == 'a' && c(3) == 's' && c(4) == 's' {
            assert(t@ =~= seq!['c', 'l', 'a', 's', 's']);
            return Some(TokenType::Class);
        }
        if c(0) == 'f' && c(1) == 'a' && c(2) == 'l' && c(3) == 's' && c(4) == 'e' {
            assert(t@ =~= seq!['f', 'a', 'l', 's', 'e']);
            return Some(TokenType::False);
        }
        if c(0) == 'p' && c(1) == 'r' && c(2) == 'i' && c(3) == 'n' && c(4) == 't' {
            assert(t@ =~= seq!['p', 'r', 'i', 'n', 't']);
            return Some(TokenType::Print);
        }
        if c(0) == 's' && c(1) == 'u' && c(2) == 'p' && c(3) == 'e' && c(4) == 'r' {
            assert(t@ =~= seq!['s', 'u', 'p', 'e', 'r']);
            return Some(TokenType::Super);
        }
        if c(0) == 'w' && c(1) == 'h' && c(2) == 'i' && c(3) == 'l' && c(4) == 'e' {
            assert(t@ =~= seq!['w', 'h', 'i', 'l', 'e']);
            return Some(TokenType::While);
        }
    } else if n == 6 {
        if c(0) == 'r' && c(1) == 'e' && c(2) == 't' && c(3) == 'u' && c(4) == 'r' && c(5) == 'n' {
            assert(t@ =~= seq!['r', 'e', 't', 'u', 'r', 'n']);
            return Some(TokenType::Return);
        }
    }
    assert(t@.len() == n);
    None
}

pub open spec fn token_opt_model(t: Option<Token>) -> Option<TokenModel> {
    match t {
        Some(t) => Some(t@),
        None => None,
    }
}

fn plain_token(s: &Vec<char>, ty: TokenType, from: usize, to: usize, line: usize, col: usize) -> (r: Token)
    requires
        from <= to <= s@.len(),
    ensures
        r@ == plain(ty, s@, from as int, to as int, line as int, col as int),
{
    Token::new(ty, text_of(s, from, to), None, line, col)
}

/// One scanning step at `pos`: the token made there, if any, with the
/// position, line and column after it; or the lexical error found there.
fn scan_token(s: &Vec<char>, pos: usize, line: usize, col: usize) -> (r: Result<(Option<Token>, usize, usize, usize), Error>)
    requires
        pos < s@.len(),
        s@.len() < usize::MAX,
        line <= pos + 1,
        col <= pos,
    ensures
        match r {
            Ok((t, p, l, k)) => {
                &&& step(s@, pos as int, line as int, col as int) == Step::Go(
                    token_opt_model(t),
                    p as int,
                    l as int,
                    k as int,
                )
                &&& pos < p <= s@.len()
                &&& l <= p + 1
                &&& k <= p
            },
            Err(e) => step(s@, pos as int, line as int, col as int) == Step::Fail(e@),
        },
{
    let c = s[pos];
    let next_eq = pos + 1 < s.len() && s[pos + 1] == '=';
    let single = if c == '(' {
        Some(TokenType::LeftParen)
    } else if c == ')' {
        Some(TokenType::RightParen)
    } else if c == '{' {
        Some(TokenType::LeftBrace)
    } else if c == '}' {
        Some(TokenType::RightBrace)
    } else if c == ',' {
        Some(TokenType::Comma)
    } else if c == '.' {
        Some(TokenType::Dot)
    } else if c == '-' {
        Some(TokenType::Minus)
    } else if c == '+' {
        Some(TokenType::Plus)
    } else if c == ';' {
        Some(TokenType::Semicolon)
    } else if c == '*' {
        Some(TokenType::Star)
    } else {
        None
    };
    let pair = if c == '!' {
        Some((TokenType::Bang, TokenType::BangEqual))
    } else if c == '=' {
        Some((TokenType::Equal, TokenType::EqualEqual))
    } else if c == '<' {
        Some((TokenType::Less, TokenType::LessEqual))
    } else if c == '>' {
        Some((TokenType::Greater, TokenType::GreaterEqual))
    } else {
        None
    };
    if let Some(ty) = single {
        Ok((Some(plain_token(s, ty, pos, pos + 1, line, col + 1)), pos + 1, line, col + 1))
    } else if let Some((one, two)) = pair {
        if next_eq {
            Ok((Some(plain_token(s, two, pos, pos + 2, line, col + 2)), pos + 2, line, col + 2))
        } else {
            Ok((Some(plain_token(s, one, pos, pos + 1, line, col + 1)), pos + 1, line, col + 1))
        }
    } else if c == '/' {
        if pos + 1 < s.len() && s[pos + 1] == '/' {
            let e = line_end_at(s, pos + 1);
            Ok((None, e, line, col + (e - pos)))
        } else {
            Ok((Some(plain_token(s, TokenType::Slash, pos, pos + 1, line, col + 1)), pos + 1, line, col + 1))
        }
    } else if c == ' ' || c == '\r' || c == '\t' {
        Ok((None, pos + 1, line, col + 1))
    } else if is_digit_char(c) {
        let e1 = digits_end_at(s, pos + 1);
        let e = if e1 + 1 < s.len() && s[e1] == '.' && is_digit_char(s[e1 + 1]) {
            digits_end_at(s, e1 + 1)
        } else {
            e1
        };
        let k = col + (e - pos);
        let tok = Token::new(
            TokenType::Number,
            text_of(s, pos, e),
            Some(Literal::Number(text_of(s, pos, e))),
            line,
            k,
        );
        Ok((Some(tok), e, line, k))
    } else if c == '"' {
        let (e, l, k) = string_end_at(s, pos + 1, line, col + 1);
        if e >= s.len() {
            Err(Error { line: l, col: k, message: "Unterminated string.".to_owned() })
        } else {
            let tok = Token::new(
                TokenType::String,
                text_of(s, pos, e + 1),
                Some(Literal::Str(text_of(s, pos + 1, e))),
                l,
                k + 1,
            );
            Ok((Some(tok), e + 1, l, k + 1))
        }
    } else if is_identifier(c) {
        let e = ident_end_at(s, pos + 1);
        let ty = match keyword_at(s, pos, e) {
            Some(k) => k,
            None => TokenType::Identifier,
        };
        Ok((Some(plain_token(s, ty, pos, e, line, col + (e - pos))), e, line, col + (e - pos)))
    } else if c == '\n' {
        Ok((None, pos + 1, line + 1, 0))
    } else {
        let mut message = "Unexpected character '".to_owned();
        message.append(text_of(s, pos, pos + 1).as_str());
        message.append("'.");
        assert(s@.subrange(pos as int, pos + 1) =~= seq![c]);
        Err(Error { line, col: col + 1, message })
    }
}

/// Turns source text into tokens.
pub struct Scanner {
    source: Vec<char>,
    current: usize,
    line: usize,
    col: usize,
}

impl Scanner {
    /// The characters being scanned.
    pub closed spec fn chars(&self) -> Seq<char> {
        self.source@
    }

    /// The scanner's position and counters are consistent with its input.
    pub closed spec fn wf(&self) -> bool {
        &&& self.source@.len() < usize::MAX
        &&& self.current <= self.source@.len()
        &&& self.line <= self.current + 1
        &&& self.col <= self.current
    }

    /// What scanning the rest of the input yields.
    pub closed spec fn remaining(&self) -> Result<Seq<TokenModel>, ErrorModel> {
        scan_from(self.source@, self.current as int, self.line as int, self.col as int)
    }

    pub closed spec fn at_end(&self) -> bool {
        self.current >= self.source@.len()
    }

    /// A scanner at the start of `source`, which must be UTF-8.
    pub fn new(source: Vec<u8>) -> (r: Scanner)
        requires
            valid_utf8(source@),
            source@.len() < usize::MAX,
        ensures
            r.wf(),
            r.chars() == decode_utf8(source@),
            r.remaining() == scan(decode_utf8(source@)),
    {
        let chars = match decode(&source) {
            Some(cs) => cs,
            None => Vec::new(),
        };
        Scanner { source: chars, current: 0, line: 1, col: 0 }
    }

    /// Scans the rest of the input: every token through the end-of-input
    /// token, or the first lexical error.
    pub fn scan_tokens(&mut self) -> (r: Result<Vec<Token>, Error>)
        requires
            old(self).wf(),
        ensures
            final(self).wf(),
            final(self).chars() == old(self).chars(),
            match r {
                Ok(v) => old(self).remaining() == Ok::<Seq<TokenModel>, ErrorModel>(tokens_model(v@)),
                Err(e) => old(self).remaining() == Err::<Seq<TokenModel>, ErrorModel>(e@),
            },
    {
        let mut tokens: Vec<Token> = Vec::new();
        while !self.is_at_end()
            invariant
                self.wf(),
                self.source@ == old(self).source@,
                old(self).remaining() == prefixed(tokens_model(tokens@), self.remaining()),
            decreases self.source@.len() - self.current,
        {
            match scan_token(&self.source, self.current, self.line, self.col) {
                Ok((t, p, l, k)) => {
                    let ghost before = tokens_model(tokens@);
                    match t {
                        Some(t) => {
                            tokens.push(t);
                            assert(tokens_model(tokens@) =~= before + seq![t@]);
                        },
                        None => {},
                    }
                    self.current = p;
                    self.line = l;
                    self.col = k;
                    proof {
                        let r = self.remaining();
                        match r {
                            Ok(rest) => assert(before + (seq![t->0@] + rest) =~= (before + seq![t->0@]) + rest),
                            Err(_) => {},
                        }
                    }
                },
                Err(e) => {
                    return Err(e);
                },
            }
        }
        let ghost before = tokens_model(tokens@);
        tokens.push(Token::new(TokenType::Eof, String::new(), None, self.line, self.col));
        assert(tokens_model(tokens@) =~= before + seq![eof_token(self.line as int, self.col as int)]);
        Ok(tokens)
    }

    pub fn is_at_end(&self) -> (r: bool)
        ensures
            r == self.at_end(),
    {
        self.current >= self.source.len()
    }
}

proof fn lemma_digits_end(s: Seq<char>, i: int, j: int)
    requires
        0 <= i <= j <= s.len(),
        forall|x: int| i <= x < j ==> is_digit(#[trigger] s[x]),
        j == s.len() || !is_digit(s[j]),
    ensures
        digits_end(s, i) == j,
    decreases j - i,
{
    if i < j {
        lemma_digits_end(s, i + 1, j);
    }
}

/// A number literal `s`: a run of digits `s[..k]`, then either the end or a
/// dot followed by one or more digits.
pub open spec fn is_number_literal(s: Seq<char>, k: int) -> bool {
    &&& 0 < k <= s.len()
    &&& forall|i: int| 0 <= i < k ==> is_digit(#[trigger] s[i])
    &&& k == s.len() || (s[k] == '.' && k + 1 < s.len() && forall|i: int|
        k < i < s.len() ==> is_digit(#[trigger] s[i]))
}

/// Scanning a number literal yields one number token, whose lexeme and
/// literal are the literal's whole text, then the end-of-input token.
pub proof fn law_number_literal(s: Seq<char>, k: int)
    requires
        is_number_literal(s, k),
    ensures
        scan(s) == Ok::<Seq<TokenModel>, ErrorModel>(
            seq![
                TokenModel {
                    ty: TokenType::Number,
                    lexeme: s,
                    literal: Some(LiteralModel::Number(s)),
                    line: 1,
                    col: s.len() as int,
                },
                eof_token(1, s.len() as int),
            ],
        ),
{
    let n = s.len() as int;
    assert(is_digit(s[0]));
    lemma_digits_end(s, 1, k);
    if k < n {
        lemma_digits_end(s, k + 1, n);
    }
    assert(s.subrange(0, n) =~= s);
    let t = TokenModel {
        ty: TokenType::Number,
        lexeme: s,
        literal: Some(LiteralModel::Number(s)),
        line: 1,
        col: n,
    };
    assert(step(s, 0, 1, 0) == Step::Go(Some(t), n, 1, n));
    assert(scan_from(s, n, 1, n) == Ok::<Seq<TokenModel>, ErrorModel>(seq![eof_token(1, n)]));
    assert(seq![t] + seq![eof_token(1, n)] =~= seq![t, eof_token(1, n)]);
}

/// The number of newlines in `s` from `i` on.
pub open spec fn newlines_from(s: Seq<char>, i: int) -> int
    decreases s.len() - i,
{
    if 0 <= i < s.len() {
        newlines_from(s, i + 1) + if s[i] == '\n' {
            1int
        } else {
            0int
        }
    } else {
        0
    }
}

proof fn lemma_string_scan_lines(s: Seq<char>, i: int, line: int, col: int)
    requires
        0 <= i <= s.len(),
        forall|j: int| i <= j < s.len() ==> s[j] != '"',
    ensures
        string_scan(s, i, line, col).0 == s.len(),
        string_scan(s, i, line, col).1 == line + newlines_from(s, i),
    decreases s.len() - i,
{
    if i < s.len() {
        if s[i] == '\n' {
            lemma_string_scan_lines(s, i + 1, line + 1, 1);
        } else {
            lemma_string_scan_lines(s, i + 1, line, col + 1);
        }
    }
}

/// A string literal left open fails the scan with an unterminated-string
/// error on the line where the input ends.
pub proof fn law_unterminated_string(s: Seq<char>)
    requires
        s.len() > 0,
        s[0] == '"',
        forall|j: int| 1 <= j < s.len() ==> s[j] != '"',
    ensures
        scan(s) matches Err(e) && e.message == unterminated_message() && e.line == 1
            + newlines_from(s, 1),
{
    lemma_string_scan_lines(s, 1, 1, 1);
}

} // verus!
