use vstd::prelude::*;
use vstd::string::StringExecFns;
use vstd::utf8::{decode_utf8, valid_utf8};
use crate::interpreter::{evaluates_to, Arithmetic, Interpreter, RuntimeError, Value};
use crate::parser::{expression, tokens_wf, Parser, ParserError};
use crate::scanner::{scan, scan_from, step, Error, Scanner, Step};
use crate::decimal::{decimal, decimal_string};

verus! {

/// The first error of a run, from the stage that found it.
#[derive(Debug)]
pub enum LoxError {
    Scan(Error),
    Parse(ParserError),
    Runtime(RuntimeError),
}

/// How a run of the pipeline on `chars` ends, as far as it is determined:
/// the first lexical or parse error, or an outcome of evaluating the parsed
/// expression that `evaluates_to` admits.
pub open spec fn run_outcome(chars: Seq<char>, r: Result<Value, LoxError>) -> bool {
    match scan(chars) {
        Err(e) => r matches Err(LoxError::Scan(x)) && x@ == e,
        Ok(ts) => match expression(ts, 0) {
            Err(pe) => r matches Err(LoxError::Parse(x)) && x@ == pe,
            Ok((e, _)) => match r {
                Ok(v) => evaluates_to(e, Ok(v@)),
                Err(LoxError::Runtime(x)) => evaluates_to(e, Err(x@)),
                _ => false,
            },
        },
    }
}

/// A successful scan ends with the end-of-input token.
pub proof fn lemma_scan_ends_with_eof(s: Seq<char>, pos: int, line: int, col: int)
    ensures
        scan_from(s, pos, line, col) matches Ok(ts) ==> tokens_wf(ts),
    decreases s.len() - pos,
{
    if pos < s.len() {
        match step(s, pos, line, col) {
            Step::Fail(_) => {},
            Step::Go(t, p, l, k) => {
                if pos < p <= s.len() {
                    lemma_scan_ends_with_eof(s, p, l, k);
                    if let (Some(t), Ok(rest)) = (t, scan_from(s, p, l, k)) {
                        assert((seq![t] + rest).last() == rest.last());
                    }
                }
            },
        }
    }
}

/// The diagnostic line `[line L] Error <location>: <message>`.
pub open spec fn diagnostic(line: nat, location: Seq<char>, message: Seq<char>) -> Seq<char> {
    "[line "@ + decimal(line) + "] Error "@ + location + ": "@ + message
}

/// Runs source text through scanning, parsing and evaluation.
pub struct Lox {
    pub had_error: bool,
}

impl Lox {
    pub fn new() -> (r: Lox)
        ensures
            !r.had_error,
    {
        Lox { had_error: false }
    }

    /// Scans, parses and evaluates one expression from `source`, which is
    /// UTF-8: its value, or the first error.
    pub fn run<A: Arithmetic>(&self, arith: &A, source: Vec<u8>) -> (r: Result<Value, LoxError>)
        requires
            valid_utf8(source@),
            source@.len() < usize::MAX,
        ensures
            run_outcome(decode_utf8(source@), r),
    {
        let mut scanner = Scanner::new(source);
        let tokens = match scanner.scan_tokens() {
            Ok(ts) => ts,
            Err(e) => return Err(LoxError::Scan(e)),
        };
        proof {
            lemma_scan_ends_with_eof(decode_utf8(source@), 0, 1, 0);
        }
        let mut parser = Parser::new(tokens);
        let expr = match parser.parse() {
            Ok(e) => e,
            Err(e) => return Err(LoxError::Parse(e)),
        };
        match Interpreter::interpret_expr(arith, &expr) {
            Ok(v) => Ok(v),
            Err(e) => Err(LoxError::Runtime(e)),
        }
    }

    /// Records an error at `line`; returns the diagnostic to show.
    pub fn error(&mut self, line: usize, message: &str) -> (r: String)
        ensures
            final(self).had_error,
            r@ == diagnostic(line as nat, Seq::empty(), message@),
    {
        proof {
            reveal_strlit("");
        }
        self.report(line, "", message)
    }

    /// Records an error at `line` and `location`; returns the diagnostic to show.
    pub fn report(&mut self, line: usize, location: &str, message: &str) -> (r: String)
        ensures
            final(self).had_error,
            r@ == diagnostic(line as nat, location@, message@),
    {
        let mut s = "[line ".to_owned();
        s.append(decimal_string(line).as_str());
        s.append("] Error ");
        s.append(location);
        s.append(": ");
        s.append(message);
        self.had_error = true;
        s
    }
}

} // verus!
