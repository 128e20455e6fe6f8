use vstd::prelude::*;
use vstd::string::StringExecFns;
use crate::expr::{
    binary_text, unary_text, BinaryOp, BinaryOpType, Expr, ExprModel, Literal, LiteralModel,
    UnaryOp, UnaryOpType,
};

verus! {

/// A runtime value. A number is held as the bit pattern of an IEEE-754
/// binary64 value.
#[derive(Debug)]
pub enum Value {
    Number(u64),
    String(String),
    Bool(bool),
    Nil,
}

pub enum ValueModel {
    Number(u64),
    String(Seq<char>),
    Bool(bool),
    Nil,
}

impl View for Value {
    type V = ValueModel;

    open spec fn view(&self) -> ValueModel {
        match self {
            Value::Number(n) => ValueModel::Number(*n),
            Value::String(s) => ValueModel::String(s@),
            Value::Bool(b) => ValueModel::Bool(*b),
            Value::Nil => ValueModel::Nil,
        }
    }
}

/// The runtime type of a value.
#[derive(Debug, Clone, Copy, PartialEq, Eq, Structural)]
pub enum Kind {
    Number,
    String,
    Bool,
    Nil,
}

pub open spec fn kind_of(v: ValueModel) -> Kind {
    match v {
        ValueModel::Number(_) => Kind::Number,
        ValueModel::String(_) => Kind::String,
        ValueModel::Bool(_) => Kind::Bool,
        ValueModel::Nil => Kind::Nil,
    }
}

/// The binary64 arithmetic the evaluator needs. Numbers are bit patterns:
/// this library does no floating-point arithmetic itself, and the caller
/// supplies it.
pub trait Arithmetic {
    /// The value of a number literal's decimal text.
    fn literal(&self, text: &String) -> u64;

    /// The number a string spells, if it spells one.
    fn parse(&self, text: &String) -> Option<u64>;

    /// `a + b`.
    fn add(&self, a: u64, b: u64) -> u64;

    /// `a - b`.
    fn sub(&self, a: u64, b: u64) -> u64;

    /// `a * b`.
    fn mul(&self, a: u64, b: u64) -> u64;

    /// `a / b`; division by zero gives an infinity or NaN, not an error.
    fn div(&self, a: u64, b: u64) -> u64;
}

/// The sign bit of a binary64 value.
pub const SIGN_BIT: u64 = 0x8000_0000_0000_0000;

/// The bit pattern of positive infinity; larger magnitudes are NaN.
pub const INFINITY_BITS: u64 = 0x7ff0_0000_0000_0000;

/// The bit pattern without its sign.
pub open spec fn magnitude(b: u64) -> int {
    if b >= SIGN_BIT {
        b - SIGN_BIT
    } else {
        b as int
    }
}

pub open spec fn is_nan(b: u64) -> bool {
    magnitude(b) > INFINITY_BITS
}

/// A key that orders the non-NaN binary64 values as numbers (both zeros
/// have key 0).
pub open spec fn order_key(b: u64) -> int {
    if b >= SIGN_BIT {
        -magnitude(b)
    } else {
        magnitude(b)
    }
}

/// IEEE-754 equality: NaN equals nothing, and the two zeros are equal.
pub open spec fn num_eq(a: u64, b: u64) -> bool {
    !is_nan(a) && !is_nan(b) && order_key(a) == order_key(b)
}

pub open spec fn num_lt(a: u64, b: u64) -> bool {
    !is_nan(a) && !is_nan(b) && order_key(a) < order_key(b)
}

pub open spec fn num_le(a: u64, b: u64) -> bool {
    !is_nan(a) && !is_nan(b) && order_key(a) <= order_key(b)
}

/// IEEE-754 negation flips the sign bit.
pub open spec fn negated(b: u64) -> u64 {
    if b >= SIGN_BIT {
        (b - SIGN_BIT) as u64
    } else {
        (b + SIGN_BIT) as u64
    }
}

/// Truthiness: nil and false are false, a number is true unless it is a
/// zero, every other value is true.
pub open spec fn truthy(v: ValueModel) -> bool {
    match v {
        ValueModel::Nil => false,
        ValueModel::Bool(b) => b,
        ValueModel::Number(n) => magnitude(n) != 0,
        ValueModel::String(_) => true,
    }
}

/// Whether the pair is a number and a string, in either order.
pub open spec fn mixed(a: ValueModel, b: ValueModel) -> bool {
    (a is Number && b is String) || (a is String && b is Number)
}

/// Equality of values. For a number and a string, `parsed` is the number the
/// string spells, if any.
pub open spec fn values_equal(a: ValueModel, b: ValueModel, parsed: Option<u64>) -> bool {
    match (a, b) {
        (ValueModel::Nil, ValueModel::Nil) => true,
        (ValueModel::Number(x), ValueModel::Number(y)) => num_eq(x, y),
        (ValueModel::String(x), ValueModel::String(y)) => x == y,
        (ValueModel::Bool(x), ValueModel::Bool(y)) => x == y,
        (ValueModel::Number(x), ValueModel::String(_)) => parsed matches Some(y) && num_eq(x, y),
        (ValueModel::String(_), ValueModel::Number(y)) => parsed matches Some(x) && num_eq(x, y),
        _ => false,
    }
}

/// A type error: the operator's position, what was wrong, and the operand
/// values it was applied to.
#[derive(Debug)]
pub struct RuntimeError {
    pub line: usize,
    pub col: i64,
    pub message: String,
    pub operands: Vec<Value>,
}

/// Where a type error was found and why (its operand values aside).
pub struct RuntimeErrorModel {
    pub line: int,
    pub col: int,
    pub message: Seq<char>,
}

impl View for RuntimeError {
    type V = RuntimeErrorModel;

    open spec fn view(&self) -> RuntimeErrorModel {
        RuntimeErrorModel { line: self.line as int, col: self.col as int, message: self.message@ }
    }
}

pub open spec fn unary_error(op: UnaryOp) -> RuntimeErrorModel {
    RuntimeErrorModel {
        line: op.line as int,
        col: op.col as int,
        message: "Operand of '"@ + unary_text(op.ty) + "' must be a number."@,
    }
}

pub open spec fn binary_error(op: BinaryOp) -> RuntimeErrorModel {
    RuntimeErrorModel {
        line: op.line as int,
        col: op.col as int,
        message: if op.ty == BinaryOpType::Plus {
            "Operands of '+' must be two numbers or two strings."@
        } else {
            "Operands of '"@ + binary_text(op.ty) + "' must be numbers."@
        },
    }
}

pub open spec fn literal_kind(l: LiteralModel) -> Kind {
    match l {
        LiteralModel::Number(_) => Kind::Number,
        LiteralModel::String(_) => Kind::String,
        LiteralModel::Boolean(_) => Kind::Bool,
        LiteralModel::Nil => Kind::Nil,
    }
}

pub open spec fn is_comparison(t: BinaryOpType) -> bool {
    t == BinaryOpType::Less || t == BinaryOpType::LessEqual || t == BinaryOpType::Greater
        || t == BinaryOpType::GreaterEqual
}

/// The kind of value a binary operator gives on operands of kinds `l` and
/// `r`, or `None` when it does not apply to them.
pub open spec fn binary_kind(t: BinaryOpType, l: Kind, r: Kind) -> Option<Kind> {
    if t == BinaryOpType::EqualEqual || t == BinaryOpType::NotEqual {
        Some(Kind::Bool)
    } else if t == BinaryOpType::Plus && l == Kind::String && r == Kind::String {
        Some(Kind::String)
    } else if l == Kind::Number && r == Kind::Number {
        if is_comparison(t) {
            Some(Kind::Bool)
        } else {
            Some(Kind::Number)
        }
    } else {
        None
    }
}

/// Type checking in evaluation order (operand before operator, left before
/// right): the kind of value the expression evaluates to, or the first type
/// error.
pub open spec fn check(e: ExprModel) -> Result<Kind, RuntimeErrorModel>
    decreases e,
{
    match e {
        ExprModel::Literal(l) => Ok(literal_kind(l)),
        ExprModel::Grouping(x) => check(*x),
        ExprModel::Unary(op, x) => match check(*x) {
            Err(err) => Err(err),
            Ok(k) => if op.ty == UnaryOpType::Bang {
                Ok(Kind::Bool)
            } else if k == Kind::Number {
                Ok(Kind::Number)
            } else {
                Err(unary_error(op))
            },
        },
        ExprModel::Binary(l, op, r) => match check(*l) {
            Err(err) => Err(err),
            Ok(kl) => match check(*r) {
                Err(err) => Err(err),
                Ok(kr) => match binary_kind(op.ty, kl, kr) {
                    Some(k) => Ok(k),
                    None => Err(binary_error(op)),
                },
            },
        },
    }
}

/// The text a string-valued expression evaluates to.
pub open spec fn string_value(e: ExprModel) -> Seq<char>
    decreases e,
{
    match e {
        ExprModel::Literal(LiteralModel::String(s)) => s,
        ExprModel::Grouping(x) => string_value(*x),
        ExprModel::Binary(l, _, r) => string_value(*l) + string_value(*r),
        _ => Seq::empty(),
    }
}

/// The value of a boolean-valued expression where it does not depend on
/// number values: `None` where it does.
pub open spec fn known_bool(e: ExprModel) -> Option<bool>
    decreases e,
{
    match e {
        ExprModel::Literal(LiteralModel::Boolean(b)) => Some(b),
        ExprModel::Grouping(x) => known_bool(*x),
        ExprModel::Unary(op, x) => if op.ty == UnaryOpType::Bang {
            match check(*x) {
                Ok(Kind::Nil) => Some(true),
                Ok(Kind::String) => Some(false),
                Ok(Kind::Bool) => match known_bool(*x) {
                    Some(b) => Some(!b),
                    None => None,
                },
                _ => None,
            }
        } else {
            None
        },
        ExprModel::Binary(l, op, r) => if op.ty == BinaryOpType::EqualEqual || op.ty
            == BinaryOpType::NotEqual {
            let eq = match (check(*l), check(*r)) {
                (Ok(Kind::Nil), Ok(Kind::Nil)) => Some(true),
                (Ok(Kind::String), Ok(Kind::String)) => Some(string_value(*l) == string_value(*r)),
                (Ok(Kind::Bool), Ok(Kind::Bool)) => match (known_bool(*l), known_bool(*r)) {
                    (Some(a), Some(b)) => Some(a == b),
                    _ => None,
                },
                (Ok(Kind::Number), Ok(Kind::Number)) => None,
                (Ok(Kind::Number), Ok(Kind::String)) => None,
                (Ok(Kind::String), Ok(Kind::Number)) => None,
                _ => Some(false),
            };
            match eq {
                Some(b) => Some(if op.ty == BinaryOpType::EqualEqual {
                    b
                } else {
                    !b
                }),
                None => None,
            }
        } else {
            None
        },
        _ => None,
    }
}

/// What is known of the outcome of evaluating `e`: the value's kind or the
/// first type error, the text of a string, and a boolean that does not
/// depend on number values.
pub open spec fn evaluates_to(e: ExprModel, r: Result<ValueModel, RuntimeErrorModel>) -> bool {
    match r {
        Ok(v) => {
            &&& check(e) == Ok::<Kind, RuntimeErrorModel>(kind_of(v))
            &&& (v matches ValueModel::String(s) ==> s == string_value(e))
            &&& (known_bool(e) matches Some(b) ==> v == ValueModel::Bool(b))
        },
        Err(err) => check(e) == Err::<Kind, RuntimeErrorModel>(err),
    }
}

/// The models of a sequence of values.
pub open spec fn values_model(v: Seq<Value>) -> Seq<ValueModel> {
    v.map_values(|x: Value| x@)
}

pub open spec fn result_model(r: Result<Value, RuntimeError>) -> Result<ValueModel, RuntimeErrorModel> {
    match r {
        Ok(v) => Ok(v@),
        Err(e) => Err(e@),
    }
}

/// Negation of a binary64 value.
pub fn negate(b: u64) -> (r: u64)
    ensures
        r == negated(b),
{
    if b >= SIGN_BIT {
        b - SIGN_BIT
    } else {
        b + SIGN_BIT
    }
}

fn magnitude_of(b: u64) -> (r: u64)
    ensures
        r == magnitude(b),
{
    if b >= SIGN_BIT {
        b - SIGN_BIT
    } else {
        b
    }
}

fn is_nan_bits(b: u64) -> (r: bool)
    ensures
        r == is_nan(b),
{
    magnitude_of(b) > INFINITY_BITS
}

/// Compares two non-NaN values by their order keys: -1, 0 or 1.
fn compare_keys(a: u64, b: u64) -> (r: i8)
    ensures
        r == 0 <==> order_key(a) == order_key(b),
        r < 0 <==> order_key(a) < order_key(b),
        r > 0 <==> order_key(a) > order_key(b),
{
    let ma = magnitude_of(a);
    let mb = magnitude_of(b);
    let na = a >= SIGN_BIT;
    let nb = b >= SIGN_BIT;
    let (ka_neg, ka) = (na && ma != 0, ma);
    let (kb_neg, kb) = (nb && mb != 0, mb);
    if ka_neg && !kb_neg {
        -1
    } else if !ka_neg && kb_neg {
        1
    } else if !ka_neg {
        if ka < kb {
            -1
        } else if ka > kb {
            1
        } else {
            0
        }
    } else {
        if ka > kb {
            -1
        } else if ka < kb {
            1
        } else {
            0
        }
    }
}

/// IEEE-754 `==` on binary64 values.
pub fn numbers_equal(a: u64, b: u64) -> (r: bool)
    ensures
        r == num_eq(a, b),
{
    !is_nan_bits(a) && !is_nan_bits(b) && compare_keys(a, b) == 0
}

/// IEEE-754 `<` on binary64 values.
pub fn number_less(a: u64, b: u64) -> (r: bool)
    ensures
        r == num_lt(a, b),
{
    !is_nan_bits(a) && !is_nan_bits(b) && compare_keys(a, b) < 0
}

/// IEEE-754 `<=` on binary64 values.
pub fn number_less_equal(a: u64, b: u64) -> (r: bool)
    ensures
        r == num_le(a, b),
{
    !is_nan_bits(a) && !is_nan_bits(b) && compare_keys(a, b) <= 0
}

impl Value {
    /// A copy of this value.
    pub fn duplicate(&self) -> (r: Value)
        ensures
            r@ == self@,
    {
        match self {
            Value::Number(n) => Value::Number(*n),
            Value::String(s) => Value::String(s.clone()),
            Value::Bool(b) => Value::Bool(*b),
            Value::Nil => Value::Nil,
        }
    }

    pub fn kind(&self) -> (r: Kind)
        ensures
            r == kind_of(self@),
    {
        match self {
            Value::Number(_) => Kind::Number,
            Value::String(_) => Kind::String,
            Value::Bool(_) => Kind::Bool,
            Value::Nil => Kind::Nil,
        }
    }
}

/// The value a binary operator gives on two evaluated operands, where it
/// does not depend on the caller's arithmetic: a comparison of numbers, a
/// concatenation, or an equality that reads no string as a number.
pub open spec fn binary_value(t: BinaryOpType, l: ValueModel, r: ValueModel) -> Option<ValueModel> {
    match (l, r) {
        (ValueModel::Number(a), ValueModel::Number(b)) => {
            if t == BinaryOpType::Less {
                Some(ValueModel::Bool(num_lt(a, b)))
            } else if t == BinaryOpType::LessEqual {
                Some(ValueModel::Bool(num_le(a, b)))
            } else if t == BinaryOpType::Greater {
                Some(ValueModel::Bool(num_lt(b, a)))
            } else if t == BinaryOpType::GreaterEqual {
                Some(ValueModel::Bool(num_le(b, a)))
            } else if t == BinaryOpType::EqualEqual {
                Some(ValueModel::Bool(num_eq(a, b)))
            } else if t == BinaryOpType::NotEqual {
                Some(ValueModel::Bool(!num_eq(a, b)))
            } else {
                None
            }
        },
        (ValueModel::String(a), ValueModel::String(b)) if t == BinaryOpType::Plus => Some(
            ValueModel::String(a + b),
        ),
        _ => if mixed(l, r) {
            None
        } else if t == BinaryOpType::EqualEqual {
            Some(ValueModel::Bool(values_equal(l, r, None)))
        } else if t == BinaryOpType::NotEqual {
            Some(ValueModel::Bool(!values_equal(l, r, None)))
        } else {
            None
        },
    }
}

/// Evaluates expression trees.
#[derive(Debug)]
pub struct Interpreter {}

impl Interpreter {
    pub fn new() -> (r: Interpreter) {
        Interpreter {}
    }

    /// Whether a value counts as true.
    pub fn is_truthy(val: &Value) -> (r: bool)
        ensures
            r == truthy(val@),
    {
        match val {
            Value::Nil => false,
            Value::Bool(b) => *b,
            Value::Number(n) => magnitude_of(*n) != 0,
            Value::String(_) => true,
        }
    }

    /// Equality of two values, given the number that the string operand
    /// spells when one operand is a number and the other a string.
    pub fn is_equal_parsed(left: &Value, right: &Value, parsed: Option<u64>) -> (r: bool)
        ensures
            r == values_equal(left@, right@, parsed),
    {
        match (left, right) {
            (Value::Nil, Value::Nil) => true,
            (Value::Number(l), Value::Number(r)) => numbers_equal(*l, *r),
            (Value::String(l), Value::String(r)) => l.eq(r),
            (Value::Bool(l), Value::Bool(r)) => *l == *r,
            (Value::Number(l), Value::String(_)) => match parsed {
                Some(r) => numbers_equal(*l, r),
                None => false,
            },
            (Value::String(_), Value::Number(r)) => match parsed {
                Some(l) => numbers_equal(l, *r),
                None => false,
            },
            _ => false,
        }
    }

    /// Equality of two values; a string compared with a number is read as a
    /// number by `arith`, and is unequal to it if it spells none.
    pub fn is_equal<A: Arithmetic>(arith: &A, left: &Value, right: &Value) -> (r: bool)
        ensures
            !mixed(left@, right@) ==> r == values_equal(left@, right@, None),
            mixed(left@, right@) ==> exists|p: Option<u64>| r == values_equal(left@, right@, p),
    {
        let parsed = match (left, right) {
            (Value::Number(_), Value::String(s)) => arith.parse(s),
            (Value::String(s), Value::Number(_)) => arith.parse(s),
            _ => None,
        };
        Interpreter::is_equal_parsed(left, right, parsed)
    }

    pub fn interpret_literal<A: Arithmetic>(arith: &A, lit: &Literal) -> (r: Value)
        ensures
            kind_of(r@) == literal_kind(lit@),
            lit@ matches LiteralModel::String(s) ==> r@ == ValueModel::String(s),
            lit@ matches LiteralModel::Boolean(b) ==> r@ == ValueModel::Bool(b),
    {
        match lit {
            Literal::Number(n) => Value::Number(arith.literal(n)),
            Literal::String(s) => Value::String(s.clone()),
            Literal::Boolean(b) => Value::Bool(*b),
            Literal::Nil => Value::Nil,
        }
    }

    /// Applies a prefix operator to an evaluated operand.
    pub fn interpret_unary(op: UnaryOp, val: &Value) -> (r: Result<Value, RuntimeError>)
        ensures
            result_model(r) == (if op.ty == UnaryOpType::Bang {
                Ok(ValueModel::Bool(!truthy(val@)))
            } else if let ValueModel::Number(n) = val@ {
                Ok(ValueModel::Number(negated(n)))
            } else {
                Err(unary_error(op))
            }),
            r matches Err(e) ==> values_model(e.operands@) == seq![val@],
    {
        match (op.ty, val) {
            (UnaryOpType::Bang, _) => Ok(Value::Bool(!Interpreter::is_truthy(val))),
            (UnaryOpType::Minus, Value::Number(n)) => Ok(Value::Number(negate(*n))),
            _ => Err(Interpreter::invalid_unary_operand(&op, val)),
        }
    }

    fn invalid_unary_operand(op: &UnaryOp, operand: &Value) -> (r: RuntimeError)
        ensures
            r@ == unary_error(*op),
            values_model(r.operands@) == seq![operand@],
    {
        let mut operands = Vec::new();
        operands.push(operand.duplicate());
        assert(values_model(operands@) =~= seq![operand@]);
        let mut message = "Operand of '".to_owned();
        message.append(op.text().as_str());
        message.append("' must be a number.");
        RuntimeError { line: op.line, col: op.col, message, operands }
    }

    fn invalid_binary_operand(op: &BinaryOp, left: &Value, right: &Value) -> (r: RuntimeError)
        ensures
            r@ == binary_error(*op),
            values_model(r.operands@) == seq![left@, right@],
    {
        let mut operands = Vec::new();
        operands.push(left.duplicate());
        operands.push(right.duplicate());
        assert(values_model(operands@) =~= seq![left@, right@]);
        let message = if op.ty == BinaryOpType::Plus {
            "Operands of '+' must be two numbers or two strings.".to_owned()
        } else {
            let mut m = "Operands of '".to_owned();
            m.append(op.text().as_str());
            m.append("' must be numbers.");
            m
        };
        RuntimeError { line: op.line, col: op.col, message, operands }
    }

    /// Applies an infix operator to two evaluated operands.
    pub fn interpret_binary<A: Arithmetic>(arith: &A, op: BinaryOp, left: &Value, right: &Value) -> (r: Result<Value, RuntimeError>)
        ensures
            match result_model(r) {
                Ok(v) => {
                    &&& binary_kind(op.ty, kind_of(left@), kind_of(right@)) == Some(kind_of(v))
                    &&& (binary_value(op.ty, left@, right@) matches Some(w) ==> v == w)
                },
                Err(e) => {
                    &&& binary_kind(op.ty, kind_of(left@), kind_of(right@)) is None
                    &&& e == binary_error(op)
                },
            },
            r matches Err(e) ==> values_model(e.operands@) == seq![left@, right@],
    {
        match (op.ty, left, right) {
            (BinaryOpType::Minus, Value::Number(l), Value::Number(r)) => Ok(Value::Number(arith.sub(*l, *r))),
            (BinaryOpType::Slash, Value::Number(l), Value::Number(r)) => Ok(Value::Number(arith.div(*l, *r))),
            (BinaryOpType::Star, Value::Number(l), Value::Number(r)) => Ok(Value::Number(arith.mul(*l, *r))),
            (BinaryOpType::Plus, Value::Number(l), Value::Number(r)) => Ok(Value::Number(arith.add(*l, *r))),
            (BinaryOpType::Plus, Value::String(l), Value::String(r)) => {
                let mut s = l.clone();
                s.append(r.as_str());
                Ok(Value::String(s))
            },
            (BinaryOpType::Greater, Value::Number(l), Value::Number(r)) => Ok(Value::Bool(number_less(*r, *l))),
            (BinaryOpType::GreaterEqual, Value::Number(l), Value::Number(r)) => Ok(Value::Bool(number_less_equal(*r, *l))),
            (BinaryOpType::Less, Value::Number(l), Value::Number(r)) => Ok(Value::Bool(number_less(*l, *r))),
            (BinaryOpType::LessEqual, Value::Number(l), Value::Number(r)) => Ok(Value::Bool(number_less_equal(*l, *r))),
            (BinaryOpType::EqualEqual, _, _) => Ok(Value::Bool(Interpreter::is_equal(arith, left, right))),
            (BinaryOpType::NotEqual, _, _) => Ok(Value::Bool(!Interpreter::is_equal(arith, left, right))),
            _ => Err(Interpreter::invalid_binary_operand(&op, left, right)),
        }
    }

    /// Evaluates an expression tree: its value, or the first type error.
    pub fn interpret_expr<A: Arithmetic>(arith: &A, expr: &Expr) -> (r: Result<Value, RuntimeError>)
        ensures
            evaluates_to(expr@, result_model(r)),
        decreases expr,
    {
        match expr {
            Expr::Literal(lit) => Ok(Interpreter::interpret_literal(arith, lit)),
            Expr::Binary(left, op, right) => {
                let left_val = Interpreter::interpret_expr(arith, left)?;
                let right_val = Interpreter::interpret_expr(arith, right)?;
                Interpreter::interpret_binary(arith, *op, &left_val, &right_val)
            },
            Expr::Grouping(group) => Interpreter::interpret_expr(arith, group),
            Expr::Unary(op, operand) => {
                let val = Interpreter::interpret_expr(arith, operand)?;
                Interpreter::interpret_unary(*op, &val)
            },
        }
    }
}

/// Evaluation keeps no state between runs: two evaluations of one tree
/// agree on whether they succeed, on the error, on the kind of the value,
/// and on every value that does not come from the caller's arithmetic; a
/// literal that is not a number evaluates to the same value every time.
pub proof fn law_evaluation_repeatable(
    e: ExprModel,
    r1: Result<ValueModel, RuntimeErrorModel>,
    r2: Result<ValueModel, RuntimeErrorModel>,
)
    requires
        evaluates_to(e, r1),
        evaluates_to(e, r2),
    ensures
        r1 is Ok <==> r2 is Ok,
        r1 is Err ==> r1 == r2,
        r1 matches Ok(v1) ==> r2 matches Ok(v2) && kind_of(v1) == kind_of(v2),
        r1 matches Ok(v1) ==> (v1 is String || v1 is Nil || known_bool(e) is Some) ==> r1 == r2,
        e matches ExprModel::Literal(l) && !(l is Number) ==> r1 == r2,
{
    if let (Ok(v1), Ok(v2)) = (r1, r2) {
        if v1 is String || v1 is Nil || known_bool(e) is Some {
            assert(kind_of(v1) == kind_of(v2));
        }
    }
}

} // verus!
