//! The value of an expression over whole numbers.
//!
//! The values of the slots are integers, and so are the integer literals; a
//! slot of a floating-point type has no integer value.
//! Arithmetic is exact: a result that does not fit in 128 bits is an error,
//! never a wrapped number. Comparisons give a truth value, `&&` and `||` take
//! truth values, and a conditional takes a truth value and gives the value of
//! the branch that it selects, without evaluating the other. Operands are
//! evaluated from left to right, and the first error is the result.
//! Floating-point literals and square roots are not whole numbers: they are
//! reported as such.

use crate::ir::{CodecExpr, CodecExprView, PacketCodec};
use crate::slots::{slot_views, SlotView};
use crate::models::parsing_models::{BinaryOp, PrimitiveType};
use vstd::prelude::*;

verus! {

/// What an expression evaluates to.
#[derive(Debug, Clone, Copy, PartialEq, Eq, Structural)]
pub enum Scalar {
    Integer(i128),
    Boolean(bool),
}

/// Why an expression has no value.
#[derive(Debug, Clone, Copy, PartialEq, Eq, Structural)]
pub enum EvalError {
    /// The expression names a slot for which no value was given.
    MissingSlot { index: usize },
    /// A floating-point literal or a square root.
    NotAnInteger,
    /// An operator met an operand of the wrong kind.
    TypeMismatch,
    /// A result does not fit in 128 bits.
    Overflow,
    DivisionByZero,
    NegativeExponent,
}

/// `base` to the power `exponent`.
pub open spec fn power(base: int, exponent: nat) -> int
    decreases exponent,
{
    if exponent == 0 {
        1
    } else {
        base * power(base, (exponent - 1) as nat)
    }
}

/// The quotient of `a` by `b`, rounded towards zero.
pub open spec fn quotient(a: int, b: int) -> int
    recommends
        b != 0,
{
    if a == 0 {
        0
    } else if a > 0 && b > 0 {
        a / b
    } else if a < 0 && b < 0 {
        (a * -1) / (b * -1)
    } else if a < 0 {
        ((a * -1) / b) * -1
    } else {
        (a / (b * -1)) * -1
    }
}

/// The integer `value` as a result: itself where it fits in 128 bits.
pub open spec fn integer_result(value: int) -> Result<Scalar, EvalError> {
    if i128::MIN <= value <= i128::MAX {
        Ok(Scalar::Integer(value as i128))
    } else {
        Err(EvalError::Overflow)
    }
}

/// What `op` gives on the integers `a` and `b`.
pub open spec fn apply_integers(op: BinaryOp, a: int, b: int) -> Result<Scalar, EvalError> {
    match op {
        BinaryOp::Plus => integer_result(a + b),
        BinaryOp::Minus => integer_result(a - b),
        BinaryOp::Mult => integer_result(a * b),
        BinaryOp::Div => if b == 0 {
            Err(EvalError::DivisionByZero)
        } else {
            integer_result(quotient(a, b))
        },
        BinaryOp::Pow => if b < 0 {
            Err(EvalError::NegativeExponent)
        } else {
            integer_result(power(a, b as nat))
        },
        BinaryOp::Gt => Ok(Scalar::Boolean(a > b)),
        BinaryOp::Lt => Ok(Scalar::Boolean(a < b)),
        BinaryOp::Gte => Ok(Scalar::Boolean(a >= b)),
        BinaryOp::Lte => Ok(Scalar::Boolean(a <= b)),
        BinaryOp::Equals => Ok(Scalar::Boolean(a == b)),
        BinaryOp::NotEquals => Ok(Scalar::Boolean(a != b)),
        BinaryOp::And => Err(EvalError::TypeMismatch),
        BinaryOp::Or => Err(EvalError::TypeMismatch),
    }
}

/// What `op` gives on the truth values `a` and `b`.
pub open spec fn apply_booleans(op: BinaryOp, a: bool, b: bool) -> Result<Scalar, EvalError> {
    match op {
        BinaryOp::And => Ok(Scalar::Boolean(a && b)),
        BinaryOp::Or => Ok(Scalar::Boolean(a || b)),
        BinaryOp::Equals => Ok(Scalar::Boolean(a == b)),
        BinaryOp::NotEquals => Ok(Scalar::Boolean(a != b)),
        _ => Err(EvalError::TypeMismatch),
    }
}

/// What `op` gives on `left` and `right`.
pub open spec fn apply(op: BinaryOp, left: Scalar, right: Scalar) -> Result<Scalar, EvalError> {
    match (left, right) {
        (Scalar::Integer(a), Scalar::Integer(b)) => apply_integers(op, a as int, b as int),
        (Scalar::Boolean(a), Scalar::Boolean(b)) => apply_booleans(op, a, b),
        _ => Err(EvalError::TypeMismatch),
    }
}

/// The smaller or the greater of two integers.
pub open spec fn pick(smaller: bool, left: Scalar, right: Scalar) -> Result<Scalar, EvalError> {
    match (left, right) {
        (Scalar::Integer(a), Scalar::Integer(b)) => Ok(
            Scalar::Integer(
                if (a <= b) == smaller {
                    a
                } else {
                    b
                },
            ),
        ),
        _ => Err(EvalError::TypeMismatch),
    }
}

/// The value of `e` where slot `i` holds `values[i]`.
pub open spec fn value_of(e: CodecExprView, values: Seq<Option<i128>>) -> Result<
    Scalar,
    EvalError,
>
    decreases e,
{
    match e {
        CodecExprView::Unsigned(v) => Ok(Scalar::Integer(v as i128)),
        CodecExprView::Signed(v) => Ok(Scalar::Integer(v as i128)),
        CodecExprView::Float(_) => Err(EvalError::NotAnInteger),
        CodecExprView::Slot { index, .. } => if index < values.len() {
            match values[index as int] {
                Some(value) => Ok(Scalar::Integer(value)),
                None => Err(EvalError::NotAnInteger),
            }
        } else {
            Err(EvalError::MissingSlot { index: index as usize })
        },
        CodecExprView::Group(inner) => value_of(*inner, values),
        CodecExprView::Binary(op, l, r) => match value_of(*l, values) {
            Ok(left) => match value_of(*r, values) {
                Ok(right) => apply(op, left, right),
                Err(error) => Err(error),
            },
            Err(error) => Err(error),
        },
        CodecExprView::Select(c, t, o) => match value_of(*c, values) {
            Ok(Scalar::Boolean(holds)) => if holds {
                value_of(*t, values)
            } else {
                value_of(*o, values)
            },
            Ok(Scalar::Integer(_)) => Err(EvalError::TypeMismatch),
            Err(error) => Err(error),
        },
        CodecExprView::Sqrt(_) => Err(EvalError::NotAnInteger),
        CodecExprView::Min(l, r) => match value_of(*l, values) {
            Ok(left) => match value_of(*r, values) {
                Ok(right) => pick(true, left, right),
                Err(error) => Err(error),
            },
            Err(error) => Err(error),
        },
        CodecExprView::Max(l, r) => match value_of(*l, values) {
            Ok(left) => match value_of(*r, values) {
                Ok(right) => pick(false, left, right),
                Err(error) => Err(error),
            },
            Err(error) => Err(error),
        },
    }
}

/// The integer that the bits `raw` of a slot of type `primitive` stand for:
/// the bits themselves for an unsigned type and for a MAC address, the two's
/// complement number for a signed type, and nothing for a floating-point
/// type.
pub open spec fn slot_integer(primitive: PrimitiveType, raw: u64) -> Option<i128> {
    match primitive {
        PrimitiveType::UInt8 | PrimitiveType::UInt16 | PrimitiveType::UInt32
        | PrimitiveType::UInt64 | PrimitiveType::MacAddress => Some(raw as i128),
        PrimitiveType::Int8 => Some((raw as u8) as i8 as i128),
        PrimitiveType::Int16 => Some((raw as u16) as i16 as i128),
        PrimitiveType::Int32 => Some((raw as u32) as i32 as i128),
        PrimitiveType::Int64 => Some(raw as i64 as i128),
        PrimitiveType::Float32 | PrimitiveType::Float64 => None,
    }
}

/// The integer that the bits `raw` of a slot of type `primitive` stand for.
pub fn interpret(primitive: PrimitiveType, raw: u64) -> (value: Option<i128>)
    ensures
        value == slot_integer(primitive, raw),
{
    match primitive {
        PrimitiveType::UInt8 => Some(raw as i128),
        PrimitiveType::UInt16 => Some(raw as i128),
        PrimitiveType::UInt32 => Some(raw as i128),
        PrimitiveType::UInt64 => Some(raw as i128),
        PrimitiveType::MacAddress => Some(raw as i128),
        PrimitiveType::Int8 => Some((raw as u8) as i8 as i128),
        PrimitiveType::Int16 => Some((raw as u16) as i16 as i128),
        PrimitiveType::Int32 => Some((raw as u32) as i32 as i128),
        PrimitiveType::Int64 => Some(raw as i64 as i128),
        PrimitiveType::Float32 => None,
        PrimitiveType::Float64 => None,
    }
}

/// A power of a base of magnitude two or more that has left the range of
/// 128 bits stays outside it however far the exponent grows.
proof fn lemma_power_stays_outside(base: int, reached: nat, exponent: nat)
    requires
        base >= 2 || base <= -2,
        reached <= exponent,
        power(base, reached) > i128::MAX || power(base, reached) < i128::MIN,
    ensures
        power(base, exponent) > i128::MAX || power(base, exponent) < i128::MIN,
    decreases exponent - reached,
{
    if reached < exponent {
        let here = power(base, reached);
        let next = power(base, reached + 1);
        assert(next > i128::MAX || next < i128::MIN) by (nonlinear_arith)
            requires
                next == base * here,
                base >= 2 || base <= -2,
                here > i128::MAX || here < i128::MIN,
        ;
        lemma_power_stays_outside(base, reached + 1, exponent);
    }
}

proof fn lemma_power_of_small_base(base: int, exponent: nat)
    requires
        -1 <= base <= 1,
    ensures
        base == 0 ==> power(base, exponent) == if exponent == 0 {
            1int
        } else {
            0int
        },
        base == 1 ==> power(base, exponent) == 1,
        base == -1 ==> power(base, exponent) == if exponent % 2 == 0 {
            1int
        } else {
            -1int
        },
    decreases exponent,
{
    if exponent > 0 {
        lemma_power_of_small_base(base, (exponent - 1) as nat);
    }
}

/// `base` to the power `exponent`, where it fits in 128 bits.
fn checked_power(base: i128, exponent: i128) -> (result: Result<Scalar, EvalError>)
    requires
        exponent >= 0,
    ensures
        result == integer_result(power(base as int, exponent as nat)),
{
    proof {
        if -1 <= base <= 1 {
            lemma_power_of_small_base(base as int, exponent as nat);
        }
    }
    if base == 0 {
        return Ok(Scalar::Integer(if exponent == 0 { 1 } else { 0 }));
    }
    if base == 1 {
        return Ok(Scalar::Integer(1));
    }
    if base == -1 {
        return Ok(Scalar::Integer(if exponent % 2 == 0 { 1 } else { -1 }));
    }
    let mut result: i128 = 1;
    let mut done: i128 = 0;
    while done < exponent
        invariant
            0 <= done <= exponent,
            base >= 2 || base <= -2,
            result == power(base as int, done as nat),
        decreases exponent - done,
    {
        result = match result.checked_mul(base) {
            Some(next) => next,
            None => {
                proof {
                    assert(result * base == base * result) by (nonlinear_arith);
                    lemma_power_stays_outside(base as int, (done + 1) as nat, exponent as nat);
                }
                return Err(EvalError::Overflow);
            },
        };
        assert(result == base * power(base as int, done as nat)) by (nonlinear_arith)
            requires
                result == power(base as int, done as nat) * base,
        ;
        done += 1;
    }
    Ok(Scalar::Integer(result))
}

/// The integer `value` as a result.
fn checked(value: Option<i128>) -> (result: Result<Scalar, EvalError>)
    ensures
        result == match value {
            Some(v) => Ok::<Scalar, EvalError>(Scalar::Integer(v)),
            None => Err::<Scalar, EvalError>(EvalError::Overflow),
        },
{
    match value {
        Some(v) => Ok(Scalar::Integer(v)),
        None => Err(EvalError::Overflow),
    }
}

/// Applies `op` to two integers.
fn apply_to_integers(op: BinaryOp, a: i128, b: i128) -> (result: Result<Scalar, EvalError>)
    ensures
        result == apply_integers(op, a as int, b as int),
{
    match op {
        BinaryOp::Plus => checked(a.checked_add(b)),
        BinaryOp::Minus => checked(a.checked_sub(b)),
        BinaryOp::Mult => checked(a.checked_mul(b)),
        BinaryOp::Div => {
            if b == 0 {
                Err(EvalError::DivisionByZero)
            } else {
                checked(a.checked_div(b))
            }
        },
        BinaryOp::Pow => {
            if b < 0 {
                Err(EvalError::NegativeExponent)
            } else {
                checked_power(a, b)
            }
        },
        BinaryOp::Gt => Ok(Scalar::Boolean(a > b)),
        BinaryOp::Lt => Ok(Scalar::Boolean(a < b)),
        BinaryOp::Gte => Ok(Scalar::Boolean(a >= b)),
        BinaryOp::Lte => Ok(Scalar::Boolean(a <= b)),
        BinaryOp::Equals => Ok(Scalar::Boolean(a == b)),
        BinaryOp::NotEquals => Ok(Scalar::Boolean(a != b)),
        BinaryOp::And => Err(EvalError::TypeMismatch),
        BinaryOp::Or => Err(EvalError::TypeMismatch),
    }
}

/// Applies `op` to two values.
pub fn apply_operator(op: BinaryOp, left: Scalar, right: Scalar) -> (result: Result<
    Scalar,
    EvalError,
>)
    ensures
        result == apply(op, left, right),
{
    match (left, right) {
        (Scalar::Integer(a), Scalar::Integer(b)) => apply_to_integers(op, a, b),
        (Scalar::Boolean(a), Scalar::Boolean(b)) => match op {
            BinaryOp::And => Ok(Scalar::Boolean(a && b)),
            BinaryOp::Or => Ok(Scalar::Boolean(a || b)),
            BinaryOp::Equals => Ok(Scalar::Boolean(a == b)),
            BinaryOp::NotEquals => Ok(Scalar::Boolean(a != b)),
            _ => Err(EvalError::TypeMismatch),
        },
        _ => Err(EvalError::TypeMismatch),
    }
}

fn pick_one(smaller: bool, left: Scalar, right: Scalar) -> (result: Result<Scalar, EvalError>)
    ensures
        result == pick(smaller, left, right),
{
    match (left, right) {
        (Scalar::Integer(a), Scalar::Integer(b)) => Ok(
            Scalar::Integer(
                if (a <= b) == smaller {
                    a
                } else {
                    b
                },
            ),
        ),
        _ => Err(EvalError::TypeMismatch),
    }
}

/// The integer values of the slots of a packet whose bits are `raw`.
pub open spec fn slot_integers(slots: Seq<SlotView>, raw: Seq<u64>) -> Seq<Option<i128>> {
    Seq::new(raw.len(), |i: int| slot_integer(slots[i].primitive, raw[i]))
}

/// The integer values of the slots of `codec`, read from the bits `raw` that
/// [`PacketCodec::deserialize`] gives.
pub fn slot_values(codec: &PacketCodec, raw: &Vec<u64>) -> (values: Vec<Option<i128>>)
    requires
        raw.len() == codec@.slots.len(),
    ensures
        values@ == slot_integers(codec@.slots, raw@),
{
    let slots = codec.slots();
    let mut values: Vec<Option<i128>> = Vec::new();
    let mut i: usize = 0;
    while i < raw.len()
        invariant
            i <= raw.len() == slots.len(),
            slot_views(slots@) == codec@.slots,
            values.len() == i,
            forall|k: int| 0 <= k < i ==> values[k] == slot_integer(slots[k].primitive, raw[k]),
        decreases raw.len() - i,
    {
        values.push(interpret(slots[i].primitive, raw[i]));
        i += 1;
    }
    assert(values@ =~= slot_integers(codec@.slots, raw@)) by {
    }
    values
}

/// Evaluates `expr` where slot `i` holds `values[i]`.
pub fn evaluate(expr: &CodecExpr, values: &Vec<Option<i128>>) -> (result: Result<
    Scalar,
    EvalError,
>)
    ensures
        result == value_of(expr@, values@),
    decreases expr,
{
    match expr {
        CodecExpr::Unsigned(v) => Ok(Scalar::Integer(*v as i128)),
        CodecExpr::Signed(v) => Ok(Scalar::Integer(*v as i128)),
        CodecExpr::Float(_) => Err(EvalError::NotAnInteger),
        CodecExpr::Slot { index, .. } => {
            if *index < values.len() {
                match values[*index] {
                    Some(value) => Ok(Scalar::Integer(value)),
                    None => Err(EvalError::NotAnInteger),
                }
            } else {
                Err(EvalError::MissingSlot { index: *index })
            }
        },
        CodecExpr::Group(inner) => evaluate(inner, values),
        CodecExpr::Binary(op, l, r) => {
            let left = match evaluate(l, values) {
                Ok(v) => v,
                Err(error) => { return Err(error); },
            };
            match evaluate(r, values) {
                Ok(right) => apply_operator(*op, left, right),
                Err(error) => Err(error),
            }
        },
        CodecExpr::Select(c, t, o) => match evaluate(c, values) {
            Ok(Scalar::Boolean(holds)) => if holds {
                evaluate(t, values)
            } else {
                evaluate(o, values)
            },
            Ok(Scalar::Integer(_)) => Err(EvalError::TypeMismatch),
            Err(error) => Err(error),
        },
        CodecExpr::Sqrt(_) => Err(EvalError::NotAnInteger),
        CodecExpr::Min(l, r) => {
            let left = match evaluate(l, values) {
                Ok(v) => v,
                Err(error) => { return Err(error); },
            };
            match evaluate(r, values) {
                Ok(right) => pick_one(true, left, right),
                Err(error) => Err(error),
            }
        },
        CodecExpr::Max(l, r) => {
            let left = match evaluate(l, values) {
                Ok(v) => v,
                Err(error) => { return Err(error); },
            };
            match evaluate(r, values) {
                Ok(right) => pick_one(false, left, right),
                Err(error) => Err(error),
            }
        },
    }
}

/// The truth value of a conditional's predicate decides which branch gives
/// the conditional's value.
pub proof fn lemma_select_takes_one_branch(
    predicate: CodecExprView,
    value: CodecExprView,
    alternative: CodecExprView,
    values: Seq<Option<i128>>,
)
    ensures
        value_of(predicate, values) == Ok::<Scalar, EvalError>(Scalar::Boolean(true)) ==> value_of(
            CodecExprView::Select(Box::new(predicate), Box::new(value), Box::new(alternative)),
            values,
        ) == value_of(value, values),
        value_of(predicate, values) == Ok::<Scalar, EvalError>(Scalar::Boolean(false)) ==> value_of(
            CodecExprView::Select(Box::new(predicate), Box::new(value), Box::new(alternative)),
            values,
        ) == value_of(alternative, values),
{
}

} // verus!
