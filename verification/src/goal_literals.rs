//! Exact field literals of a goal transition's milestone expression: the
//! one value a goal pins a field to by equality.

use crate::error::{route_message, NativeTacticRouteRunError};
use vstd::prelude::*;

verus! {

pub const WRONG_LITERAL_TYPE_MESSAGE: &'static str = "goal transition literal has the wrong type";
pub const NOT_ONE_INTEGER_MESSAGE: &'static str = "goal transition requires one exact integer field literal";
pub const NOT_ONE_SYMBOL_MESSAGE: &'static str = "goal transition requires one exact symbolic field literal";
pub const OUT_OF_RANGE_MESSAGE: &'static str = "out of range integral type conversion attempted";

/// A literal of a milestone expression.
#[derive(Clone, Debug)]
pub enum GoalLiteral {
    Symbol(String),
    I32(i32),
    U32(u32),
    U64(u64),
    /// A literal of any other type.
    Other,
}

/// A milestone expression, as far as exact literals are concerned: a
/// comparison of a field (identified by number) for equality with a
/// literal, a conjunction, or anything else (another comparison, a
/// disjunction, a negation).
#[derive(Debug)]
pub enum GoalExpression {
    EqualTo { field: u32, value: GoalLiteral },
    And(Box<GoalExpression>, Box<GoalExpression>),
    Other,
}

/// The literals that `e` pins `field` to by equality, left to right
/// through its conjunctions.
pub open spec fn exact_literals_of(e: GoalExpression, field: u32) -> Seq<GoalLiteral>
    decreases e,
{
    match e {
        GoalExpression::EqualTo { field: f, value } => if f == field {
            seq![value]
        } else {
            seq![]
        },
        GoalExpression::And(left, right) => exact_literals_of(*left, field) + exact_literals_of(*right, field),
        GoalExpression::Other => seq![],
    }
}

pub open spec fn same_literal(a: GoalLiteral, b: GoalLiteral) -> bool {
    match a {
        GoalLiteral::Symbol(x) => b matches GoalLiteral::Symbol(y) && x@ == y@,
        GoalLiteral::I32(x) => b == GoalLiteral::I32(x),
        GoalLiteral::U32(x) => b == GoalLiteral::U32(x),
        GoalLiteral::U64(x) => b == GoalLiteral::U64(x),
        GoalLiteral::Other => b is Other,
    }
}

fn copy_literal(l: &GoalLiteral) -> (c: GoalLiteral)
    ensures
        same_literal(c, *l),
{
    match l {
        GoalLiteral::Symbol(s) => GoalLiteral::Symbol(s.clone()),
        GoalLiteral::I32(x) => GoalLiteral::I32(*x),
        GoalLiteral::U32(x) => GoalLiteral::U32(*x),
        GoalLiteral::U64(x) => GoalLiteral::U64(*x),
        GoalLiteral::Other => GoalLiteral::Other,
    }
}

/// The literals that `expression` pins `field` to by equality.
pub fn exact_literals(expression: &GoalExpression, field: u32) -> (v: Vec<GoalLiteral>)
    ensures
        v@.len() == exact_literals_of(*expression, field).len(),
        forall|i: int| 0 <= i < v@.len() ==> same_literal(#[trigger] v@[i], exact_literals_of(*expression, field)[i]),
    decreases expression,
{
    match expression {
        GoalExpression::EqualTo { field: candidate, value } => {
            let mut v: Vec<GoalLiteral> = Vec::new();
            if *candidate == field {
                v.push(copy_literal(value));
            }
            v
        },
        GoalExpression::And(left, right) => {
            let mut v = exact_literals(left, field);
            let mut w = exact_literals(right, field);
            let ghost (lv, wv) = (v@, w@);
            v.append(&mut w);
            proof {
                let (ls, rs) = (exact_literals_of(**left, field), exact_literals_of(**right, field));
                assert forall|i: int| 0 <= i < v@.len() implies same_literal(
                    #[trigger] v@[i],
                    exact_literals_of(*expression, field)[i],
                ) by {
                    if i < lv.len() {
                        assert(v@[i] == lv[i]);
                        assert((ls + rs)[i] == ls[i]);
                    } else {
                        assert(v@[i] == wv[i - lv.len()]);
                        assert((ls + rs)[i] == rs[i - ls.len()]);
                    }
                }
            }
            v
        },
        GoalExpression::Other => Vec::new(),
    }
}

/// Why a literal does not read as an integer.
#[derive(Clone, Copy, Debug, PartialEq, Eq, Structural)]
pub enum IntegerLiteralFault {
    WrongType,
    OutOfRange,
}

/// A literal as a signed 64-bit integer.
pub open spec fn integer_of(l: GoalLiteral) -> Result<i64, IntegerLiteralFault> {
    match l {
        GoalLiteral::I32(x) => Ok(x as i64),
        GoalLiteral::U32(x) => Ok(x as i64),
        GoalLiteral::U64(x) => if x <= i64::MAX {
            Ok(x as i64)
        } else {
            Err(IntegerLiteralFault::OutOfRange)
        },
        _ => Err(IntegerLiteralFault::WrongType),
    }
}

/// The first literal, from `i` on, that does not read as an integer.
pub open spec fn first_integer_fault(ls: Seq<GoalLiteral>, i: int) -> Option<IntegerLiteralFault>
    decreases ls.len() - i,
{
    if i < 0 || i >= ls.len() {
        None
    } else {
        match integer_of(ls[i]) {
            Err(fault) => Some(fault),
            Ok(_) => first_integer_fault(ls, i + 1),
        }
    }
}

/// The one integer that `e` pins `field` to, or why there is none: the
/// first literal of another type or out of range, else fewer or more than
/// one distinct value.
pub open spec fn exact_integer_of(e: GoalExpression, field: u32) -> Result<i64, Seq<char>> {
    let ls = exact_literals_of(e, field);
    match first_integer_fault(ls, 0) {
        Some(IntegerLiteralFault::WrongType) => Err(WRONG_LITERAL_TYPE_MESSAGE@),
        Some(IntegerLiteralFault::OutOfRange) => Err(OUT_OF_RANGE_MESSAGE@),
        None => if ls.len() > 0 && forall|i: int| 0 <= i < ls.len() ==> integer_of(#[trigger] ls[i]) == integer_of(ls[0]) {
            Ok(integer_of(ls[0])->Ok_0)
        } else {
            Err(NOT_ONE_INTEGER_MESSAGE@)
        },
    }
}

fn integer_literal(l: &GoalLiteral) -> (r: Result<i64, IntegerLiteralFault>)
    ensures
        r == integer_of(*l),
{
    match l {
        GoalLiteral::I32(x) => Ok(*x as i64),
        GoalLiteral::U32(x) => Ok(*x as i64),
        GoalLiteral::U64(x) => if *x <= 0x7fff_ffff_ffff_ffffu64 {
            Ok(*x as i64)
        } else {
            Err(IntegerLiteralFault::OutOfRange)
        },
        _ => Err(IntegerLiteralFault::WrongType),
    }
}

/// The one integer that `expression` pins `field` to by equality.
pub fn exact_integer_literal(expression: &GoalExpression, field: u32) -> (r: Result<i64, NativeTacticRouteRunError>)
    ensures
        match exact_integer_of(*expression, field) {
            Ok(v) => r == Ok::<i64, NativeTacticRouteRunError>(v),
            Err(message) => r matches Err(e) && e.message@ == message && !e.cancelled,
        },
{
    let ls = exact_literals(expression, field);
    let ghost spec_ls = exact_literals_of(*expression, field);
    let mut values: Vec<i64> = Vec::new();
    let mut i: usize = 0;
    while i < ls.len()
        invariant
            i <= ls.len() == spec_ls.len(),
            spec_ls == exact_literals_of(*expression, field),
            forall|j: int| 0 <= j < ls@.len() ==> same_literal(#[trigger] ls@[j], spec_ls[j]),
            first_integer_fault(spec_ls, 0) == first_integer_fault(spec_ls, i as int),
            values@.len() == i,
            forall|j: int| 0 <= j < i ==> integer_of(#[trigger] spec_ls[j]) == Ok::<i64, IntegerLiteralFault>(values@[j]),
        decreases ls.len() - i,
    {
        let read = integer_literal(&ls[i]);
        assert(integer_of(ls@[i as int]) == integer_of(spec_ls[i as int]));
        match read {
            Err(IntegerLiteralFault::WrongType) => {
                return Err(route_message(WRONG_LITERAL_TYPE_MESSAGE));
            },
            Err(IntegerLiteralFault::OutOfRange) => {
                return Err(route_message(OUT_OF_RANGE_MESSAGE));
            },
            Ok(v) => {
                values.push(v);
            },
        }
        i = i + 1;
    }
    if values.len() == 0 {
        return Err(route_message(NOT_ONE_INTEGER_MESSAGE));
    }
    let first = values[0];
    let mut k: usize = 1;
    while k < values.len()
        invariant
            1 <= k <= values.len() == spec_ls.len(),
            spec_ls == exact_literals_of(*expression, field),
            first_integer_fault(spec_ls, 0) is None,
            first == values@[0],
            forall|j: int| 0 <= j < spec_ls.len() ==> integer_of(#[trigger] spec_ls[j]) == Ok::<i64, IntegerLiteralFault>(values@[j]),
            forall|j: int| 0 <= j < k ==> values@[j] == first,
        decreases values.len() - k,
    {
        if values[k] != first {
            proof {
                assert(integer_of(spec_ls[k as int]) != integer_of(spec_ls[0]));
            }
            return Err(route_message(NOT_ONE_INTEGER_MESSAGE));
        }
        k = k + 1;
    }
    proof {
        assert forall|j: int| 0 <= j < spec_ls.len() implies integer_of(#[trigger] spec_ls[j]) == integer_of(spec_ls[0]) by {
            assert(values@[j] == first);
        }
    }
    Ok(first)
}

/// The one integer that `expression` pins `field` to, as an `i8`.
pub fn exact_i8_literal(expression: &GoalExpression, field: u32) -> (r: Result<i8, NativeTacticRouteRunError>)
    ensures
        match exact_integer_of(*expression, field) {
            Ok(v) => if i8::MIN <= v <= i8::MAX {
                r == Ok::<i8, NativeTacticRouteRunError>(v as i8)
            } else {
                r matches Err(e) && e.message@ == OUT_OF_RANGE_MESSAGE@
            },
            Err(message) => r matches Err(e) && e.message@ == message,
        },
{
    let v = exact_integer_literal(expression, field)?;
    if v < -128 || v > 127 {
        return Err(route_message(OUT_OF_RANGE_MESSAGE));
    }
    Ok(v as i8)
}

/// The one integer that `expression` pins `field` to, as an `i16`.
pub fn exact_i16_literal(expression: &GoalExpression, field: u32) -> (r: Result<i16, NativeTacticRouteRunError>)
    ensures
        match exact_integer_of(*expression, field) {
            Ok(v) => if i16::MIN <= v <= i16::MAX {
                r == Ok::<i16, NativeTacticRouteRunError>(v as i16)
            } else {
                r matches Err(e) && e.message@ == OUT_OF_RANGE_MESSAGE@
            },
            Err(message) => r matches Err(e) && e.message@ == message,
        },
{
    let v = exact_integer_literal(expression, field)?;
    if v < -32768 || v > 32767 {
        return Err(route_message(OUT_OF_RANGE_MESSAGE));
    }
    Ok(v as i16)
}

/// The one symbol that `e` pins `field` to, or why there is none: the
/// first literal of another type, else fewer or more than one distinct
/// symbol.
pub open spec fn exact_symbol_of(e: GoalExpression, field: u32) -> Result<Seq<char>, Seq<char>> {
    let ls = exact_literals_of(e, field);
    if exists|i: int| 0 <= i < ls.len() && !((#[trigger] ls[i]) is Symbol) {
        Err(WRONG_LITERAL_TYPE_MESSAGE@)
    } else if ls.len() > 0 && forall|i: int|
        0 <= i < ls.len() ==> ((#[trigger] ls[i])->Symbol_0)@ == (ls[0]->Symbol_0)@ {
        Ok((ls[0]->Symbol_0)@)
    } else {
        Err(NOT_ONE_SYMBOL_MESSAGE@)
    }
}

/// The one symbol that `expression` pins `field` to by equality.
pub fn exact_symbol_literal(expression: &GoalExpression, field: u32) -> (r: Result<String, NativeTacticRouteRunError>)
    ensures
        match exact_symbol_of(*expression, field) {
            Ok(s) => r matches Ok(v) && v@ == s,
            Err(message) => r matches Err(e) && e.message@ == message && !e.cancelled,
        },
{
    let ls = exact_literals(expression, field);
    let ghost spec_ls = exact_literals_of(*expression, field);
    let mut i: usize = 0;
    while i < ls.len()
        invariant
            i <= ls.len() == spec_ls.len(),
            spec_ls == exact_literals_of(*expression, field),
            forall|j: int| 0 <= j < ls@.len() ==> same_literal(#[trigger] ls@[j], spec_ls[j]),
            forall|j: int| 0 <= j < i ==> (#[trigger] spec_ls[j]) is Symbol,
        decreases ls.len() - i,
    {
        match &ls[i] {
            GoalLiteral::Symbol(_) => {},
            _ => {
                proof {
                    assert(!(spec_ls[i as int] is Symbol));
                }
                return Err(route_message(WRONG_LITERAL_TYPE_MESSAGE));
            },
        }
        i = i + 1;
    }
    if ls.len() == 0 {
        return Err(route_message(NOT_ONE_SYMBOL_MESSAGE));
    }
    let first = match &ls[0] {
        GoalLiteral::Symbol(s) => s,
        _ => {
            return Err(route_message(WRONG_LITERAL_TYPE_MESSAGE));
        },
    };
    let mut k: usize = 1;
    while k < ls.len()
        invariant
            1 <= k <= ls.len() == spec_ls.len(),
            spec_ls == exact_literals_of(*expression, field),
            forall|j: int| 0 <= j < ls@.len() ==> same_literal(#[trigger] ls@[j], spec_ls[j]),
            forall|j: int| 0 <= j < spec_ls.len() ==> (#[trigger] spec_ls[j]) is Symbol,
            first@ == (spec_ls[0]->Symbol_0)@,
            forall|j: int| 0 <= j < k ==> ((#[trigger] spec_ls[j])->Symbol_0)@ == (spec_ls[0]->Symbol_0)@,
        decreases ls.len() - k,
    {
        let same = match &ls[k] {
            GoalLiteral::Symbol(s) => crate::text::text_eq(s.as_str(), first.as_str()),
            _ => false,
        };
        if !same {
            proof {
                assert(same_literal(ls@[k as int], spec_ls[k as int]));
                assert((spec_ls[k as int]->Symbol_0)@ != (spec_ls[0]->Symbol_0)@);
            }
            return Err(route_message(NOT_ONE_SYMBOL_MESSAGE));
        }
        k = k + 1;
    }
    Ok(first.clone())
}

} // verus!
