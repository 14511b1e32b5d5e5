use vstd::prelude::*;

use crate::datatypes::{BuildError, Expr, SVal};

verus! {

/// Wraps an integer that is at most one step outside the signed 32-bit
/// range back into it. The evaluator and the target machine share one
/// documented overflow policy: arithmetic wraps around the signed 32-bit
/// range, two's-complement style.
pub open spec fn wrap_i32(n: int) -> int {
    if n > i32::MAX as int {
        n - 0x1_0000_0000
    } else if n < i32::MIN as int {
        n + 0x1_0000_0000
    } else {
        n
    }
}

/// The integer an expression denotes: a literal is itself, `Add1` adds one,
/// `Sub1` subtracts one, `Negate` negates, all wrapping around the signed
/// 32-bit range.
pub open spec fn eval_spec(e: Expr) -> int
    decreases e,
{
    match e {
        Expr::Num(n) => n as int,
        Expr::Add1(e1) => wrap_i32(eval_spec(*e1) + 1),
        Expr::Sub1(e1) => wrap_i32(eval_spec(*e1) - 1),
        Expr::Negate(e1) => wrap_i32(-eval_spec(*e1)),
    }
}

/// Every expression denotes a value inside the signed 32-bit range.
pub proof fn lemma_eval_in_range(e: Expr)
    ensures
        i32::MIN as int <= eval_spec(e) <= i32::MAX as int,
    decreases e,
{
    match e {
        Expr::Num(_) => {},
        Expr::Add1(e1) => lemma_eval_in_range(*e1),
        Expr::Sub1(e1) => lemma_eval_in_range(*e1),
        Expr::Negate(e1) => lemma_eval_in_range(*e1),
    }
}

/// Adds one, wrapping around the signed 32-bit range.
pub fn add1_wrapping(v: i32) -> (r: i32)
    ensures
        r as int == wrap_i32(v as int + 1),
{
    if v == i32::MAX {
        i32::MIN
    } else {
        v + 1
    }
}

/// Subtracts one, wrapping around the signed 32-bit range.
pub fn sub1_wrapping(v: i32) -> (r: i32)
    ensures
        r as int == wrap_i32(v as int - 1),
{
    if v == i32::MIN {
        i32::MAX
    } else {
        v - 1
    }
}

/// Negates, wrapping around the signed 32-bit range: the minimum value is
/// its own negation.
pub fn negate_wrapping(v: i32) -> (r: i32)
    ensures
        r as int == wrap_i32(-(v as int)),
{
    if v == i32::MIN {
        i32::MIN
    } else {
        -v
    }
}

/// Evaluates an expression to the signed 32-bit integer it denotes.
/// Total over the AST: no failure path, no side effect.
pub fn eval(e: &Expr) -> (r: i32)
    ensures
        r as int == eval_spec(*e),
    decreases *e,
{
    match e {
        Expr::Num(n) => *n,
        Expr::Add1(e1) => add1_wrapping(eval(&**e1)),
        Expr::Sub1(e1) => sub1_wrapping(eval(&**e1)),
        Expr::Negate(e1) => negate_wrapping(eval(&**e1)),
    }
}

/// Negating twice leaves the denoted value unchanged, for every
/// expression; with the wrapping policy this holds even of the minimum
/// 32-bit value, which is its own negation.
pub proof fn lemma_double_negate(x: Expr)
    ensures
        eval_spec(Expr::Negate(Box::new(Expr::Negate(Box::new(x))))) == eval_spec(x),
{
    lemma_eval_in_range(x);
    let inner = Expr::Negate(Box::new(x));
    assert(eval_spec(inner) == wrap_i32(-eval_spec(x)));
}

/// The kind of failure the builder's model distinguishes: a literal out of
/// the 32-bit range, or an input that matches no recognized shape.
pub enum ErrorKind {
    Range,
    Parse,
}

/// The recognized unary operator names.
pub open spec fn is_op_name(name: Seq<char>) -> bool {
    name == "add1"@ || name == "sub1"@ || name == "negate"@
}

/// The unary node a recognized operator name stands for, wrapping a child.
pub open spec fn unary_node(name: Seq<char>, child: Expr) -> Expr
    recommends
        is_op_name(name),
{
    if name == "add1"@ {
        Expr::Add1(Box::new(child))
    } else if name == "sub1"@ {
        Expr::Sub1(Box::new(child))
    } else {
        Expr::Negate(Box::new(child))
    }
}

/// What building an AST from an input value yields: an integer atom in the
/// signed 32-bit range is a literal; a two-element list of a recognized
/// operator name and an operand wraps the operand's tree in the matching
/// unary node; every other shape is a parse failure; a literal outside the
/// range is a range failure. Failure is fail-fast: a failing operand fails
/// the whole list.
pub open spec fn parse_spec(v: SVal) -> Result<Expr, ErrorKind>
    decreases v,
{
    match v {
        SVal::Int(n) => if i32::MIN as int <= n as int <= i32::MAX as int {
            Ok(Expr::Num(n as i32))
        } else {
            Err(ErrorKind::Range)
        },
        SVal::List(items) => if items.len() == 2 {
            match items[0] {
                SVal::Sym(name) => if is_op_name(name@) {
                    match parse_spec(items[1]) {
                        Ok(child) => Ok(unary_node(name@, child)),
                        Err(k) => Err(k),
                    }
                } else {
                    Err(ErrorKind::Parse)
                },
                _ => Err(ErrorKind::Parse),
            }
        } else {
            Err(ErrorKind::Parse)
        },
        SVal::Sym(_) => Err(ErrorKind::Parse),
        SVal::Other => Err(ErrorKind::Parse),
    }
}

/// What the builder promises of its result: the tree the model gives on
/// success, the matching error kind on failure, and the fixed description
/// on a parse failure.
pub open spec fn parse_post(v: SVal, r: Result<Expr, BuildError>) -> bool {
    match parse_spec(v) {
        Ok(e) => r matches Ok(t) && t == e,
        Err(ErrorKind::Range) => r matches Err(b) && b is RangeError,
        Err(ErrorKind::Parse) => r matches Err(b) && (b matches BuildError::ParseError(m)
            && m@ == "parse error"@),
    }
}

/// Totality on valid shapes: a two-element list of a recognized operator
/// name and an operand that itself builds, builds — to exactly the
/// matching unary node wrapping the operand's tree.
pub proof fn lemma_parse_total_on_valid(v: SVal)
    requires
        ({
            &&& v matches SVal::List(items)
            &&& items.len() == 2
            &&& items[0] matches SVal::Sym(name)
            &&& is_op_name(name@)
            &&& parse_spec(items[1]) is Ok
        }),
    ensures
        parse_spec(v) is Ok,
        v matches SVal::List(items) ==> items[0] matches SVal::Sym(name)
            ==> parse_spec(v) == Ok::<Expr, ErrorKind>(
            unary_node(name@, parse_spec(items[1])->Ok_0),
        ),
{
}

/// Failure on wrong arity: a list that does not have exactly two elements
/// is a parse failure, whatever it holds.
pub proof fn lemma_parse_rejects_wrong_arity(v: SVal)
    requires
        v matches SVal::List(items) && items.len() != 2,
    ensures
        parse_spec(v) == Err::<Expr, ErrorKind>(ErrorKind::Parse),
{
}

/// Failure on an unrecognized operator: a two-element list whose head is a
/// symbol outside the recognized set is a parse failure, whatever its
/// operand holds.
pub proof fn lemma_parse_rejects_unknown_op(v: SVal)
    requires
        ({
            &&& v matches SVal::List(items)
            &&& items.len() == 2
            &&& items[0] matches SVal::Sym(name)
            &&& !is_op_name(name@)
        }),
    ensures
        parse_spec(v) == Err::<Expr, ErrorKind>(ErrorKind::Parse),
{
}

/// Failure on an out-of-range literal: an integer atom outside the signed
/// 32-bit range is a range failure.
pub proof fn lemma_parse_rejects_out_of_range(n: i64)
    requires
        (n as int) < (i32::MIN as int) || (n as int) > (i32::MAX as int),
    ensures
        parse_spec(SVal::Int(n)) == Err::<Expr, ErrorKind>(ErrorKind::Range),
{
}

/// Structural determinism: no hidden state affects building. Any two
/// results the builder's contract allows for one input agree in every
/// observable part — the same tree on success, the same error kind and
/// the same description on failure.
pub proof fn lemma_parse_deterministic(
    v: SVal,
    r1: Result<Expr, BuildError>,
    r2: Result<Expr, BuildError>,
)
    requires
        parse_post(v, r1),
        parse_post(v, r2),
    ensures
        r1 matches Ok(e1) ==> r2 matches Ok(e2) && e1 == e2,
        r1 matches Err(b1) ==> r2 matches Err(b2) && (b1 is RangeError <==> b2 is RangeError),
        r1 matches Err(BuildError::ParseError(m1)) ==> r2 matches Err(
            BuildError::ParseError(m2),
        ) && m1@ == m2@,
{
}

/// Builds an AST from a generic nested input value. Succeeds exactly on
/// the shapes `parse_spec` accepts and returns exactly the tree it gives;
/// fails with `RangeError` or `ParseError` exactly where it says so.
pub fn parse_expr(v: &SVal) -> (r: Result<Expr, BuildError>)
    ensures
        parse_post(*v, r),
    decreases *v,
{
    proof {
        reveal_strlit("add1");
        reveal_strlit("sub1");
        reveal_strlit("negate");
    }
    match v {
        SVal::Int(n) => {
            if i32::MIN as i64 <= *n && *n <= i32::MAX as i64 {
                Ok(Expr::Num(*n as i32))
            } else {
                Err(BuildError::RangeError)
            }
        },
        SVal::List(items) => {
            if items.len() == 2 {
                match &items[0] {
                    SVal::Sym(name) => {
                        let is_add1 = *name == "add1".to_owned();
                        let is_sub1 = *name == "sub1".to_owned();
                        let is_negate = *name == "negate".to_owned();
                        if is_add1 || is_sub1 || is_negate {
                            match parse_expr(&items[1]) {
                                Ok(child) => {
                                    if is_add1 {
                                        Ok(Expr::Add1(Box::new(child)))
                                    } else if is_sub1 {
                                        Ok(Expr::Sub1(Box::new(child)))
                                    } else {
                                        Ok(Expr::Negate(Box::new(child)))
                                    }
                                },
                                Err(e) => Err(e),
                            }
                        } else {
                            Err(BuildError::ParseError("parse error".to_owned()))
                        }
                    },
                    _ => Err(BuildError::ParseError("parse error".to_owned())),
                }
            } else {
                Err(BuildError::ParseError("parse error".to_owned()))
            }
        },
        SVal::Sym(_) => Err(BuildError::ParseError("parse error".to_owned())),
        SVal::Other => Err(BuildError::ParseError("parse error".to_owned())),
    }
}

} // verus!
