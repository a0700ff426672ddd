use vstd::prelude::*;

use crate::ast::{exprs_model, lemma_exprs_model, BinOp, Expr, ExprModel};
use crate::errors::{EvalError, EvalErrorModel};
use crate::num::{
    add_bits, div_bits, mul_bits, powi_bits, spec_abs_bits, spec_exact_int, spec_is_zero,
    spec_max_bits, spec_min_bits, spec_neg_bits, sub_bits, ONE_BITS,
};
use crate::num::{
    num_abs, num_add, num_div, num_exact_int, num_is_zero, num_max, num_min, num_mul, num_neg,
    num_powi, num_sub,
};
use vstd::string::StrSliceExecFns;

verus! {

broadcast use vstd::seq::axiom_seq_index_decreases, vstd::std_specs::vec::axiom_vec_decreases_to_view;

/// The fixed table of built-in functions.
#[derive(Clone, Copy, Debug, PartialEq, Eq, Structural)]
pub enum Builtin {
    Sin,
    Cos,
    Tan,
    Sqrt,
    Abs,
    Ln,
    Exp,
    Max,
    Min,
}

/// The built-in a name resolves to, if any.
pub open spec fn builtin_of(name: Seq<char>) -> Option<Builtin> {
    if name == "sin"@ {
        Some(Builtin::Sin)
    } else if name == "cos"@ {
        Some(Builtin::Cos)
    } else if name == "tan"@ {
        Some(Builtin::Tan)
    } else if name == "sqrt"@ {
        Some(Builtin::Sqrt)
    } else if name == "abs"@ {
        Some(Builtin::Abs)
    } else if name == "ln"@ {
        Some(Builtin::Ln)
    } else if name == "exp"@ {
        Some(Builtin::Exp)
    } else if name == "max"@ {
        Some(Builtin::Max)
    } else if name == "min"@ {
        Some(Builtin::Min)
    } else {
        None
    }
}

/// How many arguments a built-in takes.
pub open spec fn arity_of(b: Builtin) -> nat {
    match b {
        Builtin::Max => 2,
        Builtin::Min => 2,
        _ => 1,
    }
}

/// The value of a built-in on its argument values.  The sign-and-compare
/// built-ins are computed here; the transcendental ones have no value in
/// this crate (their computation needs the host's floating point) and
/// yield `Unsupported`.
pub open spec fn apply_builtin_s(name: Seq<char>, b: Builtin, vals: Seq<u64>) -> Result<
    u64,
    EvalErrorModel,
> {
    match b {
        Builtin::Abs => Ok(spec_abs_bits(vals[0])),
        Builtin::Max => Ok(spec_max_bits(vals[0], vals[1])),
        Builtin::Min => Ok(spec_min_bits(vals[0], vals[1])),
        _ => Err(EvalErrorModel::Unsupported { name }),
    }
}

/// The value of `l ^ r`: exponentiation by squaring when `r` is an exact
/// integer (negative integers through the reciprocal), `Unsupported`
/// otherwise.
pub open spec fn pow_result_s(l: u64, r: u64) -> Result<u64, EvalErrorModel> {
    match spec_exact_int(r) {
        None => Err(EvalErrorModel::Unsupported { name: seq!['^'] }),
        Some((neg, n)) => {
            if neg {
                Ok(div_bits(ONE_BITS, powi_bits(l, n as nat)))
            } else {
                Ok(powi_bits(l, n as nat))
            }
        },
    }
}

/// The value of an expression tree: a post-order reduction.  Children are
/// evaluated before their parent; `/` with a right operand of exactly zero
/// is `DivisionByZero`; a call is checked against the built-in table (name,
/// then arity) after its arguments.
pub open spec fn eval_expr_s(e: ExprModel) -> Result<u64, EvalErrorModel>
    decreases e, 0nat,
{
    match e {
        ExprModel::Literal { bits } => Ok(bits),
        ExprModel::Negate { operand } => match eval_expr_s(*operand) {
            Err(er) => Err(er),
            Ok(v) => Ok(spec_neg_bits(v)),
        },
        ExprModel::Binary { op, left, right } => match eval_expr_s(*left) {
            Err(er) => Err(er),
            Ok(lv) => match eval_expr_s(*right) {
                Err(er) => Err(er),
                Ok(rv) => match op {
                    BinOp::Add => Ok(add_bits(lv, rv)),
                    BinOp::Sub => Ok(sub_bits(lv, rv)),
                    BinOp::Mul => Ok(mul_bits(lv, rv)),
                    BinOp::Div => {
                        if spec_is_zero(rv) {
                            Err(EvalErrorModel::DivisionByZero)
                        } else {
                            Ok(div_bits(lv, rv))
                        }
                    },
                    BinOp::Pow => pow_result_s(lv, rv),
                },
            },
        },
        ExprModel::Call { name, args } => match eval_args_from_s(args, 0) {
            Err(er) => Err(er),
            Ok(vals) => match builtin_of(name) {
                None => Err(EvalErrorModel::UnknownFunction { name }),
                Some(b) => {
                    if args.len() != arity_of(b) {
                        Err(EvalErrorModel::ArityMismatch {
                            name,
                            expected: arity_of(b),
                            got: args.len(),
                        })
                    } else {
                        apply_builtin_s(name, b, vals)
                    }
                },
            },
        },
    }
}

/// The values of the argument expressions from index `i` on, or the first
/// error, in order.
pub open spec fn eval_args_from_s(args: Seq<ExprModel>, i: nat) -> Result<Seq<u64>, EvalErrorModel>
    decreases args, args.len() - i,
    when i <= args.len()
{
    if i >= args.len() {
        Ok(Seq::empty())
    } else {
        match eval_expr_s(args[i as int]) {
            Err(er) => Err(er),
            Ok(v) => match eval_args_from_s(args, i + 1) {
                Err(er) => Err(er),
                Ok(rest) => Ok(seq![v] + rest),
            },
        }
    }
}

/// Character-for-character string equality, decided without trusting any
/// outside comparison.
fn str_eq(a: &str, b: &str) -> (r: bool)
    ensures
        r == (a@ == b@),
{
    let na = a.unicode_len();
    let nb = b.unicode_len();
    if na != nb {
        return false;
    }
    let mut i: usize = 0;
    while i < na
        invariant
            i <= na,
            na as nat == a@.len(),
            nb as nat == b@.len(),
            na == nb,
            forall|j: int| 0 <= j < i ==> a@[j] == b@[j],
        decreases na - i,
    {
        if a.get_char(i) != b.get_char(i) {
            proof {
                assert(a@[i as int] != b@[i as int]);
            }
            return false;
        }
        i = i + 1;
    }
    proof {
        assert(a@ =~= b@);
    }
    true
}

fn builtin_lookup(name: &str) -> (r: Option<Builtin>)
    ensures
        r == builtin_of(name@),
{
    if str_eq(name, "sin") {
        Some(Builtin::Sin)
    } else if str_eq(name, "cos") {
        Some(Builtin::Cos)
    } else if str_eq(name, "tan") {
        Some(Builtin::Tan)
    } else if str_eq(name, "sqrt") {
        Some(Builtin::Sqrt)
    } else if str_eq(name, "abs") {
        Some(Builtin::Abs)
    } else if str_eq(name, "ln") {
        Some(Builtin::Ln)
    } else if str_eq(name, "exp") {
        Some(Builtin::Exp)
    } else if str_eq(name, "max") {
        Some(Builtin::Max)
    } else if str_eq(name, "min") {
        Some(Builtin::Min)
    } else {
        None
    }
}

fn arity(b: Builtin) -> (r: usize)
    ensures
        r as nat == arity_of(b),
{
    match b {
        Builtin::Max => 2,
        Builtin::Min => 2,
        _ => 1,
    }
}

fn apply_builtin(name: &String, b: Builtin, vals: &Vec<u64>) -> (r: Result<u64, EvalError>)
    requires
        vals@.len() == arity_of(b),
    ensures
        r matches Ok(v) ==> apply_builtin_s(name@, b, vals@) matches Ok(m) && m == v,
        r matches Err(e) ==> apply_builtin_s(name@, b, vals@) matches Err(me) && me == e@,
{
    match b {
        Builtin::Abs => Ok(num_abs(vals[0])),
        Builtin::Max => Ok(num_max(vals[0], vals[1])),
        Builtin::Min => Ok(num_min(vals[0], vals[1])),
        _ => Err(EvalError::Unsupported { name: name.clone() }),
    }
}

fn pow_result_x(l: u64, r: u64) -> (res: Result<u64, EvalError>)
    ensures
        res matches Ok(v) ==> pow_result_s(l, r) matches Ok(m) && m == v,
        res matches Err(e) ==> pow_result_s(l, r) matches Err(me) && me == e@,
{
    match num_exact_int(r) {
        None => {
            let name = "^".to_owned();
            proof {
                reveal_strlit("^");
                assert(name@ =~= seq!['^']);
            }
            Err(EvalError::Unsupported { name })
        },
        Some((neg, n)) => {
            let m = num_powi(l, n);
            if neg {
                Ok(num_div(ONE_BITS, m))
            } else {
                Ok(m)
            }
        },
    }
}

/// Reduce an expression tree to the bit pattern of its double value, or to
/// the first evaluation error.  The result is exactly `eval_expr_s` of the
/// tree's model.
pub fn eval_expr(e: &Expr) -> (r: Result<u64, EvalError>)
    ensures
        r matches Ok(v) ==> eval_expr_s(e@) matches Ok(m) && m == v,
        r matches Err(er) ==> eval_expr_s(e@) matches Err(me) && me == er@,
    decreases *e, 0nat,
{
    match e {
        Expr::Literal { bits } => Ok(*bits),
        Expr::Negate { operand } => match eval_expr(&**operand) {
            Err(er) => Err(er),
            Ok(v) => Ok(num_neg(v)),
        },
        Expr::Binary { op, left, right } => {
            let lv = match eval_expr(&**left) {
                Err(er) => {
                    return Err(er);
                },
                Ok(v) => v,
            };
            let rv = match eval_expr(&**right) {
                Err(er) => {
                    return Err(er);
                },
                Ok(v) => v,
            };
            match op {
                BinOp::Add => Ok(num_add(lv, rv)),
                BinOp::Sub => Ok(num_sub(lv, rv)),
                BinOp::Mul => Ok(num_mul(lv, rv)),
                BinOp::Div => {
                    if num_is_zero(rv) {
                        Err(EvalError::DivisionByZero)
                    } else {
                        Ok(num_div(lv, rv))
                    }
                },
                BinOp::Pow => pow_result_x(lv, rv),
            }
        },
        Expr::Call { name, args } => {
            proof {
                lemma_exprs_model(args@);
            }
            let vals = match eval_args(args) {
                Err(er) => {
                    return Err(er);
                },
                Ok(v) => v,
            };
            match builtin_lookup(name.as_str()) {
                None => Err(EvalError::UnknownFunction { name: name.clone() }),
                Some(b) => {
                    let ar = arity(b);
                    if args.len() != ar {
                        Err(EvalError::ArityMismatch {
                            name: name.clone(),
                            expected: ar,
                            got: args.len(),
                        })
                    } else {
                        apply_builtin(name, b, &vals)
                    }
                },
            }
        },
    }
}

fn eval_args(args: &Vec<Expr>) -> (r: Result<Vec<u64>, EvalError>)
    ensures
        r matches Ok(v) ==> eval_args_from_s(exprs_model(args@), 0) matches Ok(m) && m == v@
            && v@.len() == args@.len(),
        r matches Err(er) ==> eval_args_from_s(exprs_model(args@), 0) matches Err(me) && me
            == er@,
    decreases args@, 0nat,
{
    let ghost m = exprs_model(args@);
    proof {
        lemma_exprs_model(args@);
    }
    let mut vals: Vec<u64> = Vec::new();
    let mut i: usize = 0;
    loop
        invariant
            i <= args@.len(),
            vals@.len() == i,
            m == exprs_model(args@),
            m.len() == args@.len(),
            forall|j: int| 0 <= j < args@.len() ==> m[j] == args@[j]@,
            eval_args_from_s(m, i as nat) matches Ok(rest) ==> eval_args_from_s(m, 0) matches Ok(
                whole,
            ) && whole == vals@ + rest,
            eval_args_from_s(m, i as nat) matches Err(er) ==> eval_args_from_s(m, 0) == Err::<
                Seq<u64>,
                EvalErrorModel,
            >(er),
        decreases args@.len() - i,
    {
        if i >= args.len() {
            proof {
                assert(vals@ + Seq::<u64>::empty() =~= vals@);
            }
            return Ok(vals);
        }
        match eval_expr(&args[i]) {
            Err(er) => {
                return Err(er);
            },
            Ok(v) => {
                proof {
                    if eval_args_from_s(m, i as nat + 1) is Ok {
                        let rest = eval_args_from_s(m, i as nat + 1)->Ok_0;
                        assert(eval_args_from_s(m, i as nat) matches Ok(w) && w == seq![v] + rest);
                        assert((vals@ + seq![v]) + rest =~= vals@ + (seq![v] + rest));
                    }
                    assert(vals@.push(v) =~= vals@ + seq![v]);
                }
                vals.push(v);
                i = i + 1;
            },
        }
    }
}

} // verus!
