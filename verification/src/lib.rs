use vstd::prelude::*;

pub mod ast;
pub mod errors;
pub mod eval;
pub mod lexer;
pub mod num;
pub mod parser;

use crate::errors::{EvalError, EvalErrorModel};
use crate::eval::eval_expr;
use crate::eval::eval_expr_s;
use crate::lexer::lex_from;
use crate::lexer::tokenize;
use crate::parser::parse;
use crate::parser::parse_tokens_s;
use vstd::string::StrSliceExecFns;

verus! {

/// Upper bound on accepted input length, in characters: a resource guard,
/// so that recursive-descent parsing of attacker-controlled text cannot
/// exhaust the call stack.
pub const MAX_INPUT_CHARS: usize = 10_000;

/// The value of an expression text: the guard on its length, then the
/// whole pipeline — lexing, parsing, evaluation — or the first error.
pub open spec fn evaluate_s(s: Seq<char>) -> Result<u64, EvalErrorModel> {
    if s.len() > MAX_INPUT_CHARS {
        Err(EvalErrorModel::InputTooLarge)
    } else {
        match lex_from(s, 0) {
            Err(e) => Err(e),
            Ok(toks) => match parse_tokens_s(toks) {
                Err(e) => Err(e),
                Ok(tree) => eval_expr_s(tree),
            },
        }
    }
}

/// Evaluate an arithmetic expression to the bit pattern of its double
/// value, or to a structured error.  The result is exactly `evaluate_s`
/// of the text: standard operator-precedence arithmetic over IEEE-754
/// binary64 values.
pub fn evaluate(expression: &str) -> (r: Result<u64, EvalError>)
    ensures
        r matches Ok(v) ==> evaluate_s(expression@) matches Ok(m) && m == v,
        r matches Err(e) ==> evaluate_s(expression@) matches Err(me) && me == e@,
{
    if expression.unicode_len() > MAX_INPUT_CHARS {
        return Err(EvalError::InputTooLarge);
    }
    let toks = match tokenize(expression) {
        Err(e) => {
            return Err(e);
        },
        Ok(t) => t,
    };
    let tree = match parse(&toks) {
        Err(e) => {
            return Err(e);
        },
        Ok(a) => a,
    };
    eval_expr(&tree)
}

/// Evaluation is pure: it is a function of the input text alone, so two
/// evaluations of the same text yield the same result — there is no state
/// carried from one call to the next.
pub proof fn lemma_evaluate_pure(s1: Seq<char>, s2: Seq<char>)
    requires
        s1 == s2,
    ensures
        evaluate_s(s1) == evaluate_s(s2),
{
}

} // verus!
