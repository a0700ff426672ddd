use vstd::prelude::*;

use crate::ast::{exprs_model, lemma_exprs_model_push, BinOp, Expr, ExprModel};
use crate::errors::{EvalError, EvalErrorModel, Expected, TokenKind};
use crate::lexer::{kind_of, kind_of_model, models_of, Token, TokenModel};

verus! {

// Recursive descent over the token sequence, one level per binding strength,
// from loosest to tightest:
//
//   expression  :=  term   (('+' | '-') term)*
//   term        :=  unary  (('*' | '/') unary)*
//   unary       :=  '-' unary  |  power
//   power       :=  primary ('^' unary)?          (right-associative)
//   primary     :=  number  |  name '(' arguments ')'  |  '(' expression ')'
//   arguments   :=  nothing  |  expression (',' expression)*
//
// Unary minus binds tighter than '+' and '-' but looser than '^', so
// "-2^2" reads as -(2^2).
//
// Each parsing level has a spec twin, a total function over the token
// models; the executable functions return exactly what the twin says.  In
// the twins, a position coming back from a deeper level runs through
// `adv_pos`, which bounds it below and above so that termination is
// definitional; the executable functions show that the clamp never moves a
// real position.

/// The kind of the token at `pos`, if any: what the parser found.
pub open spec fn tok_kind_at(toks: Seq<TokenModel>, pos: nat) -> Option<TokenKind> {
    if pos < toks.len() {
        Some(kind_of_model(toks[pos as int]))
    } else {
        None
    }
}

/// `p` forced into the range `[lo, len]` (`len` winning over `lo`).
pub open spec fn adv_pos(p: nat, lo: nat, len: nat) -> nat {
    let q = if p < lo {
        lo
    } else {
        p
    };
    if q > len {
        len
    } else {
        q
    }
}

/// A primary expression at `pos`: a literal, a function call, or a
/// parenthesized expression.
pub open spec fn parse_primary_s(toks: Seq<TokenModel>, pos: nat) -> Result<
    (ExprModel, nat),
    EvalErrorModel,
>
    decreases toks.len() - pos, 0int,
    when pos <= toks.len()
{
    if pos >= toks.len() {
        Err(EvalErrorModel::ParseError { position: pos, expected: Expected::Operand, found: None })
    } else {
        match toks[pos as int] {
            TokenModel::Number { bits } => Ok((ExprModel::Literal { bits }, pos + 1)),
            TokenModel::Ident { name } => {
                if pos + 1 < toks.len() && toks[pos as int + 1] is LParen {
                    match parse_args_s(toks, pos + 2) {
                        Err(e) => Err(e),
                        Ok((args, p)) => Ok((ExprModel::Call { name, args }, p)),
                    }
                } else {
                    Err(EvalErrorModel::ParseError {
                        position: pos + 1,
                        expected: Expected::LeftParen,
                        found: tok_kind_at(toks, pos + 1),
                    })
                }
            },
            TokenModel::LParen => {
                match parse_expr_s(toks, pos + 1) {
                    Err(e) => Err(e),
                    Ok((e, p)) => {
                        if p < toks.len() && toks[p as int] is RParen {
                            Ok((e, p + 1))
                        } else {
                            Err(EvalErrorModel::ParseError {
                                position: p,
                                expected: Expected::CloseParen,
                                found: tok_kind_at(toks, p),
                            })
                        }
                    },
                }
            },
            _ => Err(EvalErrorModel::ParseError {
                position: pos,
                expected: Expected::Operand,
                found: tok_kind_at(toks, pos),
            }),
        }
    }
}

/// A power at `pos`: a primary, optionally raised to a unary expression.
pub open spec fn parse_pow_s(toks: Seq<TokenModel>, pos: nat) -> Result<
    (ExprModel, nat),
    EvalErrorModel,
>
    decreases toks.len() - pos, 1int,
    when pos <= toks.len()
{
    match parse_primary_s(toks, pos) {
        Err(e) => Err(e),
        Ok((base, p0)) => {
            let p = adv_pos(p0, pos + 1, toks.len());
            if p < toks.len() && toks[p as int] is Caret {
                match parse_unary_s(toks, p + 1) {
                    Err(e) => Err(e),
                    Ok((rhs, p2)) => Ok(
                        (
                            ExprModel::Binary {
                                op: BinOp::Pow,
                                left: Box::new(base),
                                right: Box::new(rhs),
                            },
                            p2,
                        ),
                    ),
                }
            } else {
                Ok((base, p))
            }
        },
    }
}

/// A unary expression at `pos`: any run of leading minus signs, then a
/// power.
pub open spec fn parse_unary_s(toks: Seq<TokenModel>, pos: nat) -> Result<
    (ExprModel, nat),
    EvalErrorModel,
>
    decreases toks.len() - pos, 2int,
    when pos <= toks.len()
{
    if pos < toks.len() && toks[pos as int] is Minus {
        match parse_unary_s(toks, pos + 1) {
            Err(e) => Err(e),
            Ok((e, p)) => Ok((ExprModel::Negate { operand: Box::new(e) }, p)),
        }
    } else {
        parse_pow_s(toks, pos)
    }
}

/// The rest of a term after `acc`: zero or more `* unary` or `/ unary`
/// steps, folded to the left.
pub open spec fn parse_mul_rest_s(toks: Seq<TokenModel>, acc: ExprModel, pos: nat) -> Result<
    (ExprModel, nat),
    EvalErrorModel,
>
    decreases toks.len() - pos, 3int,
    when pos <= toks.len()
{
    if pos < toks.len() && (toks[pos as int] is Star || toks[pos as int] is Slash) {
        let op = if toks[pos as int] is Star {
            BinOp::Mul
        } else {
            BinOp::Div
        };
        match parse_unary_s(toks, pos + 1) {
            Err(e) => Err(e),
            Ok((rhs, p0)) => parse_mul_rest_s(
                toks,
                ExprModel::Binary { op, left: Box::new(acc), right: Box::new(rhs) },
                adv_pos(p0, pos + 1, toks.len()),
            ),
        }
    } else {
        Ok((acc, pos))
    }
}

/// A term at `pos`: unary expressions joined by `*` and `/`,
/// left-associative.
pub open spec fn parse_mul_s(toks: Seq<TokenModel>, pos: nat) -> Result<
    (ExprModel, nat),
    EvalErrorModel,
>
    decreases toks.len() - pos, 4int,
    when pos <= toks.len()
{
    match parse_unary_s(toks, pos) {
        Err(e) => Err(e),
        Ok((e, p0)) => parse_mul_rest_s(toks, e, adv_pos(p0, pos + 1, toks.len())),
    }
}

/// The rest of an expression after `acc`: zero or more `+ term` or
/// `- term` steps, folded to the left.
pub open spec fn parse_add_rest_s(toks: Seq<TokenModel>, acc: ExprModel, pos: nat) -> Result<
    (ExprModel, nat),
    EvalErrorModel,
>
    decreases toks.len() - pos, 5int,
    when pos <= toks.len()
{
    if pos < toks.len() && (toks[pos as int] is Plus || toks[pos as int] is Minus) {
        let op = if toks[pos as int] is Plus {
            BinOp::Add
        } else {
            BinOp::Sub
        };
        match parse_mul_s(toks, pos + 1) {
            Err(e) => Err(e),
            Ok((rhs, p0)) => parse_add_rest_s(
                toks,
                ExprModel::Binary { op, left: Box::new(acc), right: Box::new(rhs) },
                adv_pos(p0, pos + 1, toks.len()),
            ),
        }
    } else {
        Ok((acc, pos))
    }
}

/// A full expression at `pos`: terms joined by `+` and `-`,
/// left-associative.
pub open spec fn parse_expr_s(toks: Seq<TokenModel>, pos: nat) -> Result<
    (ExprModel, nat),
    EvalErrorModel,
>
    decreases toks.len() - pos, 6int,
    when pos <= toks.len()
{
    match parse_mul_s(toks, pos) {
        Err(e) => Err(e),
        Ok((e, p0)) => parse_add_rest_s(toks, e, adv_pos(p0, pos + 1, toks.len())),
    }
}

/// An argument list at `pos`, right after the opening parenthesis: zero or
/// more comma-separated expressions and the closing parenthesis.
pub open spec fn parse_args_s(toks: Seq<TokenModel>, pos: nat) -> Result<
    (Seq<ExprModel>, nat),
    EvalErrorModel,
>
    decreases toks.len() - pos, 7int,
    when pos <= toks.len()
{
    if pos >= toks.len() {
        Err(EvalErrorModel::ParseError {
            position: pos,
            expected: Expected::ArgumentOrCloseParen,
            found: None,
        })
    } else if toks[pos as int] is RParen {
        Ok((Seq::empty(), pos + 1))
    } else {
        match parse_expr_s(toks, pos) {
            Err(e) => Err(e),
            Ok((e, p0)) => parse_args_rest_s(toks, seq![e], adv_pos(p0, pos + 1, toks.len())),
        }
    }
}

/// The rest of an argument list after at least one argument: `,` and a
/// further argument, or the closing parenthesis.
pub open spec fn parse_args_rest_s(toks: Seq<TokenModel>, acc: Seq<ExprModel>, pos: nat) -> Result<
    (Seq<ExprModel>, nat),
    EvalErrorModel,
>
    decreases toks.len() - pos, 8int,
    when pos <= toks.len()
{
    if pos >= toks.len() {
        Err(EvalErrorModel::ParseError {
            position: pos,
            expected: Expected::CommaOrCloseParen,
            found: None,
        })
    } else if toks[pos as int] is RParen {
        Ok((acc, pos + 1))
    } else if toks[pos as int] is Comma {
        match parse_expr_s(toks, pos + 1) {
            Err(e) => Err(e),
            Ok((e, p0)) => parse_args_rest_s(
                toks,
                acc.push(e),
                adv_pos(p0, pos + 2, toks.len()),
            ),
        }
    } else {
        Err(EvalErrorModel::ParseError {
            position: pos,
            expected: Expected::CommaOrCloseParen,
            found: tok_kind_at(toks, pos),
        })
    }
}

#[verifier::rlimit(100)]
fn parse_primary_x(toks: &Vec<Token>, pos: usize) -> (r: Result<(Expr, usize), EvalError>)
    requires
        pos <= toks@.len(),
    ensures
        r matches Ok(p) ==> parse_primary_s(models_of(toks@), pos as nat) matches Ok(m) && m.0
            == p.0@ && m.1 == p.1 as nat && pos < p.1 <= toks@.len(),
        r matches Err(e) ==> parse_primary_s(models_of(toks@), pos as nat) matches Err(me) && me
            == e@,
    decreases toks@.len() - pos, 0int,
{
    let n = toks.len();
    if pos >= n {
        return Err(EvalError::ParseError { position: pos, expected: Expected::Operand, found: None });
    }
    match &toks[pos] {
        Token::Number { bits } => Ok((Expr::Literal { bits: *bits }, pos + 1)),
        Token::Ident { name } => {
            if pos + 1 < n && matches!(&toks[pos + 1], Token::LParen) {
                match parse_args_x(toks, pos + 2) {
                    Err(e) => Err(e),
                    Ok((args, p)) => Ok((Expr::Call { name: name.clone(), args }, p)),
                }
            } else {
                let found = if pos + 1 < n {
                    Some(kind_of(&toks[pos + 1]))
                } else {
                    None
                };
                Err(EvalError::ParseError {
                    position: pos + 1,
                    expected: Expected::LeftParen,
                    found,
                })
            }
        },
        Token::LParen => {
            match parse_expr_x(toks, pos + 1) {
                Err(e) => Err(e),
                Ok((e, p)) => {
                    if p < n && matches!(&toks[p], Token::RParen) {
                        Ok((e, p + 1))
                    } else {
                        let found = if p < n {
                            Some(kind_of(&toks[p]))
                        } else {
                            None
                        };
                        Err(EvalError::ParseError {
                            position: p,
                            expected: Expected::CloseParen,
                            found,
                        })
                    }
                },
            }
        },
        _ => Err(EvalError::ParseError {
            position: pos,
            expected: Expected::Operand,
            found: Some(kind_of(&toks[pos])),
        }),
    }
}

fn parse_pow_x(toks: &Vec<Token>, pos: usize) -> (r: Result<(Expr, usize), EvalError>)
    requires
        pos <= toks@.len(),
    ensures
        r matches Ok(p) ==> parse_pow_s(models_of(toks@), pos as nat) matches Ok(m) && m.0 == p.0@
            && m.1 == p.1 as nat && pos < p.1 <= toks@.len(),
        r matches Err(e) ==> parse_pow_s(models_of(toks@), pos as nat) matches Err(me) && me == e@,
    decreases toks@.len() - pos, 1int,
{
    let n = toks.len();
    match parse_primary_x(toks, pos) {
        Err(e) => Err(e),
        Ok((base, p)) => {
            if p < n && matches!(&toks[p], Token::Caret) {
                match parse_unary_x(toks, p + 1) {
                    Err(e) => Err(e),
                    Ok((rhs, p2)) => Ok(
                        (
                            Expr::Binary {
                                op: BinOp::Pow,
                                left: Box::new(base),
                                right: Box::new(rhs),
                            },
                            p2,
                        ),
                    ),
                }
            } else {
                Ok((base, p))
            }
        },
    }
}

fn parse_unary_x(toks: &Vec<Token>, pos: usize) -> (r: Result<(Expr, usize), EvalError>)
    requires
        pos <= toks@.len(),
    ensures
        r matches Ok(p) ==> parse_unary_s(models_of(toks@), pos as nat) matches Ok(m) && m.0
            == p.0@ && m.1 == p.1 as nat && pos < p.1 <= toks@.len(),
        r matches Err(e) ==> parse_unary_s(models_of(toks@), pos as nat) matches Err(me) && me
            == e@,
    decreases toks@.len() - pos, 2int,
{
    let n = toks.len();
    if pos < n && matches!(&toks[pos], Token::Minus) {
        match parse_unary_x(toks, pos + 1) {
            Err(e) => Err(e),
            Ok((e, p)) => Ok((Expr::Negate { operand: Box::new(e) }, p)),
        }
    } else {
        parse_pow_x(toks, pos)
    }
}

fn parse_mul_rest_x(toks: &Vec<Token>, acc: Expr, pos: usize) -> (r: Result<
    (Expr, usize),
    EvalError,
>)
    requires
        pos <= toks@.len(),
    ensures
        r matches Ok(p) ==> parse_mul_rest_s(models_of(toks@), acc@, pos as nat) matches Ok(m)
            && m.0 == p.0@ && m.1 == p.1 as nat && pos <= p.1 <= toks@.len(),
        r matches Err(e) ==> parse_mul_rest_s(models_of(toks@), acc@, pos as nat) matches Err(me)
            && me == e@,
    decreases toks@.len() - pos, 3int,
{
    let n = toks.len();
    if pos < n && (matches!(&toks[pos], Token::Star) || matches!(&toks[pos], Token::Slash)) {
        let op = if matches!(&toks[pos], Token::Star) {
            BinOp::Mul
        } else {
            BinOp::Div
        };
        match parse_unary_x(toks, pos + 1) {
            Err(e) => Err(e),
            Ok((rhs, p)) => parse_mul_rest_x(
                toks,
                Expr::Binary { op, left: Box::new(acc), right: Box::new(rhs) },
                p,
            ),
        }
    } else {
        Ok((acc, pos))
    }
}

fn parse_mul_x(toks: &Vec<Token>, pos: usize) -> (r: Result<(Expr, usize), EvalError>)
    requires
        pos <= toks@.len(),
    ensures
        r matches Ok(p) ==> parse_mul_s(models_of(toks@), pos as nat) matches Ok(m) && m.0 == p.0@
            && m.1 == p.1 as nat && pos < p.1 <= toks@.len(),
        r matches Err(e) ==> parse_mul_s(models_of(toks@), pos as nat) matches Err(me) && me == e@,
    decreases toks@.len() - pos, 4int,
{
    match parse_unary_x(toks, pos) {
        Err(e) => Err(e),
        Ok((e, p)) => parse_mul_rest_x(toks, e, p),
    }
}

fn parse_add_rest_x(toks: &Vec<Token>, acc: Expr, pos: usize) -> (r: Result<
    (Expr, usize),
    EvalError,
>)
    requires
        pos <= toks@.len(),
    ensures
        r matches Ok(p) ==> parse_add_rest_s(models_of(toks@), acc@, pos as nat) matches Ok(m)
            && m.0 == p.0@ && m.1 == p.1 as nat && pos <= p.1 <= toks@.len(),
        r matches Err(e) ==> parse_add_rest_s(models_of(toks@), acc@, pos as nat) matches Err(me)
            && me == e@,
    decreases toks@.len() - pos, 5int,
{
    let n = toks.len();
    if pos < n && (matches!(&toks[pos], Token::Plus) || matches!(&toks[pos], Token::Minus)) {
        let op = if matches!(&toks[pos], Token::Plus) {
            BinOp::Add
        } else {
            BinOp::Sub
        };
        match parse_mul_x(toks, pos + 1) {
            Err(e) => Err(e),
            Ok((rhs, p)) => parse_add_rest_x(
                toks,
                Expr::Binary { op, left: Box::new(acc), right: Box::new(rhs) },
                p,
            ),
        }
    } else {
        Ok((acc, pos))
    }
}

fn parse_expr_x(toks: &Vec<Token>, pos: usize) -> (r: Result<(Expr, usize), EvalError>)
    requires
        pos <= toks@.len(),
    ensures
        r matches Ok(p) ==> parse_expr_s(models_of(toks@), pos as nat) matches Ok(m) && m.0 == p.0@
            && m.1 == p.1 as nat && pos < p.1 <= toks@.len(),
        r matches Err(e) ==> parse_expr_s(models_of(toks@), pos as nat) matches Err(me) && me
            == e@,
    decreases toks@.len() - pos, 6int,
{
    match parse_mul_x(toks, pos) {
        Err(e) => Err(e),
        Ok((e, p)) => parse_add_rest_x(toks, e, p),
    }
}

fn parse_args_x(toks: &Vec<Token>, pos: usize) -> (r: Result<(Vec<Expr>, usize), EvalError>)
    requires
        pos <= toks@.len(),
    ensures
        r matches Ok(p) ==> parse_args_s(models_of(toks@), pos as nat) matches Ok(m) && m.0
            == exprs_model(p.0@) && m.1 == p.1 as nat && pos < p.1 <= toks@.len(),
        r matches Err(e) ==> parse_args_s(models_of(toks@), pos as nat) matches Err(me) && me
            == e@,
    decreases toks@.len() - pos, 7int,
{
    let n = toks.len();
    if pos >= n {
        return Err(EvalError::ParseError {
            position: pos,
            expected: Expected::ArgumentOrCloseParen,
            found: None,
        });
    }
    if matches!(&toks[pos], Token::RParen) {
        let empty: Vec<Expr> = Vec::new();
        proof {
            assert(exprs_model(empty@) =~= Seq::<ExprModel>::empty());
        }
        Ok((empty, pos + 1))
    } else {
        match parse_expr_x(toks, pos) {
            Err(e) => Err(e),
            Ok((e, p)) => {
                let mut args: Vec<Expr> = Vec::new();
                proof {
                    let ghost e0 = e@;
                    assert(exprs_model(args@.push(e)) =~= seq![e0]) by {
                        lemma_exprs_model_push(args@, e);
                        assert(exprs_model(args@) =~= Seq::<ExprModel>::empty());
                    }
                }
                args.push(e);
                parse_args_rest_x(toks, args, p)
            },
        }
    }
}

fn parse_args_rest_x(toks: &Vec<Token>, acc: Vec<Expr>, pos: usize) -> (r: Result<
    (Vec<Expr>, usize),
    EvalError,
>)
    requires
        pos <= toks@.len(),
    ensures
        r matches Ok(p) ==> parse_args_rest_s(models_of(toks@), exprs_model(acc@), pos as nat)
            matches Ok(m) && m.0 == exprs_model(p.0@) && m.1 == p.1 as nat && pos < p.1
            <= toks@.len(),
        r matches Err(e) ==> parse_args_rest_s(models_of(toks@), exprs_model(acc@), pos as nat)
            matches Err(me) && me == e@,
    decreases toks@.len() - pos, 8int,
{
    let n = toks.len();
    if pos >= n {
        return Err(EvalError::ParseError {
            position: pos,
            expected: Expected::CommaOrCloseParen,
            found: None,
        });
    }
    if matches!(&toks[pos], Token::RParen) {
        Ok((acc, pos + 1))
    } else if matches!(&toks[pos], Token::Comma) {
        match parse_expr_x(toks, pos + 1) {
            Err(e) => Err(e),
            Ok((e, p)) => {
                let mut acc2 = acc;
                proof {
                    lemma_exprs_model_push(acc2@, e);
                    assert(exprs_model(acc2@).push(e@) =~= exprs_model(acc2@) + seq![e@]);
                }
                acc2.push(e);
                parse_args_rest_x(toks, acc2, p)
            },
        }
    } else {
        Err(EvalError::ParseError {
            position: pos,
            expected: Expected::CommaOrCloseParen,
            found: Some(kind_of(&toks[pos])),
        })
    }
}

/// Build the expression tree of a token sequence, honoring precedence and
/// associativity, or report the offending token position and what was
/// expected there.  The result is exactly `parse_tokens_s` of the token
/// models.
pub fn parse(toks: &Vec<Token>) -> (r: Result<Expr, EvalError>)
    ensures
        r matches Ok(e) ==> parse_tokens_s(models_of(toks@)) matches Ok(m) && m == e@,
        r matches Err(er) ==> parse_tokens_s(models_of(toks@)) matches Err(me) && me == er@,
{
    match parse_expr_x(toks, 0) {
        Err(e) => Err(e),
        Ok((e, p)) => {
            if p == toks.len() {
                Ok(e)
            } else {
                Err(EvalError::ParseError {
                    position: p,
                    expected: Expected::EndOfInput,
                    found: Some(kind_of(&toks[p])),
                })
            }
        },
    }
}

/// The expression tree of a whole token sequence: one expression, with no
/// token left over.
pub open spec fn parse_tokens_s(toks: Seq<TokenModel>) -> Result<ExprModel, EvalErrorModel> {
    match parse_expr_s(toks, 0) {
        Err(e) => Err(e),
        Ok((e, p)) => {
            if p == toks.len() {
                Ok(e)
            } else {
                Err(EvalErrorModel::ParseError {
                    position: p,
                    expected: Expected::EndOfInput,
                    found: tok_kind_at(toks, p),
                })
            }
        },
    }
}

} // verus!
