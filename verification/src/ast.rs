use vstd::prelude::*;

verus! {

broadcast use vstd::seq::axiom_seq_index_decreases, vstd::std_specs::vec::axiom_vec_decreases_to_view;

/// A binary operator of the expression grammar.
#[derive(Clone, Copy, Debug, PartialEq, Eq, Structural)]
pub enum BinOp {
    Add,
    Sub,
    Mul,
    Div,
    Pow,
}

/// An expression tree.  Each node is owned by exactly one parent; the root
/// is owned by the caller of the parser.  A literal carries the bit pattern
/// of the double it denotes.
#[derive(Debug)]
pub enum Expr {
    Literal { bits: u64 },
    Binary { op: BinOp, left: Box<Expr>, right: Box<Expr> },
    Negate { operand: Box<Expr> },
    Call { name: String, args: Vec<Expr> },
}

/// Mathematical model of `Expr`: names as character sequences, argument
/// lists as sequences.
pub enum ExprModel {
    Literal { bits: u64 },
    Binary { op: BinOp, left: Box<ExprModel>, right: Box<ExprModel> },
    Negate { operand: Box<ExprModel> },
    Call { name: Seq<char>, args: Seq<ExprModel> },
}

/// The model of an expression tree.
pub open spec fn expr_model(e: Expr) -> ExprModel
    decreases e, 0nat,
{
    match e {
        Expr::Literal { bits } => ExprModel::Literal { bits },
        Expr::Binary { op, left, right } => ExprModel::Binary {
            op,
            left: Box::new(expr_model(*left)),
            right: Box::new(expr_model(*right)),
        },
        Expr::Negate { operand } => ExprModel::Negate { operand: Box::new(expr_model(*operand)) },
        Expr::Call { name, args } => ExprModel::Call {
            name: name@,
            args: exprs_model_from(args@, 0),
        },
    }
}

/// The models of the expressions of `s` from index `i` on.
pub open spec fn exprs_model_from(s: Seq<Expr>, i: nat) -> Seq<ExprModel>
    decreases s, s.len() - i,
    when i <= s.len()
{
    if i >= s.len() {
        Seq::empty()
    } else {
        seq![expr_model(s[i as int])] + exprs_model_from(s, i + 1)
    }
}

/// The deep view of an expression sequence.
pub open spec fn exprs_model(s: Seq<Expr>) -> Seq<ExprModel> {
    exprs_model_from(s, 0)
}

impl View for Expr {
    type V = ExprModel;

    open spec fn view(&self) -> ExprModel {
        expr_model(*self)
    }
}

pub proof fn lemma_exprs_model_from(s: Seq<Expr>, i: nat)
    requires
        i <= s.len(),
    ensures
        exprs_model_from(s, i).len() == s.len() - i,
        forall|j: int|
            0 <= j < s.len() - i ==> exprs_model_from(s, i)[j] == expr_model(s[i + j]),
    decreases s.len() - i,
{
    if i < s.len() {
        lemma_exprs_model_from(s, i + 1);
    }
}

/// The deep view of a sequence indexes pointwise: element `j` of the model
/// is the model of element `j`.
pub proof fn lemma_exprs_model(s: Seq<Expr>)
    ensures
        exprs_model(s).len() == s.len(),
        forall|j: int| 0 <= j < s.len() ==> exprs_model(s)[j] == expr_model(s[j]),
{
    lemma_exprs_model_from(s, 0);
}

/// Appending one expression appends its model.
pub proof fn lemma_exprs_model_push(s: Seq<Expr>, e: Expr)
    ensures
        exprs_model(s.push(e)) =~= exprs_model(s) + seq![expr_model(e)],
{
    lemma_exprs_model(s);
    lemma_exprs_model(s.push(e));
}

} // verus!
