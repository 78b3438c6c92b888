use vstd::prelude::*;

verus! {

/// The binary operators of a function expression. `Plus` and `Or` are kept
/// apart, and so are `Mult` and `And`: the symbol that was written decides.
#[derive(Debug, Clone, Copy, PartialEq, Eq, Structural)]
pub enum LibertyExprOp {
    And,
    Or,
    Xor,
    Plus,
    Mult,
}

/// Mathematical value of a function expression.
pub enum ExprView {
    Buffer(Seq<char>),
    Zero,
    One,
    Not(Box<ExprView>),
    And(Box<ExprView>, Box<ExprView>),
    Or(Box<ExprView>, Box<ExprView>),
    Xor(Box<ExprView>, Box<ExprView>),
    Plus(Box<ExprView>, Box<ExprView>),
    Mult(Box<ExprView>, Box<ExprView>),
}

/// A Boolean function expression over port names. Every binary node has both
/// of its operands.
#[derive(Debug, PartialEq, Eq)]
pub enum LibertyExpr {
    Buffer(String),
    Zero,
    One,
    Not(Box<LibertyExpr>),
    And(Box<LibertyExpr>, Box<LibertyExpr>),
    Or(Box<LibertyExpr>, Box<LibertyExpr>),
    Xor(Box<LibertyExpr>, Box<LibertyExpr>),
    Plus(Box<LibertyExpr>, Box<LibertyExpr>),
    Mult(Box<LibertyExpr>, Box<LibertyExpr>),
}

/// The mathematical value of an expression.
pub open spec fn expr_view(e: LibertyExpr) -> ExprView
    decreases e,
{
    match e {
        LibertyExpr::Buffer(name) => ExprView::Buffer(name@),
        LibertyExpr::Zero => ExprView::Zero,
        LibertyExpr::One => ExprView::One,
        LibertyExpr::Not(c) => ExprView::Not(Box::new(expr_view(*c))),
        LibertyExpr::And(l, r) => ExprView::And(Box::new(expr_view(*l)), Box::new(expr_view(*r))),
        LibertyExpr::Or(l, r) => ExprView::Or(Box::new(expr_view(*l)), Box::new(expr_view(*r))),
        LibertyExpr::Xor(l, r) => ExprView::Xor(Box::new(expr_view(*l)), Box::new(expr_view(*r))),
        LibertyExpr::Plus(l, r) => ExprView::Plus(Box::new(expr_view(*l)), Box::new(expr_view(*r))),
        LibertyExpr::Mult(l, r) => ExprView::Mult(Box::new(expr_view(*l)), Box::new(expr_view(*r))),
    }
}

impl View for LibertyExpr {
    type V = ExprView;

    open spec fn view(&self) -> ExprView {
        expr_view(*self)
    }
}

/// The binary node of an operator over two operands.
pub open spec fn binary_view(op: LibertyExprOp, left: ExprView, right: ExprView) -> ExprView {
    match op {
        LibertyExprOp::And => ExprView::And(Box::new(left), Box::new(right)),
        LibertyExprOp::Or => ExprView::Or(Box::new(left), Box::new(right)),
        LibertyExprOp::Xor => ExprView::Xor(Box::new(left), Box::new(right)),
        LibertyExprOp::Plus => ExprView::Plus(Box::new(left), Box::new(right)),
        LibertyExprOp::Mult => ExprView::Mult(Box::new(left), Box::new(right)),
    }
}

impl LibertyExpr {
    /// The binary node of an operator over two operands.
    pub fn binary(op: LibertyExprOp, left: LibertyExpr, right: LibertyExpr) -> (e: LibertyExpr)
        ensures
            e@ == binary_view(op, left@, right@),
    {
        match op {
            LibertyExprOp::And => LibertyExpr::And(Box::new(left), Box::new(right)),
            LibertyExprOp::Or => LibertyExpr::Or(Box::new(left), Box::new(right)),
            LibertyExprOp::Xor => LibertyExpr::Xor(Box::new(left), Box::new(right)),
            LibertyExprOp::Plus => LibertyExpr::Plus(Box::new(left), Box::new(right)),
            LibertyExprOp::Mult => LibertyExpr::Mult(Box::new(left), Box::new(right)),
        }
    }

    /// The negation of an expression.
    pub fn not(child: LibertyExpr) -> (e: LibertyExpr)
        ensures
            e@ == ExprView::Not(Box::new(child@)),
    {
        LibertyExpr::Not(Box::new(child))
    }
}

} // verus!
