use vstd::prelude::*;
use crate::liberty_expr::{and_chain, default_and_spec, expr_spec, op_chain, ExprItemView};
use crate::liberty_expr_data::LibertyExprOp;

verus! {

/// Whether `mixed` holds the operands with the operator `op` between each two
/// of them.
pub open spec fn joined_by(operands: Seq<ExprItemView>, op: LibertyExprOp, mixed: Seq<ExprItemView>) -> bool {
    &&& operands.len() >= 1
    &&& mixed.len() == 2 * operands.len() - 1
    &&& forall|k: int| 0 <= k < operands.len() ==> mixed[2 * k] == #[trigger] operands[k]
    &&& forall|k: int| 1 <= k < operands.len() ==> #[trigger] mixed[2 * k - 1] == ExprItemView::Operator(op)
}

/// The first operands fold to the same, whether `&` stands between them or
/// nothing does.
pub proof fn lemma_chains_agree(
    operands: Seq<ExprItemView>,
    mixed: Seq<ExprItemView>,
    n: nat,
    line: nat,
    col: nat,
)
    requires
        joined_by(operands, LibertyExprOp::And, mixed),
        n < operands.len(),
    ensures
        op_chain(mixed, n, line, col) == and_chain(operands, n, line, col),
    decreases n,
{
    assert(mixed[2 * 0int] == operands[0]);
    if n > 0 {
        lemma_chains_agree(operands, mixed, (n - 1) as nat, line, col);
        assert(mixed[2 * (n as int)] == operands[n as int]);
        assert(mixed[2 * (n as int) - 1] == ExprItemView::Operator(LibertyExprOp::And));
    }
}

/// Operands with `&` between them stand for the expression that the same
/// operands stand for when they are written side by side.
pub proof fn lemma_explicit_and_is_default_and(
    operands: Seq<ExprItemView>,
    mixed: Seq<ExprItemView>,
    line: nat,
    col: nat,
)
    requires
        joined_by(operands, LibertyExprOp::And, mixed),
    ensures
        expr_spec(mixed, line, col) == default_and_spec(operands, line, col),
{
    lemma_chains_agree(operands, mixed, (operands.len() - 1) as nat, line, col);
    assert(mixed.len() / 2 == operands.len() - 1);
}

} // verus!
