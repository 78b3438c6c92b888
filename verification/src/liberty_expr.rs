use std::collections::VecDeque;
use vstd::prelude::*;
use crate::error::{DataKind, ParseError, ParseErrorView, ParseOutcome, ReductionError, ReductionErrorView};
use crate::liberty_expr_data::{binary_view, ExprView, LibertyExpr, LibertyExprOp};
use crate::parse_tree::ParseNode;
use crate::reduction::{all_ok, collect, is_first_err, lemma_collect_first_err, oks};

verus! {

/// The rules of the function-expression grammar.
#[derive(Debug, Clone, Copy, PartialEq, Eq)]
pub enum Rule {
    Port,
    Zero,
    One,
    NotExpr,
    DefaultAndExpr,
    ExprOp,
    Expr,
    ExprResult,
}

/// The name of a rule, as the grammar writes it.
pub open spec fn rule_name(rule: Rule) -> Seq<char> {
    match rule {
        Rule::Port => "port"@,
        Rule::Zero => "zero"@,
        Rule::One => "one"@,
        Rule::NotExpr => "not_expr"@,
        Rule::DefaultAndExpr => "default_and_expr"@,
        Rule::ExprOp => "expr_op"@,
        Rule::Expr => "expr"@,
        Rule::ExprResult => "expr_result"@,
    }
}

impl Rule {
    /// The name of the rule, as the grammar writes it.
    pub fn name(&self) -> (r: &'static str)
        ensures
            r@ == rule_name(*self),
    {
        match self {
            Rule::Port => "port",
            Rule::Zero => "zero",
            Rule::One => "one",
            Rule::NotExpr => "not_expr",
            Rule::DefaultAndExpr => "default_and_expr",
            Rule::ExprOp => "expr_op",
            Rule::Expr => "expr",
            Rule::ExprResult => "expr_result",
        }
    }
}

/// Mathematical value of a reduced node of an expression.
pub enum ExprItemView {
    Operand(ExprView),
    Operator(LibertyExprOp),
}

/// What the reduction of one node of an expression yields: an operand, which
/// is a whole expression, or an operator that still waits for its operands.
#[derive(Debug, PartialEq, Eq)]
pub enum ExprItem {
    Operand(LibertyExpr),
    Operator(LibertyExprOp),
}

impl View for ExprItem {
    type V = ExprItemView;

    open spec fn view(&self) -> ExprItemView {
        match self {
            ExprItem::Operand(e) => ExprItemView::Operand(e@),
            ExprItem::Operator(op) => ExprItemView::Operator(*op),
        }
    }
}

/// The outcome of a reduction, as a mathematical value.
pub type Reduced = Result<ExprItemView, ReductionErrorView>;

/// The views of a buffer of reduced values, in order.
pub open spec fn item_views(items: Seq<ExprItem>) -> Seq<ExprItemView> {
    Seq::new(items.len(), |i: int| items[i]@)
}

/// The view of the outcome of a reduction.
pub open spec fn result_view(r: Result<ExprItem, ReductionError>) -> Reduced {
    match r {
        Ok(d) => Ok(d@),
        Err(e) => Err(e@),
    }
}

/// The kind of a reduced value.
pub open spec fn kind_of(d: ExprItemView) -> DataKind {
    match d {
        ExprItemView::Operand(_) => DataKind::Operand,
        ExprItemView::Operator(_) => DataKind::Operator,
    }
}

/// The kind of the item at place `i` of a buffer, `Nothing` past its end.
pub open spec fn kind_at(items: Seq<ExprItemView>, i: int) -> DataKind {
    if 0 <= i < items.len() {
        kind_of(items[i])
    } else {
        DataKind::Nothing
    }
}

/// The failure of a builder that expected one kind and found another.
pub open spec fn mismatch<T>(expected: DataKind, found: DataKind, line: nat, col: nat) -> Result<
    T,
    ReductionErrorView,
> {
    Err(ReductionErrorView::TypeMismatch { expected, found, line, col })
}

/// The operand at place `i` of a buffer.
pub open spec fn operand_at(items: Seq<ExprItemView>, i: int, line: nat, col: nat) -> Result<
    ExprView,
    ReductionErrorView,
> {
    if 0 <= i < items.len() && items[i] is Operand {
        Ok(items[i]->Operand_0)
    } else {
        mismatch(DataKind::Operand, kind_at(items, i), line, col)
    }
}

/// The operator that a symbol stands for. No symbol is read as another.
pub open spec fn op_of_symbol(symbol: Seq<char>) -> Option<LibertyExprOp> {
    if symbol == "+"@ {
        Some(LibertyExprOp::Plus)
    } else if symbol == "|"@ {
        Some(LibertyExprOp::Or)
    } else if symbol == "*"@ {
        Some(LibertyExprOp::Mult)
    } else if symbol == "&"@ {
        Some(LibertyExprOp::And)
    } else if symbol == "^"@ {
        Some(LibertyExprOp::Xor)
    } else {
        None
    }
}

/// An operator token.
pub open spec fn expr_op_spec(text: Seq<char>, line: nat, col: nat) -> Reduced {
    match op_of_symbol(text) {
        Some(op) => Ok(ExprItemView::Operator(op)),
        None => Err(ReductionErrorView::UnknownOperator { symbol: text, line, col }),
    }
}

/// A negation: `Not` over the one operand.
pub open spec fn not_spec(items: Seq<ExprItemView>, line: nat, col: nat) -> Reduced {
    match operand_at(items, 0, line, col) {
        Ok(child) => Ok(ExprItemView::Operand(ExprView::Not(Box::new(child)))),
        Err(e) => Err(e),
    }
}

/// The first `n + 1` operands joined by `And`, leaning left:
/// `And(And(x0, x1), x2)` and so on. One operand stands for itself.
pub open spec fn and_chain(items: Seq<ExprItemView>, n: nat, line: nat, col: nat) -> Result<
    ExprView,
    ReductionErrorView,
>
    decreases n,
{
    if n == 0 {
        operand_at(items, 0, line, col)
    } else {
        match and_chain(items, (n - 1) as nat, line, col) {
            Err(e) => Err(e),
            Ok(left) => match operand_at(items, n as int, line, col) {
                Err(e) => Err(e),
                Ok(right) => Ok(binary_view(LibertyExprOp::And, left, right)),
            },
        }
    }
}

/// Operands written side by side: all of them joined by `And`, leaning left.
pub open spec fn default_and_spec(items: Seq<ExprItemView>, line: nat, col: nat) -> Reduced {
    let last = if items.len() == 0 {
        0
    } else {
        (items.len() - 1) as nat
    };
    match and_chain(items, last, line, col) {
        Ok(e) => Ok(ExprItemView::Operand(e)),
        Err(e) => Err(e),
    }
}

/// The first operand and the `n` pairs of operator and operand behind it,
/// folded left to right: each operator takes what stands before it as its left
/// operand and the next operand as its right one.
pub open spec fn op_chain(items: Seq<ExprItemView>, n: nat, line: nat, col: nat) -> Result<
    ExprView,
    ReductionErrorView,
>
    decreases n,
{
    if n == 0 {
        operand_at(items, 0, line, col)
    } else {
        match op_chain(items, (n - 1) as nat, line, col) {
            Err(e) => Err(e),
            Ok(left) => if !(2 * n - 1 < items.len() && items[2 * n - 1] is Operator) {
                mismatch(DataKind::Operator, kind_at(items, 2 * n - 1), line, col)
            } else {
                match operand_at(items, (2 * n) as int, line, col) {
                    Err(e) => Err(e),
                    Ok(right) => Ok(binary_view(items[2 * n - 1]->Operator_0, left, right)),
                }
            },
        }
    }
}

/// Operands with operators between them, folded strictly left to right.
pub open spec fn expr_spec(items: Seq<ExprItemView>, line: nat, col: nat) -> Reduced {
    match op_chain(items, items.len() / 2, line, col) {
        Ok(e) => Ok(ExprItemView::Operand(e)),
        Err(e) => Err(e),
    }
}

/// What the builder of `rule` makes of a node's text and of its reduced
/// children.
pub open spec fn build_spec(rule: Rule, text: Seq<char>, line: nat, col: nat, items: Seq<ExprItemView>) -> Reduced {
    match rule {
        Rule::Port => Ok(ExprItemView::Operand(ExprView::Buffer(text))),
        Rule::Zero => Ok(ExprItemView::Operand(ExprView::Zero)),
        Rule::One => Ok(ExprItemView::Operand(ExprView::One)),
        Rule::NotExpr => not_spec(items, line, col),
        Rule::DefaultAndExpr => default_and_spec(items, line, col),
        Rule::ExprOp => expr_op_spec(text, line, col),
        Rule::Expr => expr_spec(items, line, col),
        Rule::ExprResult => Err(ReductionErrorView::UnknownRule { rule_name: rule_name(rule), line, col }),
    }
}

/// The reductions of a node's children, left to right.
pub open spec fn children_spec(node: ParseNode<Rule>) -> Seq<Reduced>
    decreases node, 0int,
{
    Seq::new(
        node.children@.len(),
        |i: int|
            if 0 <= i < node.children@.len() {
                reduce_spec(node.children@[i])
            } else {
                arbitrary()
            },
    )
}

/// The reduction of a parse tree: the first failure among the children's
/// reductions if there is one, else what the node's builder makes of their
/// values.
pub open spec fn reduce_spec(node: ParseNode<Rule>) -> Reduced
    decreases node, 1int,
{
    match collect(children_spec(node)) {
        Ok(items) => build_spec(node.rule, node.text@, node.line as nat, node.col as nat, items),
        Err(e) => Err(e),
    }
}

/// The kind of what a buffer's front gave.
fn kind_of_front(front: &Option<ExprItem>) -> (k: DataKind)
    ensures
        k == match front {
            Some(d) => kind_of(d@),
            None => DataKind::Nothing,
        },
{
    match front {
        Some(ExprItem::Operand(_)) => DataKind::Operand,
        Some(ExprItem::Operator(_)) => DataKind::Operator,
        None => DataKind::Nothing,
    }
}

/// Whether a text is the given symbol.
fn text_is(text: &String, symbol: &str) -> (r: bool)
    ensures
        r == (text@ == symbol@),
{
    let s = symbol.to_owned();
    text.eq(&s)
}

/// Builds the leaf of a port name.
pub fn process_port(pair: &ParseNode<Rule>) -> (r: Result<ExprItem, ReductionError>)
    ensures
        result_view(r) == Ok::<ExprItemView, ReductionErrorView>(
            ExprItemView::Operand(ExprView::Buffer(pair.text@)),
        ),
{
    Ok(ExprItem::Operand(LibertyExpr::Buffer(pair.text.clone())))
}

/// Builds the constant zero.
pub fn process_zero(pair: &ParseNode<Rule>) -> (r: Result<ExprItem, ReductionError>)
    ensures
        result_view(r) == Ok::<ExprItemView, ReductionErrorView>(ExprItemView::Operand(ExprView::Zero)),
{
    Ok(ExprItem::Operand(LibertyExpr::Zero))
}

/// Builds the constant one.
pub fn process_one(pair: &ParseNode<Rule>) -> (r: Result<ExprItem, ReductionError>)
    ensures
        result_view(r) == Ok::<ExprItemView, ReductionErrorView>(ExprItemView::Operand(ExprView::One)),
{
    Ok(ExprItem::Operand(LibertyExpr::One))
}

/// Builds a negation from its operand.
pub fn process_not(pair: &ParseNode<Rule>, substitute_queue: VecDeque<ExprItem>) -> (r: Result<
    ExprItem,
    ReductionError,
>)
    ensures
        result_view(r) == not_spec(item_views(substitute_queue@), pair.line as nat, pair.col as nat),
{
    let mut queue = substitute_queue;
    let front = queue.pop_front();
    match front {
        Some(ExprItem::Operand(child)) => Ok(ExprItem::Operand(LibertyExpr::not(child))),
        other => Err(
            ReductionError::TypeMismatch {
                expected: DataKind::Operand,
                found: kind_of_front(&other),
                line: pair.line,
                col: pair.col,
            },
        ),
    }
}

/// Builds the operator that a token's symbol stands for.
pub fn process_expr_op(pair: &ParseNode<Rule>) -> (r: Result<ExprItem, ReductionError>)
    ensures
        result_view(r) == expr_op_spec(pair.text@, pair.line as nat, pair.col as nat),
{
    if text_is(&pair.text, "+") {
        Ok(ExprItem::Operator(LibertyExprOp::Plus))
    } else if text_is(&pair.text, "|") {
        Ok(ExprItem::Operator(LibertyExprOp::Or))
    } else if text_is(&pair.text, "*") {
        Ok(ExprItem::Operator(LibertyExprOp::Mult))
    } else if text_is(&pair.text, "&") {
        Ok(ExprItem::Operator(LibertyExprOp::And))
    } else if text_is(&pair.text, "^") {
        Ok(ExprItem::Operator(LibertyExprOp::Xor))
    } else {
        Err(ReductionError::UnknownOperator { symbol: pair.text.clone(), line: pair.line, col: pair.col })
    }
}

/// Builds the conjunction of operands that stand side by side.
pub fn process_default_and_expr(pair: &ParseNode<Rule>, substitute_queue: VecDeque<ExprItem>) -> (r: Result<
    ExprItem,
    ReductionError,
>)
    ensures
        result_view(r) == default_and_spec(item_views(substitute_queue@), pair.line as nat, pair.col as nat),
{
    let ghost items = item_views(substitute_queue@);
    let ghost line = pair.line as nat;
    let ghost col = pair.col as nat;
    let mut queue = substitute_queue;
    let front = queue.pop_front();
    let mut left = match front {
        Some(ExprItem::Operand(e)) => e,
        other => {
            proof {
                assert(and_chain(items, 0, line, col) is Err);
                if items.len() > 0 {
                    lemma_and_chain_err(items, 0, (items.len() - 1) as nat, line, col);
                }
            }
            return Err(
                ReductionError::TypeMismatch {
                    expected: DataKind::Operand,
                    found: kind_of_front(&other),
                    line: pair.line,
                    col: pair.col,
                },
            );
        },
    };
    let ghost mut n: int = 0;
    assert(item_views(queue@) =~= items.skip(1));
    while queue.len() > 0
        invariant
            items == item_views(substitute_queue@),
            line == pair.line as nat,
            col == pair.col as nat,
            0 <= n,
            n + 1 <= items.len(),
            item_views(queue@) == items.skip(n + 1),
            and_chain(items, n as nat, line, col) == Ok::<ExprView, ReductionErrorView>(left@),
        decreases queue@.len(),
    {
        let ghost before = queue@;
        let item = queue.pop_front();
        proof {
            assert(item_views(before).len() == before.len());
            assert(items.skip(n + 1).len() == items.len() - (n + 1));
            assert(item_views(before)[0] == items.skip(n + 1)[0]);
            assert forall|k: int| 0 <= k < queue@.len() implies item_views(queue@)[k] == items.skip(n + 2)[k] by {
                assert(item_views(before)[k + 1] == items.skip(n + 1)[k + 1]);
            }
            assert(item_views(queue@) =~= items.skip(n + 2));
            assert(item == Some(before[0]));
            assert(before[0]@ == items[n + 1]);
        }
        match item {
            Some(ExprItem::Operand(right)) => {
                left = LibertyExpr::binary(LibertyExprOp::And, left, right);
                proof {
                    n = n + 1;
                }
            },
            other => {
                proof {
                    assert(and_chain(items, (n + 1) as nat, line, col) == mismatch::<ExprView>(
                        DataKind::Operand,
                        DataKind::Operator,
                        line,
                        col,
                    ));
                    lemma_and_chain_err(items, (n + 1) as nat, (items.len() - 1) as nat, line, col);
                }
                return Err(
                    ReductionError::TypeMismatch {
                        expected: DataKind::Operand,
                        found: kind_of_front(&other),
                        line: pair.line,
                        col: pair.col,
                    },
                );
            },
        }
    }
    proof {
        assert(items.skip(n + 1).len() == 0);
    }
    Ok(ExprItem::Operand(left))
}

/// A failure of a chain of `And` stays when more operands follow.
pub proof fn lemma_and_chain_err(items: Seq<ExprItemView>, n: nat, m: nat, line: nat, col: nat)
    requires
        n <= m,
        and_chain(items, n, line, col) is Err,
    ensures
        and_chain(items, m, line, col) == and_chain(items, n, line, col),
    decreases m,
{
    if n < m {
        lemma_and_chain_err(items, n, (m - 1) as nat, line, col);
    }
}

/// A failure of a chain of operators stays when more of them follow.
pub proof fn lemma_op_chain_err(items: Seq<ExprItemView>, n: nat, m: nat, line: nat, col: nat)
    requires
        n <= m,
        op_chain(items, n, line, col) is Err,
    ensures
        op_chain(items, m, line, col) == op_chain(items, n, line, col),
    decreases m,
{
    if n < m {
        lemma_op_chain_err(items, n, (m - 1) as nat, line, col);
    }
}

/// Builds an expression from operands with operators between them.
pub fn process_expr(pair: &ParseNode<Rule>, substitute_queue: VecDeque<ExprItem>) -> (r: Result<
    ExprItem,
    ReductionError,
>)
    ensures
        result_view(r) == expr_spec(item_views(substitute_queue@), pair.line as nat, pair.col as nat),
{
    let ghost items = item_views(substitute_queue@);
    let ghost line = pair.line as nat;
    let ghost col = pair.col as nat;
    let mut queue = substitute_queue;
    let front = queue.pop_front();
    let mut left = match front {
        Some(ExprItem::Operand(e)) => e,
        other => {
            proof {
                assert(op_chain(items, 0, line, col) is Err);
                lemma_op_chain_err(items, 0, items.len() / 2, line, col);
            }
            return Err(
                ReductionError::TypeMismatch {
                    expected: DataKind::Operand,
                    found: kind_of_front(&other),
                    line: pair.line,
                    col: pair.col,
                },
            );
        },
    };
    let ghost mut n: int = 0;
    assert(item_views(queue@) =~= items.skip(1));
    while queue.len() > 0
        invariant
            items == item_views(substitute_queue@),
            line == pair.line as nat,
            col == pair.col as nat,
            0 <= n,
            2 * n + 1 <= items.len(),
            item_views(queue@) == items.skip(2 * n + 1),
            op_chain(items, n as nat, line, col) == Ok::<ExprView, ReductionErrorView>(left@),
        decreases queue@.len(),
    {
        let ghost before = queue@;
        let first = queue.pop_front();
        let ghost between = queue@;
        let second = queue.pop_front();
        proof {
            assert(item_views(before).len() == before.len());
            assert(items.skip(2 * n + 1).len() == items.len() - (2 * n + 1));
            assert(item_views(before)[0] == items.skip(2 * n + 1)[0]);
            assert(first == Some(before[0]));
            assert(before[0]@ == items[2 * n + 1]);
            if between.len() > 0 {
                assert(item_views(before)[1] == items.skip(2 * n + 1)[1]);
                assert(second == Some(between[0]));
                assert(between[0]@ == items[2 * n + 2]);
                assert forall|k: int| 0 <= k < queue@.len() implies item_views(queue@)[k] == items.skip(
                    2 * n + 3,
                )[k] by {
                    assert(item_views(before)[k + 2] == items.skip(2 * n + 1)[k + 2]);
                }
                assert(item_views(queue@) =~= items.skip(2 * n + 3));
            } else {
                assert(second is None);
                assert(items.len() == 2 * n + 2);
            }
        }
        match first {
            Some(ExprItem::Operator(op)) => {
                match second {
                    Some(ExprItem::Operand(right)) => {
                        left = LibertyExpr::binary(op, left, right);
                        proof {
                            n = n + 1;
                        }
                    },
                    other => {
                        proof {
                            assert(op_chain(items, (n + 1) as nat, line, col) is Err);
                            lemma_op_chain_err(items, (n + 1) as nat, items.len() / 2, line, col);
                        }
                        return Err(
                            ReductionError::TypeMismatch {
                                expected: DataKind::Operand,
                                found: kind_of_front(&other),
                                line: pair.line,
                                col: pair.col,
                            },
                        );
                    },
                }
            },
            other => {
                proof {
                    assert(op_chain(items, (n + 1) as nat, line, col) is Err);
                    lemma_op_chain_err(items, (n + 1) as nat, items.len() / 2, line, col);
                }
                return Err(
                    ReductionError::TypeMismatch {
                        expected: DataKind::Operator,
                        found: kind_of_front(&other),
                        line: pair.line,
                        col: pair.col,
                    },
                );
            },
        }
    }
    proof {
        assert(items.skip(2 * n + 1).len() == 0);
        assert(items.len() / 2 == n);
    }
    Ok(ExprItem::Operand(left))
}

/// Reduces a parse tree and puts the value it stands for at the back of the
/// shared work list: after a success the list is what it was before, with
/// exactly that one value behind it. After a failure the list is unchanged.
pub fn reduce_onto(pair: &ParseNode<Rule>, parser_queue: &mut VecDeque<ExprItem>) -> (r: Result<(), ReductionError>)
    ensures
        match r {
            Ok(_) => {
                &&& final(parser_queue)@.len() == old(parser_queue)@.len() + 1
                &&& final(parser_queue)@.drop_last() == old(parser_queue)@
                &&& reduce_spec(*pair) == Ok::<ExprItemView, ReductionErrorView>(final(parser_queue)@.last()@)
            },
            Err(e) => {
                &&& final(parser_queue)@ == old(parser_queue)@
                &&& reduce_spec(*pair) == Err::<ExprItemView, ReductionErrorView>(e@)
            },
        },
    decreases pair, 1int,
{
    let ghost before = parser_queue@;
    match process_pair(pair, parser_queue) {
        Ok(value) => {
            parser_queue.push_back(value);
            assert(parser_queue@.drop_last() =~= before);
            Ok(())
        },
        Err(e) => Err(e),
    }
}

/// Reduces the parse tree of a function expression.
///
/// The children are reduced left to right, each result going to the back of
/// the shared work list; the node then takes exactly those results off the
/// list again, in their order, and hands them to the builder of its rule. The
/// work list is therefore the same after the call as before it, and the one
/// value that the node stands for is returned for the caller to add. The first
/// failure ends the reduction.
pub fn process_pair(pair: &ParseNode<Rule>, parser_queue: &mut VecDeque<ExprItem>) -> (r: Result<
    ExprItem,
    ReductionError,
>)
    ensures
        result_view(r) == reduce_spec(*pair),
        final(parser_queue)@ == old(parser_queue)@,
    decreases pair, 0int,
{
    let ghost before = parser_queue@;
    let ghost kids = children_spec(*pair);
    let current_queue_len = parser_queue.len();
    let mut i: usize = 0;
    while i < pair.children.len()
        invariant
            i <= pair.children@.len(),
            before == old(parser_queue)@,
            current_queue_len == before.len(),
            kids == children_spec(*pair),
            parser_queue@.len() == before.len() + i,
            parser_queue@.take(before.len() as int) == before,
            forall|j: int| 0 <= j < i ==> (#[trigger] kids[j]) == Ok::<ExprItemView, ReductionErrorView>(
                parser_queue@[before.len() + j]@,
            ),
        decreases pair.children@.len() - i,
    {
        let ghost so_far = parser_queue@;
        match reduce_onto(&pair.children[i], parser_queue) {
            Ok(()) => {
                assert(parser_queue@.drop_last() == so_far);
                assert(parser_queue@.take(before.len() as int) =~= so_far.take(before.len() as int));
                assert(parser_queue@[before.len() + i]@ == reduce_spec(pair.children@[i as int])->Ok_0);
            },
            Err(e) => {
                assert(kids[i as int] == reduce_spec(pair.children@[i as int]));
                parser_queue.truncate(current_queue_len);
                proof {
                    assert(parser_queue@ =~= before);
                    assert(is_first_err(kids, i as int));
                    lemma_collect_first_err(kids, i as int);
                }
                return Err(e);
            },
        }
        i += 1;
    }
    let ghost full = parser_queue@;
    let mut substitute_queue: VecDeque<ExprItem> = VecDeque::new();
    while parser_queue.len() > current_queue_len
        invariant
            current_queue_len == before.len(),
            before.len() <= parser_queue@.len() <= full.len(),
            parser_queue@ + substitute_queue@ == full,
        decreases parser_queue@.len(),
    {
        let ghost rest = parser_queue@;
        let ghost taken = substitute_queue@;
        match parser_queue.pop_back() {
            Some(item) => {
                substitute_queue.push_front(item);
                assert(parser_queue@ + substitute_queue@ =~= rest + taken);
            },
            None => {},
        }
    }
    proof {
        assert(parser_queue@ =~= full.take(before.len() as int));
        assert(substitute_queue@ =~= full.skip(before.len() as int));
        assert(all_ok(kids));
        assert(item_views(substitute_queue@) =~= oks(kids));
    }
    match pair.rule {
        Rule::Port => process_port(pair),
        Rule::Zero => process_zero(pair),
        Rule::One => process_one(pair),
        Rule::NotExpr => process_not(pair, substitute_queue),
        Rule::DefaultAndExpr => process_default_and_expr(pair, substitute_queue),
        Rule::ExprOp => process_expr_op(pair),
        Rule::Expr => process_expr(pair, substitute_queue),
        Rule::ExprResult => Err(
            ReductionError::UnknownRule {
                rule_name: pair.rule.name().to_owned(),
                line: pair.line,
                col: pair.col,
            },
        ),
    }
}

/// The reducer of function expressions: it turns the parse tree of a cell's
/// function string into an expression.
pub struct LibertyExprParser;

/// The failure of a tree that reduces to a lone operator.
pub open spec fn lone_operator(node: ParseNode<Rule>) -> ReductionErrorView {
    ReductionErrorView::TypeMismatch {
        expected: DataKind::Operand,
        found: DataKind::Operator,
        line: node.line as nat,
        col: node.col as nat,
    }
}

/// The expression that the outcome of the grammar engine stands for.
pub open spec fn expression_spec(outcome: ParseOutcome<Rule>) -> Result<ExprView, ParseErrorView> {
    match outcome {
        ParseOutcome::NoContent => Err(ParseErrorView::IoError),
        ParseOutcome::SyntaxError(e) => Err(ParseErrorView::GrammarSyntaxError(e@)),
        ParseOutcome::Tree(root) => match reduce_spec(root) {
            Ok(ExprItemView::Operand(e)) => Ok(e),
            Ok(ExprItemView::Operator(_)) => Err(ParseErrorView::Reduction(lone_operator(root))),
            Err(e) => Err(ParseErrorView::Reduction(e)),
        },
    }
}

impl LibertyExprParser {
    /// Builds the expression of a function string from what the grammar
    /// engine made of it. A syntax error of the engine is handed on as it is.
    pub fn build(outcome: &ParseOutcome<Rule>) -> (r: Result<LibertyExpr, ParseError>)
        ensures
            match r {
                Ok(e) => expression_spec(*outcome) == Ok::<ExprView, ParseErrorView>(e@),
                Err(e) => expression_spec(*outcome) == Err::<ExprView, ParseErrorView>(e@),
            },
    {
        match outcome {
            ParseOutcome::NoContent => Err(ParseError::IoError),
            ParseOutcome::SyntaxError(e) => Err(ParseError::GrammarSyntaxError(e.copy())),
            ParseOutcome::Tree(root) => match Self::reduce(root) {
                Ok(e) => Ok(e),
                Err(e) => Err(ParseError::Reduction(e)),
            },
        }
    }

    /// Reduces a parse tree to the expression it stands for. A tree that
    /// stands for a lone operator is no expression.
    pub fn reduce(root: &ParseNode<Rule>) -> (r: Result<LibertyExpr, ReductionError>)
        ensures
            match reduce_spec(*root) {
                Ok(ExprItemView::Operand(e)) => r is Ok && r->Ok_0@ == e,
                Ok(ExprItemView::Operator(_)) => r is Err && r->Err_0@ == lone_operator(*root),
                Err(e) => r is Err && r->Err_0@ == e,
            },
    {
        let mut parser_queue: VecDeque<ExprItem> = VecDeque::new();
        match process_pair(root, &mut parser_queue) {
            Ok(ExprItem::Operand(e)) => Ok(e),
            Ok(ExprItem::Operator(_)) => Err(
                ReductionError::TypeMismatch {
                    expected: DataKind::Operand,
                    found: DataKind::Operator,
                    line: root.line,
                    col: root.col,
                },
            ),
            Err(e) => Err(e),
        }
    }
}

} // verus!
