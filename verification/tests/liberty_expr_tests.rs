use eda_parsers::error::{DataKind, ReductionError};
use eda_parsers::liberty_expr::{
    process_default_and_expr, process_expr, process_expr_op, process_not, process_pair, process_port,
    reduce_onto, ExprItem, LibertyExprParser, Rule,
};
use eda_parsers::liberty_expr_data::{LibertyExpr, LibertyExprOp};
use eda_parsers::parse_tree::ParseNode;
use std::collections::VecDeque;

fn port(name: &str) -> ParseNode<Rule> {
    ParseNode::leaf(Rule::Port, name, 1, 1)
}

fn op(symbol: &str) -> ParseNode<Rule> {
    ParseNode::leaf(Rule::ExprOp, symbol, 1, 1)
}

fn not(child: ParseNode<Rule>) -> ParseNode<Rule> {
    ParseNode::branch(Rule::NotExpr, "!", 1, 1, vec![child])
}

fn expr(text: &str, children: Vec<ParseNode<Rule>>) -> ParseNode<Rule> {
    ParseNode::branch(Rule::Expr, text, 1, 1, children)
}

fn juxtaposed(text: &str, children: Vec<ParseNode<Rule>>) -> ParseNode<Rule> {
    ParseNode::branch(Rule::DefaultAndExpr, text, 1, 1, children)
}

fn buffer(name: &str) -> LibertyExpr {
    LibertyExpr::Buffer(name.to_string())
}

fn and(l: LibertyExpr, r: LibertyExpr) -> LibertyExpr {
    LibertyExpr::And(Box::new(l), Box::new(r))
}

#[test]
fn test_parse_expr_path() {
    let expr_str = "A1 & !A2 & B1 & !B2 & !C1 & C2;";
    let tree = expr(
        expr_str,
        vec![
            port("A1"),
            op("&"),
            not(port("A2")),
            op("&"),
            port("B1"),
            op("&"),
            not(port("B2")),
            op("&"),
            not(port("C1")),
            op("&"),
            port("C2"),
        ],
    );
    let parse_result = LibertyExprParser::reduce(&tree);
    assert!(parse_result.is_ok());
    let n = |name: &str| LibertyExpr::Not(Box::new(buffer(name)));
    let expected = and(and(and(and(and(buffer("A1"), n("A2")), buffer("B1")), n("B2")), n("C1")), buffer("C2"));
    assert_eq!(parse_result, Ok(expected));
}

#[test]
fn single_port_is_a_buffer() {
    let tree = expr("A", vec![port("A")]);
    assert_eq!(LibertyExprParser::reduce(&tree), Ok(buffer("A")));
    assert_eq!(LibertyExprParser::reduce(&port("A")), Ok(buffer("A")));
}

#[test]
fn negation_wraps_its_operand() {
    let tree = expr("!A", vec![not(port("A"))]);
    assert_eq!(LibertyExprParser::reduce(&tree), Ok(LibertyExpr::Not(Box::new(buffer("A")))));
}

#[test]
fn juxtaposition_is_and() {
    let tree = expr("A B", vec![juxtaposed("A B", vec![port("A"), port("B")])]);
    assert_eq!(LibertyExprParser::reduce(&tree), Ok(and(buffer("A"), buffer("B"))));
}

#[test]
fn juxtaposition_leans_left() {
    let tree = juxtaposed("A B C", vec![port("A"), port("B"), port("C")]);
    assert_eq!(LibertyExprParser::reduce(&tree), Ok(and(and(buffer("A"), buffer("B")), buffer("C"))));
}

#[test]
fn explicit_and_equals_juxtaposition() {
    let explicit = expr("A & B", vec![port("A"), op("&"), port("B")]);
    let implicit = expr("A B", vec![juxtaposed("A B", vec![port("A"), port("B")])]);
    assert_eq!(LibertyExprParser::reduce(&explicit), LibertyExprParser::reduce(&implicit));
}

#[test]
fn or_and_plus_stay_distinct() {
    let or = expr("A | B", vec![port("A"), op("|"), port("B")]);
    let plus = expr("A+B", vec![port("A"), op("+"), port("B")]);
    let or_result = LibertyExprParser::reduce(&or);
    let plus_result = LibertyExprParser::reduce(&plus);
    assert_eq!(or_result, Ok(LibertyExpr::Or(Box::new(buffer("A")), Box::new(buffer("B")))));
    assert_eq!(plus_result, Ok(LibertyExpr::Plus(Box::new(buffer("A")), Box::new(buffer("B")))));
    assert_ne!(or_result, plus_result);
}

#[test]
fn mult_and_xor_and_constants() {
    let zero = ParseNode::leaf(Rule::Zero, "0", 1, 1);
    let one = ParseNode::leaf(Rule::One, "1", 1, 3);
    let tree = expr("0 * 1 ^ A", vec![zero, op("*"), one, op("^"), port("A")]);
    let expected = LibertyExpr::Xor(
        Box::new(LibertyExpr::Mult(Box::new(LibertyExpr::Zero), Box::new(LibertyExpr::One))),
        Box::new(buffer("A")),
    );
    assert_eq!(LibertyExprParser::reduce(&tree), Ok(expected));
}

#[test]
fn operators_fold_left_to_right_without_precedence() {
    let tree = expr("A | B & C", vec![port("A"), op("|"), port("B"), op("&"), port("C")]);
    let expected = and(LibertyExpr::Or(Box::new(buffer("A")), Box::new(buffer("B"))), buffer("C"));
    assert_eq!(LibertyExprParser::reduce(&tree), Ok(expected));
}

#[test]
fn parenthesised_operand_is_already_reduced() {
    let inner = expr("B | C", vec![port("B"), op("|"), port("C")]);
    let tree = expr("A & (B | C)", vec![port("A"), op("&"), inner]);
    let expected = and(buffer("A"), LibertyExpr::Or(Box::new(buffer("B")), Box::new(buffer("C"))));
    assert_eq!(LibertyExprParser::reduce(&tree), Ok(expected));
}

#[test]
fn unknown_operator_is_an_error() {
    let bad = ParseNode::leaf(Rule::ExprOp, "%", 3, 7);
    assert_eq!(
        process_expr_op(&bad),
        Err(ReductionError::UnknownOperator { symbol: "%".to_string(), line: 3, col: 7 })
    );
    assert_eq!(process_expr_op(&op("^")), Ok(ExprItem::Operator(LibertyExprOp::Xor)));
    assert_eq!(process_expr_op(&op("*")), Ok(ExprItem::Operator(LibertyExprOp::Mult)));
}

#[test]
fn unknown_rule_is_an_error() {
    let tree = ParseNode::branch(Rule::ExprResult, "A", 2, 5, vec![port("A")]);
    assert_eq!(
        LibertyExprParser::reduce(&tree),
        Err(ReductionError::UnknownRule { rule_name: "expr_result".to_string(), line: 2, col: 5 })
    );
}

#[test]
fn missing_operand_is_a_type_mismatch() {
    let tree = ParseNode::branch(Rule::Expr, "A &", 4, 2, vec![port("A"), op("&")]);
    assert_eq!(
        LibertyExprParser::reduce(&tree),
        Err(ReductionError::TypeMismatch {
            expected: DataKind::Operand,
            found: DataKind::Nothing,
            line: 4,
            col: 2
        })
    );
    let empty_not = ParseNode::branch(Rule::NotExpr, "!", 1, 9, vec![]);
    assert_eq!(
        process_not(&empty_not, VecDeque::new()),
        Err(ReductionError::TypeMismatch {
            expected: DataKind::Operand,
            found: DataKind::Nothing,
            line: 1,
            col: 9
        })
    );
}

#[test]
fn operand_where_operator_is_due_is_a_type_mismatch() {
    let node = expr("A B", vec![]);
    let mut queue = VecDeque::new();
    queue.push_back(ExprItem::Operand(buffer("A")));
    queue.push_back(ExprItem::Operand(buffer("B")));
    queue.push_back(ExprItem::Operand(buffer("C")));
    assert_eq!(
        process_expr(&node, queue),
        Err(ReductionError::TypeMismatch {
            expected: DataKind::Operator,
            found: DataKind::Operand,
            line: 1,
            col: 1
        })
    );
}

#[test]
fn operator_among_juxtaposed_operands_is_a_type_mismatch() {
    let node = juxtaposed("A &", vec![]);
    let mut queue = VecDeque::new();
    queue.push_back(ExprItem::Operand(buffer("A")));
    queue.push_back(ExprItem::Operator(LibertyExprOp::And));
    assert_eq!(
        process_default_and_expr(&node, queue),
        Err(ReductionError::TypeMismatch {
            expected: DataKind::Operand,
            found: DataKind::Operator,
            line: 1,
            col: 1
        })
    );
}

#[test]
fn lone_operator_is_no_expression() {
    assert_eq!(
        LibertyExprParser::reduce(&op("&")),
        Err(ReductionError::TypeMismatch {
            expected: DataKind::Operand,
            found: DataKind::Operator,
            line: 1,
            col: 1
        })
    );
}

#[test]
fn work_list_is_balanced_at_every_depth() {
    let shallow = port("A");
    let middle = expr("A & B", vec![port("A"), op("&"), port("B")]);
    let deep = expr(
        "!(A B) | C",
        vec![not(juxtaposed("A B", vec![port("A"), port("B")])), op("|"), port("C")],
    );
    for tree in [shallow, middle, deep] {
        let mut queue = VecDeque::new();
        queue.push_back(ExprItem::Operand(LibertyExpr::Zero));
        let before = queue.len();
        let result = process_pair(&tree, &mut queue);
        assert!(result.is_ok());
        assert_eq!(queue.len(), before);
        assert_eq!(queue[0], ExprItem::Operand(LibertyExpr::Zero));
        queue.push_back(result.unwrap());
        assert_eq!(queue.len(), before + 1);
    }
}

#[test]
fn work_list_is_restored_after_a_failure() {
    let tree = expr("A % B", vec![port("A"), op("%"), port("B")]);
    let mut queue = VecDeque::new();
    queue.push_back(ExprItem::Operand(LibertyExpr::One));
    let result = process_pair(&tree, &mut queue);
    assert_eq!(result, Err(ReductionError::UnknownOperator { symbol: "%".to_string(), line: 1, col: 1 }));
    assert_eq!(queue.len(), 1);
}

#[test]
fn port_keeps_its_text() {
    assert_eq!(process_port(&port("CLK_n[3]")), Ok(ExprItem::Operand(buffer("CLK_n[3]"))));
}

#[test]
fn reducing_an_expression_adds_exactly_one_value() {
    let mut queue = VecDeque::new();
    let deep = expr("!(A B) | C", vec![not(juxtaposed("A B", vec![port("A"), port("B")])), op("|"), port("C")]);
    assert_eq!(reduce_onto(&port("A"), &mut queue), Ok(()));
    assert_eq!(reduce_onto(&deep, &mut queue), Ok(()));
    assert_eq!(reduce_onto(&op("^"), &mut queue), Ok(()));
    assert_eq!(queue.len(), 3);
    assert_eq!(queue[0], ExprItem::Operand(buffer("A")));
    assert_eq!(queue[2], ExprItem::Operator(LibertyExprOp::Xor));
    assert!(reduce_onto(&op("?"), &mut queue).is_err());
    assert_eq!(queue.len(), 3);
}
