use vstd::prelude::*;
use vstd::string::*;
use crate::error::ReductionErrorView;
use crate::liberty_data::{
    attr_values_view, lemma_group_view, statements_view, AttrValue, AttrValueView, Statement, StatementView,
};
use crate::liberty_parser::{
    all_values, children_spec, reduce_spec, stmts_of, values_of, LibertyParserDataView, Rule,
};
use crate::parse_tree::ParseNode;
use crate::reduction::{all_ok, oks};
use crate::text::{is_float_text, lemma_trim_back, lemma_trim_front, trim_quotes};

verus! {

/// Whether a text has no double quote at either end.
pub open spec fn no_quote_at_ends(s: Seq<char>) -> bool {
    s.len() == 0 || (s[0] != '"' && s.last() != '"')
}

/// A text between double quotes.
pub open spec fn quoted(s: Seq<char>) -> Seq<char> {
    seq!['"'] + s + seq!['"']
}

/// Whether a value reads back as itself: a text without a double quote at
/// either end, or a number that denotes a double.
pub open spec fn value_round_trips(v: AttrValueView) -> bool {
    match v {
        AttrValueView::String(s) => no_quote_at_ends(s),
        AttrValueView::Float(t) => is_float_text(t),
    }
}

/// A text without a double quote at either end is what is left of it when
/// the quotes around it are taken away, whether it was written between
/// quotes or not.
pub proof fn lemma_quoted_reads_back(s: Seq<char>)
    requires
        no_quote_at_ends(s),
    ensures
        trim_quotes(quoted(s)) == s,
        trim_quotes(s) == s,
{
    let q = quoted(s);
    if s.len() == 0 {
        lemma_trim_front(q, 2);
        assert(q.skip(2) =~= s);
    } else {
        assert(q[1] == s[0]);
        lemma_trim_front(q, 1);
        let rest = q.skip(1);
        assert(rest =~= s + seq!['"']);
        assert(rest[s.len() - 1] == s.last());
        lemma_trim_back(rest, s.len() as int);
        assert(rest.take(s.len() as int) =~= s);
    }
}

/// Whether every value of a sequence reads back as itself.
pub open spec fn values_round_trip(values: Seq<AttrValueView>) -> bool {
    forall|i: int| 0 <= i < values.len() ==> value_round_trips(#[trigger] values[i])
}

/// Whether a statement reads back as itself: its name has no double quote at
/// either end, and its values and children read back as themselves.
pub open spec fn statement_round_trips(s: StatementView) -> bool
    decreases s,
{
    match s {
        StatementView::SimpleAttr { id, value, .. } => no_quote_at_ends(id) && value_round_trips(value),
        StatementView::ComplexAttr { id, values, .. } => no_quote_at_ends(id) && values_round_trip(values),
        StatementView::Group { id, values, children, .. } => {
            &&& no_quote_at_ends(id)
            &&& values_round_trip(values)
            &&& forall|i: int| 0 <= i < children.len() ==> statement_round_trips(#[trigger] children[i])
        },
    }
}

/// The children of a group that reads back as itself do so too.
pub proof fn lemma_group_round_trips(s: StatementView)
    requires
        s is Group,
        statement_round_trips(s),
    ensures
        no_quote_at_ends(s->Group_id),
        values_round_trip(s->Group_values),
        forall|j: int|
            0 <= j < s->Group_children.len() ==> statement_round_trips(#[trigger] s->Group_children[j]),
{
}

/// The reduced values that stand for a sequence of attribute values.
pub open spec fn as_values(values: Seq<AttrValueView>) -> Seq<LibertyParserDataView> {
    Seq::new(values.len(), |i: int| LibertyParserDataView::Value(values[i]))
}

/// The reduced values that stand for a sequence of statements.
pub open spec fn as_stmts(stmts: Seq<StatementView>) -> Seq<LibertyParserDataView> {
    Seq::new(stmts.len(), |i: int| LibertyParserDataView::Stmt(stmts[i]))
}

/// Values alone are all values, and picking the values out of them gives
/// them back.
pub proof fn lemma_values_alone(values: Seq<AttrValueView>)
    ensures
        values_of(as_values(values)) == values,
        stmts_of(as_values(values)) == Seq::<StatementView>::empty(),
        all_values(as_values(values)),
    decreases values.len(),
{
    if values.len() == 0 {
        assert(values_of(as_values(values)) =~= values);
    } else {
        lemma_values_alone(values.drop_last());
        assert(as_values(values).drop_last() =~= as_values(values.drop_last()));
        assert(values.drop_last().push(values.last()) =~= values);
    }
}

/// Picking the values and the statements out of values followed by
/// statements gives both back.
pub proof fn lemma_values_then_stmts(values: Seq<AttrValueView>, stmts: Seq<StatementView>)
    ensures
        values_of(as_values(values) + as_stmts(stmts)) == values,
        stmts_of(as_values(values) + as_stmts(stmts)) == stmts,
    decreases stmts.len(),
{
    let items = as_values(values) + as_stmts(stmts);
    if stmts.len() == 0 {
        lemma_values_alone(values);
        assert(items =~= as_values(values));
        assert(stmts =~= Seq::<StatementView>::empty());
    } else {
        lemma_values_then_stmts(values, stmts.drop_last());
        assert(items.drop_last() =~= as_values(values) + as_stmts(stmts.drop_last()));
        assert(items.last() == LibertyParserDataView::Stmt(stmts.last()));
        assert(stmts.drop_last().push(stmts.last()) =~= stmts);
    }
}

/// A node whose children all reduce reduces to what its builder makes of
/// their values.
pub proof fn lemma_reduce_node(node: ParseNode<Rule>, items: Seq<LibertyParserDataView>)
    requires
        items.len() == node.children@.len(),
        forall|i: int|
            0 <= i < items.len() ==> reduce_spec(#[trigger] node.children@[i]) == Ok::<
                LibertyParserDataView,
                ReductionErrorView,
            >(items[i]),
    ensures
        reduce_spec(node) == crate::liberty_parser::build_spec(
            node.rule,
            node.text@,
            node.line as nat,
            node.col as nat,
            items,
        ),
{
    let kids = children_spec(node);
    assert forall|i: int| 0 <= i < kids.len() implies (#[trigger] kids[i]) is Ok by {
        assert(kids[i] == reduce_spec(node.children@[i]));
    }
    assert(all_ok(kids));
    assert forall|i: int| 0 <= i < kids.len() implies oks(kids)[i] == items[i] by {
        assert(kids[i] == reduce_spec(node.children@[i]));
    }
    assert(oks(kids) =~= items);
}

/// Writes an attribute value as the parse tree of a token: a text between
/// double quotes, a number as it is.
pub fn value_to_parse_tree(value: &AttrValue, line: usize) -> (tree: ParseNode<Rule>)
    ensures
        value_round_trips(value@) ==> reduce_spec(tree) == Ok::<LibertyParserDataView, ReductionErrorView>(
            LibertyParserDataView::Value(value@),
        ),
{
    let tree = match value {
        AttrValue::String(s) => {
            let mut text = "\"".to_owned();
            text.append(s.as_str());
            text.append("\"");
            proof {
                reveal_strlit("\"");
                assert(text@ =~= quoted(s@));
                if no_quote_at_ends(s@) {
                    lemma_quoted_reads_back(s@);
                }
            }
            ParseNode::leaf(Rule::MultilineString, text.as_str(), line, 0)
        },
        AttrValue::Float(t) => ParseNode::leaf(Rule::Float, t.as_str(), line, 0),
    };
    proof {
        lemma_reduce_node(tree, Seq::empty());
    }
    tree
}

/// Writes the value of a simple attribute as the parse tree of its token.
fn token_to_parse_tree(value: &AttrValue, line: usize) -> (tree: ParseNode<Rule>)
    ensures
        value_round_trips(value@) ==> reduce_spec(tree) == Ok::<LibertyParserDataView, ReductionErrorView>(
            LibertyParserDataView::Value(value@),
        ),
{
    let inner = value_to_parse_tree(value, line);
    let mut parts: Vec<ParseNode<Rule>> = Vec::new();
    let text = inner.text.clone();
    parts.push(inner);
    let tree = ParseNode::branch(Rule::ExprToken, text.as_str(), line, 0, parts);
    proof {
        if value_round_trips(value@) {
            lemma_reduce_node(tree, seq![LibertyParserDataView::Value(value@)]);
        }
    }
    tree
}

/// Writes the name of a statement as the parse tree of an identifier.
fn name_to_parse_tree(id: &String, line: usize) -> (tree: ParseNode<Rule>)
    ensures
        no_quote_at_ends(id@) ==> reduce_spec(tree) == Ok::<LibertyParserDataView, ReductionErrorView>(
            LibertyParserDataView::Value(AttrValueView::String(id@)),
        ),
{
    let tree = ParseNode::leaf(Rule::Id, id.as_str(), line, 0);
    proof {
        if no_quote_at_ends(id@) {
            lemma_quoted_reads_back(id@);
        }
        lemma_reduce_node(tree, Seq::empty());
    }
    tree
}

/// Writes a statement as a parse tree: a node of the statement's rule over
/// its name, its values and its children, in this order. Each node holds the
/// text of its token: a name as it is, a text between double quotes.
///
/// The tree reduces to the statement again, provided the statement reads
/// back as itself.
pub fn statement_to_parse_tree(stmt: &Statement) -> (tree: ParseNode<Rule>)
    ensures
        statement_round_trips(stmt@) ==> reduce_spec(tree) == Ok::<LibertyParserDataView, ReductionErrorView>(
            LibertyParserDataView::Stmt(stmt@),
        ),
    decreases stmt,
{
    let ghost ok = statement_round_trips(stmt@);
    match stmt {
        Statement::SimpleAttr { id, value, line } => {
            let mut parts: Vec<ParseNode<Rule>> = Vec::new();
            parts.push(name_to_parse_tree(id, *line));
            parts.push(token_to_parse_tree(value, *line));
            let tree = ParseNode::branch(Rule::SimpleAttribute, id.as_str(), *line, 0, parts);
            proof {
                if ok {
                    let items = seq![
                        LibertyParserDataView::Value(AttrValueView::String(id@)),
                        LibertyParserDataView::Value(value@),
                    ];
                    lemma_reduce_node(tree, items);
                }
            }
            tree
        },
        Statement::ComplexAttr { id, values, line } => {
            let mut parts: Vec<ParseNode<Rule>> = Vec::new();
            parts.push(name_to_parse_tree(id, *line));
            let ghost head = seq![LibertyParserDataView::Value(AttrValueView::String(id@))];
            let ghost vals = attr_values_view(values@);
            let mut i: usize = 0;
            while i < values.len()
                invariant
                    i <= values@.len(),
                    parts@.len() == 1 + i,
                    vals == attr_values_view(values@),
                    head == seq![LibertyParserDataView::Value(AttrValueView::String(id@))],
                    ok ==> values_round_trip(vals) && no_quote_at_ends(id@),
                    ok ==> forall|j: int|
                        0 <= j < parts@.len() ==> reduce_spec(#[trigger] parts@[j]) == Ok::<
                            LibertyParserDataView,
                            ReductionErrorView,
                        >((head + as_values(vals))[j]),
                decreases values@.len() - i,
            {
                let part = value_to_parse_tree(&values[i], *line);
                assert(ok ==> value_round_trips(vals[i as int]));
                parts.push(part);
                i += 1;
            }
            let tree = ParseNode::branch(Rule::ComplexAttribute, id.as_str(), *line, 0, parts);
            proof {
                if ok {
                    let items = head + as_values(vals);
                    lemma_reduce_node(tree, items);
                    assert(items.skip(1) =~= as_values(vals));
                    lemma_values_alone(vals);
                }
            }
            tree
        },
        Statement::Group { id, values, children, line } => {
            let mut parts: Vec<ParseNode<Rule>> = Vec::new();
            parts.push(name_to_parse_tree(id, *line));
            let ghost head = seq![LibertyParserDataView::Value(AttrValueView::String(id@))];
            let ghost vals = attr_values_view(values@);
            let ghost kids = statements_view(children@);
            proof {
                lemma_group_view(*stmt);
                if ok {
                    lemma_group_round_trips(stmt@);
                    assert(stmt@->Group_children == kids);
                }
            }
            let mut i: usize = 0;
            while i < values.len()
                invariant
                    i <= values@.len(),
                    parts@.len() == 1 + i,
                    vals == attr_values_view(values@),
                    head == seq![LibertyParserDataView::Value(AttrValueView::String(id@))],
                    ok ==> values_round_trip(vals) && no_quote_at_ends(id@),
                    ok ==> forall|j: int| 0 <= j < kids.len() ==> statement_round_trips(#[trigger] kids[j]),
                    ok ==> forall|j: int|
                        0 <= j < parts@.len() ==> reduce_spec(#[trigger] parts@[j]) == Ok::<
                            LibertyParserDataView,
                            ReductionErrorView,
                        >((head + as_values(vals))[j]),
                decreases values@.len() - i,
            {
                let part = value_to_parse_tree(&values[i], *line);
                assert(ok ==> value_round_trips(vals[i as int]));
                parts.push(part);
                i += 1;
            }
            let ghost items = head + as_values(vals) + as_stmts(kids);
            let mut k: usize = 0;
            while k < children.len()
                invariant
                    k <= children@.len(),
                    parts@.len() == 1 + values@.len() + k,
                    vals == attr_values_view(values@),
                    kids == statements_view(children@),
                    items == head + as_values(vals) + as_stmts(kids),
                    head.len() == 1,
                    *stmt is Group,
                    stmt->Group_children == *children,
                    ok ==> forall|j: int| 0 <= j < kids.len() ==> statement_round_trips(#[trigger] kids[j]),
                    ok ==> forall|j: int|
                        0 <= j < parts@.len() ==> reduce_spec(#[trigger] parts@[j]) == Ok::<
                            LibertyParserDataView,
                            ReductionErrorView,
                        >(items[j]),
                decreases children@.len() - k,
            {
                assert(decreases_to!(stmt => stmt->Group_children@[k as int]));
                let part = statement_to_parse_tree(&children[k]);
                assert(ok ==> statement_round_trips(kids[k as int]));
                parts.push(part);
                k += 1;
            }
            let tree = ParseNode::branch(Rule::Group, id.as_str(), *line, 0, parts);
            proof {
                if ok {
                    lemma_reduce_node(tree, items);
                    assert(items.skip(1) =~= as_values(vals) + as_stmts(kids));
                    lemma_values_then_stmts(vals, kids);
                }
            }
            tree
        },
    }
}

} // verus!
