use std::collections::VecDeque;
use vstd::prelude::*;
use crate::error::{DataKind, ParseError, ParseErrorView, ParseOutcome, ReductionError, ReductionErrorView};
use crate::liberty_data::{
    attr_values_view, lemma_group_view, statements_view, AttrValue, AttrValueView, Statement, StatementView,
};
use crate::parse_tree::ParseNode;
use crate::reduction::{all_ok, collect, is_first_err, lemma_collect_first_err, oks};
use crate::text::{is_float_literal, is_float_text, strip_quotes, trim_quotes};

verus! {

/// The rules of the library-format grammar.
#[derive(Debug, Clone, Copy, PartialEq, Eq)]
pub enum Rule {
    Float,
    MultilineString,
    Id,
    ExprToken,
    SimpleAttribute,
    ComplexAttribute,
    Group,
    LibFile,
    LibId,
    BusId,
    BusBusId,
    Comment,
    LineComment,
}

/// The name of a rule, as the grammar writes it.
pub open spec fn rule_name(rule: Rule) -> Seq<char> {
    match rule {
        Rule::Float => "float"@,
        Rule::MultilineString => "multiline_string"@,
        Rule::Id => "id"@,
        Rule::ExprToken => "expr_token"@,
        Rule::SimpleAttribute => "simple_attribute"@,
        Rule::ComplexAttribute => "complex_attribute"@,
        Rule::Group => "group"@,
        Rule::LibFile => "lib_file"@,
        Rule::LibId => "lib_id"@,
        Rule::BusId => "bus_id"@,
        Rule::BusBusId => "bus_bus_id"@,
        Rule::Comment => "COMMENT"@,
        Rule::LineComment => "line_comment"@,
    }
}

impl Rule {
    /// The name of the rule, as the grammar writes it.
    pub fn name(&self) -> (r: &'static str)
        ensures
            r@ == rule_name(*self),
    {
        match self {
            Rule::Float => "float",
            Rule::MultilineString => "multiline_string",
            Rule::Id => "id",
            Rule::ExprToken => "expr_token",
            Rule::SimpleAttribute => "simple_attribute",
            Rule::ComplexAttribute => "complex_attribute",
            Rule::Group => "group",
            Rule::LibFile => "lib_file",
            Rule::LibId => "lib_id",
            Rule::BusId => "bus_id",
            Rule::BusBusId => "bus_bus_id",
            Rule::Comment => "COMMENT",
            Rule::LineComment => "line_comment",
        }
    }
}

/// Mathematical value of a reduced node.
pub enum LibertyParserDataView {
    Value(AttrValueView),
    Stmt(StatementView),
}

/// What the reduction of one node yields: an attribute value or a statement.
#[derive(Debug, PartialEq, Eq)]
pub enum LibertyParserData {
    Value(AttrValue),
    Stmt(Statement),
}

impl View for LibertyParserData {
    type V = LibertyParserDataView;

    open spec fn view(&self) -> LibertyParserDataView {
        match self {
            LibertyParserData::Value(v) => LibertyParserDataView::Value(v@),
            LibertyParserData::Stmt(s) => LibertyParserDataView::Stmt(s@),
        }
    }
}

/// The outcome of a reduction, as a mathematical value.
pub type Reduced = Result<LibertyParserDataView, ReductionErrorView>;

/// The views of a buffer of reduced values, in order.
pub open spec fn data_views(items: Seq<LibertyParserData>) -> Seq<LibertyParserDataView> {
    Seq::new(items.len(), |i: int| items[i]@)
}

/// The view of the outcome of a reduction.
pub open spec fn result_view(r: Result<LibertyParserData, ReductionError>) -> Reduced {
    match r {
        Ok(d) => Ok(d@),
        Err(e) => Err(e@),
    }
}

/// The kind of a reduced value.
pub open spec fn kind_of(d: LibertyParserDataView) -> DataKind {
    match d {
        LibertyParserDataView::Value(AttrValueView::String(_)) => DataKind::String,
        LibertyParserDataView::Value(AttrValueView::Float(_)) => DataKind::Float,
        LibertyParserDataView::Stmt(_) => DataKind::Statement,
    }
}

/// The kind of the item at place `i` of a buffer, `Nothing` past its end.
pub open spec fn kind_at(items: Seq<LibertyParserDataView>, i: int) -> DataKind {
    if 0 <= i < items.len() {
        kind_of(items[i])
    } else {
        DataKind::Nothing
    }
}

/// The failure of a builder that expected one kind and found another.
pub open spec fn mismatch(expected: DataKind, found: DataKind, line: nat, col: nat) -> Reduced {
    Err(ReductionErrorView::TypeMismatch { expected, found, line, col })
}

/// The attribute values among the items, in their order.
pub open spec fn values_of(items: Seq<LibertyParserDataView>) -> Seq<AttrValueView>
    decreases items.len(),
{
    if items.len() == 0 {
        Seq::empty()
    } else {
        match items.last() {
            LibertyParserDataView::Value(v) => values_of(items.drop_last()).push(v),
            LibertyParserDataView::Stmt(_) => values_of(items.drop_last()),
        }
    }
}

/// The statements among the items, in their order.
pub open spec fn stmts_of(items: Seq<LibertyParserDataView>) -> Seq<StatementView>
    decreases items.len(),
{
    if items.len() == 0 {
        Seq::empty()
    } else {
        match items.last() {
            LibertyParserDataView::Value(_) => stmts_of(items.drop_last()),
            LibertyParserDataView::Stmt(s) => stmts_of(items.drop_last()).push(s),
        }
    }
}

/// Whether every item is an attribute value.
pub open spec fn all_values(items: Seq<LibertyParserDataView>) -> bool {
    forall|i: int| 0 <= i < items.len() ==> (#[trigger] items[i]) is Value
}

/// A numeric token: its text, if that is a decimal number.
pub open spec fn float_spec(text: Seq<char>, line: nat, col: nat) -> Reduced {
    if is_float_text(text) {
        Ok(LibertyParserDataView::Value(AttrValueView::Float(text)))
    } else {
        Err(ReductionErrorView::MalformedNumber { text, line, col })
    }
}

/// A textual token: its text without the surrounding quotes.
pub open spec fn string_spec(text: Seq<char>) -> Reduced {
    Ok(LibertyParserDataView::Value(AttrValueView::String(trim_quotes(text))))
}

/// The value of a simple attribute. A text stands for itself, and so does a
/// number that stands alone; a number with more behind it (a unit, as in
/// `1nW`) makes the whole token a text.
pub open spec fn expr_token_spec(
    text: Seq<char>,
    items: Seq<LibertyParserDataView>,
    line: nat,
    col: nat,
) -> Reduced {
    match kind_at(items, 0) {
        DataKind::String => Ok(items[0]),
        DataKind::Float => if items.len() == 1 {
            Ok(items[0])
        } else {
            string_spec(text)
        },
        found => mismatch(DataKind::AttrValue, found, line, col),
    }
}

/// The text of a textual attribute value.
pub open spec fn text_of(d: LibertyParserDataView) -> Seq<char> {
    match d {
        LibertyParserDataView::Value(AttrValueView::String(s)) => s,
        _ => Seq::empty(),
    }
}

/// A simple attribute from a name and one value.
pub open spec fn simple_attribute_spec(items: Seq<LibertyParserDataView>, line: nat, col: nat) -> Reduced {
    if kind_at(items, 0) != DataKind::String {
        mismatch(DataKind::String, kind_at(items, 0), line, col)
    } else if !(items.len() > 1 && items[1] is Value) {
        mismatch(DataKind::AttrValue, kind_at(items, 1), line, col)
    } else {
        Ok(
            LibertyParserDataView::Stmt(
                StatementView::SimpleAttr { id: text_of(items[0]), value: items[1]->Value_0, line },
            ),
        )
    }
}

/// A complex attribute from a name and any number of values.
pub open spec fn complex_attribute_spec(items: Seq<LibertyParserDataView>, line: nat, col: nat) -> Reduced {
    if kind_at(items, 0) != DataKind::String {
        mismatch(DataKind::String, kind_at(items, 0), line, col)
    } else if !all_values(items.skip(1)) {
        mismatch(DataKind::AttrValue, DataKind::Statement, line, col)
    } else {
        Ok(
            LibertyParserDataView::Stmt(
                StatementView::ComplexAttr { id: text_of(items[0]), values: values_of(items.skip(1)), line },
            ),
        )
    }
}

/// A group from a name and, in any order, values and statements: the values
/// become the group's values and the statements its children, each keeping
/// their order.
pub open spec fn group_spec(items: Seq<LibertyParserDataView>, line: nat, col: nat) -> Reduced {
    if kind_at(items, 0) != DataKind::String {
        mismatch(DataKind::String, kind_at(items, 0), line, col)
    } else {
        Ok(
            LibertyParserDataView::Stmt(
                StatementView::Group {
                    id: text_of(items[0]),
                    values: values_of(items.skip(1)),
                    children: stmts_of(items.skip(1)),
                    line,
                },
            ),
        )
    }
}

/// What the builder of `rule` makes of a node's text and of its reduced
/// children.
pub open spec fn build_spec(
    rule: Rule,
    text: Seq<char>,
    line: nat,
    col: nat,
    items: Seq<LibertyParserDataView>,
) -> Reduced {
    match rule {
        Rule::Float => float_spec(text, line, col),
        Rule::MultilineString | Rule::Id => string_spec(text),
        Rule::ExprToken => expr_token_spec(text, items, line, col),
        Rule::SimpleAttribute => simple_attribute_spec(items, line, col),
        Rule::ComplexAttribute => complex_attribute_spec(items, line, col),
        Rule::Group => group_spec(items, line, col),
        _ => Err(ReductionErrorView::UnknownRule { rule_name: rule_name(rule), line, col }),
    }
}

/// The reductions of a node's children, left to right.
pub open spec fn children_spec(node: ParseNode<Rule>) -> Seq<Reduced>
    decreases node, 0int,
{
    Seq::new(
        node.children@.len(),
        |i: int|
            if 0 <= i < node.children@.len() {
                reduce_spec(node.children@[i])
            } else {
                arbitrary()
            },
    )
}

/// The reduction of a parse tree: the first failure among the children's
/// reductions if there is one, else what the node's builder makes of their
/// values.
pub open spec fn reduce_spec(node: ParseNode<Rule>) -> Reduced
    decreases node, 1int,
{
    match collect(children_spec(node)) {
        Ok(items) => build_spec(node.rule, node.text@, node.line as nat, node.col as nat, items),
        Err(e) => Err(e),
    }
}

/// The kind of a reduced value.
pub fn data_kind(d: &LibertyParserData) -> (k: DataKind)
    ensures
        k == kind_of(d@),
{
    match d {
        LibertyParserData::Value(AttrValue::String(_)) => DataKind::String,
        LibertyParserData::Value(AttrValue::Float(_)) => DataKind::Float,
        LibertyParserData::Stmt(_) => DataKind::Statement,
    }
}

/// The kind of what a buffer's front gave.
fn kind_of_front(front: &Option<LibertyParserData>) -> (k: DataKind)
    ensures
        k == match front {
            Some(d) => kind_of(d@),
            None => DataKind::Nothing,
        },
{
    match front {
        Some(d) => data_kind(d),
        None => DataKind::Nothing,
    }
}

/// Builds the value of a numeric token.
pub fn process_float(pair: &ParseNode<Rule>) -> (r: Result<LibertyParserData, ReductionError>)
    ensures
        result_view(r) == float_spec(pair.text@, pair.line as nat, pair.col as nat),
{
    if is_float_literal(pair.text.as_str()) {
        Ok(LibertyParserData::Value(AttrValue::Float(pair.text.clone())))
    } else {
        Err(ReductionError::MalformedNumber { text: pair.text.clone(), line: pair.line, col: pair.col })
    }
}

/// Builds the value of a textual token.
pub fn process_string(pair: &ParseNode<Rule>) -> (r: Result<LibertyParserData, ReductionError>)
    ensures
        result_view(r) == string_spec(pair.text@),
{
    Ok(LibertyParserData::Value(AttrValue::String(strip_quotes(pair.text.as_str()))))
}

/// Builds the value of a simple attribute from the reduced parts of its token.
pub fn process_expr_token(pair: &ParseNode<Rule>, parser_queue: VecDeque<LibertyParserData>) -> (r: Result<
    LibertyParserData,
    ReductionError,
>)
    ensures
        result_view(r) == expr_token_spec(
            pair.text@,
            data_views(parser_queue@),
            pair.line as nat,
            pair.col as nat,
        ),
{
    let mut queue = parser_queue;
    let front = queue.pop_front();
    match front {
        Some(LibertyParserData::Value(AttrValue::String(s))) => Ok(
            LibertyParserData::Value(AttrValue::String(s)),
        ),
        Some(LibertyParserData::Value(AttrValue::Float(t))) => {
            if queue.len() == 0 {
                Ok(LibertyParserData::Value(AttrValue::Float(t)))
            } else {
                process_string(pair)
            }
        },
        other => Err(
            ReductionError::TypeMismatch {
                expected: DataKind::AttrValue,
                found: kind_of_front(&other),
                line: pair.line,
                col: pair.col,
            },
        ),
    }
}

/// Builds a simple attribute from its name and its value.
pub fn process_simple_attribute(pair: &ParseNode<Rule>, parser_queue: VecDeque<LibertyParserData>) -> (r:
    Result<LibertyParserData, ReductionError>)
    ensures
        result_view(r) == simple_attribute_spec(data_views(parser_queue@), pair.line as nat, pair.col as nat),
{
    let mut queue = parser_queue;
    let first = queue.pop_front();
    match first {
        Some(LibertyParserData::Value(AttrValue::String(id))) => {
            let second = queue.pop_front();
            match second {
                Some(LibertyParserData::Value(value)) => Ok(
                    LibertyParserData::Stmt(Statement::SimpleAttr { id, value, line: pair.line }),
                ),
                other => Err(
                    ReductionError::TypeMismatch {
                        expected: DataKind::AttrValue,
                        found: kind_of_front(&other),
                        line: pair.line,
                        col: pair.col,
                    },
                ),
            }
        },
        other => Err(
            ReductionError::TypeMismatch {
                expected: DataKind::String,
                found: kind_of_front(&other),
                line: pair.line,
                col: pair.col,
            },
        ),
    }
}

/// Builds a complex attribute from its name and the values behind it.
pub fn process_complex_attribute(pair: &ParseNode<Rule>, parser_queue: VecDeque<LibertyParserData>) -> (r:
    Result<LibertyParserData, ReductionError>)
    ensures
        result_view(r) == complex_attribute_spec(data_views(parser_queue@), pair.line as nat, pair.col as nat),
{
    let ghost items = data_views(parser_queue@);
    let mut queue = parser_queue;
    let first = queue.pop_front();
    match first {
        Some(LibertyParserData::Value(AttrValue::String(id))) => {
            let ghost rest = items.skip(1);
            let mut values: Vec<AttrValue> = Vec::new();
            let ghost mut done: int = 0;
            assert(rest.take(0) =~= Seq::empty());
            assert(data_views(queue@) =~= rest.skip(0));
            while queue.len() > 0
                invariant
                    0 <= done <= rest.len(),
                    data_views(queue@) == rest.skip(done),
                    all_values(rest.take(done)),
                    rest == items.skip(1),
                    items == data_views(parser_queue@),
                    kind_at(items, 0) == DataKind::String,
                    attr_values_view(values@) == values_of(rest.take(done)),
                decreases queue@.len(),
            {
                let ghost before = queue@;
                let item = queue.pop_front();
                proof {
                    assert(data_views(before).len() == before.len());
                    assert(rest.skip(done).len() == rest.len() - done);
                    assert(data_views(before)[0] == rest.skip(done)[0]);
                    assert forall|k: int| 0 <= k < queue@.len() implies data_views(queue@)[k] == rest.skip(
                        done + 1,
                    )[k] by {
                        assert(data_views(before)[k + 1] == rest.skip(done)[k + 1]);
                    }
                    assert(data_views(queue@) =~= rest.skip(done + 1));
                    assert(rest.take(done + 1).drop_last() =~= rest.take(done));
                    assert(rest.take(done + 1).last() == rest[done]);
                }
                match item {
                    Some(LibertyParserData::Value(v)) => {
                        values.push(v);
                        proof {
                            assert(attr_values_view(values@) =~= values_of(
                                rest.take(done),
                            ).push(v@));
                            done = done + 1;
                        }
                    },
                    _ => {
                        proof {
                            assert(item == Some(before[0]));
                            assert(data_views(before)[0] == before[0]@);
                            assert(rest.skip(done)[0] == rest[done]);
                            assert(!(rest[done] is Value));
                            assert(!all_values(rest));
                        }
                        return Err(
                            ReductionError::TypeMismatch {
                                expected: DataKind::AttrValue,
                                found: DataKind::Statement,
                                line: pair.line,
                                col: pair.col,
                            },
                        );
                    },
                }
            }
            proof {
                assert(rest.take(done) =~= rest);
            }
            Ok(LibertyParserData::Stmt(Statement::ComplexAttr { id, values, line: pair.line }))
        },
        other => Err(
            ReductionError::TypeMismatch {
                expected: DataKind::String,
                found: kind_of_front(&other),
                line: pair.line,
                col: pair.col,
            },
        ),
    }
}

/// Builds a group from its name and the values and statements behind it.
pub fn process_group_attribute(pair: &ParseNode<Rule>, parser_queue: VecDeque<LibertyParserData>) -> (r:
    Result<LibertyParserData, ReductionError>)
    ensures
        result_view(r) == group_spec(data_views(parser_queue@), pair.line as nat, pair.col as nat),
{
    let ghost items = data_views(parser_queue@);
    let mut queue = parser_queue;
    let first = queue.pop_front();
    match first {
        Some(LibertyParserData::Value(AttrValue::String(id))) => {
            let ghost rest = items.skip(1);
            let mut values: Vec<AttrValue> = Vec::new();
            let mut stmts: Vec<Statement> = Vec::new();
            let ghost mut done: int = 0;
            assert(rest.take(0) =~= Seq::empty());
            assert(data_views(queue@) =~= rest.skip(0));
            while queue.len() > 0
                invariant
                    0 <= done <= rest.len(),
                    data_views(queue@) == rest.skip(done),
                    attr_values_view(values@) == values_of(rest.take(done)),
                    statements_view(stmts@) == stmts_of(rest.take(done)),
                decreases queue@.len(),
            {
                let ghost before = queue@;
                let item = queue.pop_front();
                proof {
                    assert(data_views(before).len() == before.len());
                    assert(rest.skip(done).len() == rest.len() - done);
                    assert(data_views(before)[0] == rest.skip(done)[0]);
                    assert forall|k: int| 0 <= k < queue@.len() implies data_views(queue@)[k] == rest.skip(
                        done + 1,
                    )[k] by {
                        assert(data_views(before)[k + 1] == rest.skip(done)[k + 1]);
                    }
                    assert(data_views(queue@) =~= rest.skip(done + 1));
                    assert(rest.take(done + 1).drop_last() =~= rest.take(done));
                    assert(rest.take(done + 1).last() == rest[done]);
                }
                match item {
                    Some(LibertyParserData::Value(v)) => {
                        values.push(v);
                        proof {
                            assert(attr_values_view(values@) =~= values_of(
                                rest.take(done),
                            ).push(v@));
                        }
                    },
                    Some(LibertyParserData::Stmt(st)) => {
                        stmts.push(st);
                        proof {
                            assert(statements_view(stmts@) =~= stmts_of(
                                rest.take(done),
                            ).push(st@));
                        }
                    },
                    None => {},
                }
                proof {
                    done = done + 1;
                }
            }
            proof {
                assert(rest.take(done) =~= rest);
            }
            let group = Statement::Group { id, values, children: stmts, line: pair.line };
            proof {
                lemma_group_view(group);
            }
            Ok(LibertyParserData::Stmt(group))
        },
        other => Err(
            ReductionError::TypeMismatch {
                expected: DataKind::String,
                found: kind_of_front(&other),
                line: pair.line,
                col: pair.col,
            },
        ),
    }
}

/// Reduces a parse tree and puts the value it stands for at the back of the
/// shared work list: after a success the list is what it was before, with
/// exactly that one value behind it. After a failure the list is unchanged.
pub fn reduce_onto(pair: &ParseNode<Rule>, parser_queue: &mut VecDeque<LibertyParserData>) -> (r: Result<(), ReductionError>)
    ensures
        match r {
            Ok(_) => {
                &&& final(parser_queue)@.len() == old(parser_queue)@.len() + 1
                &&& final(parser_queue)@.drop_last() == old(parser_queue)@
                &&& reduce_spec(*pair) == Ok::<LibertyParserDataView, ReductionErrorView>(final(parser_queue)@.last()@)
            },
            Err(e) => {
                &&& final(parser_queue)@ == old(parser_queue)@
                &&& reduce_spec(*pair) == Err::<LibertyParserDataView, ReductionErrorView>(e@)
            },
        },
    decreases pair, 1int,
{
    let ghost before = parser_queue@;
    match process_pair(pair, parser_queue) {
        Ok(value) => {
            parser_queue.push_back(value);
            assert(parser_queue@.drop_last() =~= before);
            Ok(())
        },
        Err(e) => Err(e),
    }
}

/// Reduces a parse tree to the value it stands for.
///
/// The children are reduced left to right, each result going to the back of
/// the shared work list; the node then takes exactly those results off the
/// list again, in their order, and hands them to the builder of its rule. The
/// work list is therefore the same after the call as before it, and the one
/// value that the node stands for is returned for the caller to add. The first
/// failure ends the reduction.
pub fn process_pair(pair: &ParseNode<Rule>, parser_queue: &mut VecDeque<LibertyParserData>) -> (r: Result<
    LibertyParserData,
    ReductionError,
>)
    ensures
        result_view(r) == reduce_spec(*pair),
        final(parser_queue)@ == old(parser_queue)@,
    decreases pair, 0int,
{
    let ghost before = parser_queue@;
    let ghost kids = children_spec(*pair);
    let current_queue_len = parser_queue.len();
    let mut i: usize = 0;
    while i < pair.children.len()
        invariant
            i <= pair.children@.len(),
            before == old(parser_queue)@,
            current_queue_len == before.len(),
            kids == children_spec(*pair),
            parser_queue@.len() == before.len() + i,
            parser_queue@.take(before.len() as int) == before,
            forall|j: int| 0 <= j < i ==> (#[trigger] kids[j]) == Ok::<LibertyParserDataView, ReductionErrorView>(
                parser_queue@[before.len() + j]@,
            ),
        decreases pair.children@.len() - i,
    {
        let ghost so_far = parser_queue@;
        match reduce_onto(&pair.children[i], parser_queue) {
            Ok(()) => {
                assert(parser_queue@.drop_last() == so_far);
                assert(parser_queue@.take(before.len() as int) =~= so_far.take(before.len() as int));
                assert(parser_queue@[before.len() + i]@ == reduce_spec(pair.children@[i as int])->Ok_0);
            },
            Err(e) => {
                assert(kids[i as int] == reduce_spec(pair.children@[i as int]));
                parser_queue.truncate(current_queue_len);
                proof {
                    assert(parser_queue@ =~= before);
                    assert(is_first_err(kids, i as int));
                    lemma_collect_first_err(kids, i as int);
                }
                return Err(e);
            },
        }
        i += 1;
    }
    let ghost full = parser_queue@;
    let mut substitute_queue: VecDeque<LibertyParserData> = VecDeque::new();
    while parser_queue.len() > current_queue_len
        invariant
            current_queue_len == before.len(),
            before.len() <= parser_queue@.len() <= full.len(),
            parser_queue@ + substitute_queue@ == full,
        decreases parser_queue@.len(),
    {
        let ghost rest = parser_queue@;
        let ghost taken = substitute_queue@;
        match parser_queue.pop_back() {
            Some(item) => {
                substitute_queue.push_front(item);
                assert(parser_queue@ + substitute_queue@ =~= rest + taken);
            },
            None => {},
        }
    }
    proof {
        assert(parser_queue@ =~= full.take(before.len() as int));
        assert(substitute_queue@ =~= full.skip(before.len() as int));
        assert(all_ok(kids));
        assert(data_views(substitute_queue@) =~= oks(kids));
    }
    match pair.rule {
        Rule::Float => process_float(pair),
        Rule::MultilineString => process_string(pair),
        Rule::Id => process_string(pair),
        Rule::ExprToken => process_expr_token(pair, substitute_queue),
        Rule::SimpleAttribute => process_simple_attribute(pair, substitute_queue),
        Rule::ComplexAttribute => process_complex_attribute(pair, substitute_queue),
        Rule::Group => process_group_attribute(pair, substitute_queue),
        _ => Err(
            ReductionError::UnknownRule {
                rule_name: pair.rule.name().to_owned(),
                line: pair.line,
                col: pair.col,
            },
        ),
    }
}

/// The reducer of the library format: it turns the parse tree of a library
/// file, or of any part of one, into attribute values and statements.
pub struct LibertyParser;

/// The failure of a library file whose root is no group.
pub open spec fn not_a_group(node: ParseNode<Rule>, found: DataKind) -> ReductionErrorView {
    ReductionErrorView::TypeMismatch {
        expected: DataKind::Statement,
        found,
        line: node.line as nat,
        col: node.col as nat,
    }
}

/// The library that the outcome of the grammar engine stands for: the group
/// that the tree reduces to. A tree that reduces to anything but a group is a
/// failure, and so is every outcome without a tree.
pub open spec fn library_spec(outcome: ParseOutcome<Rule>) -> Result<StatementView, ParseErrorView> {
    match outcome {
        ParseOutcome::NoContent => Err(ParseErrorView::IoError),
        ParseOutcome::SyntaxError(e) => Err(ParseErrorView::GrammarSyntaxError(e@)),
        ParseOutcome::Tree(root) => match reduce_spec(root) {
            Ok(LibertyParserDataView::Stmt(s)) => if s is Group {
                Ok(s)
            } else {
                Err(ParseErrorView::Reduction(not_a_group(root, DataKind::Statement)))
            },
            Ok(LibertyParserDataView::Value(v)) => Err(
                ParseErrorView::Reduction(not_a_group(root, kind_of(LibertyParserDataView::Value(v)))),
            ),
            Err(e) => Err(ParseErrorView::Reduction(e)),
        },
    }
}

impl LibertyParser {
    /// Reduces a parse tree with a work list of its own.
    pub fn reduce(root: &ParseNode<Rule>) -> (r: Result<LibertyParserData, ReductionError>)
        ensures
            result_view(r) == reduce_spec(*root),
    {
        let mut parser_queue: VecDeque<LibertyParserData> = VecDeque::new();
        process_pair(root, &mut parser_queue)
    }

    /// Builds the library of a file from what the grammar engine made of its
    /// text. A syntax error of the engine is handed on as it is, and nothing
    /// is built.
    pub fn build(outcome: &ParseOutcome<Rule>) -> (r: Result<Statement, ParseError>)
        ensures
            match r {
                Ok(s) => library_spec(*outcome) == Ok::<StatementView, ParseErrorView>(s@),
                Err(e) => library_spec(*outcome) == Err::<StatementView, ParseErrorView>(e@),
            },
    {
        match outcome {
            ParseOutcome::NoContent => Err(ParseError::IoError),
            ParseOutcome::SyntaxError(e) => Err(ParseError::GrammarSyntaxError(e.copy())),
            ParseOutcome::Tree(root) => match Self::reduce(root) {
                Ok(LibertyParserData::Stmt(s)) => {
                    match s {
                        Statement::Group { .. } => Ok(s),
                        _ => Err(
                            ParseError::Reduction(
                                ReductionError::TypeMismatch {
                                    expected: DataKind::Statement,
                                    found: DataKind::Statement,
                                    line: root.line,
                                    col: root.col,
                                },
                            ),
                        ),
                    }
                },
                Ok(LibertyParserData::Value(v)) => {
                    let found = data_kind(&LibertyParserData::Value(v));
                    Err(
                        ParseError::Reduction(
                            ReductionError::TypeMismatch {
                                expected: DataKind::Statement,
                                found,
                                line: root.line,
                                col: root.col,
                            },
                        ),
                    )
                },
                Err(e) => Err(ParseError::Reduction(e)),
            },
        }
    }
}

} // verus!
