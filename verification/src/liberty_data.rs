use vstd::prelude::*;

verus! {

/// Mathematical value of an attribute value: the characters it holds.
pub enum AttrValueView {
    String(Seq<char>),
    Float(Seq<char>),
}

/// A scalar of the library format. A number is kept as the text that was
/// read, so that no precision is lost before a consumer converts it.
#[derive(Debug, Clone, PartialEq, Eq)]
pub enum AttrValue {
    String(String),
    Float(String),
}

impl View for AttrValue {
    type V = AttrValueView;

    open spec fn view(&self) -> AttrValueView {
        match self {
            AttrValue::String(s) => AttrValueView::String(s@),
            AttrValue::Float(t) => AttrValueView::Float(t@),
        }
    }
}

/// Mathematical value of a statement.
pub enum StatementView {
    SimpleAttr { id: Seq<char>, value: AttrValueView, line: nat },
    ComplexAttr { id: Seq<char>, values: Seq<AttrValueView>, line: nat },
    Group { id: Seq<char>, values: Seq<AttrValueView>, children: Seq<StatementView>, line: nat },
}

/// A statement of the library format. A group owns its values and children,
/// both in source order.
#[derive(Debug, PartialEq, Eq)]
pub enum Statement {
    SimpleAttr { id: String, value: AttrValue, line: usize },
    ComplexAttr { id: String, values: Vec<AttrValue>, line: usize },
    Group { id: String, values: Vec<AttrValue>, children: Vec<Statement>, line: usize },
}

/// The views of a sequence of attribute values, in order.
pub open spec fn attr_values_view(values: Seq<AttrValue>) -> Seq<AttrValueView> {
    Seq::new(values.len(), |i: int| values[i]@)
}

/// The mathematical value of a statement.
pub open spec fn statement_view(s: Statement) -> StatementView
    decreases s,
{
    match s {
        Statement::SimpleAttr { id, value, line } => StatementView::SimpleAttr {
            id: id@,
            value: value@,
            line: line as nat,
        },
        Statement::ComplexAttr { id, values, line } => StatementView::ComplexAttr {
            id: id@,
            values: attr_values_view(values@),
            line: line as nat,
        },
        Statement::Group { id, values, children, line } => StatementView::Group {
            id: id@,
            values: attr_values_view(values@),
            children: Seq::new(
                children@.len(),
                |i: int|
                    if 0 <= i < children@.len() {
                        statement_view(children@[i])
                    } else {
                        arbitrary()
                    },
            ),
            line: line as nat,
        },
    }
}

impl View for Statement {
    type V = StatementView;

    open spec fn view(&self) -> StatementView {
        statement_view(*self)
    }
}

/// The views of a sequence of statements, in order.
pub open spec fn statements_view(stmts: Seq<Statement>) -> Seq<StatementView> {
    Seq::new(stmts.len(), |i: int| stmts[i]@)
}

/// The view of a group, with its children's views written as one sequence.
pub proof fn lemma_group_view(s: Statement)
    ensures
        match s {
            Statement::Group { id, values, children, line } => s@ == (StatementView::Group {
                id: id@,
                values: attr_values_view(values@),
                children: statements_view(children@),
                line: line as nat,
            }),
            _ => true,
        },
{
    match s {
        Statement::Group { id, values, children, line } => {
            assert(s@ matches StatementView::Group { children: c, .. } && c =~= statements_view(children@));
        },
        _ => {},
    }
}

} // verus!
