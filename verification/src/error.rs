use vstd::prelude::*;

verus! {

/// The kinds of reduced value a builder can meet in its buffer.
#[derive(Debug, Clone, Copy, PartialEq, Eq, Structural)]
pub enum DataKind {
    /// A textual attribute value.
    String,
    /// A numeric attribute value.
    Float,
    /// Any attribute value, textual or numeric.
    AttrValue,
    /// A statement: simple attribute, complex attribute or group.
    Statement,
    /// An operand of a function expression.
    Operand,
    /// An operator of a function expression.
    Operator,
    /// An identifier of a netlist.
    Identifier,
    /// A number of a netlist.
    Number,
    /// A net expression.
    NetExpr,
    /// A port connection.
    PortConnection,
    /// Declarations of ports.
    PortList,
    /// A statement of a module.
    ModuleStatement,
    /// A module.
    Module,
    /// A netlist file.
    File,
    /// The buffer had no item left.
    Nothing,
}

/// Mathematical value of a reduction error.
pub enum ReductionErrorView {
    UnknownRule { rule_name: Seq<char>, line: nat, col: nat },
    TypeMismatch { expected: DataKind, found: DataKind, line: nat, col: nat },
    MalformedNumber { text: Seq<char>, line: nat, col: nat },
    UnknownOperator { symbol: Seq<char>, line: nat, col: nat },
}

/// Why a parse tree could not be reduced. Each error carries the place of the
/// node whose reduction failed.
#[derive(Debug, Clone, PartialEq, Eq)]
pub enum ReductionError {
    /// A rule reached the dispatcher that has no builder.
    UnknownRule { rule_name: String, line: usize, col: usize },
    /// A builder met a reduced child of the wrong kind.
    TypeMismatch { expected: DataKind, found: DataKind, line: usize, col: usize },
    /// A numeric token does not denote a number.
    MalformedNumber { text: String, line: usize, col: usize },
    /// An operator token holds a symbol that is no operator.
    UnknownOperator { symbol: String, line: usize, col: usize },
}

impl View for ReductionError {
    type V = ReductionErrorView;

    open spec fn view(&self) -> ReductionErrorView {
        match self {
            ReductionError::UnknownRule { rule_name, line, col } => ReductionErrorView::UnknownRule {
                rule_name: rule_name@,
                line: *line as nat,
                col: *col as nat,
            },
            ReductionError::TypeMismatch { expected, found, line, col } => ReductionErrorView::TypeMismatch {
                expected: *expected,
                found: *found,
                line: *line as nat,
                col: *col as nat,
            },
            ReductionError::MalformedNumber { text, line, col } => ReductionErrorView::MalformedNumber {
                text: text@,
                line: *line as nat,
                col: *col as nat,
            },
            ReductionError::UnknownOperator { symbol, line, col } => ReductionErrorView::UnknownOperator {
                symbol: symbol@,
                line: *line as nat,
                col: *col as nat,
            },
        }
    }
}

/// Mathematical value of a syntax error.
pub struct GrammarSyntaxErrorView {
    pub line: nat,
    pub col: nat,
    pub message: Seq<char>,
}

/// The text did not match the grammar: the place where matching stopped and
/// what the grammar engine said of it.
#[derive(Debug, Clone, PartialEq, Eq)]
pub struct GrammarSyntaxError {
    pub line: usize,
    pub col: usize,
    pub message: String,
}

impl View for GrammarSyntaxError {
    type V = GrammarSyntaxErrorView;

    open spec fn view(&self) -> GrammarSyntaxErrorView {
        GrammarSyntaxErrorView { line: self.line as nat, col: self.col as nat, message: self.message@ }
    }
}

impl GrammarSyntaxError {
    /// A copy of the error.
    pub fn copy(&self) -> (r: GrammarSyntaxError)
        ensures
            r@ == self@,
    {
        GrammarSyntaxError { line: self.line, col: self.col, message: self.message.clone() }
    }
}

/// What the grammar engine made of a text.
#[derive(Debug)]
pub enum ParseOutcome<R> {
    /// There was no text to read.
    NoContent,
    /// The text did not match the grammar.
    SyntaxError(GrammarSyntaxError),
    /// The text matched: the parse tree of the root rule.
    Tree(crate::parse_tree::ParseNode<R>),
}

/// Mathematical value of a parse error.
pub enum ParseErrorView {
    IoError,
    GrammarSyntaxError(GrammarSyntaxErrorView),
    Reduction(ReductionErrorView),
}

/// Why a text gave no model. No part of a model comes with an error.
#[derive(Debug, Clone, PartialEq, Eq)]
pub enum ParseError {
    /// There was no content to parse.
    IoError,
    /// The text did not match the grammar.
    GrammarSyntaxError(GrammarSyntaxError),
    /// The parse tree could not be reduced.
    Reduction(ReductionError),
}

impl View for ParseError {
    type V = ParseErrorView;

    open spec fn view(&self) -> ParseErrorView {
        match self {
            ParseError::IoError => ParseErrorView::IoError,
            ParseError::GrammarSyntaxError(e) => ParseErrorView::GrammarSyntaxError(e@),
            ParseError::Reduction(e) => ParseErrorView::Reduction(e@),
        }
    }
}

} // verus!
