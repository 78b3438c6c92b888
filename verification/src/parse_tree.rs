use vstd::prelude::*;

verus! {

/// One match of a grammar rule: the rule, the matched text, the place where
/// the match starts, and the matches nested in it, left to right.
///
/// The tree is produced by the grammar engine and only read here. `R` is the
/// rule enumeration of one grammar.
#[derive(Debug)]
pub struct ParseNode<R> {
    pub rule: R,
    pub text: String,
    pub line: usize,
    pub col: usize,
    pub children: Vec<ParseNode<R>>,
}

impl<R> ParseNode<R> {
    /// A node without children.
    pub fn leaf(rule: R, text: &str, line: usize, col: usize) -> (node: ParseNode<R>)
        ensures
            node.rule == rule,
            node.text@ == text@,
            node.line == line,
            node.col == col,
            node.children@.len() == 0,
    {
        ParseNode { rule, text: text.to_owned(), line, col, children: Vec::new() }
    }

    /// A node with the given children, in order.
    pub fn branch(rule: R, text: &str, line: usize, col: usize, children: Vec<ParseNode<R>>) -> (node:
        ParseNode<R>)
        ensures
            node.rule == rule,
            node.text@ == text@,
            node.line == line,
            node.col == col,
            node.children == children,
    {
        ParseNode { rule, text: text.to_owned(), line, col, children }
    }
}

} // verus!
