use vstd::prelude::*;
use crate::error::{DataKind, ParseError, ParseErrorView, ParseOutcome, ReductionError, ReductionErrorView};
use crate::parse_tree::ParseNode;
use crate::text::{parse_u32, parse_u32_spec};
use crate::vcd_data::{empty_header, VCDFile, VCDFileView, VCDScope, VCDScopeView};

verus! {

/// The rules of the waveform grammar that carry header data.
#[derive(Debug, Clone, Copy, PartialEq, Eq)]
pub enum Rule {
    VcdFile,
    DateText,
    ScaleText,
    ScaleNumber,
    ScaleUnit,
    CommentText,
    OpenScope,
    ScopeType,
    ModuleName,
    CloseScope,
    Variable,
    ValueChangeSection,
}

/// The name of a rule, as the grammar writes it.
pub open spec fn rule_name(rule: Rule) -> Seq<char> {
    match rule {
        Rule::VcdFile => "vcd_file"@,
        Rule::DateText => "date_text"@,
        Rule::ScaleText => "scale_text"@,
        Rule::ScaleNumber => "scale_number"@,
        Rule::ScaleUnit => "scale_unit"@,
        Rule::CommentText => "comment_text"@,
        Rule::OpenScope => "open_scope"@,
        Rule::ScopeType => "scope_type"@,
        Rule::ModuleName => "module_name"@,
        Rule::CloseScope => "close_scope"@,
        Rule::Variable => "variable"@,
        Rule::ValueChangeSection => "value_change_section"@,
    }
}

impl Rule {
    /// The name of the rule, as the grammar writes it.
    pub fn name(&self) -> (r: &'static str)
        ensures
            r@ == rule_name(*self),
    {
        match self {
            Rule::VcdFile => "vcd_file",
            Rule::DateText => "date_text",
            Rule::ScaleText => "scale_text",
            Rule::ScaleNumber => "scale_number",
            Rule::ScaleUnit => "scale_unit",
            Rule::CommentText => "comment_text",
            Rule::OpenScope => "open_scope",
            Rule::ScopeType => "scope_type",
            Rule::ModuleName => "module_name",
            Rule::CloseScope => "close_scope",
            Rule::Variable => "variable",
            Rule::ValueChangeSection => "value_change_section",
        }
    }
}

/// The outcome of reading a header, as a mathematical value.
pub type Header = Result<VCDFileView, ReductionErrorView>;

/// The failure of a node whose rule has no builder here.
pub open spec fn unknown_rule(node: ParseNode<Rule>) -> ReductionErrorView {
    ReductionErrorView::UnknownRule {
        rule_name: rule_name(node.rule),
        line: node.line as nat,
        col: node.col as nat,
    }
}

/// The header with the number or the unit that one part of a time scale
/// gives.
pub open spec fn scale_part_spec(file: VCDFileView, node: ParseNode<Rule>) -> Header {
    match node.rule {
        Rule::ScaleNumber => match parse_u32_spec(node.text@) {
            Some(n) => Ok(VCDFileView { time_resolution: n as nat, ..file }),
            None => Err(
                ReductionErrorView::MalformedNumber {
                    text: node.text@,
                    line: node.line as nat,
                    col: node.col as nat,
                },
            ),
        },
        Rule::ScaleUnit => Ok(VCDFileView { time_unit: node.text@, ..file }),
        _ => Err(unknown_rule(node)),
    }
}

/// The header after the first `n` of the given nodes were applied to it by
/// `scale_part_spec`; the first failure if one of them fails.
pub open spec fn scale_spec(file: VCDFileView, parts: Seq<ParseNode<Rule>>, n: nat) -> Header
    decreases n,
{
    if n == 0 || n > parts.len() {
        Ok(file)
    } else {
        match scale_spec(file, parts, (n - 1) as nat) {
            Ok(f) => scale_part_spec(f, parts[n - 1]),
            Err(e) => Err(e),
        }
    }
}

/// The scope that an opening of a scope declares: its kind is the text of
/// the first part, its name the text of the last.
pub open spec fn open_scope_spec(node: ParseNode<Rule>) -> Result<VCDScopeView, ReductionErrorView> {
    if node.children@.len() == 0 {
        Err(
            ReductionErrorView::TypeMismatch {
                expected: DataKind::String,
                found: DataKind::Nothing,
                line: node.line as nat,
                col: node.col as nat,
            },
        )
    } else {
        Ok(VCDScopeView { name: node.children@.last().text@, scope_type: node.children@[0].text@ })
    }
}

/// The header with what one section of the file gives. The opening of a
/// scope is checked and leaves the header as it is.
pub open spec fn section_spec(file: VCDFileView, node: ParseNode<Rule>) -> Header {
    match node.rule {
        Rule::DateText => Ok(VCDFileView { date: node.text@, ..file }),
        Rule::ScaleText => scale_spec(file, node.children@, node.children@.len()),
        Rule::CommentText => Ok(VCDFileView { comment: node.text@, ..file }),
        Rule::OpenScope => match open_scope_spec(node) {
            Ok(_) => Ok(file),
            Err(e) => Err(e),
        },
        _ => Err(unknown_rule(node)),
    }
}

/// The header after the first `n` sections were applied to it; the first
/// failure if one of them fails.
pub open spec fn vcd_spec(file: VCDFileView, sections: Seq<ParseNode<Rule>>, n: nat) -> Header
    decreases n,
{
    if n == 0 || n > sections.len() {
        Ok(file)
    } else {
        match vcd_spec(file, sections, (n - 1) as nat) {
            Ok(f) => section_spec(f, sections[n - 1]),
            Err(e) => Err(e),
        }
    }
}

/// The view of the outcome of reading a header.
pub open spec fn header_view(r: Result<VCDFile, ReductionError>) -> Header {
    match r {
        Ok(f) => Ok(f@),
        Err(e) => Err(e@),
    }
}

/// The failure of a node whose rule has no builder here.
fn unknown_rule_error(pair: &ParseNode<Rule>) -> (e: ReductionError)
    ensures
        e@ == unknown_rule(*pair),
{
    ReductionError::UnknownRule { rule_name: pair.rule.name().to_owned(), line: pair.line, col: pair.col }
}

/// Sets the date.
pub fn process_date(pair: &ParseNode<Rule>, vcd_file: VCDFile) -> (r: VCDFile)
    ensures
        r@ == (VCDFileView { date: pair.text@, ..vcd_file@ }),
{
    let mut file = vcd_file;
    file.date = pair.text.clone();
    file
}

/// Sets the number of the time scale.
pub fn process_scale_number(pair: &ParseNode<Rule>, vcd_file: VCDFile) -> (r: Result<VCDFile, ReductionError>)
    ensures
        pair.rule == Rule::ScaleNumber ==> header_view(r) == scale_part_spec(vcd_file@, *pair),
        header_view(r) == match parse_u32_spec(pair.text@) {
            Some(n) => Ok::<VCDFileView, ReductionErrorView>(VCDFileView { time_resolution: n as nat, ..vcd_file@ }),
            None => Err(
                ReductionErrorView::MalformedNumber {
                    text: pair.text@,
                    line: pair.line as nat,
                    col: pair.col as nat,
                },
            ),
        },
{
    match parse_u32(pair.text.as_str()) {
        Some(n) => {
            let mut file = vcd_file;
            file.time_resolution = n;
            Ok(file)
        },
        None => Err(ReductionError::MalformedNumber { text: pair.text.clone(), line: pair.line, col: pair.col }),
    }
}

/// Sets the unit of the time scale.
pub fn process_scale_unit(pair: &ParseNode<Rule>, vcd_file: VCDFile) -> (r: VCDFile)
    ensures
        r@ == (VCDFileView { time_unit: pair.text@, ..vcd_file@ }),
{
    let mut file = vcd_file;
    file.time_unit = pair.text.clone();
    file
}

/// Sets the time scale from its parts.
pub fn process_scale(pair: &ParseNode<Rule>, vcd_file: VCDFile) -> (r: Result<VCDFile, ReductionError>)
    ensures
        header_view(r) == scale_spec(vcd_file@, pair.children@, pair.children@.len()),
{
    let mut file = vcd_file;
    let mut i: usize = 0;
    while i < pair.children.len()
        invariant
            i <= pair.children@.len(),
            scale_spec(vcd_file@, pair.children@, i as nat) == Ok::<VCDFileView, ReductionErrorView>(file@),
        decreases pair.children@.len() - i,
    {
        let inner_pair = &pair.children[i];
        let step = match inner_pair.rule {
            Rule::ScaleNumber => process_scale_number(inner_pair, file),
            Rule::ScaleUnit => Ok(process_scale_unit(inner_pair, file)),
            _ => Err(unknown_rule_error(inner_pair)),
        };
        match step {
            Ok(f) => {
                file = f;
            },
            Err(e) => {
                proof {
                    lemma_scale_err(vcd_file@, pair.children@, (i + 1) as nat, pair.children@.len());
                }
                return Err(e);
            },
        }
        i += 1;
    }
    Ok(file)
}

/// A failure among the first parts of a time scale is the failure of all.
pub proof fn lemma_scale_err(file: VCDFileView, parts: Seq<ParseNode<Rule>>, n: nat, m: nat)
    requires
        n <= m <= parts.len(),
        scale_spec(file, parts, n) is Err,
    ensures
        scale_spec(file, parts, m) == scale_spec(file, parts, n),
    decreases m,
{
    if n < m {
        lemma_scale_err(file, parts, n, (m - 1) as nat);
    }
}

/// A failure among the first sections is the failure of all.
pub proof fn lemma_vcd_err(file: VCDFileView, sections: Seq<ParseNode<Rule>>, n: nat, m: nat)
    requires
        n <= m <= sections.len(),
        vcd_spec(file, sections, n) is Err,
    ensures
        vcd_spec(file, sections, m) == vcd_spec(file, sections, n),
    decreases m,
{
    if n < m {
        lemma_vcd_err(file, sections, n, (m - 1) as nat);
    }
}

/// Sets the comment.
pub fn process_comment(pair: &ParseNode<Rule>, vcd_file: VCDFile) -> (r: VCDFile)
    ensures
        r@ == (VCDFileView { comment: pair.text@, ..vcd_file@ }),
{
    let mut file = vcd_file;
    file.comment = pair.text.clone();
    file
}

/// Reads the scope that an opening of a scope declares.
pub fn process_open_scope(pair: &ParseNode<Rule>) -> (r: Result<VCDScope, ReductionError>)
    ensures
        match r {
            Ok(s) => open_scope_spec(*pair) == Ok::<VCDScopeView, ReductionErrorView>(s@),
            Err(e) => open_scope_spec(*pair) == Err::<VCDScopeView, ReductionErrorView>(e@),
        },
{
    let n = pair.children.len();
    if n == 0 {
        return Err(
            ReductionError::TypeMismatch {
                expected: DataKind::String,
                found: DataKind::Nothing,
                line: pair.line,
                col: pair.col,
            },
        );
    }
    let scope_type = pair.children[0].text.clone();
    let name = pair.children[n - 1].text.clone();
    Ok(VCDScope { name, scope_type })
}

/// Reads the header data of a waveform file from the sections of its parse
/// tree, in order.
pub fn process_vcd(pair: &ParseNode<Rule>, vcd_file: VCDFile) -> (r: Result<VCDFile, ReductionError>)
    ensures
        header_view(r) == vcd_spec(vcd_file@, pair.children@, pair.children@.len()),
{
    let mut file = vcd_file;
    let mut i: usize = 0;
    while i < pair.children.len()
        invariant
            i <= pair.children@.len(),
            vcd_spec(vcd_file@, pair.children@, i as nat) == Ok::<VCDFileView, ReductionErrorView>(file@),
        decreases pair.children@.len() - i,
    {
        let inner_pair = &pair.children[i];
        let step = match inner_pair.rule {
            Rule::DateText => Ok(process_date(inner_pair, file)),
            Rule::ScaleText => process_scale(inner_pair, file),
            Rule::CommentText => Ok(process_comment(inner_pair, file)),
            Rule::OpenScope => match process_open_scope(inner_pair) {
                Ok(_) => Ok(file),
                Err(e) => Err(e),
            },
            _ => Err(unknown_rule_error(inner_pair)),
        };
        match step {
            Ok(f) => {
                file = f;
            },
            Err(e) => {
                proof {
                    lemma_vcd_err(vcd_file@, pair.children@, (i + 1) as nat, pair.children@.len());
                }
                return Err(e);
            },
        }
        i += 1;
    }
    Ok(file)
}

/// The reader of waveform files: it takes the header data out of the parse
/// tree of a file.
pub struct VCDParser;

/// The header that the outcome of the grammar engine stands for.
pub open spec fn file_spec(outcome: ParseOutcome<Rule>) -> Result<VCDFileView, ParseErrorView> {
    match outcome {
        ParseOutcome::NoContent => Err(ParseErrorView::IoError),
        ParseOutcome::SyntaxError(e) => Err(ParseErrorView::GrammarSyntaxError(e@)),
        ParseOutcome::Tree(root) => match vcd_spec(empty_header(), root.children@, root.children@.len()) {
            Ok(f) => Ok(f),
            Err(e) => Err(ParseErrorView::Reduction(e)),
        },
    }
}

impl VCDParser {
    /// Builds the header of a file from what the grammar engine made of its
    /// text. A syntax error of the engine is handed on as it is.
    pub fn build(outcome: &ParseOutcome<Rule>) -> (r: Result<VCDFile, ParseError>)
        ensures
            match r {
                Ok(f) => file_spec(*outcome) == Ok::<VCDFileView, ParseErrorView>(f@),
                Err(e) => file_spec(*outcome) == Err::<VCDFileView, ParseErrorView>(e@),
            },
    {
        match outcome {
            ParseOutcome::NoContent => Err(ParseError::IoError),
            ParseOutcome::SyntaxError(e) => Err(ParseError::GrammarSyntaxError(e.copy())),
            ParseOutcome::Tree(root) => match Self::reduce(root) {
                Ok(f) => Ok(f),
                Err(e) => Err(ParseError::Reduction(e)),
            },
        }
    }

    /// Reads the header data of a file from its parse tree.
    pub fn reduce(root: &ParseNode<Rule>) -> (r: Result<VCDFile, ReductionError>)
        ensures
            header_view(r) == vcd_spec(empty_header(), root.children@, root.children@.len()),
    {
        process_vcd(root, VCDFile::new())
    }
}

} // verus!
