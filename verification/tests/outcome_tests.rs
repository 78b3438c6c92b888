use eda_parsers::error::{DataKind, GrammarSyntaxError, ParseError, ParseOutcome, ReductionError};
use eda_parsers::liberty_data::{AttrValue, Statement};
use eda_parsers::liberty_expr::{LibertyExprParser, Rule as ExprRule};
use eda_parsers::liberty_expr_data::LibertyExpr;
use eda_parsers::liberty_parser::{LibertyParser, LibertyParserData, Rule};
use eda_parsers::liberty_writer::{statement_to_parse_tree, value_to_parse_tree};
use eda_parsers::parse_tree::ParseNode;
use eda_parsers::vcd_data::VCDFile;
use eda_parsers::vcd_parser::{Rule as VcdRule, VCDParser};

fn truncated_group() -> GrammarSyntaxError {
    GrammarSyntaxError { line: 5, col: 9, message: "expected group, complex_attribute or simple_attribute".to_string() }
}

fn sample() -> Statement {
    Statement::Group {
        id: "library".to_string(),
        values: vec![AttrValue::String("demo".to_string()), AttrValue::Float("1.5".to_string())],
        children: vec![
            Statement::SimpleAttr { id: "voltage".to_string(), value: AttrValue::Float("0.81".to_string()), line: 2 },
            Statement::ComplexAttr {
                id: "define".to_string(),
                values: vec![AttrValue::String("a".to_string()), AttrValue::Float("2".to_string())],
                line: 3,
            },
            Statement::Group {
                id: "cell".to_string(),
                values: vec![],
                children: vec![Statement::SimpleAttr {
                    id: "area".to_string(),
                    value: AttrValue::String("".to_string()),
                    line: 5,
                }],
                line: 4,
            },
        ],
        line: 1,
    }
}

#[test]
fn truncated_group_yields_a_syntax_error_and_no_group() {
    let outcome: ParseOutcome<Rule> = ParseOutcome::SyntaxError(truncated_group());
    assert_eq!(LibertyParser::build(&outcome), Err(ParseError::GrammarSyntaxError(truncated_group())));
}

#[test]
fn no_content_is_an_io_error() {
    assert_eq!(LibertyParser::build(&ParseOutcome::NoContent), Err(ParseError::IoError));
    assert_eq!(LibertyExprParser::build(&ParseOutcome::NoContent), Err(ParseError::IoError));
    assert_eq!(VCDParser::build(&ParseOutcome::NoContent), Err(ParseError::IoError));
}

#[test]
fn library_root_must_be_a_group() {
    let id = ParseNode::leaf(Rule::Id, "x", 1, 2);
    assert_eq!(
        LibertyParser::build(&ParseOutcome::Tree(id)),
        Err(ParseError::Reduction(ReductionError::TypeMismatch {
            expected: DataKind::Statement,
            found: DataKind::String,
            line: 1,
            col: 2
        }))
    );
    let attr = ParseNode::branch(
        Rule::ComplexAttribute,
        "c",
        3,
        1,
        vec![ParseNode::leaf(Rule::Id, "c", 3, 1)],
    );
    assert_eq!(
        LibertyParser::build(&ParseOutcome::Tree(attr)),
        Err(ParseError::Reduction(ReductionError::TypeMismatch {
            expected: DataKind::Statement,
            found: DataKind::Statement,
            line: 3,
            col: 1
        }))
    );
    let bad = ParseNode::leaf(Rule::Float, "abc", 4, 4);
    assert_eq!(
        LibertyParser::build(&ParseOutcome::Tree(bad)),
        Err(ParseError::Reduction(ReductionError::MalformedNumber { text: "abc".to_string(), line: 4, col: 4 }))
    );
}

#[test]
fn library_is_built_from_a_tree() {
    let tree = statement_to_parse_tree(&sample());
    assert_eq!(LibertyParser::build(&ParseOutcome::Tree(tree)), Ok(sample()));
}

#[test]
fn expression_and_header_are_built_from_trees() {
    let port = ParseNode::leaf(ExprRule::Port, "A", 1, 1);
    assert_eq!(LibertyExprParser::build(&ParseOutcome::Tree(port)), Ok(LibertyExpr::Buffer("A".to_string())));
    let err = GrammarSyntaxError { line: 1, col: 3, message: "expected port".to_string() };
    assert_eq!(
        LibertyExprParser::build(&ParseOutcome::SyntaxError(err.clone())),
        Err(ParseError::GrammarSyntaxError(err.clone()))
    );
    let file = ParseNode::branch(VcdRule::VcdFile, "", 1, 1, vec![ParseNode::leaf(VcdRule::DateText, "now", 1, 7)]);
    assert_eq!(
        VCDParser::build(&ParseOutcome::Tree(file)),
        Ok(VCDFile { date: "now".to_string(), time_unit: String::new(), time_resolution: 0, comment: String::new() })
    );
    assert_eq!(VCDParser::build(&ParseOutcome::SyntaxError(err.clone())), Err(ParseError::GrammarSyntaxError(err)));
}

#[test]
fn written_statement_reads_back_as_itself() {
    let tree = statement_to_parse_tree(&sample());
    assert_eq!(LibertyParser::reduce(&tree), Ok(LibertyParserData::Stmt(sample())));
    assert_eq!(tree.children.len(), 6);
    assert_eq!(tree.children[5].children.len(), 2);
}

#[test]
fn written_value_reads_back_as_itself() {
    for value in [AttrValue::String("balanced_tree".to_string()), AttrValue::Float("-1e-3".to_string())] {
        let tree = value_to_parse_tree(&value, 7);
        assert_eq!(LibertyParser::reduce(&tree), Ok(LibertyParserData::Value(value)));
    }
}

#[test]
fn quoted_text_does_not_read_back_as_itself() {
    let value = AttrValue::String("\"q\"".to_string());
    let tree = value_to_parse_tree(&value, 1);
    assert_eq!(LibertyParser::reduce(&tree), Ok(LibertyParserData::Value(AttrValue::String("q".to_string()))));
}

#[test]
fn written_tokens_hold_their_text() {
    let text = value_to_parse_tree(&AttrValue::String("balanced_tree".to_string()), 4);
    assert_eq!((text.rule, text.text.as_str(), text.line), (Rule::MultilineString, "\"balanced_tree\"", 4));
    let number = value_to_parse_tree(&AttrValue::Float("0.81".to_string()), 4);
    assert_eq!((number.rule, number.text.as_str()), (Rule::Float, "0.81"));
    let attr = Statement::SimpleAttr { id: "voltage".to_string(), value: AttrValue::Float("0.81".to_string()), line: 3 };
    let tree = statement_to_parse_tree(&attr);
    assert_eq!((tree.rule, tree.children.len()), (Rule::SimpleAttribute, 2));
    assert_eq!((tree.children[0].rule, tree.children[0].text.as_str()), (Rule::Id, "voltage"));
    assert_eq!((tree.children[1].rule, tree.children[1].text.as_str()), (Rule::ExprToken, "0.81"));
    assert_eq!(tree.children[1].children[0].rule, Rule::Float);
}
