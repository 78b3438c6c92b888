use eda_parsers::error::{DataKind, ReductionError};
use eda_parsers::parse_tree::ParseNode;
use eda_parsers::vcd_data::{VCDFile, VCDScope};
use eda_parsers::vcd_parser::{
    process_comment, process_date, process_open_scope, process_scale, process_scale_number, process_scale_unit,
    process_vcd, Rule, VCDParser,
};

fn scale(number: &str, unit: &str) -> ParseNode<Rule> {
    ParseNode::branch(
        Rule::ScaleText,
        "10ns",
        5,
        9,
        vec![
            ParseNode::leaf(Rule::ScaleNumber, number, 5, 9),
            ParseNode::leaf(Rule::ScaleUnit, unit, 5, 11),
        ],
    )
}

fn open_scope(kind: &str, name: &str) -> ParseNode<Rule> {
    ParseNode::branch(
        Rule::OpenScope,
        "$scope module test $end",
        9,
        5,
        vec![ParseNode::leaf(Rule::ScopeType, kind, 9, 12), ParseNode::leaf(Rule::ModuleName, name, 9, 19)],
    )
}

#[test]
fn test_parse_scale() {
    let result = process_scale(&scale("10", "ns"), VCDFile::new());
    assert_eq!(
        result,
        Ok(VCDFile { date: String::new(), time_unit: "ns".to_string(), time_resolution: 10, comment: String::new() })
    );
}

#[test]
fn test_parse_scope() {
    let tree = ParseNode::branch(
        Rule::VcdFile,
        "",
        1,
        1,
        vec![
            ParseNode::leaf(Rule::DateText, "Tue Aug 23 16:03:49 2022", 2, 9),
            scale("1", "ns"),
            ParseNode::leaf(Rule::CommentText, "Csum: 1 9ba2991b94438432", 9, 14),
            open_scope("module", "test"),
        ],
    );
    assert_eq!(
        VCDParser::reduce(&tree),
        Ok(VCDFile {
            date: "Tue Aug 23 16:03:49 2022".to_string(),
            time_unit: "ns".to_string(),
            time_resolution: 1,
            comment: "Csum: 1 9ba2991b94438432".to_string(),
        })
    );
}

#[test]
fn scope_takes_kind_from_first_and_name_from_last_part() {
    assert_eq!(
        process_open_scope(&open_scope("module", "top_i")),
        Ok(VCDScope { name: "top_i".to_string(), scope_type: "module".to_string() })
    );
    let lone = ParseNode::branch(Rule::OpenScope, "x", 1, 1, vec![ParseNode::leaf(Rule::ScopeType, "task", 1, 1)]);
    assert_eq!(
        process_open_scope(&lone),
        Ok(VCDScope { name: "task".to_string(), scope_type: "task".to_string() })
    );
    let empty = ParseNode::branch(Rule::OpenScope, "x", 3, 4, vec![]);
    assert_eq!(
        process_open_scope(&empty),
        Err(ReductionError::TypeMismatch { expected: DataKind::String, found: DataKind::Nothing, line: 3, col: 4 })
    );
}

#[test]
fn scale_number_must_be_a_number_of_32_bits() {
    assert_eq!(
        process_scale(&scale("ten", "ns"), VCDFile::new()),
        Err(ReductionError::MalformedNumber { text: "ten".to_string(), line: 5, col: 9 })
    );
    assert_eq!(
        process_scale(&scale("4294967296", "ns"), VCDFile::new()),
        Err(ReductionError::MalformedNumber { text: "4294967296".to_string(), line: 5, col: 9 })
    );
}

#[test]
fn section_without_a_builder_is_an_error() {
    let tree = ParseNode::branch(
        Rule::VcdFile,
        "",
        1,
        1,
        vec![
            ParseNode::leaf(Rule::DateText, "today", 2, 1),
            ParseNode::leaf(Rule::Variable, "$var wire 1 ! clk $end", 7, 5),
            ParseNode::leaf(Rule::CommentText, "never read", 8, 1),
        ],
    );
    assert_eq!(
        process_vcd(&tree, VCDFile::new()),
        Err(ReductionError::UnknownRule { rule_name: "variable".to_string(), line: 7, col: 5 })
    );
}

#[test]
fn later_sections_overwrite_earlier_ones() {
    let tree = ParseNode::branch(
        Rule::VcdFile,
        "",
        1,
        1,
        vec![
            ParseNode::leaf(Rule::CommentText, "first", 2, 1),
            ParseNode::leaf(Rule::CommentText, "second", 3, 1),
        ],
    );
    let start = VCDFile { date: "d".to_string(), time_unit: "ps".to_string(), time_resolution: 100, comment: String::new() };
    assert_eq!(
        process_vcd(&tree, start),
        Ok(VCDFile { date: "d".to_string(), time_unit: "ps".to_string(), time_resolution: 100, comment: "second".to_string() })
    );
}

#[test]
fn test_parse_unit() {
    let input_str = "ns";
    let file = process_scale_unit(&ParseNode::leaf(Rule::ScaleUnit, input_str, 1, 1), VCDFile::new());
    assert_eq!(file.time_unit, "ns");
    assert_eq!((file.time_resolution, file.date.as_str(), file.comment.as_str()), (0, "", ""));
}

#[test]
fn test_parse_number() {
    let input_str = "10";
    let file = process_scale_number(&ParseNode::leaf(Rule::ScaleNumber, input_str, 1, 1), VCDFile::new());
    assert_eq!(file.map(|f| f.time_resolution), Ok(10));
}

#[test]
fn test_parse_date() {
    let input_str = "$date\n        Tue Aug 23 16:03:49 2022\n    $end";
    let date_text = input_str["$date".len()..input_str.len() - "$end".len()].trim();
    let file = process_date(&ParseNode::leaf(Rule::DateText, date_text, 2, 9), VCDFile::new());
    assert_eq!(file.date, "Tue Aug 23 16:03:49 2022");
    let file = process_comment(&ParseNode::leaf(Rule::CommentText, "Csum: 1", 3, 9), file);
    assert_eq!((file.date.as_str(), file.comment.as_str()), ("Tue Aug 23 16:03:49 2022", "Csum: 1"));
}
