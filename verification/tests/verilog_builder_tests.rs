use eda_parsers::error::{DataKind, GrammarSyntaxError, ParseError, ParseOutcome, ReductionError};
use eda_parsers::parse_tree::ParseNode;
use eda_parsers::verilog_builder::{
    parse_verilog_file, process_bus_index, process_bus_slice, process_number, process_pair, reduce_onto, Rule,
    VerilogParserData,
};
use eda_parsers::verilog_data::{
    PortDirection, VerilogAssign, VerilogDcls, VerilogInst, VerilogModule, VerilogPort, VerilogPortRefPortConnect,
    VerilogVirtualBaseID, VerilogVirtualBaseNetExpr, VerilogVirtualBaseStmt,
};
use eda_parsers::verilog_parser::{find_inst_stmt, flatten_module, VerilogFile};
use std::collections::VecDeque;

fn id(name: &str, line: usize) -> ParseNode<Rule> {
    ParseNode::leaf(Rule::Id, name, line, 1)
}

fn number(text: &str, line: usize) -> ParseNode<Rule> {
    ParseNode::leaf(Rule::Number, text, line, 1)
}

fn node(rule: Rule, line: usize, children: Vec<ParseNode<Rule>>) -> ParseNode<Rule> {
    ParseNode::branch(rule, "", line, 1, children)
}

fn connection(port: &str, net: Option<ParseNode<Rule>>, line: usize) -> ParseNode<Rule> {
    let mut children = vec![id(port, line)];
    children.extend(net);
    node(Rule::PortConnection, line, children)
}

fn plain(name: &str) -> VerilogVirtualBaseID {
    VerilogVirtualBaseID::Id { name: name.to_string() }
}

fn net(name: &str, line: usize) -> VerilogVirtualBaseNetExpr {
    VerilogVirtualBaseNetExpr::IdExpr { id: plain(name), line }
}

// module inv2(a, y); input a; output y; wire w; INV u1(.A(a), .Y(w)); INV u2(.A(w), .Y(y)); endmodule
// module top(in, out); input in; output out; inv2 leaf_inst(.a(in), .y(out)); endmodule
fn netlist() -> ParseNode<Rule> {
    let inv2 = node(
        Rule::ModuleDeclaration,
        1,
        vec![
            id("inv2", 1),
            node(Rule::InputDeclaration, 2, vec![id("a", 2)]),
            node(Rule::OutputDeclaration, 3, vec![id("y", 3)]),
            node(Rule::WireDeclaration, 4, vec![id("w", 4)]),
            node(
                Rule::InstDeclaration,
                5,
                vec![id("INV", 5), id("u1", 5), connection("A", Some(id("a", 5)), 5), connection("Y", Some(id("w", 5)), 5)],
            ),
            node(
                Rule::InstDeclaration,
                6,
                vec![id("INV", 6), id("u2", 6), connection("A", Some(id("w", 6)), 6), connection("Y", Some(id("y", 6)), 6)],
            ),
        ],
    );
    let top = node(
        Rule::ModuleDeclaration,
        9,
        vec![
            id("top", 9),
            node(Rule::InputDeclaration, 10, vec![id("in", 10)]),
            node(Rule::OutputDeclaration, 11, vec![id("out", 11)]),
            node(
                Rule::InstDeclaration,
                12,
                vec![
                    id("inv2", 12),
                    id("leaf_inst", 12),
                    connection("a", Some(id("in", 12)), 12),
                    connection("y", Some(id("out", 12)), 12),
                ],
            ),
        ],
    );
    node(Rule::VerilogFile, 1, vec![inv2, top])
}

fn inst(name: &str, cell: &str, line: usize, connections: Vec<(&str, &str)>) -> VerilogVirtualBaseStmt {
    VerilogVirtualBaseStmt::Inst(VerilogInst {
        inst_name: name.to_string(),
        cell_name: cell.to_string(),
        port_connections: connections
            .into_iter()
            .map(|(p, n)| VerilogPortRefPortConnect { port_id: plain(p), net_expr: Some(net(n, line)) })
            .collect(),
        line,
    })
}

#[test]
fn netlist_is_built_from_its_tree() {
    let file = parse_verilog_file(&ParseOutcome::Tree(netlist())).unwrap();
    assert_eq!(file.verilog_modules.len(), 2);
    assert_eq!(
        file.verilog_modules[0],
        VerilogModule {
            module_name: "inv2".to_string(),
            port_list: vec![
                VerilogPort { name: "a".to_string(), direction: PortDirection::Input },
                VerilogPort { name: "y".to_string(), direction: PortDirection::Output },
            ],
            module_stmts: vec![
                VerilogVirtualBaseStmt::Dcls(VerilogDcls { declarations: vec![plain("w")], line: 4 }),
                inst("u1", "INV", 5, vec![("A", "a"), ("Y", "w")]),
                inst("u2", "INV", 6, vec![("A", "w"), ("Y", "y")]),
            ],
            line: 1,
        }
    );
    assert_eq!(file.verilog_modules[1].module_name, "top");
    assert_eq!(file.verilog_modules[1].module_stmts, vec![inst("leaf_inst", "inv2", 12, vec![("a", "in"), ("y", "out")])]);
}

#[test]
fn built_netlist_flattens_to_its_standard_cells() {
    let file = parse_verilog_file(&ParseOutcome::Tree(netlist())).unwrap();
    let flat = flatten_module(&file, "top").unwrap();
    // A connected port becomes the net expression of the call site, which keeps its own line.
    let wired = |name: &str, line: usize, a: (&str, usize), y: (&str, usize)| {
        VerilogVirtualBaseStmt::Inst(VerilogInst {
            inst_name: name.to_string(),
            cell_name: "INV".to_string(),
            port_connections: vec![
                VerilogPortRefPortConnect { port_id: plain("A"), net_expr: Some(net(a.0, a.1)) },
                VerilogPortRefPortConnect { port_id: plain("Y"), net_expr: Some(net(y.0, y.1)) },
            ],
            line,
        })
    };
    assert_eq!(
        flat.module_stmts,
        vec![
            VerilogVirtualBaseStmt::Dcls(VerilogDcls { declarations: vec![plain("leaf_inst/w")], line: 4 }),
            wired("leaf_inst/u1", 5, ("in", 12), ("leaf_inst/w", 5)),
            wired("leaf_inst/u2", 6, ("leaf_inst/w", 6), ("out", 12)),
        ]
    );
    assert_eq!(find_inst_stmt(&flat, "leaf_inst/u2", "INV").map(|i| i.line), Some(6));
    assert!(find_inst_stmt(&flat, "leaf_inst/u2", "BUF").is_none());
    assert!(find_inst_stmt(&flat, "leaf_inst", "inv2").is_none());
}

#[test]
fn bus_references_and_expressions() {
    let tree = node(
        Rule::AssignDeclaration,
        3,
        vec![
            node(Rule::BusIndexId, 3, vec![id("q", 3), number("7", 3)]),
            node(
                Rule::ConcatExpr,
                3,
                vec![id("a", 3), node(Rule::BusSliceId, 3, vec![id("d", 3), number("15", 3), number("8", 3)])],
            ),
        ],
    );
    let mut queue = VecDeque::new();
    assert_eq!(
        process_pair(&tree, &mut queue),
        Ok(VerilogParserData::Stmt(VerilogVirtualBaseStmt::Assign(VerilogAssign {
            left: VerilogVirtualBaseNetExpr::IdExpr {
                id: VerilogVirtualBaseID::BusIndex { name: "q".to_string(), index: 7 },
                line: 3
            },
            right: VerilogVirtualBaseNetExpr::ConcatExpr {
                ids: vec![
                    plain("a"),
                    VerilogVirtualBaseID::BusSlice { name: "d".to_string(), range_max: 15, range_base: 8 }
                ],
                line: 3
            },
            line: 3,
        })))
    );
    assert_eq!(queue.len(), 0);
}

#[test]
fn open_port_and_constant() {
    let open = connection("QN", None, 4);
    let mut queue = VecDeque::new();
    assert_eq!(
        process_pair(&open, &mut queue),
        Ok(VerilogParserData::PortConnect(VerilogPortRefPortConnect { port_id: plain("QN"), net_expr: None }))
    );
    let tied = connection("D", Some(ParseNode::leaf(Rule::Constant, "1'b0", 4, 9)), 4);
    assert_eq!(
        process_pair(&tied, &mut queue),
        Ok(VerilogParserData::PortConnect(VerilogPortRefPortConnect {
            port_id: plain("D"),
            net_expr: Some(VerilogVirtualBaseNetExpr::ConstantExpr { id: plain("1'b0"), line: 4 }),
        }))
    );
}

#[test]
fn numbers_of_a_netlist() {
    assert_eq!(process_number(&number("31", 1)), Ok(VerilogParserData::Number(31)));
    assert_eq!(process_number(&number("2147483647", 1)), Ok(VerilogParserData::Number(2147483647)));
    assert_eq!(
        process_number(&number("2147483648", 2)),
        Err(ReductionError::MalformedNumber { text: "2147483648".to_string(), line: 2, col: 1 })
    );
    assert_eq!(
        process_number(&number("x", 2)),
        Err(ReductionError::MalformedNumber { text: "x".to_string(), line: 2, col: 1 })
    );
}

#[test]
fn netlist_builders_report_what_they_found() {
    let here = node(Rule::BusIndexId, 8, vec![]);
    let mut queue = VecDeque::new();
    queue.push_back(VerilogParserData::Id(plain("a")));
    queue.push_back(VerilogParserData::Id(plain("b")));
    assert_eq!(
        process_bus_index(&here, queue),
        Err(ReductionError::TypeMismatch { expected: DataKind::Number, found: DataKind::Identifier, line: 8, col: 1 })
    );
    let mut queue = VecDeque::new();
    queue.push_back(VerilogParserData::Id(plain("a")));
    queue.push_back(VerilogParserData::Number(3));
    assert_eq!(
        process_bus_slice(&here, queue),
        Err(ReductionError::TypeMismatch { expected: DataKind::Number, found: DataKind::Nothing, line: 8, col: 1 })
    );
    let bad_module = node(Rule::ModuleDeclaration, 2, vec![id("m", 2), number("3", 3)]);
    let mut queue = VecDeque::new();
    assert_eq!(
        process_pair(&bad_module, &mut queue),
        Err(ReductionError::TypeMismatch {
            expected: DataKind::ModuleStatement,
            found: DataKind::Number,
            line: 2,
            col: 1
        })
    );
    let bad_inst = node(Rule::InstDeclaration, 5, vec![id("INV", 5), id("u", 5), id("stray", 5)]);
    assert_eq!(
        process_pair(&bad_inst, &mut queue),
        Err(ReductionError::TypeMismatch {
            expected: DataKind::PortConnection,
            found: DataKind::Identifier,
            line: 5,
            col: 1
        })
    );
    let bad_wire = node(Rule::WireDeclaration, 6, vec![id("w", 6), number("1", 6)]);
    assert_eq!(
        process_pair(&bad_wire, &mut queue),
        Err(ReductionError::TypeMismatch { expected: DataKind::Identifier, found: DataKind::Number, line: 6, col: 1 })
    );
    let bad_file = node(Rule::VerilogFile, 1, vec![id("m", 1)]);
    assert_eq!(
        process_pair(&bad_file, &mut queue),
        Err(ReductionError::TypeMismatch { expected: DataKind::Module, found: DataKind::Identifier, line: 1, col: 1 })
    );
    assert_eq!(queue.len(), 0);
}

#[test]
fn netlist_outcomes_without_a_file() {
    assert_eq!(parse_verilog_file(&ParseOutcome::NoContent), Err(ParseError::IoError));
    let err = GrammarSyntaxError { line: 3, col: 1, message: "expected endmodule".to_string() };
    assert_eq!(
        parse_verilog_file(&ParseOutcome::SyntaxError(err.clone())),
        Err(ParseError::GrammarSyntaxError(err))
    );
    assert_eq!(
        parse_verilog_file(&ParseOutcome::Tree(id("x", 4))),
        Err(ParseError::Reduction(ReductionError::TypeMismatch {
            expected: DataKind::File,
            found: DataKind::Identifier,
            line: 4,
            col: 1
        }))
    );
    assert_eq!(
        parse_verilog_file(&ParseOutcome::Tree(ParseNode::leaf(Rule::Comment, "// c", 2, 3))),
        Err(ParseError::Reduction(ReductionError::UnknownRule { rule_name: "COMMENT".to_string(), line: 2, col: 3 }))
    );
    assert_eq!(
        parse_verilog_file(&ParseOutcome::Tree(node(Rule::VerilogFile, 1, vec![]))),
        Ok(VerilogFile { verilog_modules: vec![] })
    );
}

#[test]
fn reducing_a_netlist_node_adds_exactly_one_value() {
    let mut queue = VecDeque::new();
    queue.push_back(VerilogParserData::Number(0));
    assert_eq!(reduce_onto(&netlist(), &mut queue), Ok(()));
    assert_eq!(reduce_onto(&id("n", 1), &mut queue), Ok(()));
    assert_eq!(queue.len(), 3);
    assert_eq!(queue[0], VerilogParserData::Number(0));
    assert_eq!(queue[2], VerilogParserData::Id(plain("n")));
    assert!(reduce_onto(&number("9999999999", 1), &mut queue).is_err());
    assert_eq!(queue.len(), 3);
}
