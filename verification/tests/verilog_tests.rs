use eda_parsers::verilog_c_api::{
    rust_convert_raw_verilog_module, rust_convert_verilog_constant_expr, rust_convert_verilog_dcls,
    rust_convert_verilog_id, rust_convert_verilog_index_id, rust_convert_verilog_inst,
    rust_convert_verilog_net_concat_expr, rust_convert_verilog_net_id_expr,
    rust_convert_verilog_port_ref_port_connect, rust_is_bus_index_id, rust_is_bus_slice_id, rust_is_concat_expr,
    rust_is_constant, rust_is_id, rust_is_id_expr, rust_is_module_assign_stmt, rust_is_module_inst_stmt,
    rust_is_verilog_dcls_stmt, rust_vec_len, rust_vec_to_c_array,
};
use eda_parsers::verilog_data::{
    PortDirection, VerilogAssign, VerilogDcls, VerilogInst, VerilogModule, VerilogPort, VerilogPortRefPortConnect,
    VerilogVirtualBaseID, VerilogVirtualBaseNetExpr, VerilogVirtualBaseStmt,
};
use eda_parsers::verilog_parser::{find_module_index, flatten_module, FlattenError, VerilogFile};

fn plain(name: &str) -> VerilogVirtualBaseID {
    VerilogVirtualBaseID::Id { name: name.to_string() }
}

fn bit(name: &str, index: i32) -> VerilogVirtualBaseID {
    VerilogVirtualBaseID::BusIndex { name: name.to_string(), index }
}

fn net(name: &str) -> VerilogVirtualBaseNetExpr {
    VerilogVirtualBaseNetExpr::IdExpr { id: plain(name), line: 1 }
}

fn connect(port: &str, expr: Option<VerilogVirtualBaseNetExpr>) -> VerilogPortRefPortConnect {
    VerilogPortRefPortConnect { port_id: plain(port), net_expr: expr }
}

fn inst(name: &str, cell: &str, connections: Vec<VerilogPortRefPortConnect>) -> VerilogVirtualBaseStmt {
    VerilogVirtualBaseStmt::Inst(VerilogInst {
        inst_name: name.to_string(),
        cell_name: cell.to_string(),
        port_connections: connections,
        line: 10,
    })
}

fn wires(names: &[&str]) -> VerilogVirtualBaseStmt {
    VerilogVirtualBaseStmt::Dcls(VerilogDcls { declarations: names.iter().map(|n| plain(n)).collect(), line: 3 })
}

fn module(name: &str, ports: &[(&str, PortDirection)], stmts: Vec<VerilogVirtualBaseStmt>) -> VerilogModule {
    VerilogModule {
        module_name: name.to_string(),
        port_list: ports.iter().map(|(n, d)| VerilogPort { name: n.to_string(), direction: *d }).collect(),
        module_stmts: stmts,
        line: 1,
    }
}

fn two_level() -> VerilogFile {
    let sub = module(
        "sub",
        &[("a", PortDirection::Input), ("y", PortDirection::Output)],
        vec![
            wires(&["a", "y", "w"]),
            inst("u1", "INVX1", vec![connect("A", Some(net("a"))), connect("Y", Some(net("w")))]),
            inst("u2", "BUFX2", vec![connect("A", Some(net("w"))), connect("Y", Some(net("y")))]),
        ],
    );
    let top = module(
        "top",
        &[("in", PortDirection::Input), ("out", PortDirection::Output)],
        vec![
            wires(&["in", "out"]),
            inst("leaf_inst", "sub", vec![connect("a", Some(net("in"))), connect("y", Some(net("out")))]),
        ],
    );
    VerilogFile { verilog_modules: vec![sub, top] }
}

#[test]
fn flattening_a_flat_module_changes_nothing() {
    let flat = module(
        "top",
        &[("in", PortDirection::Input)],
        vec![
            wires(&["in", "n1"]),
            inst("u0", "NAND2", vec![connect("A", Some(net("in"))), connect("B", None)]),
            VerilogVirtualBaseStmt::Assign(VerilogAssign {
                left: net("n1"),
                right: VerilogVirtualBaseNetExpr::ConcatExpr { ids: vec![plain("in"), bit("bus", 2)], line: 5 },
                line: 5,
            }),
        ],
    );
    let other = module("unused", &[], vec![inst("x", "top", vec![])]);
    let file = VerilogFile { verilog_modules: vec![other, flat.clone()] };
    assert_eq!(flatten_module(&file, "top"), Ok(flat));
}

#[test]
fn flattening_two_levels_leaves_the_standard_cells() {
    let file = two_level();
    let flat = flatten_module(&file, "top").unwrap();
    assert_eq!(flat.module_name, "top");
    assert_eq!(flat.port_list, file.verilog_modules[1].port_list);
    assert_eq!(
        flat.module_stmts,
        vec![
            wires(&["in", "out"]),
            wires(&["leaf_inst/w"]),
            inst("leaf_inst/u1", "INVX1", vec![connect("A", Some(net("in"))), connect("Y", Some(net("leaf_inst/w")))]),
            inst("leaf_inst/u2", "BUFX2", vec![connect("A", Some(net("leaf_inst/w"))), connect("Y", Some(net("out")))]),
        ]
    );
    for stmt in &flat.module_stmts {
        if let VerilogVirtualBaseStmt::Inst(i) = stmt {
            assert!(find_module_index(&file.verilog_modules, &i.cell_name).is_none());
            assert!(i.inst_name.starts_with("leaf_inst/"));
        }
    }
}

#[test]
fn flattening_a_flattened_design_changes_nothing() {
    let mut file = two_level();
    let flat = flatten_module(&file, "top").unwrap();
    file.verilog_modules[1] = flat.clone();
    assert_eq!(flatten_module(&file, "top"), Ok(flat));
}

#[test]
fn repeated_instances_get_distinct_names() {
    let sub = module("sub", &[("a", PortDirection::Input)], vec![wires(&["w"]), inst("g", "INV", vec![connect("A", Some(net("a"))), connect("Y", Some(net("w")))])]);
    let top = module(
        "top",
        &[],
        vec![
            inst("i0", "sub", vec![connect("a", Some(net("x")))]),
            inst("i1", "sub", vec![connect("a", Some(net("x")))]),
        ],
    );
    let file = VerilogFile { verilog_modules: vec![top, sub] };
    let flat = flatten_module(&file, "top").unwrap();
    assert_eq!(
        flat.module_stmts,
        vec![
            wires(&["i0/w"]),
            inst("i0/g", "INV", vec![connect("A", Some(net("x"))), connect("Y", Some(net("i0/w")))]),
            wires(&["i1/w"]),
            inst("i1/g", "INV", vec![connect("A", Some(net("x"))), connect("Y", Some(net("i1/w")))]),
        ]
    );
}

#[test]
fn three_levels_chain_the_prefixes_and_the_connections() {
    let leaf = module("leaf", &[("p", PortDirection::Input)], vec![inst("c", "CELL", vec![connect("A", Some(net("p"))), connect("B", Some(net("local")))])]);
    let mid = module("mid", &[("q", PortDirection::Input)], vec![inst("l", "leaf", vec![connect("p", Some(net("q")))])]);
    let top = module("top", &[], vec![inst("m", "mid", vec![connect("q", Some(net("root")))])]);
    let file = VerilogFile { verilog_modules: vec![leaf, mid, top] };
    let flat = flatten_module(&file, "top").unwrap();
    assert_eq!(
        flat.module_stmts,
        vec![inst("m/l/c", "CELL", vec![connect("A", Some(net("root"))), connect("B", Some(net("m/l/local")))])]
    );
}

#[test]
fn bits_of_a_port_are_taken_from_the_connected_net() {
    let sub = module(
        "sub",
        &[("d", PortDirection::Input)],
        vec![inst(
            "g",
            "INV",
            vec![
                VerilogPortRefPortConnect {
                    port_id: plain("A"),
                    net_expr: Some(VerilogVirtualBaseNetExpr::IdExpr { id: bit("d", 3), line: 2 }),
                },
                VerilogPortRefPortConnect {
                    port_id: plain("B"),
                    net_expr: Some(VerilogVirtualBaseNetExpr::ConcatExpr { ids: vec![plain("d"), plain("k")], line: 2 }),
                },
                VerilogPortRefPortConnect {
                    port_id: plain("C"),
                    net_expr: Some(VerilogVirtualBaseNetExpr::ConstantExpr { id: plain("1'b0"), line: 2 }),
                },
            ],
        )],
    );
    let top = module("top", &[], vec![inst("s", "sub", vec![connect("d", Some(net("data")))])]);
    let file = VerilogFile { verilog_modules: vec![top, sub] };
    let flat = flatten_module(&file, "top").unwrap();
    assert_eq!(
        flat.module_stmts,
        vec![inst(
            "s/g",
            "INV",
            vec![
                VerilogPortRefPortConnect {
                    port_id: plain("A"),
                    net_expr: Some(VerilogVirtualBaseNetExpr::IdExpr { id: bit("data", 3), line: 2 }),
                },
                VerilogPortRefPortConnect {
                    port_id: plain("B"),
                    net_expr: Some(VerilogVirtualBaseNetExpr::ConcatExpr {
                        ids: vec![plain("data"), plain("s/k")],
                        line: 2
                    }),
                },
                VerilogPortRefPortConnect {
                    port_id: plain("C"),
                    net_expr: Some(VerilogVirtualBaseNetExpr::ConstantExpr { id: plain("1'b0"), line: 2 }),
                },
            ],
        )]
    );
}

#[test]
fn open_port_becomes_an_internal_net() {
    let sub = module("sub", &[("a", PortDirection::Input)], vec![wires(&["a"]), inst("g", "INV", vec![connect("A", Some(net("a")))])]);
    let top = module("top", &[], vec![inst("s", "sub", vec![connect("a", None)])]);
    let file = VerilogFile { verilog_modules: vec![top, sub] };
    let flat = flatten_module(&file, "top").unwrap();
    assert_eq!(
        flat.module_stmts,
        vec![wires(&["s/a"]), inst("s/g", "INV", vec![connect("A", Some(net("s/a")))])]
    );
}

#[test]
fn unknown_top_module_is_an_error() {
    assert_eq!(
        flatten_module(&two_level(), "missing"),
        Err(FlattenError::UnknownModule { name: "missing".to_string() })
    );
    assert_eq!(
        flatten_module(&VerilogFile { verilog_modules: vec![] }, "top"),
        Err(FlattenError::UnknownModule { name: "top".to_string() })
    );
}

#[test]
fn instantiation_cycle_is_an_error() {
    let a = module("a", &[], vec![inst("b0", "b", vec![])]);
    let b = module("b", &[], vec![inst("x", "LEAF", vec![]), inst("a0", "a", vec![])]);
    let file = VerilogFile { verilog_modules: vec![a, b] };
    assert_eq!(flatten_module(&file, "a"), Err(FlattenError::InstantiationCycle { module_chain: vec![0, 1, 0] }));
    assert_eq!(flatten_module(&file, "b"), Err(FlattenError::InstantiationCycle { module_chain: vec![1, 0, 1] }));
    let own = module("self", &[], vec![inst("s", "self", vec![])]);
    let file = VerilogFile { verilog_modules: vec![own] };
    assert_eq!(flatten_module(&file, "self"), Err(FlattenError::InstantiationCycle { module_chain: vec![0, 0] }));
}

#[test]
fn get_module_finds_the_first_of_a_name() {
    let file = two_level();
    assert_eq!(file.get_module("top").map(|m| m.module_stmts.len()), Some(2));
    assert_eq!(file.get_module("sub").map(|m| m.port_list.len()), Some(2));
    assert!(file.get_module("nope").is_none());
}

#[test]
fn identifier_queries() {
    let ids = [plain("a"), bit("b", 1), VerilogVirtualBaseID::BusSlice { name: "c".to_string(), range_max: 7, range_base: 0 }];
    let answers: Vec<(bool, bool, bool)> =
        ids.iter().map(|i| (rust_is_id(i), rust_is_bus_index_id(i), rust_is_bus_slice_id(i))).collect();
    assert_eq!(answers, vec![(true, false, false), (false, true, false), (false, false, true)]);
    assert_eq!(rust_convert_verilog_id(&ids[0]).id, "a");
    assert_eq!(rust_convert_verilog_index_id(&ids[1]).id, "b");
}

#[test]
fn net_expression_queries_and_records() {
    let id_expr = VerilogVirtualBaseNetExpr::IdExpr { id: bit("n", 4), line: 11 };
    let concat = VerilogVirtualBaseNetExpr::ConcatExpr { ids: vec![plain("a"), plain("b"), plain("c")], line: 12 };
    let constant = VerilogVirtualBaseNetExpr::ConstantExpr { id: plain("1'b1"), line: 13 };
    let answers: Vec<(bool, bool, bool)> = [&id_expr, &concat, &constant]
        .iter()
        .map(|e| (rust_is_id_expr(e), rust_is_concat_expr(e), rust_is_constant(e)))
        .collect();
    assert_eq!(answers, vec![(true, false, false), (false, true, false), (false, false, true)]);
    let r = rust_convert_verilog_net_id_expr(&id_expr);
    assert_eq!((r.line_no, r.verilog_id), (11, bit("n", 4)));
    let r = rust_convert_verilog_net_concat_expr(&concat);
    assert_eq!((r.line_no, rust_vec_len(&r.verilog_id_concat)), (12, 3));
    assert!(r.verilog_id_concat.cap >= 3);
    assert_eq!(r.verilog_id_concat.type_size, std::mem::size_of::<VerilogVirtualBaseID>());
    let r = rust_convert_verilog_constant_expr(&constant);
    assert_eq!((r.line_no, r.verilog_id), (13, plain("1'b1")));
}

#[test]
fn statement_queries_and_records() {
    let file = two_level();
    let top = &file.verilog_modules[1];
    let dcls = &top.module_stmts[0];
    let instance = &top.module_stmts[1];
    let assign = VerilogVirtualBaseStmt::Assign(VerilogAssign { left: net("a"), right: net("b"), line: 2 });
    assert!(rust_is_verilog_dcls_stmt(dcls) && !rust_is_module_inst_stmt(dcls) && !rust_is_module_assign_stmt(dcls));
    assert!(rust_is_module_inst_stmt(instance) && !rust_is_verilog_dcls_stmt(instance));
    assert!(rust_is_module_assign_stmt(&assign) && !rust_is_module_inst_stmt(&assign));
    let r = rust_convert_verilog_dcls(dcls);
    assert_eq!((r.line_no, r.verilog_dcls.len), (3, 2));
    let r = rust_convert_verilog_inst(instance);
    assert_eq!((r.line_no, r.inst_name.as_str(), r.cell_name.as_str(), r.port_connections.len), (10, "leaf_inst", "sub", 2));
    let r = rust_convert_raw_verilog_module(top);
    assert_eq!((r.line_no, r.module_name.as_str(), r.port_list.len, r.module_stmts.len), (1, "top", 2, 2));
    let open = connect("p", None);
    let r = rust_convert_verilog_port_ref_port_connect(&open);
    assert_eq!((r.port_id, r.net_expr), (plain("p"), None));
    let closed = connect("p", Some(net("n")));
    let r = rust_convert_verilog_port_ref_port_connect(&closed);
    assert_eq!(r.net_expr, Some(net("n")));
}

#[test]
fn described_sequence() {
    let mut v: Vec<u64> = Vec::with_capacity(8);
    v.push(1);
    v.push(2);
    let d = rust_vec_to_c_array(&v);
    assert_eq!(d.len, 2);
    assert!(d.cap >= 8);
    assert_eq!(d.type_size, 8);
    assert_eq!(rust_vec_len(&d), 2);
}
