use std::collections::VecDeque;
use vstd::prelude::*;
use crate::error::{DataKind, ParseError, ParseErrorView, ParseOutcome, ReductionError, ReductionErrorView};
use crate::parse_tree::ParseNode;
use crate::reduction::{all_ok, collect, is_first_err, lemma_collect_first_err, oks};
use crate::text::{parse_u32, parse_u32_spec};
use crate::verilog_data::{
    connects_view, ids_view, modules_view, name_of, ports_view, stmts_view, ModuleView, NetExprView,
    PortConnectView, PortDirection, PortView, StmtView, VerilogAssign, VerilogDcls, VerilogIdView, VerilogInst,
    VerilogModule, VerilogPort, VerilogPortRefPortConnect, VerilogVirtualBaseID, VerilogVirtualBaseNetExpr,
    VerilogVirtualBaseStmt,
};
use crate::verilog_parser::VerilogFile;

verus! {

/// The rules of the netlist grammar.
#[derive(Debug, Clone, Copy, PartialEq, Eq)]
pub enum Rule {
    VerilogFile,
    ModuleDeclaration,
    InputDeclaration,
    OutputDeclaration,
    InoutDeclaration,
    WireDeclaration,
    InstDeclaration,
    AssignDeclaration,
    PortConnection,
    ConcatExpr,
    Constant,
    Id,
    BusIndexId,
    BusSliceId,
    Number,
    Comment,
}

/// The name of a rule, as the grammar writes it.
pub open spec fn rule_name(rule: Rule) -> Seq<char> {
    match rule {
        Rule::VerilogFile => "verilog_file"@,
        Rule::ModuleDeclaration => "module_declaration"@,
        Rule::InputDeclaration => "input_declaration"@,
        Rule::OutputDeclaration => "output_declaration"@,
        Rule::InoutDeclaration => "inout_declaration"@,
        Rule::WireDeclaration => "wire_declaration"@,
        Rule::InstDeclaration => "inst_declaration"@,
        Rule::AssignDeclaration => "assign_declaration"@,
        Rule::PortConnection => "port_connection"@,
        Rule::ConcatExpr => "concat_expr"@,
        Rule::Constant => "constant"@,
        Rule::Id => "id"@,
        Rule::BusIndexId => "bus_index_id"@,
        Rule::BusSliceId => "bus_slice_id"@,
        Rule::Number => "number"@,
        Rule::Comment => "COMMENT"@,
    }
}

impl Rule {
    /// The name of the rule, as the grammar writes it.
    pub fn name(&self) -> (r: &'static str)
        ensures
            r@ == rule_name(*self),
    {
        match self {
            Rule::VerilogFile => "verilog_file",
            Rule::ModuleDeclaration => "module_declaration",
            Rule::InputDeclaration => "input_declaration",
            Rule::OutputDeclaration => "output_declaration",
            Rule::InoutDeclaration => "inout_declaration",
            Rule::WireDeclaration => "wire_declaration",
            Rule::InstDeclaration => "inst_declaration",
            Rule::AssignDeclaration => "assign_declaration",
            Rule::PortConnection => "port_connection",
            Rule::ConcatExpr => "concat_expr",
            Rule::Constant => "constant",
            Rule::Id => "id",
            Rule::BusIndexId => "bus_index_id",
            Rule::BusSliceId => "bus_slice_id",
            Rule::Number => "number",
            Rule::Comment => "COMMENT",
        }
    }
}

/// Mathematical value of a reduced node of a netlist.
pub enum VerilogParserDataView {
    Id(VerilogIdView),
    Number(int),
    NetExpr(NetExprView),
    PortConnect(PortConnectView),
    Ports(Seq<PortView>),
    Stmt(StmtView),
    Module(ModuleView),
    File(Seq<ModuleView>),
}

/// What the reduction of one node of a netlist yields.
#[derive(Debug, PartialEq, Eq)]
pub enum VerilogParserData {
    Id(VerilogVirtualBaseID),
    Number(i32),
    NetExpr(VerilogVirtualBaseNetExpr),
    PortConnect(VerilogPortRefPortConnect),
    Ports(Vec<VerilogPort>),
    Stmt(VerilogVirtualBaseStmt),
    Module(VerilogModule),
    File(VerilogFile),
}

impl View for VerilogParserData {
    type V = VerilogParserDataView;

    open spec fn view(&self) -> VerilogParserDataView {
        match self {
            VerilogParserData::Id(id) => VerilogParserDataView::Id(id@),
            VerilogParserData::Number(n) => VerilogParserDataView::Number(*n as int),
            VerilogParserData::NetExpr(e) => VerilogParserDataView::NetExpr(e@),
            VerilogParserData::PortConnect(c) => VerilogParserDataView::PortConnect(c@),
            VerilogParserData::Ports(ps) => VerilogParserDataView::Ports(ports_view(ps@)),
            VerilogParserData::Stmt(s) => VerilogParserDataView::Stmt(s@),
            VerilogParserData::Module(m) => VerilogParserDataView::Module(m@),
            VerilogParserData::File(f) => VerilogParserDataView::File(modules_view(f.verilog_modules@)),
        }
    }
}

/// The outcome of a reduction, as a mathematical value.
pub type Reduced = Result<VerilogParserDataView, ReductionErrorView>;

/// The views of a buffer of reduced values, in order.
pub open spec fn data_views(items: Seq<VerilogParserData>) -> Seq<VerilogParserDataView> {
    Seq::new(items.len(), |i: int| items[i]@)
}

/// The view of the outcome of a reduction.
pub open spec fn result_view(r: Result<VerilogParserData, ReductionError>) -> Reduced {
    match r {
        Ok(d) => Ok(d@),
        Err(e) => Err(e@),
    }
}

/// The kind of a reduced value.
pub open spec fn kind_of(d: VerilogParserDataView) -> DataKind {
    match d {
        VerilogParserDataView::Id(_) => DataKind::Identifier,
        VerilogParserDataView::Number(_) => DataKind::Number,
        VerilogParserDataView::NetExpr(_) => DataKind::NetExpr,
        VerilogParserDataView::PortConnect(_) => DataKind::PortConnection,
        VerilogParserDataView::Ports(_) => DataKind::PortList,
        VerilogParserDataView::Stmt(_) => DataKind::ModuleStatement,
        VerilogParserDataView::Module(_) => DataKind::Module,
        VerilogParserDataView::File(_) => DataKind::File,
    }
}

/// The kind of the item at place `i` of a buffer, `Nothing` past its end.
pub open spec fn kind_at(items: Seq<VerilogParserDataView>, i: int) -> DataKind {
    if 0 <= i < items.len() {
        kind_of(items[i])
    } else {
        DataKind::Nothing
    }
}

/// The failure of a builder that expected one kind and found another.
pub open spec fn mismatch<T>(expected: DataKind, found: DataKind, line: nat, col: nat) -> Result<
    T,
    ReductionErrorView,
> {
    Err(ReductionErrorView::TypeMismatch { expected, found, line, col })
}

/// A number of a netlist: decimal digits whose value fits in 31 bits.
pub open spec fn number_spec(text: Seq<char>, line: nat, col: nat) -> Reduced {
    match parse_u32_spec(text) {
        Some(n) => if n <= i32::MAX {
            Ok(VerilogParserDataView::Number(n as int))
        } else {
            Err(ReductionErrorView::MalformedNumber { text, line, col })
        },
        None => Err(ReductionErrorView::MalformedNumber { text, line, col }),
    }
}

/// One bit of a bus, from the name of the bus and the number of the bit.
pub open spec fn bus_index_spec(items: Seq<VerilogParserDataView>, line: nat, col: nat) -> Reduced {
    if !(items.len() > 0 && items[0] is Id) {
        mismatch(DataKind::Identifier, kind_at(items, 0), line, col)
    } else if !(items.len() > 1 && items[1] is Number) {
        mismatch(DataKind::Number, kind_at(items, 1), line, col)
    } else {
        Ok(
            VerilogParserDataView::Id(
                VerilogIdView::BusIndex { name: name_of(items[0]->Id_0), index: items[1]->Number_0 },
            ),
        )
    }
}

/// A range of bits of a bus, from the name of the bus and the two ends of the
/// range.
pub open spec fn bus_slice_spec(items: Seq<VerilogParserDataView>, line: nat, col: nat) -> Reduced {
    if !(items.len() > 0 && items[0] is Id) {
        mismatch(DataKind::Identifier, kind_at(items, 0), line, col)
    } else if !(items.len() > 1 && items[1] is Number) {
        mismatch(DataKind::Number, kind_at(items, 1), line, col)
    } else if !(items.len() > 2 && items[2] is Number) {
        mismatch(DataKind::Number, kind_at(items, 2), line, col)
    } else {
        Ok(
            VerilogParserDataView::Id(
                VerilogIdView::BusSlice {
                    name: name_of(items[0]->Id_0),
                    range_max: items[1]->Number_0,
                    range_base: items[2]->Number_0,
                },
            ),
        )
    }
}

/// The identifiers that the first `n` items are; a failure if one of them is
/// no identifier.
pub open spec fn ids_chain(items: Seq<VerilogParserDataView>, n: nat, line: nat, col: nat) -> Result<
    Seq<VerilogIdView>,
    ReductionErrorView,
>
    decreases n,
{
    if n == 0 || n > items.len() {
        Ok(Seq::empty())
    } else {
        match ids_chain(items, (n - 1) as nat, line, col) {
            Err(e) => Err(e),
            Ok(ids) => if items[n - 1] is Id {
                Ok(ids.push(items[n - 1]->Id_0))
            } else {
                mismatch(DataKind::Identifier, kind_of(items[n - 1]), line, col)
            },
        }
    }
}

/// The item at place `i` of a buffer, if there is one.
pub open spec fn item_at(items: Seq<VerilogParserDataView>, i: int) -> Option<VerilogParserDataView> {
    if 0 <= i < items.len() {
        Some(items[i])
    } else {
        None
    }
}

/// The net expression that an item stands for: itself, or the reference to
/// the net that an identifier names.
pub open spec fn net_expr_of(item: Option<VerilogParserDataView>, line: nat, col: nat) -> Result<
    NetExprView,
    ReductionErrorView,
> {
    match item {
        Some(VerilogParserDataView::Id(id)) => Ok(NetExprView::IdExpr { id, line }),
        Some(VerilogParserDataView::NetExpr(e)) => Ok(e),
        Some(other) => mismatch(DataKind::NetExpr, kind_of(other), line, col),
        None => mismatch(DataKind::NetExpr, DataKind::Nothing, line, col),
    }
}

/// The net expression that the item at place `i` stands for.
pub open spec fn as_net_expr(items: Seq<VerilogParserDataView>, i: int, line: nat, col: nat) -> Result<
    NetExprView,
    ReductionErrorView,
> {
    net_expr_of(item_at(items, i), line, col)
}

/// A port connection, from the port and, unless the port is left open, what
/// it is connected to.
pub open spec fn port_connection_spec(items: Seq<VerilogParserDataView>, line: nat, col: nat) -> Reduced {
    if !(items.len() > 0 && items[0] is Id) {
        mismatch(DataKind::Identifier, kind_at(items, 0), line, col)
    } else if items.len() == 1 {
        Ok(VerilogParserDataView::PortConnect(PortConnectView { port_id: items[0]->Id_0, net_expr: None }))
    } else {
        match as_net_expr(items, 1, line, col) {
            Ok(e) => Ok(
                VerilogParserDataView::PortConnect(PortConnectView { port_id: items[0]->Id_0, net_expr: Some(e) }),
            ),
            Err(e) => Err(e),
        }
    }
}

/// Nets side by side.
pub open spec fn concat_spec(items: Seq<VerilogParserDataView>, line: nat, col: nat) -> Reduced {
    match ids_chain(items, items.len(), line, col) {
        Ok(ids) => Ok(VerilogParserDataView::NetExpr(NetExprView::ConcatExpr { ids, line })),
        Err(e) => Err(e),
    }
}

/// Declarations of nets.
pub open spec fn wire_spec(items: Seq<VerilogParserDataView>, line: nat, col: nat) -> Reduced {
    match ids_chain(items, items.len(), line, col) {
        Ok(ids) => Ok(VerilogParserDataView::Stmt(StmtView::Dcls { declarations: ids, line })),
        Err(e) => Err(e),
    }
}

/// The ports of one direction that identifiers declare.
pub open spec fn ports_of(ids: Seq<VerilogIdView>, direction: PortDirection) -> Seq<PortView> {
    Seq::new(ids.len(), |i: int| PortView { name: name_of(ids[i]), direction })
}

/// Declarations of ports of one direction.
pub open spec fn ports_spec(items: Seq<VerilogParserDataView>, direction: PortDirection, line: nat, col: nat) -> Reduced {
    match ids_chain(items, items.len(), line, col) {
        Ok(ids) => Ok(VerilogParserDataView::Ports(ports_of(ids, direction))),
        Err(e) => Err(e),
    }
}

/// A continuous assignment, from its two sides.
pub open spec fn assign_spec(items: Seq<VerilogParserDataView>, line: nat, col: nat) -> Reduced {
    match as_net_expr(items, 0, line, col) {
        Err(e) => Err(e),
        Ok(left) => match as_net_expr(items, 1, line, col) {
            Err(e) => Err(e),
            Ok(right) => Ok(VerilogParserDataView::Stmt(StmtView::Assign { left, right, line })),
        },
    }
}

/// The port connections that the items from place 2 to place `n` are.
pub open spec fn connects_chain(items: Seq<VerilogParserDataView>, n: nat, line: nat, col: nat) -> Result<
    Seq<PortConnectView>,
    ReductionErrorView,
>
    decreases n,
{
    if n <= 2 || n > items.len() {
        Ok(Seq::empty())
    } else {
        match connects_chain(items, (n - 1) as nat, line, col) {
            Err(e) => Err(e),
            Ok(cs) => if items[n - 1] is PortConnect {
                Ok(cs.push(items[n - 1]->PortConnect_0))
            } else {
                mismatch(DataKind::PortConnection, kind_of(items[n - 1]), line, col)
            },
        }
    }
}

/// An instance, from the name of its cell, its own name and its port
/// connections.
pub open spec fn inst_spec(items: Seq<VerilogParserDataView>, line: nat, col: nat) -> Reduced {
    if !(items.len() > 0 && items[0] is Id) {
        mismatch(DataKind::Identifier, kind_at(items, 0), line, col)
    } else if !(items.len() > 1 && items[1] is Id) {
        mismatch(DataKind::Identifier, kind_at(items, 1), line, col)
    } else {
        match connects_chain(items, items.len(), line, col) {
            Ok(cs) => Ok(
                VerilogParserDataView::Stmt(
                    StmtView::Inst {
                        inst_name: name_of(items[1]->Id_0),
                        cell_name: name_of(items[0]->Id_0),
                        port_connections: cs,
                        line,
                    },
                ),
            ),
            Err(e) => Err(e),
        }
    }
}

/// The ports and the statements that the items from place 1 to place `n`
/// give: the ports of all declarations of ports, and the statements, each in
/// their order.
pub open spec fn module_parts(items: Seq<VerilogParserDataView>, n: nat, line: nat, col: nat) -> Result<
    (Seq<PortView>, Seq<StmtView>),
    ReductionErrorView,
>
    decreases n,
{
    if n <= 1 || n > items.len() {
        Ok((Seq::empty(), Seq::empty()))
    } else {
        match module_parts(items, (n - 1) as nat, line, col) {
            Err(e) => Err(e),
            Ok(parts) => match items[n - 1] {
                VerilogParserDataView::Ports(ps) => Ok((parts.0 + ps, parts.1)),
                VerilogParserDataView::Stmt(s) => Ok((parts.0, parts.1.push(s))),
                other => mismatch(DataKind::ModuleStatement, kind_of(other), line, col),
            },
        }
    }
}

/// A module, from its name, its declarations of ports and its statements.
pub open spec fn module_spec(items: Seq<VerilogParserDataView>, line: nat, col: nat) -> Reduced {
    if !(items.len() > 0 && items[0] is Id) {
        mismatch(DataKind::Identifier, kind_at(items, 0), line, col)
    } else {
        match module_parts(items, items.len(), line, col) {
            Ok(parts) => Ok(
                VerilogParserDataView::Module(
                    ModuleView {
                        module_name: name_of(items[0]->Id_0),
                        port_list: parts.0,
                        module_stmts: parts.1,
                        line,
                    },
                ),
            ),
            Err(e) => Err(e),
        }
    }
}

/// The modules that the first `n` items are.
pub open spec fn modules_chain(items: Seq<VerilogParserDataView>, n: nat, line: nat, col: nat) -> Result<
    Seq<ModuleView>,
    ReductionErrorView,
>
    decreases n,
{
    if n == 0 || n > items.len() {
        Ok(Seq::empty())
    } else {
        match modules_chain(items, (n - 1) as nat, line, col) {
            Err(e) => Err(e),
            Ok(ms) => if items[n - 1] is Module {
                Ok(ms.push(items[n - 1]->Module_0))
            } else {
                mismatch(DataKind::Module, kind_of(items[n - 1]), line, col)
            },
        }
    }
}

/// A netlist file, from its modules.
pub open spec fn file_spec(items: Seq<VerilogParserDataView>, line: nat, col: nat) -> Reduced {
    match modules_chain(items, items.len(), line, col) {
        Ok(ms) => Ok(VerilogParserDataView::File(ms)),
        Err(e) => Err(e),
    }
}

/// What the builder of `rule` makes of a node's text and of its reduced
/// children.
pub open spec fn build_spec(
    rule: Rule,
    text: Seq<char>,
    line: nat,
    col: nat,
    items: Seq<VerilogParserDataView>,
) -> Reduced {
    match rule {
        Rule::Id => Ok(VerilogParserDataView::Id(VerilogIdView::Id { name: text })),
        Rule::Number => number_spec(text, line, col),
        Rule::BusIndexId => bus_index_spec(items, line, col),
        Rule::BusSliceId => bus_slice_spec(items, line, col),
        Rule::Constant => Ok(
            VerilogParserDataView::NetExpr(NetExprView::ConstantExpr { id: VerilogIdView::Id { name: text }, line }),
        ),
        Rule::ConcatExpr => concat_spec(items, line, col),
        Rule::PortConnection => port_connection_spec(items, line, col),
        Rule::WireDeclaration => wire_spec(items, line, col),
        Rule::InputDeclaration => ports_spec(items, PortDirection::Input, line, col),
        Rule::OutputDeclaration => ports_spec(items, PortDirection::Output, line, col),
        Rule::InoutDeclaration => ports_spec(items, PortDirection::Inout, line, col),
        Rule::AssignDeclaration => assign_spec(items, line, col),
        Rule::InstDeclaration => inst_spec(items, line, col),
        Rule::ModuleDeclaration => module_spec(items, line, col),
        Rule::VerilogFile => file_spec(items, line, col),
        Rule::Comment => Err(ReductionErrorView::UnknownRule { rule_name: rule_name(rule), line, col }),
    }
}

/// The reductions of a node's children, left to right.
pub open spec fn children_spec(node: ParseNode<Rule>) -> Seq<Reduced>
    decreases node, 0int,
{
    Seq::new(
        node.children@.len(),
        |i: int|
            if 0 <= i < node.children@.len() {
                reduce_spec(node.children@[i])
            } else {
                arbitrary()
            },
    )
}

/// The reduction of a parse tree: the first failure among the children's
/// reductions if there is one, else what the node's builder makes of their
/// values.
pub open spec fn reduce_spec(node: ParseNode<Rule>) -> Reduced
    decreases node, 1int,
{
    match collect(children_spec(node)) {
        Ok(items) => build_spec(node.rule, node.text@, node.line as nat, node.col as nat, items),
        Err(e) => Err(e),
    }
}

/// The view of what a buffer's front gave.
pub open spec fn front_view(front: Option<VerilogParserData>) -> Option<VerilogParserDataView> {
    match front {
        Some(d) => Some(d@),
        None => None,
    }
}

/// Taking the front off a buffer whose views are the items from place `k` on
/// gives the item at place `k` and leaves the items from place `k + 1` on.
pub proof fn lemma_pop_front(
    before: Seq<VerilogParserData>,
    front: Option<VerilogParserData>,
    after: Seq<VerilogParserData>,
    items: Seq<VerilogParserDataView>,
    k: int,
)
    requires
        0 <= k <= items.len(),
        data_views(before) == items.skip(k),
        match front {
            Some(x) => before.len() > 0 && x == before[0] && after == before.subrange(1, before.len() as int),
            None => before.len() == 0 && after == before,
        },
    ensures
        front_view(front) == item_at(items, k),
        front is Some ==> data_views(after) == items.skip(k + 1),
        front is None ==> k == items.len(),
{
    assert(data_views(before).len() == before.len());
    assert(items.skip(k).len() == items.len() - k);
    if front is Some {
        assert(data_views(before)[0] == items.skip(k)[0]);
        assert forall|j: int| 0 <= j < after.len() implies data_views(after)[j] == items.skip(k + 1)[j] by {
            assert(data_views(before)[j + 1] == items.skip(k)[j + 1]);
        }
        assert(data_views(after) =~= items.skip(k + 1));
    }
}

/// A failure among the first items is the failure of all.
pub proof fn lemma_ids_chain_err(items: Seq<VerilogParserDataView>, n: nat, m: nat, line: nat, col: nat)
    requires
        n <= m <= items.len(),
        ids_chain(items, n, line, col) is Err,
    ensures
        ids_chain(items, m, line, col) == ids_chain(items, n, line, col),
    decreases m,
{
    if n < m {
        lemma_ids_chain_err(items, n, (m - 1) as nat, line, col);
    }
}

/// A failure among the first port connections is the failure of all.
pub proof fn lemma_connects_chain_err(items: Seq<VerilogParserDataView>, n: nat, m: nat, line: nat, col: nat)
    requires
        n <= m <= items.len(),
        connects_chain(items, n, line, col) is Err,
    ensures
        connects_chain(items, m, line, col) == connects_chain(items, n, line, col),
    decreases m,
{
    if n < m {
        lemma_connects_chain_err(items, n, (m - 1) as nat, line, col);
    }
}

/// A failure among the first parts of a module is the failure of all.
pub proof fn lemma_module_parts_err(items: Seq<VerilogParserDataView>, n: nat, m: nat, line: nat, col: nat)
    requires
        n <= m <= items.len(),
        module_parts(items, n, line, col) is Err,
    ensures
        module_parts(items, m, line, col) == module_parts(items, n, line, col),
    decreases m,
{
    if n < m {
        lemma_module_parts_err(items, n, (m - 1) as nat, line, col);
    }
}

/// A failure among the first modules is the failure of all.
pub proof fn lemma_modules_chain_err(items: Seq<VerilogParserDataView>, n: nat, m: nat, line: nat, col: nat)
    requires
        n <= m <= items.len(),
        modules_chain(items, n, line, col) is Err,
    ensures
        modules_chain(items, m, line, col) == modules_chain(items, n, line, col),
    decreases m,
{
    if n < m {
        lemma_modules_chain_err(items, n, (m - 1) as nat, line, col);
    }
}

/// The kind of a reduced value.
pub fn data_kind(d: &VerilogParserData) -> (k: DataKind)
    ensures
        k == kind_of(d@),
{
    match d {
        VerilogParserData::Id(_) => DataKind::Identifier,
        VerilogParserData::Number(_) => DataKind::Number,
        VerilogParserData::NetExpr(_) => DataKind::NetExpr,
        VerilogParserData::PortConnect(_) => DataKind::PortConnection,
        VerilogParserData::Ports(_) => DataKind::PortList,
        VerilogParserData::Stmt(_) => DataKind::ModuleStatement,
        VerilogParserData::Module(_) => DataKind::Module,
        VerilogParserData::File(_) => DataKind::File,
    }
}

/// The failure of a builder that expected one kind and found what the
/// buffer's front gave.
fn mismatch_error(expected: DataKind, front: &Option<VerilogParserData>, pair: &ParseNode<Rule>) -> (e:
    ReductionError)
    ensures
        e@ == (ReductionErrorView::TypeMismatch {
            expected,
            found: match front {
                Some(d) => kind_of(d@),
                None => DataKind::Nothing,
            },
            line: pair.line as nat,
            col: pair.col as nat,
        }),
{
    let found = match front {
        Some(d) => data_kind(d),
        None => DataKind::Nothing,
    };
    ReductionError::TypeMismatch { expected, found, line: pair.line, col: pair.col }
}

/// Builds a plain identifier.
pub fn process_id(pair: &ParseNode<Rule>) -> (r: Result<VerilogParserData, ReductionError>)
    ensures
        result_view(r) == Ok::<VerilogParserDataView, ReductionErrorView>(
            VerilogParserDataView::Id(VerilogIdView::Id { name: pair.text@ }),
        ),
{
    Ok(VerilogParserData::Id(VerilogVirtualBaseID::Id { name: pair.text.clone() }))
}

/// Builds a number.
pub fn process_number(pair: &ParseNode<Rule>) -> (r: Result<VerilogParserData, ReductionError>)
    ensures
        result_view(r) == number_spec(pair.text@, pair.line as nat, pair.col as nat),
{
    match parse_u32(pair.text.as_str()) {
        Some(n) => {
            if n <= 2147483647 {
                Ok(VerilogParserData::Number(n as i32))
            } else {
                Err(ReductionError::MalformedNumber { text: pair.text.clone(), line: pair.line, col: pair.col })
            }
        },
        None => Err(ReductionError::MalformedNumber { text: pair.text.clone(), line: pair.line, col: pair.col }),
    }
}

/// Builds a constant.
pub fn process_constant(pair: &ParseNode<Rule>) -> (r: Result<VerilogParserData, ReductionError>)
    ensures
        result_view(r) == Ok::<VerilogParserDataView, ReductionErrorView>(
            VerilogParserDataView::NetExpr(
                NetExprView::ConstantExpr { id: VerilogIdView::Id { name: pair.text@ }, line: pair.line as nat },
            ),
        ),
{
    Ok(
        VerilogParserData::NetExpr(
            VerilogVirtualBaseNetExpr::ConstantExpr {
                id: VerilogVirtualBaseID::Id { name: pair.text.clone() },
                line: pair.line,
            },
        ),
    )
}

/// Builds one bit of a bus.
pub fn process_bus_index(pair: &ParseNode<Rule>, parser_queue: VecDeque<VerilogParserData>) -> (r: Result<
    VerilogParserData,
    ReductionError,
>)
    ensures
        result_view(r) == bus_index_spec(data_views(parser_queue@), pair.line as nat, pair.col as nat),
{
    let ghost items = data_views(parser_queue@);
    let mut queue = parser_queue;
    assert(items.skip(0) =~= items);
    let ghost q0 = queue@;
    let first = queue.pop_front();
    proof {
        lemma_pop_front(q0, first, queue@, items, 0);
    }
    match first {
        Some(VerilogParserData::Id(id)) => {
            let ghost q1 = queue@;
            let second = queue.pop_front();
            proof {
                lemma_pop_front(q1, second, queue@, items, 1);
            }
            match second {
                Some(VerilogParserData::Number(index)) => Ok(
                    VerilogParserData::Id(
                        VerilogVirtualBaseID::BusIndex { name: id.get_name().clone(), index },
                    ),
                ),
                other => Err(mismatch_error(DataKind::Number, &other, pair)),
            }
        },
        other => Err(mismatch_error(DataKind::Identifier, &other, pair)),
    }
}

/// Builds a range of bits of a bus.
pub fn process_bus_slice(pair: &ParseNode<Rule>, parser_queue: VecDeque<VerilogParserData>) -> (r: Result<
    VerilogParserData,
    ReductionError,
>)
    ensures
        result_view(r) == bus_slice_spec(data_views(parser_queue@), pair.line as nat, pair.col as nat),
{
    let ghost items = data_views(parser_queue@);
    let mut queue = parser_queue;
    assert(items.skip(0) =~= items);
    let ghost q0 = queue@;
    let first = queue.pop_front();
    proof {
        lemma_pop_front(q0, first, queue@, items, 0);
    }
    match first {
        Some(VerilogParserData::Id(id)) => {
            let ghost q1 = queue@;
            let second = queue.pop_front();
            proof {
                lemma_pop_front(q1, second, queue@, items, 1);
            }
            match second {
                Some(VerilogParserData::Number(range_max)) => {
                    let ghost q2 = queue@;
                    let third = queue.pop_front();
                    proof {
                        lemma_pop_front(q2, third, queue@, items, 2);
                    }
                    match third {
                        Some(VerilogParserData::Number(range_base)) => Ok(
                            VerilogParserData::Id(
                                VerilogVirtualBaseID::BusSlice {
                                    name: id.get_name().clone(),
                                    range_max,
                                    range_base,
                                },
                            ),
                        ),
                        other => Err(mismatch_error(DataKind::Number, &other, pair)),
                    }
                },
                other => Err(mismatch_error(DataKind::Number, &other, pair)),
            }
        },
        other => Err(mismatch_error(DataKind::Identifier, &other, pair)),
    }
}

/// The net expression that an item stands for.
fn to_net_expr(item: Option<VerilogParserData>, pair: &ParseNode<Rule>) -> (r: Result<
    VerilogVirtualBaseNetExpr,
    ReductionError,
>)
    ensures
        match r {
            Ok(e) => net_expr_of(front_view(item), pair.line as nat, pair.col as nat) == Ok::<
                NetExprView,
                ReductionErrorView,
            >(e@),
            Err(e) => net_expr_of(front_view(item), pair.line as nat, pair.col as nat) == Err::<
                NetExprView,
                ReductionErrorView,
            >(e@),
        },
{
    match item {
        Some(VerilogParserData::Id(id)) => Ok(VerilogVirtualBaseNetExpr::IdExpr { id, line: pair.line }),
        Some(VerilogParserData::NetExpr(e)) => Ok(e),
        other => Err(mismatch_error(DataKind::NetExpr, &other, pair)),
    }
}

/// Builds a port connection.
pub fn process_port_connection(pair: &ParseNode<Rule>, parser_queue: VecDeque<VerilogParserData>) -> (r:
    Result<VerilogParserData, ReductionError>)
    ensures
        result_view(r) == port_connection_spec(data_views(parser_queue@), pair.line as nat, pair.col as nat),
{
    let ghost items = data_views(parser_queue@);
    let mut queue = parser_queue;
    assert(items.skip(0) =~= items);
    let ghost q0 = queue@;
    let first = queue.pop_front();
    proof {
        lemma_pop_front(q0, first, queue@, items, 0);
    }
    match first {
        Some(VerilogParserData::Id(port_id)) => {
            let ghost q1 = queue@;
            let second = queue.pop_front();
            proof {
                lemma_pop_front(q1, second, queue@, items, 1);
            }
            match second {
                None => Ok(VerilogParserData::PortConnect(VerilogPortRefPortConnect { port_id, net_expr: None })),
                other => match to_net_expr(other, pair) {
                    Ok(e) => Ok(
                        VerilogParserData::PortConnect(VerilogPortRefPortConnect { port_id, net_expr: Some(e) }),
                    ),
                    Err(e) => Err(e),
                },
            }
        },
        other => Err(mismatch_error(DataKind::Identifier, &other, pair)),
    }
}

/// Builds a continuous assignment.
pub fn process_assign(pair: &ParseNode<Rule>, parser_queue: VecDeque<VerilogParserData>) -> (r: Result<
    VerilogParserData,
    ReductionError,
>)
    ensures
        result_view(r) == assign_spec(data_views(parser_queue@), pair.line as nat, pair.col as nat),
{
    let ghost items = data_views(parser_queue@);
    let mut queue = parser_queue;
    assert(items.skip(0) =~= items);
    let ghost q0 = queue@;
    let first = queue.pop_front();
    proof {
        lemma_pop_front(q0, first, queue@, items, 0);
    }
    match to_net_expr(first, pair) {
        Err(e) => Err(e),
        Ok(left) => {
            let ghost q1 = queue@;
            let second = queue.pop_front();
            proof {
                lemma_pop_front(q1, second, queue@, items, 1);
            }
            match to_net_expr(second, pair) {
                Err(e) => Err(e),
                Ok(right) => Ok(
                    VerilogParserData::Stmt(
                        VerilogVirtualBaseStmt::Assign(VerilogAssign { left, right, line: pair.line }),
                    ),
                ),
            }
        },
    }
}

/// Takes the identifiers that a buffer holds.
fn take_ids(pair: &ParseNode<Rule>, parser_queue: VecDeque<VerilogParserData>) -> (r: Result<
    Vec<VerilogVirtualBaseID>,
    ReductionError,
>)
    ensures
        match r {
            Ok(v) => ids_chain(
                data_views(parser_queue@),
                parser_queue@.len(),
                pair.line as nat,
                pair.col as nat,
            ) == Ok::<Seq<VerilogIdView>, ReductionErrorView>(ids_view(v@)),
            Err(e) => ids_chain(
                data_views(parser_queue@),
                parser_queue@.len(),
                pair.line as nat,
                pair.col as nat,
            ) == Err::<Seq<VerilogIdView>, ReductionErrorView>(e@),
        },
{
    let ghost items = data_views(parser_queue@);
    let ghost line = pair.line as nat;
    let ghost col = pair.col as nat;
    let mut queue = parser_queue;
    let mut out: Vec<VerilogVirtualBaseID> = Vec::new();
    let ghost mut k: int = 0;
    assert(items.skip(0) =~= items);
    assert(ids_view(out@) =~= Seq::empty());
    while queue.len() > 0
        invariant
            items == data_views(parser_queue@),
            line == pair.line as nat,
            col == pair.col as nat,
            0 <= k <= items.len(),
            data_views(queue@) == items.skip(k),
            ids_chain(items, k as nat, line, col) == Ok::<Seq<VerilogIdView>, ReductionErrorView>(ids_view(out@)),
        decreases queue@.len(),
    {
        let ghost before = queue@;
        let ghost so_far = ids_view(out@);
        let front = queue.pop_front();
        proof {
            lemma_pop_front(before, front, queue@, items, k);
        }
        match front {
            Some(VerilogParserData::Id(id)) => {
                out.push(id);
                proof {
                    assert(ids_view(out@) =~= so_far.push(id@));
                    k = k + 1;
                }
            },
            other => {
                proof {
                    assert(ids_chain(items, (k + 1) as nat, line, col) is Err);
                    lemma_ids_chain_err(items, (k + 1) as nat, items.len(), line, col);
                }
                return Err(mismatch_error(DataKind::Identifier, &other, pair));
            },
        }
    }
    proof {
        assert(items.skip(k).len() == items.len() - k);
    }
    Ok(out)
}

/// Builds nets side by side.
pub fn process_concat(pair: &ParseNode<Rule>, parser_queue: VecDeque<VerilogParserData>) -> (r: Result<
    VerilogParserData,
    ReductionError,
>)
    ensures
        result_view(r) == concat_spec(data_views(parser_queue@), pair.line as nat, pair.col as nat),
{
    match take_ids(pair, parser_queue) {
        Ok(ids) => Ok(VerilogParserData::NetExpr(VerilogVirtualBaseNetExpr::ConcatExpr { ids, line: pair.line })),
        Err(e) => Err(e),
    }
}

/// Builds declarations of nets.
pub fn process_wire_declaration(pair: &ParseNode<Rule>, parser_queue: VecDeque<VerilogParserData>) -> (r:
    Result<VerilogParserData, ReductionError>)
    ensures
        result_view(r) == wire_spec(data_views(parser_queue@), pair.line as nat, pair.col as nat),
{
    match take_ids(pair, parser_queue) {
        Ok(declarations) => Ok(
            VerilogParserData::Stmt(VerilogVirtualBaseStmt::Dcls(VerilogDcls { declarations, line: pair.line })),
        ),
        Err(e) => Err(e),
    }
}

/// Builds declarations of ports of one direction.
pub fn process_port_declaration(
    pair: &ParseNode<Rule>,
    direction: PortDirection,
    parser_queue: VecDeque<VerilogParserData>,
) -> (r: Result<VerilogParserData, ReductionError>)
    ensures
        result_view(r) == ports_spec(data_views(parser_queue@), direction, pair.line as nat, pair.col as nat),
{
    match take_ids(pair, parser_queue) {
        Ok(ids) => {
            let mut ports: Vec<VerilogPort> = Vec::new();
            let mut i: usize = 0;
            while i < ids.len()
                invariant
                    i <= ids@.len(),
                    ports@.len() == i,
                    forall|j: int|
                        0 <= j < i ==> (#[trigger] ports@[j])@ == (PortView {
                            name: name_of(ids@[j]@),
                            direction,
                        }),
                decreases ids@.len() - i,
            {
                ports.push(VerilogPort { name: ids[i].get_name().clone(), direction });
                i += 1;
            }
            assert(ports_view(ports@) =~= ports_of(ids_view(ids@), direction));
            Ok(VerilogParserData::Ports(ports))
        },
        Err(e) => Err(e),
    }
}

/// Builds an instance.
pub fn process_inst_declaration(pair: &ParseNode<Rule>, parser_queue: VecDeque<VerilogParserData>) -> (r:
    Result<VerilogParserData, ReductionError>)
    ensures
        result_view(r) == inst_spec(data_views(parser_queue@), pair.line as nat, pair.col as nat),
{
    let ghost items = data_views(parser_queue@);
    let ghost line = pair.line as nat;
    let ghost col = pair.col as nat;
    let mut queue = parser_queue;
    assert(items.skip(0) =~= items);
    let ghost q0 = queue@;
    let first = queue.pop_front();
    proof {
        lemma_pop_front(q0, first, queue@, items, 0);
    }
    let cell = match first {
        Some(VerilogParserData::Id(id)) => id,
        other => {
            return Err(mismatch_error(DataKind::Identifier, &other, pair));
        },
    };
    let ghost q1 = queue@;
    let second = queue.pop_front();
    proof {
        lemma_pop_front(q1, second, queue@, items, 1);
    }
    let inst = match second {
        Some(VerilogParserData::Id(id)) => id,
        other => {
            return Err(mismatch_error(DataKind::Identifier, &other, pair));
        },
    };
    let mut port_connections: Vec<VerilogPortRefPortConnect> = Vec::new();
    let ghost mut k: int = 2;
    assert(connects_view(port_connections@) =~= Seq::empty());
    while queue.len() > 0
        invariant
            items == data_views(parser_queue@),
            line == pair.line as nat,
            col == pair.col as nat,
            2 <= k <= items.len(),
            items[0] is Id,
            items[1] is Id,
            data_views(queue@) == items.skip(k),
            connects_chain(items, k as nat, line, col) == Ok::<Seq<PortConnectView>, ReductionErrorView>(
                connects_view(port_connections@),
            ),
        decreases queue@.len(),
    {
        let ghost before = queue@;
        let ghost so_far = connects_view(port_connections@);
        let front = queue.pop_front();
        proof {
            lemma_pop_front(before, front, queue@, items, k);
        }
        match front {
            Some(VerilogParserData::PortConnect(c)) => {
                port_connections.push(c);
                proof {
                    assert(connects_view(port_connections@) =~= so_far.push(c@));
                    k = k + 1;
                }
            },
            other => {
                proof {
                    assert(connects_chain(items, (k + 1) as nat, line, col) is Err);
                    lemma_connects_chain_err(items, (k + 1) as nat, items.len(), line, col);
                }
                return Err(mismatch_error(DataKind::PortConnection, &other, pair));
            },
        }
    }
    proof {
        assert(items.skip(k).len() == items.len() - k);
    }
    Ok(
        VerilogParserData::Stmt(
            VerilogVirtualBaseStmt::Inst(
                VerilogInst {
                    inst_name: inst.get_name().clone(),
                    cell_name: cell.get_name().clone(),
                    port_connections,
                    line: pair.line,
                },
            ),
        ),
    )
}

/// Builds a module.
pub fn process_module_declaration(pair: &ParseNode<Rule>, parser_queue: VecDeque<VerilogParserData>) -> (r:
    Result<VerilogParserData, ReductionError>)
    ensures
        result_view(r) == module_spec(data_views(parser_queue@), pair.line as nat, pair.col as nat),
{
    let ghost items = data_views(parser_queue@);
    let ghost line = pair.line as nat;
    let ghost col = pair.col as nat;
    let mut queue = parser_queue;
    assert(items.skip(0) =~= items);
    let ghost q0 = queue@;
    let first = queue.pop_front();
    proof {
        lemma_pop_front(q0, first, queue@, items, 0);
    }
    let name = match first {
        Some(VerilogParserData::Id(id)) => id,
        other => {
            return Err(mismatch_error(DataKind::Identifier, &other, pair));
        },
    };
    let mut port_list: Vec<VerilogPort> = Vec::new();
    let mut module_stmts: Vec<VerilogVirtualBaseStmt> = Vec::new();
    let ghost mut k: int = 1;
    assert(ports_view(port_list@) =~= Seq::empty());
    assert(stmts_view(module_stmts@) =~= Seq::empty());
    while queue.len() > 0
        invariant
            items == data_views(parser_queue@),
            line == pair.line as nat,
            col == pair.col as nat,
            1 <= k <= items.len(),
            items[0] is Id,
            data_views(queue@) == items.skip(k),
            module_parts(items, k as nat, line, col) == Ok::<(Seq<PortView>, Seq<StmtView>), ReductionErrorView>(
                (ports_view(port_list@), stmts_view(module_stmts@)),
            ),
        decreases queue@.len(),
    {
        let ghost before = queue@;
        let ghost ports_so_far = ports_view(port_list@);
        let ghost stmts_so_far = stmts_view(module_stmts@);
        let front = queue.pop_front();
        proof {
            lemma_pop_front(before, front, queue@, items, k);
        }
        match front {
            Some(VerilogParserData::Ports(mut ports)) => {
                let ghost added = ports_view(ports@);
                port_list.append(&mut ports);
                proof {
                    assert(ports_view(port_list@) =~= ports_so_far + added);
                    k = k + 1;
                }
            },
            Some(VerilogParserData::Stmt(stmt)) => {
                module_stmts.push(stmt);
                proof {
                    assert(stmts_view(module_stmts@) =~= stmts_so_far.push(stmt@));
                    k = k + 1;
                }
            },
            other => {
                proof {
                    assert(module_parts(items, (k + 1) as nat, line, col) is Err);
                    lemma_module_parts_err(items, (k + 1) as nat, items.len(), line, col);
                }
                return Err(mismatch_error(DataKind::ModuleStatement, &other, pair));
            },
        }
    }
    proof {
        assert(items.skip(k).len() == items.len() - k);
    }
    Ok(
        VerilogParserData::Module(
            VerilogModule { module_name: name.get_name().clone(), port_list, module_stmts, line: pair.line },
        ),
    )
}

/// Builds a netlist file.
pub fn process_verilog_file(pair: &ParseNode<Rule>, parser_queue: VecDeque<VerilogParserData>) -> (r: Result<
    VerilogParserData,
    ReductionError,
>)
    ensures
        result_view(r) == file_spec(data_views(parser_queue@), pair.line as nat, pair.col as nat),
{
    let ghost items = data_views(parser_queue@);
    let ghost line = pair.line as nat;
    let ghost col = pair.col as nat;
    let mut queue = parser_queue;
    let mut verilog_modules: Vec<VerilogModule> = Vec::new();
    let ghost mut k: int = 0;
    assert(items.skip(0) =~= items);
    assert(modules_view(verilog_modules@) =~= Seq::empty());
    while queue.len() > 0
        invariant
            items == data_views(parser_queue@),
            line == pair.line as nat,
            col == pair.col as nat,
            0 <= k <= items.len(),
            data_views(queue@) == items.skip(k),
            modules_chain(items, k as nat, line, col) == Ok::<Seq<ModuleView>, ReductionErrorView>(
                modules_view(verilog_modules@),
            ),
        decreases queue@.len(),
    {
        let ghost before = queue@;
        let ghost so_far = modules_view(verilog_modules@);
        let front = queue.pop_front();
        proof {
            lemma_pop_front(before, front, queue@, items, k);
        }
        match front {
            Some(VerilogParserData::Module(m)) => {
                verilog_modules.push(m);
                proof {
                    assert(modules_view(verilog_modules@) =~= so_far.push(m@));
                    k = k + 1;
                }
            },
            other => {
                proof {
                    assert(modules_chain(items, (k + 1) as nat, line, col) is Err);
                    lemma_modules_chain_err(items, (k + 1) as nat, items.len(), line, col);
                }
                return Err(mismatch_error(DataKind::Module, &other, pair));
            },
        }
    }
    proof {
        assert(items.skip(k).len() == items.len() - k);
    }
    Ok(VerilogParserData::File(VerilogFile { verilog_modules }))
}

/// Reduces a parse tree and puts the value it stands for at the back of the
/// shared work list: after a success the list is what it was before, with
/// exactly that one value behind it. After a failure the list is unchanged.
pub fn reduce_onto(pair: &ParseNode<Rule>, parser_queue: &mut VecDeque<VerilogParserData>) -> (r: Result<(), ReductionError>)
    ensures
        match r {
            Ok(_) => {
                &&& final(parser_queue)@.len() == old(parser_queue)@.len() + 1
                &&& final(parser_queue)@.drop_last() == old(parser_queue)@
                &&& reduce_spec(*pair) == Ok::<VerilogParserDataView, ReductionErrorView>(final(parser_queue)@.last()@)
            },
            Err(e) => {
                &&& final(parser_queue)@ == old(parser_queue)@
                &&& reduce_spec(*pair) == Err::<VerilogParserDataView, ReductionErrorView>(e@)
            },
        },
    decreases pair, 1int,
{
    let ghost before = parser_queue@;
    match process_pair(pair, parser_queue) {
        Ok(value) => {
            parser_queue.push_back(value);
            assert(parser_queue@.drop_last() =~= before);
            Ok(())
        },
        Err(e) => Err(e),
    }
}

/// Reduces the parse tree of a netlist.
///
/// The children are reduced left to right, each result going to the back of
/// the shared work list; the node then takes exactly those results off the
/// list again, in their order, and hands them to the builder of its rule. The
/// work list is therefore the same after the call as before it, and the one
/// value that the node stands for is returned for the caller to add. The first
/// failure ends the reduction.
pub fn process_pair(pair: &ParseNode<Rule>, parser_queue: &mut VecDeque<VerilogParserData>) -> (r: Result<
    VerilogParserData,
    ReductionError,
>)
    ensures
        result_view(r) == reduce_spec(*pair),
        final(parser_queue)@ == old(parser_queue)@,
    decreases pair, 0int,
{
    let ghost before = parser_queue@;
    let ghost kids = children_spec(*pair);
    let current_queue_len = parser_queue.len();
    let mut i: usize = 0;
    while i < pair.children.len()
        invariant
            i <= pair.children@.len(),
            before == old(parser_queue)@,
            current_queue_len == before.len(),
            kids == children_spec(*pair),
            parser_queue@.len() == before.len() + i,
            parser_queue@.take(before.len() as int) == before,
            forall|j: int|
                0 <= j < i ==> (#[trigger] kids[j]) == Ok::<VerilogParserDataView, ReductionErrorView>(
                    parser_queue@[before.len() + j]@,
                ),
        decreases pair.children@.len() - i,
    {
        let ghost so_far = parser_queue@;
        match reduce_onto(&pair.children[i], parser_queue) {
            Ok(()) => {
                assert(parser_queue@.drop_last() == so_far);
                assert(parser_queue@.take(before.len() as int) =~= so_far.take(before.len() as int));
                assert(parser_queue@[before.len() + i]@ == reduce_spec(pair.children@[i as int])->Ok_0);
            },
            Err(e) => {
                assert(kids[i as int] == reduce_spec(pair.children@[i as int]));
                parser_queue.truncate(current_queue_len);
                proof {
                    assert(parser_queue@ =~= before);
                    assert(is_first_err(kids, i as int));
                    lemma_collect_first_err(kids, i as int);
                }
                return Err(e);
            },
        }
        i += 1;
    }
    let ghost full = parser_queue@;
    let mut substitute_queue: VecDeque<VerilogParserData> = VecDeque::new();
    while parser_queue.len() > current_queue_len
        invariant
            current_queue_len == before.len(),
            before.len() <= parser_queue@.len() <= full.len(),
            parser_queue@ + substitute_queue@ == full,
        decreases parser_queue@.len(),
    {
        let ghost rest = parser_queue@;
        let ghost taken = substitute_queue@;
        match parser_queue.pop_back() {
            Some(item) => {
                substitute_queue.push_front(item);
                assert(parser_queue@ + substitute_queue@ =~= rest + taken);
            },
            None => {},
        }
    }
    proof {
        assert(parser_queue@ =~= full.take(before.len() as int));
        assert(substitute_queue@ =~= full.skip(before.len() as int));
        assert(all_ok(kids));
        assert(data_views(substitute_queue@) =~= oks(kids));
    }
    match pair.rule {
        Rule::Id => process_id(pair),
        Rule::Number => process_number(pair),
        Rule::BusIndexId => process_bus_index(pair, substitute_queue),
        Rule::BusSliceId => process_bus_slice(pair, substitute_queue),
        Rule::Constant => process_constant(pair),
        Rule::ConcatExpr => process_concat(pair, substitute_queue),
        Rule::PortConnection => process_port_connection(pair, substitute_queue),
        Rule::WireDeclaration => process_wire_declaration(pair, substitute_queue),
        Rule::InputDeclaration => process_port_declaration(pair, PortDirection::Input, substitute_queue),
        Rule::OutputDeclaration => process_port_declaration(pair, PortDirection::Output, substitute_queue),
        Rule::InoutDeclaration => process_port_declaration(pair, PortDirection::Inout, substitute_queue),
        Rule::AssignDeclaration => process_assign(pair, substitute_queue),
        Rule::InstDeclaration => process_inst_declaration(pair, substitute_queue),
        Rule::ModuleDeclaration => process_module_declaration(pair, substitute_queue),
        Rule::VerilogFile => process_verilog_file(pair, substitute_queue),
        Rule::Comment => Err(
            ReductionError::UnknownRule {
                rule_name: pair.rule.name().to_owned(),
                line: pair.line,
                col: pair.col,
            },
        ),
    }
}

/// The failure of a netlist whose root is no file.
pub open spec fn not_a_file(node: ParseNode<Rule>, found: DataKind) -> ReductionErrorView {
    ReductionErrorView::TypeMismatch {
        expected: DataKind::File,
        found,
        line: node.line as nat,
        col: node.col as nat,
    }
}

/// The modules that the outcome of the grammar engine stands for.
pub open spec fn netlist_spec(outcome: ParseOutcome<Rule>) -> Result<Seq<ModuleView>, ParseErrorView> {
    match outcome {
        ParseOutcome::NoContent => Err(ParseErrorView::IoError),
        ParseOutcome::SyntaxError(e) => Err(ParseErrorView::GrammarSyntaxError(e@)),
        ParseOutcome::Tree(root) => match reduce_spec(root) {
            Ok(VerilogParserDataView::File(ms)) => Ok(ms),
            Ok(other) => Err(ParseErrorView::Reduction(not_a_file(root, kind_of(other)))),
            Err(e) => Err(ParseErrorView::Reduction(e)),
        },
    }
}

/// Builds the modules of a netlist from what the grammar engine made of its
/// text. A syntax error of the engine is handed on as it is, and nothing is
/// built.
pub fn parse_verilog_file(outcome: &ParseOutcome<Rule>) -> (r: Result<VerilogFile, ParseError>)
    ensures
        match r {
            Ok(f) => netlist_spec(*outcome) == Ok::<Seq<ModuleView>, ParseErrorView>(
                modules_view(f.verilog_modules@),
            ),
            Err(e) => netlist_spec(*outcome) == Err::<Seq<ModuleView>, ParseErrorView>(e@),
        },
{
    match outcome {
        ParseOutcome::NoContent => Err(ParseError::IoError),
        ParseOutcome::SyntaxError(e) => Err(ParseError::GrammarSyntaxError(e.copy())),
        ParseOutcome::Tree(root) => {
            let mut parser_queue: VecDeque<VerilogParserData> = VecDeque::new();
            match process_pair(root, &mut parser_queue) {
                Ok(VerilogParserData::File(f)) => Ok(f),
                Ok(other) => {
                    let found = data_kind(&other);
                    Err(
                        ParseError::Reduction(
                            ReductionError::TypeMismatch {
                                expected: DataKind::File,
                                found,
                                line: root.line,
                                col: root.col,
                            },
                        ),
                    )
                },
                Err(e) => Err(ParseError::Reduction(e)),
            }
        },
    }
}

} // verus!
