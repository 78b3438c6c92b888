use vstd::prelude::*;
use vstd::string::*;

verus! {

/// Mathematical value of an identifier of a netlist.
pub enum VerilogIdView {
    Id { name: Seq<char> },
    BusIndex { name: Seq<char>, index: int },
    BusSlice { name: Seq<char>, range_max: int, range_base: int },
}

/// An identifier of a netlist: a plain name, one bit of a bus, or a range of
/// bits of a bus. `name` is the name of the net or bus itself.
#[derive(Debug, Clone, PartialEq, Eq)]
pub enum VerilogVirtualBaseID {
    Id { name: String },
    BusIndex { name: String, index: i32 },
    BusSlice { name: String, range_max: i32, range_base: i32 },
}

impl View for VerilogVirtualBaseID {
    type V = VerilogIdView;

    open spec fn view(&self) -> VerilogIdView {
        match self {
            VerilogVirtualBaseID::Id { name } => VerilogIdView::Id { name: name@ },
            VerilogVirtualBaseID::BusIndex { name, index } => VerilogIdView::BusIndex {
                name: name@,
                index: *index as int,
            },
            VerilogVirtualBaseID::BusSlice { name, range_max, range_base } => VerilogIdView::BusSlice {
                name: name@,
                range_max: *range_max as int,
                range_base: *range_base as int,
            },
        }
    }
}

/// The name of the net or bus that an identifier refers to.
pub open spec fn name_of(id: VerilogIdView) -> Seq<char> {
    match id {
        VerilogIdView::Id { name } => name,
        VerilogIdView::BusIndex { name, .. } => name,
        VerilogIdView::BusSlice { name, .. } => name,
    }
}

/// The identifier with another name in place of its own.
pub open spec fn with_name(id: VerilogIdView, name: Seq<char>) -> VerilogIdView {
    match id {
        VerilogIdView::Id { .. } => VerilogIdView::Id { name },
        VerilogIdView::BusIndex { index, .. } => VerilogIdView::BusIndex { name, index },
        VerilogIdView::BusSlice { range_max, range_base, .. } => VerilogIdView::BusSlice {
            name,
            range_max,
            range_base,
        },
    }
}

impl VerilogVirtualBaseID {
    /// Whether this is a plain name.
    pub fn is_id(&self) -> (r: bool)
        ensures
            r == (self@ is Id),
    {
        match self {
            VerilogVirtualBaseID::Id { .. } => true,
            _ => false,
        }
    }

    /// Whether this is one bit of a bus.
    pub fn is_bus_index_id(&self) -> (r: bool)
        ensures
            r == (self@ is BusIndex),
    {
        match self {
            VerilogVirtualBaseID::BusIndex { .. } => true,
            _ => false,
        }
    }

    /// Whether this is a range of bits of a bus.
    pub fn is_bus_slice_id(&self) -> (r: bool)
        ensures
            r == (self@ is BusSlice),
    {
        match self {
            VerilogVirtualBaseID::BusSlice { .. } => true,
            _ => false,
        }
    }

    /// The name of the net or bus.
    pub fn get_name(&self) -> (r: &String)
        ensures
            r@ == name_of(self@),
    {
        match self {
            VerilogVirtualBaseID::Id { name } => name,
            VerilogVirtualBaseID::BusIndex { name, .. } => name,
            VerilogVirtualBaseID::BusSlice { name, .. } => name,
        }
    }

    /// A copy of the identifier under another name.
    pub fn renamed(&self, name: String) -> (r: VerilogVirtualBaseID)
        ensures
            r@ == with_name(self@, name@),
    {
        match self {
            VerilogVirtualBaseID::Id { .. } => VerilogVirtualBaseID::Id { name },
            VerilogVirtualBaseID::BusIndex { index, .. } => VerilogVirtualBaseID::BusIndex {
                name,
                index: *index,
            },
            VerilogVirtualBaseID::BusSlice { range_max, range_base, .. } => VerilogVirtualBaseID::BusSlice {
                name,
                range_max: *range_max,
                range_base: *range_base,
            },
        }
    }

    /// A copy of the identifier.
    pub fn copy(&self) -> (r: VerilogVirtualBaseID)
        ensures
            r@ == self@,
    {
        self.renamed(self.get_name().clone())
    }
}

/// The views of a sequence of identifiers, in order.
pub open spec fn ids_view(ids: Seq<VerilogVirtualBaseID>) -> Seq<VerilogIdView> {
    Seq::new(ids.len(), |i: int| ids[i]@)
}

/// Mathematical value of a net expression.
pub enum NetExprView {
    IdExpr { id: VerilogIdView, line: nat },
    ConcatExpr { ids: Seq<VerilogIdView>, line: nat },
    ConstantExpr { id: VerilogIdView, line: nat },
}

/// What a port is connected to: one net, several nets side by side, or a
/// constant.
#[derive(Debug, Clone, PartialEq, Eq)]
pub enum VerilogVirtualBaseNetExpr {
    IdExpr { id: VerilogVirtualBaseID, line: usize },
    ConcatExpr { ids: Vec<VerilogVirtualBaseID>, line: usize },
    ConstantExpr { id: VerilogVirtualBaseID, line: usize },
}

impl View for VerilogVirtualBaseNetExpr {
    type V = NetExprView;

    open spec fn view(&self) -> NetExprView {
        match self {
            VerilogVirtualBaseNetExpr::IdExpr { id, line } => NetExprView::IdExpr { id: id@, line: *line as nat },
            VerilogVirtualBaseNetExpr::ConcatExpr { ids, line } => NetExprView::ConcatExpr {
                ids: ids_view(ids@),
                line: *line as nat,
            },
            VerilogVirtualBaseNetExpr::ConstantExpr { id, line } => NetExprView::ConstantExpr {
                id: id@,
                line: *line as nat,
            },
        }
    }
}

/// A copy of a list of identifiers.
pub fn copy_ids(ids: &Vec<VerilogVirtualBaseID>) -> (r: Vec<VerilogVirtualBaseID>)
    ensures
        ids_view(r@) == ids_view(ids@),
{
    let mut out: Vec<VerilogVirtualBaseID> = Vec::new();
    let mut i: usize = 0;
    while i < ids.len()
        invariant
            i <= ids@.len(),
            out@.len() == i,
            forall|j: int| 0 <= j < i ==> (#[trigger] out@[j])@ == ids@[j]@,
        decreases ids@.len() - i,
    {
        out.push(ids[i].copy());
        i += 1;
    }
    assert(ids_view(out@) =~= ids_view(ids@));
    out
}

impl VerilogVirtualBaseNetExpr {
    /// Whether the expression is one net.
    pub fn is_id_expr(&self) -> (r: bool)
        ensures
            r == (self@ is IdExpr),
    {
        match self {
            VerilogVirtualBaseNetExpr::IdExpr { .. } => true,
            _ => false,
        }
    }

    /// Whether the expression is several nets side by side.
    pub fn is_concat_expr(&self) -> (r: bool)
        ensures
            r == (self@ is ConcatExpr),
    {
        match self {
            VerilogVirtualBaseNetExpr::ConcatExpr { .. } => true,
            _ => false,
        }
    }

    /// Whether the expression is a constant.
    pub fn is_constant(&self) -> (r: bool)
        ensures
            r == (self@ is ConstantExpr),
    {
        match self {
            VerilogVirtualBaseNetExpr::ConstantExpr { .. } => true,
            _ => false,
        }
    }

    /// A copy of the expression.
    pub fn copy(&self) -> (r: VerilogVirtualBaseNetExpr)
        ensures
            r@ == self@,
    {
        match self {
            VerilogVirtualBaseNetExpr::IdExpr { id, line } => VerilogVirtualBaseNetExpr::IdExpr {
                id: id.copy(),
                line: *line,
            },
            VerilogVirtualBaseNetExpr::ConcatExpr { ids, line } => VerilogVirtualBaseNetExpr::ConcatExpr {
                ids: copy_ids(ids),
                line: *line,
            },
            VerilogVirtualBaseNetExpr::ConstantExpr { id, line } => VerilogVirtualBaseNetExpr::ConstantExpr {
                id: id.copy(),
                line: *line,
            },
        }
    }
}

/// The view of an optional net expression.
pub open spec fn opt_expr_view(e: Option<VerilogVirtualBaseNetExpr>) -> Option<NetExprView> {
    match e {
        Some(x) => Some(x@),
        None => None,
    }
}

/// Mathematical value of a port connection.
pub struct PortConnectView {
    pub port_id: VerilogIdView,
    pub net_expr: Option<NetExprView>,
}

/// The connection of one port of an instance. A port that is left open has no
/// net expression.
#[derive(Debug, Clone, PartialEq, Eq)]
pub struct VerilogPortRefPortConnect {
    pub port_id: VerilogVirtualBaseID,
    pub net_expr: Option<VerilogVirtualBaseNetExpr>,
}

impl View for VerilogPortRefPortConnect {
    type V = PortConnectView;

    open spec fn view(&self) -> PortConnectView {
        PortConnectView { port_id: self.port_id@, net_expr: opt_expr_view(self.net_expr) }
    }
}

/// The views of a sequence of port connections, in order.
pub open spec fn connects_view(cs: Seq<VerilogPortRefPortConnect>) -> Seq<PortConnectView> {
    Seq::new(cs.len(), |i: int| cs[i]@)
}

/// Mathematical value of a statement of a module.
pub enum StmtView {
    Inst { inst_name: Seq<char>, cell_name: Seq<char>, port_connections: Seq<PortConnectView>, line: nat },
    Dcls { declarations: Seq<VerilogIdView>, line: nat },
    Assign { left: NetExprView, right: NetExprView, line: nat },
}

/// An instance of a cell or of another module.
#[derive(Debug, Clone, PartialEq, Eq)]
pub struct VerilogInst {
    pub inst_name: String,
    pub cell_name: String,
    pub port_connections: Vec<VerilogPortRefPortConnect>,
    pub line: usize,
}

/// Declarations of nets that stand together in the source.
#[derive(Debug, Clone, PartialEq, Eq)]
pub struct VerilogDcls {
    pub declarations: Vec<VerilogVirtualBaseID>,
    pub line: usize,
}

/// A continuous assignment.
#[derive(Debug, Clone, PartialEq, Eq)]
pub struct VerilogAssign {
    pub left: VerilogVirtualBaseNetExpr,
    pub right: VerilogVirtualBaseNetExpr,
    pub line: usize,
}

/// A statement of a module.
#[derive(Debug, Clone, PartialEq, Eq)]
pub enum VerilogVirtualBaseStmt {
    Inst(VerilogInst),
    Dcls(VerilogDcls),
    Assign(VerilogAssign),
}

impl View for VerilogInst {
    type V = StmtView;

    open spec fn view(&self) -> StmtView {
        StmtView::Inst {
            inst_name: self.inst_name@,
            cell_name: self.cell_name@,
            port_connections: connects_view(self.port_connections@),
            line: self.line as nat,
        }
    }
}

impl View for VerilogDcls {
    type V = StmtView;

    open spec fn view(&self) -> StmtView {
        StmtView::Dcls { declarations: ids_view(self.declarations@), line: self.line as nat }
    }
}

impl View for VerilogAssign {
    type V = StmtView;

    open spec fn view(&self) -> StmtView {
        StmtView::Assign { left: self.left@, right: self.right@, line: self.line as nat }
    }
}

impl View for VerilogVirtualBaseStmt {
    type V = StmtView;

    open spec fn view(&self) -> StmtView {
        match self {
            VerilogVirtualBaseStmt::Inst(i) => i@,
            VerilogVirtualBaseStmt::Dcls(d) => d@,
            VerilogVirtualBaseStmt::Assign(a) => a@,
        }
    }
}

impl VerilogVirtualBaseStmt {
    /// Whether the statement is an instance.
    pub fn is_module_inst_stmt(&self) -> (r: bool)
        ensures
            r == (self@ is Inst),
    {
        match self {
            VerilogVirtualBaseStmt::Inst(_) => true,
            _ => false,
        }
    }

    /// Whether the statement is an assignment.
    pub fn is_module_assign_stmt(&self) -> (r: bool)
        ensures
            r == (self@ is Assign),
    {
        match self {
            VerilogVirtualBaseStmt::Assign(_) => true,
            _ => false,
        }
    }

    /// Whether the statement is a group of declarations.
    pub fn is_verilog_dcls_stmt(&self) -> (r: bool)
        ensures
            r == (self@ is Dcls),
    {
        match self {
            VerilogVirtualBaseStmt::Dcls(_) => true,
            _ => false,
        }
    }
}

/// The views of a sequence of statements, in order.
pub open spec fn stmts_view(stmts: Seq<VerilogVirtualBaseStmt>) -> Seq<StmtView> {
    Seq::new(stmts.len(), |i: int| stmts[i]@)
}

/// The direction of a port.
#[derive(Debug, Clone, Copy, PartialEq, Eq, Structural)]
pub enum PortDirection {
    Input,
    Output,
    Inout,
}

/// Mathematical value of a port.
pub struct PortView {
    pub name: Seq<char>,
    pub direction: PortDirection,
}

/// A port of a module.
#[derive(Debug, Clone, PartialEq, Eq)]
pub struct VerilogPort {
    pub name: String,
    pub direction: PortDirection,
}

impl View for VerilogPort {
    type V = PortView;

    open spec fn view(&self) -> PortView {
        PortView { name: self.name@, direction: self.direction }
    }
}

/// The views of a sequence of ports, in order.
pub open spec fn ports_view(ports: Seq<VerilogPort>) -> Seq<PortView> {
    Seq::new(ports.len(), |i: int| ports[i]@)
}

/// Mathematical value of a module.
pub struct ModuleView {
    pub module_name: Seq<char>,
    pub port_list: Seq<PortView>,
    pub module_stmts: Seq<StmtView>,
    pub line: nat,
}

/// A module: its name, its ports and its statements, both in source order.
#[derive(Debug, Clone, PartialEq, Eq)]
pub struct VerilogModule {
    pub module_name: String,
    pub port_list: Vec<VerilogPort>,
    pub module_stmts: Vec<VerilogVirtualBaseStmt>,
    pub line: usize,
}

impl View for VerilogModule {
    type V = ModuleView;

    open spec fn view(&self) -> ModuleView {
        ModuleView {
            module_name: self.module_name@,
            port_list: ports_view(self.port_list@),
            module_stmts: stmts_view(self.module_stmts@),
            line: self.line as nat,
        }
    }
}

/// The views of the modules of a design, in order.
pub open spec fn modules_view(modules: Seq<VerilogModule>) -> Seq<ModuleView> {
    Seq::new(modules.len(), |i: int| modules[i]@)
}

/// A copy of a list of ports.
pub fn copy_ports(ports: &Vec<VerilogPort>) -> (r: Vec<VerilogPort>)
    ensures
        ports_view(r@) == ports_view(ports@),
{
    let mut out: Vec<VerilogPort> = Vec::new();
    let mut i: usize = 0;
    while i < ports.len()
        invariant
            i <= ports@.len(),
            out@.len() == i,
            forall|j: int| 0 <= j < i ==> (#[trigger] out@[j])@ == ports@[j]@,
        decreases ports@.len() - i,
    {
        out.push(VerilogPort { name: ports[i].name.clone(), direction: ports[i].direction });
        i += 1;
    }
    assert(ports_view(out@) =~= ports_view(ports@));
    out
}

} // verus!
