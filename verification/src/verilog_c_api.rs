use vstd::prelude::*;
use crate::verilog_data::{
    name_of, opt_expr_view, NetExprView, VerilogModule, VerilogPort, VerilogPortRefPortConnect,
    VerilogVirtualBaseID, VerilogVirtualBaseNetExpr, VerilogVirtualBaseStmt,
};

verus! {

/// The description of a sequence as a host sees it: how many items it holds,
/// for how many it has room, and the size of one item in bytes.
#[derive(Debug, Clone, Copy, PartialEq, Eq)]
pub struct RustVec {
    pub len: usize,
    pub cap: usize,
    pub type_size: usize,
}

/// Calls `Vec::capacity`. Trusted: a vector has room for at least the items
/// it holds, as the method's documentation says; how much more is up to the
/// allocator.
#[verifier::external_body]
fn vec_capacity<T>(vec: &Vec<T>) -> (cap: usize)
    ensures
        cap >= vec@.len(),
{
    vec.capacity()
}

/// Describes a sequence for a host.
pub fn rust_vec_to_c_array<T>(vec: &Vec<T>) -> (r: RustVec)
    ensures
        r.len == vec@.len(),
        r.cap >= r.len,
        r.type_size as nat == vstd::layout::size_of::<T>(),
{
    RustVec { len: vec.len(), cap: vec_capacity(vec), type_size: core::mem::size_of::<T>() }
}

/// The number of items of a described sequence.
pub fn rust_vec_len(vec: &RustVec) -> (r: usize)
    ensures
        r == vec.len,
{
    vec.len
}

/// A plain identifier as a host sees it.
#[derive(Debug, Clone, PartialEq, Eq)]
pub struct RustVerilogID {
    pub id: String,
}

/// The record of an identifier: its name.
pub fn rust_convert_verilog_id(verilog_id: &VerilogVirtualBaseID) -> (r: RustVerilogID)
    ensures
        r.id@ == name_of(verilog_id@),
{
    RustVerilogID { id: verilog_id.get_name().clone() }
}

/// Whether the identifier is a plain name.
pub fn rust_is_id(verilog_id: &VerilogVirtualBaseID) -> (r: bool)
    ensures
        r == (verilog_id@ is Id),
{
    verilog_id.is_id()
}

/// One bit of a bus as a host sees it.
#[derive(Debug, Clone, PartialEq, Eq)]
pub struct RustVerilogIndexID {
    pub id: String,
}

/// The record of an identifier that is one bit of a bus: the name of the
/// bus.
pub fn rust_convert_verilog_index_id(verilog_id: &VerilogVirtualBaseID) -> (r: RustVerilogIndexID)
    ensures
        r.id@ == name_of(verilog_id@),
{
    RustVerilogIndexID { id: verilog_id.get_name().clone() }
}

/// Whether the identifier is one bit of a bus.
pub fn rust_is_bus_index_id(verilog_id: &VerilogVirtualBaseID) -> (r: bool)
    ensures
        r == (verilog_id@ is BusIndex),
{
    verilog_id.is_bus_index_id()
}

/// Whether the identifier is a range of bits of a bus.
pub fn rust_is_bus_slice_id(verilog_id: &VerilogVirtualBaseID) -> (r: bool)
    ensures
        r == (verilog_id@ is BusSlice),
{
    verilog_id.is_bus_slice_id()
}

/// A reference to one net as a host sees it.
#[derive(Debug, Clone, PartialEq, Eq)]
pub struct RustVerilogNetIDExpr {
    pub line_no: usize,
    pub verilog_id: VerilogVirtualBaseID,
}

/// The record of a net expression that is one net.
pub fn rust_convert_verilog_net_id_expr(net_expr: &VerilogVirtualBaseNetExpr) -> (r: RustVerilogNetIDExpr)
    requires
        net_expr@ is IdExpr,
    ensures
        net_expr@ == (NetExprView::IdExpr { id: r.verilog_id@, line: r.line_no as nat }),
{
    match net_expr {
        VerilogVirtualBaseNetExpr::IdExpr { id, line } => RustVerilogNetIDExpr {
            line_no: *line,
            verilog_id: id.copy(),
        },
        _ => vstd::pervasive::unreached(),
    }
}

/// Several nets side by side as a host sees them.
#[derive(Debug, Clone, PartialEq, Eq)]
pub struct RustVerilogNetConcatExpr {
    pub line_no: usize,
    pub verilog_id_concat: RustVec,
}

/// The record of a net expression that is several nets side by side.
pub fn rust_convert_verilog_net_concat_expr(net_expr: &VerilogVirtualBaseNetExpr) -> (r:
    RustVerilogNetConcatExpr)
    requires
        net_expr@ is ConcatExpr,
    ensures
        r.line_no as nat == net_expr@->ConcatExpr_line,
        r.verilog_id_concat.len == net_expr@->ConcatExpr_ids.len(),
        r.verilog_id_concat.cap >= r.verilog_id_concat.len,
        r.verilog_id_concat.type_size as nat == vstd::layout::size_of::<VerilogVirtualBaseID>(),
{
    match net_expr {
        VerilogVirtualBaseNetExpr::ConcatExpr { ids, line } => RustVerilogNetConcatExpr {
            line_no: *line,
            verilog_id_concat: rust_vec_to_c_array(ids),
        },
        _ => vstd::pervasive::unreached(),
    }
}

/// A constant as a host sees it.
#[derive(Debug, Clone, PartialEq, Eq)]
pub struct RustVerilogConstantExpr {
    pub line_no: usize,
    pub verilog_id: VerilogVirtualBaseID,
}

/// The record of a net expression that is a constant.
pub fn rust_convert_verilog_constant_expr(net_expr: &VerilogVirtualBaseNetExpr) -> (r: RustVerilogConstantExpr)
    requires
        net_expr@ is ConstantExpr,
    ensures
        net_expr@ == (NetExprView::ConstantExpr { id: r.verilog_id@, line: r.line_no as nat }),
{
    match net_expr {
        VerilogVirtualBaseNetExpr::ConstantExpr { id, line } => RustVerilogConstantExpr {
            line_no: *line,
            verilog_id: id.copy(),
        },
        _ => vstd::pervasive::unreached(),
    }
}

/// Whether the net expression is one net.
pub fn rust_is_id_expr(net_expr: &VerilogVirtualBaseNetExpr) -> (r: bool)
    ensures
        r == (net_expr@ is IdExpr),
{
    net_expr.is_id_expr()
}

/// Whether the net expression is several nets side by side.
pub fn rust_is_concat_expr(net_expr: &VerilogVirtualBaseNetExpr) -> (r: bool)
    ensures
        r == (net_expr@ is ConcatExpr),
{
    net_expr.is_concat_expr()
}

/// Whether the net expression is a constant.
pub fn rust_is_constant(net_expr: &VerilogVirtualBaseNetExpr) -> (r: bool)
    ensures
        r == (net_expr@ is ConstantExpr),
{
    net_expr.is_constant()
}

/// A module as a host sees it.
#[derive(Debug, Clone, PartialEq, Eq)]
pub struct RustVerilogModule {
    pub line_no: usize,
    pub module_name: String,
    pub port_list: RustVec,
    pub module_stmts: RustVec,
}

/// The record of a module.
pub fn rust_convert_raw_verilog_module(verilog_module: &VerilogModule) -> (r: RustVerilogModule)
    ensures
        r.line_no as nat == verilog_module@.line,
        r.module_name@ == verilog_module@.module_name,
        r.port_list.len == verilog_module@.port_list.len(),
        r.port_list.cap >= r.port_list.len,
        r.port_list.type_size as nat == vstd::layout::size_of::<VerilogPort>(),
        r.module_stmts.len == verilog_module@.module_stmts.len(),
        r.module_stmts.cap >= r.module_stmts.len,
        r.module_stmts.type_size as nat == vstd::layout::size_of::<VerilogVirtualBaseStmt>(),
{
    RustVerilogModule {
        line_no: verilog_module.line,
        module_name: verilog_module.module_name.clone(),
        port_list: rust_vec_to_c_array(&verilog_module.port_list),
        module_stmts: rust_vec_to_c_array(&verilog_module.module_stmts),
    }
}

/// A group of declarations as a host sees it.
#[derive(Debug, Clone, PartialEq, Eq)]
pub struct RustVerilogDcls {
    pub line_no: usize,
    pub verilog_dcls: RustVec,
}

/// The record of a statement that is a group of declarations.
pub fn rust_convert_verilog_dcls(verilog_stmt: &VerilogVirtualBaseStmt) -> (r: RustVerilogDcls)
    requires
        verilog_stmt@ is Dcls,
    ensures
        r.line_no as nat == verilog_stmt@->Dcls_line,
        r.verilog_dcls.len == verilog_stmt@->Dcls_declarations.len(),
        r.verilog_dcls.cap >= r.verilog_dcls.len,
        r.verilog_dcls.type_size as nat == vstd::layout::size_of::<VerilogVirtualBaseID>(),
{
    match verilog_stmt {
        VerilogVirtualBaseStmt::Dcls(dcls) => RustVerilogDcls {
            line_no: dcls.line,
            verilog_dcls: rust_vec_to_c_array(&dcls.declarations),
        },
        _ => vstd::pervasive::unreached(),
    }
}

/// An instance as a host sees it.
#[derive(Debug, Clone, PartialEq, Eq)]
pub struct RustVerilogInst {
    pub line_no: usize,
    pub inst_name: String,
    pub cell_name: String,
    pub port_connections: RustVec,
}

/// The record of a statement that is an instance.
pub fn rust_convert_verilog_inst(verilog_stmt: &VerilogVirtualBaseStmt) -> (r: RustVerilogInst)
    requires
        verilog_stmt@ is Inst,
    ensures
        r.line_no as nat == verilog_stmt@->Inst_line,
        r.inst_name@ == verilog_stmt@->Inst_inst_name,
        r.cell_name@ == verilog_stmt@->Inst_cell_name,
        r.port_connections.len == verilog_stmt@->Inst_port_connections.len(),
        r.port_connections.cap >= r.port_connections.len,
        r.port_connections.type_size as nat == vstd::layout::size_of::<VerilogPortRefPortConnect>(),
{
    match verilog_stmt {
        VerilogVirtualBaseStmt::Inst(inst) => RustVerilogInst {
            line_no: inst.line,
            inst_name: inst.inst_name.clone(),
            cell_name: inst.cell_name.clone(),
            port_connections: rust_vec_to_c_array(&inst.port_connections),
        },
        _ => vstd::pervasive::unreached(),
    }
}

/// A port connection as a host sees it. An open port has no net expression.
#[derive(Debug, Clone, PartialEq, Eq)]
pub struct RustVerilogPortRefPortConnect {
    pub port_id: VerilogVirtualBaseID,
    pub net_expr: Option<VerilogVirtualBaseNetExpr>,
}

/// The record of a port connection.
pub fn rust_convert_verilog_port_ref_port_connect(port_connect: &VerilogPortRefPortConnect) -> (r:
    RustVerilogPortRefPortConnect)
    ensures
        r.port_id@ == port_connect@.port_id,
        opt_expr_view(r.net_expr) == port_connect@.net_expr,
{
    let net_expr = match &port_connect.net_expr {
        Some(e) => Some(e.copy()),
        None => None,
    };
    RustVerilogPortRefPortConnect { port_id: port_connect.port_id.copy(), net_expr }
}

/// Whether the statement is an instance.
pub fn rust_is_module_inst_stmt(verilog_stmt: &VerilogVirtualBaseStmt) -> (r: bool)
    ensures
        r == (verilog_stmt@ is Inst),
{
    verilog_stmt.is_module_inst_stmt()
}

/// Whether the statement is an assignment.
pub fn rust_is_module_assign_stmt(verilog_stmt: &VerilogVirtualBaseStmt) -> (r: bool)
    ensures
        r == (verilog_stmt@ is Assign),
{
    verilog_stmt.is_module_assign_stmt()
}

/// Whether the statement is a group of declarations.
pub fn rust_is_verilog_dcls_stmt(verilog_stmt: &VerilogVirtualBaseStmt) -> (r: bool)
    ensures
        r == (verilog_stmt@ is Dcls),
{
    verilog_stmt.is_verilog_dcls_stmt()
}

} // verus!
