use vstd::prelude::*;
use vstd::string::*;
use crate::verilog_data::{
    connects_view, copy_ports, ids_view, modules_view, name_of, stmts_view, with_name, ModuleView,
    NetExprView, PortConnectView, StmtView, VerilogAssign, VerilogDcls, VerilogIdView, VerilogInst,
    VerilogModule, VerilogPortRefPortConnect, VerilogVirtualBaseID, VerilogVirtualBaseNetExpr,
    VerilogVirtualBaseStmt,
};

verus! {

/// Mathematical value of a flattening error.
pub enum FlattenErrorView {
    UnknownModule { name: Seq<char> },
    InstantiationCycle { module_chain: Seq<int> },
}

/// Why a design could not be flattened.
#[derive(Debug, Clone, PartialEq, Eq)]
pub enum FlattenError {
    /// The design has no module of the name that was asked for.
    UnknownModule { name: String },
    /// A module instantiates itself, directly or through others. The chain
    /// holds the places in the design of the modules that instantiate one
    /// another, from the top module to the one that closes the cycle.
    InstantiationCycle { module_chain: Vec<usize> },
}

/// The places of a chain as integers.
pub open spec fn chain_view(chain: Seq<usize>) -> Seq<int> {
    Seq::new(chain.len(), |i: int| chain[i] as int)
}

impl View for FlattenError {
    type V = FlattenErrorView;

    open spec fn view(&self) -> FlattenErrorView {
        match self {
            FlattenError::UnknownModule { name } => FlattenErrorView::UnknownModule { name: name@ },
            FlattenError::InstantiationCycle { module_chain } => FlattenErrorView::InstantiationCycle {
                module_chain: chain_view(module_chain@),
            },
        }
    }
}

/// The place at or after `i` of the first module of the given name.
pub open spec fn find_module_from(design: Seq<ModuleView>, name: Seq<char>, i: int) -> Option<int>
    decreases design.len() - i,
{
    if !(0 <= i < design.len()) {
        None
    } else if design[i].module_name == name {
        Some(i)
    } else {
        find_module_from(design, name, i + 1)
    }
}

/// The place in the design of the first module of the given name.
pub open spec fn find_module_spec(design: Seq<ModuleView>, name: Seq<char>) -> Option<int> {
    find_module_from(design, name, 0)
}

/// What the first connection at or after `i` of the port `name` connects it
/// to; nothing if there is no such connection or if it leaves the port open.
pub open spec fn lookup_from(binding: Seq<PortConnectView>, name: Seq<char>, i: int) -> Option<NetExprView>
    decreases binding.len() - i,
{
    if !(0 <= i < binding.len()) {
        None
    } else if name_of(binding[i].port_id) == name {
        binding[i].net_expr
    } else {
        lookup_from(binding, name, i + 1)
    }
}

/// What the call site connects the port `name` to.
pub open spec fn lookup_spec(binding: Seq<PortConnectView>, name: Seq<char>) -> Option<NetExprView> {
    lookup_from(binding, name, 0)
}

/// The one identifier that an expression consists of, if it is one.
pub open spec fn single_target(e: Option<NetExprView>) -> Option<VerilogIdView> {
    match e {
        Some(NetExprView::IdExpr { id, .. }) => Some(id),
        Some(NetExprView::ConstantExpr { id, .. }) => Some(id),
        _ => None,
    }
}

/// The identifier under its hierarchical name: the path of the enclosing
/// instances in front of its own name.
pub open spec fn prefixed(prefix: Seq<char>, id: VerilogIdView) -> VerilogIdView {
    with_name(id, prefix + name_of(id))
}

/// An identifier of an inlined module, seen from the module that holds the
/// instance. A port that the call site connects to one identifier becomes
/// that identifier; a bit or a range of such a port is taken from the net it
/// is connected to. Every other name is internal and gets the prefix.
pub open spec fn subst_id_spec(prefix: Seq<char>, binding: Seq<PortConnectView>, id: VerilogIdView) -> VerilogIdView {
    match single_target(lookup_spec(binding, name_of(id))) {
        Some(target) => if id is Id {
            target
        } else if target is Id {
            with_name(id, name_of(target))
        } else {
            prefixed(prefix, id)
        },
        None => prefixed(prefix, id),
    }
}

/// Each identifier of a sequence, seen from the enclosing module.
pub open spec fn subst_ids_spec(prefix: Seq<char>, binding: Seq<PortConnectView>, ids: Seq<VerilogIdView>) -> Seq<
    VerilogIdView,
> {
    Seq::new(ids.len(), |i: int| subst_id_spec(prefix, binding, ids[i]))
}

/// A net expression of an inlined module, seen from the enclosing module. A
/// reference to a connected port becomes what the call site connects it to.
pub open spec fn subst_expr_spec(prefix: Seq<char>, binding: Seq<PortConnectView>, e: NetExprView) -> NetExprView {
    match e {
        NetExprView::IdExpr { id, line } => if id is Id && lookup_spec(binding, name_of(id)) is Some {
            lookup_spec(binding, name_of(id))->Some_0
        } else {
            NetExprView::IdExpr { id: subst_id_spec(prefix, binding, id), line }
        },
        NetExprView::ConcatExpr { ids, line } => NetExprView::ConcatExpr {
            ids: subst_ids_spec(prefix, binding, ids),
            line,
        },
        NetExprView::ConstantExpr { .. } => e,
    }
}

/// A port connection of an inlined instance, seen from the enclosing module.
pub open spec fn subst_connect_spec(prefix: Seq<char>, binding: Seq<PortConnectView>, c: PortConnectView) -> PortConnectView {
    PortConnectView {
        port_id: c.port_id,
        net_expr: match c.net_expr {
            Some(e) => Some(subst_expr_spec(prefix, binding, e)),
            None => None,
        },
    }
}

/// Each port connection of a sequence, seen from the enclosing module.
pub open spec fn subst_connects_spec(
    prefix: Seq<char>,
    binding: Seq<PortConnectView>,
    cs: Seq<PortConnectView>,
) -> Seq<PortConnectView> {
    Seq::new(cs.len(), |i: int| subst_connect_spec(prefix, binding, cs[i]))
}

/// The first `n` declarations of an inlined module that stay: those of
/// connected ports go, the others get the prefix.
pub open spec fn kept_decls(prefix: Seq<char>, binding: Seq<PortConnectView>, decls: Seq<VerilogIdView>, n: nat) -> Seq<
    VerilogIdView,
>
    decreases n,
{
    if n == 0 || n > decls.len() {
        Seq::empty()
    } else {
        let rest = kept_decls(prefix, binding, decls, (n - 1) as nat);
        if lookup_spec(binding, name_of(decls[n - 1])) is Some {
            rest
        } else {
            rest.push(prefixed(prefix, decls[n - 1]))
        }
    }
}

/// The path of an instance: the prefix, its name and a slash.
pub open spec fn child_prefix(prefix: Seq<char>, inst_name: Seq<char>) -> Seq<char> {
    prefix + inst_name + seq!['/']
}

/// What one statement of a module becomes in the module that holds the
/// instance: itself, renamed, or, for an instance of a module of the design,
/// the flattened statements of that module.
pub open spec fn flatten_stmt_spec(
    design: Seq<ModuleView>,
    stmt: StmtView,
    prefix: Seq<char>,
    binding: Seq<PortConnectView>,
    chain: Seq<int>,
) -> Result<Seq<StmtView>, FlattenErrorView>
    decreases design.len() - chain.len(), 0nat,
{
    match stmt {
        StmtView::Dcls { declarations, line } => Ok(
            seq![
                StmtView::Dcls {
                    declarations: kept_decls(prefix, binding, declarations, declarations.len()),
                    line,
                },
            ],
        ),
        StmtView::Assign { left, right, line } => Ok(
            seq![
                StmtView::Assign {
                    left: subst_expr_spec(prefix, binding, left),
                    right: subst_expr_spec(prefix, binding, right),
                    line,
                },
            ],
        ),
        StmtView::Inst { inst_name, cell_name, port_connections, line } => {
            let connects = subst_connects_spec(prefix, binding, port_connections);
            match find_module_spec(design, cell_name) {
                None => Ok(
                    seq![
                        StmtView::Inst {
                            inst_name: prefix + inst_name,
                            cell_name,
                            port_connections: connects,
                            line,
                        },
                    ],
                ),
                Some(m) => if chain.contains(m) || chain.len() >= design.len() || !(0 <= m < design.len()) {
                    Err(FlattenErrorView::InstantiationCycle { module_chain: chain.push(m) })
                } else {
                    flatten_stmts_spec(
                        design,
                        design[m].module_stmts,
                        design[m].module_stmts.len(),
                        child_prefix(prefix, inst_name),
                        connects,
                        chain.push(m),
                    )
                },
            }
        },
    }
}

/// What the first `n` statements of a module become, in order; the first
/// failure if one of them fails.
pub open spec fn flatten_stmts_spec(
    design: Seq<ModuleView>,
    stmts: Seq<StmtView>,
    n: nat,
    prefix: Seq<char>,
    binding: Seq<PortConnectView>,
    chain: Seq<int>,
) -> Result<Seq<StmtView>, FlattenErrorView>
    decreases design.len() - chain.len(), n + 1,
{
    if n == 0 || n > stmts.len() {
        Ok(Seq::empty())
    } else {
        match flatten_stmts_spec(design, stmts, (n - 1) as nat, prefix, binding, chain) {
            Err(e) => Err(e),
            Ok(head) => match flatten_stmt_spec(design, stmts[n - 1], prefix, binding, chain) {
                Err(e) => Err(e),
                Ok(tail) => Ok(head + tail),
            },
        }
    }
}

/// The flattened top module: the module of the given name, with every
/// instance of a module of the design replaced by that module's statements,
/// to any depth.
pub open spec fn flatten_spec(design: Seq<ModuleView>, top: Seq<char>) -> Result<ModuleView, FlattenErrorView> {
    match find_module_spec(design, top) {
        None => Err(FlattenErrorView::UnknownModule { name: top }),
        Some(t) => match flatten_stmts_spec(
            design,
            design[t].module_stmts,
            design[t].module_stmts.len(),
            Seq::empty(),
            Seq::empty(),
            seq![t],
        ) {
            Ok(stmts) => Ok(
                ModuleView {
                    module_name: design[t].module_name,
                    port_list: design[t].port_list,
                    module_stmts: stmts,
                    line: design[t].line,
                },
            ),
            Err(e) => Err(e),
        },
    }
}

/// The place in the design of the first module of the given name.
pub fn find_module_index(modules: &Vec<VerilogModule>, name: &String) -> (r: Option<usize>)
    ensures
        match r {
            Some(i) => find_module_spec(modules_view(modules@), name@) == Some(i as int) && i < modules@.len(),
            None => find_module_spec(modules_view(modules@), name@) is None,
        },
{
    let ghost design = modules_view(modules@);
    let mut i: usize = 0;
    while i < modules.len()
        invariant
            i <= modules@.len(),
            design == modules_view(modules@),
            find_module_spec(design, name@) == find_module_from(design, name@, i as int),
        decreases modules@.len() - i,
    {
        if modules[i].module_name.eq(name) {
            return Some(i);
        }
        i += 1;
    }
    None
}

/// What the call site connects the port `name` to.
fn lookup<'a>(binding: &'a Vec<VerilogPortRefPortConnect>, name: &String) -> (r: Option<
    &'a VerilogVirtualBaseNetExpr,
>)
    ensures
        match r {
            Some(e) => lookup_spec(connects_view(binding@), name@) == Some(e@),
            None => lookup_spec(connects_view(binding@), name@) is None,
        },
{
    let ghost cs = connects_view(binding@);
    let mut i: usize = 0;
    while i < binding.len()
        invariant
            i <= binding@.len(),
            cs == connects_view(binding@),
            lookup_spec(cs, name@) == lookup_from(cs, name@, i as int),
        decreases binding@.len() - i,
    {
        if binding[i].port_id.get_name().eq(name) {
            return match &binding[i].net_expr {
                Some(e) => Some(e),
                None => None,
            };
        }
        i += 1;
    }
    None
}

/// The identifier under its hierarchical name.
fn prefixed_id(prefix: &String, id: &VerilogVirtualBaseID) -> (r: VerilogVirtualBaseID)
    ensures
        r@ == prefixed(prefix@, id@),
{
    let mut name = prefix.clone();
    name.append(id.get_name().as_str());
    id.renamed(name)
}

/// An identifier of an inlined module, seen from the enclosing module.
fn subst_id(prefix: &String, binding: &Vec<VerilogPortRefPortConnect>, id: &VerilogVirtualBaseID) -> (r:
    VerilogVirtualBaseID)
    ensures
        r@ == subst_id_spec(prefix@, connects_view(binding@), id@),
{
    let target = match lookup(binding, id.get_name()) {
        Some(VerilogVirtualBaseNetExpr::IdExpr { id: t, .. }) => Some(t),
        Some(VerilogVirtualBaseNetExpr::ConstantExpr { id: t, .. }) => Some(t),
        _ => None,
    };
    match target {
        Some(t) => {
            if id.is_id() {
                t.copy()
            } else if t.is_id() {
                id.renamed(t.get_name().clone())
            } else {
                prefixed_id(prefix, id)
            }
        },
        None => prefixed_id(prefix, id),
    }
}

/// A net expression of an inlined module, seen from the enclosing module.
fn subst_expr(prefix: &String, binding: &Vec<VerilogPortRefPortConnect>, e: &VerilogVirtualBaseNetExpr) -> (r:
    VerilogVirtualBaseNetExpr)
    ensures
        r@ == subst_expr_spec(prefix@, connects_view(binding@), e@),
{
    match e {
        VerilogVirtualBaseNetExpr::IdExpr { id, line } => {
            if id.is_id() {
                match lookup(binding, id.get_name()) {
                    Some(target) => {
                        return target.copy();
                    },
                    None => {},
                }
            }
            VerilogVirtualBaseNetExpr::IdExpr { id: subst_id(prefix, binding, id), line: *line }
        },
        VerilogVirtualBaseNetExpr::ConcatExpr { ids, line } => {
            let mut out: Vec<VerilogVirtualBaseID> = Vec::new();
            let mut i: usize = 0;
            while i < ids.len()
                invariant
                    i <= ids@.len(),
                    out@.len() == i,
                    forall|j: int|
                        0 <= j < i ==> (#[trigger] out@[j])@ == subst_id_spec(
                            prefix@,
                            connects_view(binding@),
                            ids@[j]@,
                        ),
                decreases ids@.len() - i,
            {
                out.push(subst_id(prefix, binding, &ids[i]));
                i += 1;
            }
            assert(ids_view(out@) =~= subst_ids_spec(prefix@, connects_view(binding@), ids_view(ids@)));
            VerilogVirtualBaseNetExpr::ConcatExpr { ids: out, line: *line }
        },
        VerilogVirtualBaseNetExpr::ConstantExpr { .. } => e.copy(),
    }
}

/// The port connections of an inlined instance, seen from the enclosing
/// module.
fn subst_connects(
    prefix: &String,
    binding: &Vec<VerilogPortRefPortConnect>,
    cs: &Vec<VerilogPortRefPortConnect>,
) -> (r: Vec<VerilogPortRefPortConnect>)
    ensures
        connects_view(r@) == subst_connects_spec(prefix@, connects_view(binding@), connects_view(cs@)),
{
    let mut out: Vec<VerilogPortRefPortConnect> = Vec::new();
    let mut i: usize = 0;
    while i < cs.len()
        invariant
            i <= cs@.len(),
            out@.len() == i,
            forall|j: int|
                0 <= j < i ==> (#[trigger] out@[j])@ == subst_connect_spec(
                    prefix@,
                    connects_view(binding@),
                    cs@[j]@,
                ),
        decreases cs@.len() - i,
    {
        let net_expr = match &cs[i].net_expr {
            Some(e) => Some(subst_expr(prefix, binding, e)),
            None => None,
        };
        out.push(VerilogPortRefPortConnect { port_id: cs[i].port_id.copy(), net_expr });
        i += 1;
    }
    assert(connects_view(out@) =~= subst_connects_spec(prefix@, connects_view(binding@), connects_view(cs@)));
    out
}

/// The declarations of an inlined module that stay, under their hierarchical
/// names.
fn subst_decls(prefix: &String, binding: &Vec<VerilogPortRefPortConnect>, decls: &Vec<VerilogVirtualBaseID>) -> (r:
    Vec<VerilogVirtualBaseID>)
    ensures
        ids_view(r@) == kept_decls(prefix@, connects_view(binding@), ids_view(decls@), decls@.len()),
{
    let mut out: Vec<VerilogVirtualBaseID> = Vec::new();
    let mut i: usize = 0;
    assert(ids_view(out@) =~= Seq::empty());
    while i < decls.len()
        invariant
            i <= decls@.len(),
            ids_view(out@) == kept_decls(prefix@, connects_view(binding@), ids_view(decls@), i as nat),
        decreases decls@.len() - i,
    {
        let ghost before = ids_view(out@);
        match lookup(binding, decls[i].get_name()) {
            Some(_) => {},
            None => {
                out.push(prefixed_id(prefix, &decls[i]));
                assert(ids_view(out@) =~= before.push(prefixed(prefix@, decls@[i as int]@)));
            },
        }
        i += 1;
    }
    out
}

/// Whether the chain holds the place `m`.
fn chain_contains(chain: &Vec<usize>, m: usize) -> (r: bool)
    ensures
        r == chain_view(chain@).contains(m as int),
{
    let mut i: usize = 0;
    while i < chain.len()
        invariant
            i <= chain@.len(),
            forall|j: int| 0 <= j < i ==> chain_view(chain@)[j] != m as int,
        decreases chain@.len() - i,
    {
        if chain[i] == m {
            assert(chain_view(chain@)[i as int] == m as int);
            return true;
        }
        i += 1;
    }
    false
}

/// The chain with one more place at its end.
fn chain_with(chain: &Vec<usize>, m: usize) -> (r: Vec<usize>)
    ensures
        chain_view(r@) == chain_view(chain@).push(m as int),
        r@.len() == chain@.len() + 1,
{
    let mut out: Vec<usize> = Vec::new();
    let mut i: usize = 0;
    while i < chain.len()
        invariant
            i <= chain@.len(),
            out@ == chain@.take(i as int),
        decreases chain@.len() - i,
    {
        out.push(chain[i]);
        assert(out@ =~= chain@.take(i + 1));
        i += 1;
    }
    out.push(m);
    assert(chain_view(out@) =~= chain_view(chain@).push(m as int));
    out
}

/// The view of the outcome of flattening a list of statements.
pub open spec fn stmts_result_view(r: Result<Vec<VerilogVirtualBaseStmt>, FlattenError>) -> Result<
    Seq<StmtView>,
    FlattenErrorView,
> {
    match r {
        Ok(v) => Ok(stmts_view(v@)),
        Err(e) => Err(e@),
    }
}

/// Flattens the statements of one module as seen from the module that holds
/// its instance: `prefix` is the path of the enclosing instances, `binding`
/// the port connections of the instance, and `chain` the modules that are
/// being inlined, from the top module down to this one.
pub fn flatten_stmts(
    design: &Vec<VerilogModule>,
    stmts: &Vec<VerilogVirtualBaseStmt>,
    prefix: &String,
    binding: &Vec<VerilogPortRefPortConnect>,
    chain: &Vec<usize>,
) -> (r: Result<Vec<VerilogVirtualBaseStmt>, FlattenError>)
    ensures
        stmts_result_view(r) == flatten_stmts_spec(
            modules_view(design@),
            stmts_view(stmts@),
            stmts@.len(),
            prefix@,
            connects_view(binding@),
            chain_view(chain@),
        ),
    decreases design@.len() - chain@.len(),
{
    let ghost d = modules_view(design@);
    let ghost sv = stmts_view(stmts@);
    let ghost bv = connects_view(binding@);
    let ghost cv = chain_view(chain@);
    let mut out: Vec<VerilogVirtualBaseStmt> = Vec::new();
    let mut i: usize = 0;
    assert(stmts_view(out@) =~= Seq::empty());
    while i < stmts.len()
        invariant
            i <= stmts@.len(),
            d == modules_view(design@),
            sv == stmts_view(stmts@),
            bv == connects_view(binding@),
            cv == chain_view(chain@),
            flatten_stmts_spec(d, sv, i as nat, prefix@, bv, cv) == Ok::<Seq<StmtView>, FlattenErrorView>(
                stmts_view(out@),
            ),
        decreases stmts@.len() - i,
    {
        let ghost before = stmts_view(out@);
        match &stmts[i] {
            VerilogVirtualBaseStmt::Dcls(dcls) => {
                let declarations = subst_decls(prefix, binding, &dcls.declarations);
                out.push(VerilogVirtualBaseStmt::Dcls(VerilogDcls { declarations, line: dcls.line }));
                assert(stmts_view(out@) =~= before + flatten_stmt_spec(d, sv[i as int], prefix@, bv, cv)->Ok_0);
            },
            VerilogVirtualBaseStmt::Assign(a) => {
                let left = subst_expr(prefix, binding, &a.left);
                let right = subst_expr(prefix, binding, &a.right);
                out.push(VerilogVirtualBaseStmt::Assign(VerilogAssign { left, right, line: a.line }));
                assert(stmts_view(out@) =~= before + flatten_stmt_spec(d, sv[i as int], prefix@, bv, cv)->Ok_0);
            },
            VerilogVirtualBaseStmt::Inst(inst) => {
                let connects = subst_connects(prefix, binding, &inst.port_connections);
                match find_module_index(design, &inst.cell_name) {
                    None => {
                        let mut inst_name = prefix.clone();
                        inst_name.append(inst.inst_name.as_str());
                        out.push(
                            VerilogVirtualBaseStmt::Inst(
                                VerilogInst {
                                    inst_name,
                                    cell_name: inst.cell_name.clone(),
                                    port_connections: connects,
                                    line: inst.line,
                                },
                            ),
                        );
                        assert(stmts_view(out@) =~= before + flatten_stmt_spec(
                            d,
                            sv[i as int],
                            prefix@,
                            bv,
                            cv,
                        )->Ok_0);
                    },
                    Some(m) => {
                        let longer = chain_with(chain, m);
                        if chain_contains(chain, m) || chain.len() >= design.len() {
                            proof {
                                assert(flatten_stmt_spec(d, sv[i as int], prefix@, bv, cv) is Err);
                                lemma_flatten_stmts_err(d, sv, (i + 1) as nat, stmts@.len(), prefix@, bv, cv);
                            }
                            return Err(FlattenError::InstantiationCycle { module_chain: longer });
                        }
                        let mut path = prefix.clone();
                        path.append(inst.inst_name.as_str());
                        path.append("/");
                        proof {
                            reveal_strlit("/");
                            assert(path@ =~= child_prefix(prefix@, inst.inst_name@));
                            assert(d[m as int].module_stmts == stmts_view(design@[m as int].module_stmts@));
                        }
                        match flatten_stmts(design, &design[m].module_stmts, &path, &connects, &longer) {
                            Ok(mut inner) => {
                                let ghost inner_view = stmts_view(inner@);
                                out.append(&mut inner);
                                assert(stmts_view(out@) =~= before + inner_view);
                            },
                            Err(e) => {
                                proof {
                                    assert(flatten_stmt_spec(d, sv[i as int], prefix@, bv, cv) is Err);
                                    lemma_flatten_stmts_err(d, sv, (i + 1) as nat, stmts@.len(), prefix@, bv, cv);
                                }
                                return Err(e);
                            },
                        }
                    },
                }
            },
        }
        i += 1;
    }
    Ok(out)
}

/// A failure among the first statements is the failure of the whole list.
pub proof fn lemma_flatten_stmts_err(
    design: Seq<ModuleView>,
    stmts: Seq<StmtView>,
    n: nat,
    m: nat,
    prefix: Seq<char>,
    binding: Seq<PortConnectView>,
    chain: Seq<int>,
)
    requires
        n <= m <= stmts.len(),
        flatten_stmts_spec(design, stmts, n, prefix, binding, chain) is Err,
    ensures
        flatten_stmts_spec(design, stmts, m, prefix, binding, chain) == flatten_stmts_spec(
            design,
            stmts,
            n,
            prefix,
            binding,
            chain,
        ),
    decreases m,
{
    if n < m {
        lemma_flatten_stmts_err(design, stmts, n, (m - 1) as nat, prefix, binding, chain);
    }
}

/// The place at or after `i` of the first instance of the given name and
/// cell among the statements.
pub open spec fn find_inst_from(stmts: Seq<StmtView>, inst_name: Seq<char>, cell_name: Seq<char>, i: int) -> Option<
    int,
>
    decreases stmts.len() - i,
{
    if !(0 <= i < stmts.len()) {
        None
    } else if stmts[i] matches StmtView::Inst { inst_name: n, cell_name: c, .. } && n == inst_name && c
        == cell_name {
        Some(i)
    } else {
        find_inst_from(stmts, inst_name, cell_name, i + 1)
    }
}

/// The first instance of the given name and cell among the statements of a
/// module.
pub fn find_inst_stmt<'a>(module: &'a VerilogModule, inst_name: &str, cell_name: &str) -> (r: Option<
    &'a VerilogInst,
>)
    ensures
        match find_inst_from(module@.module_stmts, inst_name@, cell_name@, 0) {
            Some(i) => r is Some && module.module_stmts@[i] == VerilogVirtualBaseStmt::Inst(*r->Some_0),
            None => r is None,
        },
{
    let wanted_inst = inst_name.to_owned();
    let wanted_cell = cell_name.to_owned();
    let ghost stmts = module@.module_stmts;
    let mut i: usize = 0;
    while i < module.module_stmts.len()
        invariant
            i <= module.module_stmts@.len(),
            stmts == stmts_view(module.module_stmts@),
            wanted_inst@ == inst_name@,
            wanted_cell@ == cell_name@,
            find_inst_from(stmts, inst_name@, cell_name@, 0) == find_inst_from(
                stmts,
                inst_name@,
                cell_name@,
                i as int,
            ),
        decreases module.module_stmts@.len() - i,
    {
        match &module.module_stmts[i] {
            VerilogVirtualBaseStmt::Inst(inst) => {
                if inst.inst_name.eq(&wanted_inst) && inst.cell_name.eq(&wanted_cell) {
                    return Some(inst);
                }
            },
            _ => {},
        }
        i += 1;
    }
    None
}

/// The modules of a netlist file.
#[derive(Debug, Clone, PartialEq, Eq)]
pub struct VerilogFile {
    pub verilog_modules: Vec<VerilogModule>,
}

impl VerilogFile {
    /// The first module of the given name.
    pub fn get_module(&self, name: &str) -> (r: Option<&VerilogModule>)
        ensures
            match r {
                Some(m) => {
                    &&& find_module_spec(modules_view(self.verilog_modules@), name@) is Some
                    &&& *m == self.verilog_modules@[find_module_spec(
                        modules_view(self.verilog_modules@),
                        name@,
                    )->Some_0]
                },
                None => find_module_spec(modules_view(self.verilog_modules@), name@) is None,
            },
    {
        let owned = name.to_owned();
        match find_module_index(&self.verilog_modules, &owned) {
            Some(i) => Some(&self.verilog_modules[i]),
            None => None,
        }
    }
}

/// The view of the outcome of flattening a design.
pub open spec fn module_result_view(r: Result<VerilogModule, FlattenError>) -> Result<ModuleView, FlattenErrorView> {
    match r {
        Ok(m) => Ok(m@),
        Err(e) => Err(e@),
    }
}

/// Flattens the module of the given name: every instance of a module of the
/// design is replaced by the statements of that module, to any depth, so that
/// only instances of cells from outside the design remain.
pub fn flatten_module(verilog_file: &VerilogFile, top_module_name: &str) -> (r: Result<
    VerilogModule,
    FlattenError,
>)
    ensures
        module_result_view(r) == flatten_spec(modules_view(verilog_file.verilog_modules@), top_module_name@),
        r matches Ok(m) ==> crate::verilog_laws::only_leaf_instances(
            modules_view(verilog_file.verilog_modules@),
            m@.module_stmts,
        ),
{
    proof {
        crate::verilog_laws::lemma_flatten_leaves_only(
            modules_view(verilog_file.verilog_modules@),
            top_module_name@,
        );
    }
    let design = &verilog_file.verilog_modules;
    let name = top_module_name.to_owned();
    match find_module_index(design, &name) {
        None => Err(FlattenError::UnknownModule { name }),
        Some(t) => {
            let prefix = String::new();
            let binding: Vec<VerilogPortRefPortConnect> = Vec::new();
            let mut chain: Vec<usize> = Vec::new();
            chain.push(t);
            proof {
                assert(connects_view(binding@) =~= Seq::empty());
                assert(chain_view(chain@) =~= seq![t as int]);
                assert(modules_view(design@)[t as int].module_stmts == stmts_view(design@[t as int].module_stmts@));
            }
            match flatten_stmts(design, &design[t].module_stmts, &prefix, &binding, &chain) {
                Ok(module_stmts) => Ok(
                    VerilogModule {
                        module_name: design[t].module_name.clone(),
                        port_list: copy_ports(&design[t].port_list),
                        module_stmts,
                        line: design[t].line,
                    },
                ),
                Err(e) => Err(e),
            }
        },
    }
}

} // verus!
