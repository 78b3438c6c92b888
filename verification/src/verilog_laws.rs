use vstd::prelude::*;
use crate::verilog_data::{name_of, ModuleView, NetExprView, PortConnectView, StmtView, VerilogIdView};
use crate::verilog_parser::{
    find_module_spec, flatten_spec, flatten_stmt_spec, flatten_stmts_spec, child_prefix, kept_decls,
    lookup_spec, prefixed, subst_connects_spec, subst_expr_spec, subst_id_spec, subst_ids_spec,
    FlattenErrorView,
};

verus! {

/// Whether every instance among the statements is an instance of a cell that
/// the design does not define.
pub open spec fn only_leaf_instances(design: Seq<ModuleView>, stmts: Seq<StmtView>) -> bool {
    forall|k: int|
        0 <= k < stmts.len() ==> ((#[trigger] stmts[k]) matches StmtView::Inst { cell_name, .. }
            ==> find_module_spec(design, cell_name) is None)
}

/// Whatever one statement flattens to holds only instances of cells from
/// outside the design.
pub proof fn lemma_flatten_stmt_leaves(
    design: Seq<ModuleView>,
    stmt: StmtView,
    prefix: Seq<char>,
    binding: Seq<PortConnectView>,
    chain: Seq<int>,
)
    ensures
        flatten_stmt_spec(design, stmt, prefix, binding, chain) matches Ok(out) ==> only_leaf_instances(design, out),
    decreases design.len() - chain.len(), 0nat,
{
    match stmt {
        StmtView::Inst { inst_name, cell_name, port_connections, line } => {
            match find_module_spec(design, cell_name) {
                Some(m) => {
                    if !(chain.contains(m) || chain.len() >= design.len() || !(0 <= m < design.len())) {
                        lemma_flatten_stmts_leaves(
                            design,
                            design[m].module_stmts,
                            design[m].module_stmts.len(),
                            child_prefix(prefix, inst_name),
                            subst_connects_spec(prefix, binding, port_connections),
                            chain.push(m),
                        );
                    }
                },
                None => {},
            }
        },
        _ => {},
    }
}

/// Whatever a list of statements flattens to holds only instances of cells
/// from outside the design.
pub proof fn lemma_flatten_stmts_leaves(
    design: Seq<ModuleView>,
    stmts: Seq<StmtView>,
    n: nat,
    prefix: Seq<char>,
    binding: Seq<PortConnectView>,
    chain: Seq<int>,
)
    ensures
        flatten_stmts_spec(design, stmts, n, prefix, binding, chain) matches Ok(out) ==> only_leaf_instances(
            design,
            out,
        ),
    decreases design.len() - chain.len(), n + 1,
{
    if n == 0 || n > stmts.len() {
    } else {
        lemma_flatten_stmts_leaves(design, stmts, (n - 1) as nat, prefix, binding, chain);
        lemma_flatten_stmt_leaves(design, stmts[n - 1], prefix, binding, chain);
        let head = flatten_stmts_spec(design, stmts, (n - 1) as nat, prefix, binding, chain);
        let tail = flatten_stmt_spec(design, stmts[n - 1], prefix, binding, chain);
        if head is Ok && tail is Ok {
            let h = head->Ok_0;
            let t = tail->Ok_0;
            assert forall|k: int| 0 <= k < (h + t).len() implies ((#[trigger] (h + t)[k]) matches StmtView::Inst {
                cell_name,
                ..
            } ==> find_module_spec(design, cell_name) is None) by {
                if k < h.len() {
                    assert((h + t)[k] == h[k]);
                } else {
                    assert((h + t)[k] == t[k - h.len()]);
                }
            }
        }
    }
}

/// A flattened module holds no instance of a module of the design: every
/// instance that remains is an instance of a cell from outside it.
pub proof fn lemma_flatten_leaves_only(design: Seq<ModuleView>, top: Seq<char>)
    ensures
        flatten_spec(design, top) matches Ok(m) ==> only_leaf_instances(design, m.module_stmts),
{
    match find_module_spec(design, top) {
        Some(t) => {
            lemma_flatten_stmts_leaves(
                design,
                design[t].module_stmts,
                design[t].module_stmts.len(),
                Seq::empty(),
                Seq::empty(),
                seq![t],
            );
        },
        None => {},
    }
}

/// Without a prefix and without connections an identifier stays as it is.
pub proof fn lemma_subst_id_identity(id: VerilogIdView)
    ensures
        subst_id_spec(Seq::empty(), Seq::empty(), id) == id,
        prefixed(Seq::empty(), id) == id,
        lookup_spec(Seq::empty(), name_of(id)) is None,
{
    assert(Seq::<char>::empty() + name_of(id) =~= name_of(id));
}

/// Without a prefix and without connections a net expression stays as it is.
pub proof fn lemma_subst_expr_identity(e: NetExprView)
    ensures
        subst_expr_spec(Seq::empty(), Seq::empty(), e) == e,
{
    match e {
        NetExprView::IdExpr { id, line } => {
            lemma_subst_id_identity(id);
        },
        NetExprView::ConcatExpr { ids, line } => {
            assert forall|i: int| 0 <= i < ids.len() implies subst_ids_spec(Seq::empty(), Seq::empty(), ids)[i]
                == ids[i] by {
                lemma_subst_id_identity(ids[i]);
            }
            assert(subst_ids_spec(Seq::empty(), Seq::empty(), ids) =~= ids);
        },
        NetExprView::ConstantExpr { .. } => {},
    }
}

/// Without a prefix and without connections port connections stay as they
/// are.
pub proof fn lemma_subst_connects_identity(cs: Seq<PortConnectView>)
    ensures
        subst_connects_spec(Seq::empty(), Seq::empty(), cs) == cs,
{
    assert forall|i: int| 0 <= i < cs.len() implies subst_connects_spec(Seq::empty(), Seq::empty(), cs)[i]
        == cs[i] by {
        match cs[i].net_expr {
            Some(e) => {
                lemma_subst_expr_identity(e);
            },
            None => {},
        }
    }
    assert(subst_connects_spec(Seq::empty(), Seq::empty(), cs) =~= cs);
}

/// Without a prefix and without connections every declaration stays.
pub proof fn lemma_kept_decls_identity(decls: Seq<VerilogIdView>, n: nat)
    requires
        n <= decls.len(),
    ensures
        kept_decls(Seq::empty(), Seq::empty(), decls, n) == decls.take(n as int),
    decreases n,
{
    if n == 0 {
        assert(decls.take(0) =~= Seq::empty());
    } else {
        lemma_kept_decls_identity(decls, (n - 1) as nat);
        lemma_subst_id_identity(decls[n - 1]);
        assert(decls.take(n as int) =~= decls.take(n - 1).push(decls[n - 1]));
    }
}

/// Statements without an instance of a module of the design flatten to
/// themselves.
pub proof fn lemma_flatten_stmts_identity(design: Seq<ModuleView>, stmts: Seq<StmtView>, n: nat, chain: Seq<int>)
    requires
        n <= stmts.len(),
        only_leaf_instances(design, stmts),
    ensures
        flatten_stmts_spec(design, stmts, n, Seq::empty(), Seq::empty(), chain) == Ok::<
            Seq<StmtView>,
            FlattenErrorView,
        >(stmts.take(n as int)),
    decreases n,
{
    if n == 0 {
        assert(stmts.take(0) =~= Seq::empty());
    } else {
        lemma_flatten_stmts_identity(design, stmts, (n - 1) as nat, chain);
        let stmt = stmts[n - 1];
        match stmt {
            StmtView::Dcls { declarations, line } => {
                lemma_kept_decls_identity(declarations, declarations.len());
                assert(declarations.take(declarations.len() as int) =~= declarations);
            },
            StmtView::Assign { left, right, line } => {
                lemma_subst_expr_identity(left);
                lemma_subst_expr_identity(right);
            },
            StmtView::Inst { inst_name, cell_name, port_connections, line } => {
                lemma_subst_connects_identity(port_connections);
                assert(Seq::<char>::empty() + inst_name =~= inst_name);
            },
        }
        assert(flatten_stmt_spec(design, stmt, Seq::empty(), Seq::empty(), chain) == Ok::<
            Seq<StmtView>,
            FlattenErrorView,
        >(seq![stmt]));
        assert(stmts.take(n as int) =~= stmts.take(n - 1) + seq![stmt]);
    }
}

/// Flattening a module that holds no instance of a module of the design
/// gives the module back unchanged.
pub proof fn lemma_flatten_idempotent(design: Seq<ModuleView>, top: Seq<char>)
    requires
        find_module_spec(design, top) matches Some(t) && only_leaf_instances(design, design[t].module_stmts),
    ensures
        flatten_spec(design, top) == Ok::<ModuleView, FlattenErrorView>(design[find_module_spec(design, top)->Some_0]),
{
    let t = find_module_spec(design, top)->Some_0;
    let stmts = design[t].module_stmts;
    lemma_flatten_stmts_identity(design, stmts, stmts.len(), seq![t]);
    assert(stmts.take(stmts.len() as int) =~= stmts);
}

/// Flattening twice gives what flattening once gives: a flattened module put
/// in the place of the top module flattens to itself.
pub proof fn lemma_flatten_twice(design: Seq<ModuleView>, top: Seq<char>, design2: Seq<ModuleView>)
    requires
        flatten_spec(design, top) is Ok,
        find_module_spec(design, top) matches Some(t) && design2 == design.update(
            t,
            flatten_spec(design, top)->Ok_0,
        ),
    ensures
        flatten_spec(design2, top) == flatten_spec(design, top),
{
    let t = find_module_spec(design, top)->Some_0;
    let flat = flatten_spec(design, top)->Ok_0;
    lemma_find_module_range(design, top, 0);
    lemma_flatten_leaves_only(design, top);
    assert forall|name: Seq<char>| #[trigger] find_module_spec(design2, name) == find_module_spec(design, name) by {
        lemma_find_module_same_names(design, design2, name, 0);
    }
    assert(design2[t] == flat);
    lemma_flatten_idempotent(design2, top);
}

/// A module that is found lies in the design, at or after the place where
/// the search began, and has the name that was looked for.
pub proof fn lemma_find_module_range(design: Seq<ModuleView>, name: Seq<char>, i: int)
    requires
        0 <= i,
    ensures
        crate::verilog_parser::find_module_from(design, name, i) matches Some(m) ==> i <= m < design.len()
            && design[m].module_name == name,
    decreases design.len() - i,
{
    if 0 <= i < design.len() && design[i].module_name != name {
        lemma_find_module_range(design, name, i + 1);
    }
}

/// Two designs whose modules have the same names, place by place, find the
/// same module for every name.
pub proof fn lemma_find_module_same_names(design: Seq<ModuleView>, other: Seq<ModuleView>, name: Seq<char>, i: int)
    requires
        0 <= i,
        design.len() == other.len(),
        forall|k: int| 0 <= k < design.len() ==> (#[trigger] design[k]).module_name == other[k].module_name,
    ensures
        crate::verilog_parser::find_module_from(design, name, i) == crate::verilog_parser::find_module_from(
            other,
            name,
            i,
        ),
    decreases design.len() - i,
{
    if 0 <= i < design.len() {
        assert(design[i].module_name == other[i].module_name);
        if design[i].module_name != name {
            lemma_find_module_same_names(design, other, name, i + 1);
        }
    }
}

/// Whether the statement is an instance of the module at place `b`.
pub open spec fn is_instance_of(design: Seq<ModuleView>, stmt: StmtView, b: int) -> bool {
    stmt matches StmtView::Inst { cell_name, .. } && find_module_spec(design, cell_name) == Some(b)
}

/// Whether the module at place `a` holds an instance of the module at place
/// `b`.
pub open spec fn instantiates(design: Seq<ModuleView>, a: int, b: int) -> bool {
    &&& 0 <= a < design.len()
    &&& exists|k: int|
        0 <= k < design[a].module_stmts.len() && is_instance_of(design, #[trigger] design[a].module_stmts[k], b)
}

/// Whether the chain holds places of modules of the design, each of which
/// holds an instance of the next.
pub open spec fn is_instantiation_chain(design: Seq<ModuleView>, chain: Seq<int>) -> bool {
    &&& chain.len() >= 1
    &&& forall|i: int| 0 <= i < chain.len() ==> 0 <= #[trigger] chain[i] < design.len()
    &&& forall|i: int| 0 < i < chain.len() ==> instantiates(design, chain[i - 1], #[trigger] chain[i])
}

/// Whether the chain is a cycle of instantiation: a chain whose last module
/// stands on it a second time.
pub open spec fn is_instantiation_cycle(design: Seq<ModuleView>, chain: Seq<int>) -> bool {
    &&& is_instantiation_chain(design, chain)
    &&& chain.len() >= 2
    &&& chain.drop_last().contains(chain.last())
}

/// A chain of distinct places that is as long as the design holds every place
/// of the design.
pub proof fn lemma_full_chain_holds_all(chain: Seq<int>, n: int, m: int)
    requires
        chain.no_duplicates(),
        forall|i: int| 0 <= i < chain.len() ==> 0 <= #[trigger] chain[i] < n,
        chain.len() >= n,
        0 <= m < n,
    ensures
        chain.contains(m),
{
    chain.unique_seq_to_set();
    vstd::set_lib::lemma_int_range(0, n);
    let range = vstd::set_lib::set_int_range(0, n);
    assert forall|x: int| chain.to_set().contains(x) implies range.contains(x) by {
        let i = choose|i: int| 0 <= i < chain.len() && chain[i] == x;
        assert(0 <= chain[i] < n);
    }
    assert(chain.to_set().subset_of(range));
    vstd::set_lib::lemma_len_subset(chain.to_set(), range);
    vstd::set_lib::lemma_subset_equality(chain.to_set(), range);
    assert(range.contains(m));
    assert(chain.to_set().contains(m));
}

/// What a chain needs for flattening to go on from its last module.
pub open spec fn is_open_chain(design: Seq<ModuleView>, chain: Seq<int>) -> bool {
    is_instantiation_chain(design, chain) && chain.no_duplicates()
}

/// Whether a failure of flattening is a cycle of instantiation that begins
/// where the chain begins.
pub open spec fn fails_with_cycle(
    design: Seq<ModuleView>,
    chain: Seq<int>,
    r: Result<Seq<StmtView>, FlattenErrorView>,
) -> bool {
    r matches Err(e) ==> (e matches FlattenErrorView::InstantiationCycle { module_chain }
        && is_instantiation_cycle(design, module_chain) && module_chain[0] == chain[0])
}

/// Flattening one statement of the last module of a chain fails only with a
/// cycle of instantiation.
pub proof fn lemma_stmt_fails_with_cycle(
    design: Seq<ModuleView>,
    k: int,
    prefix: Seq<char>,
    binding: Seq<PortConnectView>,
    chain: Seq<int>,
)
    requires
        is_open_chain(design, chain),
        0 <= k < design[chain.last()].module_stmts.len(),
    ensures
        fails_with_cycle(
            design,
            chain,
            flatten_stmt_spec(design, design[chain.last()].module_stmts[k], prefix, binding, chain),
        ),
    decreases design.len() - chain.len(), 0nat,
{
    let stmt = design[chain.last()].module_stmts[k];
    match stmt {
        StmtView::Inst { inst_name, cell_name, port_connections, line } => {
            match find_module_spec(design, cell_name) {
                Some(m) => {
                    lemma_find_module_range(design, cell_name, 0);
                    assert(is_instance_of(design, stmt, m));
                    assert(instantiates(design, chain.last(), m));
                    let longer = chain.push(m);
                    assert forall|i: int| 0 < i < longer.len() implies instantiates(
                        design,
                        longer[i - 1],
                        #[trigger] longer[i],
                    ) by {
                        if i < chain.len() {
                            assert(longer[i] == chain[i]);
                            assert(longer[i - 1] == chain[i - 1]);
                        }
                    }
                    assert(is_instantiation_chain(design, longer));
                    assert(longer.drop_last() =~= chain);
                    if chain.contains(m) {
                    } else if chain.len() >= design.len() {
                        lemma_full_chain_holds_all(chain, design.len() as int, m);
                    } else {
                        assert(longer.no_duplicates());
                        lemma_stmts_fail_with_cycle(
                            design,
                            design[m].module_stmts.len(),
                            child_prefix(prefix, inst_name),
                            subst_connects_spec(prefix, binding, port_connections),
                            longer,
                        );
                    }
                },
                None => {},
            }
        },
        _ => {},
    }
}

/// Flattening the first `n` statements of the last module of a chain fails
/// only with a cycle of instantiation.
pub proof fn lemma_stmts_fail_with_cycle(
    design: Seq<ModuleView>,
    n: nat,
    prefix: Seq<char>,
    binding: Seq<PortConnectView>,
    chain: Seq<int>,
)
    requires
        is_open_chain(design, chain),
        n <= design[chain.last()].module_stmts.len(),
    ensures
        fails_with_cycle(
            design,
            chain,
            flatten_stmts_spec(design, design[chain.last()].module_stmts, n, prefix, binding, chain),
        ),
    decreases design.len() - chain.len(), n + 1,
{
    if n > 0 {
        lemma_stmts_fail_with_cycle(design, (n - 1) as nat, prefix, binding, chain);
        lemma_stmt_fails_with_cycle(design, n - 1, prefix, binding, chain);
    }
}

/// Flattening fails in two ways only. It reports an unknown module exactly
/// when the design has no module of the name that was asked for, and with
/// that name. Every other failure reports a cycle of instantiation that is
/// one: a chain that begins at the top module, in which each module holds an
/// instance of the next, and whose last module stands on it a second time.
pub proof fn lemma_flatten_failures(design: Seq<ModuleView>, top: Seq<char>)
    ensures
        match flatten_spec(design, top) {
            Ok(_) => find_module_spec(design, top) is Some,
            Err(FlattenErrorView::UnknownModule { name }) => find_module_spec(design, top) is None && name == top,
            Err(FlattenErrorView::InstantiationCycle { module_chain }) => {
                &&& is_instantiation_cycle(design, module_chain)
                &&& find_module_spec(design, top) == Some(module_chain[0])
            },
        },
{
    match find_module_spec(design, top) {
        Some(t) => {
            lemma_find_module_range(design, top, 0);
            let chain = seq![t];
            assert(is_open_chain(design, chain));
            lemma_stmts_fail_with_cycle(design, design[t].module_stmts.len(), Seq::empty(), Seq::empty(), chain);
        },
        None => {},
    }
}

/// Whether a name holds no slash.
pub open spec fn no_slash(name: Seq<char>) -> bool {
    forall|i: int| 0 <= i < name.len() ==> #[trigger] name[i] != '/'
}

/// Names that are inlined through different instances never coincide: where
/// two hierarchical names are the same, and the names behind the paths hold
/// no slash, the paths are the same and so are the names. Within one
/// enclosing path the two instances then have the same name.
pub proof fn lemma_inlined_names_distinct(
    p: Seq<char>,
    i: Seq<char>,
    x: Seq<char>,
    q: Seq<char>,
    j: Seq<char>,
    y: Seq<char>,
)
    requires
        no_slash(x),
        no_slash(y),
        child_prefix(p, i) + x == child_prefix(q, j) + y,
    ensures
        child_prefix(p, i) == child_prefix(q, j),
        x == y,
        p == q ==> i == j,
{
    let a = child_prefix(p, i);
    let b = child_prefix(q, j);
    let s = a + x;
    assert(s == b + y);
    assert(a[a.len() - 1] == '/');
    assert(b[b.len() - 1] == '/');
    assert(s[a.len() - 1] == a[a.len() - 1]);
    assert((b + y)[b.len() - 1] == b[b.len() - 1]);
    if a.len() < b.len() {
        assert(s[b.len() - 1] == x[b.len() - 1 - a.len()]);
    }
    if b.len() < a.len() {
        assert((b + y)[a.len() - 1] == y[a.len() - 1 - b.len()]);
    }
    assert(a.len() == b.len());
    assert(a =~= s.take(a.len() as int));
    assert(b =~= (b + y).take(b.len() as int));
    assert(x =~= s.skip(a.len() as int));
    assert(y =~= (b + y).skip(b.len() as int));
    if p == q {
        assert(p + i =~= a.take(a.len() - 1));
        assert(q + j =~= b.take(b.len() - 1));
        assert(i =~= (p + i).skip(p.len() as int));
        assert(j =~= (q + j).skip(q.len() as int));
    }
}

} // verus!
