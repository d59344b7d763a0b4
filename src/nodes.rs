//! Generation of whole trees: namespaces as nested modules, and service
//! declarations.
use vstd::prelude::*;
use vstd::string::StringExecFns;
use crate::ast::{Rpc, RpcMethod};
use crate::enums::{
    enum_code, enum_plain, enum_rel, lemma_enum_text_determined, lemma_union_text_determined, union_code,
    union_plain, union_rel,
};
use crate::ir::{Namespace, Node, Root};
use crate::layout::MAX_FIELDS;
use crate::render::{
    comment_code_quoted, comment_literals, comment_quoted, comment_text, dotted_code, dotted_text,
    strings_view,
};
use crate::table::{lemma_table_text_determined, table_code, table_plain, table_rel};
use crate::text::{snake_case, snake_case_of};

verus! {

broadcast use vstd::std_specs::vec::group_vec_axioms;

/// Whether every table and enum in the tree fits the wire format's limits: table slot
/// offsets fit in 16 bits and enum positions in the 64-bit discriminant.
pub open spec fn node_fits(n: Node) -> bool
    decreases n, 0nat,
{
    match n {
        Node::Table(t) => t.fields@.len() <= MAX_FIELDS,
        Node::Enum(e) => e.values@.len() <= i64::MAX,
        Node::Union(_) => true,
        Node::Namespace(ns) => nodes_fit(ns.nodes@, ns.nodes@.len()),
    }
}

/// Whether the first `k` nodes fit, see `node_fits`.
pub open spec fn nodes_fit(nodes: Seq<Node>, k: nat) -> bool
    decreases nodes, k,
{
    if k == 0 || k > nodes.len() {
        true
    } else {
        nodes_fit(nodes, (k - 1) as nat) && node_fits(nodes[k - 1])
    }
}

/// The concatenation of the first `n` texts.
pub open spec fn concat_texts(parts: Seq<Seq<char>>, n: nat) -> Seq<char>
    decreases n,
{
    if n == 0 || n > parts.len() {
        Seq::empty()
    } else {
        concat_texts(parts, (n - 1) as nat) + parts[n - 1]
    }
}

/// Whether `s` is a generated code of node `n`: a table, enum or union as its generator
/// gives it, and a namespace as a module holding, in order, a generated code of each child.
pub open spec fn node_rel(n: Node, s: Seq<char>) -> bool
    decreases n, 0nat,
{
    match n {
        Node::Table(t) => table_rel(t, s),
        Node::Enum(e) => enum_rel(e, s),
        Node::Union(u) => union_rel(u, s),
        Node::Namespace(ns) => exists|parts: Seq<Seq<char>>|
            parts.len() == ns.nodes@.len() && nodes_rel(ns.nodes@, parts, ns.nodes@.len())
                && s == "pub mod "@ + ns.ident.raw@ + " {\n"@ + #[trigger] concat_texts(parts, parts.len()) + "}\n"@,
    }
}

/// Whether each of the first `k` texts is a generated code of the node at its position.
pub open spec fn nodes_rel(nodes: Seq<Node>, parts: Seq<Seq<char>>, k: nat) -> bool
    decreases nodes, k,
{
    if k == 0 || k > nodes.len() || k > parts.len() {
        k == 0
    } else {
        nodes_rel(nodes, parts, (k - 1) as nat) && node_rel(nodes[k - 1], parts[k - 1])
    }
}

/// Whether `s` is the concatenation, in order, of a generated code of each node.
pub open spec fn nodes_text_rel(nodes: Seq<Node>, s: Seq<char>) -> bool {
    exists|parts: Seq<Seq<char>>|
        parts.len() == nodes.len() && #[trigger] nodes_rel(nodes, parts, nodes.len()) && s == concat_texts(
            parts,
            parts.len(),
        )
}

pub open spec fn root_rel(r: Root, s: Seq<char>) -> bool {
    nodes_text_rel(r.nodes@, s)
}

proof fn lemma_extend(nodes: Seq<Node>, parts: Seq<Seq<char>>, x: Seq<char>, k: nat)
    requires
        k <= parts.len(),
    ensures
        nodes_rel(nodes, parts.push(x), k) == nodes_rel(nodes, parts, k),
        concat_texts(parts.push(x), k) == concat_texts(parts, k),
    decreases k,
{
    if k > 0 {
        lemma_extend(nodes, parts, x, (k - 1) as nat);
        assert(parts.push(x)[k - 1] == parts[k - 1]);
    }
}
proof fn lemma_nodes_fit_each(nodes: Seq<Node>, k: nat, i: int)
    requires
        nodes_fit(nodes, k),
        0 <= i < k <= nodes.len(),
    ensures
        node_fits(nodes[i]),
    decreases k,
{
    if i < k - 1 {
        lemma_nodes_fit_each(nodes, (k - 1) as nat, i);
    }
}

/// Generates the code of every node in order.
pub fn nodes_code(nodes: &Vec<Node>) -> (r: String)
    requires
        nodes_fit(nodes@, nodes@.len()),
    ensures
        nodes_text_rel(nodes@, r@),
    decreases nodes,
{
    let mut out = String::new();
    let ghost mut parts: Seq<Seq<char>> = Seq::empty();
    let mut i: usize = 0;
    while i < nodes.len()
        invariant
            i <= nodes@.len(),
            nodes_fit(nodes@, nodes@.len()),
            parts.len() == i,
            nodes_rel(nodes@, parts, i as nat),
            out@ == concat_texts(parts, i as nat),
        decreases nodes@.len() - i,
    {
        proof {
            lemma_nodes_fit_each(nodes@, nodes@.len(), i as int);
        }
        let c = node_code(&nodes[i]);
        proof {
            lemma_extend(nodes@, parts, c@, i as nat);
            parts = parts.push(c@);
        }
        out.append(c.as_str());
        i = i + 1;
    }
    assert(nodes_rel(nodes@, parts, nodes@.len()) && out@ == concat_texts(parts, parts.len()));
    out
}

/// Generates the code of one node, see `node_rel`.
pub fn node_code(n: &Node) -> (r: String)
    requires
        node_fits(*n),
    ensures
        node_rel(*n, r@),
    decreases n,
{
    match n {
        Node::Table(t) => table_code(t),
        Node::Enum(e) => enum_code(e),
        Node::Union(u) => union_code(u),
        Node::Namespace(ns) => namespace_code(ns),
    }
}

/// Generates a namespace: a module named by its simple identifier, holding the code of
/// its children in order.
pub fn namespace_code(ns: &Namespace) -> (r: String)
    requires
        node_fits(Node::Namespace(*ns)),
    ensures
        node_rel(Node::Namespace(*ns), r@),
    decreases ns,
{
    let inner = nodes_code(&ns.nodes);
    let mut out = String::from_str("pub mod ");
    out.append(ns.ident.raw.as_str());
    out.append(" {\n");
    out.append(inner.as_str());
    out.append("}\n");
    proof {
        let parts = choose|parts: Seq<Seq<char>>|
            parts.len() == ns.nodes@.len() && #[trigger] nodes_rel(ns.nodes@, parts, ns.nodes@.len())
                && inner@ == concat_texts(parts, parts.len());
        assert(out@ == "pub mod "@ + ns.ident.raw@ + " {\n"@ + concat_texts(parts, parts.len()) + "}\n"@);
        lemma_namespace_intro(*ns, out@, parts);
    }
    out
}

/// Generates the code of a whole resolved schema.
pub fn root_code(r: &Root) -> (s: String)
    requires
        nodes_fit(r.nodes@, r.nodes@.len()),
    ensures
        root_rel(*r, s@),
{
    nodes_code(&r.nodes)
}

} // verus!

verus! {

/// The generated declaration of one service method, whose name in snake_case is `snake`,
/// with its quoted documentation lines.
pub open spec fn rpc_method_text(m: RpcMethod, snake: Seq<char>, doc: Seq<Seq<char>>) -> Seq<char> {
    comment_text(doc) + "fn "@ + snake + "(request: "@ + dotted_text(m.request_type) + ") -> "@
        + dotted_text(m.response_type) + ";\n"@
}

pub open spec fn rpc_methods_text(
    ms: Seq<RpcMethod>,
    snakes: Seq<Seq<char>>,
    docs: Seq<Seq<Seq<char>>>,
    n: nat,
) -> Seq<char>
    decreases n,
{
    if n == 0 || n > ms.len() {
        Seq::empty()
    } else {
        rpc_methods_text(ms, snakes, docs, (n - 1) as nat) + rpc_method_text(ms[n - 1], snakes[n - 1], docs[n - 1])
    }
}

/// The generated interface of a service, given the snake_case names of its methods and
/// the quoted documentation lines of the service and of each method: one method
/// signature per declared method.
pub open spec fn rpc_text(r: Rpc, snakes: Seq<Seq<char>>, doc: Seq<Seq<char>>, docs: Seq<Seq<Seq<char>>>) -> Seq<char> {
    comment_text(doc) + "pub trait "@ + r.name.raw@ + "Service {\n"@ + rpc_methods_text(
        r.methods@,
        snakes,
        docs,
        r.methods@.len(),
    ) + "}\n"@
}

/// Whether every request and response path names at least one identifier.
pub open spec fn rpc_paths_nonempty(r: Rpc) -> bool {
    forall|i: int| 0 <= i < r.methods@.len() ==> (#[trigger] r.methods@[i]).request_type.parts@.len() > 0
        && r.methods@[i].response_type.parts@.len() > 0
}

fn rpc_method_code(m: &RpcMethod, snake: &str, doc: &Vec<String>) -> (r: String)
    requires
        m.request_type.parts@.len() > 0,
        m.response_type.parts@.len() > 0,
    ensures
        r@ == rpc_method_text(*m, snake@, strings_view(doc@)),
{
    let req = dotted_code(&m.request_type);
    let resp = dotted_code(&m.response_type);
    let mut out = comment_code_quoted(doc);
    out.append("fn ");
    out.append(snake);
    out.append("(request: ");
    out.append(req.as_str());
    out.append(") -> ");
    out.append(resp.as_str());
    out.append(";\n");
    out
}

pub open spec fn docs_view(v: Seq<Vec<String>>) -> Seq<Seq<Seq<char>>> {
    Seq::new(v.len(), |i: int| strings_view(v[i]@))
}

/// Generates a service declaration from the given snake_case method names and quoted
/// documentation lines.
pub fn rpc_code_named(r: &Rpc, snakes: &Vec<String>, doc: &Vec<String>, docs: &Vec<Vec<String>>) -> (s: String)
    requires
        rpc_paths_nonempty(*r),
        snakes@.len() == r.methods@.len(),
        docs@.len() == r.methods@.len(),
    ensures
        s@ == rpc_text(*r, strings_view(snakes@), strings_view(doc@), docs_view(docs@)),
{
    let mut methods = String::new();
    let mut i: usize = 0;
    while i < r.methods.len()
        invariant
            i <= r.methods@.len(),
            snakes@.len() == r.methods@.len(),
            docs@.len() == r.methods@.len(),
            rpc_paths_nonempty(*r),
            methods@ == rpc_methods_text(r.methods@, strings_view(snakes@), docs_view(docs@), i as nat),
        decreases r.methods@.len() - i,
    {
        let m = rpc_method_code(&r.methods[i], snakes[i].as_str(), &docs[i]);
        methods.append(m.as_str());
        i = i + 1;
    }
    let mut out = comment_code_quoted(doc);
    out.append("pub trait ");
    out.append(r.name.raw.as_str());
    out.append("Service {\n");
    out.append(methods.as_str());
    out.append("}\n");
    out
}

/// Whether `snakes` and `docs` hold, for each method of `r`, its snake_case name as case
/// conversion gives it and a quoting of its documentation lines.
pub open spec fn rpc_texts_ok(r: Rpc, snakes: Seq<Seq<char>>, docs: Seq<Seq<Seq<char>>>) -> bool {
    &&& snakes.len() == r.methods@.len()
    &&& docs.len() == r.methods@.len()
    &&& forall|i: int|
        0 <= i < snakes.len() ==> #[trigger] snakes[i] == snake_case_of(r.methods@[i].name.raw@)
            && comment_quoted(r.methods@[i].doc, docs[i])
}

/// What the generated code of a service is, whatever literals quoting gave.
pub open spec fn rpc_rel(r: Rpc, s: Seq<char>) -> bool {
    exists|snakes: Seq<Seq<char>>, doc: Seq<Seq<char>>, docs: Seq<Seq<Seq<char>>>|
        rpc_texts_ok(r, snakes, docs) && comment_quoted(r.doc, doc) && s == #[trigger] rpc_text(r, snakes, doc, docs)
}

/// Generates a service declaration: a trait with one method signature per declared
/// method, named in snake_case.
pub fn rpc_code(r: &Rpc) -> (s: String)
    requires
        rpc_paths_nonempty(*r),
    ensures
        rpc_rel(*r, s@),
{
    let mut snakes: Vec<String> = Vec::new();
    let mut docs: Vec<Vec<String>> = Vec::new();
    let mut i: usize = 0;
    while i < r.methods.len()
        invariant
            i <= r.methods@.len(),
            snakes@.len() == i,
            docs@.len() == i,
            forall|j: int| 0 <= j < i ==> (#[trigger] snakes@[j])@ == snake_case_of(r.methods@[j].name.raw@),
            forall|j: int| 0 <= j < i ==> comment_quoted(r.methods@[j].doc, strings_view((#[trigger] docs@[j])@)),
        decreases r.methods@.len() - i,
    {
        snakes.push(snake_case(r.methods[i].name.raw.as_str()));
        docs.push(comment_literals(&r.methods[i].doc));
        i = i + 1;
    }
    let doc = comment_literals(&r.doc);
    let s = rpc_code_named(r, &snakes, &doc, &docs);
    assert(rpc_texts_ok(*r, strings_view(snakes@), docs_view(docs@)));
    assert(comment_quoted(r.doc, strings_view(doc@)) && s@ == rpc_text(*r, strings_view(snakes@), strings_view(doc@), docs_view(docs@)));
    s
}

/// Three nested namespaces `a.b.c` holding one table produce three nested modules, outer
/// to inner, with a generated code of the table only inside the innermost.
pub proof fn lemma_namespace_nesting(a: Namespace, b: Namespace, c: Namespace, t: crate::ir::Table, s: Seq<char>)
    requires
        a.nodes@ == seq![Node::Namespace(b)],
        b.nodes@ == seq![Node::Namespace(c)],
        c.nodes@ == seq![Node::Table(t)],
        node_rel(Node::Namespace(a), s),
    ensures
        exists|x: Seq<char>|
            table_rel(t, x) && s == "pub mod "@ + a.ident.raw@ + " {\n"@ + ("pub mod "@ + b.ident.raw@ + " {\n"@ + (
            "pub mod "@ + c.ident.raw@ + " {\n"@ + x + "}\n"@) + "}\n"@) + "}\n"@,
{
    let pa = lemma_namespace_elim(a, s);
    let sb = pa[0];
    assert(concat_texts(pa, 1) =~= sb) by {
        reveal_with_fuel(concat_texts, 2);
    }
    assert(node_rel(Node::Namespace(b), sb)) by {
        reveal_with_fuel(nodes_rel, 2);
    }
    let pb = lemma_namespace_elim(b, sb);
    let sc = pb[0];
    assert(concat_texts(pb, 1) =~= sc) by {
        reveal_with_fuel(concat_texts, 2);
    }
    assert(node_rel(Node::Namespace(c), sc)) by {
        reveal_with_fuel(nodes_rel, 2);
    }
    let pc = lemma_namespace_elim(c, sc);
    let x = pc[0];
    assert(concat_texts(pc, 1) =~= x) by {
        reveal_with_fuel(concat_texts, 2);
    }
    assert(table_rel(t, x)) by {
        reveal_with_fuel(nodes_rel, 2);
    }
}

} // verus!

verus! {

/// Decides `nodes_fit` for every node.
pub fn nodes_fit_code(nodes: &Vec<Node>) -> (r: bool)
    ensures
        r == nodes_fit(nodes@, nodes@.len()),
    decreases nodes,
{
    let mut i: usize = 0;
    while i < nodes.len()
        invariant
            i <= nodes@.len(),
            nodes_fit(nodes@, i as nat),
        decreases nodes@.len() - i,
    {
        if !node_fits_code(&nodes[i]) {
            proof {
                lemma_nodes_fit_each_conv(nodes@, nodes@.len(), i as int);
            }
            return false;
        }
        i = i + 1;
    }
    true
}

proof fn lemma_nodes_fit_each_conv(nodes: Seq<Node>, k: nat, i: int)
    requires
        0 <= i < k <= nodes.len(),
        !node_fits(nodes[i]),
    ensures
        !nodes_fit(nodes, k),
    decreases k,
{
    if i < k - 1 {
        lemma_nodes_fit_each_conv(nodes, (k - 1) as nat, i);
    }
}

/// Decides `node_fits`.
pub fn node_fits_code(n: &Node) -> (r: bool)
    ensures
        r == node_fits(*n),
    decreases n,
{
    match n {
        Node::Table(t) => t.fields.len() <= MAX_FIELDS,
        Node::Enum(e) => e.values.len() as u64 <= i64::MAX as u64,
        Node::Union(_) => true,
        Node::Namespace(ns) => nodes_fit_code(&ns.nodes),
    }
}

/// Generates the code of a whole resolved schema, or nothing when a table or enum in it
/// exceeds the wire format's limits (see `node_fits`).
pub fn generate(r: &Root) -> (s: Option<String>)
    ensures
        s is Some <==> nodes_fit(r.nodes@, r.nodes@.len()),
        s matches Some(text) ==> root_rel(*r, text@),
{
    if nodes_fit_code(&r.nodes) {
        Some(root_code(r))
    } else {
        None
    }
}

} // verus!

verus! {

proof fn lemma_namespace_intro(ns: Namespace, s: Seq<char>, parts: Seq<Seq<char>>)
    requires
        parts.len() == ns.nodes@.len(),
        nodes_rel(ns.nodes@, parts, ns.nodes@.len()),
        s == "pub mod "@ + ns.ident.raw@ + " {\n"@ + concat_texts(parts, parts.len()) + "}\n"@,
    ensures
        node_rel(Node::Namespace(ns), s),
{
}

proof fn lemma_namespace_elim(ns: Namespace, s: Seq<char>) -> (parts: Seq<Seq<char>>)
    requires
        node_rel(Node::Namespace(ns), s),
    ensures
        parts.len() == ns.nodes@.len(),
        nodes_rel(ns.nodes@, parts, ns.nodes@.len()),
        s == "pub mod "@ + ns.ident.raw@ + " {\n"@ + concat_texts(parts, parts.len()) + "}\n"@,
{
    choose|parts: Seq<Seq<char>>|
        parts.len() == ns.nodes@.len() && nodes_rel(ns.nodes@, parts, ns.nodes@.len())
            && s == "pub mod "@ + ns.ident.raw@ + " {\n"@ + #[trigger] concat_texts(parts, parts.len()) + "}\n"@
}

} // verus!

verus! {

/// Whether every literal quoted anywhere in the tree is plain text.
pub open spec fn node_plain(n: Node) -> bool
    decreases n, 0nat,
{
    match n {
        Node::Table(t) => table_plain(t),
        Node::Enum(e) => enum_plain(e),
        Node::Union(u) => union_plain(u),
        Node::Namespace(ns) => nodes_plain(ns.nodes@, ns.nodes@.len()),
    }
}

pub open spec fn nodes_plain(nodes: Seq<Node>, k: nat) -> bool
    decreases nodes, k,
{
    if k == 0 || k > nodes.len() {
        true
    } else {
        nodes_plain(nodes, (k - 1) as nat) && node_plain(nodes[k - 1])
    }
}

proof fn lemma_nodes_each(nodes: Seq<Node>, parts: Seq<Seq<char>>, k: nat, j: int)
    requires
        nodes_rel(nodes, parts, k),
        nodes_plain(nodes, k),
        0 <= j < k,
    ensures
        node_rel(nodes[j], parts[j]),
        node_plain(nodes[j]),
    decreases k,
{
    if j < k - 1 {
        lemma_nodes_each(nodes, parts, (k - 1) as nat, j);
    }
}

/// Generation is deterministic when every literal quoted in the tree is plain text: any
/// two generated codes of a node are equal. (Other text may be escaped differently inside
/// and outside a procedural macro.)
pub proof fn lemma_generation_deterministic(n: Node, a: Seq<char>, b: Seq<char>)
    requires
        node_rel(n, a),
        node_rel(n, b),
        node_plain(n),
    ensures
        a == b,
    decreases n,
{
    match n {
        Node::Table(t) => lemma_table_text_determined(t, a, b),
        Node::Enum(e) => lemma_enum_text_determined(e, a, b),
        Node::Union(u) => lemma_union_text_determined(u, a, b),
        Node::Namespace(ns) => {
            let pa = lemma_namespace_elim(ns, a);
            let pb = lemma_namespace_elim(ns, b);
            assert forall|j: int| 0 <= j < pa.len() implies pa[j] == pb[j] by {
                lemma_nodes_each(ns.nodes@, pa, ns.nodes@.len(), j);
                lemma_nodes_each(ns.nodes@, pb, ns.nodes@.len(), j);
                lemma_generation_deterministic(ns.nodes@[j], pa[j], pb[j]);
            }
            assert(pa =~= pb);
        },
    }
}

} // verus!

verus! {

/// Generating a whole schema is deterministic when every literal quoted in it is plain
/// text: any two generated codes of the root are equal.
pub proof fn lemma_root_deterministic(r: Root, a: Seq<char>, b: Seq<char>)
    requires
        root_rel(r, a),
        root_rel(r, b),
        nodes_plain(r.nodes@, r.nodes@.len()),
    ensures
        a == b,
{
    let pa = choose|parts: Seq<Seq<char>>|
        parts.len() == r.nodes@.len() && #[trigger] nodes_rel(r.nodes@, parts, r.nodes@.len()) && a
            == concat_texts(parts, parts.len());
    let pb = choose|parts: Seq<Seq<char>>|
        parts.len() == r.nodes@.len() && #[trigger] nodes_rel(r.nodes@, parts, r.nodes@.len()) && b
            == concat_texts(parts, parts.len());
    assert forall|j: int| 0 <= j < pa.len() implies pa[j] == pb[j] by {
        lemma_nodes_each(r.nodes@, pa, r.nodes@.len(), j);
        lemma_nodes_each(r.nodes@, pb, r.nodes@.len(), j);
        lemma_generation_deterministic(r.nodes@[j], pa[j], pb[j]);
    }
    assert(pa =~= pb);
}

} // verus!
