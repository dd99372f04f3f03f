//! The computation graph: a monotonically growing list of symbolic nodes,
//! with checkpointing, graph identity and staleness tracking.
//!
//! A graph accumulates nodes lazily; evaluation and differentiation are
//! asked for explicitly. Expressions are cheap handles into one graph
//! generation: they carry the identity of the graph that minted them and
//! the position of their node, and every use checks both, so a handle that
//! outlives its node (the graph was reverted past it) or its graph (a new
//! graph became current) is reported stale instead of being dereferenced.

use vstd::prelude::*;

use crate::{CollectionModel, Error, Parameter, ParameterCollection};
use crate::init::{Engine, engine_after_graph};

verus! {

/// The abstract content of one graph node: which operation it stands for,
/// with the positions of its operand nodes.
#[verifier::ext_equal]
pub enum OpModel {
    /// A constant input, holding its values (as raw bit patterns) in
    /// column-major order.
    Input { vals: Seq<u32> },
    /// Reads the current value of the parameter with the given position in
    /// its collection.
    LoadParam { param: int },
    /// Elementwise sum of two nodes.
    Add { lhs: int, rhs: int },
    /// Matrix product of two nodes.
    Mul { lhs: int, rhs: int },
    /// Elementwise hyperbolic tangent of a node.
    Tanh { arg: int },
    /// Squared distance between two nodes, reduced to one value.
    SquaredDistance { lhs: int, rhs: int },
    /// Sum of a non-empty list of nodes of one shape.
    Sum { args: Seq<int> },
    /// Sum over the batch axis of a node.
    SumBatches { arg: int },
}

/// The abstract content of one graph node: its operation and its shape.
#[verifier::ext_equal]
pub struct NodeModel {
    /// The operation this node stands for.
    pub op: OpModel,
    /// The axis sizes of the node's value.
    pub dims: Seq<u32>,
    /// The batch multiplier of the node's value.
    pub batch: u32,
}

/// The abstract content of a computation graph.
#[verifier::ext_equal]
pub struct GraphModel {
    /// The process-wide identity this graph was created under.
    pub id: u32,
    /// The nodes, in creation order; a node only ever refers to earlier
    /// nodes.
    pub nodes: Seq<NodeModel>,
    /// The stack of checkpoints: node counts recorded as restore points.
    pub checkpoints: Seq<int>,
    /// The highest node position covered by the last forward pass, if any.
    pub evaluated: Option<int>,
}

/// All operand positions of an operation lie below the given position.
pub open spec fn op_deps_ok(op: OpModel, n: int) -> bool {
    match op {
        OpModel::Input { .. } => true,
        OpModel::LoadParam { .. } => true,
        OpModel::Add { lhs, rhs } => 0 <= lhs < n && 0 <= rhs < n,
        OpModel::Mul { lhs, rhs } => 0 <= lhs < n && 0 <= rhs < n,
        OpModel::Tanh { arg } => 0 <= arg < n,
        OpModel::SquaredDistance { lhs, rhs } => 0 <= lhs < n && 0 <= rhs < n,
        OpModel::Sum { args } => forall|i: int| 0 <= i < args.len() ==> 0 <= #[trigger] args[i] < n,
        OpModel::SumBatches { arg } => 0 <= arg < n,
    }
}

/// The product of a sequence of axis sizes: how many entries a value of
/// that shape holds.
pub open spec fn seq_product(s: Seq<u32>) -> int
    decreases s.len(),
{
    if s.len() == 0 {
        1
    } else {
        seq_product(s.drop_last()) * s.last()
    }
}

/// A node reduces to a single value: every axis has size one and it is
/// unbatched.
pub open spec fn scalar_node(n: NodeModel) -> bool {
    &&& n.batch == 1
    &&& forall|j: int| 0 <= j < n.dims.len() ==> #[trigger] n.dims[j] == 1
}

/// An input node holds exactly as many values as its shape calls for
/// (axis product times batch), and its shape is positive.
pub open spec fn node_vals_ok(n: NodeModel) -> bool {
    match n.op {
        OpModel::Input { vals } => {
            &&& vals.len() == seq_product(n.dims) * n.batch
            &&& n.batch >= 1
            &&& forall|j: int| 0 <= j < n.dims.len() ==> #[trigger] n.dims[j] >= 1
        },
        _ => true,
    }
}

impl GraphModel {
    /// Structural well-formedness: nodes refer only to earlier nodes and
    /// carry as many values as their shape calls for, the checkpoint stack
    /// is within bounds and grows monotonically, and the forward mark
    /// points at a live node.
    pub open spec fn wf(self) -> bool {
        &&& forall|i: int|
            0 <= i < self.nodes.len() ==> op_deps_ok((#[trigger] self.nodes[i]).op, i)
        &&& forall|i: int| 0 <= i < self.nodes.len() ==> node_vals_ok(#[trigger] self.nodes[i])
        &&& forall|i: int|
            0 <= i < self.checkpoints.len() ==> 0 <= #[trigger] self.checkpoints[i]
                <= self.nodes.len()
        &&& forall|i: int, j: int|
            0 <= i <= j < self.checkpoints.len() ==> #[trigger] self.checkpoints[i]
                <= #[trigger] self.checkpoints[j]
        &&& match self.evaluated {
            Some(k) => 0 <= k < self.nodes.len(),
            None => true,
        }
    }

    /// The graph currently holds the node an expression handle with this
    /// graph identity and node position points at.
    pub open spec fn holds_expr(self, graph_id: u32, node: int) -> bool {
        graph_id == self.id && 0 <= node < self.nodes.len()
    }

    /// The node at the given position reduces to a single value.
    pub open spec fn scalar_at(self, node: int) -> bool {
        scalar_node(self.nodes[node])
    }

    /// A forward pass is accepted for a handle exactly when the handle is
    /// live and its node reduces to a single value.
    pub open spec fn forward_ok(self, graph_id: u32, node: int) -> bool {
        self.holds_expr(graph_id, node) && self.scalar_at(node)
    }

    /// The graph after an accepted forward pass up to the given node.
    pub open spec fn after_forward(self, node: int) -> GraphModel {
        GraphModel { evaluated: Some(node), ..self }
    }

    /// The graph after one more node.
    pub open spec fn after_push(self, n: NodeModel) -> GraphModel {
        GraphModel { nodes: self.nodes.push(n), ..self }
    }

    /// The graph after recording the current node count as a restore
    /// point.
    pub open spec fn after_checkpoint(self) -> GraphModel {
        GraphModel { checkpoints: self.checkpoints.push(self.nodes.len() as int), ..self }
    }

    /// The graph after reverting to the last restore point: the nodes
    /// created since then are dropped, the restore point is consumed, and
    /// any earlier forward pass no longer counts. Without a restore point
    /// the graph is unchanged.
    pub open spec fn after_revert(self) -> GraphModel {
        if self.checkpoints.len() == 0 {
            self
        } else {
            GraphModel {
                nodes: self.nodes.take(self.checkpoints.last()),
                checkpoints: self.checkpoints.drop_last(),
                evaluated: None,
                ..self
            }
        }
    }

    /// The last forward pass covers the given node position.
    pub open spec fn forward_covers(self, node: int) -> bool {
        match self.evaluated {
            Some(k) => node <= k,
            None => false,
        }
    }
}

/// A handle to one node in a computation graph.
///
/// A handle is not independently meaningful: it is only as valid as the
/// graph generation it was minted under. Operations that consume handles
/// check the graph identity and the node position and report
/// [`Error::StaleExpression`] rather than touch a node that is gone.
#[derive(Debug)]
pub struct Expression {
    pub(crate) graph: u32,
    pub(crate) node: usize,
}

impl Expression {
    /// The identity of the graph this handle was minted under.
    pub closed spec fn spec_graph_id(&self) -> u32 {
        self.graph
    }

    /// The position of this handle's node in its graph.
    pub closed spec fn spec_node(&self) -> int {
        self.node as int
    }

    /// The identity of the graph this handle was minted under; comparing
    /// it against the currently active identity (see
    /// [`get_current_graph_id`]) is the staleness check.
    pub fn graph_id(&self) -> (r: u32)
        ensures
            r == self.spec_graph_id(),
    {
        self.graph
    }
}

/// One graph node as stored: its operation and its inferred shape.
pub(crate) enum Op {
    Input { vals: Vec<u32> },
    LoadParam { param: usize },
    Add { lhs: usize, rhs: usize },
    Mul { lhs: usize, rhs: usize },
    Tanh { arg: usize },
    SquaredDistance { lhs: usize, rhs: usize },
    Sum { args: Vec<usize> },
    SumBatches { arg: usize },
}

impl View for Op {
    type V = OpModel;

    closed spec fn view(&self) -> OpModel {
        match self {
            Op::Input { vals } => OpModel::Input { vals: vals@ },
            Op::LoadParam { param } => OpModel::LoadParam { param: *param as int },
            Op::Add { lhs, rhs } => OpModel::Add { lhs: *lhs as int, rhs: *rhs as int },
            Op::Mul { lhs, rhs } => OpModel::Mul { lhs: *lhs as int, rhs: *rhs as int },
            Op::Tanh { arg } => OpModel::Tanh { arg: *arg as int },
            Op::SquaredDistance { lhs, rhs } => OpModel::SquaredDistance {
                lhs: *lhs as int,
                rhs: *rhs as int,
            },
            Op::Sum { args } => OpModel::Sum { args: args@.map_values(|a: usize| a as int) },
            Op::SumBatches { arg } => OpModel::SumBatches { arg: *arg as int },
        }
    }
}

pub(crate) struct Node {
    pub(crate) op: Op,
    pub(crate) dims: Vec<u32>,
    pub(crate) batch: u32,
}

impl View for Node {
    type V = NodeModel;

    closed spec fn view(&self) -> NodeModel {
        NodeModel { op: self.op@, dims: self.dims@, batch: self.batch }
    }
}

/// A computation graph: the owner of the current symbolic computation.
///
/// Creating a graph advances the process-wide graph identity (see
/// [`Engine`]); at most one graph should be treated as current at a time,
/// and handles minted by earlier graphs are stale.
pub struct ComputationGraph {
    pub(crate) id: u32,
    pub(crate) nodes: Vec<Node>,
    pub(crate) checkpoints: Vec<usize>,
    pub(crate) evaluated: Option<usize>,
}

impl View for ComputationGraph {
    type V = GraphModel;

    closed spec fn view(&self) -> GraphModel {
        GraphModel {
            id: self.id,
            nodes: self.nodes@.map_values(|n: Node| n@),
            checkpoints: self.checkpoints@.map_values(|c: usize| c as int),
            evaluated: match self.evaluated {
                Some(k) => Some(k as int),
                None => None,
            },
        }
    }
}

/// A fresh, empty graph under the given identity.
pub open spec fn fresh_graph(id: u32) -> GraphModel {
    GraphModel { id, nodes: Seq::empty(), checkpoints: Seq::empty(), evaluated: None }
}

impl ComputationGraph {
    /// Starts a fresh graph and makes it the process's current one,
    /// under the next process-wide identity.
    pub fn new(engine: &mut Engine) -> (g: ComputationGraph)
        requires
            old(engine)@.graphs_created < u32::MAX,
        ensures
            final(engine)@ == engine_after_graph(old(engine)@),
            g@ == fresh_graph(final(engine)@.current_graph),
            g@.wf(),
    {
        let id = engine.advance_graph();
        let g = ComputationGraph { id, nodes: Vec::new(), checkpoints: Vec::new(), evaluated: None };
        proof {
            assert(g@ =~= fresh_graph(id));
        }
        g
    }

    /// This graph's process-wide identity.
    pub fn id(&self) -> (r: u32)
        ensures
            r == self@.id,
    {
        self.id
    }

    /// How many nodes the graph currently holds.
    pub fn node_count(&self) -> (r: usize)
        ensures
            r == self@.nodes.len(),
    {
        self.nodes.len()
    }

    /// Records the current node count as a restore point.
    pub fn set_checkpoint(&mut self)
        requires
            old(self)@.wf(),
        ensures
            final(self)@ == old(self)@.after_checkpoint(),
            final(self)@.wf(),
    {
        self.checkpoints.push(self.nodes.len());
        proof {
            assert(self@ =~= old(self)@.after_checkpoint());
        }
    }

    /// Reverts the graph to the last restore point, dropping every node
    /// created since then; handles to dropped nodes become stale. With no
    /// restore point set, nothing changes and the call is refused.
    pub fn revert(&mut self) -> (r: Result<(), Error>)
        requires
            old(self)@.wf(),
        ensures
            final(self)@ == old(self)@.after_revert(),
            final(self)@.wf(),
            r.is_ok() <==> old(self)@.checkpoints.len() > 0,
            r matches Err(e) ==> e == Error::NoCheckpoint,
    {
        match self.checkpoints.pop() {
            None => {
                proof {
                    assert(self@ =~= old(self)@.after_revert());
                }
                Err(Error::NoCheckpoint)
            },
            Some(cp) => {
                proof {
                    assert(old(self)@.checkpoints.last() == cp as int);
                    assert(cp as int <= old(self)@.nodes.len());
                }
                self.nodes.truncate(cp);
                self.evaluated = None;
                proof {
                    assert(self@.nodes =~= old(self)@.nodes.take(cp as int));
                    assert(self@.checkpoints =~= old(self)@.checkpoints.drop_last());
                    assert(self@ =~= old(self)@.after_revert());
                    lemma_revert_wf(old(self)@);
                }
                Ok(())
            },
        }
    }
}

/// Every entry of a requested shape is a usable axis size: at least one
/// and within the engine's axis-size type.
pub open spec fn input_dims_ok(dim: Seq<i64>) -> bool {
    forall|i: int| 0 <= i < dim.len() ==> 1 <= #[trigger] dim[i] <= u32::MAX
}

/// A requested shape, narrowed to the engine's axis-size type.
pub open spec fn norm_dims(dim: Seq<i64>) -> Seq<u32> {
    dim.map_values(|x: i64| x as u32)
}

/// A constant input is accepted exactly when its shape is usable and the
/// number of values equals the product of the axis sizes.
pub open spec fn input_ok(dim: Seq<i64>, n_vals: int) -> bool {
    input_dims_ok(dim) && n_vals == seq_product(norm_dims(dim))
}

/// A batched constant input is accepted exactly when there is at least a
/// batch axis, the shape is usable, and the number of values equals the
/// per-example product times the batch size (the product of the whole
/// list).
pub open spec fn batched_input_ok(dim: Seq<i64>, n_vals: int) -> bool {
    dim.len() >= 1 && input_dims_ok(dim) && n_vals == seq_product(norm_dims(dim))
}

/// The positions a multi-axis index addresses are within the shape.
pub open spec fn index_ok(dims: Seq<u32>, idx: Seq<u32>) -> bool {
    idx.len() == dims.len() && forall|k: int| 0 <= k < idx.len() ==> #[trigger] idx[k] < dims[k]
}

/// The column-major offset of a multi-axis index in a value of the given
/// shape: the first axis varies fastest.
pub open spec fn cm_offset(dims: Seq<u32>, idx: Seq<u32>) -> int
    decreases dims.len(),
{
    if dims.len() == 0 {
        0
    } else {
        cm_offset(dims.drop_last(), idx.drop_last()) + idx.last() * seq_product(dims.drop_last())
    }
}

/// Every index inside a positive shape addresses exactly one position of
/// the stored values: its column-major offset lies within the value
/// count of that shape. With [`ComputationGraph::add_input`] storing the
/// values unchanged and [`ComputationGraph::input_value_at`] reading by
/// this offset, an accepted input round-trips exactly.
pub proof fn lemma_cm_offset_in_range(dims: Seq<u32>, idx: Seq<u32>)
    requires
        index_ok(dims, idx),
        forall|i: int| 0 <= i < dims.len() ==> #[trigger] dims[i] >= 1,
    ensures
        0 <= cm_offset(dims, idx) < seq_product(dims),
    decreases dims.len(),
{
    if dims.len() == 0 {
    } else {
        let dp = dims.drop_last();
        let ip = idx.drop_last();
        assert(forall|i: int| 0 <= i < dp.len() ==> #[trigger] dp[i] >= 1);
        assert(forall|k: int| 0 <= k < ip.len() ==> #[trigger] ip[k] < dp[k]);
        lemma_cm_offset_in_range(dp, ip);
        let off_p = cm_offset(dp, ip);
        let prod_p = seq_product(dp);
        let last_i = idx.last() as int;
        let last_d = dims.last() as int;
        assert(cm_offset(dims, idx) == off_p + last_i * prod_p);
        assert(seq_product(dims) == prod_p * last_d);
        assert(off_p + last_i * prod_p < prod_p * last_d) by (nonlinear_arith)
            requires
                0 <= off_p < prod_p,
                0 <= last_i < last_d,
        ;
        assert(0 <= off_p + last_i * prod_p) by (nonlinear_arith)
            requires
                0 <= off_p,
                0 <= last_i,
                0 < prod_p,
        ;
    }
}

/// A product of sizes that are all at least one is at least one.
proof fn lemma_seq_product_pos(s: Seq<u32>)
    requires
        forall|i: int| 0 <= i < s.len() ==> #[trigger] s[i] >= 1,
    ensures
        seq_product(s) >= 1,
    decreases s.len(),
{
    if s.len() > 0 {
        lemma_seq_product_pos(s.drop_last());
        assert(seq_product(s) == seq_product(s.drop_last()) * s.last());
        vstd::arithmetic::mul::lemma_mul_inequality(1, seq_product(s.drop_last()), s.last() as int);
    }
}

/// Taking a prefix of a shape whose sizes are all at least one cannot
/// increase the product.
proof fn lemma_seq_product_take_le(s: Seq<u32>, k: int)
    requires
        forall|i: int| 0 <= i < s.len() ==> #[trigger] s[i] >= 1,
        0 <= k <= s.len(),
    ensures
        seq_product(s.take(k)) <= seq_product(s),
    decreases s.len(),
{
    if k == s.len() {
        assert(s.take(k) =~= s);
    } else {
        assert(s.drop_last().take(k) =~= s.take(k));
        assert(forall|i: int| 0 <= i < s.drop_last().len() ==> #[trigger] s.drop_last()[i] >= 1);
        lemma_seq_product_take_le(s.drop_last(), k);
        lemma_seq_product_pos(s.drop_last());
        vstd::arithmetic::mul::lemma_mul_inequality(
            1,
            s.last() as int,
            seq_product(s.drop_last()),
        );
        assert(seq_product(s) == seq_product(s.drop_last()) * s.last());
    }
}

/// How a product compares to the largest representable value, read off
/// the quotient: strictly above the quotient the product overflows,
/// at or below it does not.
proof fn lemma_mul_div_bounds(a: int, b: int)
    requires
        0 <= a,
        1 <= b,
    ensures
        a > u64::MAX as int / b ==> a * b > u64::MAX,
        a <= u64::MAX as int / b ==> a * b <= u64::MAX,
{
    let m = u64::MAX as int;
    let q = m / b;
    vstd::arithmetic::div_mod::lemma_fundamental_div_mod(m, b);
    vstd::arithmetic::div_mod::lemma_mod_bound(m, b);
    if a > q {
        assert(a * b > m) by (nonlinear_arith)
            requires
                a >= q + 1,
                b >= 1,
                m == b * q + m % b,
                0 <= m % b < b,
        ;
    } else {
        assert(a * b <= m) by (nonlinear_arith)
            requires
                0 <= a <= q,
                b >= 1,
                m == b * q + m % b,
                0 <= m % b,
        ;
    }
}

/// Checks a requested shape and computes its product.
///
/// Yields the narrowed axis sizes together with the product, or no
/// product where it exceeds the unsigned 64-bit range, or nothing at all
/// where some entry is not a usable axis size.
fn validate_dims(dim: &[i64]) -> (r: Option<(Vec<u32>, Option<u64>)>)
    ensures
        r.is_some() <==> input_dims_ok(dim@),
        r matches Some(p) ==> ({
            &&& p.0@ == norm_dims(dim@)
            &&& (p.1 matches Some(v) ==> v == seq_product(norm_dims(dim@)))
            &&& (p.1 is None ==> seq_product(norm_dims(dim@)) > u64::MAX)
        }),
{
    let mut d: Vec<u32> = Vec::new();
    let mut prod: u64 = 1;
    let mut overflow: bool = false;
    let mut i: usize = 0;
    while i < dim.len()
        invariant
            i <= dim@.len(),
            forall|k: int| 0 <= k < i ==> 1 <= #[trigger] dim@[k] <= u32::MAX,
            d@ == norm_dims(dim@.take(i as int)),
            prod >= 1,
            !overflow ==> prod == seq_product(norm_dims(dim@.take(i as int))),
            overflow ==> seq_product(norm_dims(dim@.take(i as int))) > u64::MAX,
        decreases dim@.len() - i,
    {
        let v = dim[i];
        if v < 1 || v > u32::MAX as i64 {
            return None;
        }
        let v32 = v as u32;
        d.push(v32);
        proof {
            assert(dim@.take(i + 1).drop_last() =~= dim@.take(i as int));
            assert(norm_dims(dim@.take(i + 1)).drop_last() =~= norm_dims(dim@.take(i as int)));
            assert(norm_dims(dim@.take(i + 1)).last() == v32);
            assert(d@ =~= norm_dims(dim@.take(i + 1)));
            assert(seq_product(norm_dims(dim@.take(i + 1))) == seq_product(
                norm_dims(dim@.take(i as int)),
            ) * v32);
        }
        if !overflow {
            if prod > u64::MAX / (v32 as u64) {
                proof {
                    lemma_mul_div_bounds(prod as int, v32 as int);
                }
                overflow = true;
            } else {
                proof {
                    lemma_mul_div_bounds(prod as int, v32 as int);
                    assert(prod * v32 >= 1) by (nonlinear_arith)
                        requires
                            prod >= 1,
                            v32 >= 1,
                    ;
                }
                prod = prod * (v32 as u64);
            }
        } else {
            proof {
                vstd::arithmetic::mul::lemma_mul_inequality(
                    1,
                    v32 as int,
                    seq_product(norm_dims(dim@.take(i as int))),
                );
            }
        }
        i = i + 1;
    }
    proof {
        assert(dim@.take(dim@.len() as int) =~= dim@);
    }
    Some((d, if overflow { None } else { Some(prod) }))
}

/// Copies a slice of raw values into an owned vector.
pub(crate) fn copy_values(xs: &[u32]) -> (r: Vec<u32>)
    ensures
        r@ == xs@,
{
    let mut r: Vec<u32> = Vec::new();
    let mut i: usize = 0;
    while i < xs.len()
        invariant
            i <= xs@.len(),
            r@ == xs@.take(i as int),
        decreases xs@.len() - i,
    {
        r.push(xs[i]);
        i = i + 1;
    }
    proof {
        assert(xs@.take(xs@.len() as int) =~= xs@);
    }
    r
}

impl ComputationGraph {
    /// Appends one node, already checked, and mints its handle.
    pub(crate) fn push_node(&mut self, op: Op, dims: Vec<u32>, batch: u32) -> (e: Expression)
        requires
            old(self)@.wf(),
            op_deps_ok(op@, old(self)@.nodes.len() as int),
            node_vals_ok(NodeModel { op: op@, dims: dims@, batch }),
        ensures
            final(self)@ == old(self)@.after_push(
                NodeModel { op: op@, dims: dims@, batch },
            ),
            final(self)@.wf(),
            e.spec_graph_id() == old(self)@.id,
            e.spec_node() == old(self)@.nodes.len(),
    {
        let node_index = self.nodes.len();
        let ghost nm = NodeModel { op: op@, dims: dims@, batch };
        self.nodes.push(Node { op, dims, batch });
        proof {
            assert(self@.nodes =~= old(self)@.nodes.push(nm));
            assert(self@ =~= old(self)@.after_push(nm));
            let g = self@;
            let o = old(self)@;
            assert forall|i: int|
                0 <= i < g.nodes.len() implies op_deps_ok((#[trigger] g.nodes[i]).op, i)
                    && node_vals_ok(g.nodes[i]) by {
                if i < o.nodes.len() {
                    assert(g.nodes[i] == o.nodes[i]);
                } else {
                    assert(g.nodes[i] == nm);
                }
            }
        }
        Expression { graph: self.id, node: node_index }
    }

    /// Inserts a constant-input node of the given shape (unbatched) and
    /// returns its handle.
    ///
    /// The values are taken in column-major order; their number must equal
    /// the product of the axis sizes, and every axis size must be usable,
    /// or the input is refused as an invalid argument.
    pub fn add_input(&mut self, vals: &[u32], dim: &[i64]) -> (r: Result<Expression, Error>)
        requires
            old(self)@.wf(),
        ensures
            final(self)@.wf(),
            r.is_ok() <==> input_ok(dim@, vals@.len() as int),
            r matches Err(e) ==> e == Error::InvalidArgument && final(self)@ == old(self)@,
            r matches Ok(e) ==> ({
                &&& final(self)@ == old(self)@.after_push(
                    NodeModel {
                        op: OpModel::Input { vals: vals@ },
                        dims: norm_dims(dim@),
                        batch: 1,
                    },
                )
                &&& e.spec_graph_id() == old(self)@.id
                &&& e.spec_node() == old(self)@.nodes.len()
            }),
    {
        let n_vals = vals.len();
        match validate_dims(dim) {
            None => Err(Error::InvalidArgument),
            Some((d, prod_opt)) => {
                match prod_opt {
                    None => Err(Error::InvalidArgument),
                    Some(p) => {
                        if n_vals as u64 != p {
                            Err(Error::InvalidArgument)
                        } else {
                            let owned = copy_values(vals);
                            proof {
                                vstd::arithmetic::mul::lemma_mul_basics(
                                    seq_product(norm_dims(dim@)),
                                );
                            }
                            let e = self.push_node(Op::Input { vals: owned }, d, 1);
                            Ok(e)
                        }
                    },
                }
            },
        }
    }

    /// Inserts a constant-input node whose last requested axis is read as
    /// the batch size; the leading axes form the per-example shape.
    ///
    /// The number of values must equal the per-example product times the
    /// batch size, every entry must be usable, and an empty request (not
    /// even a batch axis) is refused.
    pub fn add_batched_input(&mut self, vals: &[u32], dim: &[i64]) -> (r: Result<
        Expression,
        Error,
    >)
        requires
            old(self)@.wf(),
        ensures
            final(self)@.wf(),
            r.is_ok() <==> batched_input_ok(dim@, vals@.len() as int),
            r matches Err(e) ==> e == Error::InvalidArgument && final(self)@ == old(self)@,
            r matches Ok(e) ==> ({
                &&& final(self)@ == old(self)@.after_push(
                    NodeModel {
                        op: OpModel::Input { vals: vals@ },
                        dims: norm_dims(dim@).drop_last(),
                        batch: norm_dims(dim@).last(),
                    },
                )
                &&& e.spec_graph_id() == old(self)@.id
                &&& e.spec_node() == old(self)@.nodes.len()
            }),
    {
        if dim.len() == 0 {
            return Err(Error::InvalidArgument);
        }
        let n_vals = vals.len();
        match validate_dims(dim) {
            None => Err(Error::InvalidArgument),
            Some((mut d, prod_opt)) => {
                match prod_opt {
                    None => Err(Error::InvalidArgument),
                    Some(p) => {
                        if n_vals as u64 != p {
                            Err(Error::InvalidArgument)
                        } else {
                            let batch = match d.pop() {
                                Some(b) => b,
                                None => {
                                    return Err(Error::InvalidArgument);
                                },
                            };
                            proof {
                                assert(d@ =~= norm_dims(dim@).drop_last());
                            }
                            let owned = copy_values(vals);
                            let e = self.push_node(Op::Input { vals: owned }, d, batch);
                            Ok(e)
                        }
                    },
                }
            },
        }
    }

    /// Runs a complete forward pass up to the given expression, from
    /// scratch, ignoring earlier partial results.
    ///
    /// The handle must be live in this graph and its node must reduce to a
    /// single value; the numeric result itself is the engine's, this model
    /// records how far evaluation reached (which is what a backward pass
    /// is checked against).
    #[verifier::loop_isolation(false)]
    pub fn forward(&mut self, e: &Expression) -> (r: Result<(), Error>)
        requires
            old(self)@.wf(),
        ensures
            final(self)@.wf(),
            r.is_ok() <==> old(self)@.forward_ok(e.spec_graph_id(), e.spec_node()),
            r.is_ok() ==> final(self)@ == old(self)@.after_forward(e.spec_node()),
            !old(self)@.holds_expr(e.spec_graph_id(), e.spec_node()) ==> r == Err::<(), Error>(
                Error::StaleExpression,
            ) && final(self)@ == old(self)@,
            old(self)@.holds_expr(e.spec_graph_id(), e.spec_node()) && !old(self)@.scalar_at(
                e.spec_node(),
            ) ==> r == Err::<(), Error>(Error::NotScalar) && final(self)@ == old(self)@,
    {
        if e.graph != self.id || e.node >= self.nodes.len() {
            return Err(Error::StaleExpression);
        }
        proof {
            assert(self@.nodes[e.spec_node()] == self.nodes@[e.node as int]@);
        }
        if self.nodes[e.node].batch != 1 {
            return Err(Error::NotScalar);
        }
        let n_dims = self.nodes[e.node].dims.len();
        let mut j: usize = 0;
        while j < n_dims
            invariant
                *self == *old(self),
                e.node < self.nodes@.len(),
                self@.nodes[e.node as int] == self.nodes@[e.node as int]@,
                n_dims == self.nodes@[e.node as int].dims@.len(),
                j <= n_dims,
                forall|k: int| 0 <= k < j ==> #[trigger] self.nodes@[e.node as int].dims@[k] == 1,
            decreases n_dims - j,
        {
            if self.nodes[e.node].dims[j] != 1 {
                proof {
                    assert(self@.nodes[e.spec_node()].dims[j as int] != 1);
                    assert(!scalar_node(self@.nodes[e.spec_node()]));
                }
                return Err(Error::NotScalar);
            }
            j = j + 1;
        }
        self.evaluated = Some(e.node);
        proof {
            assert(self@ =~= old(self)@.after_forward(e.spec_node()));
        }
        Ok(())
    }

    /// Inserts a node that reads the given parameter's current value (no
    /// copy is made) and returns its handle. The node takes the
    /// parameter's shape, unbatched.
    pub fn load_param(&mut self, p: &Parameter) -> (e: Expression)
        requires
            old(self)@.wf(),
        ensures
            final(self)@ == old(self)@.after_push(
                NodeModel {
                    op: OpModel::LoadParam { param: p.spec_index() },
                    dims: p.spec_dims(),
                    batch: 1,
                },
            ),
            final(self)@.wf(),
            e.spec_graph_id() == old(self)@.id,
            e.spec_node() == old(self)@.nodes.len(),
    {
        let dims = copy_values(p.dims.as_slice());
        self.push_node(Op::LoadParam { param: p.index }, dims, 1)
    }

    /// Runs a backward pass from the given expression, accumulating
    /// gradients into the given collection's parameters; with `full` the
    /// engine accumulates gradients into every node on the way, not only
    /// into parameters, which changes nothing about the collection's
    /// gradient state tracked here.
    ///
    /// The handle must be live in this graph, and a forward pass covering
    /// its node must have run; otherwise the gradient state would be
    /// stale, so the call is refused and the collection is untouched.
    pub fn backward(&self, e: &Expression, pc: &mut ParameterCollection, full: bool) -> (r: Result<
        (),
        Error,
    >)
        ensures
            r.is_ok() <==> self@.holds_expr(e.spec_graph_id(), e.spec_node())
                && self@.forward_covers(e.spec_node()),
            !self@.holds_expr(e.spec_graph_id(), e.spec_node()) ==> r == Err::<(), Error>(
                Error::StaleExpression,
            ),
            self@.holds_expr(e.spec_graph_id(), e.spec_node()) && !self@.forward_covers(
                e.spec_node(),
            ) ==> r == Err::<(), Error>(Error::NoForward),
            r.is_ok() ==> final(pc)@ == (CollectionModel { grads_fresh: true, ..old(pc)@ }),
            !r.is_ok() ==> final(pc)@ == old(pc)@,
    {
        let _ = full;
        if e.graph != self.id || e.node >= self.nodes.len() {
            return Err(Error::StaleExpression);
        }
        match self.evaluated {
            Some(k) => {
                if e.node <= k {
                    pc.set_grads_fresh();
                    Ok(())
                } else {
                    Err(Error::NoForward)
                }
            },
            None => Err(Error::NoForward),
        }
    }

    /// Reads one stored value of a constant-input node back, by
    /// column-major position.
    ///
    /// The handle must be live and must point at a constant-input node,
    /// and the index must address a position inside the node's shape.
    #[verifier::loop_isolation(false)]
    pub fn input_value_at(&self, e: &Expression, idx: &[u32]) -> (r: Result<u32, Error>)
        requires
            self@.wf(),
        ensures
            !self@.holds_expr(e.spec_graph_id(), e.spec_node()) ==> r == Err::<u32, Error>(
                Error::StaleExpression,
            ),
            self@.holds_expr(e.spec_graph_id(), e.spec_node()) ==> ({
                let n = self@.nodes[e.spec_node()];
                match n.op {
                    OpModel::Input { vals } => {
                        if index_ok(n.dims, idx@) {
                            r == Ok::<u32, Error>(vals[cm_offset(n.dims, idx@)])
                        } else {
                            r == Err::<u32, Error>(Error::InvalidArgument)
                        }
                    },
                    _ => r == Err::<u32, Error>(Error::InvalidArgument),
                }
            }),
    {
        if e.graph != self.id || e.node >= self.nodes.len() {
            return Err(Error::StaleExpression);
        }
        let node = &self.nodes[e.node];
        proof {
            assert(node@ == self@.nodes[e.spec_node()]);
            assert(node_vals_ok(self@.nodes[e.spec_node()]));
        }
        match &node.op {
            Op::Input { vals } => {
                if idx.len() != node.dims.len() {
                    return Err(Error::InvalidArgument);
                }
                let ghost dims_s = node.dims@;
                let ghost batch = node.batch;
                let n_total = vals.len();
                proof {
                    assert(node@.op == OpModel::Input { vals: vals@ });
                    assert(self@.nodes[e.spec_node()].op == OpModel::Input { vals: vals@ });
                    assert(vals@.len() == seq_product(dims_s) * batch);
                    assert(batch >= 1);
                    assert(forall|j: int| 0 <= j < dims_s.len() ==> #[trigger] dims_s[j] >= 1);
                    assert(dims_s.take(0) =~= Seq::<u32>::empty());
                    lemma_seq_product_pos(dims_s);
                    vstd::arithmetic::mul::lemma_mul_inequality(
                        1,
                        batch as int,
                        seq_product(dims_s),
                    );
                    assert(seq_product(dims_s) * 1 <= seq_product(dims_s) * (batch as int)) by (
                    nonlinear_arith)
                        requires
                            batch >= 1,
                            seq_product(dims_s) >= 1,
                    ;
                    assert(seq_product(dims_s) <= vals@.len());
                }
                let mut off: u64 = 0;
                let mut stride: u64 = 1;
                let mut k: usize = 0;
                while k < node.dims.len()
                    invariant
                        dims_s == node.dims@,
                        idx@.len() == dims_s.len(),
                        forall|j: int| 0 <= j < dims_s.len() ==> #[trigger] dims_s[j] >= 1,
                        seq_product(dims_s) <= vals@.len(),
                        n_total == vals@.len(),
                        k <= dims_s.len(),
                        forall|t: int| 0 <= t < k ==> #[trigger] idx@[t] < dims_s[t],
                        stride == seq_product(dims_s.take(k as int)),
                        off == cm_offset(dims_s.take(k as int), idx@.take(k as int)),
                        0 <= off < stride,
                    decreases dims_s.len() - k,
                {
                    if idx[k] >= node.dims[k] {
                        return Err(Error::InvalidArgument);
                    }
                    let ghost ik = idx@[k as int] as int;
                    let ghost dk = dims_s[k as int] as int;
                    proof {
                        lemma_seq_product_take_le(dims_s, k + 1);
                        assert(dims_s.take(k + 1).drop_last() =~= dims_s.take(k as int));
                        assert(idx@.take(k + 1).drop_last() =~= idx@.take(k as int));
                        assert(seq_product(dims_s.take(k + 1)) == stride * dk);
                        assert(cm_offset(dims_s.take(k + 1), idx@.take(k + 1)) == off + ik
                            * stride);
                        assert(off + ik * stride < stride * dk) by (nonlinear_arith)
                            requires
                                0 <= off,
                                off < stride,
                                0 <= ik < dk,
                        ;
                    }
                    off = off + (idx[k] as u64) * stride;
                    stride = stride * (node.dims[k] as u64);
                    k = k + 1;
                }
                proof {
                    assert(dims_s.take(dims_s.len() as int) =~= dims_s);
                    assert(idx@.take(idx@.len() as int) =~= idx@);
                    assert(off < vals@.len());
                }
                Ok(vals[off as usize])
            },
            _ => Err(Error::InvalidArgument),
        }
    }
}

/// The operand positions of an operation, in operand order.
pub open spec fn op_operands(op: OpModel) -> Seq<int> {
    match op {
        OpModel::Input { .. } => Seq::empty(),
        OpModel::LoadParam { .. } => Seq::empty(),
        OpModel::Add { lhs, rhs } => seq![lhs, rhs],
        OpModel::Mul { lhs, rhs } => seq![lhs, rhs],
        OpModel::Tanh { arg } => seq![arg],
        OpModel::SquaredDistance { lhs, rhs } => seq![lhs, rhs],
        OpModel::Sum { args } => args,
        OpModel::SumBatches { arg } => seq![arg],
    }
}

impl ComputationGraph {
    /// The positions of the nodes the node at the given position reads,
    /// in operand order; useful to walk or dump the graph's structure.
    /// A position past the end is refused.
    pub fn node_operands(&self, index: usize) -> (r: Result<Vec<usize>, Error>)
        ensures
            index >= self@.nodes.len() ==> r == Err::<Vec<usize>, Error>(Error::InvalidArgument),
            index < self@.nodes.len() ==> (r matches Ok(v) && v@.map_values(|a: usize| a as int)
                == op_operands(self@.nodes[index as int].op)),
    {
        if index >= self.nodes.len() {
            return Err(Error::InvalidArgument);
        }
        let ghost target = op_operands(self@.nodes[index as int].op);
        let mut v: Vec<usize> = Vec::new();
        match &self.nodes[index].op {
            Op::Input { .. } => {},
            Op::LoadParam { .. } => {},
            Op::Add { lhs, rhs } => {
                v.push(*lhs);
                v.push(*rhs);
            },
            Op::Mul { lhs, rhs } => {
                v.push(*lhs);
                v.push(*rhs);
            },
            Op::Tanh { arg } => {
                v.push(*arg);
            },
            Op::SquaredDistance { lhs, rhs } => {
                v.push(*lhs);
                v.push(*rhs);
            },
            Op::Sum { args } => {
                let mut i: usize = 0;
                while i < args.len()
                    invariant
                        i <= args@.len(),
                        v@.len() == i as int,
                        forall|k: int| 0 <= k < i ==> #[trigger] v@[k] == args@[k],
                    decreases args@.len() - i,
                {
                    v.push(args[i]);
                    i = i + 1;
                }
            },
            Op::SumBatches { arg } => {
                v.push(*arg);
            },
        }
        proof {
            assert(v@.map_values(|a: usize| a as int) =~= target);
        }
        Ok(v)
    }
}

/// Two batch multipliers can be combined: they agree, or one of them is
/// one and broadcasts over the other.
pub open spec fn batch_compat(a: u32, b: u32) -> bool {
    a == b || a == 1 || b == 1
}

/// The combined batch multiplier of two compatible ones: the larger.
pub open spec fn batch_join(a: u32, b: u32) -> u32 {
    if a >= b {
        a
    } else {
        b
    }
}

/// Two nodes can be combined elementwise: same axis sizes, compatible
/// batch multipliers.
pub open spec fn elemwise_ok(x: NodeModel, y: NodeModel) -> bool {
    x.dims == y.dims && batch_compat(x.batch, y.batch)
}

/// The row count of a shape read as a matrix: the first axis, or one.
pub open spec fn mat_rows(d: Seq<u32>) -> u32 {
    if d.len() >= 1 {
        d[0]
    } else {
        1
    }
}

/// The column count of a shape read as a matrix: the second axis, or one.
pub open spec fn mat_cols(d: Seq<u32>) -> u32 {
    if d.len() >= 2 {
        d[1]
    } else {
        1
    }
}

/// Two nodes can be matrix-multiplied: each has at most two axes, the
/// left operand's columns match the right operand's rows, and the batch
/// multipliers are compatible.
pub open spec fn matmul_ok(x: NodeModel, y: NodeModel) -> bool {
    &&& x.dims.len() <= 2
    &&& y.dims.len() <= 2
    &&& mat_cols(x.dims) == mat_rows(y.dims)
    &&& batch_compat(x.batch, y.batch)
}

/// The shape of a matrix product: a vector where the right operand is a
/// vector, a matrix otherwise.
pub open spec fn matmul_dims(x: Seq<u32>, y: Seq<u32>) -> Seq<u32> {
    if y.len() <= 1 {
        seq![mat_rows(x)]
    } else {
        seq![mat_rows(x), mat_cols(y)]
    }
}

/// The positions of the nodes a list of handles points at.
pub open spec fn expr_nodes(xs: Seq<Expression>) -> Seq<int> {
    xs.map_values(|x: Expression| x.spec_node())
}

/// The combined batch multiplier of a list of handles' nodes, folded
/// left to right; nothing where the list is empty or two multipliers do
/// not broadcast.
pub open spec fn sum_batch(g: GraphModel, xs: Seq<Expression>) -> Option<u32>
    decreases xs.len(),
{
    if xs.len() == 0 {
        None
    } else if xs.len() == 1 {
        Some(g.nodes[xs[0].spec_node()].batch)
    } else {
        match sum_batch(g, xs.drop_last()) {
            None => None,
            Some(b) => {
                let nb = g.nodes[xs.last().spec_node()].batch;
                if batch_compat(b, nb) {
                    Some(batch_join(b, nb))
                } else {
                    None
                }
            },
        }
    }
}

/// A list of handles can be summed: it is non-empty, every handle is live
/// in the graph, all nodes share one set of axis sizes, and the batch
/// multipliers broadcast.
pub open spec fn sum_args_ok(g: GraphModel, xs: Seq<Expression>) -> bool {
    &&& xs.len() > 0
    &&& forall|i: int|
        0 <= i < xs.len() ==> g.holds_expr(
            (#[trigger] xs[i]).spec_graph_id(),
            xs[i].spec_node(),
        )
    &&& forall|i: int|
        0 <= i < xs.len() ==> g.nodes[(#[trigger] xs[i]).spec_node()].dims == g.nodes[xs[
            0
        ].spec_node()].dims
    &&& sum_batch(g, xs) is Some
}

/// Once the batch fold fails on a prefix, it fails on the whole list.
proof fn lemma_sum_batch_prefix_none(g: GraphModel, xs: Seq<Expression>, k: int)
    requires
        1 <= k <= xs.len(),
        sum_batch(g, xs.take(k)) is None,
    ensures
        sum_batch(g, xs) is None,
    decreases xs.len(),
{
    if k == xs.len() {
        assert(xs.take(k) =~= xs);
    } else {
        assert(xs.drop_last().take(k) =~= xs.take(k));
        lemma_sum_batch_prefix_none(g, xs.drop_last(), k);
    }
}

/// Decides whether two axis-size lists are equal.
fn dims_eq(a: &Vec<u32>, b: &Vec<u32>) -> (r: bool)
    ensures
        r == (a@ == b@),
{
    if a.len() != b.len() {
        return false;
    }
    let mut i: usize = 0;
    while i < a.len()
        invariant
            a@.len() == b@.len(),
            i <= a@.len(),
            forall|k: int| 0 <= k < i ==> #[trigger] a@[k] == b@[k],
        decreases a@.len() - i,
    {
        if a[i] != b[i] {
            return false;
        }
        i = i + 1;
    }
    proof {
        assert(a@ =~= b@);
    }
    true
}

impl ComputationGraph {
    /// Checks that a handle is live in this graph.
    fn check_expr(&self, x: &Expression) -> (r: bool)
        ensures
            r == self@.holds_expr(x.spec_graph_id(), x.spec_node()),
    {
        x.graph == self.id && x.node < self.nodes.len()
    }

    /// Inserts an elementwise hyperbolic-tangent node of a live handle;
    /// the shape is kept.
    pub(crate) fn apply_tanh(&mut self, x: &Expression) -> (r: Result<Expression, Error>)
        requires
            old(self)@.wf(),
        ensures
            final(self)@.wf(),
            r.is_ok() <==> old(self)@.holds_expr(x.spec_graph_id(), x.spec_node()),
            r matches Err(e) ==> e == Error::StaleExpression && final(self)@ == old(self)@,
            r matches Ok(e) ==> ({
                let xn = old(self)@.nodes[x.spec_node()];
                &&& final(self)@ == old(self)@.after_push(
                    NodeModel {
                        op: OpModel::Tanh { arg: x.spec_node() },
                        dims: xn.dims,
                        batch: xn.batch,
                    },
                )
                &&& e.spec_graph_id() == old(self)@.id
                &&& e.spec_node() == old(self)@.nodes.len()
            }),
    {
        if !self.check_expr(x) {
            return Err(Error::StaleExpression);
        }
        let dims = copy_values(self.nodes[x.node].dims.as_slice());
        let batch = self.nodes[x.node].batch;
        Ok(self.push_node(Op::Tanh { arg: x.node }, dims, batch))
    }

    /// Inserts a squared-distance node of two live handles of one shape:
    /// the elementwise squared difference, reduced to a single value per
    /// batch element.
    pub(crate) fn apply_squared_distance(&mut self, x: &Expression, y: &Expression) -> (r: Result<
        Expression,
        Error,
    >)
        requires
            old(self)@.wf(),
        ensures
            final(self)@.wf(),
            r.is_ok() <==> ({
                &&& old(self)@.holds_expr(x.spec_graph_id(), x.spec_node())
                &&& old(self)@.holds_expr(y.spec_graph_id(), y.spec_node())
                &&& elemwise_ok(
                    old(self)@.nodes[x.spec_node()],
                    old(self)@.nodes[y.spec_node()],
                )
            }),
            !(old(self)@.holds_expr(x.spec_graph_id(), x.spec_node()) && old(
                self,
            )@.holds_expr(y.spec_graph_id(), y.spec_node())) ==> r == Err::<Expression, Error>(
                Error::StaleExpression,
            ) && final(self)@ == old(self)@,
            r matches Err(e) ==> (e == Error::StaleExpression || e == Error::InvalidArgument)
                && final(self)@ == old(self)@,
            r matches Ok(e) ==> ({
                let xn = old(self)@.nodes[x.spec_node()];
                let yn = old(self)@.nodes[y.spec_node()];
                &&& final(self)@ == old(self)@.after_push(
                    NodeModel {
                        op: OpModel::SquaredDistance { lhs: x.spec_node(), rhs: y.spec_node() },
                        dims: seq![1u32],
                        batch: batch_join(xn.batch, yn.batch),
                    },
                )
                &&& e.spec_graph_id() == old(self)@.id
                &&& e.spec_node() == old(self)@.nodes.len()
            }),
    {
        if !self.check_expr(x) || !self.check_expr(y) {
            return Err(Error::StaleExpression);
        }
        if !dims_eq(&self.nodes[x.node].dims, &self.nodes[y.node].dims) {
            return Err(Error::InvalidArgument);
        }
        let bx = self.nodes[x.node].batch;
        let by = self.nodes[y.node].batch;
        if !(bx == by || bx == 1 || by == 1) {
            return Err(Error::InvalidArgument);
        }
        let mut dims: Vec<u32> = Vec::new();
        dims.push(1);
        proof {
            assert(dims@ =~= seq![1u32]);
        }
        let batch = if bx >= by {
            bx
        } else {
            by
        };
        Ok(self.push_node(
            Op::SquaredDistance { lhs: x.node, rhs: y.node },
            dims,
            batch,
        ))
    }

    /// Inserts a node that sums a non-empty list of live handles of one
    /// shape into a single node of that shape; batch multipliers may
    /// broadcast.
    ///
    /// An empty list is refused: a reduction over zero terms is
    /// undefined.
    #[verifier::loop_isolation(false)]
    pub(crate) fn apply_sum(&mut self, xs: &[Expression]) -> (r: Result<Expression, Error>)
        requires
            old(self)@.wf(),
        ensures
            final(self)@.wf(),
            r.is_ok() <==> sum_args_ok(old(self)@, xs@),
            xs@.len() == 0 ==> r == Err::<Expression, Error>(Error::InvalidArgument),
            (exists|i: int|
                0 <= i < xs@.len() && !old(self)@.holds_expr(
                    (#[trigger] xs@[i]).spec_graph_id(),
                    xs@[i].spec_node(),
                )) ==> r == Err::<Expression, Error>(Error::StaleExpression),
            r matches Err(e) ==> final(self)@ == old(self)@ && (e == Error::StaleExpression || e
                == Error::InvalidArgument),
            r matches Ok(e) ==> (sum_batch(old(self)@, xs@) matches Some(b) && ({
                &&& final(self)@ == old(self)@.after_push(
                    NodeModel {
                        op: OpModel::Sum { args: expr_nodes(xs@) },
                        dims: old(self)@.nodes[xs@[0].spec_node()].dims,
                        batch: b,
                    },
                )
                &&& e.spec_graph_id() == old(self)@.id
                &&& e.spec_node() == old(self)@.nodes.len()
            })),
    {
        if xs.len() == 0 {
            return Err(Error::InvalidArgument);
        }
        let mut i: usize = 0;
        while i < xs.len()
            invariant
                i <= xs@.len(),
                forall|k: int|
                    0 <= k < i ==> self@.holds_expr(
                        (#[trigger] xs@[k]).spec_graph_id(),
                        xs@[k].spec_node(),
                    ),
            decreases xs@.len() - i,
        {
            if xs[i].graph != self.id || xs[i].node >= self.nodes.len() {
                proof {
                    assert(!self@.holds_expr(xs@[i as int].spec_graph_id(), xs@[
                        i as int
                    ].spec_node()));
                }
                return Err(Error::StaleExpression);
            }
            i = i + 1;
        }
        let first = xs[0].node;
        let mut batch = self.nodes[first].batch;
        let mut i: usize = 1;
        while i < xs.len()
            invariant
                1 <= i <= xs@.len(),
                forall|k: int|
                    0 <= k < i ==> self@.nodes[(#[trigger] xs@[k]).spec_node()].dims
                        == self@.nodes[xs@[0].spec_node()].dims,
                sum_batch(self@, xs@.take(i as int)) == Some(batch),
            decreases xs@.len() - i,
        {
            proof {
                assert(xs@.take(i + 1).drop_last() =~= xs@.take(i as int));
                assert(xs@.take(1) =~= seq![xs@[0]]);
            }
            if !dims_eq(&self.nodes[xs[i].node].dims, &self.nodes[first].dims) {
                proof {
                    assert(self@.nodes[xs@[i as int].spec_node()].dims != self@.nodes[xs@[
                        0
                    ].spec_node()].dims);
                }
                return Err(Error::InvalidArgument);
            }
            let nb = self.nodes[xs[i].node].batch;
            if !(batch == nb || batch == 1 || nb == 1) {
                proof {
                    assert(sum_batch(self@, xs@.take(i + 1)) is None);
                    lemma_sum_batch_prefix_none(self@, xs@, i + 1);
                }
                return Err(Error::InvalidArgument);
            }
            batch = if batch >= nb {
                batch
            } else {
                nb
            };
            i = i + 1;
        }
        proof {
            assert(xs@.take(xs@.len() as int) =~= xs@);
        }
        let mut args: Vec<usize> = Vec::new();
        let mut i: usize = 0;
        while i < xs.len()
            invariant
                i <= xs@.len(),
                args@.len() == i as int,
                forall|k: int| 0 <= k < i ==> (#[trigger] args@[k]) as int == xs@[k].spec_node(),
            decreases xs@.len() - i,
        {
            args.push(xs[i].node);
            i = i + 1;
        }
        let dims = copy_values(self.nodes[first].dims.as_slice());
        proof {
            assert(args@.map_values(|a: usize| a as int) =~= expr_nodes(xs@));
            assert forall|j: int| 0 <= j < expr_nodes(xs@).len() implies 0 <= #[trigger] expr_nodes(
                xs@,
            )[j] < self@.nodes.len() by {
                assert(self@.holds_expr(xs@[j].spec_graph_id(), xs@[j].spec_node()));
            }
            assert(op_deps_ok(
                OpModel::Sum { args: expr_nodes(xs@) },
                self@.nodes.len() as int,
            ));
        }
        Ok(self.push_node(Op::Sum { args }, dims, batch))
    }

    /// Inserts a node that sums a live handle over its batch axis: the
    /// per-example shape is kept, the batch multiplier collapses to one.
    pub(crate) fn apply_sum_batches(&mut self, x: &Expression) -> (r: Result<Expression, Error>)
        requires
            old(self)@.wf(),
        ensures
            final(self)@.wf(),
            r.is_ok() <==> old(self)@.holds_expr(x.spec_graph_id(), x.spec_node()),
            r matches Err(e) ==> e == Error::StaleExpression && final(self)@ == old(self)@,
            r matches Ok(e) ==> ({
                let xn = old(self)@.nodes[x.spec_node()];
                &&& final(self)@ == old(self)@.after_push(
                    NodeModel {
                        op: OpModel::SumBatches { arg: x.spec_node() },
                        dims: xn.dims,
                        batch: 1,
                    },
                )
                &&& e.spec_graph_id() == old(self)@.id
                &&& e.spec_node() == old(self)@.nodes.len()
            }),
    {
        if !self.check_expr(x) {
            return Err(Error::StaleExpression);
        }
        let dims = copy_values(self.nodes[x.node].dims.as_slice());
        Ok(self.push_node(Op::SumBatches { arg: x.node }, dims, 1))
    }
}

impl Expression {
    /// Derives a new expression: the elementwise sum of this one and
    /// another, inserted into the given graph; the originals are
    /// unaffected.
    ///
    /// Both handles must be live in that graph and their nodes must share
    /// one set of axis sizes; batch multipliers may broadcast.
    pub fn add(&self, rhs: &Expression, cg: &mut ComputationGraph) -> (r: Result<
        Expression,
        Error,
    >)
        requires
            old(cg)@.wf(),
        ensures
            final(cg)@.wf(),
            r.is_ok() <==> ({
                &&& old(cg)@.holds_expr(self.spec_graph_id(), self.spec_node())
                &&& old(cg)@.holds_expr(rhs.spec_graph_id(), rhs.spec_node())
                &&& elemwise_ok(
                    old(cg)@.nodes[self.spec_node()],
                    old(cg)@.nodes[rhs.spec_node()],
                )
            }),
            !(old(cg)@.holds_expr(self.spec_graph_id(), self.spec_node()) && old(
                cg,
            )@.holds_expr(rhs.spec_graph_id(), rhs.spec_node())) ==> r == Err::<Expression, Error>(
                Error::StaleExpression,
            ) && final(cg)@ == old(cg)@,
            r matches Err(e) ==> (e == Error::StaleExpression || e == Error::InvalidArgument)
                && final(cg)@ == old(cg)@,
            r matches Ok(e) ==> ({
                let xn = old(cg)@.nodes[self.spec_node()];
                let yn = old(cg)@.nodes[rhs.spec_node()];
                &&& final(cg)@ == old(cg)@.after_push(
                    NodeModel {
                        op: OpModel::Add { lhs: self.spec_node(), rhs: rhs.spec_node() },
                        dims: xn.dims,
                        batch: batch_join(xn.batch, yn.batch),
                    },
                )
                &&& e.spec_graph_id() == old(cg)@.id
                &&& e.spec_node() == old(cg)@.nodes.len()
            }),
    {
        if !cg.check_expr(self) || !cg.check_expr(rhs) {
            return Err(Error::StaleExpression);
        }
        if !dims_eq(&cg.nodes[self.node].dims, &cg.nodes[rhs.node].dims) {
            return Err(Error::InvalidArgument);
        }
        let bx = cg.nodes[self.node].batch;
        let by = cg.nodes[rhs.node].batch;
        if !(bx == by || bx == 1 || by == 1) {
            return Err(Error::InvalidArgument);
        }
        let dims = copy_values(cg.nodes[self.node].dims.as_slice());
        let batch = if bx >= by {
            bx
        } else {
            by
        };
        Ok(cg.push_node(Op::Add { lhs: self.node, rhs: rhs.node }, dims, batch))
    }

    /// Derives a new expression: the matrix product of this one and
    /// another, inserted into the given graph; the originals are
    /// unaffected.
    ///
    /// Both handles must be live in that graph, each shape may have at
    /// most two axes, the left operand's columns must match the right
    /// operand's rows, and batch multipliers may broadcast.
    pub fn mul(&self, rhs: &Expression, cg: &mut ComputationGraph) -> (r: Result<
        Expression,
        Error,
    >)
        requires
            old(cg)@.wf(),
        ensures
            final(cg)@.wf(),
            r.is_ok() <==> ({
                &&& old(cg)@.holds_expr(self.spec_graph_id(), self.spec_node())
                &&& old(cg)@.holds_expr(rhs.spec_graph_id(), rhs.spec_node())
                &&& matmul_ok(old(cg)@.nodes[self.spec_node()], old(cg)@.nodes[rhs.spec_node()])
            }),
            !(old(cg)@.holds_expr(self.spec_graph_id(), self.spec_node()) && old(
                cg,
            )@.holds_expr(rhs.spec_graph_id(), rhs.spec_node())) ==> r == Err::<Expression, Error>(
                Error::StaleExpression,
            ) && final(cg)@ == old(cg)@,
            r matches Err(e) ==> (e == Error::StaleExpression || e == Error::InvalidArgument)
                && final(cg)@ == old(cg)@,
            r matches Ok(e) ==> ({
                let xn = old(cg)@.nodes[self.spec_node()];
                let yn = old(cg)@.nodes[rhs.spec_node()];
                &&& final(cg)@ == old(cg)@.after_push(
                    NodeModel {
                        op: OpModel::Mul { lhs: self.spec_node(), rhs: rhs.spec_node() },
                        dims: matmul_dims(xn.dims, yn.dims),
                        batch: batch_join(xn.batch, yn.batch),
                    },
                )
                &&& e.spec_graph_id() == old(cg)@.id
                &&& e.spec_node() == old(cg)@.nodes.len()
            }),
    {
        if !cg.check_expr(self) || !cg.check_expr(rhs) {
            return Err(Error::StaleExpression);
        }
        if cg.nodes[self.node].dims.len() > 2 || cg.nodes[rhs.node].dims.len() > 2 {
            return Err(Error::InvalidArgument);
        }
        let x_cols = if cg.nodes[self.node].dims.len() >= 2 {
            cg.nodes[self.node].dims[1]
        } else {
            1
        };
        let y_rows = if cg.nodes[rhs.node].dims.len() >= 1 {
            cg.nodes[rhs.node].dims[0]
        } else {
            1
        };
        if x_cols != y_rows {
            return Err(Error::InvalidArgument);
        }
        let bx = cg.nodes[self.node].batch;
        let by = cg.nodes[rhs.node].batch;
        if !(bx == by || bx == 1 || by == 1) {
            return Err(Error::InvalidArgument);
        }
        let x_rows = if cg.nodes[self.node].dims.len() >= 1 {
            cg.nodes[self.node].dims[0]
        } else {
            1
        };
        let mut dims: Vec<u32> = Vec::new();
        dims.push(x_rows);
        if cg.nodes[rhs.node].dims.len() >= 2 {
            let y_cols = cg.nodes[rhs.node].dims[1];
            dims.push(y_cols);
        }
        proof {
            assert(dims@ =~= matmul_dims(
                cg@.nodes[self.spec_node()].dims,
                cg@.nodes[rhs.spec_node()].dims,
            ));
        }
        let batch = if bx >= by {
            bx
        } else {
            by
        };
        Ok(cg.push_node(Op::Mul { lhs: self.node, rhs: rhs.node }, dims, batch))
    }
}

/// The identity of whichever graph is currently active process-wide.
///
/// A handle whose [`Expression::graph_id`] differs from this value was
/// minted under a graph that has since been superseded and is stale.
pub fn get_current_graph_id(engine: &Engine) -> (r: u32)
    ensures
        r == engine@.current_graph,
{
    engine.current_graph_value()
}

/// Reverting a well-formed graph leaves a well-formed graph.
proof fn lemma_revert_wf(g: GraphModel)
    requires
        g.wf(),
    ensures
        g.after_revert().wf(),
{
    if g.checkpoints.len() > 0 {
        let r = g.after_revert();
        assert forall|i: int|
            0 <= i < r.nodes.len() implies op_deps_ok((#[trigger] r.nodes[i]).op, i)
                && node_vals_ok(r.nodes[i]) by {
            assert(r.nodes[i] == g.nodes[i]);
        }
    }
}

/// A forward pass is idempotent on the graph: running it a second time on
/// the same expression, with no mutation in between, is accepted again and
/// leaves the graph exactly as the first run left it, so both runs denote
/// one and the same computation.
pub proof fn lemma_forward_idempotent(g: GraphModel, graph_id: u32, node: int)
    requires
        g.forward_ok(graph_id, node),
    ensures
        g.after_forward(node).forward_ok(graph_id, node),
        g.after_forward(node).after_forward(node) == g.after_forward(node),
{
    assert(g.after_forward(node).after_forward(node) =~= g.after_forward(node));
}

/// The graph grows monotonically: inserting a node disturbs no existing
/// node, so every live handle stays live, keeps its node, and stays
/// exactly as evaluable as it was.
pub proof fn lemma_push_preserves_handles(g: GraphModel, n: NodeModel, graph_id: u32, node: int)
    requires
        g.holds_expr(graph_id, node),
    ensures
        g.after_push(n).holds_expr(graph_id, node),
        g.after_push(n).nodes[node] == g.nodes[node],
        g.after_push(n).forward_ok(graph_id, node) <==> g.forward_ok(graph_id, node),
{
}

/// Reverting to a checkpoint keeps everything below it intact and kills
/// everything above it: the nodes below the restore point are unchanged
/// (and, being well formed, refer only to other unchanged nodes, so the
/// computation each of them denotes is unchanged); handles at or above the
/// restore point no longer hold a node; and handles below it are exactly
/// as usable as before.
pub proof fn lemma_revert_restores_checkpoint(g: GraphModel)
    requires
        g.wf(),
        g.checkpoints.len() > 0,
    ensures
        ({
            let cp = g.checkpoints.last();
            let r = g.after_revert();
            &&& r.wf()
            &&& r.id == g.id
            &&& r.nodes.len() == cp
            &&& forall|i: int| 0 <= i < cp ==> r.nodes[i] == g.nodes[i]
            &&& forall|node: int| node >= cp ==> !r.holds_expr(g.id, node)
            &&& forall|node: int|
                0 <= node < cp ==> r.holds_expr(g.id, node) && (r.forward_ok(g.id, node)
                    <==> g.forward_ok(g.id, node))
        }),
{
    lemma_revert_wf(g);
    let cp = g.checkpoints.last();
    let r = g.after_revert();
    assert forall|node: int|
        0 <= node < cp implies r.holds_expr(g.id, node) && (r.forward_ok(g.id, node)
        <==> g.forward_ok(g.id, node)) by {
        assert(r.nodes[node] == g.nodes[node]);
    }
}

/// Setting a checkpoint, growing the graph by one node, and reverting
/// undoes the growth exactly: the node list and the checkpoint stack are
/// as they were.
pub proof fn lemma_checkpoint_then_revert_undoes_growth(g: GraphModel, n: NodeModel)
    requires
        g.wf(),
    ensures
        ({
            let r = g.after_checkpoint().after_push(n).after_revert();
            &&& r.nodes == g.nodes
            &&& r.checkpoints == g.checkpoints
            &&& r.id == g.id
        }),
{
    let r = g.after_checkpoint().after_push(n).after_revert();
    assert(r.nodes =~= g.nodes);
    assert(r.checkpoints =~= g.checkpoints);
}

} // verus!
