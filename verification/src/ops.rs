//! Reduction and activation operators over expressions.
//!
//! Each operator validates its operands against the graph it is given —
//! liveness of every handle, agreement of shapes — and inserts one new
//! node; the operands are unaffected. The numeric evaluation of the new
//! node is the engine's business and happens only at a forward pass.

use vstd::prelude::*;

use crate::Error;
use crate::graph::{ComputationGraph, Expression, GraphModel, NodeModel, OpModel, batch_join,
    elemwise_ok, expr_nodes, scalar_node, sum_args_ok, sum_batch};

verus! {

/// Derives the elementwise hyperbolic tangent of a live expression; the
/// new node keeps the operand's shape.
pub fn tanh(cg: &mut ComputationGraph, x: &Expression) -> (r: Result<Expression, Error>)
    requires
        old(cg)@.wf(),
    ensures
        final(cg)@.wf(),
        r.is_ok() <==> old(cg)@.holds_expr(x.spec_graph_id(), x.spec_node()),
        r matches Err(e) ==> e == Error::StaleExpression && final(cg)@ == old(cg)@,
        r matches Ok(e) ==> ({
            let xn = old(cg)@.nodes[x.spec_node()];
            &&& final(cg)@ == old(cg)@.after_push(
                NodeModel { op: OpModel::Tanh { arg: x.spec_node() }, dims: xn.dims, batch: xn.batch },
            )
            &&& e.spec_graph_id() == old(cg)@.id
            &&& e.spec_node() == old(cg)@.nodes.len()
        }),
{
    cg.apply_tanh(x)
}

/// Derives the squared distance of two live expressions of one shape:
/// the elementwise squared difference, reduced to a single value per
/// batch element; batch multipliers may broadcast.
pub fn squared_distance(cg: &mut ComputationGraph, x: &Expression, y: &Expression) -> (r: Result<
    Expression,
    Error,
>)
    requires
        old(cg)@.wf(),
    ensures
        final(cg)@.wf(),
        r.is_ok() <==> ({
            &&& old(cg)@.holds_expr(x.spec_graph_id(), x.spec_node())
            &&& old(cg)@.holds_expr(y.spec_graph_id(), y.spec_node())
            &&& elemwise_ok(old(cg)@.nodes[x.spec_node()], old(cg)@.nodes[y.spec_node()])
        }),
        !(old(cg)@.holds_expr(x.spec_graph_id(), x.spec_node()) && old(cg)@.holds_expr(
            y.spec_graph_id(),
            y.spec_node(),
        )) ==> r == Err::<Expression, Error>(Error::StaleExpression) && final(cg)@ == old(cg)@,
        r matches Err(e) ==> (e == Error::StaleExpression || e == Error::InvalidArgument)
            && final(cg)@ == old(cg)@,
        r matches Ok(e) ==> ({
            let xn = old(cg)@.nodes[x.spec_node()];
            let yn = old(cg)@.nodes[y.spec_node()];
            &&& final(cg)@ == old(cg)@.after_push(
                NodeModel {
                    op: OpModel::SquaredDistance { lhs: x.spec_node(), rhs: y.spec_node() },
                    dims: seq![1u32],
                    batch: batch_join(xn.batch, yn.batch),
                },
            )
            &&& e.spec_graph_id() == old(cg)@.id
            &&& e.spec_node() == old(cg)@.nodes.len()
        }),
{
    cg.apply_squared_distance(x, y)
}

/// Reduces a non-empty list of live expressions of one shape into a
/// single node of that shape; batch multipliers may broadcast. An empty
/// list is refused: a reduction over zero terms is undefined.
pub fn sum(cg: &mut ComputationGraph, xs: &[Expression]) -> (r: Result<Expression, Error>)
    requires
        old(cg)@.wf(),
    ensures
        final(cg)@.wf(),
        r.is_ok() <==> sum_args_ok(old(cg)@, xs@),
        xs@.len() == 0 ==> r == Err::<Expression, Error>(Error::InvalidArgument),
        (exists|i: int|
            0 <= i < xs@.len() && !old(cg)@.holds_expr(
                (#[trigger] xs@[i]).spec_graph_id(),
                xs@[i].spec_node(),
            )) ==> r == Err::<Expression, Error>(Error::StaleExpression),
        r matches Err(e) ==> final(cg)@ == old(cg)@ && (e == Error::StaleExpression || e
            == Error::InvalidArgument),
        r matches Ok(e) ==> (sum_batch(old(cg)@, xs@) matches Some(b) && ({
            &&& final(cg)@ == old(cg)@.after_push(
                NodeModel {
                    op: OpModel::Sum { args: expr_nodes(xs@) },
                    dims: old(cg)@.nodes[xs@[0].spec_node()].dims,
                    batch: b,
                },
            )
            &&& e.spec_graph_id() == old(cg)@.id
            &&& e.spec_node() == old(cg)@.nodes.len()
        })),
{
    cg.apply_sum(xs)
}

/// Reduces a live expression across its batch axis only: the per-example
/// shape is kept, collapsed to a single batch element.
pub fn sum_batches(cg: &mut ComputationGraph, x: &Expression) -> (r: Result<Expression, Error>)
    requires
        old(cg)@.wf(),
    ensures
        final(cg)@.wf(),
        r.is_ok() <==> old(cg)@.holds_expr(x.spec_graph_id(), x.spec_node()),
        r matches Err(e) ==> e == Error::StaleExpression && final(cg)@ == old(cg)@,
        r matches Ok(e) ==> ({
            let xn = old(cg)@.nodes[x.spec_node()];
            &&& final(cg)@ == old(cg)@.after_push(
                NodeModel { op: OpModel::SumBatches { arg: x.spec_node() }, dims: xn.dims, batch: 1 },
            )
            &&& e.spec_graph_id() == old(cg)@.id
            &&& e.spec_node() == old(cg)@.nodes.len()
        }),
{
    cg.apply_sum_batches(x)
}

/// Summing a single live expression is accepted and inserts a node of
/// exactly the operand's shape, so the new node reduces to a single value
/// exactly when the operand does: the one-element sum denotes the same
/// computation as its operand.
pub proof fn lemma_sum_of_one_keeps_shape(g: GraphModel, x: Expression)
    requires
        g.wf(),
        g.holds_expr(x.spec_graph_id(), x.spec_node()),
    ensures
        sum_args_ok(g, seq![x]),
        sum_batch(g, seq![x]) == Some(g.nodes[x.spec_node()].batch),
        ({
            let n = NodeModel {
                op: OpModel::Sum { args: expr_nodes(seq![x]) },
                dims: g.nodes[seq![x][0].spec_node()].dims,
                batch: g.nodes[x.spec_node()].batch,
            };
            scalar_node(n) <==> g.scalar_at(x.spec_node())
        }),
{
    let xs = seq![x];
    assert(xs[0] == x);
    assert(sum_batch(g, xs) == Some(g.nodes[x.spec_node()].batch));
    let n = NodeModel {
        op: OpModel::Sum { args: expr_nodes(xs) },
        dims: g.nodes[xs[0].spec_node()].dims,
        batch: g.nodes[x.spec_node()].batch,
    };
    assert(n.dims == g.nodes[x.spec_node()].dims);
    assert(n.batch == g.nodes[x.spec_node()].batch);
    assert(scalar_node(n) <==> scalar_node(g.nodes[x.spec_node()]));
}

} // verus!
