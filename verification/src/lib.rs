//! A safe, fully specified surface over a computation-graph automatic
//! differentiation engine.
//!
//! The library owns the symbolic side of the engine: shapes, parameter
//! records, the monotonically growing node list of a computation graph,
//! checkpointing, graph identity and the staleness of expression handles.
//! The numerical kernels (tensor contents, gradients, optimizer steps) are
//! the business of a native engine behind this surface and are not modelled
//! here; every float-valued knob is carried as its raw bit pattern (see
//! [`bits`]).

use vstd::prelude::*;

pub mod bits;
mod dim;
mod graph;
mod init;
mod param_init;

pub mod ops;
pub mod trainer;

pub use graph::ComputationGraph;
pub use graph::Expression;
pub use graph::GraphModel;
pub use graph::NodeModel;
pub use graph::OpModel;
pub use graph::batch_compat;
pub use graph::batch_join;
pub use graph::batched_input_ok;
pub use graph::cm_offset;
pub use graph::elemwise_ok;
pub use graph::expr_nodes;
pub use graph::fresh_graph;
pub use graph::get_current_graph_id;
pub use graph::index_ok;
pub use graph::input_dims_ok;
pub use graph::input_ok;
pub use graph::lemma_checkpoint_then_revert_undoes_growth;
pub use graph::lemma_cm_offset_in_range;
pub use graph::lemma_forward_idempotent;
pub use graph::lemma_push_preserves_handles;
pub use graph::lemma_revert_restores_checkpoint;
pub use graph::mat_cols;
pub use graph::mat_rows;
pub use graph::matmul_dims;
pub use graph::matmul_ok;
pub use graph::node_vals_ok;
pub use graph::norm_dims;
pub use graph::op_deps_ok;
pub use graph::op_operands;
pub use graph::scalar_node;
pub use graph::seq_product;
pub use graph::sum_args_ok;
pub use graph::sum_batch;

pub use init::Engine;
pub use init::EngineModel;
pub use init::engine_after_graph;
pub use init::initial_engine;
pub use init::initialize;
pub use init::lemma_graph_identity_strictly_increases;
pub use init::reset_rand_seed;

pub use param_init::ParamInit;
pub use param_init::check_param_init;
pub use param_init::param_init_ok;
pub use dim::Dim;
pub use dim::dim_new_ok;
pub use dim::lemma_dim_new_reports_its_arguments;

verus! {

use crate::bits::{F32_ZERO_BITS, finite_bits, is_finite_bits};
use crate::graph::copy_values;

/// The ways an operation of this library can fail.
///
/// Every fallible operation states in its contract exactly which variant
/// comes back on which inputs.
#[derive(Clone, Copy, Debug, PartialEq, Eq, Structural)]
pub enum Error {
    /// A shape, length or initializer argument was malformed.
    InvalidArgument,
    /// An expression handle does not belong to the graph it was used with,
    /// or its node is gone (the graph was reverted past it).
    StaleExpression,
    /// A backward pass was asked for without a covering forward pass.
    NoForward,
    /// A revert was asked for with no checkpoint set.
    NoCheckpoint,
    /// A forward pass was asked for on an expression that does not reduce
    /// to a single value.
    NotScalar,
    /// An optimizer step was asked for with no gradients accumulated.
    NoGradients,
}

/// The abstract record of one trainable parameter in a collection.
#[verifier::ext_equal]
pub struct ParamRecordModel {
    /// The axis sizes of the parameter's shape.
    pub dims: Seq<u32>,
    /// The initialization policy it was created under.
    pub init: ParamInit,
    /// The name it was requested under; empty means auto-named. Collisions
    /// are the engine's to resolve, so names are recorded as given.
    pub name: Seq<char>,
}

/// The abstract record of one lookup table in a collection.
#[verifier::ext_equal]
pub struct LookupRecordModel {
    /// How many rows the table holds.
    pub rows: u32,
    /// The axis sizes of one row.
    pub dims: Seq<u32>,
    /// The initialization policy it was created under.
    pub init: ParamInit,
    /// The name it was requested under; empty means auto-named.
    pub name: Seq<char>,
}

/// The abstract content of a parameter collection.
#[verifier::ext_equal]
pub struct CollectionModel {
    /// The weight-decay coefficient, as a raw bit pattern.
    pub weight_decay: u32,
    /// The trainable parameters, in creation order.
    pub params: Seq<ParamRecordModel>,
    /// The lookup tables, in creation order.
    pub lookups: Seq<LookupRecordModel>,
    /// Whether a backward pass has accumulated gradients that no
    /// optimizer step has consumed yet.
    pub grads_fresh: bool,
}

/// A fresh collection: no parameters, weight decay zero, no gradients.
pub open spec fn empty_collection() -> CollectionModel {
    CollectionModel {
        weight_decay: F32_ZERO_BITS,
        params: Seq::empty(),
        lookups: Seq::empty(),
        grads_fresh: false,
    }
}

/// Every axis size of a parameter shape is at least one.
pub open spec fn param_dims_ok(dims: Seq<u32>) -> bool {
    forall|i: int| 0 <= i < dims.len() ==> #[trigger] dims[i] >= 1
}

/// A parameter request is accepted exactly when its shape is positive and
/// its initialization policy fits that shape.
pub open spec fn add_param_ok(dims: Seq<u32>, init: ParamInit) -> bool {
    param_dims_ok(dims) && param_init_ok(init, dims)
}

/// A lookup-table request is accepted exactly when there are at least two
/// axes (the row count, then the row shape), the shape is positive, and
/// the initialization policy fits the row shape.
pub open spec fn add_lookup_param_ok(dims: Seq<u32>, init: ParamInit) -> bool {
    dims.len() >= 2 && param_dims_ok(dims) && param_init_ok(init, dims.drop_first())
}

#[derive(Debug)]
struct ParamRecord {
    dims: Vec<u32>,
    init: ParamInit,
    name: String,
}

impl View for ParamRecord {
    type V = ParamRecordModel;

    closed spec fn view(&self) -> ParamRecordModel {
        ParamRecordModel { dims: self.dims@, init: self.init, name: self.name@ }
    }
}

#[derive(Debug)]
struct LookupRecord {
    rows: u32,
    dims: Vec<u32>,
    init: ParamInit,
    name: String,
}

impl View for LookupRecord {
    type V = LookupRecordModel;

    closed spec fn view(&self) -> LookupRecordModel {
        LookupRecordModel { rows: self.rows, dims: self.dims@, init: self.init, name: self.name@ }
    }
}

/// An exclusively owned handle to one trainable parameter.
///
/// The collection that minted the handle must outlive it; the handle
/// records the parameter's shape and its position in the collection.
#[derive(Debug)]
pub struct Parameter {
    pub(crate) dims: Vec<u32>,
    pub(crate) index: usize,
}

impl Parameter {
    /// The axis sizes of this parameter's shape.
    pub closed spec fn spec_dims(&self) -> Seq<u32> {
        self.dims@
    }

    /// This parameter's position in its collection.
    pub closed spec fn spec_index(&self) -> int {
        self.index as int
    }
}

/// An exclusively owned handle to one lookup table: `rows` embedding rows,
/// each of the recorded row shape.
#[derive(Debug)]
pub struct LookupParameter {
    pub(crate) rows: u32,
    pub(crate) dims: Vec<u32>,
    pub(crate) index: usize,
}

impl LookupParameter {
    /// How many rows the table holds.
    pub closed spec fn spec_rows(&self) -> u32 {
        self.rows
    }

    /// The axis sizes of one row.
    pub closed spec fn spec_dims(&self) -> Seq<u32> {
        self.dims@
    }

    /// This table's position in its collection.
    pub closed spec fn spec_index(&self) -> int {
        self.index as int
    }

    /// How many rows the table holds.
    pub fn lookup_dim(&self) -> (r: u32)
        ensures
            r == self.spec_rows(),
    {
        self.rows
    }
}

/// A container and factory for trainable parameters and lookup tables.
///
/// The collection owns what it mints and carries the weight-decay
/// coefficient and the gradient state that a backward pass fills and an
/// optimizer step consumes.
#[derive(Debug)]
pub struct ParameterCollection {
    weight_decay: u32,
    params: Vec<ParamRecord>,
    lookups: Vec<LookupRecord>,
    grads_fresh: bool,
}

impl View for ParameterCollection {
    type V = CollectionModel;

    closed spec fn view(&self) -> CollectionModel {
        CollectionModel {
            weight_decay: self.weight_decay,
            params: self.params@.map_values(|p: ParamRecord| p@),
            lookups: self.lookups@.map_values(|p: LookupRecord| p@),
            grads_fresh: self.grads_fresh,
        }
    }
}

impl ParameterCollection {
    /// Creates an empty collection with weight decay zero.
    pub fn new() -> (pc: ParameterCollection)
        ensures
            pc@ == empty_collection(),
    {
        let pc = ParameterCollection {
            weight_decay: F32_ZERO_BITS,
            params: Vec::new(),
            lookups: Vec::new(),
            grads_fresh: false,
        };
        proof {
            assert(pc@ =~= empty_collection());
        }
        pc
    }

    /// Creates an empty collection with the given weight-decay
    /// coefficient (a raw bit pattern); a non-finite coefficient is
    /// refused.
    pub fn with_weight_decay(lambda: u32) -> (r: Result<ParameterCollection, Error>)
        ensures
            r.is_ok() <==> is_finite_bits(lambda),
            r matches Ok(pc) ==> pc@ == (CollectionModel {
                weight_decay: lambda,
                ..empty_collection()
            }),
            r matches Err(e) ==> e == Error::InvalidArgument,
    {
        if !finite_bits(lambda) {
            return Err(Error::InvalidArgument);
        }
        let pc = ParameterCollection {
            weight_decay: lambda,
            params: Vec::new(),
            lookups: Vec::new(),
            grads_fresh: false,
        };
        proof {
            assert(pc@ =~= (CollectionModel { weight_decay: lambda, ..empty_collection() }));
        }
        Ok(pc)
    }

    /// Allocates a parameter of the given shape under the given
    /// initialization policy and name (empty means auto-named), and
    /// appends it to the collection.
    ///
    /// A shape with a zero axis, or a policy that does not fit the shape
    /// (see [`param_init_ok`]), is refused and the collection is left
    /// unchanged.
    pub fn add_param(&mut self, dim: &[u32], init: ParamInit, name: &str) -> (r: Result<
        Parameter,
        Error,
    >)
        ensures
            r.is_ok() <==> add_param_ok(dim@, init),
            r matches Err(e) ==> e == Error::InvalidArgument && final(self)@ == old(self)@,
            r matches Ok(p) ==> ({
                &&& final(self)@ == (CollectionModel {
                    params: old(self)@.params.push(
                        ParamRecordModel { dims: dim@, init, name: name@ },
                    ),
                    ..old(self)@
                })
                &&& p.spec_dims() == dim@
                &&& p.spec_index() == old(self)@.params.len()
            }),
    {
        if !dims_positive(dim) {
            return Err(Error::InvalidArgument);
        }
        if !check_param_init(&init, dim) {
            return Err(Error::InvalidArgument);
        }
        let index = self.params.len();
        let dims = copy_values(dim);
        let handle_dims = copy_values(dim);
        self.params.push(ParamRecord { dims, init, name: name.to_owned() });
        proof {
            assert(self@.params =~= old(self)@.params.push(
                ParamRecordModel { dims: dim@, init, name: name@ },
            ));
            assert(self@ =~= (CollectionModel {
                params: old(self)@.params.push(
                    ParamRecordModel { dims: dim@, init, name: name@ },
                ),
                ..old(self)@
            }));
        }
        Ok(Parameter { dims: handle_dims, index })
    }

    /// Allocates a parameter of the given shape under the default policy:
    /// Glorot initialization with gain one, auto-named.
    pub fn add_default_param(&mut self, dim: &[u32]) -> (r: Result<Parameter, Error>)
        ensures
            r.is_ok() <==> param_dims_ok(dim@),
            r matches Err(e) ==> e == Error::InvalidArgument && final(self)@ == old(self)@,
            r matches Ok(p) ==> ({
                &&& final(self)@ == (CollectionModel {
                    params: old(self)@.params.push(
                        ParamRecordModel {
                            dims: dim@,
                            init: ParamInit::Glorot(false, crate::bits::F32_ONE_BITS),
                            name: Seq::empty(),
                        },
                    ),
                    ..old(self)@
                })
                &&& p.spec_dims() == dim@
                &&& p.spec_index() == old(self)@.params.len()
            }),
    {
        proof {
            lemma_one_bits_finite();
            reveal_strlit("");
            assert(""@ =~= Seq::<char>::empty());
        }
        self.add_param(dim, ParamInit::Glorot(false, crate::bits::F32_ONE_BITS), "")
    }

    /// Allocates a lookup table under the given initialization policy and
    /// name. The first axis of the request is the row count; the
    /// remaining axes form the per-row shape.
    ///
    /// A request with fewer than two axes is refused as an invalid
    /// argument, as is a zero axis or a policy that does not fit the row
    /// shape; the collection is then left unchanged.
    pub fn add_lookup_param(&mut self, dim: &[u32], init: ParamInit, name: &str) -> (r: Result<
        LookupParameter,
        Error,
    >)
        ensures
            dim@.len() < 2 ==> (r matches Err(e) && e == Error::InvalidArgument),
            r.is_ok() <==> add_lookup_param_ok(dim@, init),
            r matches Err(e) ==> e == Error::InvalidArgument && final(self)@ == old(self)@,
            r matches Ok(p) ==> ({
                &&& final(self)@ == (CollectionModel {
                    lookups: old(self)@.lookups.push(
                        LookupRecordModel {
                            rows: dim@[0],
                            dims: dim@.drop_first(),
                            init,
                            name: name@,
                        },
                    ),
                    ..old(self)@
                })
                &&& p.spec_rows() == dim@[0]
                &&& p.spec_dims() == dim@.drop_first()
                &&& p.spec_index() == old(self)@.lookups.len()
            }),
    {
        if dim.len() < 2 {
            return Err(Error::InvalidArgument);
        }
        if !dims_positive(dim) {
            return Err(Error::InvalidArgument);
        }
        let rows = dim[0];
        let row_dims = copy_tail_u32(dim);
        if !check_param_init(&init, row_dims.as_slice()) {
            return Err(Error::InvalidArgument);
        }
        let index = self.lookups.len();
        let handle_dims = copy_tail_u32(dim);
        self.lookups.push(LookupRecord { rows, dims: row_dims, init, name: name.to_owned() });
        proof {
            assert(self@.lookups =~= old(self)@.lookups.push(
                LookupRecordModel { rows: dim@[0], dims: dim@.drop_first(), init, name: name@ },
            ));
            assert(self@ =~= (CollectionModel {
                lookups: old(self)@.lookups.push(
                    LookupRecordModel {
                        rows: dim@[0],
                        dims: dim@.drop_first(),
                        init,
                        name: name@,
                    },
                ),
                ..old(self)@
            }));
        }
        Ok(LookupParameter { rows, dims: handle_dims, index })
    }

    /// Allocates a lookup table under the default policy: Glorot
    /// initialization for a lookup with gain one, auto-named.
    pub fn add_default_lookup_param(&mut self, dim: &[u32]) -> (r: Result<LookupParameter, Error>)
        ensures
            r.is_ok() <==> dim@.len() >= 2 && param_dims_ok(dim@),
            r matches Err(e) ==> e == Error::InvalidArgument && final(self)@ == old(self)@,
            r matches Ok(p) ==> ({
                &&& final(self)@ == (CollectionModel {
                    lookups: old(self)@.lookups.push(
                        LookupRecordModel {
                            rows: dim@[0],
                            dims: dim@.drop_first(),
                            init: ParamInit::Glorot(true, crate::bits::F32_ONE_BITS),
                            name: Seq::empty(),
                        },
                    ),
                    ..old(self)@
                })
                &&& p.spec_rows() == dim@[0]
                &&& p.spec_dims() == dim@.drop_first()
                &&& p.spec_index() == old(self)@.lookups.len()
            }),
    {
        proof {
            lemma_one_bits_finite();
            reveal_strlit("");
            assert(""@ =~= Seq::<char>::empty());
        }
        self.add_lookup_param(dim, ParamInit::Glorot(true, crate::bits::F32_ONE_BITS), "")
    }

    /// The collection's fully qualified hierarchical name: a root
    /// collection is named by the path separator alone.
    pub fn name(&self) -> (r: String)
        ensures
            r@ == "/"@,
    {
        "/".to_owned()
    }

    /// The weight-decay coefficient, as a raw bit pattern.
    pub fn weight_decay_lambda(&self) -> (r: u32)
        ensures
            r == self@.weight_decay,
    {
        self.weight_decay
    }

    /// How many parameters (not counting lookup tables) the collection
    /// holds.
    pub fn size(&self) -> (r: usize)
        ensures
            r == self@.params.len(),
    {
        self.params.len()
    }

    /// Marks the gradients as freshly accumulated (a backward pass ran).
    pub(crate) fn set_grads_fresh(&mut self)
        ensures
            final(self)@ == (CollectionModel { grads_fresh: true, ..old(self)@ }),
    {
        self.grads_fresh = true;
        proof {
            assert(self@ =~= (CollectionModel { grads_fresh: true, ..old(self)@ }));
        }
    }

    /// Whether gradients are freshly accumulated.
    pub(crate) fn grads_ready(&self) -> (r: bool)
        ensures
            r == self@.grads_fresh,
    {
        self.grads_fresh
    }

    /// Consumes the accumulated gradients (an optimizer step ran).
    pub(crate) fn clear_grads(&mut self)
        ensures
            final(self)@ == (CollectionModel { grads_fresh: false, ..old(self)@ }),
    {
        self.grads_fresh = false;
        proof {
            assert(self@ =~= (CollectionModel { grads_fresh: false, ..old(self)@ }));
        }
    }
}

/// The bit pattern of one encodes a finite value.
proof fn lemma_one_bits_finite()
    ensures
        is_finite_bits(crate::bits::F32_ONE_BITS),
{
    assert((0x3F80_0000u32 >> 23) & 0xFF != 0xFF) by (bit_vector);
}

/// Decides whether every axis size is at least one.
fn dims_positive(dim: &[u32]) -> (r: bool)
    ensures
        r == param_dims_ok(dim@),
{
    let mut i: usize = 0;
    while i < dim.len()
        invariant
            i <= dim@.len(),
            forall|k: int| 0 <= k < i ==> #[trigger] dim@[k] >= 1,
        decreases dim@.len() - i,
    {
        if dim[i] == 0 {
            return false;
        }
        i = i + 1;
    }
    true
}

/// Copies all but the first entry of a slice of axis sizes.
fn copy_tail_u32(xs: &[u32]) -> (r: Vec<u32>)
    requires
        xs@.len() >= 1,
    ensures
        r@ == xs@.drop_first(),
{
    let mut r: Vec<u32> = Vec::new();
    let mut i: usize = 1;
    while i < xs.len()
        invariant
            1 <= i <= xs@.len(),
            r@ == xs@.subrange(1, i as int),
        decreases xs@.len() - i,
    {
        r.push(xs[i]);
        proof {
            assert(xs@.subrange(1, i + 1) =~= xs@.subrange(1, i as int).push(xs@[i as int]));
        }
        i = i + 1;
    }
    proof {
        assert(xs@.subrange(1, xs@.len() as int) =~= xs@.drop_first());
    }
    r
}

} // verus!
