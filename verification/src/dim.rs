//! Tensor shapes: an ordered list of axis sizes plus an orthogonal batch
//! dimension.

use vstd::prelude::*;

use crate::Error;

verus! {

/// The shape of a tensor.
///
/// A shape is an ordered sequence of axis sizes together with a batch
/// multiplier, which is kept apart from the axes so that batched
/// computation stays transparent. A well-formed shape has a batch
/// multiplier of at least one, and a shape with no axes is only well formed
/// unbatched.
#[derive(Debug)]
pub struct Dim {
    d: Vec<u32>,
    batch: u32,
}

impl Dim {
    /// Every shape in circulation was accepted by [`Dim::new`], so its
    /// batch multiplier is at least one, an empty shape is unbatched, and
    /// its rank fits the engine's rank type.
    #[verifier::type_invariant]
    spec fn inv(self) -> bool {
        dim_new_ok(self.d@, self.batch)
    }
}

/// The axis sizes and the batch multiplier a shape was built from are
/// accepted exactly when the batch multiplier is at least one, an empty
/// axis list is not batched, and the rank fits the engine's rank type.
pub open spec fn dim_new_ok(dims: Seq<u32>, batch_size: u32) -> bool {
    &&& batch_size >= 1
    &&& (dims.len() > 0 || batch_size == 1)
    &&& dims.len() <= u32::MAX
}

impl Dim {
    /// The axis sizes of this shape.
    pub closed spec fn spec_dims(&self) -> Seq<u32> {
        self.d@
    }

    /// The batch multiplier of this shape.
    pub closed spec fn spec_batch_size(&self) -> u32 {
        self.batch
    }

    /// Builds a shape from an ordered list of axis sizes and a batch
    /// multiplier.
    ///
    /// A batch multiplier of zero, or a batched shape with no axes, is
    /// rejected as an invalid argument rather than handed on.
    pub fn new(dims: &[u32], batch_size: u32) -> (r: Result<Dim, Error>)
        ensures
            r matches Ok(dim) ==> dim.spec_dims() == dims@ && dim.spec_batch_size() == batch_size,
            r.is_ok() <==> dim_new_ok(dims@, batch_size),
            r matches Err(e) ==> e == Error::InvalidArgument,
    {
        if batch_size == 0 {
            return Err(Error::InvalidArgument);
        }
        if dims.len() == 0 && batch_size > 1 {
            return Err(Error::InvalidArgument);
        }
        if dims.len() > u32::MAX as usize {
            return Err(Error::InvalidArgument);
        }
        let mut d: Vec<u32> = Vec::new();
        let mut i: usize = 0;
        while i < dims.len()
            invariant
                i <= dims.len(),
                d@ == dims@.take(i as int),
            decreases dims.len() - i,
        {
            d.push(dims[i]);
            i = i + 1;
        }
        proof {
            assert(d@ == dims@.take(dims@.len() as int));
            assert(dims@.take(dims@.len() as int) =~= dims@);
        }
        Ok(Dim { d, batch: batch_size })
    }

    /// The batch multiplier.
    pub fn batch_size(&self) -> (r: u32)
        ensures
            r == self.spec_batch_size(),
    {
        self.batch
    }

    /// The rank: the number of axes, not counting the batch dimension.
    pub fn ordre(&self) -> (r: u32)
        ensures
            r == self.spec_dims().len(),
    {
        proof {
            use_type_invariant(self);
        }
        self.d.len() as u32
    }

    /// The size of the axis at the given position; out-of-range positions
    /// are reported as an invalid argument.
    pub fn index(&self, i: usize) -> (r: Result<u32, Error>)
        ensures
            i < self.spec_dims().len() ==> r == Ok::<u32, Error>(self.spec_dims()[i as int]),
            i >= self.spec_dims().len() ==> r == Err::<u32, Error>(Error::InvalidArgument),
    {
        if i < self.d.len() {
            Ok(self.d[i])
        } else {
            Err(Error::InvalidArgument)
        }
    }
}

/// A shape built from accepted arguments reports exactly the rank and the
/// batch multiplier it was built from: the rank is the number of axis sizes
/// given, and the batch multiplier is returned unchanged.
pub proof fn lemma_dim_new_reports_its_arguments(dim: Dim, dims: Seq<u32>, batch_size: u32)
    requires
        dim_new_ok(dims, batch_size),
        dim.spec_dims() == dims,
        dim.spec_batch_size() == batch_size,
    ensures
        dim.spec_dims().len() == dims.len(),
        dim.spec_batch_size() == batch_size,
{
}

} // verus!
