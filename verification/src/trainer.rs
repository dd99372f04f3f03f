//! Optimizers that tune the parameters of a collection.
//!
//! A trainer consumes the gradients that a backward pass accumulated into
//! a collection and mutates the parameter values in place; the numeric
//! update itself is the engine's work, and what is modelled here is the
//! gradient lifecycle (a step needs fresh gradients and consumes them)
//! and the optimizer's hyperparameters, carried as raw bit patterns.

use vstd::prelude::*;

use crate::{CollectionModel, Error, ParameterCollection};
use crate::bits::{F32_ONE_BITS, F32_TENTH_BITS};

verus! {

/// The capability every optimizer variant offers.
pub trait Trainer: Sized {
    /// The learning rate one step of this trainer applies, as a raw bit
    /// pattern.
    spec fn spec_learning_rate(&self) -> u32;

    /// The learning rate a default trainer of this kind starts with.
    spec fn spec_default_learning_rate() -> u32;

    /// The scale this trainer reports for gradient clipping: less than
    /// one only where clipping is enabled and the gradient norm exceeds
    /// its threshold.
    spec fn spec_clip_scale(&self) -> u32;

    /// Creates a trainer over the given collection with the default
    /// hyperparameters.
    fn default(pc: &ParameterCollection) -> (t: Self)
        ensures
            t.spec_learning_rate() == Self::spec_default_learning_rate(),
    ;

    /// Applies one optimizer step to every parameter of the collection,
    /// using the gradients the last backward pass accumulated; the
    /// engine then clears the gradients.
    ///
    /// A step without fresh gradients is refused and changes nothing.
    fn update(&self, pc: &mut ParameterCollection) -> (r: Result<(), Error>)
        ensures
            r.is_ok() <==> old(pc)@.grads_fresh,
            r.is_ok() ==> final(pc)@ == (CollectionModel { grads_fresh: false, ..old(pc)@ }),
            !r.is_ok() ==> (r == Err::<(), Error>(Error::NoGradients) && final(pc)@ == old(pc)@),
    ;

    /// The scale the trainer would apply to the gradients before a step:
    /// one where no clipping takes place.
    fn clip_gradients(&self) -> (r: u32)
        ensures
            r == self.spec_clip_scale(),
    ;
}

/// Stochastic gradient descent: the plain optimizer, with a fixed
/// learning rate and no gradient clipping.
pub struct SimpleSGD {
    lr: u32,
}

impl SimpleSGD {
    /// Creates a stochastic-gradient-descent trainer over the given
    /// collection with the given initial learning rate (a raw bit
    /// pattern); steps are applied by handing the collection to
    /// [`Trainer::update`].
    pub fn new(pc: &ParameterCollection, lr: u32) -> (t: SimpleSGD)
        ensures
            t.spec_learning_rate() == lr,
    {
        let _ = pc;
        SimpleSGD { lr }
    }
}

impl Trainer for SimpleSGD {
    closed spec fn spec_learning_rate(&self) -> u32 {
        self.lr
    }

    open spec fn spec_default_learning_rate() -> u32 {
        F32_TENTH_BITS
    }

    open spec fn spec_clip_scale(&self) -> u32 {
        F32_ONE_BITS
    }

    fn default(pc: &ParameterCollection) -> (t: Self) {
        SimpleSGD::new(pc, F32_TENTH_BITS)
    }

    fn update(&self, pc: &mut ParameterCollection) -> (r: Result<(), Error>) {
        if pc.grads_ready() {
            pc.clear_grads();
            Ok(())
        } else {
            Err(Error::NoGradients)
        }
    }

    fn clip_gradients(&self) -> (r: u32) {
        F32_ONE_BITS
    }
}

} // verus!
