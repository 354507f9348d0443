//! Adapters from concrete mesh model implementations.
use vstd::prelude::*;
use core::marker::PhantomData;

verus! {

/// A mesh model message wrapping a concrete message.
pub struct ModelMessage<M> {
    /// The concrete message.
    pub m: M,
}

/// Converting a concrete model to a mesh model of the library.
#[derive(Debug)]
pub struct FromDrogue<M> {
    _m: PhantomData<M>,
}

impl<M> FromDrogue<M> {
    /// A new model adapter; the model value itself is not kept.
    pub fn new(_m: M) -> (r: Self) {
        Self { _m: PhantomData }
    }
}

} // verus!
