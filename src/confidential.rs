//! Values under an encryption context. A `Confidential<C, T>` is only ever
//! read by the joint computation, through `open`, and results leave it
//! through `seal`. The context is a marker type, so an operation's signature
//! fixes which context each argument and result is in.
use vstd::prelude::*;
use std::marker::PhantomData;

verus! {

/// Part of the persistent confidential state: no single party can read it.
#[derive(Clone, Copy, Debug)]
pub struct ClusterHeld;

/// Encrypted by one caller to the cluster's collective identity, or for that
/// caller by the cluster.
#[derive(Clone, Copy, Debug)]
pub struct CallerShared;

/// A value of type `T` held under the context `C`.
#[derive(Debug)]
pub struct Confidential<C, T> {
    pub value: T,
    pub context: PhantomData<C>,
}

impl<C, T> View for Confidential<C, T> {
    type V = T;

    open spec fn view(&self) -> T {
        self.value
    }
}

impl<C, T> Confidential<C, T> {
    /// Places `value` under the context `C`.
    pub fn seal(value: T) -> (r: Self)
        ensures
            r@ == value,
    {
        Confidential { value, context: PhantomData }
    }

    /// Hands the value to the joint computation.
    pub fn open(self) -> (r: T)
        ensures
            r == self@,
    {
        self.value
    }
}

} // verus!
