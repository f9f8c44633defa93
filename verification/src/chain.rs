use vstd::prelude::*;

use crate::error::Error;
use crate::failure::Failure;
use crate::failure::Link;
use crate::failure::lemma_view_shape;

verus! {

/// A lazy, one-directional traversal over a cause chain. It holds only the
/// current link and walks to each link's own declared source on demand. A
/// fresh traversal is obtained from [`ChainExt::chain`]; once this one is
/// exhausted it stays exhausted. No cycle detection is performed: the chain
/// is a chain of owned values, so it is finite by construction.
#[derive(Clone)]
pub struct Chain<'a> {
    current: Option<&'a Failure>,
}

impl<'a> View for Chain<'a> {
    type V = Seq<Link>;

    /// A traversal is abstracted as the links it has yet to yield.
    closed spec fn view(&self) -> Seq<Link> {
        match self.current {
            Some(f) => f@,
            None => Seq::empty(),
        }
    }
}

impl<'a> Chain<'a> {
    /// Yield the current failure and step to its declared source. Once the
    /// traversal has answered `None` it keeps answering `None`.
    pub fn next(&mut self) -> (r: Option<&'a Failure>)
        ensures
            old(self)@.len() == 0 ==> (r is None && final(self)@ == old(self)@),
            old(self)@.len() > 0 ==> (r matches Some(f) && f@ == old(self)@ && final(self)@
                == old(self)@.skip(1)),
    {
        let e = self.current;
        match self.current {
            Some(f) => {
                proof {
                    lemma_view_shape(f);
                }
                match &f.source {
                    Some(b) => {
                        self.current = Some(&**b);
                    },
                    None => {
                        self.current = None;
                    },
                }
            },
            None => {},
        }
        e
    }
}

/// Extension trait for cause chain traversal.
pub trait ChainExt {
    /// The full sequence of links a traversal of this value yields.
    spec fn chain_view(&self) -> Seq<Link>;

    /// A fresh traversal over the cause chain. Traversal is restartable:
    /// every call yields an independent sequence with the same contents.
    fn chain(&self) -> (c: Chain<'_>)
        ensures
            c@ == self.chain_view(),
    ;
}

impl ChainExt for Failure {
    /// A concrete failure's chain starts at the failure itself.
    open spec fn chain_view(&self) -> Seq<Link> {
        self@
    }

    fn chain(&self) -> (c: Chain<'_>) {
        Chain { current: Some(self) }
    }
}

impl ChainExt for Error {
    /// The error container's chain starts at the wrapped source, not at the
    /// container; the context annotation is not part of it.
    open spec fn chain_view(&self) -> Seq<Link> {
        self@.chain
    }

    fn chain(&self) -> (c: Chain<'_>) {
        Chain { current: self.chain_head() }
    }
}

} // verus!
