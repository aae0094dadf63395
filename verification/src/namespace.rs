//! Access to the chain-specific namespaces from one client value.

use vstd::prelude::*;

use crate::filter::HmyFilter;
use crate::hmy::Hmy;

verus! {

/// A client that offers the chain-specific namespaces.
pub trait HmyNamespace {
    /// The chain-specific request builders.
    fn hmy(&self) -> Hmy;

    /// The chain-specific filter request builders.
    fn hmy_filter(&self) -> HmyFilter;
}

/// The client root from which the namespaces are reached. Transport state
/// lives with the caller; the root only hands out builders.
#[derive(Debug, Clone, PartialEq, Eq)]
pub struct Web3 {}

impl Web3 {
    pub fn new() -> (r: Web3) {
        Web3 {}
    }
}

impl HmyNamespace for Web3 {
    fn hmy(&self) -> Hmy {
        Hmy::new()
    }

    fn hmy_filter(&self) -> HmyFilter {
        HmyFilter::new()
    }
}

} // verus!
