//! Values that the command line hands to the node.
use vstd::prelude::*;

verus! {

/// Which offers a command line query asks for.
#[derive(Clone, Copy, Debug, PartialEq, Eq, Structural)]
pub enum OfferSelector {
    Open,
    InProgress,
    Ended,
    All,
}

} // verus!
