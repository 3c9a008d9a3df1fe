//! The messages of the contract on the legacy layout.
use vstd::prelude::*;

verus! {

/// The transitions a caller can ask for.
#[derive(Clone, Debug, PartialEq)]
pub enum ExecuteMsg {
    Donate {},
    Reset {},
    Withdraw {},
    Poke {},
}

} // verus!
