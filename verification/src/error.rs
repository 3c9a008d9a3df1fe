//! How a transition can fail.
use cosmwasm_std::StdError;
use vstd::prelude::*;

verus! {

/// The failures of a transition.
#[derive(Debug, PartialEq)]
pub enum ContractError {
    /// The store or the host reported a failure, which is passed on.
    Std(StdError),
    /// The caller asked for what only the owner may do.
    Unauthorized { owner: String },
}

/// The caller may do what only the owner may: the two are the same.
pub open spec fn authorized(caller: Seq<char>, owner: Seq<char>) -> bool {
    caller == owner
}

/// Lets the owner pass and stops everyone else, naming the owner.
pub fn require_owner(caller: &String, owner: String) -> (r: Result<(), ContractError>)
    ensures
        match r {
            Ok(_) => authorized(caller@, owner@),
            Err(ContractError::Unauthorized { owner: named }) => !authorized(caller@, owner@)
                && named@ == owner@,
            Err(ContractError::Std(_)) => false,
        },
{
    if *caller == owner {
        Ok(())
    } else {
        Err(ContractError::Unauthorized { owner })
    }
}

} // verus!
