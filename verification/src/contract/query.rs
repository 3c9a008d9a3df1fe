//! Reading the contract without changing it.
use crate::msg::ValueResp;
use crate::state::held_state;
use crate::state::load_state;
use crate::store::visible;
use crate::store::Records;
use crate::store::StoreRef;
use cosmwasm_std::StdError;
use vstd::prelude::*;

verus! {

/// The counter that a query for the value reads from `records`, if they
/// hold a state record that can be read.
pub open spec fn value_in(records: Records) -> Option<u64> {
    match held_state(records) {
        Some(state) => Some(state.counter),
        None => None,
    }
}

/// What a query for the value owes its caller: the counter where the state
/// record can be read, and a failure where it cannot.
pub open spec fn value_ensures(records: Records, r: Result<ValueResp, StdError>) -> bool {
    match r {
        Ok(resp) => value_in(records) == Some(resp.value),
        Err(_) => value_in(records) is None,
    }
}

/// The counter as it stands. It fails only where the store holds no state
/// record that can be read.
pub fn value(store: &StoreRef) -> (r: Result<ValueResp, StdError>)
    ensures
        value_ensures(visible(*store), r),
{
    let value: u64 = load_state(store)?.counter;
    Ok(ValueResp { value })
}

} // verus!
