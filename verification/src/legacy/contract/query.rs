//! Reading a store on the legacy layout without changing it.
use crate::legacy::state::held_counter;
use crate::legacy::state::load_counter;
use crate::msg::ValueResp;
use crate::store::visible;
use crate::store::Records;
use crate::store::StoreRef;
use cosmwasm_std::StdError;
use vstd::prelude::*;

verus! {

/// What a query for the value owes its caller: the counter where it can
/// be read, and a failure where it cannot.
pub open spec fn value_ensures(records: Records, r: Result<ValueResp, StdError>) -> bool {
    match r {
        Ok(resp) => held_counter(records) == Some(resp.value),
        Err(_) => held_counter(records) is None,
    }
}

/// The counter as it stands. It fails only where the store holds no counter
/// that can be read.
pub fn value(store: &StoreRef) -> (r: Result<ValueResp, StdError>)
    ensures
        value_ensures(visible(*store), r),
{
    let value: u64 = load_counter(store)?;
    Ok(ValueResp { value })
}

} // verus!
