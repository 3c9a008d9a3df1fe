//! The contract on the legacy layout of the store: the counter and the
//! threshold each under a key of its own, where the current layout keeps
//! them together in the state record.
//!
//! A store stays on the legacy layout until it is migrated, and until then
//! the transitions of this module run it. Two of them, `Reset` and `Poke`,
//! exist on this layout only. `Reset` asks nobody who is calling: anyone can
//! set the counter back to zero. For that reason these transitions stand
//! apart from the current ones, and a host has to pick them on purpose.
use crate::contract::execute::withdraw_ensures;
use crate::error::ContractError;
use crate::legacy::contract::execute::donate_ensures;
use crate::legacy::contract::execute::poke_ensures;
use crate::legacy::contract::execute::reset_ensures;
use crate::legacy::contract::execute::step;
use crate::legacy::contract::instantiate_ensures;
use crate::legacy::contract::query::value_ensures;
use crate::legacy::msg::ExecuteMsg;
use crate::msg::Env;
use crate::msg::InstantiateMsg;
use crate::msg::MessageInfo;
use crate::msg::QueryMsg;
use crate::msg::ValueResp;
use crate::store::balance;
use crate::store::stored;
use crate::store::visible;
use crate::store::Store;
use crate::store::StoreRef;
use cosmwasm_std::Empty;
use cosmwasm_std::Response;
use cosmwasm_std::StdError;
use vstd::prelude::*;

pub mod contract;
pub mod msg;
pub mod state;

verus! {

/// The entry point for setting the contract up. See
/// [`contract::instantiate`].
pub fn instantiate(store: &mut Store, _env: Env, info: MessageInfo, msg: InstantiateMsg) -> (r:
    Result<Response<Empty>, StdError>)
    ensures
        instantiate_ensures(
            stored(*old(store)),
            info@,
            msg.counter,
            msg.minimal_donation@,
            r,
            stored(*final(store)),
        ),
{
    contract::instantiate(store, info, msg.counter, msg.minimal_donation)
}

/// The entry point for transitions: carries out the one that `msg` names,
/// for the sender and with the funds that `info` gives, and for a
/// withdrawal at the contract's address that `env` gives. A withdrawal is
/// the same on both layouts, for the owner lies under the same key in both.
/// A failure of the store or the host is passed on as it came.
pub fn execute(store: &mut Store, env: Env, info: MessageInfo, msg: ExecuteMsg) -> (r: Result<
    Response<Empty>,
    ContractError,
>)
    ensures
        match msg {
            ExecuteMsg::Donate {  } => {
                &&& donate_ensures(stored(*old(store)), info@, r, stored(*final(store)))
                &&& r matches Err(e) ==> e is Std
            },
            ExecuteMsg::Reset {  } => {
                &&& reset_ensures(stored(*old(store)), r, stored(*final(store)))
                &&& r matches Err(e) ==> e is Std
            },
            ExecuteMsg::Withdraw {  } => withdraw_ensures(
                stored(*old(store)),
                balance(*old(store), env.contract.address@),
                info@,
                r,
                stored(*final(store)),
            ),
            ExecuteMsg::Poke {  } => {
                &&& poke_ensures(stored(*old(store)), info@, r, stored(*final(store)))
                &&& r matches Err(e) ==> e is Std
            },
        },
        step(stored(*old(store)), msg, info@, stored(*final(store))),
{
    match msg {
        ExecuteMsg::Donate {  } => match contract::execute::donate(store, info) {
            Ok(response) => Ok(response),
            Err(e) => Err(ContractError::Std(e)),
        },
        ExecuteMsg::Reset {  } => match contract::execute::reset(store) {
            Ok(response) => Ok(response),
            Err(e) => Err(ContractError::Std(e)),
        },
        ExecuteMsg::Withdraw {  } => contract::execute::withdraw(store, info, env),
        ExecuteMsg::Poke {  } => match contract::execute::poke(store, info) {
            Ok(response) => Ok(response),
            Err(e) => Err(ContractError::Std(e)),
        },
    }
}

/// The entry point for questions: answers the one that `msg` asks.
pub fn query(store: &StoreRef, _env: Env, msg: QueryMsg) -> (r: Result<ValueResp, StdError>)
    ensures
        match msg {
            QueryMsg::Value {  } => value_ensures(visible(*store), r),
        },
{
    match msg {
        QueryMsg::Value {  } => contract::query::value(store),
    }
}

} // verus!
