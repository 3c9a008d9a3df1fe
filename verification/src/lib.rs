//! A donation counter that runs as a contract under a message-passing host.
//!
//! The host delivers one message at a time together with a handle to the
//! contract's store. Every operation takes that handle, reads the records it
//! needs, decides, writes, and answers with a response for the host.
use crate::contract::execute::donate_ensures;
use crate::contract::execute::step;
use crate::contract::execute::withdraw_ensures;
use crate::contract::instantiate_ensures;
use crate::contract::migrate_ensures;
use crate::contract::query::value_ensures;
use crate::error::ContractError;
use crate::msg::Env;
use crate::msg::ExecuteMsg;
use crate::msg::InstantiateMsg;
use crate::msg::MessageInfo;
use crate::msg::QueryMsg;
use crate::msg::ValueResp;
use crate::store::balance;
use crate::store::stored;
use crate::store::visible;
use crate::store::Store;
use crate::store::StoreRef;
use cosmwasm_std::Empty;
use cosmwasm_std::Response;
use cosmwasm_std::StdError;
use vstd::prelude::*;

pub mod contract;
pub mod decimal;
pub mod error;
pub mod laws;
pub mod legacy;
pub mod msg;
pub mod response;
pub mod state;
pub mod store;

verus! {

/// The entry point for setting the contract up. See
/// [`contract::instantiate`].
pub fn instantiate(store: &mut Store, _env: Env, info: MessageInfo, msg: InstantiateMsg) -> (r:
    Result<Response<Empty>, StdError>)
    ensures
        instantiate_ensures(stored(*old(store)), info@, msg, r, stored(*final(store))),
{
    contract::instantiate(store, info, msg)
}

/// The entry point for bringing a store on the legacy layout up to date. The message
/// carries nothing. See [`contract::migrate`].
pub fn migrate(store: &mut Store, _env: Env, _msg: Empty) -> (r: Result<Response<Empty>, StdError>)
    ensures
        migrate_ensures(stored(*old(store)), r, stored(*final(store))),
{
    contract::migrate(store)
}

/// The entry point for transitions: carries out the one that `msg` names,
/// for the sender and with the funds that `info` gives, and for a
/// withdrawal at the contract's address that `env` gives. A failure of the
/// store or the host is passed on as it came.
pub fn execute(store: &mut Store, env: Env, info: MessageInfo, msg: ExecuteMsg) -> (r: Result<
    Response<Empty>,
    ContractError,
>)
    ensures
        match msg {
            ExecuteMsg::Donate {  } => {
                &&& donate_ensures(stored(*old(store)), info@, r, stored(*final(store)))
                &&& r matches Err(e) ==> e is Std
            },
            ExecuteMsg::Withdraw {  } => withdraw_ensures(
                stored(*old(store)),
                balance(*old(store), env.contract.address@),
                info@,
                r,
                stored(*final(store)),
            ),
        },
        step(stored(*old(store)), msg, info@, stored(*final(store))),
{
    match msg {
        ExecuteMsg::Donate {  } => match contract::execute::donate(store, info) {
            Ok(response) => Ok(response),
            Err(e) => Err(ContractError::Std(e)),
        },
        ExecuteMsg::Withdraw {  } => contract::execute::withdraw(store, info, env),
    }
}

/// The entry point for questions: answers the one that `msg` asks.
pub fn query(store: &StoreRef, _env: Env, msg: QueryMsg) -> (r: Result<ValueResp, StdError>)
    ensures
        match msg {
            QueryMsg::Value {  } => value_ensures(visible(*store), r),
        },
{
    match msg {
        QueryMsg::Value {  } => contract::query::value(store),
    }
}

} // verus!
