//! The transitions of the contract.
use crate::error::authorized;
use crate::error::require_owner;
use crate::error::ContractError;
use crate::msg::Env;
use crate::msg::ExecuteMsg;
use crate::msg::MessageInfo;
use crate::msg::MessageInfoView;
use crate::response::attributes;
use crate::response::donate_attributes;
use crate::response::donation;
use crate::response::messages;
use crate::response::withdraw_attributes;
use crate::response::withdrawal;
use crate::response::Messages;
use crate::state::held_owner;
use crate::state::held_state;
use crate::state::load_owner;
use crate::state::load_state;
use crate::state::save_state;
use crate::state::STATE;
use crate::store::all_balances;
use crate::store::balance;
use crate::store::reading;
use crate::store::rewritten;
use crate::store::stored;
use crate::store::Records;
use crate::store::Store;
use cosmwasm_std::Empty;
use cosmwasm_std::Response;
use cosmwasm_std::StdError;
use vstd::prelude::*;

verus! {

/// What a donation does to the store: where the state record can be read
/// and the donation counts, the record is written anew with one more on its
/// counter; in every other case nothing is written.
pub open spec fn donated(before: Records, info: MessageInfoView, after: Records) -> bool {
    match held_state(before) {
        Some(state) if state.donated(info.funds) != state => {
            &&& rewritten(before, STATE@, after)
            &&& held_state(after) == Some(state.donated(info.funds))
        },
        _ => after == before,
    }
}

/// What a donation owes its caller, in its answer `r` and in the store it
/// leaves.
///
/// Where the state record can be read, it succeeds, whether the donation
/// counts or not: the store is as [`donated`] says, and the answer reports
/// the donation, the sender and the counter as it stands afterwards, and
/// asks nothing of the host. Where the state record cannot be read, it
/// fails and the store is as it was.
pub open spec fn donate_ensures<E>(
    before: Records,
    info: MessageInfoView,
    r: Result<Response<Empty>, E>,
    after: Records,
) -> bool {
    match held_state(before) {
        Some(state) => {
            &&& r matches Ok(response)
            &&& donated(before, info, after)
            &&& attributes(response) == donate_attributes(
                info.sender,
                state.donated(info.funds).counter,
            )
            &&& messages(response) == Messages::empty()
        },
        None => r is Err && after == before,
    }
}

/// Takes a donation. The counter goes up by one where some single entry of
/// the attached funds pays the threshold; entries are not added up. The
/// answer reports the counter as it stands afterwards.
///
/// The call fails exactly where the state record cannot be read, and the
/// store is then as it was. A donation that does not count writes nothing.
pub fn donate(store: &mut Store, info: MessageInfo) -> (r: Result<Response<Empty>, StdError>)
    ensures
        donate_ensures(stored(*old(store)), info@, r, stored(*final(store))),
{
    let state = load_state(&reading(store))?;
    let before: u64 = state.counter;
    let next = state.donated(&info.funds);
    if next.counter != before {
        save_state(store, &next)?;
    }
    Ok(donation(info.sender.as_str(), next.counter))
}

/// What a withdrawal owes its caller, in its answer `r` and in the store it
/// leaves, which is the store it found.
///
/// `report` is what the host's bank reports for the contract's own address.
///
/// Where no owner can be read, it fails with the store's failure. Anyone but
/// the owner is refused, with the owner's name. For the owner it goes by
/// the bank's report: where that fails, the call fails with the host's
/// failure; where the bank reports coins, the call succeeds, its answer
/// reports the withdrawal and holds one message, which asks the bank to
/// send those coins, all of them and no others, to the owner.
pub open spec fn withdraw_ensures(
    before: Records,
    report: Option<Seq<(Seq<char>, u128)>>,
    info: MessageInfoView,
    r: Result<Response<Empty>, ContractError>,
    after: Records,
) -> bool {
    &&& after == before
    &&& match held_owner(before) {
        None => r matches Err(ContractError::Std(_)),
        Some(owner) => if authorized(info.sender, owner) {
            match report {
                Some(held) => {
                    &&& r matches Ok(response)
                    &&& attributes(response) == withdraw_attributes(info.sender)
                    &&& messages(response) == seq![Some((info.sender, held))]
                },
                None => r matches Err(ContractError::Std(_)),
            }
        } else {
            r matches Err(ContractError::Unauthorized { owner: named }) && named@ == owner
        },
    }
}

/// Hands the contract's whole balance to the owner. Only the owner may ask:
/// anyone else is refused with the owner's name, before the host is asked
/// anything. The store is never written.
///
/// For the owner, the host's bank is asked what it holds for the contract's
/// own address, the one that `env` gives: not for the caller's, and whatever
/// funds came with the message. The answer, which [`withdrawal`] puts
/// together, asks the host to send all of that to the owner. The call fails
/// exactly where the bank's report does.
pub fn withdraw(store: &mut Store, info: MessageInfo, env: Env) -> (r: Result<
    Response<Empty>,
    ContractError,
>)
    ensures
        withdraw_ensures(
            stored(*old(store)),
            balance(*old(store), env.contract.address@),
            info@,
            r,
            stored(*final(store)),
        ),
{
    let owner = match load_owner(&reading(store)) {
        Ok(owner) => owner,
        Err(e) => {
            return Err(ContractError::Std(e));
        },
    };
    match require_owner(&info.sender, owner) {
        Ok(_) => {},
        Err(e) => {
            return Err(e);
        },
    }
    let balance = match all_balances(&reading(store), env.contract.address.as_str()) {
        Ok(balance) => balance,
        Err(e) => {
            return Err(ContractError::Std(e));
        },
    };
    Ok(withdrawal(info.sender.as_str(), &balance))
}

/// The stores that carrying out `msg` can leave behind. A call that fails
/// leaves the store as it was, and so does a withdrawal.
pub open spec fn step(before: Records, msg: ExecuteMsg, info: MessageInfoView, after: Records) -> bool {
    ||| after == before
    ||| msg is Donate && donated(before, info, after)
}

} // verus!
