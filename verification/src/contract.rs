//! Setting the contract up, and bringing a store on the legacy layout up
//! to date.
use crate::legacy::state::held;
use crate::legacy::state::load_counter;
use crate::legacy::state::load_minimal_donation;
use crate::msg::InstantiateMsg;
use crate::msg::MessageInfo;
use crate::msg::MessageInfoView;
use crate::response::attributes;
use crate::response::messages;
use crate::response::silent;
use crate::response::Attributes;
use crate::response::Messages;
use crate::state::held_owner;
use crate::state::held_state;
use crate::state::keys_differ;
use crate::state::save_owner;
use crate::state::save_state;
use crate::state::State;
use crate::state::StateView;
use crate::state::OWNER;
use crate::state::STATE;
use crate::store::reading;
use crate::store::rewritten;
use crate::store::stored;
use crate::store::Records;
use crate::store::Store;
use cosmwasm_std::Empty;
use cosmwasm_std::Response;
use cosmwasm_std::StdError;
use vstd::prelude::*;

pub mod execute;
pub mod query;

verus! {

/// The state record that an instantiation with `msg` writes.
pub open spec fn initial(msg: InstantiateMsg) -> StateView {
    StateView { counter: msg.counter, minimal_donation: msg.minimal_donation@ }
}

/// `after` is `before` with `state` as its state record and `owner` as its
/// owner, and every other record as it was.
pub open spec fn instantiated(
    before: Records,
    state: StateView,
    owner: Seq<char>,
    after: Records,
) -> bool {
    &&& after == before.insert(STATE@, after[STATE@]).insert(OWNER@, after[OWNER@])
    &&& held_state(after) == Some(state)
    &&& held_owner(after) == Some(owner)
}

/// What an instantiation owes its caller: success, the store as
/// [`instantiated`] says, and an answer that reports nothing and asks
/// nothing of the host.
pub open spec fn instantiate_ensures(
    before: Records,
    info: MessageInfoView,
    msg: InstantiateMsg,
    r: Result<Response<Empty>, StdError>,
    after: Records,
) -> bool {
    &&& r matches Ok(response)
    &&& instantiated(before, initial(msg), info.sender, after)
    &&& attributes(response) == Attributes::empty()
    &&& messages(response) == Messages::empty()
}

/// Sets the contract up: the counter starts at the number that `msg` gives,
/// the threshold is the one that `msg` gives, and the sender becomes the
/// owner. It reads nothing and its writes cannot fail, so it always
/// succeeds, whatever the store held.
pub fn instantiate(store: &mut Store, info: MessageInfo, msg: InstantiateMsg) -> (r: Result<
    Response<Empty>,
    StdError,
>)
    ensures
        instantiate_ensures(stored(*old(store)), info@, msg, r, stored(*final(store))),
{
    let state = State { counter: msg.counter, minimal_donation: msg.minimal_donation };
    save_state(store, &state)?;
    proof {
        keys_differ();
    }
    save_owner(store, info.sender.as_str())?;
    Ok(silent())
}

/// What a migration does to the store: the counter and the threshold of
/// the legacy layout, which stay where they are, are written together as
/// the state record.
pub open spec fn migrated(before: Records, after: Records) -> bool {
    &&& held(before) matches Some(state)
    &&& rewritten(before, STATE@, after)
    &&& held_state(after) == Some(state)
}

/// What a migration owes its caller. Where the counter and the threshold
/// of the legacy layout can both be read, it succeeds: the store is as
/// [`migrated`] says, and the answer reports nothing and asks nothing of
/// the host. Where one of them cannot be read, it fails and the store is as
/// it was.
pub open spec fn migrate_ensures(
    before: Records,
    r: Result<Response<Empty>, StdError>,
    after: Records,
) -> bool {
    match held(before) {
        Some(_) => {
            &&& r matches Ok(response)
            &&& migrated(before, after)
            &&& attributes(response) == Attributes::empty()
            &&& messages(response) == Messages::empty()
        },
        None => r is Err && after == before,
    }
}

/// Brings a store on the legacy layout up to date: reads the counter and
/// the threshold from where that layout keeps them and writes them as the
/// state record. The owner is not touched, and neither are the records that
/// were read, so a second migration would write the old values again: the
/// host is relied on to migrate once.
///
/// The call fails exactly where the counter or the threshold cannot be
/// read, and the store is then as it was.
pub fn migrate(store: &mut Store) -> (r: Result<Response<Empty>, StdError>)
    ensures
        migrate_ensures(stored(*old(store)), r, stored(*final(store))),
{
    let counter: u64 = load_counter(&reading(store))?;
    let minimal_donation = load_minimal_donation(&reading(store))?;
    save_state(store, &State { counter, minimal_donation })?;
    Ok(silent())
}

} // verus!
