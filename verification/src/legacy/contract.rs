//! Setting the contract up on the legacy layout.
use crate::legacy::state::held_counter;
use crate::legacy::state::held_threshold;
use crate::legacy::state::keys_differ;
use crate::legacy::state::save_counter;
use crate::legacy::state::save_minimal_donation;
use crate::legacy::state::COUNTER;
use crate::legacy::state::MINIMAL_DONATION;
use crate::msg::Coin;
use crate::msg::CoinView;
use crate::msg::MessageInfo;
use crate::msg::MessageInfoView;
use crate::response::attributes;
use crate::response::messages;
use crate::response::silent;
use crate::response::Attributes;
use crate::response::Messages;
use crate::state::held_owner;
use crate::state::save_owner;
use crate::state::OWNER;
use crate::store::stored;
use crate::store::Records;
use crate::store::Store;
use cosmwasm_std::Empty;
use cosmwasm_std::Response;
use cosmwasm_std::StdError;
use vstd::prelude::*;

pub mod execute;
pub mod query;

verus! {

/// `after` is `before` with `counter`, `threshold` and `owner` each under
/// its key, and every other record as it was.
pub open spec fn instantiated(
    before: Records,
    counter: u64,
    threshold: CoinView,
    owner: Seq<char>,
    after: Records,
) -> bool {
    &&& after == before.insert(COUNTER@, after[COUNTER@]).insert(
        MINIMAL_DONATION@,
        after[MINIMAL_DONATION@],
    ).insert(OWNER@, after[OWNER@])
    &&& held_counter(after) == Some(counter)
    &&& held_threshold(after) == Some(threshold)
    &&& held_owner(after) == Some(owner)
}

/// What an instantiation owes its caller: success, the store as
/// [`instantiated`] says, and an answer that reports nothing and asks
/// nothing of the host.
pub open spec fn instantiate_ensures(
    before: Records,
    info: MessageInfoView,
    counter: u64,
    minimal_donation: CoinView,
    r: Result<Response<Empty>, StdError>,
    after: Records,
) -> bool {
    &&& r matches Ok(response)
    &&& instantiated(before, counter, minimal_donation, info.sender, after)
    &&& attributes(response) == Attributes::empty()
    &&& messages(response) == Messages::empty()
}

/// Sets the contract up: the counter starts at `counter`, the threshold is
/// `minimal_donation`, and the sender becomes the owner. It reads nothing
/// and its writes cannot fail, so it always succeeds, whatever the store
/// held.
pub fn instantiate(store: &mut Store, info: MessageInfo, counter: u64, minimal_donation: Coin) -> (r:
    Result<Response<Empty>, StdError>)
    ensures
        instantiate_ensures(
            stored(*old(store)),
            info@,
            counter,
            minimal_donation@,
            r,
            stored(*final(store)),
        ),
{
    proof {
        keys_differ();
    }
    save_counter(store, counter)?;
    save_minimal_donation(store, &minimal_donation)?;
    save_owner(store, info.sender.as_str())?;
    Ok(silent())
}

} // verus!
