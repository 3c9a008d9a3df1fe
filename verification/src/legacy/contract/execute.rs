//! The transitions on the legacy layout.
use crate::legacy::state::held;
use crate::legacy::state::held_counter;
use crate::legacy::state::load_counter;
use crate::legacy::state::load_minimal_donation;
use crate::legacy::state::save_counter;
pub use crate::contract::execute::withdraw;
use crate::legacy::msg::ExecuteMsg;
use crate::legacy::state::COUNTER;
use crate::msg::MessageInfo;
use crate::msg::MessageInfoView;
use crate::response::attributes;
use crate::response::donate_attributes;
use crate::response::donation;
use crate::response::messages;
use crate::response::poke_attributes;
use crate::response::poked;
use crate::response::reset_attributes;
use crate::response::reset_done;
use crate::response::Messages;
use crate::state::State;
use crate::store::reading;
use crate::store::rewritten;
use crate::store::stored;
use crate::store::Records;
use crate::store::Store;
use cosmwasm_std::Empty;
use cosmwasm_std::Response;
use cosmwasm_std::StdError;
use vstd::prelude::*;

verus! {

/// What a donation does to the store: where the counter and the threshold
/// can be read and the donation counts, the counter is written anew with
/// one more on it; in every other case nothing is written.
pub open spec fn donated(before: Records, info: MessageInfoView, after: Records) -> bool {
    match held(before) {
        Some(state) if state.donated(info.funds) != state => {
            &&& rewritten(before, COUNTER@, after)
            &&& held_counter(after) == Some(state.donated(info.funds).counter)
        },
        _ => after == before,
    }
}

/// What a donation owes its caller, in its answer `r` and in the store it
/// leaves.
///
/// Where the counter and the threshold can both be read, it succeeds,
/// whether the donation counts or not: the store is as [`donated`] says,
/// and the answer reports the donation, the sender and the counter as it
/// stands afterwards, and asks nothing of the host. Where one of them
/// cannot be read, it fails and the store is as it was.
pub open spec fn donate_ensures<E>(
    before: Records,
    info: MessageInfoView,
    r: Result<Response<Empty>, E>,
    after: Records,
) -> bool {
    match held(before) {
        Some(state) => {
            &&& r matches Ok(response)
            &&& donated(before, info, after)
            &&& attributes(response) == donate_attributes(
                info.sender,
                state.donated(info.funds).counter,
            )
            &&& messages(response) == Messages::empty()
        },
        None => r is Err && after == before,
    }
}

/// Takes a donation. The counter goes up by one where some single entry of
/// the attached funds pays the threshold; entries are not added up. The
/// answer reports the counter as it stands afterwards.
///
/// The call fails exactly where the counter or the threshold cannot be
/// read, and the store is then as it was. A donation that does not count
/// writes nothing.
pub fn donate(store: &mut Store, info: MessageInfo) -> (r: Result<Response<Empty>, StdError>)
    ensures
        donate_ensures(stored(*old(store)), info@, r, stored(*final(store))),
{
    let counter: u64 = load_counter(&reading(store))?;
    let minimal_donation = load_minimal_donation(&reading(store))?;
    let next = State { counter, minimal_donation }.donated(&info.funds);
    if next.counter != counter {
        save_counter(store, next.counter)?;
    }
    Ok(donation(info.sender.as_str(), next.counter))
}

/// What a reset does to the store: the counter is written as zero.
pub open spec fn reset_to_zero(before: Records, after: Records) -> bool {
    &&& rewritten(before, COUNTER@, after)
    &&& held_counter(after) == Some(0u64)
}

/// What a reset owes its caller: success, the store as [`reset_to_zero`]
/// says, and an answer that reports the reset and asks nothing of the host.
pub open spec fn reset_ensures<E>(before: Records, r: Result<Response<Empty>, E>, after: Records) -> bool {
    &&& r matches Ok(response)
    &&& reset_to_zero(before, after)
    &&& attributes(response) == reset_attributes()
    &&& messages(response) == Messages::empty()
}

/// Sets the counter back to zero, whoever asks and whatever it held, even
/// where the store held no counter. It reads nothing and its write cannot
/// fail, so it always succeeds.
pub fn reset(store: &mut Store) -> (r: Result<Response<Empty>, StdError>)
    ensures
        reset_ensures(stored(*old(store)), r, stored(*final(store))),
{
    save_counter(store, 0)?;
    Ok(reset_done())
}

/// The counter after a poke: one more, or the same where it cannot hold
/// one more.
pub open spec fn one_more(counter: u64) -> u64 {
    if counter < u64::MAX {
        (counter + 1) as u64
    } else {
        counter
    }
}

/// What a poke does to the store: the counter is written anew with one more
/// on it.
pub open spec fn poked_once(before: Records, after: Records) -> bool {
    &&& held_counter(before) matches Some(counter)
    &&& rewritten(before, COUNTER@, after)
    &&& held_counter(after) == Some(one_more(counter))
}

/// What a poke owes its caller. Where the counter can be read, it
/// succeeds: the store is as [`poked_once`] says, and the answer reports
/// the poke, the sender and the counter as it stands afterwards, and asks
/// nothing of the host. Where the counter cannot be read, it fails and the
/// store is as it was.
pub open spec fn poke_ensures<E>(
    before: Records,
    info: MessageInfoView,
    r: Result<Response<Empty>, E>,
    after: Records,
) -> bool {
    match held_counter(before) {
        Some(counter) => {
            &&& r matches Ok(response)
            &&& poked_once(before, after)
            &&& attributes(response) == poke_attributes(info.sender, one_more(counter))
            &&& messages(response) == Messages::empty()
        },
        None => r is Err && after == before,
    }
}

/// Puts one more on the counter, whoever asks and whatever funds came with
/// the message. The answer reports the counter as it stands afterwards.
///
/// The call fails exactly where the counter cannot be read, and the store
/// is then as it was.
pub fn poke(store: &mut Store, info: MessageInfo) -> (r: Result<Response<Empty>, StdError>)
    ensures
        poke_ensures(stored(*old(store)), info@, r, stored(*final(store))),
{
    let counter: u64 = load_counter(&reading(store))?;
    let next: u64 = if counter < u64::MAX {
        counter + 1
    } else {
        counter
    };
    save_counter(store, next)?;
    Ok(poked(info.sender.as_str(), next))
}

/// The stores that carrying out `msg` can leave behind. A call that fails
/// leaves the store as it was, and so does a withdrawal.
pub open spec fn step(before: Records, msg: ExecuteMsg, info: MessageInfoView, after: Records) -> bool {
    ||| after == before
    ||| msg is Donate && donated(before, info, after)
    ||| msg is Reset && reset_to_zero(before, after)
    ||| msg is Poke && poked_once(before, after)
}

} // verus!
