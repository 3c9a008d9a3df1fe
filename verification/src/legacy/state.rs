//! Where the legacy layout keeps the counter and the threshold.
use crate::msg::Coin;
use crate::msg::CoinView;
use crate::state::StateView;
use crate::state::OWNER;
use crate::state::STATE;
use crate::store::held_coin;
use crate::store::held_number;
use crate::store::load_coin;
use crate::store::load_number;
use crate::store::rewritten;
use crate::store::save_coin;
use crate::store::save_number;
use crate::store::stored;
use crate::store::visible;
use crate::store::Records;
use crate::store::Store;
use crate::store::StoreRef;
use cosmwasm_std::StdError;
use vstd::prelude::*;

verus! {

/// The key of the counter.
pub const COUNTER: &'static str = "counter";

/// The key of the threshold.
pub const MINIMAL_DONATION: &'static str = "minimal_donation";

/// No two of the keys that either layout uses are the same.
pub proof fn keys_differ()
    ensures
        COUNTER@ != MINIMAL_DONATION@,
        COUNTER@ != OWNER@,
        COUNTER@ != STATE@,
        MINIMAL_DONATION@ != OWNER@,
        MINIMAL_DONATION@ != STATE@,
        STATE@ != OWNER@,
{
    reveal_strlit("counter");
    reveal_strlit("minimal_donation");
    reveal_strlit("owner");
    reveal_strlit("state");
    assert(COUNTER@.len() == 7);
    assert(MINIMAL_DONATION@.len() == 16);
    assert(OWNER@.len() == 5);
    assert(STATE@[0] == 's');
    assert(OWNER@[0] == 'o');
}

/// The counter that `records` hold, if one is there and can be read.
pub open spec fn held_counter(records: Records) -> Option<u64> {
    held_number(records, COUNTER@)
}

/// The threshold that `records` hold, if one is there and can be read.
pub open spec fn held_threshold(records: Records) -> Option<CoinView> {
    held_coin(records, MINIMAL_DONATION@)
}

/// The counter and the threshold that `records` hold, put together as the
/// state record they stand for, if both are there and can be read.
pub open spec fn held(records: Records) -> Option<StateView> {
    match (held_counter(records), held_threshold(records)) {
        (Some(counter), Some(minimal_donation)) => Some(StateView { counter, minimal_donation }),
        _ => None,
    }
}

/// Reads the counter.
pub fn load_counter(store: &StoreRef) -> (r: Result<u64, StdError>)
    ensures
        match r {
            Ok(counter) => held_counter(visible(*store)) == Some(counter),
            Err(_) => held_counter(visible(*store)) is None,
        },
{
    load_number(store, COUNTER)
}

/// Writes the counter, which cannot fail: afterwards the store holds
/// `counter` as its counter, and every other record is as it was.
pub fn save_counter(store: &mut Store, counter: u64) -> (r: Result<(), StdError>)
    ensures
        r is Ok,
        rewritten(stored(*old(store)), COUNTER@, stored(*final(store))),
        held_counter(stored(*final(store))) == Some(counter),
{
    save_number(store, COUNTER, counter)
}

/// Reads the threshold.
pub fn load_minimal_donation(store: &StoreRef) -> (r: Result<Coin, StdError>)
    ensures
        match r {
            Ok(threshold) => held_threshold(visible(*store)) == Some(threshold@),
            Err(_) => held_threshold(visible(*store)) is None,
        },
{
    load_coin(store, MINIMAL_DONATION)
}

/// Writes the threshold, which cannot fail: afterwards the store holds
/// `threshold` as its threshold, and every other record is as it was.
pub fn save_minimal_donation(store: &mut Store, threshold: &Coin) -> (r: Result<(), StdError>)
    ensures
        r is Ok,
        rewritten(stored(*old(store)), MINIMAL_DONATION@, stored(*final(store))),
        held_threshold(stored(*final(store))) == Some(threshold@),
{
    save_coin(store, MINIMAL_DONATION, threshold)
}

} // verus!
