//! The state record and the owner, and where the store keeps them.
//!
//! The state record lies under one key, as the pair of its counter and its
//! threshold; the owner lies under another, as text.
use crate::msg::accepts;
use crate::msg::coins;
use crate::msg::qualifies;
use crate::msg::Coin;
use crate::msg::CoinView;
use crate::store::held_pair;
use crate::store::held_text;
use crate::store::load_pair;
use crate::store::load_text;
use crate::store::rewritten;
use crate::store::save_pair;
use crate::store::save_text;
use crate::store::stored;
use crate::store::visible;
use crate::store::Records;
use crate::store::Store;
use crate::store::StoreRef;
use cosmwasm_std::StdError;
use vstd::prelude::*;

verus! {

/// The key of the state record.
pub const STATE: &'static str = "state";

/// The key of the owner.
pub const OWNER: &'static str = "owner";

/// The two keys under which the contract keeps its records differ.
pub proof fn keys_differ()
    ensures
        STATE@ != OWNER@,
{
    reveal_strlit("state");
    reveal_strlit("owner");
    assert(STATE@[0] == 's');
    assert(OWNER@[0] == 'o');
}

/// The contract's one record: how many donations counted, and what a
/// donation must pay to count.
#[derive(Clone, Debug, PartialEq, Eq)]
pub struct State {
    pub counter: u64,
    pub minimal_donation: Coin,
}

/// The state record as contracts speak of it.
pub struct StateView {
    pub counter: u64,
    pub minimal_donation: CoinView,
}

impl View for State {
    type V = StateView;

    open spec fn view(&self) -> StateView {
        StateView { counter: self.counter, minimal_donation: self.minimal_donation@ }
    }
}

impl StateView {
    /// The record after a donation of `funds`: one more on the counter where
    /// some entry pays the threshold, and the same record where none does. A
    /// counter that cannot hold one more stays as it is.
    pub open spec fn donated(self, funds: Seq<CoinView>) -> StateView {
        if accepts(self.minimal_donation, funds) && self.counter < u64::MAX {
            StateView {
                counter: (self.counter + 1) as u64,
                minimal_donation: self.minimal_donation,
            }
        } else {
            self
        }
    }
}

impl State {
    /// Counts a donation of `funds`.
    pub fn donated(self, funds: &Vec<Coin>) -> (next: State)
        ensures
            next@ == self@.donated(coins(funds@)),
    {
        if self.counter < u64::MAX && qualifies(funds, &self.minimal_donation) {
            State { counter: self.counter + 1, minimal_donation: self.minimal_donation }
        } else {
            self
        }
    }
}

/// The state record that `records` hold, if one is there and can be read.
pub open spec fn held_state(records: Records) -> Option<StateView> {
    match held_pair(records, STATE@) {
        Some(p) => Some(StateView { counter: p.0, minimal_donation: p.1 }),
        None => None,
    }
}

/// The owner that `records` hold, if one is there and can be read.
pub open spec fn held_owner(records: Records) -> Option<Seq<char>> {
    held_text(records, OWNER@)
}

/// Reads the state record.
pub fn load_state(store: &StoreRef) -> (r: Result<State, StdError>)
    ensures
        match r {
            Ok(state) => held_state(visible(*store)) == Some(state@),
            Err(_) => held_state(visible(*store)) is None,
        },
{
    match load_pair(store, STATE) {
        Ok((counter, minimal_donation)) => Ok(State { counter, minimal_donation }),
        Err(e) => Err(e),
    }
}

/// Writes the state record, which cannot fail: afterwards the store holds
/// `state` as its state record, and every other record is as it was.
pub fn save_state(store: &mut Store, state: &State) -> (r: Result<(), StdError>)
    ensures
        r is Ok,
        rewritten(stored(*old(store)), STATE@, stored(*final(store))),
        held_state(stored(*final(store))) == Some(state@),
{
    save_pair(store, STATE, state.counter, &state.minimal_donation)
}

/// Reads the owner.
pub fn load_owner(store: &StoreRef) -> (r: Result<String, StdError>)
    ensures
        match r {
            Ok(owner) => held_owner(visible(*store)) == Some(owner@),
            Err(_) => held_owner(visible(*store)) is None,
        },
{
    load_text(store, OWNER)
}

/// Writes the owner, which cannot fail: afterwards the store holds `owner`
/// as its owner, and every other record is as it was.
pub fn save_owner(store: &mut Store, owner: &str) -> (r: Result<(), StdError>)
    ensures
        r is Ok,
        rewritten(stored(*old(store)), OWNER@, stored(*final(store))),
        held_owner(stored(*final(store))) == Some(owner@),
{
    save_text(store, OWNER, owner)
}

} // verus!
