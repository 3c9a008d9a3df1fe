//! What holds of the contract across calls.
//!
//! Each law is stated over the records of the store before and after a
//! call, with the relations that the transitions' own contracts establish.
use crate::contract::execute::donate_ensures;
use crate::contract::execute::donated;
use crate::contract::execute::withdraw_ensures;
use crate::contract::initial;
use crate::contract::instantiated;
use crate::contract::migrated;
use crate::contract::query::value_in;
use crate::error::ContractError;
use crate::legacy::state::held;
use crate::legacy::state::held_counter;
use crate::legacy::state::keys_differ;
use crate::msg::accepts;
use crate::msg::CoinView;
use crate::msg::ExecuteMsg;
use crate::msg::InstantiateMsg;
use crate::msg::MessageInfoView;
use crate::response::attributes;
use crate::response::messages;
use crate::state::held_owner;
use crate::state::held_state;
use crate::state::StateView;
use crate::state::STATE;
use crate::store::Records;
use cosmwasm_std::Empty;
use cosmwasm_std::Response;
use cosmwasm_std::StdError;
use vstd::prelude::*;

verus! {

/// A donation counts exactly where some single entry of the funds is of the
/// threshold's denomination and no smaller than the threshold: then the
/// counter goes up by one, and otherwise it stays. The threshold stays in
/// both cases. (A counter that cannot hold one more is left out: it stays
/// too.)
pub proof fn donation_counts_iff_an_entry_pays(state: StateView, funds: Seq<CoinView>)
    requires
        state.counter < u64::MAX,
    ensures
        state.donated(funds).minimal_donation == state.minimal_donation,
        state.donated(funds).counter == state.counter + 1 <==> exists|i: int|
            #![trigger funds[i]]
            0 <= i < funds.len() && funds[i].denom == state.minimal_donation.denom
                && funds[i].amount >= state.minimal_donation.amount,
        state.donated(funds).counter != state.counter + 1 ==> state.donated(funds) == state,
{
    if accepts(state.minimal_donation, funds) {
        let i = choose|i: int| 0 <= i < funds.len() && #[trigger] funds[i].meets(
            state.minimal_donation,
        );
        assert(funds[i].denom == state.minimal_donation.denom);
    } else {
        assert forall|i: int| 0 <= i < funds.len() implies !(funds[i].denom
            == state.minimal_donation.denom && funds[i].amount
            >= state.minimal_donation.amount) by {
            assert(!funds[i].meets(state.minimal_donation));
        }
    }
}

/// After a donation that succeeded, a query for the value gives one more
/// than before where some single entry of the funds pays the threshold, and
/// the same as before where none does.
pub proof fn donate_moves_the_value_by_a_paying_entry(
    before: Records,
    info: MessageInfoView,
    after: Records,
)
    requires
        held_state(before) matches Some(state) && state.counter < u64::MAX,
        donated(before, info, after),
    ensures
        held_state(before) matches Some(state) && value_in(after) == Some(
            if accepts(state.minimal_donation, info.funds) {
                (state.counter + 1) as u64
            } else {
                state.counter
            },
        ),
{
}

/// Straight after an instantiation, a query for the value gives the number
/// that the instantiation was given.
pub proof fn value_after_instantiate(
    before: Records,
    msg: InstantiateMsg,
    owner: Seq<char>,
    after: Records,
)
    requires
        instantiated(before, initial(msg), owner, after),
    ensures
        value_in(after) == Some(msg.counter),
{
}

/// Straight after an instantiation on the legacy layout, the counter it
/// keeps is the number that the instantiation was given.
pub proof fn value_after_legacy_instantiate(
    before: Records,
    counter: u64,
    threshold: CoinView,
    owner: Seq<char>,
    after: Records,
)
    requires
        crate::legacy::contract::instantiated(before, counter, threshold, owner, after),
    ensures
        held_counter(after) == Some(counter),
{
}

/// A migration carries the counter and the threshold over: a query for the
/// value then gives the counter that the legacy layout held, and a donation
/// after it counts against the threshold that the legacy layout held.
pub proof fn migration_keeps_counter_and_threshold(
    before: Records,
    after: Records,
    info: MessageInfoView,
    later: Records,
)
    requires
        migrated(before, after),
        donated(after, info, later),
    ensures
        held(before) matches Some(state) && {
            &&& value_in(after) == Some(state.counter)
            &&& held_state(after) == Some(state)
            &&& held_state(later) == Some(state.donated(info.funds))
        },
{
}

/// A withdrawal that is made again, on the same store, by the same sender
/// and with the same report from the host's bank, comes out the same: it
/// succeeds or fails as before, with the same attributes and the same
/// message where it succeeds, and the same kind of failure, naming the same
/// owner, where it fails; and the store is the same afterwards.
pub proof fn replayed_withdrawal_comes_out_the_same(
    before: Records,
    report: Option<Seq<(Seq<char>, u128)>>,
    info: MessageInfoView,
    first: Result<Response<Empty>, ContractError>,
    after_first: Records,
    second: Result<Response<Empty>, ContractError>,
    after_second: Records,
)
    requires
        withdraw_ensures(before, report, info, first, after_first),
        withdraw_ensures(before, report, info, second, after_second),
    ensures
        after_first == after_second,
        match (first, second) {
            (Ok(a), Ok(b)) => attributes(a) == attributes(b) && messages(a) == messages(b),
            (Err(ContractError::Std(_)), Err(ContractError::Std(_))) => true,
            (
                Err(ContractError::Unauthorized { owner: a }),
                Err(ContractError::Unauthorized { owner: b }),
            ) => a@ == b@,
            _ => false,
        },
{
}

/// A donation that is made again, on the same store, by the same sender and
/// with the same funds, comes out the same: it succeeds or fails as before,
/// with the same attributes and no message where it succeeds; and
/// afterwards the store holds the same state record, and every other record
/// is the same.
pub proof fn replayed_donation_comes_out_the_same(
    before: Records,
    info: MessageInfoView,
    first: Result<Response<Empty>, StdError>,
    after_first: Records,
    second: Result<Response<Empty>, StdError>,
    after_second: Records,
)
    requires
        donate_ensures(before, info, first, after_first),
        donate_ensures(before, info, second, after_second),
    ensures
        held_state(after_first) == held_state(after_second),
        forall|key: Seq<char>|
            key != STATE@ ==> {
                &&& after_first.contains_key(key) == after_second.contains_key(key)
                &&& after_first[key] == after_second[key]
            },
        match (first, second) {
            (Ok(a), Ok(b)) => attributes(a) == attributes(b) && messages(a) == messages(b),
            (Err(_), Err(_)) => true,
            _ => false,
        },
{
}

/// One call to the contract: a transition on either layout, or a
/// migration.
pub enum Call {
    Execute(ExecuteMsg),
    Legacy(crate::legacy::msg::ExecuteMsg),
    Migrate,
}

/// The stores that `call`, made with `info`, can leave behind.
pub open spec fn moves(before: Records, call: Call, info: MessageInfoView, after: Records) -> bool {
    match call {
        Call::Execute(msg) => crate::contract::execute::step(before, msg, info, after),
        Call::Legacy(msg) => crate::legacy::contract::execute::step(before, msg, info, after),
        Call::Migrate => after == before || migrated(before, after),
    }
}

/// `stores` are the stores that a run of `calls` passes through: the first
/// is where it starts, and each call leads from one to the next.
pub open spec fn history(stores: Seq<Records>, calls: Seq<(Call, MessageInfoView)>) -> bool {
    &&& stores.len() == calls.len() + 1
    &&& forall|i: int|
        0 <= i < calls.len() ==> moves(stores[i], (#[trigger] calls[i]).0, calls[i].1, stores[i + 1])
}

/// No call changes the owner.
pub proof fn call_keeps_owner(before: Records, call: Call, info: MessageInfoView, after: Records)
    requires
        moves(before, call, info, after),
    ensures
        held_owner(after) == held_owner(before),
{
    keys_differ();
}

/// Whatever transitions and migrations are run, in whatever order and by
/// whomever, the owner stays who it was at the start.
pub proof fn owner_is_kept(stores: Seq<Records>, calls: Seq<(Call, MessageInfoView)>)
    requires
        history(stores, calls),
    ensures
        forall|i: int| 0 <= i < stores.len() ==> held_owner(#[trigger] stores[i]) == held_owner(stores[0]),
{
    assert forall|i: int| 0 <= i < stores.len() implies held_owner(#[trigger] stores[i])
        == held_owner(stores[0]) by {
        owner_is_kept_up_to(stores, calls, i);
    }
}

proof fn owner_is_kept_up_to(stores: Seq<Records>, calls: Seq<(Call, MessageInfoView)>, i: int)
    requires
        history(stores, calls),
        0 <= i < stores.len(),
    ensures
        held_owner(stores[i]) == held_owner(stores[0]),
    decreases i,
{
    if i > 0 {
        owner_is_kept_up_to(stores, calls, i - 1);
        let c = calls[i - 1];
        call_keeps_owner(stores[i - 1], c.0, c.1, stores[i]);
    }
}

/// A transition on the current layout leaves a state record that can be
/// read in place, with the threshold it had and a counter no smaller.
pub proof fn transition_keeps_threshold(
    before: Records,
    msg: ExecuteMsg,
    info: MessageInfoView,
    after: Records,
)
    requires
        crate::contract::execute::step(before, msg, info, after),
        held_state(before) is Some,
    ensures
        held_state(before) matches Some(was) && held_state(after) matches Some(is) && {
            &&& is.minimal_donation == was.minimal_donation
            &&& is.counter >= was.counter
        },
{
}

/// Over any run of transitions on the current layout, the threshold
/// stays what it was at the start, and the counter never falls.
pub proof fn threshold_is_kept_and_counter_never_falls(
    stores: Seq<Records>,
    calls: Seq<(Call, MessageInfoView)>,
)
    requires
        history(stores, calls),
        forall|i: int| 0 <= i < calls.len() ==> (#[trigger] calls[i]).0 is Execute,
        held_state(stores[0]) is Some,
    ensures
        forall|i: int, j: int|
            0 <= i <= j < stores.len() ==> {
                &&& held_state(#[trigger] stores[i]) matches Some(earlier)
                &&& held_state(#[trigger] stores[j]) matches Some(later)
                &&& later.minimal_donation == earlier.minimal_donation
                &&& later.counter >= earlier.counter
            },
{
    assert forall|i: int, j: int| 0 <= i <= j < stores.len() implies {
        &&& held_state(#[trigger] stores[i]) matches Some(earlier)
        &&& held_state(#[trigger] stores[j]) matches Some(later)
        &&& later.minimal_donation == earlier.minimal_donation
        &&& later.counter >= earlier.counter
    } by {
        threshold_is_kept_between(stores, calls, 0, i);
        threshold_is_kept_between(stores, calls, i, j);
    }
}

proof fn threshold_is_kept_between(
    stores: Seq<Records>,
    calls: Seq<(Call, MessageInfoView)>,
    i: int,
    j: int,
)
    requires
        history(stores, calls),
        forall|k: int| 0 <= k < calls.len() ==> (#[trigger] calls[k]).0 is Execute,
        0 <= i <= j < stores.len(),
        held_state(stores[i]) is Some,
    ensures
        held_state(stores[i]) matches Some(earlier) && held_state(stores[j]) matches Some(later) && {
            &&& later.minimal_donation == earlier.minimal_donation
            &&& later.counter >= earlier.counter
        },
    decreases j - i,
{
    if i < j {
        threshold_is_kept_between(stores, calls, i, j - 1);
        let c = calls[j - 1];
        transition_keeps_threshold(stores[j - 1], c.0->Execute_0, c.1, stores[j]);
    }
}

} // verus!
