//! The handle to the host, and the records of the contract's store.
//!
//! The host keeps the store and hands the contract a handle for the length
//! of one call. Records are kept under text keys; each is the JSON form of a
//! value. Nothing of this is proved here: the handle types hide the host's
//! own, and every function of this module calls into the host's libraries
//! and is believed to do what its contract says.
//!
//! Writing a record cannot fail. `Item::save` fails only where the value
//! cannot be written as JSON, and for the four kinds of value that are kept
//! here, a number, a text, a coin, and a number with a coin, the JSON writer
//! `serde_json_wasm` has no failing path: each of its steps for them ends in
//! `Ok`. Reading can fail, where no record is there or it does not read as
//! the kind that is asked for.
//!
//! The same handle reaches the host's bank, which reports what it holds for
//! an address. The host carries out the transfers that a contract asks for
//! only after the call has returned, so for the length of a call the bank
//! answers the same for the same address.
use crate::msg::plain;
use crate::msg::Coin;
use crate::msg::CoinView;
use cosmwasm_std::Addr;
use cosmwasm_std::Deps;
use cosmwasm_std::DepsMut;
use cosmwasm_std::Empty;
use cosmwasm_std::StdError;
use cw_storage_plus::Item;
use vstd::prelude::*;

verus! {

/// The host's error type, `cosmwasm_std::StdError`: the form in which the
/// failures of the store and of the host arrive. It is carried through, and
/// nothing is claimed of what one holds.
#[verifier::external_type_specification]
#[verifier::external_body]
pub struct ExStdError(StdError);

/// The handle for a call that may write: the host's `DepsMut`.
#[verifier::external_body]
pub struct Store<'a> {
    pub deps: DepsMut<'a, Empty>,
}

/// The handle for a call that only reads: the host's `Deps`.
#[verifier::external_body]
pub struct StoreRef<'a> {
    pub deps: Deps<'a, Empty>,
}

/// What a store holds: the bytes of each record, by the text of its key.
pub type Records = Map<Seq<char>, Seq<u8>>;

/// The records behind a writing handle.
pub uninterp spec fn stored(store: Store) -> Map<Seq<char>, Seq<u8>>;

/// The records behind a reading handle.
pub uninterp spec fn visible(store: StoreRef) -> Map<Seq<char>, Seq<u8>>;

/// What the host's bank reports for `address` through a writing handle: the
/// coins it holds for that address, each as its denomination and amount, in
/// the order of the report; or `None` where the report fails.
pub uninterp spec fn balance(store: Store, address: Seq<char>) -> Option<Seq<(Seq<char>, u128)>>;

/// What the host's bank reports for `address` through a reading handle: the
/// coins it holds for that address, each as its denomination and amount, in
/// the order of the report; or `None` where the report fails.
pub uninterp spec fn balance_seen(store: StoreRef, address: Seq<char>) -> Option<
    Seq<(Seq<char>, u128)>,
>;

/// The number that `cosmwasm_std::from_json` reads from `bytes` as a `u64`,
/// or `None` where it reports an error.
pub uninterp spec fn json_number(bytes: Seq<u8>) -> Option<u64>;

/// The text that `cosmwasm_std::from_json` reads from `bytes` as an `Addr`,
/// or `None` where it reports an error.
pub uninterp spec fn json_text(bytes: Seq<u8>) -> Option<Seq<char>>;

/// The denomination and amount that `cosmwasm_std::from_json` reads from
/// `bytes` as a `Coin`, or `None` where it reports an error.
pub uninterp spec fn json_coin(bytes: Seq<u8>) -> Option<(Seq<char>, u128)>;

/// The number, and the denomination and amount, that
/// `cosmwasm_std::from_json` reads from `bytes` as a pair of a `u64` and a
/// `Coin`, or `None` where it reports an error.
pub uninterp spec fn json_pair(bytes: Seq<u8>) -> Option<(u64, (Seq<char>, u128))>;

/// The number kept under `key`, if a record is there and reads as one.
pub open spec fn held_number(records: Records, key: Seq<char>) -> Option<u64> {
    if records.contains_key(key) {
        json_number(records[key])
    } else {
        None
    }
}

/// The text kept under `key`, if a record is there and reads as one.
pub open spec fn held_text(records: Records, key: Seq<char>) -> Option<Seq<char>> {
    if records.contains_key(key) {
        json_text(records[key])
    } else {
        None
    }
}

/// The coin kept under `key`, if a record is there and reads as one.
pub open spec fn held_coin(records: Records, key: Seq<char>) -> Option<CoinView> {
    if records.contains_key(key) {
        match json_coin(records[key]) {
            Some(c) => Some(CoinView { denom: c.0, amount: c.1 }),
            None => None,
        }
    } else {
        None
    }
}

/// The number and coin kept together under `key`, if a record is there and
/// reads as such a pair.
pub open spec fn held_pair(records: Records, key: Seq<char>) -> Option<(u64, CoinView)> {
    if records.contains_key(key) {
        match json_pair(records[key]) {
            Some(p) => Some((p.0, CoinView { denom: p.1.0, amount: p.1.1 })),
            None => None,
        }
    } else {
        None
    }
}

/// `after` is `before` with the record under `key` written anew, and no
/// other record touched.
pub open spec fn rewritten(before: Records, key: Seq<char>, after: Records) -> bool {
    after == before.insert(key, after[key])
}

/// `DepsMut::as_ref`: a reading handle to the same store and the same bank.
/// It shows the records as they are now, and the bank reports through it
/// what it reports through the writing handle, for every address.
#[verifier::external_body]
pub(crate) fn reading<'a>(store: &'a Store) -> (r: StoreRef<'a>)
    ensures
        visible(r) == stored(*store),
        forall|address: Seq<char>| #[trigger] balance_seen(r, address) == balance(*store, address),
{
    StoreRef { deps: store.deps.as_ref() }
}

/// `Item::<u64>::load`: the number under `key`. It fails where no record is
/// there, and where the record does not read as a number.
#[verifier::external_body]
pub(crate) fn load_number(store: &StoreRef, key: &str) -> (r: Result<u64, StdError>)
    ensures
        match r {
            Ok(v) => held_number(visible(*store), key@) == Some(v),
            Err(_) => held_number(visible(*store), key@) is None,
        },
{
    Item::<u64>::new(key).load(store.deps.storage)
}

/// `Item::<u64>::save`: writes `value` under `key`. It succeeds, for a
/// number is written as its digits and that has no failing path. The record
/// under `key` then reads back as `value`, and no other record has changed.
#[verifier::external_body]
pub(crate) fn save_number(store: &mut Store, key: &str, value: u64) -> (r: Result<(), StdError>)
    ensures
        r is Ok,
        rewritten(stored(*old(store)), key@, stored(*final(store))),
        json_number(stored(*final(store))[key@]) == Some(value),
{
    Item::<u64>::new(key).save(store.deps.storage, &value)
}

/// `Item::<Addr>::load`: the text under `key`, taken out of the address it
/// is read as. It fails where no record is there, and where the record does
/// not read as text.
#[verifier::external_body]
pub(crate) fn load_text(store: &StoreRef, key: &str) -> (r: Result<String, StdError>)
    ensures
        match r {
            Ok(v) => held_text(visible(*store), key@) == Some(v@),
            Err(_) => held_text(visible(*store), key@) is None,
        },
{
    Item::<Addr>::new(key).load(store.deps.storage).map(Addr::into_string)
}

/// `Item::<Addr>::save`: writes `value` under `key` as an address that the
/// host has already checked. It succeeds, for an address is written as a
/// JSON string and that has no failing path. The record under `key` then
/// reads back as `value`, and no other record has changed.
#[verifier::external_body]
pub(crate) fn save_text(store: &mut Store, key: &str, value: &str) -> (r: Result<(), StdError>)
    ensures
        r is Ok,
        rewritten(stored(*old(store)), key@, stored(*final(store))),
        json_text(stored(*final(store))[key@]) == Some(value@),
{
    Item::<Addr>::new(key).save(store.deps.storage, &Addr::unchecked(value))
}

/// `Item::<cosmwasm_std::Coin>::load`: the coin under `key`. It fails where
/// no record is there, and where the record does not read as a coin.
#[verifier::external_body]
pub(crate) fn load_coin(store: &StoreRef, key: &str) -> (r: Result<Coin, StdError>)
    ensures
        match r {
            Ok(v) => held_coin(visible(*store), key@) == Some(v@),
            Err(_) => held_coin(visible(*store), key@) is None,
        },
{
    let coin = Item::<cosmwasm_std::Coin>::new(key).load(store.deps.storage)?;
    Ok(Coin { denom: coin.denom, amount: coin.amount.u128() })
}

/// `Item::<cosmwasm_std::Coin>::save`: writes `value` under `key`. It
/// succeeds, for a coin is written as a JSON object of two strings, its
/// denomination and its amount in digits, and that has no failing path. The
/// record under `key` then reads back as `value`, and no other record has
/// changed.
#[verifier::external_body]
pub(crate) fn save_coin(store: &mut Store, key: &str, value: &Coin) -> (r: Result<(), StdError>)
    ensures
        r is Ok,
        rewritten(stored(*old(store)), key@, stored(*final(store))),
        json_coin(stored(*final(store))[key@]) == Some((value@.denom, value@.amount)),
{
    let coin = cosmwasm_std::Coin::new(value.amount, value.denom.clone());
    Item::<cosmwasm_std::Coin>::new(key).save(store.deps.storage, &coin)
}

/// `Item::<(u64, cosmwasm_std::Coin)>::load`: the number and coin kept
/// together under `key`. It fails where no record is there, and where the
/// record does not read as such a pair.
#[verifier::external_body]
pub(crate) fn load_pair(store: &StoreRef, key: &str) -> (r: Result<(u64, Coin), StdError>)
    ensures
        match r {
            Ok(v) => held_pair(visible(*store), key@) == Some((v.0, v.1@)),
            Err(_) => held_pair(visible(*store), key@) is None,
        },
{
    let (number, coin) = Item::<(u64, cosmwasm_std::Coin)>::new(key).load(store.deps.storage)?;
    Ok((number, Coin { denom: coin.denom, amount: coin.amount.u128() }))
}

/// `Item::<(u64, cosmwasm_std::Coin)>::save`: writes `number` and `coin`
/// together under `key`. It succeeds, for the two are written as a JSON
/// array of a number and a coin, and that has no failing path. The record
/// under `key` then reads back as the two, and no other record has changed.
#[verifier::external_body]
pub(crate) fn save_pair(store: &mut Store, key: &str, number: u64, coin: &Coin) -> (r: Result<
    (),
    StdError,
>)
    ensures
        r is Ok,
        rewritten(stored(*old(store)), key@, stored(*final(store))),
        json_pair(stored(*final(store))[key@]) == Some((number, (coin@.denom, coin@.amount))),
{
    let pair = (number, cosmwasm_std::Coin::new(coin.amount, coin.denom.clone()));
    Item::<(u64, cosmwasm_std::Coin)>::new(key).save(store.deps.storage, &pair)
}

/// `QuerierWrapper::query_all_balances`: asks the host's bank what it holds
/// for `address`. The result is the bank's report for that address: its
/// coins in the order of the report, or the failure of the report.
#[verifier::external_body]
pub(crate) fn all_balances(store: &StoreRef, address: &str) -> (r: Result<Vec<Coin>, StdError>)
    ensures
        match r {
            Ok(held) => balance_seen(*store, address@) == Some(plain(held@)),
            Err(_) => balance_seen(*store, address@) is None,
        },
{
    let held = store.deps.querier.query_all_balances(address)?;
    Ok(held.into_iter().map(|c| Coin::new(c.amount.u128(), &c.denom)).collect())
}

} // verus!
