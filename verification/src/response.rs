//! What a transition answers: attributes for observers, and transfers for
//! the host to carry out.
//!
//! The answer is the host's own `Response`. Its contents are hidden in that
//! type, so the three functions that create and fill one are believed, not
//! proved; the functions that put the contract's answers together are
//! proved from them.
use crate::decimal::decimal;
use crate::decimal::to_decimal;
use crate::msg::plain;
use crate::msg::Coin;
use cosmwasm_std::BankMsg;
use cosmwasm_std::Empty;
use cosmwasm_std::Response;
use vstd::prelude::*;

verus! {

/// The host's `cosmwasm_std::Empty`: the message that carries nothing, and
/// the mark of a response without messages of the contract's own kind.
#[verifier::external_type_specification]
#[verifier::external_body]
pub struct ExEmpty(Empty);

/// The host's `cosmwasm_std::Response`. What one holds is spoken of only
/// through [`attributes`] and [`messages`].
#[verifier::external_type_specification]
#[verifier::external_body]
#[verifier::reject_recursive_types(T)]
pub struct ExResponse<T>(Response<T>);

/// Attributes, each as its key and its value.
pub type Attributes = Seq<(Seq<char>, Seq<char>)>;

/// Messages to the host. One that asks the bank to send coins, with no reply
/// wanted, stands as the recipient and the coins, each coin as its
/// denomination and amount; any other stands as `None`.
pub type Messages = Seq<Option<(Seq<char>, Seq<(Seq<char>, u128)>)>>;

/// The attributes of a response, in order, each as its key and its value.
pub uninterp spec fn attributes(response: Response<Empty>) -> Seq<(Seq<char>, Seq<char>)>;

/// The messages of a response, in order. A message that asks the bank to
/// send coins, with no reply wanted, stands as the recipient and the coins,
/// each coin as its denomination and amount; any other message stands as
/// `None`.
pub uninterp spec fn messages(response: Response<Empty>) -> Seq<
    Option<(Seq<char>, Seq<(Seq<char>, u128)>)>,
>;

/// `Response::new`: a response without attributes or messages.
#[verifier::external_body]
pub(crate) fn new_response() -> (r: Response<Empty>)
    ensures
        attributes(r) == Attributes::empty(),
        messages(r) == Messages::empty(),
{
    Response::new()
}

/// `Response::add_attribute`: the same response with one more attribute at
/// the end. The host keeps keys that begin with an underscore for itself and
/// may refuse them by a panic, so such a key is not accepted.
#[verifier::external_body]
pub(crate) fn add_attribute(response: Response<Empty>, key: &str, value: &str) -> (r: Response<
    Empty,
>)
    requires
        key@.len() > 0 ==> key@[0] != '_',
    ensures
        attributes(r) == attributes(response).push((key@, value@)),
        messages(r) == messages(response),
{
    response.add_attribute(key, value)
}

/// `Response::add_message` with a `BankMsg::Send`: the same response with
/// one more message at the end, which asks the bank to send `amount` to `to`.
#[verifier::external_body]
pub(crate) fn add_send(response: Response<Empty>, to: &str, amount: &Vec<Coin>) -> (r: Response<
    Empty,
>)
    ensures
        attributes(r) == attributes(response),
        messages(r) == messages(response).push(Some((to@, plain(amount@)))),
{
    let amount = amount.iter().map(|c| cosmwasm_std::Coin::new(c.amount, c.denom.clone()));
    response.add_message(BankMsg::Send { to_address: to.to_string(), amount: amount.collect() })
}

/// The attributes that report a donation by `sender` after which the
/// counter stands at `counter`.
pub open spec fn donate_attributes(sender: Seq<char>, counter: u64) -> Attributes {
    seq![("action"@, "donate"@), ("sender"@, sender), ("counter"@, decimal(counter as nat))]
}

/// The attributes that report a withdrawal by `sender`.
pub open spec fn withdraw_attributes(sender: Seq<char>) -> Attributes {
    seq![("action"@, "withdraw"@), ("sender"@, sender)]
}

/// The attributes that report a reset.
pub open spec fn reset_attributes() -> Attributes {
    seq![("action"@, "reset_counter"@), ("counter"@, "0"@)]
}

/// The attributes that report a poke by `sender` after which the counter
/// stands at `counter`.
pub open spec fn poke_attributes(sender: Seq<char>, counter: u64) -> Attributes {
    seq![("action"@, "poke"@), ("sender"@, sender), ("counter"@, decimal(counter as nat))]
}

/// The answer to an instantiation or a migration: nothing to report, and
/// nothing for the host to do.
pub fn silent() -> (r: Response<Empty>)
    ensures
        attributes(r) == Attributes::empty(),
        messages(r) == Messages::empty(),
{
    new_response()
}

/// The answer to a donation by `sender`, after which the counter stands at
/// `counter`.
pub fn donation(sender: &str, counter: u64) -> (r: Response<Empty>)
    ensures
        attributes(r) == donate_attributes(sender@, counter),
        messages(r) == Messages::empty(),
{
    proof {
        reveal_strlit("action");
        reveal_strlit("sender");
        reveal_strlit("counter");
    }
    let text: String = to_decimal(counter);
    let r = new_response();
    let r = add_attribute(r, "action", "donate");
    let r = add_attribute(r, "sender", sender);
    let r = add_attribute(r, "counter", text.as_str());
    assert(attributes(r) =~= donate_attributes(sender@, counter));
    r
}

/// The answer to a withdrawal by `sender`: the host is asked to send
/// `balance`, all of it, to `sender`.
pub fn withdrawal(sender: &str, balance: &Vec<Coin>) -> (r: Response<Empty>)
    ensures
        attributes(r) == withdraw_attributes(sender@),
        messages(r) == seq![Some((sender@, plain(balance@)))],
{
    proof {
        reveal_strlit("action");
        reveal_strlit("sender");
    }
    let r = new_response();
    let r = add_send(r, sender, balance);
    let r = add_attribute(r, "action", "withdraw");
    let r = add_attribute(r, "sender", sender);
    assert(attributes(r) =~= withdraw_attributes(sender@));
    assert(messages(r) =~= seq![Some((sender@, plain(balance@)))]);
    r
}

/// The answer to a reset.
pub fn reset_done() -> (r: Response<Empty>)
    ensures
        attributes(r) == reset_attributes(),
        messages(r) == Messages::empty(),
{
    proof {
        reveal_strlit("action");
        reveal_strlit("counter");
        reveal_strlit("0");
    }
    let text: String = to_decimal(0);
    assert(text@ =~= "0"@);
    let r = new_response();
    let r = add_attribute(r, "action", "reset_counter");
    let r = add_attribute(r, "counter", text.as_str());
    assert(attributes(r) =~= reset_attributes());
    r
}

/// The answer to a poke by `sender`, after which the counter stands at
/// `counter`.
pub fn poked(sender: &str, counter: u64) -> (r: Response<Empty>)
    ensures
        attributes(r) == poke_attributes(sender@, counter),
        messages(r) == Messages::empty(),
{
    proof {
        reveal_strlit("action");
        reveal_strlit("sender");
        reveal_strlit("counter");
    }
    let text: String = to_decimal(counter);
    let r = new_response();
    let r = add_attribute(r, "action", "poke");
    let r = add_attribute(r, "sender", sender);
    let r = add_attribute(r, "counter", text.as_str());
    assert(attributes(r) =~= poke_attributes(sender@, counter));
    r
}

} // verus!
