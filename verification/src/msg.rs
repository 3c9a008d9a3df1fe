//! The messages the host delivers, and the values they carry.
use vstd::prelude::*;
use vstd::string::StringExecFns;

verus! {

/// An amount of one denomination.
#[derive(Clone, Debug, PartialEq, Eq)]
pub struct Coin {
    pub denom: String,
    pub amount: u128,
}

/// A coin as contracts speak of it.
pub struct CoinView {
    pub denom: Seq<char>,
    pub amount: u128,
}

impl CoinView {
    /// Whether this coin alone pays `threshold`: the same denomination, and
    /// no smaller an amount.
    pub open spec fn meets(self, threshold: CoinView) -> bool {
        self.denom == threshold.denom && self.amount >= threshold.amount
    }
}

impl View for Coin {
    type V = CoinView;

    open spec fn view(&self) -> CoinView {
        CoinView { denom: self.denom@, amount: self.amount }
    }
}

/// The coins of `funds` as contracts speak of them, in the same order.
pub open spec fn coins(funds: Seq<Coin>) -> Seq<CoinView> {
    funds.map_values(|c: Coin| c@)
}

/// Coins as the host carries them, in its messages and in the reports of its
/// bank: each as its denomination and amount, in the same order.
pub open spec fn plain(funds: Seq<Coin>) -> Seq<(Seq<char>, u128)> {
    funds.map_values(|c: Coin| (c.denom@, c.amount))
}

/// Whether some single entry of `funds` pays `threshold`. Entries are not
/// added up.
pub open spec fn accepts(threshold: CoinView, funds: Seq<CoinView>) -> bool {
    exists|i: int| 0 <= i < funds.len() && #[trigger] funds[i].meets(threshold)
}

impl Coin {
    pub fn new(amount: u128, denom: &str) -> (c: Coin)
        ensures
            c@ == (CoinView { denom: denom@, amount }),
    {
        Coin { denom: String::from_str(denom), amount }
    }

    /// Whether this coin alone pays `threshold`.
    pub fn meets(&self, threshold: &Coin) -> (b: bool)
        ensures
            b == self@.meets(threshold@),
    {
        self.denom == threshold.denom && self.amount >= threshold.amount
    }
}

/// Whether some single entry of `funds` pays `threshold`.
pub fn qualifies(funds: &Vec<Coin>, threshold: &Coin) -> (b: bool)
    ensures
        b == accepts(threshold@, coins(funds@)),
{
    let mut i: usize = 0;
    while i < funds.len()
        invariant
            i <= funds.len(),
            forall|j: int| 0 <= j < i ==> !(#[trigger] coins(funds@)[j]).meets(threshold@),
        decreases funds.len() - i,
    {
        if funds[i].meets(threshold) {
            assert(coins(funds@)[i as int].meets(threshold@));
            return true;
        }
        i += 1;
    }
    false
}

/// Who sent a message, and the funds attached to it.
#[derive(Clone, Debug, PartialEq, Eq)]
pub struct MessageInfo {
    pub sender: String,
    pub funds: Vec<Coin>,
}

/// A message's sender and funds as contracts speak of them.
pub struct MessageInfoView {
    pub sender: Seq<char>,
    pub funds: Seq<CoinView>,
}

impl View for MessageInfo {
    type V = MessageInfoView;

    open spec fn view(&self) -> MessageInfoView {
        MessageInfoView { sender: self.sender@, funds: coins(self.funds@) }
    }
}

/// The contract's own place on the host.
#[derive(Clone, Debug, PartialEq, Eq)]
pub struct ContractInfo {
    pub address: String,
}

/// What the host tells the contract about the running call.
#[derive(Clone, Debug, PartialEq, Eq)]
pub struct Env {
    pub contract: ContractInfo,
}

/// The parameters of an instantiation.
#[derive(Clone, Debug, PartialEq)]
pub struct InstantiateMsg {
    pub counter: u64,
    pub minimal_donation: Coin,
}

/// The transitions a caller can ask for.
#[derive(Clone, Debug, PartialEq)]
pub enum ExecuteMsg {
    Donate {},
    Withdraw {},
}

/// The questions a caller can ask.
#[derive(Clone, Debug, PartialEq)]
pub enum QueryMsg {
    Value {},
}

/// The answer to [`QueryMsg::Value`].
#[derive(Clone, Debug, PartialEq)]
pub struct ValueResp {
    pub value: u64,
}

} // verus!
