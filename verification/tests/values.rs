//! The plain values and the functions that decide on them.

use cosmwasm_std::{Attribute, BankMsg, Response, SubMsg};
use counting_contract::decimal::to_decimal;
use counting_contract::error::{require_owner, ContractError};
use counting_contract::msg::{qualifies, Coin};
use counting_contract::response::{donation, poked, reset_done, silent, withdrawal};
use counting_contract::state::State;

fn funds(entries: &[(u128, &str)]) -> Vec<Coin> {
    entries.iter().map(|(amount, denom)| Coin::new(*amount, denom)).collect()
}

#[test]
fn decimal_of_small_and_large_numbers() {
    assert_eq!(to_decimal(0), "0");
    assert_eq!(to_decimal(7), "7");
    assert_eq!(to_decimal(9), "9");
    assert_eq!(to_decimal(10), "10");
    assert_eq!(to_decimal(101), "101");
    assert_eq!(to_decimal(1234567890), "1234567890");
    assert_eq!(to_decimal(u64::MAX), "18446744073709551615");
}

#[test]
fn decimal_agrees_with_the_standard_rendering() {
    let mut n: u64 = 1;
    for _ in 0..64 {
        assert_eq!(to_decimal(n), n.to_string());
        assert_eq!(to_decimal(n - 1), (n - 1).to_string());
        n = n.wrapping_mul(2);
    }
    for n in 0..2000u64 {
        assert_eq!(to_decimal(n), n.to_string());
    }
}

#[test]
fn coin_new_takes_amount_then_denom() {
    let c = Coin::new(10, "atom");
    assert_eq!(c, Coin { denom: "atom".to_string(), amount: 10 });
}

#[test]
fn a_coin_meets_a_threshold_of_its_denomination() {
    let threshold = Coin::new(10, "atom");
    assert!(Coin::new(10, "atom").meets(&threshold));
    assert!(Coin::new(11, "atom").meets(&threshold));
    assert!(!Coin::new(9, "atom").meets(&threshold));
    assert!(!Coin::new(10, "atoms").meets(&threshold));
    assert!(!Coin::new(10, "ato").meets(&threshold));
    assert!(!Coin::new(u128::MAX, "osmo").meets(&threshold));
    assert!(Coin::new(0, "").meets(&Coin::new(0, "")));
}

#[test]
fn funds_qualify_by_a_single_entry() {
    let threshold = Coin::new(10, "atom");
    assert!(!qualifies(&funds(&[]), &threshold));
    assert!(qualifies(&funds(&[(10, "atom")]), &threshold));
    assert!(!qualifies(&funds(&[(9, "atom")]), &threshold));
    assert!(!qualifies(&funds(&[(5, "atom"), (5, "atom")]), &threshold));
    assert!(qualifies(&funds(&[(5, "atom"), (5, "osmo"), (12, "atom")]), &threshold));
    assert!(qualifies(&funds(&[(12, "atom"), (5, "atom")]), &threshold));
    assert!(!qualifies(&funds(&[(100, "osmo"), (100, "uatom")]), &threshold));
}

#[test]
fn a_state_counts_a_donation() {
    let state = State { counter: 4, minimal_donation: Coin::new(10, "atom") };
    assert_eq!(
        state.clone().donated(&funds(&[(10, "atom")])),
        State { counter: 5, minimal_donation: Coin::new(10, "atom") }
    );
    assert_eq!(state.clone().donated(&funds(&[(9, "atom")])), state);
    assert_eq!(state.clone().donated(&funds(&[])), state);
    assert_eq!(state.clone().donated(&funds(&[(4, "atom"), (7, "atom")])), state);

    let full = State { counter: u64::MAX, minimal_donation: Coin::new(10, "atom") };
    assert_eq!(full.clone().donated(&funds(&[(10, "atom")])), full);
}

#[test]
fn only_the_owner_is_let_through() {
    assert_eq!(require_owner(&"owner".to_string(), "owner".to_string()), Ok(()));
    assert_eq!(
        require_owner(&"member".to_string(), "owner".to_string()),
        Err(ContractError::Unauthorized { owner: "owner".to_string() })
    );
    assert_eq!(
        require_owner(&"".to_string(), "owner".to_string()),
        Err(ContractError::Unauthorized { owner: "owner".to_string() })
    );
    assert_eq!(require_owner(&"".to_string(), "".to_string()), Ok(()));
}

#[test]
fn the_answers_carry_their_attributes_in_order() {
    assert_eq!(silent(), Response::new());
    assert_eq!(
        donation("sender", 12),
        Response::new()
            .add_attribute("action", "donate")
            .add_attribute("sender", "sender")
            .add_attribute("counter", "12")
    );
    assert_eq!(
        reset_done(),
        Response::new().add_attribute("action", "reset_counter").add_attribute("counter", "0")
    );
    assert_eq!(
        poked("sender", 3).attributes,
        vec![
            Attribute::new("action", "poke"),
            Attribute::new("sender", "sender"),
            Attribute::new("counter", "3"),
        ]
    );
}

#[test]
fn a_withdrawal_asks_the_bank_for_everything() {
    let balance = funds(&[(15, "atom"), (2, "osmo")]);
    let resp = withdrawal("owner", &balance);
    assert_eq!(
        resp.messages,
        vec![SubMsg::new(BankMsg::Send {
            to_address: "owner".to_string(),
            amount: vec![cosmwasm_std::Coin::new(15, "atom"), cosmwasm_std::Coin::new(2, "osmo")],
        })]
    );
    assert_eq!(
        resp.attributes,
        vec![Attribute::new("action", "withdraw"), Attribute::new("sender", "owner")]
    );
}
