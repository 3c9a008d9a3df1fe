//! The contract under a simulated host: messages arrive as bytes, funds move
//! through the host's bank, and failures come back through the host.

use cosmwasm_std::{
    coins, from_json, to_json_binary, Addr, Binary, Coin, Deps, DepsMut, Empty, Env, MessageInfo,
    Reply, Response, StdResult,
};
use counting_contract::error::ContractError;
use counting_contract::msg::{ExecuteMsg, InstantiateMsg, QueryMsg, ValueResp};
use counting_contract::store::{Store, StoreRef};
use cw_multi_test::error::{AnyError, AnyResult};
use cw_multi_test::{App, Contract, Executor};
use std::fmt;

/// A failure of the contract, in a form the host can carry.
#[derive(Debug)]
struct Failure(ContractError);

impl fmt::Display for Failure {
    fn fmt(&self, f: &mut fmt::Formatter) -> fmt::Result {
        f.write_str(&format!("{:?}", self.0))
    }
}

impl std::error::Error for Failure {}

fn failed(e: ContractError) -> AnyError {
    AnyError::new(Failure(e))
}

fn lib_coin(c: &Coin) -> counting_contract::msg::Coin {
    counting_contract::msg::Coin::new(c.amount.u128(), &c.denom)
}

fn lib_info(info: MessageInfo) -> counting_contract::msg::MessageInfo {
    counting_contract::msg::MessageInfo {
        sender: info.sender.into_string(),
        funds: info.funds.iter().map(lib_coin).collect(),
    }
}

fn lib_env(env: Env) -> counting_contract::msg::Env {
    counting_contract::msg::Env {
        contract: counting_contract::msg::ContractInfo { address: env.contract.address.into_string() },
    }
}

// On the wire an instantiation is the pair of the counter and the threshold,
// a transition is its name, and the value is a bare number.

fn instantiate_msg(msg: &[u8]) -> AnyResult<InstantiateMsg> {
    let (counter, minimal_donation): (u64, Coin) = from_json(msg)?;
    Ok(InstantiateMsg { counter, minimal_donation: lib_coin(&minimal_donation) })
}

fn execute_msg(msg: &[u8]) -> AnyResult<ExecuteMsg> {
    let name: String = from_json(msg)?;
    match name.as_str() {
        "donate" => Ok(ExecuteMsg::Donate {}),
        "withdraw" => Ok(ExecuteMsg::Withdraw {}),
        _ => Err(AnyError::msg("unknown transition")),
    }
}

fn legacy_execute_msg(msg: &[u8]) -> AnyResult<counting_contract::legacy::msg::ExecuteMsg> {
    let name: String = from_json(msg)?;
    match name.as_str() {
        "donate" => Ok(counting_contract::legacy::msg::ExecuteMsg::Donate {}),
        "reset" => Ok(counting_contract::legacy::msg::ExecuteMsg::Reset {}),
        "withdraw" => Ok(counting_contract::legacy::msg::ExecuteMsg::Withdraw {}),
        "poke" => Ok(counting_contract::legacy::msg::ExecuteMsg::Poke {}),
        _ => Err(AnyError::msg("unknown transition")),
    }
}

fn wire(msg: &ExecuteMsg) -> &'static str {
    match msg {
        ExecuteMsg::Donate {} => "donate",
        ExecuteMsg::Withdraw {} => "withdraw",
    }
}

fn wire_query(msg: &QueryMsg) -> &'static str {
    match msg {
        QueryMsg::Value {} => "value",
    }
}

fn query_msg(msg: &[u8]) -> AnyResult<QueryMsg> {
    let name: String = from_json(msg)?;
    match name.as_str() {
        "value" => Ok(QueryMsg::Value {}),
        _ => Err(AnyError::msg("unknown question")),
    }
}

/// The contract on the current layout, as the host runs it.
struct Current;

impl Contract<Empty> for Current {
    fn execute(&self, deps: DepsMut, env: Env, info: MessageInfo, msg: Vec<u8>) -> AnyResult<Response> {
        let msg = execute_msg(&msg)?;
        let mut store = Store { deps };
        counting_contract::execute(&mut store, lib_env(env), lib_info(info), msg).map_err(failed)
    }

    fn instantiate(&self, deps: DepsMut, env: Env, info: MessageInfo, msg: Vec<u8>) -> AnyResult<Response> {
        let msg = instantiate_msg(&msg)?;
        let mut store = Store { deps };
        Ok(counting_contract::instantiate(&mut store, lib_env(env), lib_info(info), msg)?)
    }

    fn query(&self, deps: Deps, env: Env, msg: Vec<u8>) -> AnyResult<Binary> {
        let msg = query_msg(&msg)?;
        let resp = counting_contract::query(&StoreRef { deps }, lib_env(env), msg)?;
        Ok(to_json_binary(&resp.value)?)
    }

    fn sudo(&self, _deps: DepsMut, _env: Env, _msg: Vec<u8>) -> AnyResult<Response> {
        Err(AnyError::msg("no sudo"))
    }

    fn reply(&self, _deps: DepsMut, _env: Env, _msg: Reply) -> AnyResult<Response> {
        Err(AnyError::msg("no reply"))
    }

    fn migrate(&self, deps: DepsMut, env: Env, msg: Vec<u8>) -> AnyResult<Response> {
        let msg: Empty = from_json(&msg)?;
        let mut store = Store { deps };
        Ok(counting_contract::migrate(&mut store, lib_env(env), msg)?)
    }
}

/// The contract on the legacy layout, as the host runs it.
struct Legacy;

impl Contract<Empty> for Legacy {
    fn execute(&self, deps: DepsMut, env: Env, info: MessageInfo, msg: Vec<u8>) -> AnyResult<Response> {
        let msg = legacy_execute_msg(&msg)?;
        let mut store = Store { deps };
        counting_contract::legacy::execute(&mut store, lib_env(env), lib_info(info), msg)
            .map_err(failed)
    }

    fn instantiate(&self, deps: DepsMut, env: Env, info: MessageInfo, msg: Vec<u8>) -> AnyResult<Response> {
        let msg = instantiate_msg(&msg)?;
        let mut store = Store { deps };
        Ok(counting_contract::legacy::instantiate(&mut store, lib_env(env), lib_info(info), msg)?)
    }

    fn query(&self, deps: Deps, env: Env, msg: Vec<u8>) -> AnyResult<Binary> {
        let msg = query_msg(&msg)?;
        let resp = counting_contract::legacy::query(&StoreRef { deps }, lib_env(env), msg)?;
        Ok(to_json_binary(&resp.value)?)
    }

    fn sudo(&self, _deps: DepsMut, _env: Env, _msg: Vec<u8>) -> AnyResult<Response> {
        Err(AnyError::msg("no sudo"))
    }

    fn reply(&self, _deps: DepsMut, _env: Env, _msg: Reply) -> AnyResult<Response> {
        Err(AnyError::msg("no reply"))
    }

    fn migrate(&self, _deps: DepsMut, _env: Env, _msg: Vec<u8>) -> AnyResult<Response> {
        Err(AnyError::msg("no migration"))
    }
}

fn counting_contract() -> Box<dyn Contract<Empty>> {
    Box::new(Current)
}

struct CountingContract(Addr);

impl CountingContract {
    fn addr(&self) -> &Addr {
        &self.0
    }

    fn store_code(app: &mut App) -> u64 {
        app.store_code(counting_contract())
    }

    fn instantiate(
        app: &mut App,
        code_id: u64,
        sender: &Addr,
        admin: Option<&Addr>,
        label: &str,
        minimal_donation: Coin,
    ) -> StdResult<CountingContract> {
        Self::instantiate_at(app, code_id, sender, admin, label, 0, minimal_donation)
    }

    fn instantiate_at(
        app: &mut App,
        code_id: u64,
        sender: &Addr,
        admin: Option<&Addr>,
        label: &str,
        counter: u64,
        minimal_donation: Coin,
    ) -> StdResult<CountingContract> {
        app.instantiate_contract(
            code_id,
            sender.clone(),
            &(counter, minimal_donation),
            &[],
            label,
            admin.map(Addr::to_string),
        )
        .map_err(|err| err.downcast().unwrap())
        .map(CountingContract)
    }

    fn migrate(app: &mut App, sender: &Addr, contract: &Addr, code_id: u64) -> StdResult<Self> {
        app.migrate_contract(sender.clone(), contract.clone(), &Empty {}, code_id)
            .map_err(|err| err.downcast::<cosmwasm_std::StdError>().unwrap())?;
        Ok(CountingContract(contract.clone()))
    }

    fn donate(&self, app: &mut App, sender: &Addr, funds: &[Coin]) -> Result<(), ContractError> {
        app.execute_contract(sender.clone(), self.0.clone(), &wire(&ExecuteMsg::Donate {}), funds)
            .map_err(|err| err.downcast::<Failure>().unwrap().0)?;

        Ok(())
    }

    fn withdraw(&self, app: &mut App, sender: &Addr) -> Result<(), ContractError> {
        app.execute_contract(sender.clone(), self.0.clone(), &wire(&ExecuteMsg::Withdraw {}), &[])
            .map_err(|err| err.downcast::<Failure>().unwrap().0)?;

        Ok(())
    }

    fn query_value(&self, app: &App) -> StdResult<ValueResp> {
        let value: u64 =
            app.wrap().query_wasm_smart(self.0.clone(), &wire_query(&QueryMsg::Value {}))?;
        Ok(ValueResp { value })
    }
}

/// The contract on the legacy layout, on the simulated host.
struct LegacyContract(Addr);

impl LegacyContract {
    fn store_code(app: &mut App) -> u64 {
        app.store_code(Box::new(Legacy))
    }

    fn instantiate(
        app: &mut App,
        code_id: u64,
        sender: &Addr,
        admin: Option<&Addr>,
        label: &str,
        counter: u64,
        minimal_donation: Coin,
    ) -> StdResult<LegacyContract> {
        app.instantiate_contract(
            code_id,
            sender.clone(),
            &(counter, minimal_donation),
            &[],
            label,
            admin.map(Addr::to_string),
        )
        .map_err(|err| err.downcast().unwrap())
        .map(LegacyContract)
    }

    fn call(&self, app: &mut App, sender: &Addr, name: &str, funds: &[Coin]) -> Result<(), ContractError> {
        app.execute_contract(sender.clone(), self.0.clone(), &name, funds)
            .map_err(|err| err.downcast::<Failure>().unwrap().0)?;
        Ok(())
    }

    fn query_value(&self, app: &App) -> StdResult<ValueResp> {
        let value: u64 = app.wrap().query_wasm_smart(self.0.clone(), &"value")?;
        Ok(ValueResp { value })
    }
}

#[test]
fn query_value() {
    let mut app = App::default();
    let contract_id = app.store_code(counting_contract());
    let sender = Addr::unchecked("sender");
    let contract = CountingContract::instantiate(
        &mut app,
        contract_id,
        &sender,
        None,
        "Counting Contract",
        Coin::new(10, "atom"),
    )
    .unwrap();

    let resp = contract.query_value(&app).unwrap();
    assert_eq!(resp.value, 0);
}

#[test]
fn donate() {
    let mut app = App::default();
    let contract_id = app.store_code(counting_contract());
    let sender = Addr::unchecked("sender");
    let contract = CountingContract::instantiate(
        &mut app,
        contract_id,
        &sender,
        None,
        "Counting Contract",
        Coin::new(10, "atom"),
    )
    .unwrap();

    contract.donate(&mut app, &sender, &[]).unwrap();
    let resp = contract.query_value(&app).unwrap();
    assert_eq!(resp.value, 0);
}

#[test]
fn donate_with_funds() {
    let sender = Addr::unchecked("sender");
    let mut app = App::new(|router, _api, storage| {
        router
            .bank
            .init_balance(storage, &sender, coins(10, "atom"))
            .unwrap()
    });
    let contract_id = app.store_code(counting_contract());
    let contract = CountingContract::instantiate(
        &mut app,
        contract_id,
        &sender,
        None,
        "Counting Contract",
        Coin::new(10, "atom"),
    )
    .unwrap();

    contract.donate(&mut app, &sender, &coins(10, "atom")).unwrap();
    let resp = contract.query_value(&app).unwrap();
    assert_eq!(resp.value, 1);

    assert_eq!(
        app.wrap().query_all_balances(contract.addr()).unwrap(),
        coins(10, "atom")
    )
}

#[test]
fn withdraw() {
    let owner = Addr::unchecked("owner");
    let sender1 = Addr::unchecked("sender1");
    let sender2 = Addr::unchecked("sender2");
    let mut app = App::new(|router, _api, storage| {
        router
            .bank
            .init_balance(storage, &sender1, coins(10, "atom"))
            .unwrap();
        router
            .bank
            .init_balance(storage, &sender2, coins(5, "atom"))
            .unwrap();
    });
    let contract_id = app.store_code(counting_contract());
    let contract = CountingContract::instantiate(
        &mut app,
        contract_id,
        &owner,
        None,
        "Counting Contract",
        Coin::new(10, "atom"),
    )
    .unwrap();

    contract.donate(&mut app, &sender1, &coins(10, "atom")).unwrap();
    contract.donate(&mut app, &sender2, &coins(5, "atom")).unwrap();

    contract.withdraw(&mut app, &owner).unwrap();
    assert_eq!(
        app.wrap().query_all_balances(contract.addr()).unwrap(),
        vec![]
    );
    assert_eq!(app.wrap().query_all_balances(sender1).unwrap(), vec![]);
    assert_eq!(app.wrap().query_all_balances(sender2).unwrap(), vec![]);
}

#[test]
fn migration() {
    let owner = Addr::unchecked("owner");
    let admin = Addr::unchecked("admin");
    let sender = Addr::unchecked("sender");

    let mut app = App::new(|router, _api, storage| {
        router
            .bank
            .init_balance(storage, &sender, coins(10, "atom"))
            .unwrap();
    });

    let old_code_id = LegacyContract::store_code(&mut app);
    let new_code_id = CountingContract::store_code(&mut app);

    let old = LegacyContract::instantiate(
        &mut app,
        old_code_id,
        &owner,
        Some(&admin),
        "Counting Contract",
        0,
        Coin::new(10, "atom"),
    )
    .unwrap();
    old.call(&mut app, &sender, "donate", &coins(10, "atom")).unwrap();
    assert_eq!(old.query_value(&app).unwrap().value, 1);

    let contract = CountingContract::migrate(&mut app, &admin, &old.0, new_code_id).unwrap();

    let resp = contract.query_value(&app).unwrap();
    assert_eq!(resp.value, 1);
}

#[test]
fn withdraw_sends_the_owner_everything() {
    let owner = Addr::unchecked("owner");
    let sender1 = Addr::unchecked("sender1");
    let sender2 = Addr::unchecked("sender2");
    let mut app = App::new(|router, _api, storage| {
        router.bank.init_balance(storage, &sender1, coins(10, "atom")).unwrap();
        router.bank.init_balance(storage, &sender2, coins(5, "atom")).unwrap();
    });
    let contract_id = app.store_code(counting_contract());
    let contract = CountingContract::instantiate(
        &mut app,
        contract_id,
        &owner,
        None,
        "Counting Contract",
        Coin::new(10, "atom"),
    )
    .unwrap();

    contract.donate(&mut app, &sender1, &coins(10, "atom")).unwrap();
    contract.donate(&mut app, &sender2, &coins(5, "atom")).unwrap();
    assert_eq!(contract.query_value(&app).unwrap().value, 1);
    assert_eq!(app.wrap().query_all_balances(contract.addr()).unwrap(), coins(15, "atom"));

    contract.withdraw(&mut app, &owner).unwrap();
    assert_eq!(app.wrap().query_all_balances(&owner).unwrap(), coins(15, "atom"));
    assert_eq!(app.wrap().query_all_balances(contract.addr()).unwrap(), vec![]);
    assert_eq!(contract.query_value(&app).unwrap().value, 1);
}

#[test]
fn unauthorized_withdraw() {
    let owner = Addr::unchecked("owner");
    let member = Addr::unchecked("member");
    let sender = Addr::unchecked("sender");
    let mut app = App::new(|router, _api, storage| {
        router.bank.init_balance(storage, &sender, coins(10, "atom")).unwrap();
    });
    let contract_id = app.store_code(counting_contract());
    let contract = CountingContract::instantiate(
        &mut app,
        contract_id,
        &owner,
        None,
        "Counting Contract",
        Coin::new(10, "atom"),
    )
    .unwrap();
    contract.donate(&mut app, &sender, &coins(10, "atom")).unwrap();

    let err = contract.withdraw(&mut app, &member).unwrap_err();
    assert_eq!(err, ContractError::Unauthorized { owner: owner.to_string() });
    assert_eq!(app.wrap().query_all_balances(contract.addr()).unwrap(), coins(10, "atom"));
    assert_eq!(app.wrap().query_all_balances(&member).unwrap(), vec![]);
}

#[test]
fn instantiate_with_a_counter() {
    let mut app = App::default();
    let contract_id = app.store_code(counting_contract());
    let sender = Addr::unchecked("sender");
    let contract = CountingContract::instantiate_at(
        &mut app,
        contract_id,
        &sender,
        None,
        "Counting Contract",
        41,
        Coin::new(10, "atom"),
    )
    .unwrap();
    assert_eq!(contract.query_value(&app).unwrap().value, 41);
}

#[test]
fn migration_keeps_counter_threshold_and_owner() {
    let owner = Addr::unchecked("owner");
    let admin = Addr::unchecked("admin");
    let sender = Addr::unchecked("sender");
    let mut app = App::new(|router, _api, storage| {
        router.bank.init_balance(storage, &sender, coins(30, "atom")).unwrap();
    });
    let old_code_id = LegacyContract::store_code(&mut app);
    let new_code_id = CountingContract::store_code(&mut app);
    let old = LegacyContract::instantiate(
        &mut app,
        old_code_id,
        &owner,
        Some(&admin),
        "Counting Contract",
        7,
        Coin::new(10, "atom"),
    )
    .unwrap();

    let contract = CountingContract::migrate(&mut app, &admin, &old.0, new_code_id).unwrap();
    assert_eq!(contract.query_value(&app).unwrap().value, 7);

    contract.donate(&mut app, &sender, &coins(9, "atom")).unwrap();
    assert_eq!(contract.query_value(&app).unwrap().value, 7);
    contract.donate(&mut app, &sender, &coins(10, "atom")).unwrap();
    assert_eq!(contract.query_value(&app).unwrap().value, 8);

    let err = contract.withdraw(&mut app, &sender).unwrap_err();
    assert_eq!(err, ContractError::Unauthorized { owner: owner.to_string() });
    contract.withdraw(&mut app, &owner).unwrap();
    assert_eq!(app.wrap().query_all_balances(&owner).unwrap(), coins(19, "atom"));
}

#[test]
fn legacy_layout_resets_and_pokes() {
    let owner = Addr::unchecked("owner");
    let sender = Addr::unchecked("sender");
    let mut app = App::new(|router, _api, storage| {
        router.bank.init_balance(storage, &sender, coins(10, "atom")).unwrap();
    });
    let code_id = LegacyContract::store_code(&mut app);
    let contract = LegacyContract::instantiate(
        &mut app,
        code_id,
        &owner,
        None,
        "Counting Contract",
        3,
        Coin::new(10, "atom"),
    )
    .unwrap();
    assert_eq!(contract.query_value(&app).unwrap().value, 3);

    contract.call(&mut app, &sender, "poke", &[]).unwrap();
    assert_eq!(contract.query_value(&app).unwrap().value, 4);
    contract.call(&mut app, &sender, "donate", &coins(10, "atom")).unwrap();
    assert_eq!(contract.query_value(&app).unwrap().value, 5);
    contract.call(&mut app, &sender, "reset", &[]).unwrap();
    assert_eq!(contract.query_value(&app).unwrap().value, 0);

    let err = contract.call(&mut app, &sender, "withdraw", &[]).unwrap_err();
    assert_eq!(err, ContractError::Unauthorized { owner: owner.to_string() });
    contract.call(&mut app, &owner, "withdraw", &[]).unwrap();
    assert_eq!(app.wrap().query_all_balances(&owner).unwrap(), coins(10, "atom"));
}
