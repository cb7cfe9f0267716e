use dapp_template::commands::{
    call_contract, payment_coin, delete_entry_on_map, fill_map, send_funds, try_increment, try_reset,
};
use dapp_template::contract::{execute, instantiate, migrate, query, reply, Balances, Effect};
use dapp_template::error::{PaymentFailure, StdError};
use dapp_template::msg::{
    Coin, CosmosMsg, Env, ExecuteMsg, InstantiateMsg, MessageInfo, MigrateMsg, QueryAnswer,
    QueryMsg, ReplyOn, Response,
};
use dapp_template::queries::{get_entry, iterate_map, query_count};
use dapp_template::state::{MapEntry, State};
use dapp_template::ContractError;

fn coin(amount: u128, denom: &str) -> Coin {
    Coin { denom: denom.to_string(), amount }
}

fn info(sender: &str, funds: Vec<Coin>) -> MessageInfo {
    MessageInfo { sender: sender.to_string(), funds }
}

fn env() -> Env {
    Env { contract_address: "contract0".to_string() }
}

fn balances() -> Balances {
    Balances { contract: coin(100, "uom"), recipient: coin(7, "uom") }
}

fn attrs(r: &Response) -> Vec<(String, String)> {
    r.attributes.iter().map(|a| (a.key.clone(), a.value.clone())).collect()
}

fn instantiated(count: Option<u64>) -> State {
    let mut state = State::empty();
    instantiate(&mut state, &info("admin", vec![]), InstantiateMsg { count }).unwrap();
    state
}

fn count_of(state: &State) -> u64 {
    match query(state, QueryMsg::GetCount {}).unwrap() {
        QueryAnswer::Count(c) => c.count,
        other => panic!("unexpected answer {:?}", other),
    }
}

fn entries_of(state: &State, limit: u64) -> Vec<MapEntry> {
    match query(state, QueryMsg::IterateOverMap { limit }).unwrap() {
        QueryAnswer::Entries(v) => v,
        other => panic!("unexpected answer {:?}", other),
    }
}

fn run(state: &mut State, sender: &str, funds: Vec<Coin>, msg: ExecuteMsg) -> Result<Effect, ContractError> {
    execute(state, &env(), &info(sender, funds), &balances(), msg)
}

#[test]
fn update_counter() {
    let mut state = instantiated(Some(123));
    assert_eq!(count_of(&state), 123);
    run(&mut state, "admin", vec![], ExecuteMsg::ModifyState {}).unwrap();
    assert_eq!(count_of(&state), 124);
}

#[test]
fn instantiate_reports_owner_and_defaults_to_zero() {
    let mut state = State::empty();
    let r = instantiate(&mut state, &info("admin", vec![]), InstantiateMsg { count: None }).unwrap();
    assert_eq!(
        attrs(&r),
        vec![
            ("action".to_string(), "instantiate".to_string()),
            ("owner".to_string(), "admin".to_string())
        ]
    );
    assert_eq!(state.count, Some(0));
}

#[test]
fn increment_reports_new_count() {
    let mut state = instantiated(Some(41));
    let r = try_increment(&mut state).unwrap();
    assert_eq!(
        attrs(&r),
        vec![
            ("action".to_string(), "increment".to_string()),
            ("new_count".to_string(), "42".to_string())
        ]
    );
}

#[test]
fn increments_are_strictly_increasing() {
    let mut state = instantiated(Some(0));
    let mut last = 0u64;
    for _ in 0..5 {
        try_increment(&mut state).unwrap();
        let now = query_count(&state).unwrap().count;
        assert!(now > last);
        last = now;
    }
    assert_eq!(last, 5);
}

#[test]
fn increment_at_max_overflows() {
    let mut state = instantiated(Some(u64::MAX));
    let r = try_increment(&mut state);
    assert!(matches!(r, Err(ContractError::Std(StdError::Overflow))));
    assert_eq!(state.count, Some(u64::MAX));
}

#[test]
fn increment_without_counter_is_not_found() {
    let mut state = State::empty();
    assert!(matches!(try_increment(&mut state), Err(ContractError::Std(StdError::NotFound))));
    assert!(matches!(query_count(&state), Err(ContractError::Std(StdError::NotFound))));
}

#[test]
fn reset_then_count_gives_value() {
    let mut state = instantiated(Some(9));
    try_increment(&mut state).unwrap();
    let r = try_reset(&mut state, 3).unwrap();
    assert_eq!(
        attrs(&r),
        vec![
            ("action".to_string(), "reset".to_string()),
            ("new_count".to_string(), "3".to_string())
        ]
    );
    assert_eq!(count_of(&state), 3);
    try_reset(&mut state, 3).unwrap();
    assert_eq!(count_of(&state), 3);
}

#[test]
fn fill_then_iterate_returns_limit_records() {
    let mut state = instantiated(None);
    let r = fill_map(&mut state, 5).unwrap();
    assert_eq!(attrs(&r), vec![("action".to_string(), "fill_map".to_string())]);
    assert_eq!(entries_of(&state, 5).len(), 5);
    assert_eq!(state.markers, vec![0, 1, 2, 3, 4]);
    assert_eq!(iterate_map(&state, 3).len(), 3);
    assert_eq!(iterate_map(&state, 0).len(), 0);
}

#[test]
fn fill_keeps_keys_above_limit() {
    let mut state = instantiated(None);
    fill_map(&mut state, 8).unwrap();
    delete_entry_on_map(&mut state, 1).unwrap();
    fill_map(&mut state, 3).unwrap();
    assert_eq!(state.markers, vec![0, 1, 2, 3, 4, 5, 6, 7]);
    fill_map(&mut state, 0).unwrap();
    assert_eq!(state.markers.len(), 8);
}

#[test]
fn fill_delete_scenario() {
    let mut state = instantiated(None);
    run(&mut state, "admin", vec![], ExecuteMsg::FillMap { limit: 5 }).unwrap();
    assert_eq!(entries_of(&state, 10).len(), 5);
    run(&mut state, "admin", vec![], ExecuteMsg::DeleteEntryOnMap { key: 2 }).unwrap();
    assert_eq!(entries_of(&state, 10).len(), 4);
    assert_eq!(state.markers, vec![0, 1, 3, 4]);
    assert!(matches!(
        query(&state, QueryMsg::GetEntryFromMap { entry: 2 }),
        Err(ContractError::Std(StdError::NotFound))
    ));
    assert!(matches!(
        query(&state, QueryMsg::GetEntryFromMap { entry: 3 }),
        Ok(QueryAnswer::Entry(MapEntry {}))
    ));
}

#[test]
fn delete_then_get_is_not_found() {
    let mut state = instantiated(None);
    fill_map(&mut state, 3).unwrap();
    let r = delete_entry_on_map(&mut state, 1).unwrap();
    assert_eq!(attrs(&r), vec![("action".to_string(), "delete_entry_on_map".to_string())]);
    assert!(matches!(get_entry(&state, 1), Err(ContractError::Std(StdError::NotFound))));
    assert!(get_entry(&state, 0).is_ok());
}

#[test]
fn delete_missing_key_succeeds() {
    let mut state = instantiated(None);
    fill_map(&mut state, 2).unwrap();
    assert!(delete_entry_on_map(&mut state, 77).is_ok());
    assert_eq!(state.markers, vec![0, 1]);
}

#[test]
fn send_funds_without_coin_fails() {
    let mut state = instantiated(Some(5));
    fill_map(&mut state, 2).unwrap();
    let msg = ExecuteMsg::SendFunds { receipient: "bob".to_string() };
    let r = run(&mut state, "admin", vec![], msg);
    assert!(matches!(r, Err(ContractError::PaymentError(PaymentFailure::NoFunds))));
    assert_eq!(state.count, Some(5));
    assert_eq!(state.markers, vec![0, 1]);
}

#[test]
fn send_funds_zero_amount_fails() {
    let r = send_funds(&info("admin", vec![coin(0, "uom")]), "bob".to_string(), &coin(1, "uom"), &coin(2, "uom"));
    assert!(matches!(r, Err(ContractError::PaymentError(PaymentFailure::NoFunds))));
}

#[test]
fn send_funds_several_denoms_fails() {
    let mut state = instantiated(Some(5));
    let msg = ExecuteMsg::SendFunds { receipient: "bob".to_string() };
    let r = run(&mut state, "admin", vec![coin(1, "uom"), coin(2, "uatom")], msg);
    assert!(matches!(r, Err(ContractError::PaymentError(PaymentFailure::MultipleDenoms))));
    assert_eq!(state.count, Some(5));
}

#[test]
fn payment_coin_takes_the_single_coin() {
    assert_eq!(payment_coin(&info("a", vec![coin(4, "uom")])).unwrap(), coin(4, "uom"));
    assert!(matches!(payment_coin(&info("a", vec![])), Err(ContractError::PaymentError(PaymentFailure::NoFunds))));
    assert!(matches!(
        payment_coin(&info("a", vec![coin(1, "uom"), coin(1, "uatom")])),
        Err(ContractError::PaymentError(PaymentFailure::MultipleDenoms))
    ));
}

#[test]
fn handlers_without_transfers_send_nothing() {
    let mut state = State::empty();
    assert!(instantiate(&mut state, &info("admin", vec![]), InstantiateMsg { count: Some(1) }).unwrap().messages.is_empty());
    assert!(try_increment(&mut state).unwrap().messages.is_empty());
    assert!(try_reset(&mut state, 7).unwrap().messages.is_empty());
    assert!(fill_map(&mut state, 3).unwrap().messages.is_empty());
    assert!(delete_entry_on_map(&mut state, 1).unwrap().messages.is_empty());
}

#[test]
fn send_funds_forwards_the_coin() {
    let r = send_funds(&info("admin", vec![coin(25, "uom")]), "bob".to_string(), &coin(100, "uom"), &coin(7, "uom"))
        .unwrap();
    assert_eq!(
        attrs(&r),
        vec![
            ("contract balance before action".to_string(), "100uom".to_string()),
            ("recipient balance before action".to_string(), "7uom".to_string())
        ]
    );
    assert_eq!(r.messages.len(), 1);
    assert_eq!(r.messages[0].id, 0);
    assert_eq!(r.messages[0].reply_on, ReplyOn::Never);
    match &r.messages[0].msg {
        CosmosMsg::BankSend { to_address, amount } => {
            assert_eq!(to_address, "bob");
            assert_eq!(amount, &vec![coin(25, "uom")]);
        }
        other => panic!("unexpected message {:?}", other),
    }
}

#[test]
fn call_contract_with_reply_then_reply() {
    let mut state = instantiated(None);
    let msg = ExecuteMsg::CallContract { contract: "other".to_string(), reply: true };
    let r = match run(&mut state, "admin", vec![coin(3, "uom")], msg).unwrap() {
        Effect::Respond(r) => r,
        other => panic!("unexpected effect {:?}", other),
    };
    assert_eq!(r.messages.len(), 1);
    assert_eq!(r.messages[0].id, 1);
    assert_eq!(r.messages[0].reply_on, ReplyOn::Success);
    match &r.messages[0].msg {
        CosmosMsg::WasmExecute { contract_addr, msg, funds } => {
            assert_eq!(contract_addr, "other");
            assert_eq!(funds, &vec![coin(3, "uom")]);
            assert!(matches!(msg, ExecuteMsg::SendFunds { receipient } if receipient == "contract0"));
        }
        other => panic!("unexpected message {:?}", other),
    }
    let ack = reply(1).unwrap();
    assert_eq!(attrs(&ack), vec![("reply".to_string(), "ok".to_string())]);
    assert!(matches!(reply(2), Err(ContractError::UnknownReplyId(2))));
    assert!(matches!(reply(0), Err(ContractError::UnknownReplyId(0))));
}

#[test]
fn call_contract_without_reply() {
    let r = call_contract(&env(), &info("admin", vec![coin(3, "uom")]), "other".to_string(), false).unwrap();
    assert_eq!(r.messages.len(), 1);
    assert_eq!(r.messages[0].id, 0);
    assert_eq!(r.messages[0].reply_on, ReplyOn::Never);
    let none = call_contract(&env(), &info("admin", vec![]), "other".to_string(), true);
    assert!(matches!(none, Err(ContractError::PaymentError(PaymentFailure::NoFunds))));
}

#[test]
fn ownership_update_is_nonpayable() {
    let mut state = instantiated(Some(1));
    let action = cw_ownable::Action::AcceptOwnership;
    let r = run(&mut state, "alice", vec![coin(1, "uom")], ExecuteMsg::UpdateOwnership(action));
    assert!(matches!(r, Err(ContractError::PaymentError(PaymentFailure::NonPayable))));
    let action = cw_ownable::Action::RenounceOwnership;
    let r = run(&mut state, "admin", vec![], ExecuteMsg::UpdateOwnership(action)).unwrap();
    assert!(matches!(r, Effect::UpdateOwnership(cw_ownable::Action::RenounceOwnership)));
    assert!(matches!(query(&state, QueryMsg::Ownership {}), Ok(QueryAnswer::Ownership)));
}

#[test]
fn migrate_checks_recorded_version() {
    let ok = migrate(Some(&"1.2.3".to_string()), MigrateMsg {}).unwrap();
    assert!(ok.attributes.is_empty() && ok.messages.is_empty());
    assert!(matches!(migrate(Some(&"1.x".to_string()), MigrateMsg {}), Err(ContractError::SemVer(_))));
    assert!(migrate(None, MigrateMsg {}).is_ok());
}
