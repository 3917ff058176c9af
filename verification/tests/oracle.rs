use luna_swap::error::{ContractError, StdError};
use luna_swap::oracle::{
    execute, execute_update_price, instantiate, query, query_oracle_info, ExecuteMsg,
    InstantiateMsg, QueryMsg, State, Store, CONTRACT_NAME,
};
use luna_swap::types::{Coin, Env, MessageInfo, PriceResponse};

fn mock_env() -> Env {
    Env { contract_address: "cosmos2contract".to_string() }
}

fn mock_info(sender: &str, funds: Vec<Coin>) -> MessageInfo {
    MessageInfo { sender: sender.to_string(), funds }
}

#[test]
fn oracle_proper_initialization() {
    let mut deps = Store::empty();

    let msg = InstantiateMsg { price: 17 };
    let info = mock_info("creator", vec![Coin::new(1000, "earth")]);

    let res = instantiate(&mut deps, "0.1.0", &mock_env(), info, msg).unwrap();
    assert_eq!(0, res.messages.len());

    let res = query_oracle_info(&deps).unwrap();
    assert_eq!(res, PriceResponse { price: 17 });
}

#[test]
fn update_price() {
    let mut deps = Store::empty();

    let msg = InstantiateMsg { price: 17 };
    let info = mock_info("creator", vec![Coin::new(1000, "earth")]);
    let res = instantiate(&mut deps, "0.1.0", &mock_env(), info, msg).unwrap();
    assert_eq!(0, res.messages.len());

    let res = query_oracle_info(&deps).unwrap();
    assert_eq!(res, PriceResponse { price: 17 });

    let msg = ExecuteMsg::UpdatePrice { price: 19 };
    let info = mock_info("creator", vec![Coin::new(1000, "earth")]);
    let _res = execute(&mut deps, &mock_env(), &info, msg).unwrap();

    let res2 = query_oracle_info(&deps).unwrap();
    assert_eq!(res2, PriceResponse { price: 19 });
}

#[test]
fn instantiate_records_version_and_owner() {
    let mut deps = Store::empty();
    let info = mock_info("creator", vec![]);
    instantiate(&mut deps, "0.2.3", &mock_env(), info, InstantiateMsg { price: 5 }).unwrap();
    let version = deps.version.clone().unwrap();
    assert_eq!(version.contract, CONTRACT_NAME);
    assert_eq!(version.contract, "crates.io:oracle");
    assert_eq!(version.version, "0.2.3");
    assert_eq!(deps.state, Some(State { price: 5, owner: "creator".to_string() }));
}

#[test]
fn update_response_carries_method_attribute() {
    let mut deps = Store::empty();
    instantiate(&mut deps, "0.1.0", &mock_env(), mock_info("creator", vec![]), InstantiateMsg { price: 1 })
        .unwrap();
    let res = execute_update_price(&mut deps, &mock_env(), &mock_info("creator", vec![]), 2).unwrap();
    assert_eq!(res.messages.len(), 0);
    assert_eq!(res.attributes.len(), 1);
    assert_eq!(res.attributes[0].key, "method");
    assert_eq!(res.attributes[0].value, "execute_update_price");
}

#[test]
fn anyone_may_update_and_owner_stays() {
    let mut deps = Store::empty();
    instantiate(&mut deps, "0.1.0", &mock_env(), mock_info("creator", vec![]), InstantiateMsg { price: 1 })
        .unwrap();
    execute(&mut deps, &mock_env(), &mock_info("stranger", vec![]), ExecuteMsg::UpdatePrice { price: 42 })
        .unwrap();
    assert_eq!(deps.state, Some(State { price: 42, owner: "creator".to_string() }));
}

#[test]
fn last_update_wins() {
    let mut a = Store::empty();
    instantiate(&mut a, "0.1.0", &mock_env(), mock_info("creator", vec![]), InstantiateMsg { price: 1 }).unwrap();
    let mut b = a.clone();
    execute_update_price(&mut a, &mock_env(), &mock_info("x", vec![]), 7).unwrap();
    execute_update_price(&mut a, &mock_env(), &mock_info("x", vec![]), 9).unwrap();
    execute_update_price(&mut b, &mock_env(), &mock_info("x", vec![]), 9).unwrap();
    assert_eq!(a, b);
}

#[test]
fn update_with_same_price_keeps_store() {
    let mut a = Store::empty();
    instantiate(&mut a, "0.1.0", &mock_env(), mock_info("creator", vec![]), InstantiateMsg { price: 8 }).unwrap();
    let before = a.clone();
    execute_update_price(&mut a, &mock_env(), &mock_info("x", vec![]), 8).unwrap();
    assert_eq!(a, before);
}

#[test]
fn uninstantiated_oracle_refuses_update_and_query() {
    let mut deps = Store::empty();
    let err = execute_update_price(&mut deps, &mock_env(), &mock_info("x", vec![]), 3).unwrap_err();
    assert_eq!(
        err,
        ContractError::Std(StdError::NotFound { kind: "oracle::state::State".to_string() })
    );
    assert_eq!(deps, Store::empty());
    let err = query_oracle_info(&deps).unwrap_err();
    assert_eq!(err, StdError::NotFound { kind: "oracle::state::State".to_string() });
    let err = query(&deps, &mock_env(), QueryMsg::QueryPrice).unwrap_err();
    assert_eq!(err, StdError::NotFound { kind: "oracle::state::State".to_string() });
}

#[test]
fn query_dispatches_to_price() {
    let mut deps = Store::empty();
    instantiate(&mut deps, "0.1.0", &mock_env(), mock_info("c", vec![]), InstantiateMsg { price: 31 }).unwrap();
    assert_eq!(query(&deps, &mock_env(), QueryMsg::QueryPrice), Ok(PriceResponse { price: 31 }));
}

#[test]
fn instantiate_replaces_previous_state() {
    let mut deps = Store::empty();
    instantiate(&mut deps, "0.1.0", &mock_env(), mock_info("a", vec![]), InstantiateMsg { price: 3 }).unwrap();
    instantiate(&mut deps, "0.1.1", &mock_env(), mock_info("b", vec![]), InstantiateMsg { price: 4 }).unwrap();
    assert_eq!(deps.state, Some(State { price: 4, owner: "b".to_string() }));
    assert_eq!(deps.version.unwrap().version, "0.1.1");
}

#[test]
fn query_answers_last_of_many_updates() {
    let mut deps = Store::empty();
    instantiate(&mut deps, "0.1.0", &mock_env(), mock_info("creator", vec![]), InstantiateMsg { price: 17 }).unwrap();
    let version = deps.version.clone();
    for (i, p) in [3u64, 0, 99, 42, 7].iter().enumerate() {
        let sender = format!("sender{}", i);
        execute(&mut deps, &mock_env(), &mock_info(&sender, vec![]), ExecuteMsg::UpdatePrice { price: *p }).unwrap();
    }
    assert_eq!(query_oracle_info(&deps), Ok(PriceResponse { price: 7 }));
    assert_eq!(deps.state.unwrap().owner, "creator");
    assert_eq!(deps.version, version);
}
