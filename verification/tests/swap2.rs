use luna_swap::error::{ContractError, StdError};
use luna_swap::swap2::{
    collect_all_rewards, create_swap_msg, execute, instantiate, migrate, query, try_buy,
    try_start_undelegation, try_withdraw_step1_collect_rewards,
    try_withdraw_step2_convert_all_native_coins_to_luna, try_withdraw_step3_send_luna, Answers,
    ExecuteMsg, InstantiateMsg, QueryMsg, Queries, Store, VALIDATOR, queries_needed,
};
use luna_swap::swap::TOKEN_ADDR;
use luna_swap::types::{
    BankMsg, Coin, CosmosMsg, Delegation, DistributionMsg, Env, MessageInfo, PriceResponse, ReplyOn,
    OracleQuery, QueryRequest, StakingMsg, SubMsg, TerraMsg, TerraMsgWrapper, TerraRoute, WasmMsg,
};

fn mock_env() -> Env {
    Env { contract_address: "cosmos2contract".to_string() }
}

fn mock_info(sender: &str, funds: Vec<Coin>) -> MessageInfo {
    MessageInfo { sender: sender.to_string(), funds }
}

fn transfer_json(recipient: &str, amount: u128) -> Vec<u8> {
    format!("{{\"transfer\":{{\"recipient\":\"{}\",\"amount\":\"{}\"}}}}", recipient, amount).into_bytes()
}

fn delegation(validator: &str, amount: u128) -> Delegation {
    Delegation {
        delegator: "cosmos2contract".to_string(),
        validator: validator.to_string(),
        amount: Coin::new(amount, "uluna"),
    }
}

fn plain(msg: CosmosMsg) -> SubMsg {
    SubMsg { id: 0, msg, gas_limit: None, reply_on: ReplyOn::Never }
}

#[test]
fn contract_proper_initialization() {
    let mut deps = Store::empty();
    let msg = InstantiateMsg { token_address: "terra1hpajld8zs93md8zrs6sfy42zl0khqpmr07muw0".to_string() };
    let info = mock_info("creator", vec![Coin::new(10000000000, "uluna")]);

    let res = instantiate(&mut deps, "0.1.0", &mock_env(), &info, msg).unwrap();
    assert_eq!(0, res.messages.len());

    let res = query(&deps, &mock_env(), QueryMsg::QueryTokenAddress);
    assert_eq!(res, Err(StdError::GenericErr { msg: "not implemented".to_string() }));
}

#[test]
fn instantiate_records_version_and_answers_empty() {
    let mut deps = Store::empty();
    let msg = InstantiateMsg { token_address: "t".to_string() };
    let res = instantiate(&mut deps, "1.2.3", &mock_env(), &mock_info("creator", vec![]), msg).unwrap();
    assert_eq!(res.messages.len(), 0);
    assert_eq!(res.attributes.len(), 0);
    let v = deps.version.unwrap();
    assert_eq!(v.contract, "crates.io:swap2");
    assert_eq!(v.version, "1.2.3");
}

#[test]
fn buy_stakes_payment_and_transfers_tokens() {
    let info = mock_info("buyer", vec![Coin::new(1000, "uluna")]);
    let res = try_buy(&mock_env(), &info, Ok(PriceResponse { price: 30 })).unwrap();
    assert_eq!(
        res.messages,
        vec![
            plain(CosmosMsg::Staking(StakingMsg::Delegate {
                validator: "terravaloper1ze5dxzs4zcm60tg48m9unp8eh7maerma38dl84".to_string(),
                amount: Coin::new(1000, "uluna"),
            })),
            plain(CosmosMsg::Wasm(WasmMsg::Execute {
                contract_addr: TOKEN_ADDR.to_string(),
                msg: transfer_json("buyer", 33),
                funds: vec![],
            })),
        ]
    );
    assert_eq!(res.attributes.len(), 0);
}

#[test]
fn buy_payment_errors() {
    let price = || Ok(PriceResponse { price: 1 });
    let generic = |m: &str| ContractError::Std(StdError::GenericErr { msg: m.to_string() });

    let err = try_buy(&mock_env(), &mock_info("b", vec![]), price()).unwrap_err();
    assert_eq!(err, generic("No funds sent"));

    let err = try_buy(&mock_env(), &mock_info("b", vec![Coin::new(0, "uluna")]), price()).unwrap_err();
    assert_eq!(err, generic("No funds sent"));

    let two = vec![Coin::new(5, "uluna"), Coin::new(5, "uusd")];
    let err = try_buy(&mock_env(), &mock_info("b", two), price()).unwrap_err();
    assert_eq!(err, generic("Sent more than one denomination"));

    let err = try_buy(&mock_env(), &mock_info("b", vec![Coin::new(5, "uusd")]), price()).unwrap_err();
    assert_eq!(err, generic("Must send reserve token 'uluna'"));
}

#[test]
fn buy_payment_checked_before_price() {
    let e = StdError::GenericErr { msg: "oracle down".to_string() };
    let err = try_buy(&mock_env(), &mock_info("b", vec![]), Err(e.clone())).unwrap_err();
    assert_eq!(err, ContractError::Std(StdError::GenericErr { msg: "No funds sent".to_string() }));
    let err = try_buy(&mock_env(), &mock_info("b", vec![Coin::new(9, "uluna")]), Err(e.clone())).unwrap_err();
    assert_eq!(err, ContractError::Std(e));
}

#[test]
fn staking_buy_at_zero_price_is_division_error() {
    let err = try_buy(&mock_env(), &mock_info("b", vec![Coin::new(9, "uluna")]), Ok(PriceResponse { price: 0 }))
        .unwrap_err();
    assert_eq!(err, ContractError::DivisionError);
}

#[test]
fn collect_rewards_one_per_delegation() {
    let ds = vec![delegation("val-a", 10), delegation("val-b", 20), delegation("val-a", 5)];
    let subs = collect_all_rewards(&mock_env(), Ok(ds.clone())).unwrap();
    let expected: Vec<SubMsg> = ["val-a", "val-b", "val-a"]
        .iter()
        .map(|v| plain(CosmosMsg::Distribution(DistributionMsg::WithdrawDelegatorReward { validator: v.to_string() })))
        .collect();
    assert_eq!(subs, expected);
    let res = try_withdraw_step1_collect_rewards(&mock_env(), &mock_info("x", vec![]), 0, Ok(ds)).unwrap();
    assert_eq!(res.messages, expected);
    assert_eq!(res.attributes.len(), 0);
}

#[test]
fn collect_rewards_on_failed_query_is_empty() {
    let e = StdError::GenericErr { msg: "no".to_string() };
    assert_eq!(collect_all_rewards(&mock_env(), Err(e.clone())).unwrap(), vec![]);
    let res = try_withdraw_step1_collect_rewards(&mock_env(), &mock_info("x", vec![]), 0, Err(e)).unwrap();
    assert_eq!(res.messages.len() + res.attributes.len(), 0);
}

#[test]
fn convert_swaps_whole_usd_balance() {
    let res = try_withdraw_step2_convert_all_native_coins_to_luna(&mock_env(), &mock_info("x", vec![]), 0, Ok(4321))
        .unwrap();
    assert_eq!(
        res.messages,
        vec![plain(CosmosMsg::Custom(TerraMsgWrapper {
            route: TerraRoute::Market,
            msg_data: TerraMsg::Swap { offer_coin: Coin::new(4321, "uusd"), ask_denom: "uluna".to_string() },
        }))]
    );
    assert_eq!(res.messages[0].msg, create_swap_msg(Coin::new(4321, "uusd"), "uluna".to_string()));
    let e = StdError::GenericErr { msg: "bal".to_string() };
    let err = try_withdraw_step2_convert_all_native_coins_to_luna(&mock_env(), &mock_info("x", vec![]), 0, Err(e.clone()))
        .unwrap_err();
    assert_eq!(err, ContractError::Std(e));
}

#[test]
fn send_luna_pays_sender() {
    let res = try_withdraw_step3_send_luna(&mock_env(), &mock_info("anyone", vec![]), 777).unwrap();
    assert_eq!(
        res.messages,
        vec![plain(CosmosMsg::Bank(BankMsg::Send { to_address: "anyone".to_string(), amount: vec![Coin::new(777, "uluna")] }))]
    );
}

#[test]
fn undelegation_unwinds_every_delegation() {
    let ds = vec![delegation("val-a", 10), delegation("val-b", 20), delegation("val-c", 5)];
    let res = try_start_undelegation(&mock_env(), &mock_info("x", vec![]), 1, Ok(ds)).unwrap();
    let expected: Vec<SubMsg> = [10u128, 20, 5]
        .iter()
        .map(|a| plain(CosmosMsg::Staking(StakingMsg::Undelegate {
            validator: VALIDATOR.to_string(),
            amount: Coin::new(*a, "uluna"),
        })))
        .collect();
    assert_eq!(res.messages, expected);
    let total: u128 = res
        .messages
        .iter()
        .map(|s| match &s.msg {
            CosmosMsg::Staking(StakingMsg::Undelegate { amount, .. }) => amount.amount,
            _ => 0,
        })
        .sum();
    assert_eq!(total, 35);
    let e = StdError::GenericErr { msg: "no".to_string() };
    let res = try_start_undelegation(&mock_env(), &mock_info("x", vec![]), 1, Err(e)).unwrap();
    assert_eq!(res.messages.len(), 0);
}

#[test]
fn execute_dispatches_each_message() {
    let info = mock_info("buyer", vec![Coin::new(100, "uluna")]);
    let answers = || Answers {
        oracle_price: Ok(PriceResponse { price: 10 }),
        usd_balance: Ok(55),
        delegations: Ok(vec![delegation("v", 9)]),
    };
    let env = mock_env();
    assert_eq!(
        execute(&env, &info, ExecuteMsg::Buy, answers()),
        try_buy(&env, &info, Ok(PriceResponse { price: 10 }))
    );
    assert_eq!(
        execute(&env, &info, ExecuteMsg::Withdraw { amount: 1 }, answers()),
        try_withdraw_step1_collect_rewards(&env, &info, 1, Ok(vec![delegation("v", 9)]))
    );
    assert_eq!(
        execute(&env, &info, ExecuteMsg::WithdrawStep2ConvertRewardsToLuna { amount: 1 }, answers()),
        try_withdraw_step2_convert_all_native_coins_to_luna(&env, &info, 1, Ok(55))
    );
    assert_eq!(
        execute(&env, &info, ExecuteMsg::WithdrawStep3SendLuna { amount: 12 }, answers()),
        try_withdraw_step3_send_luna(&env, &info, 12)
    );
    assert_eq!(
        execute(&env, &info, ExecuteMsg::StartUndelegation { amount: 1 }, answers()),
        try_start_undelegation(&env, &info, 1, Ok(vec![delegation("v", 9)]))
    );
}

#[test]
fn staking_migrate_is_empty() {
    let res = migrate(&Store::empty(), &mock_env()).unwrap();
    assert_eq!(res.messages.len() + res.attributes.len(), 0);
}

#[test]
fn queries_follow_the_message() {
    let env = mock_env();
    let paying = mock_info("b", vec![Coin::new(5, "uluna")]);
    let not_paying = mock_info("b", vec![]);
    let price = QueryRequest::WasmSmart {
        contract_addr: "terra1w7qj7e0nd9wexuz4p2v69cwnt9nh5u76pqh4zw".to_string(),
        msg: OracleQuery::QueryPrice,
    };
    let usd = QueryRequest::Balance { address: "cosmos2contract".to_string(), denom: "uusd".to_string() };
    let delegations = QueryRequest::AllDelegations { delegator: "cosmos2contract".to_string() };
    let none = Queries { oracle_price: None, usd_balance: None, delegations: None };
    assert_eq!(
        queries_needed(&env, &paying, ExecuteMsg::Buy),
        Queries { oracle_price: Some(price), usd_balance: None, delegations: None }
    );
    assert_eq!(queries_needed(&env, &not_paying, ExecuteMsg::Buy), none);
    assert_eq!(
        queries_needed(&env, &paying, ExecuteMsg::Withdraw { amount: 0 }),
        Queries { oracle_price: None, usd_balance: None, delegations: Some(delegations.clone()) }
    );
    assert_eq!(
        queries_needed(&env, &paying, ExecuteMsg::WithdrawStep2ConvertRewardsToLuna { amount: 0 }),
        Queries { oracle_price: None, usd_balance: Some(usd), delegations: None }
    );
    assert_eq!(queries_needed(&env, &paying, ExecuteMsg::WithdrawStep3SendLuna { amount: 0 }), none);
    assert_eq!(
        queries_needed(&env, &paying, ExecuteMsg::StartUndelegation { amount: 0 }),
        Queries { oracle_price: None, usd_balance: None, delegations: Some(delegations) }
    );
}
