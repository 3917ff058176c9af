//! The staking shop: it sells tokens for luna at the oracle's price and
//! delegates the luna it takes in to one validator; in steps it collects the
//! staking rewards, swaps them to luna and pays luna out, and it can undo
//! its delegations.

use vstd::prelude::*;
use crate::error::{ContractError, StdError};
use crate::msgs::{
    balance_request, delegations_request, is_balance_request, is_delegations_request, is_payment,
    is_price_request, is_token_transfer, payment, price_request, token_transfer,
};
use crate::outside::{checked_div, must_pay, must_pay_outcome};
use crate::swap::{tokens_for, ORACLE_ADDR, TOKEN_ADDR};
use crate::types::{
    Coin, ContractVersion, CosmosMsg, Delegation, DistributionMsg, Env, MessageInfo, PriceResponse,
    is_plain, QueryRequest, ReplyOn, Response, StakingMsg, SubMsg, TerraMsg, TerraMsgWrapper, TerraRoute, LUNA, USD,
};

verus! {

/// The name the shop records as its own at instantiation.
pub const CONTRACT_NAME: &'static str = "crates.io:swap2";

/// The validator the shop delegates to and undelegates from.
pub const VALIDATOR: &'static str = "terravaloper1ze5dxzs4zcm60tg48m9unp8eh7maerma38dl84";

/// The oracle the shop asks for the price of a token.
pub const PRICE_ORACLE: &'static str = ORACLE_ADDR;

/// The shop's storage: the contract version record, absent until the
/// contract is instantiated.
#[derive(Debug, Clone, PartialEq, Eq)]
pub struct Store {
    pub version: Option<ContractVersion>,
}

impl Store {
    /// Storage of a contract that has not been instantiated.
    pub fn empty() -> (s: Store)
        ensures
            s.version is None,
    {
        Store { version: None }
    }
}

#[derive(Debug, Clone, PartialEq, Eq)]
pub struct InstantiateMsg {
    pub token_address: String,
}

#[derive(Debug, Clone, Copy, PartialEq, Eq)]
pub enum ExecuteMsg {
    Buy,
    Withdraw { amount: u64 },
    WithdrawStep2ConvertRewardsToLuna { amount: u64 },
    WithdrawStep3SendLuna { amount: u64 },
    StartUndelegation { amount: u128 },
}

/// The shop's query message; its `QueryPrice` form is also what the shop
/// sends to the oracle.
#[derive(Debug, Clone, Copy, PartialEq, Eq)]
pub enum QueryMsg {
    QueryPrice,
    QueryTokenAddress,
}

/// What the chain answered to the queries a message needs: the oracle's
/// price (for `Buy`), the shop's own uusd balance (for the second
/// withdrawal step) and the shop's delegations (for the first withdrawal
/// step and for undelegation). An answer a message does not need is not read.
#[derive(Debug, PartialEq, Eq)]
pub struct Answers {
    pub oracle_price: Result<PriceResponse, StdError>,
    pub usd_balance: Result<u128, StdError>,
    pub delegations: Result<Vec<Delegation>, StdError>,
}

/// The chain queries a message needs before it can be decided.
#[derive(Debug, Clone, PartialEq, Eq)]
pub struct Queries {
    pub oracle_price: Option<QueryRequest>,
    pub usd_balance: Option<QueryRequest>,
    pub delegations: Option<QueryRequest>,
}

/// The queries `msg` needs: for `Buy`, once the payment sent along has been
/// accepted, the price query to the oracle; for the second withdrawal step,
/// the query for the shop's own uusd balance; for the first withdrawal step
/// and for undelegation, the query for the shop's own delegations; nothing
/// else.
pub fn queries_needed(env: &Env, info: &MessageInfo, msg: ExecuteMsg) -> (q: Queries)
    ensures
        match q.oracle_price {
            Some(r) => msg is Buy && must_pay_outcome(info.funds@, LUNA@) is Ok && is_price_request(r, PRICE_ORACLE@),
            None => !(msg is Buy && must_pay_outcome(info.funds@, LUNA@) is Ok),
        },
        match q.usd_balance {
            Some(r) => msg is WithdrawStep2ConvertRewardsToLuna && is_balance_request(r, env.contract_address@, USD@),
            None => !(msg is WithdrawStep2ConvertRewardsToLuna),
        },
        match q.delegations {
            Some(r) => (msg is Withdraw || msg is StartUndelegation) && is_delegations_request(r, env.contract_address@),
            None => !(msg is Withdraw || msg is StartUndelegation),
        },
{
    match msg {
        ExecuteMsg::Buy => {
            let price = match must_pay(info, LUNA) {
                Ok(_) => Some(price_request(PRICE_ORACLE)),
                Err(_) => None,
            };
            Queries { oracle_price: price, usd_balance: None, delegations: None }
        },
        ExecuteMsg::Withdraw { .. } | ExecuteMsg::StartUndelegation { .. } => Queries {
            oracle_price: None,
            usd_balance: None,
            delegations: Some(delegations_request(&env.contract_address)),
        },
        ExecuteMsg::WithdrawStep2ConvertRewardsToLuna { .. } => Queries {
            oracle_price: None,
            usd_balance: Some(balance_request(&env.contract_address, USD)),
            delegations: None,
        },
        ExecuteMsg::WithdrawStep3SendLuna { .. } => Queries { oracle_price: None, usd_balance: None, delegations: None },
    }
}

/// Records the contract version; whatever the store held is replaced. The
/// response carries no messages and no attributes.
pub fn instantiate(store: &mut Store, version: &str, _env: &Env, _info: &MessageInfo, _msg: InstantiateMsg) -> (r: Result<Response, ContractError>)
    ensures
        final(store).version matches Some(v) && v.contract@ == CONTRACT_NAME@ && v.version@ == version@,
        r matches Ok(resp) && resp.is_empty(),
{
    store.version = Some(ContractVersion { contract: CONTRACT_NAME.to_owned(), version: version.to_owned() });
    Ok(Response::new())
}

/// No query is implemented: every query is refused.
pub fn query(_store: &Store, _env: &Env, _msg: QueryMsg) -> (r: Result<Vec<u8>, StdError>)
    ensures
        r matches Err(StdError::GenericErr { msg }) && msg@ == "not implemented"@,
{
    Err(StdError::generic_err("not implemented"))
}

/// Accepted and does nothing.
pub fn migrate(_store: &Store, _env: &Env) -> (r: Result<Response, ContractError>)
    ensures
        r matches Ok(resp) && resp.is_empty(),
{
    Ok(Response::new())
}

/// Dispatches an executed message to its handler.
pub fn execute(env: &Env, info: &MessageInfo, msg: ExecuteMsg, answers: Answers) -> (r: Result<Response, ContractError>)
    ensures
        match msg {
            ExecuteMsg::Buy => buy_outcome(*info, answers.oracle_price, r),
            ExecuteMsg::Withdraw { .. } => r matches Ok(resp) && rewards_response(resp, answers.delegations),
            ExecuteMsg::WithdrawStep2ConvertRewardsToLuna { .. } => convert_outcome(answers.usd_balance, r),
            ExecuteMsg::WithdrawStep3SendLuna { amount } => r matches Ok(resp) && send_luna_response(resp, info.sender@, amount),
            ExecuteMsg::StartUndelegation { .. } => r matches Ok(resp) && undelegation_response(resp, answers.delegations),
        },
{
    match msg {
        ExecuteMsg::Buy => try_buy(env, info, answers.oracle_price),
        ExecuteMsg::Withdraw { amount } => try_withdraw_step1_collect_rewards(env, info, amount, answers.delegations),
        ExecuteMsg::WithdrawStep2ConvertRewardsToLuna { amount } => {
            try_withdraw_step2_convert_all_native_coins_to_luna(env, info, amount, answers.usd_balance)
        },
        ExecuteMsg::WithdrawStep3SendLuna { amount } => try_withdraw_step3_send_luna(env, info, amount),
        ExecuteMsg::StartUndelegation { amount } => try_start_undelegation(env, info, amount, answers.delegations),
    }
}

/// `s` delegates `amount` luna to the shop's validator.
pub open spec fn is_delegation_of(s: SubMsg, amount: u128) -> bool {
    &&& is_plain(s)
    &&& s.msg matches CosmosMsg::Staking(StakingMsg::Delegate { validator, amount: coin })
        && validator@ == VALIDATOR@
        && coin.denom@ == LUNA@
        && coin.amount == amount
}

/// What a purchase answers: the payment error (as a generic error with the
/// payment error's text) unless exactly one non-zero luna coin was sent;
/// else the oracle's error if its query failed; else the division error if
/// the price is zero; else the delegation of the whole payment to the
/// validator and the transfer of as many whole tokens as it pays for.
pub open spec fn buy_outcome(info: MessageInfo, price: Result<PriceResponse, StdError>, r: Result<Response, ContractError>) -> bool {
    match must_pay_outcome(info.funds@, LUNA@) {
        Err(text) => r matches Err(ContractError::Std(StdError::GenericErr { msg })) && msg@ == text,
        Ok(paid) => match price {
            Err(e) => r == Err::<Response, ContractError>(ContractError::Std(e)),
            Ok(p) => if p.price == 0 {
                r == Err::<Response, ContractError>(ContractError::DivisionError)
            } else {
                r matches Ok(resp)
                    && resp.messages@.len() == 2
                    && is_delegation_of(resp.messages@[0], paid)
                    && is_plain(resp.messages@[1])
                    && is_token_transfer(resp.messages@[1].msg, TOKEN_ADDR@, info.sender@, tokens_for(paid, p.price))
                    && resp.attributes@.len() == 0
            },
        },
    }
}

/// Sells tokens for the luna paid, at the oracle's price (`price` is the
/// oracle's answer to the shop's price query), and stakes the payment.
pub fn try_buy(_env: &Env, info: &MessageInfo, price: Result<PriceResponse, StdError>) -> (r: Result<Response, ContractError>)
    ensures
        buy_outcome(*info, price, r),
{
    let paid = match must_pay(info, LUNA) {
        Ok(a) => a,
        Err(text) => return Err(ContractError::Std(StdError::GenericErr { msg: text })),
    };
    let price = match price {
        Ok(p) => p.price,
        Err(e) => return Err(ContractError::Std(e)),
    };
    let tokens = match checked_div(paid, price as u128) {
        Some(n) => n,
        None => return Err(ContractError::DivisionError),
    };
    let delegate = StakingMsg::Delegate { validator: VALIDATOR.to_owned(), amount: Coin::new(paid, LUNA) };
    let transfer = token_transfer(TOKEN_ADDR, &info.sender, tokens);
    Ok(Response::new().add_submessage(SubMsg::new(CosmosMsg::Staking(delegate))).add_message(transfer))
}

/// The delegations a query answered, or none if it failed.
pub open spec fn listed(delegations: Result<Vec<Delegation>, StdError>) -> Seq<Delegation> {
    match delegations {
        Ok(ds) => ds@,
        Err(_) => Seq::empty(),
    }
}

/// The sub-message that withdraws the rewards of delegation `d`.
pub open spec fn reward_withdrawal(d: Delegation) -> SubMsg {
    SubMsg {
        id: 0,
        msg: CosmosMsg::Distribution(DistributionMsg::WithdrawDelegatorReward { validator: d.validator }),
        gas_limit: None,
        reply_on: ReplyOn::Never,
    }
}

/// One reward withdrawal for each delegation, in the order of the delegations.
pub open spec fn reward_withdrawals(ds: Seq<Delegation>) -> Seq<SubMsg> {
    Seq::new(ds.len(), |i: int| reward_withdrawal(ds[i]))
}

/// `resp` withdraws the rewards of every delegation listed, and nothing else.
pub open spec fn rewards_response(resp: Response, delegations: Result<Vec<Delegation>, StdError>) -> bool {
    &&& resp.messages@ == reward_withdrawals(listed(delegations))
    &&& resp.attributes@.len() == 0
}

/// First withdrawal step: withdraws the rewards of all the shop's
/// delegations (`delegations` is the chain's answer to the delegation query;
/// if it failed there is nothing to withdraw).
pub fn try_withdraw_step1_collect_rewards(env: &Env, _info: &MessageInfo, _amount: u64, delegations: Result<Vec<Delegation>, StdError>) -> (r: Result<Response, ContractError>)
    ensures
        r matches Ok(resp) && rewards_response(resp, delegations),
{
    let withdrawals = collect_all_rewards(env, delegations)?;
    let mut resp = Response::new();
    resp.messages = withdrawals;
    Ok(resp)
}

/// The reward withdrawals for all delegations listed: one per delegation
/// the query answered, in its order, whatever its validator.
pub fn collect_all_rewards(_env: &Env, delegations: Result<Vec<Delegation>, StdError>) -> (r: Result<Vec<SubMsg>, ContractError>)
    ensures
        r matches Ok(subs) && subs@ == reward_withdrawals(listed(delegations)),
        r matches Ok(subs) && (delegations matches Ok(ds) ==> subs@.len() == ds@.len()
            && forall|i: int| 0 <= i < ds@.len() ==> #[trigger] subs@[i] == (SubMsg {
                id: 0,
                msg: CosmosMsg::Distribution(DistributionMsg::WithdrawDelegatorReward { validator: ds@[i].validator }),
                gas_limit: None,
                reply_on: ReplyOn::Never,
            })),
        r matches Ok(subs) && (delegations is Err ==> subs@.len() == 0),
{
    let mut messages: Vec<SubMsg> = Vec::new();
    if let Ok(ds) = delegations {
        let mut i: usize = 0;
        while i < ds.len()
            invariant
                i <= ds@.len(),
                messages@.len() == i,
                forall|j: int| 0 <= j < i ==> messages@[j] == reward_withdrawal(#[trigger] ds@[j]),
            decreases ds@.len() - i,
        {
            let validator = ds[i].validator.clone();
            let msg = CosmosMsg::Distribution(DistributionMsg::WithdrawDelegatorReward { validator });
            messages.push(SubMsg::new(msg));
            i = i + 1;
        }
        assert(messages@ =~= reward_withdrawals(ds@));
    } else {
        assert(messages@ =~= reward_withdrawals(Seq::empty()));
    }
    Ok(messages)
}

/// `m` asks Terra's market to swap `offer` units of `offer_denom` for `ask_denom`.
pub open spec fn is_swap(m: CosmosMsg, offer_denom: Seq<char>, offer: u128, ask_denom: Seq<char>) -> bool {
    m matches CosmosMsg::Custom(TerraMsgWrapper { route, msg_data: TerraMsg::Swap { offer_coin, ask_denom: ask } })
        && route == TerraRoute::Market
        && offer_coin.denom@ == offer_denom
        && offer_coin.amount == offer
        && ask@ == ask_denom
}

/// The message that asks Terra's market to swap `offer_coin` for `ask_denom`.
pub fn create_swap_msg(offer_coin: Coin, ask_denom: String) -> (m: CosmosMsg)
    ensures
        m == CosmosMsg::Custom(TerraMsgWrapper {
            route: TerraRoute::Market,
            msg_data: TerraMsg::Swap { offer_coin, ask_denom },
        }),
{
    CosmosMsg::Custom(TerraMsgWrapper { route: TerraRoute::Market, msg_data: TerraMsg::Swap { offer_coin, ask_denom } })
}

/// What the second withdrawal step answers: the balance query's error if it
/// failed; else the swap of the whole uusd balance to luna.
pub open spec fn convert_outcome(balance: Result<u128, StdError>, r: Result<Response, ContractError>) -> bool {
    match balance {
        Err(e) => r == Err::<Response, ContractError>(ContractError::Std(e)),
        Ok(b) => r matches Ok(resp)
            && resp.messages@.len() == 1
            && is_plain(resp.messages@[0])
            && is_swap(resp.messages@[0].msg, USD@, b, LUNA@)
            && resp.attributes@.len() == 0,
    }
}

/// Second withdrawal step: swaps the shop's whole uusd balance (`balance`,
/// the chain's answer to the balance query) to luna.
pub fn try_withdraw_step2_convert_all_native_coins_to_luna(_env: &Env, _info: &MessageInfo, _amount: u64, balance: Result<u128, StdError>) -> (r: Result<Response, ContractError>)
    ensures
        convert_outcome(balance, r),
{
    let balance = match balance {
        Ok(b) => b,
        Err(e) => return Err(ContractError::Std(e)),
    };
    let swap = create_swap_msg(Coin::new(balance, USD), LUNA.to_owned());
    Ok(Response::new().add_message(swap))
}

/// `resp` pays `amount` luna to `to`, and nothing else.
pub open spec fn send_luna_response(resp: Response, to: Seq<char>, amount: u64) -> bool {
    &&& resp.messages@.len() == 1
    &&& is_plain(resp.messages@[0])
    &&& is_payment(resp.messages@[0].msg, to, LUNA@, amount as u128)
    &&& resp.attributes@.len() == 0
}

/// Third withdrawal step: pays `amount` luna to the sender, whoever it is.
pub fn try_withdraw_step3_send_luna(_env: &Env, info: &MessageInfo, amount: u64) -> (r: Result<Response, ContractError>)
    ensures
        r matches Ok(resp) && send_luna_response(resp, info.sender@, amount),
{
    let send = payment(info.sender.clone(), LUNA, amount as u128);
    Ok(Response::new().add_message(send))
}

/// `s` undelegates from the shop's validator as much luna as delegation `d` holds.
pub open spec fn is_undelegation_of(s: SubMsg, d: Delegation) -> bool {
    &&& is_plain(s)
    &&& s.msg matches CosmosMsg::Staking(StakingMsg::Undelegate { validator, amount: coin })
        && validator@ == VALIDATOR@
        && coin.denom@ == LUNA@
        && coin.amount == d.amount.amount
}

/// `resp` undelegates, for each delegation listed and in their order, as
/// much luna as it holds, and does nothing else.
pub open spec fn undelegation_response(resp: Response, delegations: Result<Vec<Delegation>, StdError>) -> bool {
    let ds = listed(delegations);
    &&& resp.messages@.len() == ds.len()
    &&& forall|i: int| 0 <= i < ds.len() ==> is_undelegation_of(#[trigger] resp.messages@[i], ds[i])
    &&& resp.attributes@.len() == 0
}

/// Undelegates from the shop's validator, for each of the shop's
/// delegations (`delegations`, the chain's answer to the delegation query;
/// if it failed there is nothing to undelegate), the amount it holds.
pub fn try_start_undelegation(_env: &Env, _info: &MessageInfo, _amount: u128, delegations: Result<Vec<Delegation>, StdError>) -> (r: Result<Response, ContractError>)
    ensures
        r matches Ok(resp) && undelegation_response(resp, delegations),
        r matches Ok(resp) && (delegations matches Ok(ds) ==> resp.messages@.len() == ds@.len()
            && forall|i: int| 0 <= i < ds@.len() ==> ((#[trigger] resp.messages@[i]).id == 0
                && resp.messages@[i].gas_limit is None
                && resp.messages@[i].reply_on == ReplyOn::Never
                && (resp.messages@[i].msg matches CosmosMsg::Staking(StakingMsg::Undelegate { validator, amount })
                && validator@ == VALIDATOR@
                && amount.denom@ == LUNA@
                && amount.amount == ds@[i].amount.amount))),
        r matches Ok(resp) && (delegations is Err ==> resp.messages@.len() == 0),
        r matches Ok(resp) && resp.attributes@.len() == 0,
{
    let ghost listed_ds = listed(delegations);
    let mut messages: Vec<SubMsg> = Vec::new();
    if let Ok(ds) = delegations {
        let mut i: usize = 0;
        while i < ds.len()
            invariant
                i <= ds@.len(),
                ds@ == listed_ds,
                messages@.len() == i,
                forall|j: int| 0 <= j < i ==> is_undelegation_of(#[trigger] messages@[j], ds@[j]),
            decreases ds@.len() - i,
        {
            let undelegate = StakingMsg::Undelegate {
                validator: VALIDATOR.to_owned(),
                amount: Coin::new(ds[i].amount.amount, LUNA),
            };
            messages.push(SubMsg::new(CosmosMsg::Staking(undelegate)));
            i = i + 1;
        }
    }
    let mut resp = Response::new();
    resp.messages = messages;
    proof {
        if delegations is Ok {
            lemma_undelegations_explicit(resp, delegations->Ok_0);
        }
    }
    Ok(resp)
}

/// The luna the delegations in `ds` hold, added up.
pub open spec fn total_delegated(ds: Seq<Delegation>) -> int
    decreases ds.len(),
{
    if ds.len() == 0 {
        0
    } else {
        total_delegated(ds.drop_last()) + ds.last().amount.amount
    }
}

/// The amount a sub-message undelegates: its coin's amount if it is an
/// undelegation, else zero.
pub open spec fn undelegated_by(s: SubMsg) -> int {
    match s.msg {
        CosmosMsg::Staking(StakingMsg::Undelegate { amount, .. }) => amount.amount as int,
        _ => 0,
    }
}

/// The amounts the sub-messages in `subs` undelegate, added up.
pub open spec fn total_undelegated(subs: Seq<SubMsg>) -> int
    decreases subs.len(),
{
    if subs.len() == 0 {
        0
    } else {
        total_undelegated(subs.drop_last()) + undelegated_by(subs.last())
    }
}

proof fn lemma_totals_match(subs: Seq<SubMsg>, ds: Seq<Delegation>)
    requires
        subs.len() == ds.len(),
        forall|i: int| 0 <= i < ds.len() ==> is_undelegation_of(#[trigger] subs[i], ds[i]),
    ensures
        total_undelegated(subs) == total_delegated(ds),
    decreases ds.len(),
{
    if ds.len() > 0 {
        let n = ds.len() - 1;
        assert(is_undelegation_of(subs[n], ds[n]));
        assert forall|i: int| 0 <= i < n implies is_undelegation_of(#[trigger] subs.drop_last()[i], ds.drop_last()[i]) by {
            assert(is_undelegation_of(subs[i], ds[i]));
        }
        lemma_totals_match(subs.drop_last(), ds.drop_last());
    }
}

/// Undelegation unwinds the whole stake: the luna its response undelegates
/// adds up to the luna the listed delegations hold.
pub proof fn lemma_undelegation_takes_all(resp: Response, delegations: Result<Vec<Delegation>, StdError>)
    requires
        undelegation_response(resp, delegations),
    ensures
        total_undelegated(resp.messages@) == total_delegated(listed(delegations)),
{
    lemma_totals_match(resp.messages@, listed(delegations));
}

/// A purchase stakes exactly what was paid: the one sub-message of a
/// successful purchase delegates all the luna of the single coin sent.
pub proof fn lemma_buy_stakes_payment(info: MessageInfo, price: Result<PriceResponse, StdError>, r: Result<Response, ContractError>)
    requires
        buy_outcome(info, price, r),
        r is Ok,
    ensures
        info.funds@.len() == 1,
        info.funds@[0].denom@ == LUNA@,
        is_delegation_of(r->Ok_0.messages@[0], info.funds@[0].amount),
{
}

/// Collecting rewards drops no delegation: for the delegations a query
/// answered, the response holds one reward withdrawal per delegation, in
/// their order, each a sub-message without reply that withdraws from that
/// delegation's validator, whatever the validator is; and nothing else.
pub proof fn lemma_rewards_one_per_delegation(resp: Response, ds: Vec<Delegation>)
    requires
        rewards_response(resp, Ok(ds)),
    ensures
        resp.messages@.len() == ds@.len(),
        forall|i: int| 0 <= i < ds@.len() ==> #[trigger] resp.messages@[i] == (SubMsg {
            id: 0,
            msg: CosmosMsg::Distribution(DistributionMsg::WithdrawDelegatorReward { validator: ds@[i].validator }),
            gas_limit: None,
            reply_on: ReplyOn::Never,
        }),
        resp.attributes@.len() == 0,
{
    assert forall|i: int| 0 <= i < ds@.len() implies #[trigger] resp.messages@[i] == (SubMsg {
        id: 0,
        msg: CosmosMsg::Distribution(DistributionMsg::WithdrawDelegatorReward { validator: ds@[i].validator }),
        gas_limit: None,
        reply_on: ReplyOn::Never,
    }) by {
        assert(resp.messages@[i] == reward_withdrawals(ds@)[i]);
    }
}

/// Undelegation drops no delegation: for the delegations a query answered,
/// the response holds one undelegation per delegation, in their order, each
/// a sub-message without reply that undelegates from the shop's validator
/// as much luna as that delegation holds; and nothing else.
pub proof fn lemma_undelegations_explicit(resp: Response, ds: Vec<Delegation>)
    requires
        undelegation_response(resp, Ok(ds)),
    ensures
        resp.messages@.len() == ds@.len(),
        forall|i: int| 0 <= i < ds@.len() ==> ((#[trigger] resp.messages@[i]).id == 0
            && resp.messages@[i].gas_limit is None
            && resp.messages@[i].reply_on == ReplyOn::Never
            && (resp.messages@[i].msg matches CosmosMsg::Staking(StakingMsg::Undelegate { validator, amount })
            && validator@ == VALIDATOR@
            && amount.denom@ == LUNA@
            && amount.amount == ds@[i].amount.amount)),
        resp.attributes@.len() == 0,
{
    assert forall|i: int| 0 <= i < ds@.len() implies ((#[trigger] resp.messages@[i]).id == 0
        && resp.messages@[i].gas_limit is None
        && resp.messages@[i].reply_on == ReplyOn::Never
        && (resp.messages@[i].msg matches CosmosMsg::Staking(StakingMsg::Undelegate { validator, amount })
        && validator@ == VALIDATOR@
        && amount.denom@ == LUNA@
        && amount.amount == ds@[i].amount.amount)) by {
        assert(is_undelegation_of(resp.messages@[i], listed(Ok::<Vec<Delegation>, StdError>(ds))[i]));
    }
}

/// Undelegation unwinds the whole stake the query answered: the luna the
/// response undelegates adds up to the luna of all the delegations answered.
pub proof fn lemma_undelegation_takes_all_answered(resp: Response, ds: Vec<Delegation>)
    requires
        undelegation_response(resp, Ok(ds)),
    ensures
        total_undelegated(resp.messages@) == total_delegated(ds@),
{
    lemma_undelegations_explicit(resp, ds);
    assert forall|i: int| 0 <= i < ds@.len() implies is_undelegation_of(#[trigger] resp.messages@[i], ds@[i]) by {}
    lemma_totals_match(resp.messages@, ds@);
}

} // verus!
