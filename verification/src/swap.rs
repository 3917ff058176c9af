//! The token shop: it sells tokens of a fixed token contract for luna, at
//! the price the oracle quotes, and pays its luna out to its owner.

use vstd::prelude::*;
use crate::error::{ContractError, StdError};
use crate::msgs::{
    balance_request, is_balance_request, is_payment, is_price_request, is_token_transfer, payment,
    price_request, token_transfer,
};
use crate::outside::checked_div;
use crate::types::{
    find_amount, first_amount_of, is_plain, lemma_first_amount_absent, lemma_first_amount_is_first_match, ContractVersion, Env, MessageInfo, PriceResponse, QueryRequest,
    Response, LUNA,
};

verus! {

/// The name the shop records as its own at instantiation.
pub const CONTRACT_NAME: &'static str = "crates.io:swap";

/// The type name a missing shop state is reported under.
pub const STATE_KIND: &'static str = "swap::state::State";

/// The oracle the shop asks for the price of a token.
pub const ORACLE_ADDR: &'static str = "terra1w7qj7e0nd9wexuz4p2v69cwnt9nh5u76pqh4zw";

/// The token contract whose tokens the shop sells.
pub const TOKEN_ADDR: &'static str = "terra18lmfqfdupmlpfktxc8vple3uf6yg6t00dguxzv";

/// The shop's stored state.
#[derive(Debug, Clone, PartialEq, Eq)]
pub struct State {
    pub token_address: String,
    pub owner: String,
}

/// The shop's storage: the contract version record and its state, each
/// absent until the contract is instantiated.
#[derive(Debug, Clone, PartialEq, Eq)]
pub struct Store {
    pub version: Option<ContractVersion>,
    pub state: Option<State>,
}

impl Store {
    /// Storage of a contract that has not been instantiated.
    pub fn empty() -> (s: Store)
        ensures
            s.version is None,
            s.state is None,
    {
        Store { version: None, state: None }
    }
}

#[derive(Debug, Clone, PartialEq, Eq)]
pub struct InstantiateMsg {
    pub token_address: String,
}

#[derive(Debug, Clone, Copy, PartialEq, Eq)]
pub enum ExecuteMsg {
    Buy,
    Withdraw,
    WithdrawSome { amount: u128 },
}

/// The shop's query message; its `QueryPrice` form is also what the shop
/// sends to the oracle.
#[derive(Debug, Clone, Copy, PartialEq, Eq)]
pub enum QueryMsg {
    QueryPrice,
}

/// What the chain answered to the queries a message needs: the oracle's
/// price (for `Buy`) and the shop's own luna balance (for `Withdraw`).
/// An answer a message does not need is not read.
#[derive(Debug, PartialEq, Eq)]
pub struct Answers {
    pub oracle_price: Result<PriceResponse, StdError>,
    pub luna_balance: Result<u128, StdError>,
}

/// The chain queries a message needs before it can be decided.
#[derive(Debug, Clone, PartialEq, Eq)]
pub struct Queries {
    pub oracle_price: Option<QueryRequest>,
    pub luna_balance: Option<QueryRequest>,
}

/// The queries `msg` needs: for `Buy`, the price query to the oracle; for
/// `Withdraw`, once the shop has a state to pay its owner from, the query
/// for its own luna balance; nothing else.
pub fn queries_needed(store: &Store, env: &Env, msg: ExecuteMsg) -> (q: Queries)
    ensures
        match q.oracle_price {
            Some(r) => msg is Buy && is_price_request(r, ORACLE_ADDR@),
            None => !(msg is Buy),
        },
        match q.luna_balance {
            Some(r) => msg is Withdraw && store.state is Some && is_balance_request(r, env.contract_address@, LUNA@),
            None => !(msg is Withdraw && store.state is Some),
        },
{
    match msg {
        ExecuteMsg::Buy => Queries { oracle_price: Some(price_request(ORACLE_ADDR)), luna_balance: None },
        ExecuteMsg::Withdraw => {
            let balance = if store.state.is_some() {
                Some(balance_request(&env.contract_address, LUNA))
            } else {
                None
            };
            Queries { oracle_price: None, luna_balance: balance }
        },
        ExecuteMsg::WithdrawSome { .. } => Queries { oracle_price: None, luna_balance: None },
    }
}

/// `after` is the store of a shop instantiated with `msg` by `info.sender`.
pub open spec fn instantiated(after: Store, version: Seq<char>, info: MessageInfo, msg: InstantiateMsg) -> bool {
    &&& after.version matches Some(v) && v.contract@ == CONTRACT_NAME@ && v.version@ == version
    &&& after.state == Some(State { token_address: msg.token_address, owner: info.sender })
}

/// Records the contract version and stores the token address, with the
/// sender as owner. Whatever the store held before is replaced.
pub fn instantiate(store: &mut Store, version: &str, _env: &Env, info: MessageInfo, msg: InstantiateMsg) -> (r: Result<Response, ContractError>)
    ensures
        instantiated(*final(store), version@, info, msg),
        r matches Ok(resp) && resp.is_empty(),
{
    store.version = Some(ContractVersion { contract: CONTRACT_NAME.to_owned(), version: version.to_owned() });
    store.state = Some(State { token_address: msg.token_address, owner: info.sender });
    Ok(Response::new())
}

/// Dispatches an executed message to its handler. No message changes the store.
pub fn execute(store: &Store, env: &Env, info: &MessageInfo, msg: ExecuteMsg, answers: Answers) -> (r: Result<Response, ContractError>)
    ensures
        match msg {
            ExecuteMsg::Buy => buy_outcome(*info, answers.oracle_price, r),
            ExecuteMsg::Withdraw => withdraw_outcome(*store, answers.luna_balance, r),
            ExecuteMsg::WithdrawSome { .. } => r matches Ok(resp) && resp.is_empty(),
        },
{
    match msg {
        ExecuteMsg::Buy => execute_buy(env, info, answers.oracle_price),
        ExecuteMsg::Withdraw => execute_withdraw(store, env, info, answers.luna_balance),
        ExecuteMsg::WithdrawSome { .. } => execute_withdraw_some(env, info),
    }
}

/// Accepted and does nothing.
pub fn execute_withdraw_some(_env: &Env, _info: &MessageInfo) -> (r: Result<Response, ContractError>)
    ensures
        r matches Ok(resp) && resp.is_empty(),
{
    Ok(Response::new())
}

/// The whole tokens that `paid` luna buys at `price` luna a token.
pub open spec fn tokens_for(paid: u128, price: u64) -> u128
    recommends
        price > 0,
{
    (paid / (price as u128)) as u128
}

/// A purchase never charges more than was paid, and keeps back less than
/// the price of one more token: at a non-zero price, the tokens bought cost
/// at most the luna paid, and one token more would cost more than it.
pub proof fn lemma_tokens_within_payment(paid: u128, price: u64)
    requires
        price > 0,
    ensures
        tokens_for(paid, price) * price <= paid,
        paid < (tokens_for(paid, price) + 1) * price,
{
    let t = paid / (price as u128);
    assert(t * price <= paid && paid < (t + 1) * price) by (nonlinear_arith)
        requires
            t == paid / (price as u128),
            price > 0,
    ;
}

/// A purchase at a non-zero price pays with the first luna coin sent: when
/// the coin at `k` is luna and none before it is, the buyer gets the tokens
/// that coin's amount buys, whatever coins come before or after it.
pub proof fn lemma_buy_counts_first_luna_coin(info: MessageInfo, p: PriceResponse, r: Result<Response, ContractError>, k: int)
    requires
        buy_outcome(info, Ok(p), r),
        p.price > 0,
        0 <= k < info.funds@.len(),
        info.funds@[k].denom@ == LUNA@,
        forall|j: int| 0 <= j < k ==> info.funds@[j].denom@ != LUNA@,
    ensures
        r matches Ok(resp) && is_buy_response(resp, info.sender@, tokens_for(info.funds@[k].amount, p.price)),
{
    lemma_first_amount_is_first_match(info.funds@, LUNA@, k);
}

/// A purchase at a non-zero price with no luna coin sent transfers no tokens.
pub proof fn lemma_buy_without_luna_buys_nothing(info: MessageInfo, p: PriceResponse, r: Result<Response, ContractError>)
    requires
        buy_outcome(info, Ok(p), r),
        p.price > 0,
        forall|j: int| 0 <= j < info.funds@.len() ==> info.funds@[j].denom@ != LUNA@,
    ensures
        r matches Ok(resp) && is_buy_response(resp, info.sender@, 0),
{
    lemma_first_amount_absent(info.funds@, LUNA@);
    assert(tokens_for(0, p.price) == 0) by (nonlinear_arith)
        requires
            p.price > 0,
    ;
}

/// `resp` transfers `tokens` tokens of the token contract to `buyer`, and
/// is marked with the `method` attribute `execute_buy`.
pub open spec fn is_buy_response(resp: Response, buyer: Seq<char>, tokens: u128) -> bool {
    &&& resp.messages@.len() == 1
    &&& is_plain(resp.messages@[0])
    &&& is_token_transfer(resp.messages@[0].msg, TOKEN_ADDR@, buyer, tokens)
    &&& resp.attributes@.len() == 1
    &&& resp.attributes@[0].key@ == "method"@
    &&& resp.attributes@[0].value@ == "execute_buy"@
}

/// What a purchase answers: the oracle's error if its query failed; the
/// division error if the price is zero; otherwise the transfer of as many
/// whole tokens as the luna sent pays for (only the first luna coin sent
/// counts; none counts as zero).
pub open spec fn buy_outcome(info: MessageInfo, price: Result<PriceResponse, StdError>, r: Result<Response, ContractError>) -> bool {
    match price {
        Err(e) => r == Err::<Response, ContractError>(ContractError::Std(e)),
        Ok(p) => if p.price == 0 {
            r == Err::<Response, ContractError>(ContractError::DivisionError)
        } else {
            r matches Ok(resp) && is_buy_response(
                resp,
                info.sender@,
                tokens_for(first_amount_of(info.funds@, LUNA@), p.price),
            )
        },
    }
}

/// Sells tokens for the luna sent along, at the oracle's price (`price` is
/// the oracle's answer to the shop's price query).
pub fn execute_buy(_env: &Env, info: &MessageInfo, price: Result<PriceResponse, StdError>) -> (r: Result<Response, ContractError>)
    ensures
        buy_outcome(*info, price, r),
{
    let price = match price {
        Ok(p) => p.price,
        Err(e) => return Err(ContractError::Std(e)),
    };
    let funds_sent = find_amount(&info.funds, LUNA);
    let tokens = match checked_div(funds_sent, price as u128) {
        Some(n) => n,
        None => return Err(ContractError::DivisionError),
    };
    let transfer = token_transfer(TOKEN_ADDR, &info.sender, tokens);
    Ok(Response::new().add_message(transfer).add_attribute("method", "execute_buy"))
}

/// What a withdrawal answers: the missing-state error on an uninstantiated
/// shop; else the balance query's error if it failed; else the payment of
/// the whole luna balance to the owner.
pub open spec fn withdraw_outcome(store: Store, balance: Result<u128, StdError>, r: Result<Response, ContractError>) -> bool {
    match store.state {
        None => r matches Err(ContractError::Std(StdError::NotFound { kind })) && kind@ == STATE_KIND@,
        Some(st) => match balance {
            Err(e) => r == Err::<Response, ContractError>(ContractError::Std(e)),
            Ok(b) => r matches Ok(resp)
                && resp.messages@.len() == 1
                && is_plain(resp.messages@[0])
                && is_payment(resp.messages@[0].msg, st.owner@, LUNA@, b)
                && resp.attributes@.len() == 0,
        },
    }
}

/// Pays the shop's whole luna balance (`balance`, the chain's answer to the
/// balance query) to the owner, whoever asks.
pub fn execute_withdraw(store: &Store, _env: &Env, _info: &MessageInfo, balance: Result<u128, StdError>) -> (r: Result<Response, ContractError>)
    ensures
        withdraw_outcome(*store, balance, r),
{
    let state = match &store.state {
        Some(st) => st,
        None => return Err(ContractError::Std(StdError::not_found(STATE_KIND))),
    };
    let balance = match balance {
        Ok(b) => b,
        Err(e) => return Err(ContractError::Std(e)),
    };
    let send = payment(state.owner.clone(), LUNA, balance);
    Ok(Response::new().add_message(send))
}

/// Accepted and does nothing.
pub fn migrate(_store: &Store, _env: &Env) -> (r: Result<Response, StdError>)
    ensures
        r matches Ok(resp) && resp.is_empty(),
{
    Ok(Response::new())
}

/// No query is implemented: every query is refused.
pub fn query(_store: &Store, _env: &Env, _msg: QueryMsg) -> (r: Result<Vec<u8>, StdError>)
    ensures
        r matches Err(StdError::GenericErr { msg }) && msg@ == "Not implemented"@,
{
    Err(StdError::generic_err("Not implemented"))
}

} // verus!
