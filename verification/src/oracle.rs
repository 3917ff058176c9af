//! The price oracle: it stores one price and answers queries for it.

use vstd::prelude::*;
use crate::error::{ContractError, StdError};
use crate::types::{ContractVersion, Env, MessageInfo, PriceResponse, Response};

verus! {

/// The name the oracle records as its own at instantiation.
pub const CONTRACT_NAME: &'static str = "crates.io:oracle";

/// The type name a missing oracle state is reported under.
pub const STATE_KIND: &'static str = "oracle::state::State";

/// The oracle's stored state.
#[derive(Debug, Clone, PartialEq, Eq)]
pub struct State {
    pub price: u64,
    pub owner: String,
}

/// The oracle's storage: the contract version record and its state, each
/// absent until the contract is instantiated.
#[derive(Debug, Clone, PartialEq, Eq)]
pub struct Store {
    pub version: Option<ContractVersion>,
    pub state: Option<State>,
}

impl Store {
    /// Storage of a contract that has not been instantiated.
    pub fn empty() -> (s: Store)
        ensures
            s.version is None,
            s.state is None,
    {
        Store { version: None, state: None }
    }
}

#[derive(Debug, Clone, Copy, PartialEq, Eq)]
pub struct InstantiateMsg {
    pub price: u64,
}

#[derive(Debug, Clone, Copy, PartialEq, Eq)]
pub enum ExecuteMsg {
    UpdatePrice { price: u64 },
}

#[derive(Debug, Clone, Copy, PartialEq, Eq)]
pub enum QueryMsg {
    QueryPrice,
}

/// The price the store holds, if the contract has been instantiated.
pub open spec fn stored_price(s: Store) -> Option<u64> {
    match s.state {
        Some(st) => Some(st.price),
        None => None,
    }
}

/// The store after the price has been set to `price`: the owner and the
/// version record stay; an uninstantiated store stays as it is.
pub open spec fn with_price(s: Store, price: u64) -> Store {
    match s.state {
        Some(st) => Store { version: s.version, state: Some(State { price, owner: st.owner }) },
        None => s,
    }
}

/// `after` is the store of an oracle instantiated with `msg` by `info.sender`.
pub open spec fn instantiated(after: Store, version: Seq<char>, info: MessageInfo, msg: InstantiateMsg) -> bool {
    &&& after.version matches Some(v) && v.contract@ == CONTRACT_NAME@ && v.version@ == version
    &&& after.state == Some(State { price: msg.price, owner: info.sender })
}

/// `e` is the error for a missing oracle state.
pub open spec fn is_missing_state(e: StdError) -> bool {
    e matches StdError::NotFound { kind } && kind@ == STATE_KIND@
}

/// Records the contract version and stores the initial price, with the
/// sender as owner. Whatever the store held before is replaced.
pub fn instantiate(store: &mut Store, version: &str, _env: &Env, info: MessageInfo, msg: InstantiateMsg) -> (r: Result<Response, ContractError>)
    ensures
        instantiated(*final(store), version@, info, msg),
        r matches Ok(resp) && resp.is_empty(),
{
    store.version = Some(ContractVersion { contract: CONTRACT_NAME.to_owned(), version: version.to_owned() });
    store.state = Some(State { price: msg.price, owner: info.sender });
    Ok(Response::new())
}

/// Dispatches an executed message to its handler.
pub fn execute(store: &mut Store, env: &Env, info: &MessageInfo, msg: ExecuteMsg) -> (r: Result<Response, ContractError>)
    ensures
        match msg {
            ExecuteMsg::UpdatePrice { price } => update_price_outcome(*old(store), *final(store), price, r),
        },
{
    match msg {
        ExecuteMsg::UpdatePrice { price } => execute_update_price(store, env, info, price),
    }
}

/// What setting the price to `price` does: on an instantiated store the
/// price changes and the response carries one `method` attribute; otherwise
/// the store stays and the answer is the missing-state error.
pub open spec fn update_price_outcome(before: Store, after: Store, price: u64, r: Result<Response, ContractError>) -> bool {
    &&& after == with_price(before, price)
    &&& match before.state {
        Some(_) => r matches Ok(resp)
            && resp.messages@.len() == 0
            && resp.attributes@.len() == 1
            && resp.attributes@[0].key@ == "method"@
            && resp.attributes@[0].value@ == "execute_update_price"@,
        None => r matches Err(ContractError::Std(e)) && is_missing_state(e),
    }
}

/// Sets the stored price. Any sender may do so.
pub fn execute_update_price(store: &mut Store, _env: &Env, _info: &MessageInfo, price: u64) -> (r: Result<Response, ContractError>)
    ensures
        update_price_outcome(*old(store), *final(store), price, r),
{
    match store.state.take() {
        Some(st) => {
            store.state = Some(State { price, owner: st.owner });
            Ok(Response::new().add_attribute("method", "execute_update_price"))
        },
        None => Err(ContractError::Std(StdError::not_found(STATE_KIND))),
    }
}

/// Answers a query; the caller serialises the answer.
pub fn query(store: &Store, _env: &Env, msg: QueryMsg) -> (r: Result<PriceResponse, StdError>)
    ensures
        match msg {
            QueryMsg::QueryPrice => price_answer(*store, r),
        },
{
    match msg {
        QueryMsg::QueryPrice => query_oracle_info(store),
    }
}

/// `r` is the answer to a price query on `s`: the stored price, or the
/// missing-state error.
pub open spec fn price_answer(s: Store, r: Result<PriceResponse, StdError>) -> bool {
    match stored_price(s) {
        Some(p) => r == Ok::<PriceResponse, StdError>(PriceResponse { price: p }),
        None => r matches Err(e) && is_missing_state(e),
    }
}

/// The stored price.
pub fn query_oracle_info(store: &Store) -> (r: Result<PriceResponse, StdError>)
    ensures
        price_answer(*store, r),
{
    match &store.state {
        Some(st) => Ok(PriceResponse { price: st.price }),
        None => Err(StdError::not_found(STATE_KIND)),
    }
}

/// A query after instantiation answers the price the oracle was
/// instantiated with.
pub proof fn lemma_query_after_instantiate(after: Store, version: Seq<char>, info: MessageInfo, msg: InstantiateMsg)
    requires
        instantiated(after, version, info, msg),
    ensures
        price_answer(after, Ok(PriceResponse { price: msg.price })),
{
}

/// On an instantiated oracle, a query after an update answers the new price,
/// and the owner and the version record are those from before.
pub proof fn lemma_query_after_update(before: Store, price: u64)
    requires
        before.state is Some,
    ensures
        price_answer(with_price(before, price), Ok(PriceResponse { price })),
        with_price(before, price).state.unwrap().owner == before.state.unwrap().owner,
        with_price(before, price).version == before.version,
{
}

/// Of two updates the last one wins: they leave the store as the last one
/// alone would.
pub proof fn lemma_last_update_wins(s: Store, first: u64, second: u64)
    ensures
        with_price(with_price(s, first), second) == with_price(s, second),
{
}

/// Setting the price the oracle already holds leaves its store as it was.
pub proof fn lemma_update_same_price(s: Store, price: u64)
    requires
        stored_price(s) == Some(price),
    ensures
        with_price(s, price) == s,
{
}

/// An oracle that was never instantiated refuses updates and queries alike
/// with the missing-state error, and its store stays empty.
pub proof fn lemma_uninstantiated(s: Store, price: u64, r: Result<PriceResponse, StdError>)
    requires
        s.state is None,
        price_answer(s, r),
    ensures
        with_price(s, price) == s,
        r matches Err(e) && is_missing_state(e),
{
}

/// The store after the prices in `prices` have been set, one after the
/// other, starting from `s`.
pub open spec fn with_prices(s: Store, prices: Seq<u64>) -> Store
    decreases prices.len(),
{
    if prices.len() == 0 {
        s
    } else {
        with_price(with_prices(s, prices.drop_last()), prices.last())
    }
}

/// The price last written: the last of `prices`, or `initial` if there is none.
pub open spec fn last_written(initial: u64, prices: Seq<u64>) -> u64 {
    if prices.len() == 0 {
        initial
    } else {
        prices.last()
    }
}

proof fn lemma_prices_keep_state(s: Store, initial: u64, prices: Seq<u64>)
    requires
        stored_price(s) == Some(initial),
    ensures
        stored_price(with_prices(s, prices)) == Some(last_written(initial, prices)),
        with_prices(s, prices).version == s.version,
        with_prices(s, prices).state.unwrap().owner == s.state.unwrap().owner,
    decreases prices.len(),
{
    if prices.len() > 0 {
        lemma_prices_keep_state(s, initial, prices.drop_last());
    }
}

/// Whatever the number of updates after instantiation, and whoever sends
/// them, a query answers the price last written: the last update's price,
/// or the instantiated price if there was none. The owner and the version
/// record stay those of the instantiation.
pub proof fn lemma_query_answers_last_write(after: Store, version: Seq<char>, info: MessageInfo, msg: InstantiateMsg, prices: Seq<u64>)
    requires
        instantiated(after, version, info, msg),
    ensures
        price_answer(with_prices(after, prices), Ok(PriceResponse { price: last_written(msg.price, prices) })),
        with_prices(after, prices).state.unwrap().owner == info.sender,
        with_prices(after, prices).version == after.version,
{
    lemma_prices_keep_state(after, msg.price, prices);
}

} // verus!
