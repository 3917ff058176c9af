//! The messages the contracts send, and what it means to be one of them.

use vstd::prelude::*;
use crate::outside::{cw20_transfer_binary, cw20_transfer_json};
use crate::types::{BankMsg, Coin, CosmosMsg, OracleQuery, QueryRequest, WasmMsg};

verus! {

/// `m` has the token contract at `token` move `amount` tokens to `recipient`.
pub open spec fn is_token_transfer(m: CosmosMsg, token: Seq<char>, recipient: Seq<char>, amount: u128) -> bool {
    m matches CosmosMsg::Wasm(WasmMsg::Execute { contract_addr, msg, funds })
        && contract_addr@ == token
        && msg@ == cw20_transfer_json(recipient, amount)
        && funds@.len() == 0
}

/// `m` sends `amount` units of `denom` to `to`, as a single coin.
pub open spec fn is_payment(m: CosmosMsg, to: Seq<char>, denom: Seq<char>, amount: u128) -> bool {
    m matches CosmosMsg::Bank(BankMsg::Send { to_address, amount: coins })
        && to_address@ == to
        && coins@.len() == 1
        && coins@[0].denom@ == denom
        && coins@[0].amount == amount
}

/// The message that has the token contract at `token` move `amount` tokens
/// to `recipient`, sending no coins along.
pub fn token_transfer(token: &str, recipient: &String, amount: u128) -> (m: CosmosMsg)
    ensures
        is_token_transfer(m, token@, recipient@, amount),
{
    match cw20_transfer_binary(recipient, amount) {
        Ok(payload) => CosmosMsg::Wasm(WasmMsg::Execute {
            contract_addr: token.to_owned(),
            msg: payload,
            funds: Vec::new(),
        }),
        Err(_) => vstd::pervasive::unreached(),
    }
}

/// The message that sends `amount` units of `denom` to `to`.
pub fn payment(to: String, denom: &str, amount: u128) -> (m: CosmosMsg)
    ensures
        is_payment(m, to@, denom@, amount),
{
    let mut coins: Vec<Coin> = Vec::new();
    coins.push(Coin::new(amount, denom));
    CosmosMsg::Bank(BankMsg::Send { to_address: to, amount: coins })
}

/// `q` asks the oracle at `oracle` for its price.
pub open spec fn is_price_request(q: QueryRequest, oracle: Seq<char>) -> bool {
    q matches QueryRequest::WasmSmart { contract_addr, msg } && contract_addr@ == oracle && msg == OracleQuery::QueryPrice
}

/// `q` asks for the balance of `denom` held by `address`.
pub open spec fn is_balance_request(q: QueryRequest, address: Seq<char>, denom: Seq<char>) -> bool {
    q matches QueryRequest::Balance { address: a, denom: d } && a@ == address && d@ == denom
}

/// `q` asks for all the delegations of `delegator`.
pub open spec fn is_delegations_request(q: QueryRequest, delegator: Seq<char>) -> bool {
    q matches QueryRequest::AllDelegations { delegator: d } && d@ == delegator
}

/// The query that asks the oracle at `oracle` for its price.
pub fn price_request(oracle: &str) -> (q: QueryRequest)
    ensures
        is_price_request(q, oracle@),
{
    QueryRequest::WasmSmart { contract_addr: oracle.to_owned(), msg: OracleQuery::QueryPrice }
}

/// The query for the balance of `denom` held by `address`.
pub fn balance_request(address: &String, denom: &str) -> (q: QueryRequest)
    ensures
        is_balance_request(q, address@, denom@),
{
    QueryRequest::Balance { address: address.clone(), denom: denom.to_owned() }
}

/// The query for all the delegations of `delegator`.
pub fn delegations_request(delegator: &String) -> (q: QueryRequest)
    ensures
        is_delegations_request(q, delegator@),
{
    QueryRequest::AllDelegations { delegator: delegator.clone() }
}

} // verus!
