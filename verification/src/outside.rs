use vstd::prelude::*;
use crate::error::StdError;
use crate::types::{Coin, MessageInfo};

verus! {

/// `Uint128::checked_div` of cosmwasm-std: the quotient rounded down, or an
/// error when the divisor is zero.
#[verifier::external_body]
pub(crate) fn checked_div(dividend: u128, divisor: u128) -> (q: Option<u128>)
    ensures
        q == (if divisor == 0 { None } else { Some((dividend / divisor) as u128) }),
{
    let d = cosmwasm_std::Uint128::new(dividend);
    match d.checked_div(cosmwasm_std::Uint128::new(divisor)) {
        Ok(q) => Some(q.u128()),
        Err(_) => None,
    }
}

/// What `cw0::must_pay` answers for the given funds and denomination, with
/// an error given by the text it displays.
pub open spec fn must_pay_outcome(funds: Seq<Coin>, denom: Seq<char>) -> Result<u128, Seq<char>> {
    if funds.len() == 0 {
        Err("No funds sent"@)
    } else if funds.len() > 1 {
        Err("Sent more than one denomination"@)
    } else if funds[0].amount == 0 {
        Err("No funds sent"@)
    } else if funds[0].denom@ != denom {
        Err("Must send reserve token '"@ + denom + "'"@)
    } else {
        Ok(funds[0].amount)
    }
}

/// `cw0::must_pay`: exactly one coin, non-zero and of `denom`, must have been
/// sent; its amount is returned. An error is returned as the text it
/// displays, which the contract states for each case.
#[verifier::external_body]
pub(crate) fn must_pay(info: &MessageInfo, denom: &str) -> (r: Result<u128, String>)
    ensures
        match r {
            Ok(a) => must_pay_outcome(info.funds@, denom@) == Ok::<u128, Seq<char>>(a),
            Err(text) => must_pay_outcome(info.funds@, denom@) == Err::<u128, Seq<char>>(text@),
        },
{
    let funds: Vec<cosmwasm_std::Coin> =
        info.funds.iter().map(|c| cosmwasm_std::coin(c.amount, c.denom.as_str())).collect();
    let sender = cosmwasm_std::Addr::unchecked(info.sender.as_str());
    let info = cosmwasm_std::MessageInfo { sender, funds };
    match cw0::must_pay(&info, denom) {
        Ok(amount) => Ok(amount.u128()),
        Err(e) => Err(e.to_string()),
    }
}

/// The JSON that cosmwasm-std's `to_binary` makes of cw20's
/// `Cw20ExecuteMsg::Transfer { recipient, amount }`.
pub uninterp spec fn cw20_transfer_json(recipient: Seq<char>, amount: u128) -> Seq<u8>;

/// `cosmwasm_std::to_binary` on `cw20::Cw20ExecuteMsg::Transfer`. The JSON
/// serialiser writes strings into a growing buffer and has no failing path
/// for this message, so the result is always `Ok`.
#[verifier::external_body]
pub(crate) fn cw20_transfer_binary(recipient: &String, amount: u128) -> (r: Result<Vec<u8>, StdError>)
    ensures
        r is Ok,
        r matches Ok(bytes) ==> bytes@ == cw20_transfer_json(recipient@, amount),
{
    let msg = cw20::Cw20ExecuteMsg::Transfer {
        recipient: recipient.clone(),
        amount: cosmwasm_std::Uint128::new(amount),
    };
    match cosmwasm_std::to_binary(&msg) {
        Ok(b) => Ok(b.0),
        Err(e) => Err(StdError::GenericErr { msg: e.to_string() }),
    }
}

} // verus!
