use vstd::prelude::*;

verus! {

/// The native denomination the contracts are paid in and pay out.
pub const LUNA: &'static str = "uluna";

/// The stable denomination that collected rewards are swapped from.
pub const USD: &'static str = "uusd";

/// An amount of one native denomination.
#[derive(Debug, Clone, PartialEq, Eq)]
pub struct Coin {
    pub denom: String,
    pub amount: u128,
}

impl Coin {
    /// A coin of `amount` units of `denom`.
    pub fn new(amount: u128, denom: &str) -> (c: Coin)
        ensures
            c.amount == amount,
            c.denom@ == denom@,
    {
        Coin { denom: denom.to_owned(), amount }
    }
}

/// Who sent a message, and the coins sent along with it.
#[derive(Debug, Clone, PartialEq, Eq)]
pub struct MessageInfo {
    pub sender: String,
    pub funds: Vec<Coin>,
}

/// What the contracts read of their environment: their own address.
#[derive(Debug, Clone, PartialEq, Eq)]
pub struct Env {
    pub contract_address: String,
}

/// A delegation of the contract's stake to a validator.
#[derive(Debug, Clone, PartialEq, Eq)]
pub struct Delegation {
    pub delegator: String,
    pub validator: String,
    pub amount: Coin,
}

/// The answer of the oracle to a price query.
#[derive(Debug, Clone, Copy, PartialEq, Eq)]
pub struct PriceResponse {
    pub price: u64,
}

/// The name and version a contract records of itself at instantiation.
#[derive(Debug, Clone, PartialEq, Eq)]
pub struct ContractVersion {
    pub contract: String,
    pub version: String,
}

#[derive(Debug, Clone, PartialEq, Eq)]
pub enum BankMsg {
    Send { to_address: String, amount: Vec<Coin> },
}

#[derive(Debug, Clone, PartialEq, Eq)]
pub enum WasmMsg {
    /// Executes `msg` (the JSON form of the message) on `contract_addr`.
    Execute { contract_addr: String, msg: Vec<u8>, funds: Vec<Coin> },
}

#[derive(Debug, Clone, PartialEq, Eq)]
pub enum StakingMsg {
    Delegate { validator: String, amount: Coin },
    Undelegate { validator: String, amount: Coin },
}

#[derive(Debug, Clone, PartialEq, Eq)]
pub enum DistributionMsg {
    SetWithdrawAddress { address: String },
    WithdrawDelegatorReward { validator: String },
}

/// The Terra module a custom message is routed to.
#[derive(Debug, Clone, Copy, PartialEq, Eq)]
pub enum TerraRoute {
    Market,
}

#[derive(Debug, Clone, PartialEq, Eq)]
pub enum TerraMsg {
    Swap { offer_coin: Coin, ask_denom: String },
}

/// A message for Terra's own modules.
#[derive(Debug, Clone, PartialEq, Eq)]
pub struct TerraMsgWrapper {
    pub route: TerraRoute,
    pub msg_data: TerraMsg,
}

/// A message the contract asks the chain to dispatch.
#[derive(Debug, Clone, PartialEq, Eq)]
pub enum CosmosMsg {
    Bank(BankMsg),
    Wasm(WasmMsg),
    Staking(StakingMsg),
    Distribution(DistributionMsg),
    Custom(TerraMsgWrapper),
}

/// When the chain answers a sub-message with a reply.
#[derive(Debug, Clone, Copy, PartialEq, Eq)]
pub enum ReplyOn {
    Always,
    Error,
    Success,
    Never,
}

/// A message added to a response as a sub-message.
#[derive(Debug, Clone, PartialEq, Eq)]
pub struct SubMsg {
    pub id: u64,
    pub msg: CosmosMsg,
    pub gas_limit: Option<u64>,
    pub reply_on: ReplyOn,
}

impl SubMsg {
    /// A sub-message that is never answered with a reply.
    pub fn new(msg: CosmosMsg) -> (s: SubMsg)
        ensures
            s.id == 0,
            s.msg == msg,
            s.gas_limit is None,
            s.reply_on == ReplyOn::Never,
    {
        SubMsg { id: 0, msg, gas_limit: None, reply_on: ReplyOn::Never }
    }
}

/// A key and value of the event a response emits.
#[derive(Debug, Clone, PartialEq, Eq)]
pub struct Attribute {
    pub key: String,
    pub value: String,
}

/// The query a shop sends to the oracle.
#[derive(Debug, Clone, Copy, PartialEq, Eq)]
pub enum OracleQuery {
    QueryPrice,
}

/// A query a contract asks the chain to answer before it decides.
#[derive(Debug, Clone, PartialEq, Eq)]
pub enum QueryRequest {
    /// A query of the contract at `contract_addr`, with message `msg`.
    WasmSmart { contract_addr: String, msg: OracleQuery },
    /// The balance of `denom` held by `address`.
    Balance { address: String, denom: String },
    /// All the delegations of `delegator`.
    AllDelegations { delegator: String },
}

/// `s` is a sub-message that is never answered with a reply.
pub open spec fn is_plain(s: SubMsg) -> bool {
    s.id == 0 && s.gas_limit is None && s.reply_on == ReplyOn::Never
}

/// `msg` as a sub-message that is never answered with a reply.
pub open spec fn plain(msg: CosmosMsg) -> SubMsg {
    SubMsg { id: 0, msg, gas_limit: None, reply_on: ReplyOn::Never }
}

/// What a contract answers to a message: the messages it asks the chain to
/// dispatch, in order, and the attributes of the event it emits.
#[derive(Debug, Clone, PartialEq, Eq)]
pub struct Response {
    pub messages: Vec<SubMsg>,
    pub attributes: Vec<Attribute>,
}

impl Response {
    /// The empty response.
    pub open spec fn is_empty(self) -> bool {
        &&& self.messages@.len() == 0
        &&& self.attributes@.len() == 0
    }

    /// A response with no messages and no attributes.
    pub fn new() -> (r: Response)
        ensures
            r.is_empty(),
    {
        Response { messages: Vec::new(), attributes: Vec::new() }
    }

    /// The response with one more attribute at the end.
    pub fn add_attribute(self, key: &str, value: &str) -> (r: Response)
        ensures
            r.messages == self.messages,
            r.attributes@.len() == self.attributes@.len() + 1,
            r.attributes@.drop_last() == self.attributes@,
            r.attributes@.last().key@ == key@,
            r.attributes@.last().value@ == value@,
    {
        let mut r = self;
        r.attributes.push(Attribute { key: key.to_owned(), value: value.to_owned() });
        r
    }

    /// The response with one more message at the end, sent as a sub-message
    /// that is never answered with a reply.
    pub fn add_message(self, msg: CosmosMsg) -> (r: Response)
        ensures
            r.messages@ == self.messages@.push(plain(msg)),
            r.attributes == self.attributes,
    {
        let mut r = self;
        r.messages.push(SubMsg::new(msg));
        r
    }

    /// The response with one more sub-message at the end.
    pub fn add_submessage(self, msg: SubMsg) -> (r: Response)
        ensures
            r.messages@ == self.messages@.push(msg),
            r.attributes == self.attributes,
    {
        let mut r = self;
        r.messages.push(msg);
        r
    }
}

/// The amount of the first coin of `denom` among `funds`, or zero if there is none.
pub open spec fn first_amount_of(funds: Seq<Coin>, denom: Seq<char>) -> u128
    decreases funds.len(),
{
    if funds.len() == 0 {
        0
    } else if funds[0].denom@ == denom {
        funds[0].amount
    } else {
        first_amount_of(funds.drop_first(), denom)
    }
}

/// The amount counted for `denom` is that of the first coin of `denom`:
/// when the coin at `k` is of `denom` and none before it is, the amount is
/// that coin's, whatever coins follow.
pub proof fn lemma_first_amount_is_first_match(funds: Seq<Coin>, denom: Seq<char>, k: int)
    requires
        0 <= k < funds.len(),
        funds[k].denom@ == denom,
        forall|j: int| 0 <= j < k ==> funds[j].denom@ != denom,
    ensures
        first_amount_of(funds, denom) == funds[k].amount,
    decreases k,
{
    if k > 0 {
        let rest = funds.drop_first();
        assert forall|j: int| 0 <= j < k - 1 implies rest[j].denom@ != denom by {
            assert(rest[j] == funds[j + 1]);
        }
        assert(funds[0].denom@ != denom);
        lemma_first_amount_is_first_match(rest, denom, k - 1);
    }
}

/// No coin of `denom` among `funds` counts as zero.
pub proof fn lemma_first_amount_absent(funds: Seq<Coin>, denom: Seq<char>)
    requires
        forall|j: int| 0 <= j < funds.len() ==> funds[j].denom@ != denom,
    ensures
        first_amount_of(funds, denom) == 0,
    decreases funds.len(),
{
    if funds.len() > 0 {
        let rest = funds.drop_first();
        assert forall|j: int| 0 <= j < rest.len() implies rest[j].denom@ != denom by {
            assert(rest[j] == funds[j + 1]);
        }
        assert(funds[0].denom@ != denom);
        lemma_first_amount_absent(rest, denom);
    }
}

/// The amount of the first coin of `denom` among `funds`, or zero if there is none.
pub fn find_amount(funds: &Vec<Coin>, denom: &str) -> (a: u128)
    ensures
        a == first_amount_of(funds@, denom@),
        forall|k: int|
            0 <= k < funds@.len() && #[trigger] funds@[k].denom@ == denom@
                && (forall|j: int| 0 <= j < k ==> funds@[j].denom@ != denom@) ==> a == funds@[k].amount,
        (forall|j: int| 0 <= j < funds@.len() ==> funds@[j].denom@ != denom@) ==> a == 0,
{
    let want = denom.to_owned();
    let mut i: usize = 0;
    assert(funds@.skip(0) =~= funds@);
    while i < funds.len()
        invariant
            i <= funds@.len(),
            want@ == denom@,
            first_amount_of(funds@, denom@) == first_amount_of(funds@.skip(i as int), denom@),
            forall|j: int| 0 <= j < i ==> funds@[j].denom@ != denom@,
        decreases funds@.len() - i,
    {
        if funds[i].denom == want {
            proof {
                lemma_first_amount_is_first_match(funds@, denom@, i as int);
            }
            return funds[i].amount;
        }
        assert(funds@.skip(i as int).drop_first() =~= funds@.skip(i + 1));
        i = i + 1;
    }
    proof {
        lemma_first_amount_absent(funds@, denom@);
    }
    0
}

} // verus!
