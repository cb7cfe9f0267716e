use vstd::prelude::*;

use crate::state::MapEntry;

verus! {

/// An amount of one denomination.
#[derive(Debug, Clone, PartialEq, Eq)]
pub struct Coin {
    pub denom: String,
    pub amount: u128,
}

/// Who sent a message, and the funds attached to it.
#[derive(Debug, Clone)]
pub struct MessageInfo {
    pub sender: String,
    pub funds: Vec<Coin>,
}

/// What the host says of the contract itself.
#[derive(Debug, Clone)]
pub struct Env {
    pub contract_address: String,
}

/// A key/value pair of a response's event log.
#[derive(Debug, Clone, PartialEq, Eq)]
pub struct Attribute {
    pub key: String,
    pub value: String,
}

/// A side effect handed back to the host.
#[derive(Debug)]
pub enum CosmosMsg {
    /// Moves `amount` from the contract to `to_address`.
    BankSend { to_address: String, amount: Vec<Coin> },
    /// Executes `msg` on another contract, attaching `funds`.
    WasmExecute { contract_addr: String, msg: ExecuteMsg, funds: Vec<Coin> },
}

/// When the host calls back the contract's `reply` entry point.
#[derive(Debug, Clone, Copy, PartialEq, Eq, Structural)]
pub enum ReplyOn {
    Never,
    Success,
}

/// An outgoing message with its correlation id and reply policy.
#[derive(Debug)]
pub struct SubMsg {
    pub id: u64,
    pub msg: CosmosMsg,
    pub reply_on: ReplyOn,
}

/// What a successful call returns: an event log and outgoing messages.
#[derive(Debug)]
pub struct Response {
    pub attributes: Vec<Attribute>,
    pub messages: Vec<SubMsg>,
}

#[derive(Debug, Clone, PartialEq, Eq)]
pub struct InstantiateMsg {
    pub count: Option<u64>,
}

#[derive(Debug)]
pub enum ExecuteMsg {
    UpdateOwnership(cw_ownable::Action),
    ModifyState {},
    SendFunds { receipient: String },
    CallContract { contract: String, reply: bool },
    DeleteEntryOnMap { key: u64 },
    FillMap { limit: u64 },
}

#[derive(Debug, Clone, PartialEq, Eq)]
pub enum QueryMsg {
    Ownership {},
    GetCount {},
    IterateOverMap { limit: u64 },
    GetEntryFromMap { entry: u64 },
}

#[derive(Debug, Clone, Copy, PartialEq, Eq, Structural)]
pub struct CountResponse {
    pub count: u64,
}

#[derive(Debug, Clone, Copy, PartialEq, Eq, Structural)]
pub struct MigrateMsg {}

/// What a query answers, before it is encoded for the host.
#[derive(Debug, Clone, PartialEq, Eq)]
pub enum QueryAnswer {
    /// The ownership record is kept by the ownership capability: the caller
    /// reads it from there.
    Ownership,
    Count(CountResponse),
    Entries(Vec<MapEntry>),
    Entry(MapEntry),
}

/// The attribute `key = value`, over the character sequences.
pub open spec fn attr_is(a: Attribute, key: Seq<char>, value: Seq<char>) -> bool {
    a.key@ == key && a.value@ == value
}

pub fn attribute(key: &str, value: String) -> (r: Attribute)
    ensures
        attr_is(r, key@, value@),
{
    Attribute { key: key.to_owned(), value }
}

/// The response's attributes are `kv`, in that order.
pub open spec fn attrs_are(r: Response, kv: Seq<(Seq<char>, Seq<char>)>) -> bool {
    &&& r.attributes@.len() == kv.len()
    &&& forall|i: int| 0 <= i < kv.len() ==> #[trigger] attr_is(r.attributes@[i], kv[i].0, kv[i].1)
}

impl Response {
    /// A response with no attributes and no messages.
    pub fn new() -> (r: Response)
        ensures
            r.attributes@.len() == 0,
            r.messages@.len() == 0,
    {
        Response { attributes: Vec::new(), messages: Vec::new() }
    }
}

} // verus!
