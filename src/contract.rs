use vstd::prelude::*;

use crate::commands::{
    REPLY_ID,
    call_contract, call_contract_post, delete_entry_on_map, delete_post, fill_map, fill_map_post,
    send_funds, send_funds_post, try_increment, increment_post,
};
use crate::error::{ContractError, StdError};
use crate::external::{is_semver, nonpayable, parse_version};
use crate::msg::{attribute, attrs_are, Coin, Env, ExecuteMsg, MessageInfo, MigrateMsg, QueryAnswer, QueryMsg, InstantiateMsg, Response};
use crate::queries::{get_entry, iterate_map, query_count, scan_len};
use crate::state::State;

verus! {

/// The balances of the contract and of the recipient, in the denomination
/// of the coin attached to a transfer, read before it is executed.
#[derive(Debug, Clone)]
pub struct Balances {
    pub contract: Coin,
    pub recipient: Coin,
}

/// What an executed message asks of the host.
#[derive(Debug)]
pub enum Effect {
    /// Commit the new state and return this response.
    Respond(Response),
    /// Apply this action with the ownership capability.
    UpdateOwnership(cw_ownable::Action),
}

/// The effect is a response, or a failure, that meets `post`; an ownership
/// update never does.
pub open spec fn effect_meets(
    r: Result<Effect, ContractError>,
    post: spec_fn(Result<Response, ContractError>) -> bool,
) -> bool {
    match r {
        Ok(Effect::Respond(resp)) => post(Ok(resp)),
        Ok(Effect::UpdateOwnership(_)) => false,
        Err(e) => post(Err(e)),
    }
}

/// What instantiating does: the counter takes the given count, or 0, the
/// marker map stays, and the response names the sender as owner.
pub open spec fn instantiate_post(
    pre: State,
    post: State,
    sender: Seq<char>,
    msg: InstantiateMsg,
    r: Result<Response, ContractError>,
) -> bool {
    &&& post.markers@ == pre.markers@
    &&& post.count == Some(
        match msg.count {
            Some(c) => c,
            None => 0u64,
        },
    )
    &&& r is Ok
    &&& attrs_are(r->Ok_0, seq![("action"@, "instantiate"@), ("owner"@, sender)])
    &&& r->Ok_0.messages@.len() == 0
}

/// Sets the counter to the given count, or 0, and reports the owner, the
/// sender; the marker map is left as it is.
pub fn instantiate(state: &mut State, info: &MessageInfo, msg: InstantiateMsg) -> (r: Result<
    Response,
    ContractError,
>)
    requires
        old(state).wf(),
    ensures
        final(state).wf(),
        instantiate_post(*old(state), *final(state), info.sender@, msg, r),
{
    let initial_count = match msg.count {
        Some(c) => c,
        None => 0,
    };
    state.count = Some(initial_count);
    let mut resp = Response::new();
    resp.attributes.push(attribute("action", "instantiate".to_owned()));
    resp.attributes.push(attribute("owner", info.sender.clone()));
    Ok(resp)
}

/// Routes a message to its handler. An ownership update is checked to carry
/// no funds and is then handed back, to be applied by the ownership
/// capability. A failure leaves the state as it was.
pub fn execute(
    state: &mut State,
    env: &Env,
    info: &MessageInfo,
    balances: &Balances,
    msg: ExecuteMsg,
) -> (r: Result<Effect, ContractError>)
    requires
        old(state).wf(),
    ensures
        final(state).wf(),
        r is Err ==> final(state).same_as(*old(state)),
        !(msg is UpdateOwnership) ==> !(r matches Ok(Effect::UpdateOwnership(_))),
        match msg {
            ExecuteMsg::UpdateOwnership(action) => {
                &&& final(state).same_as(*old(state))
                &&& r is Ok <==> info.funds@.len() == 0
                &&& r matches Ok(Effect::UpdateOwnership(a)) ==> a == action
                &&& r is Err ==> r->Err_0 == ContractError::PaymentError(
                    crate::error::PaymentFailure::NonPayable,
                )
            },
            ExecuteMsg::ModifyState {} => effect_meets(r, |x| increment_post(*old(state), *final(state), x)),
            ExecuteMsg::SendFunds { receipient } => {
                &&& final(state).same_as(*old(state))
                &&& effect_meets(
                    r,
                    |x| send_funds_post(*info, receipient@, balances.contract, balances.recipient, x),
                )
            },
            ExecuteMsg::CallContract { contract, reply } => {
                &&& final(state).same_as(*old(state))
                &&& effect_meets(r, |x| call_contract_post(*env, *info, contract@, reply, x))
            },
            ExecuteMsg::DeleteEntryOnMap { key } => effect_meets(
                r,
                |x| delete_post(*old(state), *final(state), key, x),
            ),
            ExecuteMsg::FillMap { limit } => effect_meets(
                r,
                |x| fill_map_post(*old(state), *final(state), limit, x),
            ),
        },
{
    let r = match msg {
        ExecuteMsg::UpdateOwnership(action) => {
            return match nonpayable(&info.funds) {
                Ok(()) => Ok(Effect::UpdateOwnership(action)),
                Err(e) => Err(ContractError::PaymentError(e)),
            };
        },
        ExecuteMsg::ModifyState {} => try_increment(state),
        ExecuteMsg::SendFunds { receipient } => send_funds(info, receipient, &balances.contract, &balances.recipient),
        ExecuteMsg::CallContract { contract, reply } => call_contract(env, info, contract, reply),
        ExecuteMsg::DeleteEntryOnMap { key } => delete_entry_on_map(state, key),
        ExecuteMsg::FillMap { limit } => fill_map(state, limit),
    };
    match r {
        Ok(resp) => Ok(Effect::Respond(resp)),
        Err(e) => Err(e),
    }
}

/// Answers a query from the state; it changes nothing. The ownership record
/// is read from the ownership capability by the caller.
pub fn query(state: &State, msg: QueryMsg) -> (r: Result<QueryAnswer, ContractError>)
    ensures
        match msg {
            QueryMsg::Ownership {} => r matches Ok(QueryAnswer::Ownership),
            QueryMsg::GetCount {} => match state.count {
                Some(n) => r matches Ok(QueryAnswer::Count(c)) && c.count == n,
                None => r matches Err(ContractError::Std(StdError::NotFound)),
            },
            QueryMsg::IterateOverMap { limit } => r matches Ok(QueryAnswer::Entries(v))
                && v@.len() == scan_len(*state, limit),
            QueryMsg::GetEntryFromMap { entry } => if state.markers@.contains(entry) {
                r matches Ok(QueryAnswer::Entry(_))
            } else {
                r matches Err(ContractError::Std(StdError::NotFound))
            },
        },
{
    match msg {
        QueryMsg::Ownership {} => Ok(QueryAnswer::Ownership),
        QueryMsg::GetCount {} => match query_count(state) {
            Ok(c) => Ok(QueryAnswer::Count(c)),
            Err(e) => Err(e),
        },
        QueryMsg::IterateOverMap { limit } => Ok(QueryAnswer::Entries(iterate_map(state, limit))),
        QueryMsg::GetEntryFromMap { entry } => match get_entry(state, entry) {
            Ok(e) => Ok(QueryAnswer::Entry(e)),
            Err(e) => Err(e),
        },
    }
}

/// Checks that the recorded version of the contract, if one was recorded, is
/// a semantic version before it is stamped anew; nothing else changes.
pub fn migrate(stored_version: Option<&String>, _msg: MigrateMsg) -> (r: Result<Response, ContractError>)
    ensures
        r is Ok <==> match stored_version {
            Some(v) => is_semver(v@),
            None => true,
        },
        r is Ok ==> r->Ok_0.attributes@.len() == 0 && r->Ok_0.messages@.len() == 0,
        r is Err ==> r->Err_0 is SemVer,
{
    match stored_version {
        None => Ok(Response::new()),
        Some(v) => match parse_version(v) {
            Ok(()) => Ok(Response::new()),
            Err(e) => Err(ContractError::SemVer(e)),
        },
    }
}

/// Acknowledges the reply to the call-back submessage, the only one sent with
/// a reply; a reply under any other id is refused.
pub fn reply(id: u64) -> (r: Result<Response, ContractError>)
    ensures
        r is Ok <==> id == REPLY_ID,
        r is Ok ==> attrs_are(r->Ok_0, seq![("reply"@, "ok"@)]) && r->Ok_0.messages@.len() == 0,
        r is Err ==> r->Err_0 == ContractError::UnknownReplyId(id),
{
    if id == REPLY_ID {
        let mut resp = Response::new();
        resp.attributes.push(attribute("reply", "ok".to_owned()));
        Ok(resp)
    } else {
        Err(ContractError::UnknownReplyId(id))
    }
}

} // verus!
