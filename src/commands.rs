use vstd::prelude::*;

use crate::error::{ContractError, StdError};
use crate::external::{coin_string, decimal, decimal_digits, one_coin, one_coin_failure, is_one_coin};
use crate::msg::{attribute, attrs_are, Coin, CosmosMsg, Env, ExecuteMsg, MessageInfo, ReplyOn, Response, SubMsg};
use crate::state::{strictly_ascending, State};

verus! {

/// The correlation id of the submessage whose reply the contract asks for.
pub const REPLY_ID: u64 = 1;

/// The id of a submessage whose reply nobody asks for.
pub const UNUSED_MSG_ID: u64 = 0;

/// The attributes of a response that reports the counter's new value.
pub open spec fn count_attrs(r: Response, action: Seq<char>, count: u64) -> bool {
    attrs_are(r, seq![("action"@, action), ("new_count"@, decimal_digits(count as nat))])
}

/// What incrementing does: fails when there is no counter or it is at its
/// largest, and otherwise adds one and reports the new value.
pub open spec fn increment_post(pre: State, post: State, r: Result<Response, ContractError>) -> bool {
    &&& post.markers@ == pre.markers@
    &&& match pre.count {
        None => r matches Err(ContractError::Std(StdError::NotFound)) && post.count == pre.count,
        Some(n) => if n == u64::MAX {
            r matches Err(ContractError::Std(StdError::Overflow)) && post.count == pre.count
        } else {
            &&& r is Ok
            &&& post.count == Some((n + 1) as u64)
            &&& count_attrs(r->Ok_0, "increment"@, (n + 1) as u64)
            &&& r->Ok_0.messages@.len() == 0
        },
    }
}

/// Increments the counter by 1.
pub fn try_increment(state: &mut State) -> (r: Result<Response, ContractError>)
    requires
        old(state).wf(),
    ensures
        final(state).wf(),
        increment_post(*old(state), *final(state), r),
{
    let count = match state.count {
        None => return Err(ContractError::Std(StdError::NotFound)),
        Some(n) => n,
    };
    if count == u64::MAX {
        return Err(ContractError::Std(StdError::Overflow));
    }
    let count = count + 1;
    state.count = Some(count);
    let mut resp = Response::new();
    resp.attributes.push(attribute("action", "increment".to_owned()));
    resp.attributes.push(attribute("new_count", decimal(count as u128)));
    Ok(resp)
}

/// What resetting does: the counter takes `count`, whatever it held, and
/// the marker map stays.
pub open spec fn reset_post(pre: State, post: State, count: u64, r: Result<Response, ContractError>) -> bool {
    &&& post.markers@ == pre.markers@
    &&& post.count == Some(count)
    &&& r is Ok
    &&& count_attrs(r->Ok_0, "reset"@, count)
    &&& r->Ok_0.messages@.len() == 0
}

/// Resets the counter to a specified value.
pub fn try_reset(state: &mut State, count: u64) -> (r: Result<Response, ContractError>)
    requires
        old(state).wf(),
    ensures
        final(state).wf(),
        reset_post(*old(state), *final(state), count, r),
{
    state.count = Some(count);
    let mut resp = Response::new();
    resp.attributes.push(attribute("action", "reset".to_owned()));
    resp.attributes.push(attribute("new_count", decimal(count as u128)));
    Ok(resp)
}

/// The single coin attached to a message that must carry exactly one.
pub fn payment_coin(info: &MessageInfo) -> (r: Result<Coin, ContractError>)
    ensures
        r is Ok <==> is_one_coin(info.funds@),
        r is Ok ==> r->Ok_0 == info.funds@[0],
        r is Err ==> r->Err_0 == ContractError::PaymentError(one_coin_failure(info.funds@)),
{
    match one_coin(&info.funds) {
        Ok(c) => Ok(c),
        Err(e) => Err(ContractError::PaymentError(e)),
    }
}

/// A single-message response whose message is a bank transfer of `coin` to
/// `to`, with no reply.
pub open spec fn is_bank_send(m: SubMsg, to: Seq<char>, coin: Coin) -> bool {
    &&& m.id == UNUSED_MSG_ID
    &&& m.reply_on == ReplyOn::Never
    &&& m.msg matches CosmosMsg::BankSend { to_address, amount }
        && to_address@ == to && amount@ == seq![coin]
}

/// What sending does: the one-coin rule decides success, and a success
/// reports both balances and transfers the coin to `receipient`.
pub open spec fn send_funds_post(
    info: MessageInfo,
    receipient: Seq<char>,
    contract_balance: Coin,
    recipient_balance: Coin,
    r: Result<Response, ContractError>,
) -> bool {
    &&& r is Ok <==> is_one_coin(info.funds@)
    &&& r is Err ==> r->Err_0 == ContractError::PaymentError(one_coin_failure(info.funds@))
    &&& r is Ok ==> {
        let resp = r->Ok_0;
        &&& attrs_are(resp, seq![
            ("contract balance before action"@,
                decimal_digits(contract_balance.amount as nat) + contract_balance.denom@),
            ("recipient balance before action"@,
                decimal_digits(recipient_balance.amount as nat) + recipient_balance.denom@),
        ])
        &&& resp.messages@.len() == 1
        &&& is_bank_send(resp.messages@[0], receipient, info.funds@[0])
    }
}

/// Forwards the single coin attached to the message to `receipient`.
/// The balances, read beforehand for the coin's denomination, are reported
/// in the response.
pub fn send_funds(
    info: &MessageInfo,
    receipient: String,
    contract_balance: &Coin,
    recipient_balance: &Coin,
) -> (r: Result<Response, ContractError>)
    ensures
        send_funds_post(*info, receipient@, *contract_balance, *recipient_balance, r),
{
    let coin = match payment_coin(info) {
        Ok(c) => c,
        Err(e) => return Err(e),
    };
    let mut resp = Response::new();
    resp.attributes.push(attribute("contract balance before action", coin_string(contract_balance)));
    resp.attributes.push(attribute("recipient balance before action", coin_string(recipient_balance)));
    let mut amount: Vec<Coin> = Vec::new();
    amount.push(coin);
    let msg = CosmosMsg::BankSend { to_address: receipient, amount };
    resp.messages.push(SubMsg { id: UNUSED_MSG_ID, msg, reply_on: ReplyOn::Never });
    Ok(resp)
}

/// The submessage that asks `contract` to send `coin` back to `me`, with a
/// reply on success when `reply` is set.
pub open spec fn is_call_back(m: SubMsg, contract: Seq<char>, me: Seq<char>, coin: Coin, reply: bool) -> bool {
    &&& m.id == (if reply { REPLY_ID } else { UNUSED_MSG_ID })
    &&& m.reply_on == (if reply { ReplyOn::Success } else { ReplyOn::Never })
    &&& match m.msg {
        CosmosMsg::WasmExecute { contract_addr, msg, funds } => {
            &&& contract_addr@ == contract
            &&& funds@ == seq![coin]
            &&& (msg matches ExecuteMsg::SendFunds { receipient } && receipient@ == me)
        },
        _ => false,
    }
}

/// What calling does: the one-coin rule decides success, and a success
/// carries exactly the call-back submessage.
pub open spec fn call_contract_post(
    env: Env,
    info: MessageInfo,
    contract: Seq<char>,
    reply: bool,
    r: Result<Response, ContractError>,
) -> bool {
    &&& r is Ok <==> is_one_coin(info.funds@)
    &&& r is Err ==> r->Err_0 == ContractError::PaymentError(one_coin_failure(info.funds@))
    &&& r is Ok ==> {
        let resp = r->Ok_0;
        &&& resp.attributes@.len() == 0
        &&& resp.messages@.len() == 1
        &&& is_call_back(resp.messages@[0], contract, env.contract_address@, info.funds@[0], reply)
    }
}

/// Asks `contract` to send the attached coin back to this contract, as a
/// submessage that is replied to on success when `reply` is set.
pub fn call_contract(env: &Env, info: &MessageInfo, contract: String, reply: bool) -> (r: Result<
    Response,
    ContractError,
>)
    ensures
        call_contract_post(*env, *info, contract@, reply, r),
{
    let coin = match payment_coin(info) {
        Ok(c) => c,
        Err(e) => return Err(e),
    };
    let mut funds: Vec<Coin> = Vec::new();
    funds.push(coin);
    let back = ExecuteMsg::SendFunds { receipient: env.contract_address.clone() };
    let msg = CosmosMsg::WasmExecute { contract_addr: contract, msg: back, funds };
    let sub = if reply {
        SubMsg { id: REPLY_ID, msg, reply_on: ReplyOn::Success }
    } else {
        SubMsg { id: UNUSED_MSG_ID, msg, reply_on: ReplyOn::Never }
    };
    let mut resp = Response::new();
    resp.messages.push(sub);
    Ok(resp)
}

/// What filling does: keys `0..limit` come first, in order, the other keys
/// stay, and nothing else changes.
pub open spec fn fill_map_post(pre: State, post: State, limit: u64, r: Result<Response, ContractError>) -> bool {
    &&& post.count == pre.count
    &&& forall|k: u64| #[trigger] post.markers@.contains(k) <==> (k < limit || pre.markers@.contains(k))
    &&& post.markers@.len() >= limit
    &&& forall|i: int| 0 <= i < limit ==> post.markers@[i] == i
    &&& r is Ok
    &&& attrs_are(r->Ok_0, seq![("action"@, "fill_map"@)])
    &&& r->Ok_0.messages@.len() == 0
}

/// Writes a marker record under each key `0..limit`, overwriting those
/// already there; the other records stay.
pub fn fill_map(state: &mut State, limit: u64) -> (r: Result<Response, ContractError>)
    requires
        old(state).wf(),
    ensures
        final(state).wf(),
        fill_map_post(*old(state), *final(state), limit, r),
{
    let ghost old_keys = state.markers@;
    let mut keys: Vec<u64> = Vec::new();
    let mut i: u64 = 0;
    while i < limit
        invariant
            i <= limit,
            keys@.len() == i,
            forall|m: int| 0 <= m < i ==> keys@[m] == m,
        decreases limit - i,
    {
        keys.push(i);
        i = i + 1;
    }
    assert forall|x: u64| x < limit implies keys@.contains(x) by {
        assert(keys@[x as int] == x);
    }
    let mut j: usize = 0;
    while j < state.markers.len()
        invariant
            state.markers@ == old_keys,
            strictly_ascending(old_keys),
            j <= old_keys.len(),
            strictly_ascending(keys@),
            keys@.len() >= limit,
            forall|m: int| 0 <= m < limit ==> keys@[m] == m,
            forall|m: int| 0 <= m < keys@.len() ==> (keys@[m] < limit || exists|n: int| 0 <= n < j && old_keys[n] == #[trigger] keys@[m]),
            forall|k: u64| k < limit ==> keys@.contains(k),
            forall|n: int| 0 <= n < j && old_keys[n] >= limit ==> keys@.contains(#[trigger] old_keys[n]),
            keys@.len() > 0 ==> forall|n: int| j <= n < old_keys.len() && old_keys[n] >= limit ==> keys@.last() < #[trigger] old_keys[n],
        decreases old_keys.len() - j,
    {
        let k = state.markers[j];
        let ghost prev = keys@;
        if k >= limit {
            keys.push(k);
        }
        proof {
            assert forall|n: int| 0 <= n <= j && old_keys[n] >= limit implies keys@.contains(
                #[trigger] old_keys[n],
            ) by {
                if n == j {
                    assert(keys@[keys@.len() - 1] == k);
                } else {
                    let m = choose|m: int| 0 <= m < prev.len() && prev[m] == old_keys[n];
                    assert(keys@[m] == prev[m]);
                }
            }
            assert forall|x: u64| x < limit implies keys@.contains(x) by {
                assert(keys@[x as int] == x);
            }
        }
        j = j + 1;
    }
    assert forall|k: u64| #[trigger] keys@.contains(k) <==> (k < limit || old_keys.contains(k)) by {
        if keys@.contains(k) {
            let m = choose|m: int| 0 <= m < keys@.len() && keys@[m] == k;
            if k >= limit {
                let n = choose|n: int| 0 <= n < j && old_keys[n] == keys@[m];
                assert(old_keys.contains(k));
            }
        }
        if old_keys.contains(k) && k >= limit {
            let n = choose|n: int| 0 <= n < old_keys.len() && old_keys[n] == k;
            assert(keys@.contains(old_keys[n]));
        }
        if k < limit {
            assert(keys@.contains(k));
        }
    }
    state.markers = keys;
    let mut resp = Response::new();
    resp.attributes.push(attribute("action", "fill_map".to_owned()));
    Ok(resp)
}

/// What deleting does: `key` is gone, every other key stays.
pub open spec fn delete_post(pre: State, post: State, key: u64, r: Result<Response, ContractError>) -> bool {
    &&& post.count == pre.count
    &&& forall|k: u64| #[trigger] post.markers@.contains(k) <==> (k != key && pre.markers@.contains(k))
    &&& r is Ok
    &&& attrs_are(r->Ok_0, seq![("action"@, "delete_entry_on_map"@)])
    &&& r->Ok_0.messages@.len() == 0
}

/// Removes the marker record under `key`, if there is one.
pub fn delete_entry_on_map(state: &mut State, key: u64) -> (r: Result<Response, ContractError>)
    requires
        old(state).wf(),
    ensures
        final(state).wf(),
        delete_post(*old(state), *final(state), key, r),
{
    let ghost old_keys = state.markers@;
    let mut keys: Vec<u64> = Vec::new();
    let mut j: usize = 0;
    while j < state.markers.len()
        invariant
            state.markers@ == old_keys,
            strictly_ascending(old_keys),
            j <= old_keys.len(),
            strictly_ascending(keys@),
            forall|m: int| 0 <= m < keys@.len() ==> keys@[m] != key && exists|n: int| 0 <= n < j && old_keys[n] == #[trigger] keys@[m],
            forall|n: int| 0 <= n < j && old_keys[n] != key ==> keys@.contains(#[trigger] old_keys[n]),
            keys@.len() > 0 ==> forall|n: int| j <= n < old_keys.len() ==> keys@.last() < #[trigger] old_keys[n],
        decreases old_keys.len() - j,
    {
        let k = state.markers[j];
        let ghost prev = keys@;
        if k != key {
            keys.push(k);
        }
        proof {
            assert forall|n: int| 0 <= n <= j && old_keys[n] != key implies keys@.contains(
                #[trigger] old_keys[n],
            ) by {
                if n == j {
                    assert(keys@[keys@.len() - 1] == k);
                } else {
                    let m = choose|m: int| 0 <= m < prev.len() && prev[m] == old_keys[n];
                    assert(keys@[m] == prev[m]);
                }
            }
        }
        j = j + 1;
    }
    assert forall|k: u64| #[trigger] keys@.contains(k) <==> (k != key && old_keys.contains(k)) by {
        if keys@.contains(k) {
            let m = choose|m: int| 0 <= m < keys@.len() && keys@[m] == k;
            let n = choose|n: int| 0 <= n < j && old_keys[n] == keys@[m];
            assert(old_keys.contains(k));
        }
        if old_keys.contains(k) && k != key {
            let n = choose|n: int| 0 <= n < old_keys.len() && old_keys[n] == k;
            assert(keys@.contains(old_keys[n]));
        }
    }
    state.markers = keys;
    let mut resp = Response::new();
    resp.attributes.push(attribute("action", "delete_entry_on_map".to_owned()));
    Ok(resp)
}

} // verus!
