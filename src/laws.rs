//! Properties that hold across calls of the contract's handlers, proved from
//! the handlers' contracts.
use vstd::prelude::*;

use crate::commands::{delete_post, fill_map_post, increment_post, reset_post, send_funds_post};
use crate::contract::instantiate_post;
use crate::error::{ContractError, PaymentFailure, StdError};
use crate::msg::{Coin, CountResponse, InstantiateMsg, MessageInfo, Response};
use crate::queries::{count_post, entry_post, scan_len};
use crate::state::{lemma_state_determined_by_keys, MapEntry, State};

verus! {

/// Instantiating with a count `n` below the largest `u64` and then
/// incrementing succeeds and leaves the count at `n + 1`.
pub proof fn lemma_increment_after_instantiate(
    s0: State,
    s1: State,
    s2: State,
    sender: Seq<char>,
    n: u64,
    r1: Result<Response, ContractError>,
    r2: Result<Response, ContractError>,
)
    requires
        n < u64::MAX,
        instantiate_post(s0, s1, sender, InstantiateMsg { count: Some(n) }, r1),
        increment_post(s1, s2, r2),
    ensures
        r2 is Ok,
        s2.count == Some((n + 1) as u64),
{
}

/// A run of `k` increments from a count `c`, with `c + k` at most the largest
/// `u64`: every step succeeds and raises the count by exactly one, so the
/// count after `i` steps is `c + i`.
pub proof fn lemma_increment_run(
    states: Seq<State>,
    results: Seq<Result<Response, ContractError>>,
    c: u64,
    k: nat,
)
    requires
        states.len() == k + 1,
        results.len() == k,
        states[0].count == Some(c),
        c + k <= u64::MAX,
        forall|i: int| 0 <= i < k ==> increment_post(#[trigger] states[i], states[i + 1], results[i]),
    ensures
        forall|i: int| 0 <= i <= k ==> #[trigger] states[i].count == Some((c + i) as u64),
        forall|i: int| 0 <= i < k ==> (#[trigger] results[i]) is Ok,
    decreases k,
{
    if k > 0 {
        let k1 = (k - 1) as nat;
        let ps = states.drop_last();
        let pr = results.drop_last();
        assert forall|i: int| 0 <= i < k1 implies increment_post(#[trigger] ps[i], ps[i + 1], pr[i]) by {
            assert(increment_post(states[i], states[i + 1], results[i]));
        }
        lemma_increment_run(ps, pr, c, k1);
        assert(states[k1 as int] == ps[k1 as int]);
        assert(increment_post(states[k1 as int], states[k as int], results[k1 as int]));
        assert forall|i: int| 0 <= i <= k implies #[trigger] states[i].count == Some((c + i) as u64) by {
            if i < k {
                assert(states[i] == ps[i]);
            }
        }
        assert forall|i: int| 0 <= i < k implies (#[trigger] results[i]) is Ok by {
            if i < k1 {
                assert(results[i] == pr[i]);
            }
        }
    }
}

/// Every successful increment makes the count strictly larger; one that
/// would overflow fails and leaves the count alone.
pub proof fn lemma_increment_monotonic(s1: State, s2: State, r: Result<Response, ContractError>)
    requires
        increment_post(s1, s2, r),
    ensures
        r is Ok ==> s1.count is Some && s2.count is Some && s2.count->0 > s1.count->0,
        s1.count == Some(u64::MAX) ==> r is Err && s2.count == s1.count,
{
}

/// After a reset to `v`, reading the counter gives `v`, whatever the state
/// was before.
pub proof fn lemma_reset_then_count(
    s0: State,
    s1: State,
    v: u64,
    r1: Result<Response, ContractError>,
    r2: Result<CountResponse, ContractError>,
)
    requires
        reset_post(s0, s1, v, r1),
        count_post(s1, r2),
    ensures
        r2 matches Ok(c) && c.count == v,
{
}

/// After filling up to `limit`, a scan limited to `limit` returns exactly
/// `limit` records, and the keys it covers are `0..limit` in ascending order.
pub proof fn lemma_fill_then_iterate(
    s0: State,
    s1: State,
    limit: u64,
    r: Result<Response, ContractError>,
    entries: Seq<MapEntry>,
)
    requires
        s0.wf(),
        fill_map_post(s0, s1, limit, r),
        entries.len() == scan_len(s1, limit),
    ensures
        entries.len() == limit,
        s1.markers@.subrange(0, limit as int) =~= Seq::new(limit as nat, |i: int| i as u64),
{
}

/// Deleting a key always succeeds, present or not, and a lookup of that key
/// afterwards fails with `NotFound`; deleting an absent key changes nothing.
pub proof fn lemma_delete_then_get(
    s0: State,
    s1: State,
    key: u64,
    r1: Result<Response, ContractError>,
    r2: Result<MapEntry, ContractError>,
)
    requires
        s0.wf(),
        s1.wf(),
        delete_post(s0, s1, key, r1),
        entry_post(s1, key, r2),
    ensures
        r1 is Ok,
        r2 matches Err(ContractError::Std(StdError::NotFound)),
        !s0.markers@.contains(key) ==> s1.same_as(s0),
{
    if !s0.markers@.contains(key) {
        lemma_state_determined_by_keys(s1, s0);
    }
}

/// Sending with no coin attached fails with `NoFunds`; with two or more,
/// with `MultipleDenoms`.
pub proof fn lemma_send_funds_payment(
    info: MessageInfo,
    receipient: Seq<char>,
    contract_balance: Coin,
    recipient_balance: Coin,
    r: Result<Response, ContractError>,
)
    requires
        send_funds_post(info, receipient, contract_balance, recipient_balance, r),
    ensures
        info.funds@.len() == 0 ==> r == Err::<Response, ContractError>(
            ContractError::PaymentError(PaymentFailure::NoFunds),
        ),
        info.funds@.len() >= 2 ==> r == Err::<Response, ContractError>(
            ContractError::PaymentError(PaymentFailure::MultipleDenoms),
        ),
{
}

} // verus!
