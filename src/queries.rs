use vstd::prelude::*;

use crate::error::{ContractError, StdError};
use crate::msg::CountResponse;
use crate::state::{MapEntry, State};

verus! {

/// The number of records a scan that stops after `limit` returns.
pub open spec fn scan_len(state: State, limit: u64) -> nat {
    if limit < state.markers@.len() { limit as nat } else { state.markers@.len() }
}

/// What reading the counter gives: its value, or `NotFound` before it is set.
pub open spec fn count_post(state: State, r: Result<CountResponse, ContractError>) -> bool {
    match state.count {
        Some(n) => r matches Ok(c) && c.count == n,
        None => r matches Err(ContractError::Std(StdError::NotFound)),
    }
}

/// The counter's current value.
pub fn query_count(state: &State) -> (r: Result<CountResponse, ContractError>)
    ensures
        count_post(*state, r),
{
    match state.count {
        Some(count) => Ok(CountResponse { count }),
        None => Err(ContractError::Std(StdError::NotFound)),
    }
}

/// The records of the marker map in ascending key order, the first `limit`
/// of them. A record holds nothing, so how many there are says all.
pub fn iterate_map(state: &State, limit: u64) -> (r: Vec<MapEntry>)
    ensures
        r@.len() == scan_len(*state, limit),
{
    let len = state.markers.len();
    let n: usize = if (limit as u128) < (len as u128) { limit as usize } else { len };
    let mut entries: Vec<MapEntry> = Vec::new();
    let mut i: usize = 0;
    while i < n
        invariant
            i <= n,
            n == scan_len(*state, limit),
            entries@.len() == i,
        decreases n - i,
    {
        entries.push(MapEntry {});
        i = i + 1;
    }
    entries
}

/// What a lookup gives: the record when the key holds one, else `NotFound`.
pub open spec fn entry_post(state: State, key: u64, r: Result<MapEntry, ContractError>) -> bool {
    &&& r is Ok <==> state.markers@.contains(key)
    &&& r is Err ==> r matches Err(ContractError::Std(StdError::NotFound))
}

/// The record stored under `key`.
pub fn get_entry(state: &State, key: u64) -> (r: Result<MapEntry, ContractError>)
    ensures
        entry_post(*state, key, r),
{
    let mut i: usize = 0;
    while i < state.markers.len()
        invariant
            i <= state.markers@.len(),
            forall|m: int| 0 <= m < i ==> state.markers@[m] != key,
        decreases state.markers@.len() - i,
    {
        if state.markers[i] == key {
            return Ok(MapEntry {});
        }
        i = i + 1;
    }
    Err(ContractError::Std(StdError::NotFound))
}

} // verus!
