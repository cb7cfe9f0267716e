use vstd::prelude::*;

verus! {

/// Failures that come from reading the stored state.
#[derive(Debug, Clone, PartialEq, Eq, Structural)]
pub enum StdError {
    /// A value was looked up under a key that holds nothing.
    NotFound,
    /// The counter would pass the largest `u64`.
    Overflow,
}

/// Wrong number or kind of funds attached to a message.
#[derive(Debug, Clone, PartialEq, Eq)]
pub enum PaymentFailure {
    MissingDenom(String),
    ExtraDenom(String),
    MultipleDenoms,
    NoFunds,
    NonPayable,
}

/// Every way an entry point of the contract can fail.
#[derive(Debug)]
pub enum ContractError {
    Std(StdError),
    OwnershipError(cw_ownable::OwnershipError),
    SemVer(String),
    PaymentError(PaymentFailure),
    /// A reply arrived for a correlation id that no submessage carries.
    UnknownReplyId(u64),
}

} // verus!
