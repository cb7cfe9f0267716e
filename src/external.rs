//! Calls into outside crates, each with the contract the crate's source gives it.
use vstd::prelude::*;

use crate::error::PaymentFailure;
use crate::msg::Coin;

verus! {

/// An action of the ownership capability, carried through unopened.
#[verifier::external_type_specification]
#[verifier::external_body]
pub struct ExAction(cw_ownable::Action);

/// A failure of the ownership capability, carried through unopened.
#[verifier::external_type_specification]
#[verifier::external_body]
pub struct ExOwnershipError(cw_ownable::OwnershipError);

/// A payment failure of cw_utils, converted at once into this crate's own.
#[verifier::external_type_specification]
#[verifier::external_body]
pub struct ExPaymentError(cw_utils::PaymentError);

/// The payment rule of a message that needs exactly one coin: one entry,
/// with a non-zero amount.
pub open spec fn is_one_coin(funds: Seq<Coin>) -> bool {
    funds.len() == 1 && funds[0].amount > 0
}

/// The error of a payment that breaks the one-coin rule.
pub open spec fn one_coin_failure(funds: Seq<Coin>) -> PaymentFailure {
    if funds.len() >= 2 {
        PaymentFailure::MultipleDenoms
    } else {
        PaymentFailure::NoFunds
    }
}

/// The digit character of `d`, for `d < 10`.
pub open spec fn digit_char(d: nat) -> char {
    if d == 0 { '0' }
    else if d == 1 { '1' }
    else if d == 2 { '2' }
    else if d == 3 { '3' }
    else if d == 4 { '4' }
    else if d == 5 { '5' }
    else if d == 6 { '6' }
    else if d == 7 { '7' }
    else if d == 8 { '8' }
    else { '9' }
}

/// The decimal notation of `n`, without leading zeros.
pub open spec fn decimal_digits(n: nat) -> Seq<char>
    decreases n,
{
    if n < 10 {
        seq![digit_char(n)]
    } else {
        decimal_digits(n / 10) + seq![digit_char(n % 10)]
    }
}

/// Whether `s` parses as a semantic version.
pub uninterp spec fn is_semver(s: Seq<char>) -> bool;

/// Relies on cw_utils::one_coin: a single non-zero coin is returned as it is,
/// no coin or a zero amount gives `NoFunds`, two or more give `MultipleDenoms`.
#[verifier::external_body]
pub(crate) fn one_coin(funds: &Vec<Coin>) -> (r: Result<Coin, PaymentFailure>)
    ensures
        r is Ok <==> is_one_coin(funds@),
        r is Ok ==> r->Ok_0 == funds@[0],
        r is Err ==> r->Err_0 == one_coin_failure(funds@),
{
    let info = cosmwasm_std::MessageInfo {
        sender: cosmwasm_std::Addr::unchecked(""),
        funds: funds.iter().map(|c| cosmwasm_std::Coin::new(c.amount, c.denom.clone())).collect(),
    };
    match cw_utils::one_coin(&info) {
        Ok(c) => Ok(Coin { denom: c.denom, amount: c.amount.u128() }),
        Err(e) => Err(payment_error(e)),
    }
}

/// Relies on cw_utils::nonpayable: a message without funds passes, any other
/// fails with `NonPayable`.
#[verifier::external_body]
pub(crate) fn nonpayable(funds: &Vec<Coin>) -> (r: Result<(), PaymentFailure>)
    ensures
        r is Ok <==> funds@.len() == 0,
        r is Err ==> r->Err_0 == PaymentFailure::NonPayable,
{
    let info = cosmwasm_std::MessageInfo {
        sender: cosmwasm_std::Addr::unchecked(""),
        funds: funds.iter().map(|c| cosmwasm_std::Coin::new(c.amount, c.denom.clone())).collect(),
    };
    cw_utils::nonpayable(&info).map_err(payment_error)
}

/// Converts cw_utils::PaymentError into this crate's error, variant for variant.
#[verifier::external_body]
fn payment_error(e: cw_utils::PaymentError) -> PaymentFailure {
    match e {
        cw_utils::PaymentError::MissingDenom(d) => PaymentFailure::MissingDenom(d),
        cw_utils::PaymentError::ExtraDenom(d) => PaymentFailure::ExtraDenom(d),
        cw_utils::PaymentError::MultipleDenoms {} => PaymentFailure::MultipleDenoms,
        cw_utils::PaymentError::NoFunds {} => PaymentFailure::NoFunds,
        cw_utils::PaymentError::NonPayable {} => PaymentFailure::NonPayable,
    }
}

/// Relies on std's `Display` for integers: decimal digits, no leading zeros.
#[verifier::external_body]
pub(crate) fn decimal(n: u128) -> (r: String)
    ensures
        r@ == decimal_digits(n as nat),
{
    n.to_string()
}

/// Relies on the `Display` of cosmwasm_std::Coin: the amount in decimal,
/// directly followed by the denomination.
#[verifier::external_body]
pub(crate) fn coin_string(c: &Coin) -> (r: String)
    ensures
        r@ == decimal_digits(c.amount as nat) + c.denom@,
{
    cosmwasm_std::Coin::new(c.amount, c.denom.clone()).to_string()
}

/// Relies on semver::Version::parse, for whether the text is a version; a
/// failure carries the parser's message.
#[verifier::external_body]
pub(crate) fn parse_version(s: &String) -> (r: Result<(), String>)
    ensures
        r is Ok <==> is_semver(s@),
{
    match semver::Version::parse(s) {
        Ok(_) => Ok(()),
        Err(e) => Err(e.to_string()),
    }
}

} // verus!
