//! Sanity checks on prices derived from the balances of a pool's vaults.

use crate::binary64::{Binary64, ONE_THOUSAND_BITS, ZERO_BITS};
use crate::error::AppError;
use vstd::prelude::*;
use vstd::string::StringExecFns;

verus! {

/// The checks on price data that vault balances yield.
#[derive(Debug)]
pub struct PriceCalculator;

/// Why price data is refused.
pub enum PriceFault {
    Negative,
    TooHigh,
    ZeroBalance,
}

/// The first fault of a price in SOL and the two raw balances it was derived
/// from: a price below zero, a price above one thousand, a balance of zero.
pub open spec fn price_fault(price_sol: Binary64, base_balance: u64, quote_balance: u64) -> Option<
    PriceFault,
> {
    if price_sol.below(Binary64 { bits: ZERO_BITS }) {
        Some(PriceFault::Negative)
    } else if (Binary64 { bits: ONE_THOUSAND_BITS }).below(price_sol) {
        Some(PriceFault::TooHigh)
    } else if base_balance == 0 || quote_balance == 0 {
        Some(PriceFault::ZeroBalance)
    } else {
        None
    }
}

/// The words in which a fault is reported.
pub open spec fn fault_text(fault: PriceFault) -> Seq<char> {
    match fault {
        PriceFault::Negative => "Negative price"@,
        PriceFault::TooHigh => "Unreasonably high price"@,
        PriceFault::ZeroBalance => "Zero balance detected"@,
    }
}

impl PriceCalculator {
    /// Accepts price data without fault and refuses the rest, naming the
    /// first fault.
    pub fn validate_price_data(price_sol: Binary64, base_balance: u64, quote_balance: u64) -> (checked:
        Result<(), AppError>)
        ensures
            price_fault(price_sol, base_balance, quote_balance) is None ==> checked is Ok,
            price_fault(price_sol, base_balance, quote_balance) matches Some(fault) ==> (checked
                matches Err(AppError::InvalidPrice(why)) && why@ == fault_text(fault)),
    {
        if price_sol.lt(Binary64 { bits: ZERO_BITS }) {
            return Err(AppError::InvalidPrice(String::from_str("Negative price")));
        }
        if price_sol.gt(Binary64 { bits: ONE_THOUSAND_BITS }) {
            return Err(AppError::InvalidPrice(String::from_str("Unreasonably high price")));
        }
        if base_balance == 0 || quote_balance == 0 {
            return Err(AppError::InvalidPrice(String::from_str("Zero balance detected")));
        }
        Ok(())
    }
}

} // verus!
