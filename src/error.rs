use vstd::prelude::*;

verus! {

/// Every way an operation on the ledger can fail. A failed operation changes nothing.
#[derive(Clone, Copy, Debug, PartialEq, Eq, Structural)]
pub enum TaxLienError {
    StateRequired,
    CountyRequired,
    ParcelIdRequired,
    FieldTooLong,
    InvestmentTooLow,
    InvestmentTooHigh,
    InvalidPropertyValue,
    InvalidAPR,
    InsufficientPayment,
    InvalidStatusTransition,
    NotRedeemable,
    NotClaimable,
    Unauthorized,
    InvalidDuration,
    PayoutOverflow,
    InsufficientFunds,
    NotFound,
    NotInitialized,
    AlreadyInitialized,
    CounterOverflow,
}

} // verus!
