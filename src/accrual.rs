use vstd::prelude::*;

use crate::error::TaxLienError;
use crate::terms::{MAX_APR, MAX_INVESTMENT};

verus! {

/// Seconds in a 365-day year, the period over which interest is pro-rated.
pub const SECONDS_PER_YEAR: u128 = 31_536_000;

/// Scale of the rate: a rate of this many units is 100% a year.
pub const APR_SCALE: u128 = 10_000;

/// What a redemption pays out.
#[derive(Clone, Copy, Debug, PartialEq, Eq, Structural)]
pub struct Payout {
    /// Face amount plus interest.
    pub payout: u64,
    /// Interest earned over the holding period.
    pub interest: u64,
}

/// Simple annual interest on the face amount, rounded down.
pub open spec fn annual_return(face_amount: nat, apr: nat) -> nat {
    face_amount * apr / APR_SCALE as nat
}

/// The annual interest pro-rated over `duration` seconds, rounded down.
pub open spec fn pro_rated_returns(face_amount: nat, apr: nat, duration: nat) -> nat {
    annual_return(face_amount, apr) * duration / SECONDS_PER_YEAR as nat
}

/// The outcome of settling a lien held from `issue_date` to `redemption_date`.
pub open spec fn payout_of(face_amount: u64, apr: u16, issue_date: i64, redemption_date: i64) -> Result<
    Payout,
    TaxLienError,
> {
    let duration = redemption_date - issue_date;
    if duration < 0 {
        Err(TaxLienError::InvalidDuration)
    } else {
        let interest = pro_rated_returns(face_amount as nat, apr as nat, duration as nat);
        if face_amount + interest > u64::MAX {
            Err(TaxLienError::PayoutOverflow)
        } else {
            Ok(Payout { payout: (face_amount + interest) as u64, interest: interest as u64 })
        }
    }
}

/// Computes the payout of a lien, with every intermediate product held in 128 bits.
/// A redemption date before the issue date fails with `InvalidDuration`; a payout
/// that does not fit a `u64` fails with `PayoutOverflow`.
pub fn compute_payout(face_amount: u64, apr: u16, issue_date: i64, redemption_date: i64) -> (r:
    Result<Payout, TaxLienError>)
    requires
        face_amount <= MAX_INVESTMENT,
        apr <= MAX_APR,
    ensures
        r == payout_of(face_amount, apr, issue_date, redemption_date),
{
    let duration: i128 = redemption_date as i128 - issue_date as i128;
    if duration < 0 {
        return Err(TaxLienError::InvalidDuration);
    }
    assert(face_amount * apr <= 1_000_000_000_000 * 2400) by (nonlinear_arith)
        requires
            face_amount <= 1_000_000_000_000u64,
            apr <= 2400u16,
    ;
    let yearly: u128 = face_amount as u128 * apr as u128;
    let annual: u128 = yearly / APR_SCALE;
    let span: u128 = duration as u128;
    assert(annual * span <= 1_000_000_000_000 * 2400 * 0x1_0000_0000_0000_0000) by (nonlinear_arith)
        requires
            annual <= yearly,
            yearly <= 1_000_000_000_000 * 2400,
            span <= 0x1_0000_0000_0000_0000,
    ;
    let interest: u128 = annual * span / SECONDS_PER_YEAR;
    if interest > (u64::MAX - face_amount) as u128 {
        return Err(TaxLienError::PayoutOverflow);
    }
    Ok(Payout { payout: face_amount + interest as u64, interest: interest as u64 })
}

} // verus!
