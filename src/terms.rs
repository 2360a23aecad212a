use vstd::prelude::*;
use vstd::utf8::encode_utf8;

use crate::error::TaxLienError;

verus! {

/// Smallest face amount of a lien, in ledger units.
pub const MIN_INVESTMENT: u64 = 10_000_000;

/// Largest face amount of a lien, in ledger units.
pub const MAX_INVESTMENT: u64 = 1_000_000_000_000;

/// Service fee charged at issuance, in percent of the face amount.
pub const SERVICE_FEE_PERCENT: u64 = 3;

/// Lowest annual rate, in hundredths of a percent (8%).
pub const MIN_APR: u16 = 800;

/// Highest annual rate, in hundredths of a percent (24%).
pub const MAX_APR: u16 = 2400;

/// Longest jurisdiction, county or parcel text, in bytes.
pub const MAX_FIELD_BYTES: usize = 50;

/// Terms of a lien as submitted for issuance.
pub struct TaxLienData {
    pub state: String,
    pub county: String,
    pub parcel_id: String,
    pub face_amount: u64,
    pub property_value: u64,
    pub apr: u16,
}

/// Length in bytes of the UTF-8 encoding of a text.
pub open spec fn byte_len(s: Seq<char>) -> usize {
    encode_utf8(s).len() as usize
}

/// The error a text field raises, if any: empty, or longer than the limit.
pub open spec fn field_error(s: Seq<char>, missing: TaxLienError) -> Option<TaxLienError> {
    if s.len() == 0 {
        Some(missing)
    } else if byte_len(s) > MAX_FIELD_BYTES {
        Some(TaxLienError::FieldTooLong)
    } else {
        None
    }
}

/// The first rule that the terms break, checked in a fixed order, or `None`.
pub open spec fn terms_error(d: TaxLienData) -> Option<TaxLienError> {
    if field_error(d.state@, TaxLienError::StateRequired) is Some {
        field_error(d.state@, TaxLienError::StateRequired)
    } else if field_error(d.county@, TaxLienError::CountyRequired) is Some {
        field_error(d.county@, TaxLienError::CountyRequired)
    } else if field_error(d.parcel_id@, TaxLienError::ParcelIdRequired) is Some {
        field_error(d.parcel_id@, TaxLienError::ParcelIdRequired)
    } else if d.face_amount < MIN_INVESTMENT {
        Some(TaxLienError::InvestmentTooLow)
    } else if d.face_amount > MAX_INVESTMENT {
        Some(TaxLienError::InvestmentTooHigh)
    } else if d.property_value <= d.face_amount {
        Some(TaxLienError::InvalidPropertyValue)
    } else if d.apr < MIN_APR || d.apr > MAX_APR {
        Some(TaxLienError::InvalidAPR)
    } else {
        None
    }
}

/// Amounts and rate within the ranges that every issued lien keeps.
pub open spec fn terms_in_range(face_amount: u64, property_value: u64, apr: u16) -> bool {
    &&& MIN_INVESTMENT <= face_amount <= MAX_INVESTMENT
    &&& property_value > face_amount
    &&& MIN_APR <= apr <= MAX_APR
}

/// The service fee: the floor of three percent of the face amount.
pub open spec fn fee_of(face_amount: nat) -> nat {
    face_amount * SERVICE_FEE_PERCENT as nat / 100
}

/// What an investor must pay at least to be issued a lien.
pub open spec fn required_payment(face_amount: nat) -> nat {
    face_amount + fee_of(face_amount)
}

/// The first issuance rule that the terms and payment break, or `None`.
pub open spec fn issuance_error(d: TaxLienData, payment: u64) -> Option<TaxLienError> {
    if terms_error(d) is Some {
        terms_error(d)
    } else if payment < required_payment(d.face_amount as nat) {
        Some(TaxLienError::InsufficientPayment)
    } else {
        None
    }
}

/// A missing rule error as `Ok`, a present one as `Err`.
pub open spec fn as_result(e: Option<TaxLienError>) -> Result<(), TaxLienError> {
    match e {
        Some(e) => Err(e),
        None => Ok(()),
    }
}

fn check_field(s: &String, missing: TaxLienError) -> (r: Result<(), TaxLienError>)
    ensures
        r == as_result(field_error(s@, missing)),
{
    let text: &str = s.as_str();
    if text.is_empty() {
        Err(missing)
    } else if text.len() > MAX_FIELD_BYTES {
        Err(TaxLienError::FieldTooLong)
    } else {
        Ok(())
    }
}

/// Checks the text fields, the face amount, the property value and the rate, in that order.
pub fn validate_terms(d: &TaxLienData) -> (r: Result<(), TaxLienError>)
    ensures
        r == as_result(terms_error(*d)),
        r is Ok ==> terms_in_range(d.face_amount, d.property_value, d.apr),
{
    check_field(&d.state, TaxLienError::StateRequired)?;
    check_field(&d.county, TaxLienError::CountyRequired)?;
    check_field(&d.parcel_id, TaxLienError::ParcelIdRequired)?;
    if d.face_amount < MIN_INVESTMENT {
        return Err(TaxLienError::InvestmentTooLow);
    }
    if d.face_amount > MAX_INVESTMENT {
        return Err(TaxLienError::InvestmentTooHigh);
    }
    if d.property_value <= d.face_amount {
        return Err(TaxLienError::InvalidPropertyValue);
    }
    if d.apr < MIN_APR || d.apr > MAX_APR {
        return Err(TaxLienError::InvalidAPR);
    }
    Ok(())
}

/// The service fee on a face amount, computed without overflow for any `u64`.
pub fn service_fee(face_amount: u64) -> (r: u64)
    ensures
        r == fee_of(face_amount as nat),
{
    assert(face_amount * 3 <= u64::MAX * 3) by (nonlinear_arith);
    let wide: u128 = face_amount as u128 * SERVICE_FEE_PERCENT as u128;
    let fee: u128 = wide / 100;
    assert(fee <= face_amount) by (nonlinear_arith)
        requires
            wide == face_amount * 3,
            fee == wide / 100,
    ;
    fee as u64
}

/// Checks terms and payment; on success returns the service fee to collect.
pub fn validate_issuance(d: &TaxLienData, payment: u64) -> (r: Result<u64, TaxLienError>)
    ensures
        match issuance_error(*d, payment) {
            Some(e) => r == Err::<u64, TaxLienError>(e),
            None => r == Ok::<u64, TaxLienError>(fee_of(d.face_amount as nat) as u64),
        },
        r is Ok ==> terms_in_range(d.face_amount, d.property_value, d.apr),
{
    validate_terms(d)?;
    let fee = service_fee(d.face_amount);
    let total_required: u64 = d.face_amount + fee;
    if payment < total_required {
        return Err(TaxLienError::InsufficientPayment);
    }
    Ok(fee)
}

} // verus!
