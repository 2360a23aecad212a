//! Lifecycle engine for tax-lien certificates: issuance checks, the status
//! state machine, fee computation and pro-rated payouts, all over a ledger of
//! records keyed by a gapless id.

mod accrual;
mod error;
mod laws;
mod ledger;
mod status;
mod terms;

pub use accrual::{
    annual_return, compute_payout, payout_of, pro_rated_returns, Payout, APR_SCALE,
    SECONDS_PER_YEAR,
};
pub use error::TaxLienError;
pub use laws::{
    lemma_fee_total_exact, lemma_ids_gapless, lemma_live_liens_in_range,
    lemma_out_of_range_terms_refused, lemma_redeem_needs_redeemed_status,
    lemma_settled_lien_is_gone,
};
pub use ledger::{
    claim_property, fee_total, initialize, mint_tax_lien, minted_record, plan_mint, plan_redeem,
    record_ok, redeem_nft, update_status, ClaimProperty, FeeTransfer, Initialize, Ledger,
    LedgerView, MintTaxLien, NFTRedeemed, PayoutTransfer, PropertyClaimed, Pubkey, RedeemNFT,
    State, StatusUpdated, TaxLienMinted, TaxLienNFT, UpdateStatus,
};
pub use status::{
    is_valid_status_transition, lemma_transition_graph, stage, transition_allowed, TaxLienStatus,
};
pub use terms::{
    byte_len, fee_of, field_error, issuance_error, required_payment, service_fee, terms_error,
    terms_in_range, validate_issuance, validate_terms, TaxLienData, MAX_APR, MAX_FIELD_BYTES,
    MAX_INVESTMENT, MIN_APR, MIN_INVESTMENT, SERVICE_FEE_PERCENT,
};
