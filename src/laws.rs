use vstd::prelude::*;

use crate::error::TaxLienError;
use crate::ledger::{fee_total, LedgerView, Pubkey};
use crate::status::TaxLienStatus;
use crate::terms::{terms_in_range, TaxLienData};

verus! {

/// Every live lien of a well-formed ledger keeps its terms in range: face amount
/// within the limits, property value above it, rate within the limits.
pub proof fn lemma_live_liens_in_range(l: LedgerView, id: u64)
    requires
        l.wf(),
        l.lien(id) is Some,
    ensures
        terms_in_range(
            l.lien(id).unwrap().face_amount,
            l.lien(id).unwrap().property_value,
            l.lien(id).unwrap().apr,
        ),
{
    assert(l.liens[id as int] is Some);
}

/// Terms out of range are refused before anything changes: issuance on them
/// fails whatever the payment.
pub proof fn lemma_out_of_range_terms_refused(l: LedgerView, data: TaxLienData, payment: u64)
    requires
        !terms_in_range(data.face_amount, data.property_value, data.apr),
    ensures
        l.mint_error(data, payment) is Some,
{
}

/// Ids are gapless: the counter equals the number of liens ever issued, and each
/// live lien sits at the slot of its own id, below the counter.
pub proof fn lemma_ids_gapless(l: LedgerView, id: u64)
    requires
        l.wf(),
        l.state is Some,
    ensures
        l.issued.len() == l.state.unwrap().next_token_id,
        l.liens.len() == l.state.unwrap().next_token_id,
        l.lien(id) is Some ==> l.lien(id).unwrap().id == id && id < l.state.unwrap().next_token_id,
{
    if l.lien(id) is Some {
        assert(l.liens[id as int] is Some);
    }
}

/// The fee total equals the sum of the service fees of every lien ever issued,
/// settled ones included.
pub proof fn lemma_fee_total_exact(l: LedgerView)
    requires
        l.wf(),
        l.state is Some,
    ensures
        l.state.unwrap().total_fees_collected == fee_total(l.issued),
{
}

/// A lien can be redeemed only once the administrator has marked it `Redeemed`:
/// from `Pending` or `Invested` redemption fails with `NotRedeemable`.
pub proof fn lemma_redeem_needs_redeemed_status(l: LedgerView, caller: Pubkey, id: u64)
    requires
        l.state is Some,
        l.lien(id) is Some,
    ensures
        l.lien(id).unwrap().status != TaxLienStatus::Redeemed ==> l.redeem_outcome(caller, id)
            == Err::<crate::accrual::Payout, TaxLienError>(TaxLienError::NotRedeemable),
        l.redeem_outcome(caller, id) is Ok ==> l.lien(id).unwrap().status
            == TaxLienStatus::Redeemed && caller == l.lien(id).unwrap().investor,
{
}

/// Once a lien is settled, by redemption or by claim, it is gone: every later
/// operation on its id fails with `NotFound`.
pub proof fn lemma_settled_lien_is_gone(
    before: LedgerView,
    after: LedgerView,
    id: u64,
    caller: Pubkey,
    new_status: TaxLienStatus,
)
    requires
        before.wf(),
        before.lien(id) is Some,
        after.state == before.state,
        after.issued == before.issued,
        after.liens == before.liens.update(id as int, None),
    ensures
        after.wf(),
        after.lien(id) is None,
        after.update_status_error(caller, id, new_status) == Some(TaxLienError::NotFound),
        after.redeem_outcome(caller, id) == Err::<crate::accrual::Payout, TaxLienError>(
            TaxLienError::NotFound,
        ),
        after.claim_error(caller, id) == Some(TaxLienError::NotFound),
{
    assert forall|i: int|
        0 <= i < after.liens.len() && (#[trigger] after.liens[i]) is Some implies crate::ledger::record_ok(
        after.liens[i].unwrap(),
        i,
        after.issued[i],
    ) by {
        assert(before.liens[i] == after.liens[i]);
    }
}

} // verus!
