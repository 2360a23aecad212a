use vstd::prelude::*;

verus! {

/// Lifecycle status of a lien record.
#[derive(Clone, Copy, Debug, PartialEq, Eq, Structural)]
pub enum TaxLienStatus {
    Pending,
    Invested,
    Redeemed,
    Claimed,
    Cancelled,
}

/// The closed transition graph: the only four moves an administrator may make.
pub open spec fn transition_allowed(from: TaxLienStatus, to: TaxLienStatus) -> bool {
    ||| from == TaxLienStatus::Pending && to == TaxLienStatus::Invested
    ||| from == TaxLienStatus::Pending && to == TaxLienStatus::Cancelled
    ||| from == TaxLienStatus::Invested && to == TaxLienStatus::Redeemed
    ||| from == TaxLienStatus::Invested && to == TaxLienStatus::Claimed
}

/// Depth of a status in the lifecycle tree; every allowed move goes one level down.
pub open spec fn stage(s: TaxLienStatus) -> nat {
    match s {
        TaxLienStatus::Pending => 0,
        TaxLienStatus::Invested | TaxLienStatus::Cancelled => 1,
        TaxLienStatus::Redeemed | TaxLienStatus::Claimed => 2,
    }
}

/// Whether the administrator may move a record from `from` to `to`.
pub fn is_valid_status_transition(from: &TaxLienStatus, to: &TaxLienStatus) -> (r: bool)
    ensures
        r == transition_allowed(*from, *to),
{
    match (from, to) {
        (TaxLienStatus::Pending, TaxLienStatus::Invested) => true,
        (TaxLienStatus::Pending, TaxLienStatus::Cancelled) => true,
        (TaxLienStatus::Invested, TaxLienStatus::Redeemed) => true,
        (TaxLienStatus::Invested, TaxLienStatus::Claimed) => true,
        _ => false,
    }
}

/// Of all ordered pairs of statuses, exactly the four listed moves are allowed:
/// no self-transition, no move backwards, no skipped stage, and nothing leaves
/// a terminal status.
pub proof fn lemma_transition_graph(from: TaxLienStatus, to: TaxLienStatus)
    ensures
        transition_allowed(from, to) <==> (from, to) == (TaxLienStatus::Pending,
            TaxLienStatus::Invested) || (from, to) == (TaxLienStatus::Pending,
            TaxLienStatus::Cancelled) || (from, to) == (TaxLienStatus::Invested,
            TaxLienStatus::Redeemed) || (from, to) == (TaxLienStatus::Invested,
            TaxLienStatus::Claimed),
        !transition_allowed(from, from),
        transition_allowed(from, to) ==> stage(from) < stage(to),
        transition_allowed(from, to) ==> stage(to) == stage(from) + 1,
        from == TaxLienStatus::Redeemed || from == TaxLienStatus::Claimed || from
            == TaxLienStatus::Cancelled ==> !transition_allowed(from, to),
{
}

} // verus!
