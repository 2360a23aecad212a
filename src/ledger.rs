use vstd::prelude::*;

use crate::accrual::{compute_payout, payout_of, Payout};
use crate::error::TaxLienError;
use crate::status::{is_valid_status_transition, transition_allowed, TaxLienStatus};
use crate::terms::{fee_of, issuance_error, terms_in_range, validate_issuance, TaxLienData};

verus! {

broadcast use vstd::array::group_array_axioms;

/// An account identity: the 32 bytes of a public key.
#[derive(Clone, Copy, Debug)]
pub struct Pubkey {
    pub bytes: [u8; 32],
}

impl PartialEq for Pubkey {
    fn eq(&self, other: &Pubkey) -> (r: bool) {
        let mut i: usize = 0;
        while i < 32
            invariant
                0 <= i <= 32,
                forall|j: int| 0 <= j < i ==> self.bytes[j] == other.bytes[j],
            decreases 32 - i,
        {
            if self.bytes[i] != other.bytes[i] {
                return false;
            }
            i = i + 1;
        }
        assert(self.bytes =~= other.bytes);
        true
    }
}

impl vstd::std_specs::cmp::PartialEqSpecImpl for Pubkey {
    open spec fn obeys_eq_spec() -> bool {
        true
    }

    open spec fn eq_spec(&self, other: &Pubkey) -> bool {
        self.bytes == other.bytes
    }
}

impl Eq for Pubkey {

}

/// The registry: administrator, fee account, id counter and fee total.
#[derive(Clone, Copy, Debug, PartialEq, Eq)]
pub struct State {
    pub authority: Pubkey,
    pub treasury: Pubkey,
    pub next_token_id: u64,
    pub total_fees_collected: u64,
}

/// One issued lien.
#[derive(Debug)]
pub struct TaxLienNFT {
    pub id: u64,
    pub state: String,
    pub county: String,
    pub parcel_id: String,
    pub face_amount: u64,
    pub property_value: u64,
    pub apr: u16,
    pub issue_date: i64,
    pub status: TaxLienStatus,
    pub investor: Pubkey,
    pub invested_amount: u64,
    pub redemption_date: i64,
}

/// Who sets up the registry.
pub struct Initialize {
    pub authority: Pubkey,
}

/// Who asks for a new lien and pays for it.
pub struct MintTaxLien {
    pub investor: Pubkey,
}

/// Who moves which lien to a new status.
pub struct UpdateStatus {
    pub authority: Pubkey,
    pub token_id: u64,
}

/// Who redeems which lien.
pub struct RedeemNFT {
    pub investor: Pubkey,
    pub token_id: u64,
}

/// Who claims the property behind which lien.
pub struct ClaimProperty {
    pub investor: Pubkey,
    pub token_id: u64,
}

/// Emitted when a lien is issued.
#[derive(Debug)]
pub struct TaxLienMinted {
    pub token_id: u64,
    pub investor: Pubkey,
    pub parcel_id: String,
    pub face_amount: u64,
    pub apr: u16,
}

/// Emitted when the administrator moves a lien to a new status.
#[derive(Clone, Copy, Debug)]
pub struct StatusUpdated {
    pub token_id: u64,
    pub old_status: TaxLienStatus,
    pub new_status: TaxLienStatus,
}

/// Emitted when a lien is redeemed for cash.
#[derive(Clone, Copy, Debug)]
pub struct NFTRedeemed {
    pub token_id: u64,
    pub investor: Pubkey,
    pub payout: u64,
    pub interest: u64,
}

/// Emitted when an investor takes title to the property behind a lien.
#[derive(Clone, Copy, Debug)]
pub struct PropertyClaimed {
    pub token_id: u64,
    pub investor: Pubkey,
    pub property_value: u64,
}

/// The fee movement that issuance needs: from the investor to the fee account.
#[derive(Clone, Copy, Debug)]
pub struct FeeTransfer {
    pub from: Pubkey,
    pub to: Pubkey,
    pub amount: u64,
}

/// The payout movement that redemption needs: out of the pooled escrow, on the
/// registry's authority, to the investor.
#[derive(Clone, Copy, Debug)]
pub struct PayoutTransfer {
    pub to: Pubkey,
    pub amount: u64,
}

/// The registry and every live lien, each lien at the index equal to its id.
/// A slot is emptied for good when its lien is settled.
pub struct Ledger {
    state: Option<State>,
    liens: Vec<Option<TaxLienNFT>>,
    issued: Ghost<Seq<u64>>,
}

/// What a ledger holds: the registry, once set up; the slot of each id issued so
/// far; and the face amount of every lien ever issued, in id order.
pub struct LedgerView {
    pub state: Option<State>,
    pub liens: Seq<Option<TaxLienNFT>>,
    pub issued: Seq<u64>,
}

impl View for Ledger {
    type V = LedgerView;

    closed spec fn view(&self) -> LedgerView {
        LedgerView { state: self.state, liens: self.liens@, issued: self.issued@ }
    }
}

/// Sum of the service fees on a sequence of face amounts.
pub open spec fn fee_total(faces: Seq<u64>) -> nat
    decreases faces.len(),
{
    if faces.len() == 0 {
        0
    } else {
        fee_total(faces.drop_last()) + fee_of(faces.last() as nat)
    }
}

/// A live lien in slot `id`, issued for `face_amount`, within its invariants.
pub open spec fn record_ok(r: TaxLienNFT, id: int, face_amount: u64) -> bool {
    &&& r.id == id
    &&& r.face_amount == face_amount
    &&& terms_in_range(r.face_amount, r.property_value, r.apr)
    &&& r.status != TaxLienStatus::Redeemed ==> r.redemption_date == 0
}

impl LedgerView {
    /// Well-formed: no lien before set-up; afterwards one slot and one face amount
    /// per id issued, the fee total equal to the fees of all of them, and every
    /// live lien within its invariants.
    pub open spec fn wf(self) -> bool {
        match self.state {
            None => self.liens.len() == 0 && self.issued.len() == 0,
            Some(st) => {
                &&& self.liens.len() == st.next_token_id
                &&& self.issued.len() == st.next_token_id
                &&& st.total_fees_collected == fee_total(self.issued)
                &&& forall|i: int|
                    0 <= i < self.liens.len() && (#[trigger] self.liens[i]) is Some ==> record_ok(
                        self.liens[i].unwrap(),
                        i,
                        self.issued[i],
                    )
            },
        }
    }

    /// The live lien with the given id, if any.
    pub open spec fn lien(self, id: u64) -> Option<TaxLienNFT> {
        if id < self.liens.len() {
            self.liens[id as int]
        } else {
            None
        }
    }

    /// Why `initialize` would fail, if it would.
    pub open spec fn initialize_error(self) -> Option<TaxLienError> {
        if self.state is Some {
            Some(TaxLienError::AlreadyInitialized)
        } else {
            None
        }
    }

    /// Why issuance would fail before any fee moves, if it would: the registry is
    /// not set up, the terms or payment are refused, or a counter is full.
    pub open spec fn mint_error(self, data: TaxLienData, payment: u64) -> Option<TaxLienError> {
        match self.state {
            None => Some(TaxLienError::NotInitialized),
            Some(st) => if issuance_error(data, payment) is Some {
                issuance_error(data, payment)
            } else if st.next_token_id == u64::MAX || st.total_fees_collected + fee_of(
                data.face_amount as nat,
            ) > u64::MAX {
                Some(TaxLienError::CounterOverflow)
            } else {
                None
            },
        }
    }

    /// Why a status update would fail, if it would.
    pub open spec fn update_status_error(self, caller: Pubkey, token_id: u64, new_status: TaxLienStatus) -> Option<
        TaxLienError,
    > {
        match self.state {
            None => Some(TaxLienError::NotInitialized),
            Some(st) => match self.lien(token_id) {
                None => Some(TaxLienError::NotFound),
                Some(r) => if caller != st.authority {
                    Some(TaxLienError::Unauthorized)
                } else if !transition_allowed(r.status, new_status) {
                    Some(TaxLienError::InvalidStatusTransition)
                } else {
                    None
                },
            },
        }
    }

    /// Why a redemption would fail before any payout moves, if it would; else the payout.
    pub open spec fn redeem_outcome(self, caller: Pubkey, token_id: u64) -> Result<Payout, TaxLienError> {
        match self.state {
            None => Err(TaxLienError::NotInitialized),
            Some(st) => match self.lien(token_id) {
                None => Err(TaxLienError::NotFound),
                Some(r) => if r.status != TaxLienStatus::Redeemed {
                    Err(TaxLienError::NotRedeemable)
                } else if caller != r.investor {
                    Err(TaxLienError::Unauthorized)
                } else {
                    payout_of(r.face_amount, r.apr, r.issue_date, r.redemption_date)
                },
            },
        }
    }

    /// Why a claim would fail, if it would.
    pub open spec fn claim_error(self, caller: Pubkey, token_id: u64) -> Option<TaxLienError> {
        match self.state {
            None => Some(TaxLienError::NotInitialized),
            Some(st) => match self.lien(token_id) {
                None => Some(TaxLienError::NotFound),
                Some(r) => if r.status != TaxLienStatus::Claimed {
                    Some(TaxLienError::NotClaimable)
                } else if caller != r.investor {
                    Some(TaxLienError::Unauthorized)
                } else {
                    None
                },
            },
        }
    }
}

/// The record that issuance creates.
pub open spec fn minted_record(
    id: u64,
    data: TaxLienData,
    investor: Pubkey,
    payment: u64,
    now: i64,
) -> TaxLienNFT {
    TaxLienNFT {
        id,
        state: data.state,
        county: data.county,
        parcel_id: data.parcel_id,
        face_amount: data.face_amount,
        property_value: data.property_value,
        apr: data.apr,
        issue_date: now,
        status: TaxLienStatus::Pending,
        investor,
        invested_amount: payment,
        redemption_date: 0,
    }
}

proof fn lemma_fee_total_push(faces: Seq<u64>, face: u64)
    ensures
        fee_total(faces.push(face)) == fee_total(faces) + fee_of(face as nat),
{
    assert(faces.push(face).drop_last() =~= faces);
}

impl Ledger {
    pub open spec fn wf(&self) -> bool {
        self@.wf()
    }

    /// A ledger whose registry is not set up yet.
    pub fn new() -> (r: Ledger)
        ensures
            r@.state is None,
            r@.liens.len() == 0,
            r@.issued.len() == 0,
            r.wf(),
    {
        Ledger { state: None, liens: Vec::new(), issued: Ghost(Seq::empty()) }
    }

    /// The registry, once set up.
    pub fn state(&self) -> (r: Option<State>)
        ensures
            r == self@.state,
    {
        self.state
    }

    /// The live lien with the given id, if any.
    pub fn lien(&self, id: u64) -> (r: Option<&TaxLienNFT>)
        requires
            self.wf(),
        ensures
            match r {
                Some(rec) => self@.lien(id) == Some(*rec),
                None => self@.lien(id) is None,
            },
    {
        let len = self.liens.len();
        if id as u128 >= len as u128 {
            return None;
        }
        match &self.liens[id as usize] {
            Some(rec) => Some(rec),
            None => None,
        }
    }
}

/// Sets up the registry with the caller as administrator and `treasury` as the
/// fee account; fails with `AlreadyInitialized` if it is set up already.
pub fn initialize(ledger: &mut Ledger, ctx: &Initialize, treasury: Pubkey) -> (r: Result<
    (),
    TaxLienError,
>)
    requires
        old(ledger).wf(),
    ensures
        final(ledger).wf(),
        match old(ledger)@.initialize_error() {
            Some(e) => r == Err::<(), TaxLienError>(e) && final(ledger)@ == old(ledger)@,
            None => {
                &&& r is Ok
                &&& final(ledger)@.state == Some(
                    State {
                        authority: ctx.authority,
                        treasury,
                        next_token_id: 0,
                        total_fees_collected: 0,
                    },
                )
                &&& final(ledger)@.liens == old(ledger)@.liens
                &&& final(ledger)@.issued == old(ledger)@.issued
            },
        },
{
    if ledger.state.is_some() {
        return Err(TaxLienError::AlreadyInitialized);
    }
    ledger.state = Some(
        State { authority: ctx.authority, treasury, next_token_id: 0, total_fees_collected: 0 },
    );
    Ok(())
}

/// Decides whether a lien can be issued on these terms and this payment, and if
/// so which fee transfer must happen first. Changes nothing.
pub fn plan_mint(ledger: &Ledger, ctx: &MintTaxLien, data: &TaxLienData, payment: u64) -> (r:
    Result<FeeTransfer, TaxLienError>)
    requires
        ledger.wf(),
    ensures
        match ledger@.mint_error(*data, payment) {
            Some(e) => r == Err::<FeeTransfer, TaxLienError>(e),
            None => r == Ok::<FeeTransfer, TaxLienError>(
                FeeTransfer {
                    from: ctx.investor,
                    to: ledger@.state.unwrap().treasury,
                    amount: fee_of(data.face_amount as nat) as u64,
                },
            ),
        },
{
    let st = match ledger.state {
        Some(st) => st,
        None => return Err(TaxLienError::NotInitialized),
    };
    let fee = validate_issuance(data, payment)?;
    if st.next_token_id == u64::MAX || st.total_fees_collected > u64::MAX - fee {
        return Err(TaxLienError::CounterOverflow);
    }
    Ok(FeeTransfer { from: ctx.investor, to: st.treasury, amount: fee })
}

/// Issues a lien. `fee_transfer` is how the transfer that `plan_mint` asked for
/// went. On success the lien gets the next id, in status `Pending`, issued at
/// `now`; the id counter moves up by one and the fee total by the fee. On any
/// failure, a refused transfer included, nothing changes and no id is used.
pub fn mint_tax_lien(
    ledger: &mut Ledger,
    ctx: &MintTaxLien,
    data: TaxLienData,
    payment: u64,
    now: i64,
    fee_transfer: Result<(), TaxLienError>,
) -> (r: Result<TaxLienMinted, TaxLienError>)
    requires
        old(ledger).wf(),
    ensures
        final(ledger).wf(),
        r is Err ==> final(ledger)@ == old(ledger)@,
        match old(ledger)@.mint_error(data, payment) {
            Some(e) => r == Err::<TaxLienMinted, TaxLienError>(e),
            None => match fee_transfer {
                Err(e) => r == Err::<TaxLienMinted, TaxLienError>(e),
                Ok(_) => {
                    let st = old(ledger)@.state.unwrap();
                    let id = st.next_token_id;
                    let fee = fee_of(data.face_amount as nat);
                    &&& r matches Ok(ev) && ev.token_id == id && ev.investor == ctx.investor
                        && ev.parcel_id@ == data.parcel_id@ && ev.face_amount == data.face_amount
                        && ev.apr == data.apr
                    &&& final(ledger)@.state == Some(
                        State {
                            next_token_id: (id + 1) as u64,
                            total_fees_collected: (st.total_fees_collected + fee) as u64,
                            ..st
                        },
                    )
                    &&& final(ledger)@.liens == old(ledger)@.liens.push(
                        Some(minted_record(id, data, ctx.investor, payment, now)),
                    )
                    &&& final(ledger)@.issued == old(ledger)@.issued.push(data.face_amount)
                },
            },
        },
{
    let plan = plan_mint(ledger, ctx, &data, payment);
    match plan {
        Err(e) => return Err(e),
        Ok(_) => {},
    }
    match fee_transfer {
        Err(e) => return Err(e),
        Ok(()) => {},
    }
    let transfer = plan.unwrap();
    let st = ledger.state.unwrap();
    let id = st.next_token_id;
    let ev = TaxLienMinted {
        token_id: id,
        investor: ctx.investor,
        parcel_id: data.parcel_id.clone(),
        face_amount: data.face_amount,
        apr: data.apr,
    };
    let rec = TaxLienNFT {
        id,
        state: data.state,
        county: data.county,
        parcel_id: data.parcel_id,
        face_amount: data.face_amount,
        property_value: data.property_value,
        apr: data.apr,
        issue_date: now,
        status: TaxLienStatus::Pending,
        investor: ctx.investor,
        invested_amount: payment,
        redemption_date: 0,
    };
    proof {
        lemma_fee_total_push(ledger.issued@, rec.face_amount);
    }
    ledger.liens.push(Some(rec));
    ledger.issued = Ghost(ledger.issued@.push(rec.face_amount));
    ledger.state = Some(
        State {
            next_token_id: id + 1,
            total_fees_collected: st.total_fees_collected + transfer.amount,
            ..st
        },
    );
    proof {
        let v = ledger@;
        assert forall|i: int|
            0 <= i < v.liens.len() && (#[trigger] v.liens[i]) is Some implies record_ok(
            v.liens[i].unwrap(),
            i,
            v.issued[i],
        ) by {
            if i < id {
                assert(old(ledger)@.liens[i] == v.liens[i]);
            }
        }
    }
    Ok(ev)
}

/// Looks up a live lien for an operation: the registry must be set up and the
/// id must name a lien that is still there.
fn find_lien(ledger: &Ledger, token_id: u64) -> (r: Result<(State, usize), TaxLienError>)
    requires
        ledger.wf(),
    ensures
        match ledger@.state {
            None => r == Err::<(State, usize), TaxLienError>(TaxLienError::NotInitialized),
            Some(st) => match ledger@.lien(token_id) {
                None => r == Err::<(State, usize), TaxLienError>(TaxLienError::NotFound),
                Some(_) => r == Ok::<(State, usize), TaxLienError>((st, token_id as usize))
                    && token_id < ledger@.liens.len() && token_id as usize as int == token_id as int,
            },
        },
{
    let st = match ledger.state {
        Some(st) => st,
        None => return Err(TaxLienError::NotInitialized),
    };
    let len = ledger.liens.len();
    if token_id >= st.next_token_id {
        return Err(TaxLienError::NotFound);
    }
    let idx = token_id as usize;
    if ledger.liens[idx].is_none() {
        return Err(TaxLienError::NotFound);
    }
    Ok((st, idx))
}

/// The administrator moves a lien along the transition graph. Moving it to
/// `Redeemed` also stamps the redemption date with `now`. Never moves funds and
/// never removes the lien; on failure nothing changes.
pub fn update_status(
    ledger: &mut Ledger,
    ctx: &UpdateStatus,
    new_status: TaxLienStatus,
    now: i64,
) -> (r: Result<StatusUpdated, TaxLienError>)
    requires
        old(ledger).wf(),
    ensures
        final(ledger).wf(),
        match old(ledger)@.update_status_error(ctx.authority, ctx.token_id, new_status) {
            Some(e) => r == Err::<StatusUpdated, TaxLienError>(e) && final(ledger)@ == old(ledger)@,
            None => {
                let rec = old(ledger)@.lien(ctx.token_id).unwrap();
                let updated = TaxLienNFT {
                    status: new_status,
                    redemption_date: if new_status == TaxLienStatus::Redeemed {
                        now
                    } else {
                        rec.redemption_date
                    },
                    ..rec
                };
                &&& r == Ok::<StatusUpdated, TaxLienError>(
                    StatusUpdated {
                        token_id: ctx.token_id,
                        old_status: rec.status,
                        new_status,
                    },
                )
                &&& final(ledger)@.state == old(ledger)@.state
                &&& final(ledger)@.issued == old(ledger)@.issued
                &&& final(ledger)@.liens == old(ledger)@.liens.update(
                    ctx.token_id as int,
                    Some(updated),
                )
            },
        },
{
    let (st, idx) = find_lien(ledger, ctx.token_id)?;
    if ctx.authority != st.authority {
        return Err(TaxLienError::Unauthorized);
    }
    let old_status = match &ledger.liens[idx] {
        Some(rec) => rec.status,
        None => return Err(TaxLienError::NotFound),
    };
    if !is_valid_status_transition(&old_status, &new_status) {
        return Err(TaxLienError::InvalidStatusTransition);
    }
    let taken = ledger.liens[idx].take();
    let mut rec = taken.unwrap();
    rec.status = new_status;
    if new_status == TaxLienStatus::Redeemed {
        rec.redemption_date = now;
    }
    ledger.liens[idx] = Some(rec);
    Ok(StatusUpdated { token_id: ctx.token_id, old_status, new_status })
}

/// Decides whether a lien can be redeemed by the caller, and if so what it pays
/// out. Changes nothing.
pub fn plan_redeem(ledger: &Ledger, ctx: &RedeemNFT) -> (r: Result<PayoutTransfer, TaxLienError>)
    requires
        ledger.wf(),
    ensures
        match ledger@.redeem_outcome(ctx.investor, ctx.token_id) {
            Err(e) => r == Err::<PayoutTransfer, TaxLienError>(e),
            Ok(p) => r == Ok::<PayoutTransfer, TaxLienError>(
                PayoutTransfer { to: ctx.investor, amount: p.payout },
            ),
        },
{
    let payout = settle_payout(ledger, ctx)?;
    Ok(PayoutTransfer { to: ctx.investor, amount: payout.payout })
}

fn settle_payout(ledger: &Ledger, ctx: &RedeemNFT) -> (r: Result<Payout, TaxLienError>)
    requires
        ledger.wf(),
    ensures
        r == ledger@.redeem_outcome(ctx.investor, ctx.token_id),
{
    let (_, idx) = find_lien(ledger, ctx.token_id)?;
    match &ledger.liens[idx] {
        Some(rec) => {
            if rec.status != TaxLienStatus::Redeemed {
                return Err(TaxLienError::NotRedeemable);
            }
            if ctx.investor != rec.investor {
                return Err(TaxLienError::Unauthorized);
            }
            compute_payout(rec.face_amount, rec.apr, rec.issue_date, rec.redemption_date)
        },
        None => Err(TaxLienError::NotFound),
    }
}

/// The investor redeems a lien that the administrator has marked `Redeemed`.
/// `payout_transfer` is how the transfer that `plan_redeem` asked for went. On
/// success the lien is removed for good; on any failure, a refused transfer
/// included, nothing changes.
pub fn redeem_nft(
    ledger: &mut Ledger,
    ctx: &RedeemNFT,
    payout_transfer: Result<(), TaxLienError>,
) -> (r: Result<NFTRedeemed, TaxLienError>)
    requires
        old(ledger).wf(),
    ensures
        final(ledger).wf(),
        r is Err ==> final(ledger)@ == old(ledger)@,
        match old(ledger)@.redeem_outcome(ctx.investor, ctx.token_id) {
            Err(e) => r == Err::<NFTRedeemed, TaxLienError>(e),
            Ok(p) => match payout_transfer {
                Err(e) => r == Err::<NFTRedeemed, TaxLienError>(e),
                Ok(_) => {
                    &&& r == Ok::<NFTRedeemed, TaxLienError>(
                        NFTRedeemed {
                            token_id: ctx.token_id,
                            investor: ctx.investor,
                            payout: p.payout,
                            interest: p.interest,
                        },
                    )
                    &&& final(ledger)@.state == old(ledger)@.state
                    &&& final(ledger)@.issued == old(ledger)@.issued
                    &&& final(ledger)@.liens == old(ledger)@.liens.update(ctx.token_id as int, None)
                },
            },
        },
{
    let payout = settle_payout(ledger, ctx)?;
    match payout_transfer {
        Err(e) => return Err(e),
        Ok(()) => {},
    }
    let len = ledger.liens.len();
    assert(ctx.token_id < len);
    let idx = ctx.token_id as usize;
    ledger.liens[idx] = None;
    Ok(
        NFTRedeemed {
            token_id: ctx.token_id,
            investor: ctx.investor,
            payout: payout.payout,
            interest: payout.interest,
        },
    )
}

/// The investor takes title to the property behind a lien that the
/// administrator has marked `Claimed`. No funds move. On success the lien is
/// removed for good; on failure nothing changes.
pub fn claim_property(ledger: &mut Ledger, ctx: &ClaimProperty) -> (r: Result<
    PropertyClaimed,
    TaxLienError,
>)
    requires
        old(ledger).wf(),
    ensures
        final(ledger).wf(),
        match old(ledger)@.claim_error(ctx.investor, ctx.token_id) {
            Some(e) => r == Err::<PropertyClaimed, TaxLienError>(e) && final(ledger)@ == old(ledger)@,
            None => {
                &&& r == Ok::<PropertyClaimed, TaxLienError>(
                    PropertyClaimed {
                        token_id: ctx.token_id,
                        investor: ctx.investor,
                        property_value: old(ledger)@.lien(ctx.token_id).unwrap().property_value,
                    },
                )
                &&& final(ledger)@.state == old(ledger)@.state
                &&& final(ledger)@.issued == old(ledger)@.issued
                &&& final(ledger)@.liens == old(ledger)@.liens.update(ctx.token_id as int, None)
            },
        },
{
    let (_, idx) = find_lien(ledger, ctx.token_id)?;
    let property_value = match &ledger.liens[idx] {
        Some(rec) => {
            if rec.status != TaxLienStatus::Claimed {
                return Err(TaxLienError::NotClaimable);
            }
            if ctx.investor != rec.investor {
                return Err(TaxLienError::Unauthorized);
            }
            rec.property_value
        },
        None => return Err(TaxLienError::NotFound),
    };
    ledger.liens[idx] = None;
    Ok(PropertyClaimed { token_id: ctx.token_id, investor: ctx.investor, property_value })
}

} // verus!
