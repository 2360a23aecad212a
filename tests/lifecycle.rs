use taxlien_nft::{
    claim_property, compute_payout, initialize, is_valid_status_transition, mint_tax_lien,
    plan_mint, plan_redeem, redeem_nft, service_fee, update_status, validate_issuance,
    ClaimProperty, Initialize, Ledger, MintTaxLien, Payout, Pubkey, RedeemNFT, TaxLienData,
    TaxLienError, TaxLienStatus, UpdateStatus,
};

const ADMIN: Pubkey = Pubkey { bytes: [1; 32] };
const TREASURY: Pubkey = Pubkey { bytes: [2; 32] };
const ALICE: Pubkey = Pubkey { bytes: [3; 32] };
const BOB: Pubkey = Pubkey { bytes: [4; 32] };

fn terms(face_amount: u64, property_value: u64, apr: u16) -> TaxLienData {
    TaxLienData {
        state: "FL".to_string(),
        county: "Miami-Dade".to_string(),
        parcel_id: "01-3125-045-0010".to_string(),
        face_amount,
        property_value,
        apr,
    }
}

fn ready_ledger() -> Ledger {
    let mut ledger = Ledger::new();
    initialize(&mut ledger, &Initialize { authority: ADMIN }, TREASURY).unwrap();
    ledger
}

fn mint(ledger: &mut Ledger, investor: Pubkey, data: TaxLienData, payment: u64, now: i64) -> Result<u64, TaxLienError> {
    mint_tax_lien(ledger, &MintTaxLien { investor }, data, payment, now, Ok(())).map(|ev| ev.token_id)
}

fn set_status(ledger: &mut Ledger, id: u64, status: TaxLienStatus, now: i64) -> Result<(), TaxLienError> {
    update_status(ledger, &UpdateStatus { authority: ADMIN, token_id: id }, status, now).map(|_| ())
}

const ALL: [TaxLienStatus; 5] = [
    TaxLienStatus::Pending,
    TaxLienStatus::Invested,
    TaxLienStatus::Redeemed,
    TaxLienStatus::Claimed,
    TaxLienStatus::Cancelled,
];

#[test]
fn payout_example_half_year() {
    let r = compute_payout(100_000_000, 1200, 0, 15_768_000).unwrap();
    assert_eq!(r, Payout { payout: 106_000_000, interest: 6_000_000 });
}

#[test]
fn payout_zero_duration_returns_face() {
    let r = compute_payout(50_000_000, 800, 1000, 1000).unwrap();
    assert_eq!(r, Payout { payout: 50_000_000, interest: 0 });
}

#[test]
fn payout_full_year_rounds_down() {
    // 10,000,001 * 2400 / 10000 = 2,400,000.24 -> 2,400,000 a year
    let r = compute_payout(10_000_001, 2400, 0, 31_536_000).unwrap();
    assert_eq!(r, Payout { payout: 12_400_001, interest: 2_400_000 });
}

#[test]
fn payout_negative_duration_fails() {
    assert_eq!(compute_payout(100_000_000, 1200, 100, 99), Err(TaxLienError::InvalidDuration));
}

#[test]
fn payout_overflow_fails() {
    assert_eq!(
        compute_payout(1_000_000_000_000, 2400, i64::MIN, i64::MAX),
        Err(TaxLienError::PayoutOverflow)
    );
}

#[test]
fn fee_example() {
    assert_eq!(service_fee(100_000_000), 3_000_000);
    assert_eq!(service_fee(10_000_033), 300_000);
    assert_eq!(service_fee(u64::MAX), 553_402_322_211_286_548);
}

#[test]
fn required_payment_boundary() {
    let ok = validate_issuance(&terms(100_000_000, 200_000_000, 1200), 103_000_000);
    assert_eq!(ok, Ok(3_000_000));
    let short = validate_issuance(&terms(100_000_000, 200_000_000, 1200), 102_999_999);
    assert_eq!(short, Err(TaxLienError::InsufficientPayment));
}

#[test]
fn insufficient_payment_leaves_ledger_untouched() {
    let mut ledger = ready_ledger();
    let r = mint(&mut ledger, ALICE, terms(100_000_000, 200_000_000, 1200), 102_999_999, 0);
    assert_eq!(r, Err(TaxLienError::InsufficientPayment));
    let st = ledger.state().unwrap();
    assert_eq!(st.next_token_id, 0);
    assert_eq!(st.total_fees_collected, 0);
}

#[test]
fn validation_examples() {
    assert_eq!(
        validate_issuance(&terms(9_999_999, 200_000_000, 1200), u64::MAX),
        Err(TaxLienError::InvestmentTooLow)
    );
    assert_eq!(
        validate_issuance(&terms(100_000_000, 100_000_000, 1200), u64::MAX),
        Err(TaxLienError::InvalidPropertyValue)
    );
    assert_eq!(
        validate_issuance(&terms(100_000_000, 200_000_000, 2401), u64::MAX),
        Err(TaxLienError::InvalidAPR)
    );
    assert_eq!(
        validate_issuance(&terms(100_000_000, 200_000_000, 799), u64::MAX),
        Err(TaxLienError::InvalidAPR)
    );
    assert_eq!(
        validate_issuance(&terms(1_000_000_000_001, u64::MAX, 1200), u64::MAX),
        Err(TaxLienError::InvestmentTooHigh)
    );
}

#[test]
fn range_edges_accepted() {
    assert_eq!(validate_issuance(&terms(10_000_000, 10_000_001, 800), 10_300_000), Ok(300_000));
    assert_eq!(
        validate_issuance(&terms(1_000_000_000_000, 1_000_000_000_001, 2400), 1_030_000_000_000),
        Ok(30_000_000_000)
    );
}

#[test]
fn text_fields_checked_in_order() {
    let mut d = terms(100_000_000, 200_000_000, 1200);
    d.state = String::new();
    d.county = String::new();
    assert_eq!(validate_issuance(&d, u64::MAX), Err(TaxLienError::StateRequired));
    let mut d = terms(100_000_000, 200_000_000, 1200);
    d.county = String::new();
    assert_eq!(validate_issuance(&d, u64::MAX), Err(TaxLienError::CountyRequired));
    let mut d = terms(100_000_000, 200_000_000, 1200);
    d.parcel_id = String::new();
    assert_eq!(validate_issuance(&d, u64::MAX), Err(TaxLienError::ParcelIdRequired));
    let mut d = terms(100_000_000, 200_000_000, 1200);
    d.county = "x".repeat(51);
    assert_eq!(validate_issuance(&d, u64::MAX), Err(TaxLienError::FieldTooLong));
    let mut d = terms(100_000_000, 200_000_000, 1200);
    d.parcel_id = "x".repeat(50);
    assert_eq!(validate_issuance(&d, u64::MAX), Ok(3_000_000));
    let mut d = terms(100_000_000, 200_000_000, 1200);
    // 26 two-byte characters: 26 characters but 52 bytes
    d.state = "é".repeat(26);
    assert_eq!(validate_issuance(&d, u64::MAX), Err(TaxLienError::FieldTooLong));
}

#[test]
fn ids_are_gapless_and_failures_consume_none() {
    let mut ledger = ready_ledger();
    assert_eq!(mint(&mut ledger, ALICE, terms(100_000_000, 200_000_000, 1200), 103_000_000, 0), Ok(0));
    assert_eq!(
        mint(&mut ledger, ALICE, terms(9_999_999, 200_000_000, 1200), 103_000_000, 0),
        Err(TaxLienError::InvestmentTooLow)
    );
    let refused = mint_tax_lien(
        &mut ledger,
        &MintTaxLien { investor: BOB },
        terms(100_000_000, 200_000_000, 1200),
        103_000_000,
        0,
        Err(TaxLienError::InsufficientFunds),
    );
    assert_eq!(refused.map(|ev| ev.token_id), Err(TaxLienError::InsufficientFunds));
    assert_eq!(mint(&mut ledger, BOB, terms(20_000_000, 30_000_000, 900), 20_600_000, 5), Ok(1));
    assert_eq!(mint(&mut ledger, BOB, terms(30_000_000, 40_000_000, 900), 40_000_000, 6), Ok(2));
    assert_eq!(ledger.state().unwrap().next_token_id, 3);
    assert!(ledger.lien(3).is_none());
}

#[test]
fn fee_total_is_sum_of_fees() {
    let mut ledger = ready_ledger();
    mint(&mut ledger, ALICE, terms(100_000_000, 200_000_000, 1200), 103_000_000, 0).unwrap();
    mint(&mut ledger, ALICE, terms(10_000_033, 20_000_000, 1200), 11_000_000, 0).unwrap();
    let _ = mint(&mut ledger, ALICE, terms(10_000_033, 20_000_000, 1200), 10_000_000, 0);
    assert_eq!(ledger.state().unwrap().total_fees_collected, 3_300_000);
    // settling a lien does not take its fee back out
    set_status(&mut ledger, 1, TaxLienStatus::Invested, 0).unwrap();
    set_status(&mut ledger, 1, TaxLienStatus::Claimed, 0).unwrap();
    claim_property(&mut ledger, &ClaimProperty { investor: ALICE, token_id: 1 }).unwrap();
    assert_eq!(ledger.state().unwrap().total_fees_collected, 3_300_000);
}

#[test]
fn minted_record_and_event() {
    let mut ledger = ready_ledger();
    let plan = plan_mint(&ledger, &MintTaxLien { investor: ALICE }, &terms(100_000_000, 200_000_000, 1200), 105_000_000).unwrap();
    assert_eq!((plan.from, plan.to, plan.amount), (ALICE, TREASURY, 3_000_000));
    let ev = mint_tax_lien(
        &mut ledger,
        &MintTaxLien { investor: ALICE },
        terms(100_000_000, 200_000_000, 1200),
        105_000_000,
        777,
        Ok(()),
    )
    .unwrap();
    assert_eq!(ev.token_id, 0);
    assert_eq!(ev.investor, ALICE);
    assert_eq!(ev.parcel_id, "01-3125-045-0010");
    assert_eq!((ev.face_amount, ev.apr), (100_000_000, 1200));
    let rec = ledger.lien(0).unwrap();
    assert_eq!(rec.id, 0);
    assert_eq!(rec.state, "FL");
    assert_eq!(rec.county, "Miami-Dade");
    assert_eq!(rec.status, TaxLienStatus::Pending);
    assert_eq!(rec.issue_date, 777);
    assert_eq!(rec.invested_amount, 105_000_000);
    assert_eq!(rec.redemption_date, 0);
    assert_eq!(rec.investor, ALICE);
}

#[test]
fn transition_table_all_pairs() {
    let allowed = [
        (TaxLienStatus::Pending, TaxLienStatus::Invested),
        (TaxLienStatus::Pending, TaxLienStatus::Cancelled),
        (TaxLienStatus::Invested, TaxLienStatus::Redeemed),
        (TaxLienStatus::Invested, TaxLienStatus::Claimed),
    ];
    let mut count = 0;
    for from in ALL {
        for to in ALL {
            let expect = allowed.contains(&(from, to));
            assert_eq!(is_valid_status_transition(&from, &to), expect);
            if expect {
                count += 1;
            }
        }
    }
    assert_eq!(count, 4);
}

fn ledger_with_status(path: &[TaxLienStatus]) -> Ledger {
    let mut ledger = ready_ledger();
    mint(&mut ledger, ALICE, terms(100_000_000, 200_000_000, 1200), 103_000_000, 0).unwrap();
    for s in path {
        set_status(&mut ledger, 0, *s, 15_768_000).unwrap();
    }
    ledger
}

#[test]
fn update_status_over_all_pairs() {
    let paths: [&[TaxLienStatus]; 5] = [
        &[],
        &[TaxLienStatus::Invested],
        &[TaxLienStatus::Invested, TaxLienStatus::Redeemed],
        &[TaxLienStatus::Invested, TaxLienStatus::Claimed],
        &[TaxLienStatus::Cancelled],
    ];
    for (i, from) in ALL.iter().enumerate() {
        for to in ALL {
            let mut ledger = ledger_with_status(paths[i]);
            let r = update_status(&mut ledger, &UpdateStatus { authority: ADMIN, token_id: 0 }, to, 99);
            if is_valid_status_transition(from, &to) {
                let ev = r.unwrap();
                assert_eq!((ev.token_id, ev.old_status, ev.new_status), (0, *from, to));
                assert_eq!(ledger.lien(0).unwrap().status, to);
            } else {
                assert_eq!(r.map(|_| ()), Err(TaxLienError::InvalidStatusTransition));
                assert_eq!(ledger.lien(0).unwrap().status, *from);
            }
        }
    }
}

#[test]
fn redeemed_transition_stamps_date() {
    let mut ledger = ledger_with_status(&[TaxLienStatus::Invested]);
    assert_eq!(ledger.lien(0).unwrap().redemption_date, 0);
    set_status(&mut ledger, 0, TaxLienStatus::Redeemed, 4242).unwrap();
    assert_eq!(ledger.lien(0).unwrap().redemption_date, 4242);
}

#[test]
fn update_status_needs_admin() {
    let mut ledger = ledger_with_status(&[]);
    let r = update_status(&mut ledger, &UpdateStatus { authority: ALICE, token_id: 0 }, TaxLienStatus::Invested, 0);
    assert_eq!(r.map(|_| ()), Err(TaxLienError::Unauthorized));
    assert_eq!(ledger.lien(0).unwrap().status, TaxLienStatus::Pending);
}

#[test]
fn redeem_before_redeemed_status_fails() {
    for path in [&[][..], &[TaxLienStatus::Invested][..], &[TaxLienStatus::Invested, TaxLienStatus::Claimed][..]] {
        let mut ledger = ledger_with_status(path);
        let r = redeem_nft(&mut ledger, &RedeemNFT { investor: ALICE, token_id: 0 }, Ok(()));
        assert_eq!(r.map(|_| ()), Err(TaxLienError::NotRedeemable));
        assert!(ledger.lien(0).is_some());
    }
}

#[test]
fn redeem_full_flow() {
    let mut ledger = ledger_with_status(&[TaxLienStatus::Invested, TaxLienStatus::Redeemed]);
    let ctx = RedeemNFT { investor: ALICE, token_id: 0 };
    let plan = plan_redeem(&ledger, &ctx).unwrap();
    assert_eq!((plan.to, plan.amount), (ALICE, 106_000_000));
    let ev = redeem_nft(&mut ledger, &ctx, Ok(())).unwrap();
    assert_eq!((ev.token_id, ev.investor, ev.payout, ev.interest), (0, ALICE, 106_000_000, 6_000_000));
    assert!(ledger.lien(0).is_none());
}

#[test]
fn redeem_by_other_investor_fails() {
    let mut ledger = ledger_with_status(&[TaxLienStatus::Invested, TaxLienStatus::Redeemed]);
    let r = redeem_nft(&mut ledger, &RedeemNFT { investor: BOB, token_id: 0 }, Ok(()));
    assert_eq!(r.map(|_| ()), Err(TaxLienError::Unauthorized));
    assert!(ledger.lien(0).is_some());
}

#[test]
fn redeem_refused_transfer_keeps_record() {
    let mut ledger = ledger_with_status(&[TaxLienStatus::Invested, TaxLienStatus::Redeemed]);
    let ctx = RedeemNFT { investor: ALICE, token_id: 0 };
    let r = redeem_nft(&mut ledger, &ctx, Err(TaxLienError::InsufficientFunds));
    assert_eq!(r.map(|_| ()), Err(TaxLienError::InsufficientFunds));
    assert_eq!(ledger.lien(0).unwrap().status, TaxLienStatus::Redeemed);
    assert!(redeem_nft(&mut ledger, &ctx, Ok(())).is_ok());
}

#[test]
fn redeem_with_date_before_issue_fails() {
    let mut ledger = ready_ledger();
    mint(&mut ledger, ALICE, terms(100_000_000, 200_000_000, 1200), 103_000_000, 1000).unwrap();
    set_status(&mut ledger, 0, TaxLienStatus::Invested, 0).unwrap();
    set_status(&mut ledger, 0, TaxLienStatus::Redeemed, 999).unwrap();
    let r = redeem_nft(&mut ledger, &RedeemNFT { investor: ALICE, token_id: 0 }, Ok(()));
    assert_eq!(r.map(|_| ()), Err(TaxLienError::InvalidDuration));
    assert!(ledger.lien(0).is_some());
}

#[test]
fn redeem_payout_overflow_fails() {
    let mut ledger = ready_ledger();
    mint(&mut ledger, ALICE, terms(1_000_000_000_000, 2_000_000_000_000, 2400), 1_030_000_000_000, i64::MIN).unwrap();
    set_status(&mut ledger, 0, TaxLienStatus::Invested, 0).unwrap();
    set_status(&mut ledger, 0, TaxLienStatus::Redeemed, i64::MAX).unwrap();
    let r = redeem_nft(&mut ledger, &RedeemNFT { investor: ALICE, token_id: 0 }, Ok(()));
    assert_eq!(r.map(|_| ()), Err(TaxLienError::PayoutOverflow));
}

#[test]
fn claim_flow_and_errors() {
    let mut ledger = ledger_with_status(&[TaxLienStatus::Invested]);
    let ctx = ClaimProperty { investor: ALICE, token_id: 0 };
    assert_eq!(claim_property(&mut ledger, &ctx).map(|_| ()), Err(TaxLienError::NotClaimable));
    set_status(&mut ledger, 0, TaxLienStatus::Claimed, 0).unwrap();
    let other = ClaimProperty { investor: BOB, token_id: 0 };
    assert_eq!(claim_property(&mut ledger, &other).map(|_| ()), Err(TaxLienError::Unauthorized));
    let ev = claim_property(&mut ledger, &ctx).unwrap();
    assert_eq!((ev.token_id, ev.investor, ev.property_value), (0, ALICE, 200_000_000));
    assert!(ledger.lien(0).is_none());
}

#[test]
fn settled_lien_is_not_found() {
    let mut ledger = ledger_with_status(&[TaxLienStatus::Invested, TaxLienStatus::Redeemed]);
    redeem_nft(&mut ledger, &RedeemNFT { investor: ALICE, token_id: 0 }, Ok(())).unwrap();
    assert_eq!(set_status(&mut ledger, 0, TaxLienStatus::Claimed, 0), Err(TaxLienError::NotFound));
    assert_eq!(
        redeem_nft(&mut ledger, &RedeemNFT { investor: ALICE, token_id: 0 }, Ok(())).map(|_| ()),
        Err(TaxLienError::NotFound)
    );
    assert_eq!(
        claim_property(&mut ledger, &ClaimProperty { investor: ALICE, token_id: 0 }).map(|_| ()),
        Err(TaxLienError::NotFound)
    );
    assert_eq!(plan_redeem(&ledger, &RedeemNFT { investor: ALICE, token_id: 0 }).map(|_| ()), Err(TaxLienError::NotFound));

    let mut ledger = ledger_with_status(&[TaxLienStatus::Invested, TaxLienStatus::Claimed]);
    claim_property(&mut ledger, &ClaimProperty { investor: ALICE, token_id: 0 }).unwrap();
    assert_eq!(set_status(&mut ledger, 0, TaxLienStatus::Redeemed, 0), Err(TaxLienError::NotFound));
    assert_eq!(
        claim_property(&mut ledger, &ClaimProperty { investor: ALICE, token_id: 0 }).map(|_| ()),
        Err(TaxLienError::NotFound)
    );
}

#[test]
fn unknown_id_is_not_found() {
    let mut ledger = ready_ledger();
    assert_eq!(set_status(&mut ledger, 7, TaxLienStatus::Invested, 0), Err(TaxLienError::NotFound));
}

#[test]
fn registry_lifecycle() {
    let mut ledger = Ledger::new();
    assert!(ledger.state().is_none());
    assert_eq!(
        mint(&mut ledger, ALICE, terms(100_000_000, 200_000_000, 1200), 103_000_000, 0),
        Err(TaxLienError::NotInitialized)
    );
    assert_eq!(set_status(&mut ledger, 0, TaxLienStatus::Invested, 0), Err(TaxLienError::NotInitialized));
    initialize(&mut ledger, &Initialize { authority: ADMIN }, TREASURY).unwrap();
    let st = ledger.state().unwrap();
    assert_eq!((st.authority, st.treasury, st.next_token_id, st.total_fees_collected), (ADMIN, TREASURY, 0, 0));
    assert_eq!(
        initialize(&mut ledger, &Initialize { authority: BOB }, BOB),
        Err(TaxLienError::AlreadyInitialized)
    );
    assert_eq!(ledger.state().unwrap().authority, ADMIN);
}
