use tars::eligibility::{
    evaluate_whitelist_mint, u64_as_signed, KnownKeys, MintRequest, PaymentFacts, PaymentKind,
};
use tars::errors::TarsError;
use tars::keys::Pubkey;
use tars::state::{
    EndSettingType, EndSettings, GatekeeperConfig, Tars, TarsData, WLStartTime, WalletWhitelist,
    WhitelistConfig, WhitelistMintMode, WhitelistMintSettings, WhitelistSchedule,
};
use tars::sysvar::{InstructionView, TransactionView};
use tars::whitelist::{create_wallet_whitelist, use_whitelist_spot};

fn key(b: u8) -> Pubkey {
    Pubkey { bytes: [b; 32] }
}

fn keys() -> KnownKeys {
    KnownKeys {
        self_program: key(10),
        gumdrop: key(11),
        cupcake: key(12),
        token_program: key(13),
        system_program: key(14),
        associated_token_program: key(15),
        slot_hashes_sysvar: key(16),
        deprecated_block_hashes: key(17),
    }
}

fn base_tars() -> Tars {
    Tars {
        authority: key(1),
        wallet: key(2),
        token_mint: None,
        items_redeemed: 0,
        data: TarsData {
            uuid: b"uid000".to_vec(),
            items_available: 10,
            symbol: b"SYM".to_vec(),
            seller_fee_basis_points: 100,
            max_supply: 0,
            is_mutable: true,
            retain_authority: true,
            go_live_date: Some(1_000),
            end_settings: None,
            creators: Vec::new(),
            hidden_settings: None,
            whitelist_mint_settings: None,
            gatekeeper: None,
        },
    }
}

fn schedule() -> WhitelistConfig {
    WhitelistConfig {
        tars_creator: key(3),
        whitelist_schedule: WhitelistSchedule {
            wl_start_time_1: WLStartTime { whitelist_mint_start_time: 100, discounted_mint_price: 90 },
            wl_start_time_2: WLStartTime { whitelist_mint_start_time: 200, discounted_mint_price: 50 },
            wl_start_time_3: WLStartTime { whitelist_mint_start_time: 300, discounted_mint_price: 70 },
            wl_start_time_4: WLStartTime { whitelist_mint_start_time: 400, discounted_mint_price: 60 },
        },
    }
}

fn plain_transaction(current_program: Pubkey) -> TransactionView {
    TransactionView {
        instructions: vec![InstructionView { program_id: current_program, data: vec![0; 8] }],
        current_index: 0,
    }
}

fn base_request(now: i64) -> MintRequest {
    MintRequest {
        now,
        minter: key(9),
        metadata_empty: true,
        slot_hashes_key: key(16),
        remaining_accounts: 0,
        gateway_verify_ok: true,
        whitelist_token_amount: None,
        whitelist_mint_key_matches: true,
        payment: PaymentFacts::Native(1_000_000),
    }
}

#[test]
fn tier_two_allows_two_mints_at_its_price() {
    // a tier-Two allowance: two mints at the discounted price of 50,
    // the third attempt failing for want of spots
    let config = schedule();
    let mut ww =
        create_wallet_whitelist(&b"Two".to_vec(), &config, key(3), key(9)).unwrap();
    assert_eq!(ww.number_of_whitelist_spots_per_user, 2);
    assert_eq!(ww.discounted_mint_price, 50);
    assert_eq!(ww.whitelist_mint_start_time, 200);

    let tars = base_tars();
    let txv = plain_transaction(keys().self_program);
    let req = base_request(2_000);

    for expected_left in [1u8, 0u8] {
        let plan = evaluate_whitelist_mint(&tars, &ww, &txv, &keys(), &req).unwrap();
        assert_eq!(plan.price, 50);
        assert_eq!(plan.payment, PaymentKind::Native);
        assert!(!plan.burn_whitelist_token);
        use_whitelist_spot(&mut ww).unwrap();
        assert_eq!(ww.number_of_whitelist_spots_per_user, expected_left);
    }

    let third = evaluate_whitelist_mint(&tars, &ww, &txv, &keys(), &req);
    assert!(matches!(third, Err(TarsError::NoWhitelistSpots)));
}

#[test]
fn tier_must_be_scheduled_name() {
    let config = schedule();
    let r = create_wallet_whitelist(&b"Five".to_vec(), &config, key(3), key(9));
    assert!(matches!(r, Err(TarsError::InvalidWLType)));
    let one = create_wallet_whitelist(&b"One".to_vec(), &config, key(3), key(9)).unwrap();
    assert_eq!(one.number_of_whitelist_spots_per_user, 1);
    assert_eq!(one.discounted_mint_price, 90);
    let four = create_wallet_whitelist(&b"Four".to_vec(), &config, key(3), key(9)).unwrap();
    assert_eq!(four.number_of_whitelist_spots_per_user, 4);
    assert_eq!(four.whitelist_mint_start_time, 400);
}

fn tier_two_allowance() -> WalletWhitelist {
    create_wallet_whitelist(&b"Two".to_vec(), &schedule(), key(3), key(9)).unwrap()
}

#[test]
fn mint_before_tier_start_is_refused() {
    let tars = base_tars();
    let ww = tier_two_allowance();
    let txv = plain_transaction(keys().self_program);
    let req = base_request(199); // tier starts at 200
    let r = evaluate_whitelist_mint(&tars, &ww, &txv, &keys(), &req);
    assert!(matches!(r, Err(TarsError::WLMintNotStarted)));
}

#[test]
fn used_metadata_account_is_refused() {
    let tars = base_tars();
    let ww = tier_two_allowance();
    let txv = plain_transaction(keys().self_program);
    let mut req = base_request(2_000);
    req.metadata_empty = false;
    let r = evaluate_whitelist_mint(&tars, &ww, &txv, &keys(), &req);
    assert!(matches!(r, Err(TarsError::MetadataAccountMustBeEmpty)));
}

#[test]
fn wrong_randomness_account_is_refused() {
    let tars = base_tars();
    let ww = tier_two_allowance();
    let txv = plain_transaction(keys().self_program);
    let mut req = base_request(2_000);
    req.slot_hashes_key = key(99);
    let r = evaluate_whitelist_mint(&tars, &ww, &txv, &keys(), &req);
    assert!(matches!(r, Err(TarsError::IncorrectSlotHashesPubkey)));
    // the deprecated account is still accepted
    req.slot_hashes_key = keys().deprecated_block_hashes;
    assert!(evaluate_whitelist_mint(&tars, &ww, &txv, &keys(), &req).is_ok());
}

#[test]
fn unknown_calling_program_is_refused() {
    let tars = base_tars();
    let ww = tier_two_allowance();
    let txv = plain_transaction(key(42));
    let req = base_request(2_000);
    let r = evaluate_whitelist_mint(&tars, &ww, &txv, &keys(), &req);
    assert!(matches!(r, Err(TarsError::TarsNotLiveForWL)));
}

#[test]
fn trailing_instruction_must_be_set_collection() {
    let tars = base_tars();
    let ww = tier_two_allowance();
    let req = base_request(2_000);
    // a trailing instruction of a foreign program is suspicious
    let txv = TransactionView {
        instructions: vec![
            InstructionView { program_id: keys().self_program, data: vec![] },
            InstructionView { program_id: key(42), data: vec![103, 17, 200, 25, 118, 95, 125, 61] },
        ],
        current_index: 0,
    };
    let r = evaluate_whitelist_mint(&tars, &ww, &txv, &keys(), &req);
    assert!(matches!(r, Err(TarsError::SuspiciousTransaction)));
    // the set-collection call of this program, as the last instruction,
    // passes
    let txv = TransactionView {
        instructions: vec![
            InstructionView { program_id: keys().self_program, data: vec![] },
            InstructionView {
                program_id: keys().self_program,
                data: vec![103, 17, 200, 25, 118, 95, 125, 61],
            },
        ],
        current_index: 0,
    };
    assert!(evaluate_whitelist_mint(&tars, &ww, &txv, &keys(), &req).is_ok());
    // anything after the set-collection call is suspicious again
    let txv = TransactionView {
        instructions: vec![
            InstructionView { program_id: keys().self_program, data: vec![] },
            InstructionView {
                program_id: keys().self_program,
                data: vec![103, 17, 200, 25, 118, 95, 125, 61],
            },
            InstructionView { program_id: keys().system_program, data: vec![] },
        ],
        current_index: 0,
    };
    let r = evaluate_whitelist_mint(&tars, &ww, &txv, &keys(), &req);
    assert!(matches!(r, Err(TarsError::SuspiciousTransaction)));
}

#[test]
fn collection_pool_requires_trailing_call() {
    let mut tars = base_tars();
    tars.data.uuid = b"uid00\x01".to_vec(); // collection feature bit set
    let ww = tier_two_allowance();
    let txv = plain_transaction(keys().self_program);
    let req = base_request(2_000);
    let r = evaluate_whitelist_mint(&tars, &ww, &txv, &keys(), &req);
    assert!(matches!(r, Err(TarsError::TarsNotLiveForWL)));
}

#[test]
fn foreign_instruction_in_transaction_is_refused() {
    let tars = base_tars();
    let ww = tier_two_allowance();
    let req = base_request(2_000);
    let txv = TransactionView {
        instructions: vec![
            InstructionView { program_id: key(66), data: vec![] },
            InstructionView { program_id: keys().self_program, data: vec![] },
        ],
        current_index: 1,
    };
    let r = evaluate_whitelist_mint(&tars, &ww, &txv, &keys(), &req);
    assert!(matches!(r, Err(TarsError::TarsNotLiveForWL)));
}

#[test]
fn dated_end_setting_closes_the_sale() {
    let mut tars = base_tars();
    tars.data.end_settings =
        Some(EndSettings { end_setting_type: EndSettingType::Date, number: 1_500 });
    let ww = tier_two_allowance();
    let txv = plain_transaction(keys().self_program);
    let req = base_request(2_000);
    let r = evaluate_whitelist_mint(&tars, &ww, &txv, &keys(), &req);
    assert!(matches!(r, Err(TarsError::TarsNotLiveForWL)));
    // the authority may still mint
    let mut req = base_request(2_000);
    req.minter = tars.authority;
    assert!(evaluate_whitelist_mint(&tars, &ww, &txv, &keys(), &req).is_ok());
}

#[test]
fn amount_end_setting_reports_empty_to_authority() {
    let mut tars = base_tars();
    tars.data.end_settings =
        Some(EndSettings { end_setting_type: EndSettingType::Amount, number: 5 });
    tars.items_redeemed = 5;
    let ww = tier_two_allowance();
    let txv = plain_transaction(keys().self_program);
    let req = base_request(2_000);
    let r = evaluate_whitelist_mint(&tars, &ww, &txv, &keys(), &req);
    assert!(matches!(r, Err(TarsError::TarsNotLiveForWL)));
    let mut req = base_request(2_000);
    req.minter = tars.authority;
    let r = evaluate_whitelist_mint(&tars, &ww, &txv, &keys(), &req);
    assert!(matches!(r, Err(TarsError::TarsEmpty)));
}

#[test]
fn gateway_accounts_must_be_supplied() {
    let mut tars = base_tars();
    tars.data.gatekeeper =
        Some(GatekeeperConfig { gatekeeper_network: key(33), expire_on_use: true });
    let ww = tier_two_allowance();
    let txv = plain_transaction(keys().self_program);
    let mut req = base_request(2_000);
    req.remaining_accounts = 0;
    let r = evaluate_whitelist_mint(&tars, &ww, &txv, &keys(), &req);
    assert!(matches!(r, Err(TarsError::TarsNotLiveForWL)));
    req.remaining_accounts = 1;
    let r = evaluate_whitelist_mint(&tars, &ww, &txv, &keys(), &req);
    assert!(matches!(r, Err(TarsError::GatewayAppMissing)));
    req.remaining_accounts = 2;
    let r = evaluate_whitelist_mint(&tars, &ww, &txv, &keys(), &req);
    assert!(matches!(r, Err(TarsError::NetworkExpireFeatureMissing)));
    req.remaining_accounts = 3;
    assert!(evaluate_whitelist_mint(&tars, &ww, &txv, &keys(), &req).is_ok());
    req.gateway_verify_ok = false;
    let r = evaluate_whitelist_mint(&tars, &ww, &txv, &keys(), &req);
    assert!(matches!(r, Err(TarsError::TarsNotLiveForWL)));
}

#[test]
fn whitelist_token_discount_and_burn() {
    let mut tars = base_tars();
    tars.data.whitelist_mint_settings = Some(WhitelistMintSettings {
        mode: WhitelistMintMode::BurnEveryTime,
        mint: key(40),
        presale: true,
        discount_price: Some(25),
    });
    let ww = tier_two_allowance();
    let txv = plain_transaction(keys().self_program);
    let mut req = base_request(500); // before go-live; presale whitelist may mint
    req.whitelist_token_amount = Some(1);
    let plan = evaluate_whitelist_mint(&tars, &ww, &txv, &keys(), &req).unwrap();
    assert_eq!(plan.price, 25);
    assert!(plan.burn_whitelist_token);
    // a wrong burn-mint account is refused
    req.whitelist_mint_key_matches = false;
    let r = evaluate_whitelist_mint(&tars, &ww, &txv, &keys(), &req);
    assert!(matches!(r, Err(TarsError::TarsNotLiveForWL)));
}

#[test]
fn forced_whitelist_without_token_is_refused() {
    let mut tars = base_tars();
    tars.data.whitelist_mint_settings = Some(WhitelistMintSettings {
        mode: WhitelistMintMode::NeverBurn,
        mint: key(40),
        presale: false,
        discount_price: None,
    });
    let ww = tier_two_allowance();
    let txv = plain_transaction(keys().self_program);
    let mut req = base_request(2_000);
    req.whitelist_token_amount = None;
    let r = evaluate_whitelist_mint(&tars, &ww, &txv, &keys(), &req);
    assert!(matches!(r, Err(TarsError::TarsNotLiveForWL)));
    // an empty token account fares no better
    req.whitelist_token_amount = Some(0);
    let r = evaluate_whitelist_mint(&tars, &ww, &txv, &keys(), &req);
    assert!(matches!(r, Err(TarsError::TarsNotLiveForWL)));
}

#[test]
fn empty_pool_is_refused() {
    let mut tars = base_tars();
    tars.items_redeemed = 10;
    let ww = tier_two_allowance();
    let txv = plain_transaction(keys().self_program);
    let req = base_request(2_000);
    let r = evaluate_whitelist_mint(&tars, &ww, &txv, &keys(), &req);
    assert!(matches!(r, Err(TarsError::TarsNotLiveForWL)));
}

#[test]
fn payment_balances_are_checked() {
    let tars = base_tars();
    let ww = tier_two_allowance();
    let txv = plain_transaction(keys().self_program);
    let mut req = base_request(2_000);
    req.payment = PaymentFacts::Native(49);
    let r = evaluate_whitelist_mint(&tars, &ww, &txv, &keys(), &req);
    assert!(matches!(r, Err(TarsError::NotEnoughSOL)));

    let mut tars = base_tars();
    tars.token_mint = Some(key(50));
    req.payment = PaymentFacts::Token(Ok(49));
    let r = evaluate_whitelist_mint(&tars, &ww, &txv, &keys(), &req);
    assert!(matches!(r, Err(TarsError::NotEnoughTokens)));
    req.payment = PaymentFacts::Token(Ok(50));
    let plan = evaluate_whitelist_mint(&tars, &ww, &txv, &keys(), &req).unwrap();
    assert_eq!(plan.payment, PaymentKind::Token);
    // a failed token-account validation propagates its own code
    req.payment = PaymentFacts::Token(Err(TarsError::IncorrectOwner));
    let r = evaluate_whitelist_mint(&tars, &ww, &txv, &keys(), &req);
    assert!(matches!(r, Err(TarsError::IncorrectOwner)));
}

#[test]
fn exhausted_allowance_cannot_be_decremented() {
    let mut ww = tier_two_allowance();
    use_whitelist_spot(&mut ww).unwrap();
    use_whitelist_spot(&mut ww).unwrap();
    let r = use_whitelist_spot(&mut ww);
    assert!(matches!(r, Err(TarsError::NumericalOverflowError)));
    assert_eq!(ww.number_of_whitelist_spots_per_user, 0);
}

#[test]
fn unsigned_timestamps_wrap_like_signed() {
    assert_eq!(u64_as_signed(0), 0);
    assert_eq!(u64_as_signed(1_700_000_000), 1_700_000_000);
    assert_eq!(u64_as_signed(u64::MAX), -1);
    assert_eq!(u64_as_signed(i64::MAX as u64), i64::MAX);
    assert_eq!(u64_as_signed(i64::MAX as u64 + 1), i64::MIN);
}
