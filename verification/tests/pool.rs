use tars::admin::{check_remove_collection, withdraw_balances, withdraw_collection_record};
use tars::commit::{build_mint_commit, check_gateway_expiry, derive_start_index, read_random_seed};
use tars::errors::TarsError;
use tars::features::{is_feature_active, remove_feature_flag, COLLECTIONS_FEATURE_INDEX};
use tars::initialize::{initialize_tars, write_bitmask_length, PaymentMintFacts};
use tars::layout::get_space_for_tars;
use tars::keys::{cmp_pubkeys, Pubkey};
use tars::layout::{CONFIG_ARRAY_START, CONFIG_LINE_SIZE};
use tars::state::{Creator, Tars, TarsData, WhitelistMintMode, WhitelistMintSettings};
use tars::eligibility::{KnownKeys, MintRequest, PaymentFacts};
use tars::mint::whitelist_mint_step;
use tars::state::{ConfigLine, WLStartTime, WhitelistConfig, WhitelistSchedule};
use tars::store::write_config_line;
use tars::sysvar::parse_instruction_sysvar;
use tars::update::{redeem_one, update_authority, update_tars};
use tars::whitelist::create_wallet_whitelist;

fn key(b: u8) -> Pubkey {
    Pubkey { bytes: [b; 32] }
}

fn base_data() -> TarsData {
    TarsData {
        uuid: b"uid000".to_vec(),
        items_available: 12,
        symbol: b"SYM".to_vec(),
        seller_fee_basis_points: 250,
        max_supply: 1,
        is_mutable: true,
        retain_authority: true,
        go_live_date: Some(1_000),
        end_settings: None,
        creators: vec![Creator { address: key(7), verified: true, share: 100 }],
        hidden_settings: None,
        whitelist_mint_settings: None,
        gatekeeper: None,
    }
}

fn base_tars() -> Tars {
    initialize_tars(base_data(), key(1), key(2), None).unwrap()
}

#[test]
fn initialize_pads_symbol_and_starts_empty() {
    let tars = base_tars();
    assert_eq!(tars.items_redeemed, 0);
    assert_eq!(tars.data.symbol, b"SYM\0\0\0\0\0\0\0".to_vec());
    assert!(cmp_pubkeys(&tars.authority, &key(1)));
    assert!(cmp_pubkeys(&tars.wallet, &key(2)));
    assert!(tars.token_mint.is_none());
}

#[test]
fn initialize_rejects_bad_uuid() {
    let mut data = base_data();
    data.uuid = b"short".to_vec();
    let r = initialize_tars(data, key(1), key(2), None);
    assert!(matches!(r, Err(TarsError::UuidMustBeExactly6Length)));
}

#[test]
fn initialize_rejects_too_many_creators() {
    let mut data = base_data();
    data.creators = (0..5).map(|i| Creator { address: key(i), verified: false, share: 20 }).collect();
    let r = initialize_tars(data, key(1), key(2), None);
    assert!(matches!(r, Err(TarsError::TooManyCreators)));
    // four named creators are one too many: the pool itself joins them
    let mut data = base_data();
    data.creators = (0..4).map(|i| Creator { address: key(i), verified: false, share: 25 }).collect();
    let r = initialize_tars(data, key(1), key(2), None);
    assert!(matches!(r, Err(TarsError::TooManyCreators)));
    // three are accepted
    let mut data = base_data();
    data.creators = (0..3).map(|i| Creator { address: key(i), verified: false, share: 30 }).collect();
    let tars = initialize_tars(data, key(1), key(2), None).unwrap();
    assert_eq!(tars.data.creators.len(), 3);
}

#[test]
fn initialize_checks_payment_mint() {
    let facts = PaymentMintFacts { mint: key(20), wallet_token_account_mint: key(21) };
    let r = initialize_tars(base_data(), key(1), key(2), Some(facts));
    assert!(matches!(r, Err(TarsError::MintMismatch)));
    let facts = PaymentMintFacts { mint: key(20), wallet_token_account_mint: key(20) };
    let tars = initialize_tars(base_data(), key(1), key(2), Some(facts)).unwrap();
    assert!(cmp_pubkeys(&tars.token_mint.unwrap(), &key(20)));
}

#[test]
fn space_formula_matches_layout() {
    let data = base_data(); // capacity 12
    let space = get_space_for_tars(&data).unwrap();
    assert_eq!(space, CONFIG_ARRAY_START + 4 + 12 * CONFIG_LINE_SIZE + 8 + 2 * (12 / 8 + 1));
    let mut hidden = base_data();
    hidden.hidden_settings = Some(tars::state::HiddenSettings {
        name: b"X".to_vec(),
        uri: b"u".to_vec(),
        hash: [0; 32],
    });
    assert_eq!(get_space_for_tars(&hidden).unwrap(), CONFIG_ARRAY_START);
}

#[test]
fn count_field_is_stamped_little_endian() {
    let n: usize = 2_100; // 262 whole mask bytes
    let mut buf = vec![0xAAu8; CONFIG_ARRAY_START + 4 + n * CONFIG_LINE_SIZE + 8 + 2 * (n / 8 + 1)];
    write_bitmask_length(&mut buf, n as u64);
    let vs = CONFIG_ARRAY_START + 4 + n * CONFIG_LINE_SIZE;
    assert_eq!(&buf[vs..vs + 4], &(262u32).to_le_bytes());
    assert_eq!(buf[vs + 4], 0xAA);
    assert_eq!(buf[vs - 1], 0xAA);
}

#[test]
fn update_keeps_uuid_and_checks_rules() {
    let mut tars = base_tars();
    let mut new_data = base_data();
    new_data.uuid = b"other!".to_vec();
    new_data.seller_fee_basis_points = 999;
    update_tars(&mut tars, new_data, key(5), Some(key(6))).unwrap();
    assert_eq!(tars.data.uuid, b"uid000".to_vec());
    assert_eq!(tars.data.seller_fee_basis_points, 999);
    assert!(cmp_pubkeys(&tars.wallet, &key(5)));
    assert!(cmp_pubkeys(&tars.token_mint.unwrap(), &key(6)));

    let mut shrunk = base_data();
    shrunk.items_available = 5;
    let r = update_tars(&mut tars, shrunk, key(5), None);
    assert!(matches!(r, Err(TarsError::CannotChangeNumberOfLines)));

    let mut to_hidden = base_data();
    to_hidden.hidden_settings = Some(tars::state::HiddenSettings {
        name: b"X".to_vec(),
        uri: b"u".to_vec(),
        hash: [0; 32],
    });
    let r = update_tars(&mut tars, to_hidden, key(5), None);
    assert!(matches!(r, Err(TarsError::CannotSwitchToHiddenSettings)));
}

#[test]
fn collection_pool_must_retain_authority() {
    let mut tars = base_tars();
    tars.data.uuid = b"uid00\x01".to_vec();
    let mut new_data = base_data();
    new_data.retain_authority = false;
    let r = update_tars(&mut tars, new_data, key(5), None);
    assert!(matches!(r, Err(TarsError::TarsCollectionRequiresRetainAuthority)));
}

#[test]
fn authority_changes_only_when_given() {
    let mut tars = base_tars();
    update_authority(&mut tars, None);
    assert!(cmp_pubkeys(&tars.authority, &key(1)));
    update_authority(&mut tars, Some(key(8)));
    assert!(cmp_pubkeys(&tars.authority, &key(8)));
}

#[test]
fn redemption_counter_stays_within_capacity() {
    let mut tars = base_tars(); // capacity 12
    for expected in 1..=12u64 {
        redeem_one(&mut tars);
        assert_eq!(tars.items_redeemed, expected);
        assert!(tars.items_redeemed <= tars.data.items_available);
    }
}

#[test]
fn withdraw_drains_into_authority() {
    assert_eq!(withdraw_balances(30, 70).unwrap(), (0, 100));
    let r = withdraw_balances(2, u64::MAX);
    assert!(matches!(r, Err(TarsError::NumericalOverflowError)));
}

#[test]
fn withdraw_collection_record_checks_address() {
    // the record drains like the pool once its derived address matches
    assert_eq!(withdraw_collection_record(&key(5), &key(5), 40, 60).unwrap(), (0, 100));
    let r = withdraw_collection_record(&key(5), &key(6), 40, 60);
    assert!(matches!(r, Err(TarsError::MismatchedCollectionPDA)));
    let r = withdraw_collection_record(&key(5), &key(5), 2, u64::MAX);
    assert!(matches!(r, Err(TarsError::NumericalOverflowError)));
}

#[test]
fn remove_collection_checks_in_order() {
    let r = check_remove_collection(1, &key(1), &key(1), &key(2), &key(2));
    assert!(matches!(r, Err(TarsError::NoChangingCollectionDuringMint)));
    let r = check_remove_collection(0, &key(3), &key(1), &key(2), &key(2));
    assert!(matches!(r, Err(TarsError::IncorrectCollectionAuthority)));
    let r = check_remove_collection(0, &key(1), &key(1), &key(2), &key(4));
    assert!(matches!(r, Err(TarsError::MintMismatch)));
    assert!(check_remove_collection(0, &key(1), &key(1), &key(2), &key(2)).is_ok());
}

#[test]
fn feature_flag_lifecycle() {
    let mut uuid = b"uid00\x03".to_vec();
    assert!(is_feature_active(&uuid, COLLECTIONS_FEATURE_INDEX));
    assert!(is_feature_active(&uuid, 1));
    remove_feature_flag(&mut uuid, COLLECTIONS_FEATURE_INDEX);
    assert!(!is_feature_active(&uuid, COLLECTIONS_FEATURE_INDEX));
    assert!(is_feature_active(&uuid, 1));
    assert_eq!(&uuid[..5], b"uid00");
}

#[test]
fn gateway_expiry_rule() {
    let mut tars = base_tars(); // go-live at 1000
    tars.data.whitelist_mint_settings = Some(WhitelistMintSettings {
        mode: WhitelistMintMode::NeverBurn,
        mint: key(40),
        presale: false,
        discount_price: None,
    });
    // a token expiring before go-live + 600 was provisioned too early
    let r = check_gateway_expiry(&tars, Some(1_599));
    assert!(matches!(r, Err(TarsError::GatewayTokenExpireTimeInvalid)));
    assert!(check_gateway_expiry(&tars, Some(1_600)).is_ok());
    assert!(check_gateway_expiry(&tars, None).is_ok());
    // a presale whitelist is exempt
    tars.data.whitelist_mint_settings.as_mut().unwrap().presale = true;
    assert!(check_gateway_expiry(&tars, Some(0)).is_ok());
}

#[test]
fn random_seed_drives_start_index() {
    let mut data = vec![0u8; 40];
    data[12..20].copy_from_slice(&77_777u64.to_le_bytes());
    let seed = read_random_seed(&data);
    assert_eq!(seed, 77_777);
    assert_eq!(derive_start_index(seed, 12).unwrap(), 77_777 % 12);
    let r = derive_start_index(seed, 0);
    assert!(matches!(r, Err(TarsError::NumericalOverflowError)));
}

#[test]
fn mint_commit_lists_pool_creator_first() {
    let tars = base_tars();
    let commit = build_mint_commit(&tars, key(30), key(31));
    assert_eq!(commit.creators.len(), 2);
    assert!(cmp_pubkeys(&commit.creators[0].address, &key(30)));
    assert!(commit.creators[0].verified);
    assert_eq!(commit.creators[0].share, 0);
    assert!(cmp_pubkeys(&commit.creators[1].address, &key(7)));
    assert!(!commit.creators[1].verified);
    assert_eq!(commit.creators[1].share, 100);
    // the pool retains authority, so the metadata stays with it
    assert!(cmp_pubkeys(&commit.new_update_authority, &tars.authority));
    let mut open = base_tars();
    open.data.retain_authority = false;
    let commit = build_mint_commit(&open, key(30), key(31));
    assert!(cmp_pubkeys(&commit.new_update_authority, &key(31)));
}

fn encode_sysvar(instructions: &[(Pubkey, Vec<u8>, u16)], current: u16) -> Vec<u8> {
    // count, offset table, per-instruction records, current index
    let mut body: Vec<Vec<u8>> = Vec::new();
    for (pid, data, accounts) in instructions {
        let mut rec = Vec::new();
        rec.extend_from_slice(&accounts.to_le_bytes());
        for a in 0..*accounts {
            rec.push(a as u8); // meta byte
            rec.extend_from_slice(&[0u8; 32]); // account key
        }
        rec.extend_from_slice(&pid.bytes);
        rec.extend_from_slice(&(data.len() as u16).to_le_bytes());
        rec.extend_from_slice(data);
        body.push(rec);
    }
    let mut out = Vec::new();
    out.extend_from_slice(&(instructions.len() as u16).to_le_bytes());
    let mut offset = 2 + 2 * instructions.len();
    for rec in &body {
        out.extend_from_slice(&(offset as u16).to_le_bytes());
        offset += rec.len();
    }
    for rec in &body {
        out.extend_from_slice(rec);
    }
    out.extend_from_slice(&current.to_le_bytes());
    out
}

#[test]
fn full_mint_step_resolves_lines_in_probe_order() {
    let keys = KnownKeys {
        self_program: key(10),
        gumdrop: key(11),
        cupcake: key(12),
        token_program: key(13),
        system_program: key(14),
        associated_token_program: key(15),
        slot_hashes_sysvar: key(16),
        deprecated_block_hashes: key(17),
    };
    let mut data = base_data();
    data.items_available = 8;
    let mut tars = initialize_tars(data, key(1), key(2), None).unwrap();
    let n: usize = 8;
    let mut buffer =
        vec![0u8; CONFIG_ARRAY_START + 4 + n * CONFIG_LINE_SIZE + 8 + 2 * (n / 8 + 1)];
    write_bitmask_length(&mut buffer, n as u64);
    for i in 0..n {
        let line = ConfigLine {
            name: format!("item{}", i).into_bytes(),
            uri: format!("uri{}", i).into_bytes(),
        };
        write_config_line(&mut buffer, i, &line);
    }
    let config = WhitelistConfig {
        tars_creator: key(3),
        whitelist_schedule: WhitelistSchedule {
            wl_start_time_1: WLStartTime { whitelist_mint_start_time: 0, discounted_mint_price: 9 },
            wl_start_time_2: WLStartTime { whitelist_mint_start_time: 0, discounted_mint_price: 8 },
            wl_start_time_3: WLStartTime { whitelist_mint_start_time: 0, discounted_mint_price: 7 },
            wl_start_time_4: WLStartTime { whitelist_mint_start_time: 0, discounted_mint_price: 6 },
        },
    };
    let mut allowance =
        create_wallet_whitelist(&b"Two".to_vec(), &config, key(3), key(9)).unwrap();
    let txv_bytes = encode_sysvar(&[(keys.self_program, vec![], 1)], 0);
    let txv = parse_instruction_sysvar(&txv_bytes).unwrap();
    let req = MintRequest {
        now: 2_000,
        minter: key(9),
        metadata_empty: true,
        slot_hashes_key: key(16),
        remaining_accounts: 0,
        gateway_verify_ok: true,
        whitelist_token_amount: None,
        whitelist_mint_key_matches: true,
        payment: PaymentFacts::Native(1_000),
    };
    let mut slot_hashes = vec![0u8; 20];
    slot_hashes[12..20].copy_from_slice(&3u64.to_le_bytes()); // start index 3

    let (line, plan) =
        whitelist_mint_step(&mut tars, &mut allowance, &mut buffer, &txv, &keys, &req, &slot_hashes)
            .unwrap();
    assert_eq!(line.name, b"item3".to_vec());
    assert_eq!(line.uri, b"uri3".to_vec());
    assert_eq!(plan.price, 8);
    assert_eq!(tars.items_redeemed, 1);
    assert_eq!(allowance.number_of_whitelist_spots_per_user, 1);

    // the same start index now probes forward to the next clear slot
    let (line, _) =
        whitelist_mint_step(&mut tars, &mut allowance, &mut buffer, &txv, &keys, &req, &slot_hashes)
            .unwrap();
    assert_eq!(line.name, b"item4".to_vec());
    assert_eq!(tars.items_redeemed, 2);
    assert_eq!(allowance.number_of_whitelist_spots_per_user, 0);
}

#[test]
fn sysvar_parse_round_trip() {
    let buf = encode_sysvar(
        &[
            (key(10), vec![1, 2, 3], 2),
            (key(11), vec![], 0),
            (key(12), vec![9; 40], 5),
        ],
        1,
    );
    let tv = parse_instruction_sysvar(&buf).unwrap();
    assert_eq!(tv.current_index, 1);
    assert_eq!(tv.instructions.len(), 3);
    assert!(cmp_pubkeys(&tv.instructions[0].program_id, &key(10)));
    assert_eq!(tv.instructions[0].data, vec![1, 2, 3]);
    assert!(cmp_pubkeys(&tv.instructions[1].program_id, &key(11)));
    assert!(tv.instructions[1].data.is_empty());
    assert_eq!(tv.instructions[2].data.len(), 40);
}

#[test]
fn malformed_sysvar_is_rejected() {
    assert!(parse_instruction_sysvar(&vec![]).is_none());
    assert!(parse_instruction_sysvar(&vec![0, 0, 0, 0]).is_none());
    // a record pointing past the end of the buffer
    let mut buf = encode_sysvar(&[(key(10), vec![1], 0)], 0);
    buf.truncate(buf.len() - 10);
    buf.extend_from_slice(&0u16.to_le_bytes());
    assert!(parse_instruction_sysvar(&buf).is_none());
    // a current index out of range
    let buf = encode_sysvar(&[(key(10), vec![1], 0)], 7);
    assert!(parse_instruction_sysvar(&buf).is_none());
}
