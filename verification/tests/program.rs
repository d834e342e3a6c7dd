use megaswap_faucet::account::AccountRecord;
use megaswap_faucet::config::Config;
use megaswap_faucet::error::FaucetError;
use megaswap_faucet::instructions::account_checkers::{
    signer_check, system_account_check, MintAccount, TokenAccount,
};
use megaswap_faucet::instructions::dispense::{
    choose_token, plan_payout, rng_seed, Dispense, DispenseAccounts, Payout, TokenSide,
};
use megaswap_faucet::instructions::helpers::{AssociatedTokenAccount, ProgramAccount};
use megaswap_faucet::instructions::initialize::{Initialize, InitializeAccounts, InitializeInstructionData};
use megaswap_faucet::processor::{decode_instruction, process_instructions, FaucetInstruction, ProgramAction};
use megaswap_faucet::ID;

const TOKEN_PROGRAM: [u8; 32] = [
    6, 221, 246, 225, 215, 101, 161, 147, 217, 203, 225, 70, 206, 235, 121, 172, 28, 180, 133, 237,
    95, 91, 55, 145, 58, 140, 245, 133, 126, 255, 0, 169,
];
const ATA_PROGRAM: [u8; 32] = [
    140, 151, 37, 143, 78, 36, 137, 241, 187, 61, 16, 41, 20, 142, 13, 131, 11, 90, 19, 153, 218,
    255, 16, 132, 4, 142, 123, 216, 219, 233, 248, 89,
];

fn record(address: [u8; 32], owner: [u8; 32], is_signer: bool, data: Vec<u8>) -> AccountRecord {
    AccountRecord { address, owner, is_signer, is_writable: true, lamports: 1_000, data }
}

fn pda(seeds: &[&[u8]], program: &[u8; 32]) -> ([u8; 32], u8) {
    let (a, b) = solana_address::Address::find_program_address(
        seeds,
        &solana_address::Address::new_from_array(*program),
    );
    (a.to_bytes(), b)
}

fn mint_data(authority: Option<[u8; 32]>, supply: u64, decimals: u8, initialized: bool) -> Vec<u8> {
    let mut d = vec![0u8; 82];
    if let Some(a) = authority {
        d[0] = 1;
        d[4..36].copy_from_slice(&a);
    }
    d[36..44].copy_from_slice(&supply.to_le_bytes());
    d[44] = decimals;
    d[45] = if initialized { 1 } else { 0 };
    d
}

fn token_data(mint: [u8; 32], owner: [u8; 32], amount: u64) -> Vec<u8> {
    let mut d = vec![0u8; 165];
    d[0..32].copy_from_slice(&mint);
    d[32..64].copy_from_slice(&owner);
    d[64..72].copy_from_slice(&amount.to_le_bytes());
    d[108] = 1;
    d
}

fn sample_config() -> Config {
    Config {
        mint_x: [1; 32],
        x_decimal: 6,
        mint_y: [2; 32],
        y_decimal: 9,
        vault_x_ata: [3; 32],
        vault_y_ata: [4; 32],
        version: 7,
        limit: 1_000_000u64.to_le_bytes(),
    }
}

#[test]
fn config_bytes_roundtrip() {
    let config = sample_config();
    let bytes = config.to_bytes();
    assert_eq!(bytes.len(), Config::LEN);
    assert_eq!(bytes.len(), 139);
    // the layout that initialization stores and clients read back
    assert_eq!(&bytes[0..32], &[1; 32]);
    assert_eq!(bytes[32], 6);
    assert_eq!(&bytes[33..65], &[2; 32]);
    assert_eq!(bytes[65], 9);
    assert_eq!(&bytes[66..98], &[3; 32]);
    assert_eq!(&bytes[98..130], &[4; 32]);
    assert_eq!(bytes[130], 7);
    assert_eq!(&bytes[131..139], &1_000_000u64.to_le_bytes());
    let back = Config::from_bytes(&bytes).unwrap();
    assert_eq!(back, config);
    assert_eq!(back.limit(), 1_000_000);
    assert_eq!(back.mint_x(), &[1; 32]);
    assert_eq!(back.mint_y(), &[2; 32]);
    assert_eq!(back.vault_x_ata(), &[3; 32]);
    assert_eq!(back.vault_y_ata(), &[4; 32]);
    assert_eq!(back.version(), 7);
    assert_eq!(back.x_decimal(), 6);
    assert_eq!(back.y_decimal(), 9);
    let mut longer = bytes.clone();
    longer.extend_from_slice(&[0xaa; 5]);
    assert_eq!(Config::from_bytes_unchecked(&longer), config);
}

#[test]
fn config_from_bytes_wrong_length() {
    assert_eq!(Config::from_bytes(&[0u8; 138]), Err(FaucetError::InvalidAccountData));
    assert_eq!(Config::from_bytes(&[0u8; 140]), Err(FaucetError::InvalidAccountData));
}

#[test]
fn config_setters_then_getters() {
    let mut config = sample_config();
    assert_eq!(config.set_limit(42), Ok(()));
    assert_eq!(config.limit(), 42);
    config.set_inner([5; 32], 2, [6; 32], 4, [7; 32], [8; 32], 3).unwrap();
    assert_eq!(config.limit(), 42);
    assert_eq!(config.x_decimal(), 2);
    assert_eq!(config.y_decimal(), 4);
    assert_eq!(config.mint_x(), &[5; 32]);
    assert_eq!(config.mint_y(), &[6; 32]);
    assert_eq!(config.vault_x_ata(), &[7; 32]);
    assert_eq!(config.vault_y_ata(), &[8; 32]);
    assert_eq!(config.version(), 3);
    config.set_version(4).unwrap();
    config.set_mint_x([9; 32]).unwrap();
    assert_eq!(config.version(), 4);
    assert_eq!(config.mint_x(), &[9; 32]);
}

#[test]
fn config_load_checks_size_and_owner() {
    let bytes = sample_config().to_bytes();
    let good = record([9; 32], ID, false, bytes.clone());
    assert_eq!(Config::load(&good).unwrap(), sample_config());
    assert_eq!(Config::load_unchecked(&good).unwrap(), sample_config());
    let wrong_owner = record([9; 32], [0; 32], false, bytes.clone());
    assert_eq!(Config::load(&wrong_owner), Err(FaucetError::InvalidAccountData));
    let short = record([9; 32], ID, false, bytes[..100].to_vec());
    assert_eq!(Config::load_mut(&short), Err(FaucetError::InvalidAccountData));
}

#[test]
fn config_save_then_load() {
    let mut account = record([9; 32], ID, false, vec![0; 139]);
    let mut config = Config::load_mut(&account).unwrap();
    config.set_limit(77).unwrap();
    config.save(&mut account);
    assert_eq!(Config::load(&account).unwrap().limit(), 77);
}

#[test]
fn signer_and_system_checks() {
    assert_eq!(signer_check(&record([1; 32], [0; 32], true, vec![])), Ok(()));
    assert_eq!(
        signer_check(&record([1; 32], [0; 32], false, vec![])),
        Err(FaucetError::MissingRequiredSignature)
    );
    assert_eq!(system_account_check(&record([1; 32], [0; 32], false, vec![])), Ok(()));
    assert_eq!(
        system_account_check(&record([1; 32], TOKEN_PROGRAM, false, vec![])),
        Err(FaucetError::IncorrectProgramId)
    );
}

#[test]
fn mint_and_token_checks() {
    let mint = record([1; 32], TOKEN_PROGRAM, false, vec![0; 82]);
    assert_eq!(MintAccount::check(&mint), Ok(()));
    assert!(!MintAccount::needs_init(&mint));
    assert_eq!(
        MintAccount::check(&record([1; 32], [0; 32], false, vec![0; 82])),
        Err(FaucetError::IncorrectProgramId)
    );
    assert_eq!(
        MintAccount::check(&record([1; 32], TOKEN_PROGRAM, false, vec![0; 81])),
        Err(FaucetError::InvalidAccountData)
    );
    let token = record([1; 32], TOKEN_PROGRAM, false, vec![0; 165]);
    assert_eq!(TokenAccount::check(&token), Ok(()));
    assert!(TokenAccount::needs_init(&record([1; 32], TOKEN_PROGRAM, false, vec![0; 82])));
}

#[test]
fn mint_load_reads_layout() {
    let account = record([1; 32], TOKEN_PROGRAM, false, mint_data(Some([4; 32]), 500, 6, true));
    let state = MintAccount::load(&account).unwrap();
    assert_eq!(state.mint_authority, Some([4; 32]));
    assert_eq!(state.supply, 500);
    assert_eq!(state.decimals, 6);
    assert!(state.is_initialized);
    assert_eq!(MintAccount::check_initialized(state), Ok(()));
    assert_eq!(MintAccount::check_mint_authority(state, &[4; 32]), Ok(()));
    assert_eq!(MintAccount::check_mint_authority(state, &[5; 32]), Err(FaucetError::IncorrectAuthority));
    let fresh = MintAccount::load(&record([1; 32], TOKEN_PROGRAM, false, mint_data(None, 0, 0, false))).unwrap();
    assert_eq!(MintAccount::check_initialized(fresh), Err(FaucetError::UninitializedAccount));
    assert_eq!(MintAccount::check_mint_authority(fresh, &[0; 32]), Err(FaucetError::IncorrectAuthority));
    assert_eq!(
        MintAccount::load(&record([1; 32], [0; 32], false, vec![0; 82])),
        Err(FaucetError::IncorrectProgramId)
    );
}

#[test]
fn token_load_reads_layout() {
    let account = record([1; 32], TOKEN_PROGRAM, false, token_data([2; 32], [3; 32], 99));
    let state = TokenAccount::load(&account).unwrap();
    assert_eq!(state.mint, [2; 32]);
    assert_eq!(state.owner, [3; 32]);
    assert_eq!(state.amount, 99);
    assert_eq!(TokenAccount::check_owner(state, &[3; 32]), Ok(()));
    assert_eq!(TokenAccount::check_owner(state, &[4; 32]), Err(FaucetError::InvalidAccountOwner));
    assert_eq!(TokenAccount::check_mint(state, &[2; 32]), Ok(()));
    assert_eq!(TokenAccount::check_mint(state, &[4; 32]), Err(FaucetError::InvalidAccountData));
}

#[test]
fn associated_token_account_check() {
    let wallet = record([11; 32], [0; 32], true, vec![]);
    let mint = record([12; 32], TOKEN_PROGRAM, false, mint_data(None, 0, 6, true));
    let token_program = record(TOKEN_PROGRAM, [0; 32], false, vec![]);
    let (ata, _) = pda(&[&[11; 32], &TOKEN_PROGRAM, &[12; 32]], &ATA_PROGRAM);
    let good = record(ata, TOKEN_PROGRAM, false, token_data([12; 32], [11; 32], 5));
    assert_eq!(AssociatedTokenAccount::check(&good, &wallet, &mint, &token_program), Ok(()));
    assert!(!AssociatedTokenAccount::needs_init(&good, &wallet, &mint, &token_program));
    let elsewhere = record([13; 32], TOKEN_PROGRAM, false, token_data([12; 32], [11; 32], 5));
    assert_eq!(
        AssociatedTokenAccount::check(&elsewhere, &wallet, &mint, &token_program),
        Err(FaucetError::InvalidSeeds)
    );
    let other_owner = record(ata, TOKEN_PROGRAM, false, token_data([12; 32], [14; 32], 5));
    assert_eq!(
        AssociatedTokenAccount::check(&other_owner, &wallet, &mint, &token_program),
        Err(FaucetError::InvalidAccountOwner)
    );
}

#[test]
fn program_account_check_and_close() {
    let config = record([1; 32], ID, false, vec![0; 139]);
    assert_eq!(ProgramAccount::check::<Config>(&config), Ok(()));
    assert_eq!(ProgramAccount::check::<ProgramAccount>(&config), Err(FaucetError::InvalidAccountData));
    assert_eq!(
        ProgramAccount::check::<Config>(&record([1; 32], [0; 32], false, vec![0; 139])),
        Err(FaucetError::IllegalOwner)
    );
    let mut account = record([1; 32], ID, false, vec![5; 139]);
    let mut destination = record([2; 32], [0; 32], true, vec![]);
    assert_eq!(ProgramAccount::close(&mut account, &mut destination), Ok(()));
    assert_eq!(destination.lamports, 2_000);
    assert_eq!(account.lamports, 0);
    assert!(account.data.is_empty());
    assert_eq!(account.owner, [0; 32]);
}

#[test]
fn initialize_instruction_data_parse() {
    // seed amount, mint decimals, protocol version
    let mut bytes = 1_000_000u64.to_le_bytes().to_vec();
    bytes.extend_from_slice(&[6, 1]);
    let data = InitializeInstructionData::try_from(&bytes[..]).unwrap();
    assert_eq!(data.seed_amount, 1_000_000);
    assert_eq!(data.mint_decimals, 6);
    assert_eq!(data.x_decimals, 6);
    assert_eq!(data.y_decimals, 6);
    assert_eq!(data.protocol_version, 1);
    assert_eq!(InitializeInstructionData::try_from(&bytes[..9]), Err(FaucetError::InvalidInstructionData));
    bytes.push(0);
    assert_eq!(InitializeInstructionData::try_from(&bytes[..]), Err(FaucetError::InvalidInstructionData));
}

fn initialize_accounts(signer: bool) -> Vec<AccountRecord> {
    let mut accounts = Vec::new();
    for i in 0..9u8 {
        accounts.push(record([i + 20; 32], [0; 32], signer && i == 0, vec![]));
    }
    accounts
}

#[test]
fn initialize_accounts_checks() {
    let accounts = initialize_accounts(true);
    let parsed = InitializeAccounts::try_from(&accounts).unwrap();
    assert_eq!(parsed.vault_y_ata.address, [25; 32]);
    assert!(InitializeAccounts::try_from(&accounts[..8]).is_err());
    let unsigned = initialize_accounts(false);
    assert_eq!(
        InitializeAccounts::try_from(&unsigned).err(),
        Some(FaucetError::MissingRequiredSignature)
    );
}

#[test]
fn initialize_plan_derives_addresses() {
    let accounts = initialize_accounts(true);
    let mut bytes = 5_000u64.to_le_bytes().to_vec();
    bytes.extend_from_slice(&[9, 1]);
    let ix = Initialize::try_from(&bytes, &accounts).unwrap();
    let plan = ix.process().unwrap();
    let (config, config_bump) = pda(&[b"config", &[1]], &ID);
    let (mint_x, mint_x_bump) = pda(&[b"mint_x", &config], &ID);
    let (mint_y, mint_y_bump) = pda(&[b"mint_y", &config], &ID);
    assert_eq!(plan.config_address, config);
    assert_eq!(plan.config_bump, config_bump);
    assert_eq!(plan.mint_x, mint_x);
    assert_eq!(plan.mint_x_bump, mint_x_bump);
    assert_eq!(plan.mint_y, mint_y);
    assert_eq!(plan.mint_y_bump, mint_y_bump);
    assert_ne!(plan.config_address, ID);
    assert_eq!(plan.seed_amount, 5_000);
    assert_eq!(plan.y_decimals, 9);
    assert_eq!(plan.config.mint_x, mint_x);
    assert_eq!(plan.config.vault_x_ata, [24; 32]);
    assert_eq!(plan.config.vault_y_ata, [25; 32]);
    assert_eq!(plan.config.limit(), 0);
    assert_eq!(plan.config.version, 1);
    // the stored layout read back as a client does
    let stored = plan.config.to_bytes();
    assert_eq!(&stored[0..32], &mint_x);
    assert_eq!(stored[32], 9);
    assert_eq!(&stored[33..65], &mint_y);
    assert_eq!(stored[65], 9);
    assert_eq!(&stored[66..98], &[24; 32]);
    assert_eq!(&stored[98..130], &[25; 32]);
}

#[test]
fn payout_schedule_values() {
    // six decimals: floor 100_000e6, base 50_000e6, min 20_000e6, max 70_000e6
    let m = 1_000_000u64;
    // at the target floor: base payout, no automint
    assert_eq!(plan_payout(100_000 * m, 6), Ok(Some(Payout { amount: 50_000 * m, automint: None })));
    // below the critical floor: automint back to the floor
    assert_eq!(
        plan_payout(5_000 * m, 6),
        Ok(Some(Payout { amount: 50_000 * m - 95_000 * m / 6, automint: Some(95_000 * m) }))
    );
    // deficit 40_000e6 tokens, reduction 40_000e6 / 6
    let reduction = 40_000 * m / 6;
    assert_eq!(
        plan_payout(60_000 * m, 6),
        Ok(Some(Payout { amount: 50_000 * m - reduction, automint: None }))
    );
    // just above the target floor: bonus 1 / 6 rounds to zero, no automint
    assert_eq!(plan_payout(100_000 * m + 1, 6), Ok(Some(Payout { amount: 50_000 * m, automint: None })));
    // surplus 60_000e6, bonus 10_000e6
    assert_eq!(plan_payout(160_000 * m, 6), Ok(Some(Payout { amount: 60_000 * m, automint: None })));
    // surplus 300_000e6, bonus 50_000e6: capped at the maximum payout
    assert_eq!(plan_payout(400_000 * m, 6), Ok(Some(Payout { amount: 70_000 * m, automint: None })));
    assert_eq!(plan_payout(u64::MAX, 6), Ok(Some(Payout { amount: 70_000 * m, automint: None })));
    // zero decimals: zero precision, nothing dispensed
    assert_eq!(plan_payout(0, 0), Ok(None));
    // settings overflow from 15 decimals on
    assert_eq!(plan_payout(0, 15), Err(FaucetError::InvalidInstructionData));
    assert!(plan_payout(0, 14).is_ok());
    assert_eq!(plan_payout(0, 20), Err(FaucetError::InvalidInstructionData));
}

#[test]
fn token_choice_and_seed() {
    let mut wallet = [0u8; 32];
    wallet[0..4].copy_from_slice(&0x0403_0201u32.to_le_bytes());
    assert_eq!(rng_seed(&wallet), 0x0403_0201);
    assert_eq!(choose_token(4), TokenSide::X);
    assert_eq!(choose_token(7), TokenSide::Y);
}

struct World {
    accounts: Vec<AccountRecord>,
}

fn dispense_world(vault_x_balance: u64) -> World {
    let (config, _) = pda(&[b"config", &[1]], &ID);
    let wallet = [31u8; 32];
    let mint_x = [32u8; 32];
    let mint_y = [33u8; 32];
    let ata = |owner: &[u8; 32], mint: &[u8; 32]| pda(&[owner, &TOKEN_PROGRAM, mint], &ATA_PROGRAM).0;
    let config_data = Config {
        mint_x,
        x_decimal: 6,
        mint_y,
        y_decimal: 3,
        vault_x_ata: ata(&config, &mint_x),
        vault_y_ata: ata(&config, &mint_y),
        version: 1,
        limit: [0; 8],
    }
    .to_bytes();
    let accounts = vec![
        record(wallet, [0; 32], true, vec![]),
        record(ata(&wallet, &mint_x), TOKEN_PROGRAM, false, token_data(mint_x, wallet, 0)),
        record(ata(&wallet, &mint_y), TOKEN_PROGRAM, false, token_data(mint_y, wallet, 0)),
        record(config, ID, false, config_data),
        record(mint_x, TOKEN_PROGRAM, false, mint_data(Some(config), 0, 6, true)),
        record(mint_y, TOKEN_PROGRAM, false, mint_data(Some(config), 0, 3, true)),
        record(ata(&config, &mint_x), TOKEN_PROGRAM, false, token_data(mint_x, config, vault_x_balance)),
        record(ata(&config, &mint_y), TOKEN_PROGRAM, false, token_data(mint_y, config, 70_000_000)),
        record(TOKEN_PROGRAM, [0; 32], false, vec![]),
    ];
    World { accounts }
}

#[test]
fn dispense_accounts_checked() {
    let world = dispense_world(100_000_000_000);
    assert!(DispenseAccounts::try_from(&world.accounts).is_ok());
    let mut unsigned = dispense_world(0).accounts;
    unsigned[0].is_signer = false;
    assert_eq!(
        DispenseAccounts::try_from(&unsigned).err(),
        Some(FaucetError::MissingRequiredSignature)
    );
    let mut bad_mint = dispense_world(0).accounts;
    bad_mint[4].data = mint_data(Some([1; 32]), 0, 6, true);
    assert_eq!(DispenseAccounts::try_from(&bad_mint).err(), Some(FaucetError::IncorrectAuthority));
    let mut bad_vault = dispense_world(0).accounts;
    bad_vault[6].address = [40; 32];
    assert_eq!(DispenseAccounts::try_from(&bad_vault).err(), Some(FaucetError::InvalidSeeds));
    assert_eq!(
        DispenseAccounts::try_from(&world.accounts[..8]).err(),
        Some(FaucetError::InvalidAccountData)
    );
}

#[test]
fn dispense_plan_for_each_side() {
    let world = dispense_world(4_000_000_000);
    let ix = Dispense::try_from(&[], &world.accounts).unwrap();
    let (_, bump) = pda(&[b"config", &[1]], &ID);
    // even: token x, 6 decimals, balance 4_000e6 below the critical floor
    // (deficit 96_000e6, reduction 16_000e6)
    let plan = ix.process(2).unwrap();
    assert_eq!(plan.side, TokenSide::X);
    assert_eq!(plan.config_bump, bump);
    assert_eq!(plan.version, 1);
    assert_eq!(plan.decimals, 6);
    assert_eq!(plan.payout, Some(Payout { amount: 34_000_000_000, automint: Some(96_000_000_000) }));
    // odd: token y, 3 decimals, balance 70_000e3 (deficit 30_000e3, reduction 10_000e3)
    let plan = ix.process(3).unwrap();
    assert_eq!(plan.side, TokenSide::Y);
    assert_eq!(plan.decimals, 3);
    assert_eq!(plan.payout, Some(Payout { amount: 40_000_000, automint: None }));
}

#[test]
fn dispense_overflowing_vault_pays_more() {
    // 160_000e6 tokens: surplus 60_000e6, bonus 10_000e6, no automint
    let world = dispense_world(160_000_000_000);
    let ix = Dispense::try_from(&[], &world.accounts).unwrap();
    let plan = ix.process(0).unwrap();
    assert_eq!(plan.side, TokenSide::X);
    assert_eq!(plan.payout, Some(Payout { amount: 60_000_000_000, automint: None }));
}

#[test]
fn dispense_decimals_come_from_config() {
    let mut accounts = dispense_world(100_000_000_000).accounts;
    // the mint records say otherwise; the configuration decides
    accounts[4].data[44] = 2;
    let ix = Dispense::try_from(&[], &accounts).unwrap();
    assert_eq!(ix.process(0).unwrap().decimals, 6);
}

#[test]
fn instruction_routing() {
    assert_eq!(decode_instruction(&[]), Err(FaucetError::InvalidInstructionData));
    assert_eq!(decode_instruction(&[2, 1]), Err(FaucetError::InvalidInstructionData));
    assert_eq!(decode_instruction(&[0, 5, 6]), Ok((FaucetInstruction::Initialize, &[5u8, 6][..])));
    assert_eq!(decode_instruction(&[1]), Ok((FaucetInstruction::Dispense, &[][..])));
    // the wallet [31; 32] seeds 0x1f1f1f1f, which is odd: token y with 3
    // decimals, balance 70_000e3, deficit 30_000e3, reduction 10_000e3
    let world = dispense_world(50_000_000_000);
    match process_instructions(&world.accounts, &[1]) {
        Ok(ProgramAction::Dispense(plan)) => {
            assert_eq!(plan.side, TokenSide::Y);
            assert_eq!(plan.payout, Some(Payout { amount: 40_000_000, automint: None }))
        }
        other => panic!("unexpected {:?}", other),
    }
    // the payload a client sends: seed amount, mint decimals, version
    let accounts = initialize_accounts(true);
    let mut data = vec![0u8];
    data.extend_from_slice(&1_000_000u64.to_le_bytes());
    data.push(6);
    data.push(1);
    match process_instructions(&accounts, &data) {
        Ok(ProgramAction::Initialize(plan)) => {
            assert_eq!(plan.seed_amount, 1_000_000);
            assert_eq!(plan.x_decimals, 6);
            assert_eq!(plan.y_decimals, 6);
            assert_eq!(plan.protocol_version, 1);
        }
        other => panic!("unexpected {:?}", other),
    }
    data.push(0);
    assert_eq!(process_instructions(&accounts, &data), Err(FaucetError::InvalidInstructionData));
}
