use nest_presale::address::Address;
use nest_presale::error::PresaleError;
use nest_presale::instructions::{
    claim, create_bank, create_config, create_presale, presale, withdraw, AccountRef, Deployment,
};
use nest_presale::records::{ConfigData, PresaleData};
use nest_presale::vesting::{NEST_TOTAL_AMOUNT, PER_MONTH_SECOND, PRESALE_ENDTIME, UNLOCK_START_TIME};
use solana_program::pubkey::Pubkey;

fn addr(b: u8) -> Address {
    Address { bytes: [b; 32] }
}

fn deployment() -> Deployment {
    Deployment { program_id: addr(7), admin: addr(1), usdt_receiver: addr(2) }
}

fn derived(seeds: &[&[u8]]) -> (Address, u8) {
    let (k, bump) = Pubkey::find_program_address(seeds, &Pubkey::new_from_array([7; 32]));
    (Address { bytes: k.to_bytes() }, bump)
}

fn account(key: Address, owner: Address, is_signer: bool) -> AccountRef {
    AccountRef { key, owner, is_signer }
}

fn user() -> AccountRef {
    account(addr(3), addr(0), true)
}

fn ledger_account() -> (AccountRef, u8) {
    let (k, bump) = derived(&[b"PRESALE", &[3u8; 32]]);
    (account(k, addr(7), false), bump)
}

fn bank_account() -> (AccountRef, u8) {
    let (k, bump) = derived(&[b"BANK"]);
    (account(k, addr(0), false), bump)
}

fn config_account() -> AccountRef {
    account(derived(&[b"CONFIG"]).0, addr(7), false)
}

#[test]
fn compiled_in_addresses_are_checked() {
    assert_eq!(Deployment::new(addr(7)).err(), Some(PresaleError::InvalidConfiguration));
}

#[test]
fn create_bank_at_derived_address() {
    let d = deployment();
    let (bank, bump) = bank_account();
    assert_ne!(bank.key, d.program_id);
    let c = create_bank(&d, &account(addr(1), addr(0), true), &bank).unwrap();
    assert_eq!(c.address, bank.key);
    assert_eq!(c.space, 0);
    assert_eq!(c.owner, d.program_id);
    assert_eq!(c.seeds, vec![PresaleData::SEED_BANK.as_bytes().to_vec(), vec![bump]]);
    assert!(c.data.is_empty());
}

#[test]
fn create_bank_by_non_admin_fails() {
    let (bank, _) = bank_account();
    let r = create_bank(&deployment(), &user(), &bank);
    assert_eq!(r.err(), Some(PresaleError::Unauthorized));
}

#[test]
fn create_bank_at_wrong_address_fails() {
    let r = create_bank(&deployment(), &account(addr(1), addr(0), true), &account(addr(9), addr(0), false));
    assert_eq!(r.err(), Some(PresaleError::AddressMismatch));
}

#[test]
fn create_config_holds_whole_supply() {
    let d = deployment();
    let cfg = config_account();
    let c = create_config(&d, &account(addr(1), addr(0), true), &cfg).unwrap();
    assert_eq!(c.address, cfg.key);
    assert_eq!(c.space, 16);
    assert_eq!(c.owner, d.program_id);
    assert_eq!(c.seeds[0], ConfigData::SEED_CONFIG.as_bytes().to_vec());
    assert_eq!(c.seeds[1], vec![derived(&[b"CONFIG"]).1]);
    assert_eq!(
        ConfigData::from_bytes(&c.data),
        Ok(ConfigData { nest_total: NEST_TOTAL_AMOUNT, presale_total: 0 })
    );
}

#[test]
fn create_config_errors() {
    let d = deployment();
    assert_eq!(create_config(&d, &user(), &config_account()).err(), Some(PresaleError::Unauthorized));
    let wrong = account(addr(8), addr(7), false);
    assert_eq!(
        create_config(&d, &account(addr(1), addr(0), true), &wrong).err(),
        Some(PresaleError::AddressMismatch)
    );
}

#[test]
fn create_presale_records_bump() {
    let d = deployment();
    let (ledger, bump) = ledger_account();
    let payer = account(addr(3), addr(0), false);
    let c = create_presale(&d.program_id, &payer, &ledger).unwrap();
    assert_eq!(c.address, ledger.key);
    assert_eq!(c.space, 25);
    assert_eq!(c.owner, d.program_id);
    assert_eq!(c.seeds, vec![PresaleData::SEED_PRESALE.as_bytes().to_vec(), vec![3u8; 32], vec![bump]]);
    assert_eq!(
        PresaleData::from_bytes(&c.data),
        Ok(PresaleData { nest_total: 0, nest_claim: 0, nest_cliff: 0, bump })
    );
    let other = account(addr(4), addr(0), false);
    assert_eq!(create_presale(&d.program_id, &other, &ledger).err(), Some(PresaleError::AddressMismatch));
}

fn fresh() -> (ConfigData, PresaleData) {
    (
        ConfigData { nest_total: NEST_TOTAL_AMOUNT, presale_total: 0 },
        PresaleData { nest_total: 0, nest_claim: 0, nest_cliff: 0, bump: ledger_account().1 },
    )
}

#[test]
fn presale_moves_stable_tokens_to_receiver() {
    let d = deployment();
    let (mut config, mut ledger) = fresh();
    let (lacc, _) = ledger_account();
    let src = account(addr(5), addr(0), false);
    let dst = account(addr(2), addr(0), false);
    let t = presale(&d, &user(), &src, &dst, &lacc, &config_account(), PRESALE_ENDTIME, 100_000000, &mut config, &mut ledger)
        .unwrap();
    assert_eq!(t.source, addr(5));
    assert_eq!(t.destination, addr(2));
    assert_eq!(t.authority, addr(3));
    assert_eq!(t.amount, 100_000000);
    assert!(t.signer_seeds.is_empty());
    assert_eq!(ledger.nest_total, 200_000_000_000);
    assert_eq!(config.presale_total, 200_000_000_000);
}

#[test]
fn presale_account_errors() {
    let d = deployment();
    let (lacc, _) = ledger_account();
    let src = account(addr(5), addr(0), false);
    let dst = account(addr(2), addr(0), false);
    let cfg = config_account();
    let (mut config, mut ledger) = fresh();
    let unsigned = account(addr(3), addr(0), false);
    let r = presale(&d, &unsigned, &src, &dst, &lacc, &cfg, PRESALE_ENDTIME, 100_000000, &mut config, &mut ledger);
    assert_eq!(r.err(), Some(PresaleError::MissingSignature));
    let r = presale(&d, &user(), &src, &src, &lacc, &cfg, PRESALE_ENDTIME, 100_000000, &mut config, &mut ledger);
    assert_eq!(r.err(), Some(PresaleError::InvalidReceiver));
    let foreign = account(lacc.key, addr(9), false);
    let r = presale(&d, &user(), &src, &dst, &foreign, &cfg, PRESALE_ENDTIME, 100_000000, &mut config, &mut ledger);
    assert_eq!(r.err(), Some(PresaleError::NotProgramOwned));
    let r = presale(&d, &user(), &src, &dst, &lacc, &cfg, PRESALE_ENDTIME + 1, 100_000000, &mut config, &mut ledger);
    assert_eq!(r.err(), Some(PresaleError::PresaleClosed));
    assert_eq!((config, ledger), fresh());
}

fn bought() -> PresaleData {
    let (mut config, mut ledger) = fresh();
    nest_presale::vesting::buy(&mut config, &mut ledger, 100_000000, PRESALE_ENDTIME).unwrap();
    ledger
}

#[test]
fn claim_pays_from_vault_signed_by_vault() {
    let d = deployment();
    let (lacc, _) = ledger_account();
    let (bank, bank_bump) = bank_account();
    let src = account(addr(6), addr(0), false);
    let dst = account(addr(10), addr(0), false);
    let mut ledger = bought();
    let now = UNLOCK_START_TIME + 2 * PER_MONTH_SECOND as i64;
    let t = claim(&d.program_id, &user(), &src, &dst, &lacc, &bank, now, &mut ledger).unwrap();
    assert_eq!(t.amount, 50_000_000_000);
    assert_eq!(t.authority, bank.key);
    assert_eq!(t.source, addr(6));
    assert_eq!(t.destination, addr(10));
    assert_eq!(t.signer_seeds, vec![PresaleData::SEED_BANK.as_bytes().to_vec(), vec![bank_bump]]);
    let before = ledger;
    let r = claim(&d.program_id, &user(), &src, &dst, &lacc, &bank, now, &mut ledger);
    assert_eq!(r.err(), Some(PresaleError::ClaimPeriodZero));
    assert_eq!(ledger, before);
}

#[test]
fn claim_right_after_purchase_fails() {
    let d = deployment();
    let (lacc, _) = ledger_account();
    let (bank, _) = bank_account();
    let src = account(addr(6), addr(0), false);
    let mut ledger = bought();
    let r = claim(&d.program_id, &user(), &src, &src, &lacc, &bank, PRESALE_ENDTIME, &mut ledger);
    assert_eq!(r.err(), Some(PresaleError::UnlockNotStarted));
}

#[test]
fn claim_account_errors() {
    let d = deployment();
    let (lacc, bump) = ledger_account();
    let (bank, _) = bank_account();
    let src = account(addr(6), addr(0), false);
    let now = UNLOCK_START_TIME;
    let mut ledger = bought();
    let before = ledger;
    let unsigned = account(addr(3), addr(0), false);
    assert_eq!(claim(&d.program_id, &unsigned, &src, &src, &lacc, &bank, now, &mut ledger).err(), Some(PresaleError::MissingSignature));
    let wrong = account(addr(11), addr(7), false);
    assert_eq!(claim(&d.program_id, &user(), &src, &src, &wrong, &bank, now, &mut ledger).err(), Some(PresaleError::InvalidSeeds));
    let foreign = account(lacc.key, addr(9), false);
    assert_eq!(claim(&d.program_id, &user(), &src, &src, &foreign, &bank, now, &mut ledger).err(), Some(PresaleError::NotProgramOwned));
    assert_eq!(claim(&d.program_id, &user(), &src, &src, &lacc, &wrong, now, &mut ledger).err(), Some(PresaleError::InvalidSeeds));
    let mut bad_bump = PresaleData { bump: bump.wrapping_add(1), ..ledger };
    assert_eq!(claim(&d.program_id, &user(), &src, &src, &lacc, &bank, now, &mut bad_bump).err(), Some(PresaleError::InvalidSeeds));
    assert_eq!(ledger, before);
    let mut empty = fresh().1;
    assert_eq!(claim(&d.program_id, &user(), &src, &src, &lacc, &bank, now, &mut empty).err(), Some(PresaleError::NothingPurchased));
}

#[test]
fn withdraw_leaves_records_untouched() {
    let d = deployment();
    let (bank, bank_bump) = bank_account();
    let config = ConfigData { nest_total: NEST_TOTAL_AMOUNT, presale_total: 200_000_000_000 };
    let ledger = bought();
    let admin = account(addr(1), addr(0), true);
    let src = account(addr(6), addr(0), false);
    let dst = account(addr(12), addr(0), false);
    let t = withdraw(&d, &admin, &src, &dst, &bank, 777).unwrap();
    assert_eq!(t.amount, 777);
    assert_eq!(t.source, addr(6));
    assert_eq!(t.destination, addr(12));
    assert_eq!(t.authority, bank.key);
    assert_eq!(t.signer_seeds, vec![PresaleData::SEED_BANK.as_bytes().to_vec(), vec![bank_bump]]);
    assert_eq!(config, ConfigData { nest_total: NEST_TOTAL_AMOUNT, presale_total: 200_000_000_000 });
    assert_eq!(ledger, bought());
}

#[test]
fn withdraw_errors() {
    let d = deployment();
    let (bank, _) = bank_account();
    let admin = account(addr(1), addr(0), true);
    let src = account(addr(6), addr(0), false);
    assert_eq!(withdraw(&d, &admin, &src, &src, &bank, 0).err(), Some(PresaleError::InvalidArgument));
    assert_eq!(withdraw(&d, &user(), &src, &src, &bank, 5).err(), Some(PresaleError::Unauthorized));
    let unsigned = account(addr(1), addr(0), false);
    assert_eq!(withdraw(&d, &unsigned, &src, &src, &bank, 5).err(), Some(PresaleError::MissingSignature));
    assert_eq!(withdraw(&d, &admin, &src, &src, &src, 5).err(), Some(PresaleError::AddressMismatch));
}
