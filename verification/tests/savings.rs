use governance::ids::AccountId;
use governance::vault::{calculate_reward, claim, deposit, initialize_vault, DepositReceipt, Vault,
    VaultError, SLOTS_PER_YEAR_ESTIMATE};

fn id(n: u64) -> AccountId {
    AccountId::new(n, 0, 0, 0)
}

fn sample_vault() -> Vault {
    // a one-year term at 5% yearly
    initialize_vault(id(1), 9, id(2), id(3), id(4), id(5), SLOTS_PER_YEAR_ESTIMATE, 500, 255)
        .unwrap()
}

#[test]
fn initialize_vault_rejects_zero_term() {
    let r = initialize_vault(id(1), 9, id(2), id(3), id(4), id(5), 0, 500, 255);
    assert_eq!(r, Err(VaultError::InvalidTerm));
}

#[test]
fn initialize_vault_rejects_high_apy() {
    let r = initialize_vault(id(1), 9, id(2), id(3), id(4), id(5), 10, 10_001, 255);
    assert_eq!(r, Err(VaultError::InvalidApy));
}

#[test]
fn initialize_vault_stores_configuration() {
    let v = sample_vault();
    assert_eq!(v.authority, id(1));
    assert_eq!(v.vault_id, 9);
    assert_eq!(v.deposit_mint, id(2));
    assert_eq!(v.reward_mint, id(3));
    assert_eq!(v.vault_token_account, id(4));
    assert_eq!(v.reward_vault, id(5));
    assert_eq!(v.term_slots, SLOTS_PER_YEAR_ESTIMATE);
    assert_eq!(v.apy_bps, 500);
    assert_eq!(v.total_deposited, 0);
}

#[test]
fn deposit_locks_principal_and_window() {
    let mut v = sample_vault();
    let mut r = DepositReceipt::blank();
    assert_eq!(deposit(&mut v, &mut r, id(40), id(30), id(2), 1_000_000, 700, 254), Ok(()));
    assert_eq!(r.vault, id(40));
    assert_eq!(r.owner, id(30));
    assert_eq!(r.amount, 1_000_000);
    assert_eq!(r.start_slot, 700);
    assert_eq!(r.unlock_slot, 700 + SLOTS_PER_YEAR_ESTIMATE);
    assert!(!r.claimed);
    assert_eq!(r.bump, 254);
    assert_eq!(v.total_deposited, 1_000_000);
}

#[test]
fn deposit_accumulates_and_restarts_window() {
    let mut v = sample_vault();
    let mut r = DepositReceipt::blank();
    assert_eq!(deposit(&mut v, &mut r, id(40), id(30), id(2), 600, 700, 254), Ok(()));
    assert_eq!(deposit(&mut v, &mut r, id(40), id(30), id(2), 400, 900, 254), Ok(()));
    assert_eq!(r.amount, 1_000);
    assert_eq!(r.start_slot, 900);
    assert_eq!(r.unlock_slot, 900 + SLOTS_PER_YEAR_ESTIMATE);
    assert_eq!(v.total_deposited, 1_000);
}

#[test]
fn deposit_rejects_zero_amount() {
    let mut v = sample_vault();
    let mut r = DepositReceipt::blank();
    assert_eq!(
        deposit(&mut v, &mut r, id(40), id(30), id(2), 0, 700, 254),
        Err(VaultError::InvalidAmount)
    );
    assert_eq!(r, DepositReceipt::blank());
}

#[test]
fn deposit_rejects_wrong_mint() {
    let mut v = sample_vault();
    let mut r = DepositReceipt::blank();
    assert_eq!(
        deposit(&mut v, &mut r, id(40), id(30), id(9), 100, 700, 254),
        Err(VaultError::MintMismatch)
    );
    assert_eq!(v.total_deposited, 0);
}

#[test]
fn deposit_rejects_unlock_overflow() {
    let mut v = sample_vault();
    let mut r = DepositReceipt::blank();
    let late = u64::MAX - SLOTS_PER_YEAR_ESTIMATE + 1;
    assert_eq!(
        deposit(&mut v, &mut r, id(40), id(30), id(2), 100, late, 254),
        Err(VaultError::MathOverflow)
    );
    assert_eq!(r, DepositReceipt::blank());
    assert_eq!(v.total_deposited, 0);
}

#[test]
fn deposit_rejects_receipt_overflow() {
    let mut v = sample_vault();
    let mut r = DepositReceipt::blank();
    assert_eq!(deposit(&mut v, &mut r, id(40), id(30), id(2), u64::MAX, 700, 254), Ok(()));
    assert_eq!(
        deposit(&mut v, &mut r, id(40), id(30), id(2), 1, 800, 254),
        Err(VaultError::MathOverflow)
    );
    assert_eq!(r.amount, u64::MAX);
    assert_eq!(r.start_slot, 700);
}

#[test]
fn claim_pays_principal_plus_reward() {
    let mut v = sample_vault();
    let mut r = DepositReceipt::blank();
    assert_eq!(deposit(&mut v, &mut r, id(40), id(30), id(2), 1_000_000, 700, 254), Ok(()));
    let payout = claim(&v, &mut r, id(40), id(30), 700 + SLOTS_PER_YEAR_ESTIMATE);
    // 5% of the principal over exactly one year
    assert_eq!(payout, Ok((1_000_000, 50_000)));
    assert!(r.claimed);
}

#[test]
fn claim_is_single_shot() {
    let mut v = sample_vault();
    let mut r = DepositReceipt::blank();
    assert_eq!(deposit(&mut v, &mut r, id(40), id(30), id(2), 1_000_000, 700, 254), Ok(()));
    assert!(claim(&v, &mut r, id(40), id(30), u64::MAX).is_ok());
    assert_eq!(
        claim(&v, &mut r, id(40), id(30), u64::MAX),
        Err(VaultError::AlreadyClaimed)
    );
}

#[test]
fn claim_rejects_before_unlock() {
    let mut v = sample_vault();
    let mut r = DepositReceipt::blank();
    assert_eq!(deposit(&mut v, &mut r, id(40), id(30), id(2), 1_000_000, 700, 254), Ok(()));
    let early = claim(&v, &mut r, id(40), id(30), 700 + SLOTS_PER_YEAR_ESTIMATE - 1);
    assert_eq!(early, Err(VaultError::VaultLocked));
    assert!(!r.claimed);
}

#[test]
fn claim_rejects_wrong_owner() {
    let mut v = sample_vault();
    let mut r = DepositReceipt::blank();
    assert_eq!(deposit(&mut v, &mut r, id(40), id(30), id(2), 1_000_000, 700, 254), Ok(()));
    assert_eq!(
        claim(&v, &mut r, id(40), id(99), u64::MAX),
        Err(VaultError::Unauthorized)
    );
}

#[test]
fn claim_rejects_wrong_vault() {
    let mut v = sample_vault();
    let mut r = DepositReceipt::blank();
    assert_eq!(deposit(&mut v, &mut r, id(40), id(30), id(2), 1_000_000, 700, 254), Ok(()));
    assert_eq!(
        claim(&v, &mut r, id(41), id(30), u64::MAX),
        Err(VaultError::VaultMismatch)
    );
}

#[test]
fn calculate_reward_exact_year() {
    let r = calculate_reward(1_000_000, 500, SLOTS_PER_YEAR_ESTIMATE, SLOTS_PER_YEAR_ESTIMATE);
    assert_eq!(r, Ok(50_000));
}

#[test]
fn calculate_reward_half_year() {
    let r = calculate_reward(1_000_000, 500, SLOTS_PER_YEAR_ESTIMATE / 2, SLOTS_PER_YEAR_ESTIMATE);
    assert_eq!(r, Ok(25_000));
}

#[test]
fn calculate_reward_zero_rate_or_term() {
    assert_eq!(calculate_reward(1_000_000, 0, 10, SLOTS_PER_YEAR_ESTIMATE), Ok(0));
    assert_eq!(calculate_reward(1_000_000, 500, 0, SLOTS_PER_YEAR_ESTIMATE), Ok(0));
}

#[test]
fn calculate_reward_rounds_down_to_zero() {
    assert_eq!(calculate_reward(3, 1, 1, SLOTS_PER_YEAR_ESTIMATE), Ok(0));
}

#[test]
fn calculate_reward_clamps_zero_year_divisor() {
    assert_eq!(calculate_reward(10_000, 10_000, 1, 0), Ok(10_000));
}

#[test]
fn calculate_reward_reports_wide_overflow() {
    let r = calculate_reward(u64::MAX, u16::MAX, u64::MAX, SLOTS_PER_YEAR_ESTIMATE);
    assert_eq!(r, Err(VaultError::MathOverflow));
}
