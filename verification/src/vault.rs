//! Time-locked savings: a Vault fixes a deposit asset class, a term and a
//! reward rate; a DepositReceipt locks a user's deposit until the term ends
//! and then clears a one-shot claim of principal plus accrued reward.
//!
//! Moving the deposited and rewarded units is the out-of-scope "transfer N
//! units between two balances" capability of the ledger's token program; the
//! caller performs it in the same atomic unit of work around these
//! transitions.

use vstd::prelude::*;
use crate::engine::BASIS_POINT_SCALE;
use crate::ids::AccountId;

verus! {

/// Estimated logical-clock ticks in one year, used to pro-rate the yearly
/// reward rate over the vault's term.
pub const SLOTS_PER_YEAR_ESTIMATE: u64 = 63_072_000;

/// Errors of the savings module.
#[derive(Clone, Copy, PartialEq, Eq, Structural, Debug)]
pub enum VaultError {
    /// A vault's term must be positive.
    InvalidTerm,
    /// A vault's reward rate is capped at 10,000 basis points.
    InvalidApy,
    /// A deposited amount must be positive.
    InvalidAmount,
    /// The supplied asset class is not the vault's.
    MintMismatch,
    /// A checked arithmetic step would overflow.
    MathOverflow,
    /// The receipt was already claimed.
    AlreadyClaimed,
    /// The caller does not own the receipt.
    Unauthorized,
    /// The receipt's term has not ended yet.
    VaultLocked,
    /// The receipt does not belong to the supplied vault.
    VaultMismatch,
    /// Reserved: the substrate could not supply a uniqueness nonce.
    BumpNotFound,
}

/// A savings pool with a fixed term and yearly reward rate.
#[derive(Clone, Copy, PartialEq, Eq, Structural, Debug)]
pub struct Vault {
    /// Identity that opened the vault.
    pub authority: AccountId,
    /// Caller-supplied discriminator of the vault's derived address.
    pub vault_id: u64,
    /// Asset class accepted for deposits.
    pub deposit_mint: AccountId,
    /// Asset class rewards are paid in.
    pub reward_mint: AccountId,
    /// Account holding the deposited units.
    pub vault_token_account: AccountId,
    /// Account holding the reward reserve.
    pub reward_vault: AccountId,
    /// Lock-up length in logical-clock ticks; always positive.
    pub term_slots: u64,
    /// Yearly reward rate in basis points; at most 10,000.
    pub apy_bps: u16,
    /// Sum of all deposits ever locked in.
    pub total_deposited: u64,
    /// Uniqueness nonce of the record's derived address.
    pub bump: u8,
}

/// One user's locked deposit in a vault.
#[derive(Clone, Copy, PartialEq, Eq, Structural, Debug)]
pub struct DepositReceipt {
    /// Address of the owning vault.
    pub vault: AccountId,
    /// The depositor's identity.
    pub owner: AccountId,
    /// Locked principal.
    pub amount: u64,
    /// Tick of the latest deposit.
    pub start_slot: u64,
    /// Tick at which the principal unlocks.
    pub unlock_slot: u64,
    /// Whether the receipt was already paid out.
    pub claimed: bool,
    /// Uniqueness nonce of the record's derived address.
    pub bump: u8,
}

impl DepositReceipt {
    /// A freshly allocated, all-zero receipt, as the substrate hands one to
    /// the first `deposit` of a user in a vault.
    pub fn blank() -> (r: DepositReceipt)
        ensures
            r == DepositReceipt::blank_record(),
    {
        DepositReceipt {
            vault: AccountId::zero(),
            owner: AccountId::zero(),
            amount: 0,
            start_slot: 0,
            unlock_slot: 0,
            claimed: false,
            bump: 0,
        }
    }

    /// The all-zero receipt, as a specification value.
    pub open spec fn blank_record() -> DepositReceipt {
        DepositReceipt {
            vault: AccountId::zero_id(),
            owner: AccountId::zero_id(),
            amount: 0,
            start_slot: 0,
            unlock_slot: 0,
            claimed: false,
            bump: 0,
        }
    }
}

/// Transition of `initialize_vault`: a positive term and a reward rate
/// within the basis-point domain; the vault starts with nothing deposited.
pub open spec fn initialize_vault_result(
    authority: AccountId,
    vault_id: u64,
    deposit_mint: AccountId,
    reward_mint: AccountId,
    vault_token_account: AccountId,
    reward_vault: AccountId,
    term_slots: u64,
    apy_bps: u16,
    bump: u8,
) -> Result<Vault, VaultError> {
    if term_slots == 0 {
        Err(VaultError::InvalidTerm)
    } else if apy_bps > BASIS_POINT_SCALE {
        Err(VaultError::InvalidApy)
    } else {
        Ok(
            Vault {
                authority,
                vault_id,
                deposit_mint,
                reward_mint,
                vault_token_account,
                reward_vault,
                term_slots,
                apy_bps,
                total_deposited: 0,
                bump,
            },
        )
    }
}

/// Creates a Vault record with the given term and yearly reward rate.
pub fn initialize_vault(
    authority: AccountId,
    vault_id: u64,
    deposit_mint: AccountId,
    reward_mint: AccountId,
    vault_token_account: AccountId,
    reward_vault: AccountId,
    term_slots: u64,
    apy_bps: u16,
    bump: u8,
) -> (result: Result<Vault, VaultError>)
    ensures
        result == initialize_vault_result(
            authority,
            vault_id,
            deposit_mint,
            reward_mint,
            vault_token_account,
            reward_vault,
            term_slots,
            apy_bps,
            bump,
        ),
{
    if term_slots == 0 {
        return Err(VaultError::InvalidTerm);
    }
    if apy_bps as u64 > BASIS_POINT_SCALE {
        return Err(VaultError::InvalidApy);
    }
    Ok(
        Vault {
            authority,
            vault_id,
            deposit_mint,
            reward_mint,
            vault_token_account,
            reward_vault,
            term_slots,
            apy_bps,
            total_deposited: 0,
            bump,
        },
    )
}

/// Transition of `deposit`: a positive amount in the vault's asset class;
/// the receipt accumulates the principal and restarts the lock-up window at
/// the current tick; the vault's running total grows. All three sums are
/// checked; any failure changes nothing.
pub open spec fn deposit_step(
    vault: Vault,
    receipt: DepositReceipt,
    vault_addr: AccountId,
    user: AccountId,
    user_token_mint: AccountId,
    amount: u64,
    current_slot: u64,
    bump: u8,
) -> (Vault, DepositReceipt, Result<(), VaultError>) {
    if amount == 0 {
        (vault, receipt, Err(VaultError::InvalidAmount))
    } else if user_token_mint != vault.deposit_mint {
        (vault, receipt, Err(VaultError::MintMismatch))
    } else if receipt.amount + amount > u64::MAX {
        (vault, receipt, Err(VaultError::MathOverflow))
    } else if current_slot + vault.term_slots > u64::MAX {
        (vault, receipt, Err(VaultError::MathOverflow))
    } else if vault.total_deposited + amount > u64::MAX {
        (vault, receipt, Err(VaultError::MathOverflow))
    } else {
        let r2 = DepositReceipt {
            vault: vault_addr,
            owner: user,
            amount: (receipt.amount + amount) as u64,
            start_slot: current_slot,
            unlock_slot: (current_slot + vault.term_slots) as u64,
            claimed: false,
            bump,
        };
        let v2 = Vault { total_deposited: (vault.total_deposited + amount) as u64, ..vault };
        (v2, r2, Ok(()))
    }
}

/// Locks `amount` into the vault for `user`, accumulating onto any earlier
/// deposit and restarting the lock-up term. The caller moves the units into
/// the vault's account in the same atomic unit of work on success.
pub fn deposit(
    vault: &mut Vault,
    receipt: &mut DepositReceipt,
    vault_addr: AccountId,
    user: AccountId,
    user_token_mint: AccountId,
    amount: u64,
    current_slot: u64,
    bump: u8,
) -> (result: Result<(), VaultError>)
    ensures
        ({
            let (v2, r2, r) = deposit_step(
                *old(vault),
                *old(receipt),
                vault_addr,
                user,
                user_token_mint,
                amount,
                current_slot,
                bump,
            );
            *final(vault) == v2 && *final(receipt) == r2 && result == r
        }),
{
    if amount == 0 {
        return Err(VaultError::InvalidAmount);
    }
    if user_token_mint != vault.deposit_mint {
        return Err(VaultError::MintMismatch);
    }
    if amount > u64::MAX - receipt.amount {
        return Err(VaultError::MathOverflow);
    }
    if current_slot > u64::MAX - vault.term_slots {
        return Err(VaultError::MathOverflow);
    }
    if amount > u64::MAX - vault.total_deposited {
        return Err(VaultError::MathOverflow);
    }
    receipt.vault = vault_addr;
    receipt.owner = user;
    receipt.amount = receipt.amount + amount;
    receipt.start_slot = current_slot;
    receipt.unlock_slot = current_slot + vault.term_slots;
    receipt.claimed = false;
    receipt.bump = bump;
    vault.total_deposited = vault.total_deposited + amount;
    Ok(())
}

/// The reward's full-width value: principal times the yearly rate in basis
/// points, pro-rated by the term over a year, before any truncation.
pub open spec fn reward_value(amount: u64, apy_bps: u16, term_slots: u64, slots_per_year: u64)
    -> int {
    amount * apy_bps * term_slots / (BASIS_POINT_SCALE as int) / (
    if slots_per_year > 0 {
        slots_per_year as int
    } else {
        1
    })
}

/// Whether the reward's numerator exceeds the 128-bit intermediate width.
pub open spec fn reward_overflows(amount: u64, apy_bps: u16, term_slots: u64) -> bool {
    amount * apy_bps > u128::MAX || amount * apy_bps * term_slots > u128::MAX
}

/// The reward actually granted: zero for a zero rate or term, else the
/// full-width value truncated to 64 bits.
pub open spec fn granted_reward(amount: u64, apy_bps: u16, term_slots: u64, slots_per_year: u64)
    -> u64 {
    if apy_bps == 0 || term_slots == 0 {
        0u64
    } else {
        (reward_value(amount, apy_bps, term_slots, slots_per_year) % 0x1_0000_0000_0000_0000) as u64
    }
}

/// Computes the reward for `amount` locked over `term_slots` at `apy_bps`,
/// with 128-bit intermediates; fails only when even those overflow.
pub fn calculate_reward(amount: u64, apy_bps: u16, term_slots: u64, slots_per_year: u64) -> (
    result: Result<u64, VaultError>)
    ensures
        apy_bps == 0 || term_slots == 0 ==> result == Ok::<u64, VaultError>(0u64),
        apy_bps != 0 && term_slots != 0 && reward_overflows(amount, apy_bps, term_slots)
            ==> result == Err::<u64, VaultError>(VaultError::MathOverflow),
        apy_bps != 0 && term_slots != 0 && !reward_overflows(amount, apy_bps, term_slots)
            ==> result == Ok::<u64, VaultError>(
            granted_reward(amount, apy_bps, term_slots, slots_per_year),
        ),
{
    if apy_bps == 0 || term_slots == 0 {
        return Ok(0);
    }
    let a = amount as u128;
    let ap = apy_bps as u128;
    let t = term_slots as u128;
    let yearly: u128 = if slots_per_year > 0 {
        slots_per_year as u128
    } else {
        1
    };
    let p1 = match a.checked_mul(ap) {
        Some(v) => v,
        None => {
            return Err(VaultError::MathOverflow);
        },
    };
    let p2 = match p1.checked_mul(t) {
        Some(v) => v,
        None => {
            return Err(VaultError::MathOverflow);
        },
    };
    let reward: u128 = p2 / (BASIS_POINT_SCALE as u128) / yearly;
    let truncated: u128 = reward % 0x1_0000_0000_0000_0000u128;
    Ok(truncated as u64)
}

/// Transition of `claim`: one-shot, owner-only, vault-matched and only once
/// the lock-up has ended. On success the receipt is marked claimed and the
/// payout is the principal plus the granted reward; a reward whose 128-bit
/// intermediate overflows fails the claim and changes nothing.
pub open spec fn claim_step(
    vault: Vault,
    receipt: DepositReceipt,
    vault_addr: AccountId,
    user: AccountId,
    current_slot: u64,
) -> (DepositReceipt, Result<(u64, u64), VaultError>) {
    if receipt.claimed {
        (receipt, Err(VaultError::AlreadyClaimed))
    } else if receipt.owner != user {
        (receipt, Err(VaultError::Unauthorized))
    } else if receipt.vault != vault_addr {
        (receipt, Err(VaultError::VaultMismatch))
    } else if current_slot < receipt.unlock_slot {
        (receipt, Err(VaultError::VaultLocked))
    } else if vault.apy_bps != 0 && vault.term_slots != 0 && reward_overflows(
        receipt.amount,
        vault.apy_bps,
        vault.term_slots,
    ) {
        (receipt, Err(VaultError::MathOverflow))
    } else {
        (
            DepositReceipt { claimed: true, ..receipt },
            Ok(
                (
                    receipt.amount,
                    granted_reward(
                        receipt.amount,
                        vault.apy_bps,
                        vault.term_slots,
                        SLOTS_PER_YEAR_ESTIMATE,
                    ),
                ),
            ),
        )
    }
}

/// Clears the one-shot payout of a matured receipt: returns the principal
/// and the granted reward and marks the receipt claimed. The caller moves
/// both amounts in the same atomic unit of work on success.
pub fn claim(
    vault: &Vault,
    receipt: &mut DepositReceipt,
    vault_addr: AccountId,
    user: AccountId,
    current_slot: u64,
) -> (result: Result<(u64, u64), VaultError>)
    ensures
        ({
            let (r2, r) = claim_step(*vault, *old(receipt), vault_addr, user, current_slot);
            *final(receipt) == r2 && result == r
        }),
{
    if receipt.claimed {
        return Err(VaultError::AlreadyClaimed);
    }
    if receipt.owner != user {
        return Err(VaultError::Unauthorized);
    }
    if receipt.vault != vault_addr {
        return Err(VaultError::VaultMismatch);
    }
    if current_slot < receipt.unlock_slot {
        return Err(VaultError::VaultLocked);
    }
    let principal = receipt.amount;
    let reward = match calculate_reward(principal, vault.apy_bps, vault.term_slots,
        SLOTS_PER_YEAR_ESTIMATE) {
        Ok(r) => r,
        Err(e) => {
            return Err(e);
        },
    };
    receipt.claimed = true;
    Ok((principal, reward))
}

} // verus!
