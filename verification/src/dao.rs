//! Membership-pass issuance: a Dao record tracks its pass asset class, a
//! sponsored-relay budget, and a member count; a Member record is created on
//! an identity's first pass and counts every pass minted to it.
//!
//! The actual minting of a pass token is the out-of-scope "mint one unit to
//! an account" capability of the ledger's token program; the caller performs
//! it in the same atomic unit of work after these transitions succeed.

use vstd::prelude::*;
use crate::ids::AccountId;

verus! {

/// Length of one sponsored-relay accounting window, in logical-clock ticks.
pub const RELAY_EPOCH_SLOTS: u64 = 432_000;

/// Errors of the membership module.
#[derive(Clone, Copy, PartialEq, Eq, Structural, Debug)]
pub enum DaoError {
    /// The caller is not the Dao's authority.
    Unauthorized,
    /// A relay-spend cap must be positive.
    InvalidLimit,
    /// A relay spend must be positive.
    InvalidSpend,
    /// The spend would push the window's total past the configured cap.
    RelayBudgetExceeded,
    /// The supplied pass asset class is not the Dao's.
    MintMismatch,
    /// A checked arithmetic step would overflow.
    MathOverflow,
    /// Reserved: the substrate could not supply a uniqueness nonce.
    BumpNotFound,
}

/// A membership organisation: its authority, its pass asset class, and a
/// capped budget of sponsored relay spending per accounting window.
#[derive(Clone, Copy, PartialEq, Eq, Structural, Debug)]
pub struct Dao {
    /// Identity authorized to issue passes and configure sponsorship.
    pub authority: AccountId,
    /// Asset class of the membership pass.
    pub pass_mint: AccountId,
    /// Asset class accepted from sponsors.
    pub sponsor_mint: AccountId,
    /// Account holding sponsor funds.
    pub sponsor_vault: AccountId,
    /// Cap on relay spending within one accounting window; always positive.
    pub max_relay_spend: u64,
    /// Relay spending accumulated in the current window.
    pub relay_spent: u64,
    /// Tick at which the current accounting window began.
    pub relay_epoch: u64,
    /// Number of distinct members that ever joined.
    pub total_members: u32,
    /// Uniqueness nonce of the record's derived address.
    pub bump: u8,
    /// Caller-supplied name discriminator of the Dao's derived address.
    pub name_seed: u64,
}

/// One identity's membership in a Dao, created on its first pass.
#[derive(Clone, Copy, PartialEq, Eq, Structural, Debug)]
pub struct Member {
    /// Address of the Dao joined.
    pub dao: AccountId,
    /// The member's wallet identity.
    pub owner: AccountId,
    /// Asset class of the pass held; all-zero until the first pass, which is
    /// how a freshly allocated record is told from a returning member.
    pub membership_mint: AccountId,
    /// The member's pass token account.
    pub member_pass_account: AccountId,
    /// Wall-clock timestamp of joining.
    pub joined_ts: i64,
    /// How many passes were ever minted to this member.
    pub mint_count: u64,
}

impl Member {
    /// A freshly allocated, all-zero Member record, as the substrate hands
    /// one to the first `issue_pass` for a wallet.
    pub fn blank() -> (m: Member)
        ensures
            m == Member::blank_record(),
    {
        Member {
            dao: AccountId::zero(),
            owner: AccountId::zero(),
            membership_mint: AccountId::zero(),
            member_pass_account: AccountId::zero(),
            joined_ts: 0,
            mint_count: 0,
        }
    }

    /// The all-zero Member record, as a specification value.
    pub open spec fn blank_record() -> Member {
        Member {
            dao: AccountId::zero_id(),
            owner: AccountId::zero_id(),
            membership_mint: AccountId::zero_id(),
            member_pass_account: AccountId::zero_id(),
            joined_ts: 0,
            mint_count: 0,
        }
    }

    /// A member record that has not received a pass yet: its pass asset
    /// class is still the all-zero identity.
    pub open spec fn is_new(self) -> bool {
        self.membership_mint == AccountId::zero_id()
    }
}

/// Transition of `initialize_dao`: a positive relay cap is required; the Dao
/// starts with no members, no relay spending, and its accounting window
/// anchored at the current tick.
pub open spec fn initialize_dao_result(
    authority: AccountId,
    pass_mint: AccountId,
    sponsor_vault: AccountId,
    name_seed: u64,
    sponsor_mint: AccountId,
    max_relay_spend: u64,
    current_slot: u64,
    bump: u8,
) -> Result<Dao, DaoError> {
    if max_relay_spend == 0 {
        Err(DaoError::InvalidLimit)
    } else {
        Ok(
            Dao {
                authority,
                pass_mint,
                sponsor_mint,
                sponsor_vault,
                max_relay_spend,
                relay_spent: 0,
                relay_epoch: current_slot,
                total_members: 0,
                bump,
                name_seed,
            },
        )
    }
}

/// Creates a Dao record for `authority` with the given pass asset class and
/// relay-spend cap.
pub fn initialize_dao(
    authority: AccountId,
    pass_mint: AccountId,
    sponsor_vault: AccountId,
    name_seed: u64,
    sponsor_mint: AccountId,
    max_relay_spend: u64,
    current_slot: u64,
    bump: u8,
) -> (result: Result<Dao, DaoError>)
    ensures
        result == initialize_dao_result(
            authority,
            pass_mint,
            sponsor_vault,
            name_seed,
            sponsor_mint,
            max_relay_spend,
            current_slot,
            bump,
        ),
{
    if max_relay_spend == 0 {
        return Err(DaoError::InvalidLimit);
    }
    Ok(
        Dao {
            authority,
            pass_mint,
            sponsor_mint,
            sponsor_vault,
            max_relay_spend,
            relay_spent: 0,
            relay_epoch: current_slot,
            total_members: 0,
            bump,
            name_seed,
        },
    )
}

/// Transition of `issue_pass`: the Dao's authority vouches for the call and
/// the supplied pass asset class must be the Dao's. A first-time member is
/// filled in and counted; every issuance counts on the member's own record.
/// Both counters grow with checked arithmetic; any failure changes nothing.
pub open spec fn issue_pass_step(
    dao: Dao,
    member: Member,
    authority: AccountId,
    dao_addr: AccountId,
    pass_mint: AccountId,
    member_wallet: AccountId,
    member_pass_account: AccountId,
    now_ts: i64,
) -> (Dao, Member, Result<(), DaoError>) {
    if dao.authority != authority {
        (dao, member, Err(DaoError::Unauthorized))
    } else if dao.pass_mint != pass_mint {
        (dao, member, Err(DaoError::MintMismatch))
    } else if member.is_new() && dao.total_members == u32::MAX {
        (dao, member, Err(DaoError::MathOverflow))
    } else if member.mint_count == u64::MAX {
        (dao, member, Err(DaoError::MathOverflow))
    } else if member.is_new() {
        let m2 = Member {
            dao: dao_addr,
            owner: member_wallet,
            membership_mint: pass_mint,
            member_pass_account,
            joined_ts: now_ts,
            mint_count: (member.mint_count + 1) as u64,
        };
        let d2 = Dao { total_members: (dao.total_members + 1) as u32, ..dao };
        (d2, m2, Ok(()))
    } else {
        (dao, Member { mint_count: (member.mint_count + 1) as u64, ..member }, Ok(()))
    }
}

/// Issues one membership pass to `member_wallet`: fills in the Member record
/// on first join, counts the member once, and counts every pass minted. The
/// caller mints the actual pass unit in the same atomic unit of work on
/// success.
pub fn issue_pass(
    dao: &mut Dao,
    member: &mut Member,
    authority: AccountId,
    dao_addr: AccountId,
    pass_mint: AccountId,
    member_wallet: AccountId,
    member_pass_account: AccountId,
    now_ts: i64,
) -> (result: Result<(), DaoError>)
    ensures
        ({
            let (d2, m2, r) = issue_pass_step(
                *old(dao),
                *old(member),
                authority,
                dao_addr,
                pass_mint,
                member_wallet,
                member_pass_account,
                now_ts,
            );
            *final(dao) == d2 && *final(member) == m2 && result == r
        }),
{
    if dao.authority != authority {
        return Err(DaoError::Unauthorized);
    }
    if dao.pass_mint != pass_mint {
        return Err(DaoError::MintMismatch);
    }
    let is_new = member.membership_mint == AccountId::zero();
    if is_new && dao.total_members == u32::MAX {
        return Err(DaoError::MathOverflow);
    }
    if member.mint_count == u64::MAX {
        return Err(DaoError::MathOverflow);
    }
    if is_new {
        member.dao = dao_addr;
        member.owner = member_wallet;
        member.membership_mint = pass_mint;
        member.member_pass_account = member_pass_account;
        member.joined_ts = now_ts;
        dao.total_members = dao.total_members + 1;
    }
    member.mint_count = member.mint_count + 1;
    Ok(())
}

/// Transition of `configure_sponsor`: only the Dao's authority may replace
/// the relay cap and the sponsor vault, and the new cap must be positive.
pub open spec fn configure_sponsor_step(
    dao: Dao,
    authority: AccountId,
    new_cap: u64,
    sponsor_vault: AccountId,
) -> (Dao, Result<(), DaoError>) {
    if dao.authority != authority {
        (dao, Err(DaoError::Unauthorized))
    } else if new_cap == 0 {
        (dao, Err(DaoError::InvalidLimit))
    } else {
        (Dao { max_relay_spend: new_cap, sponsor_vault, ..dao }, Ok(()))
    }
}

/// Replaces the Dao's relay-spend cap and sponsor vault.
pub fn configure_sponsor(
    dao: &mut Dao,
    authority: AccountId,
    new_cap: u64,
    sponsor_vault: AccountId,
) -> (result: Result<(), DaoError>)
    ensures
        ({
            let (d2, r) = configure_sponsor_step(*old(dao), authority, new_cap, sponsor_vault);
            *final(dao) == d2 && result == r
        }),
{
    if dao.authority != authority {
        return Err(DaoError::Unauthorized);
    }
    if new_cap == 0 {
        return Err(DaoError::InvalidLimit);
    }
    dao.max_relay_spend = new_cap;
    dao.sponsor_vault = sponsor_vault;
    Ok(())
}

/// Whether a relay accounting window that began at `relay_epoch` has lapsed
/// by `current_slot` (saturating below zero, as a clock that moved backwards
/// never lapses the window).
pub open spec fn epoch_lapsed(relay_epoch: u64, current_slot: u64) -> bool {
    (if current_slot >= relay_epoch {
        current_slot - relay_epoch
    } else {
        0
    }) > RELAY_EPOCH_SLOTS
}

/// Transition of `record_relay_spend`: only the Dao's authority may record,
/// the spend must be positive, a lapsed window first resets the accumulator
/// and re-anchors the window, and the accumulated spend must stay within the
/// cap. Any failure — overflow or budget — changes nothing.
pub open spec fn record_relay_spend_step(
    dao: Dao,
    authority: AccountId,
    spend: u64,
    current_slot: u64,
) -> (Dao, Result<(), DaoError>) {
    if dao.authority != authority {
        (dao, Err(DaoError::Unauthorized))
    } else if spend == 0 {
        (dao, Err(DaoError::InvalidSpend))
    } else {
        let lapsed = epoch_lapsed(dao.relay_epoch, current_slot);
        let epoch = if lapsed {
            current_slot
        } else {
            dao.relay_epoch
        };
        let base: u64 = if lapsed {
            0
        } else {
            dao.relay_spent
        };
        if base + spend > u64::MAX {
            (dao, Err(DaoError::MathOverflow))
        } else if base + spend > dao.max_relay_spend {
            (dao, Err(DaoError::RelayBudgetExceeded))
        } else {
            (Dao { relay_epoch: epoch, relay_spent: (base + spend) as u64, ..dao }, Ok(()))
        }
    }
}

/// Records `spend` against the Dao's sponsored-relay budget for the current
/// accounting window.
pub fn record_relay_spend(dao: &mut Dao, authority: AccountId, spend: u64, current_slot: u64) -> (
    result: Result<(), DaoError>)
    ensures
        ({
            let (d2, r) = record_relay_spend_step(*old(dao), authority, spend, current_slot);
            *final(dao) == d2 && result == r
        }),
{
    if dao.authority != authority {
        return Err(DaoError::Unauthorized);
    }
    if spend == 0 {
        return Err(DaoError::InvalidSpend);
    }
    let elapsed: u64 = if current_slot >= dao.relay_epoch {
        current_slot - dao.relay_epoch
    } else {
        0
    };
    let lapsed = elapsed > RELAY_EPOCH_SLOTS;
    let epoch: u64 = if lapsed {
        current_slot
    } else {
        dao.relay_epoch
    };
    let base: u64 = if lapsed {
        0
    } else {
        dao.relay_spent
    };
    if spend > u64::MAX - base {
        return Err(DaoError::MathOverflow);
    }
    let spent = base + spend;
    if spent > dao.max_relay_spend {
        return Err(DaoError::RelayBudgetExceeded);
    }
    dao.relay_epoch = epoch;
    dao.relay_spent = spent;
    Ok(())
}

} // verus!
