//! Crowdfunding projects: a Project record accumulates pledges in a deposit
//! escrow until a deadline, resolves to `Successful` or `Failed` against its
//! target, and gates the authority's withdrawals on success. A donor's first
//! pledge also earns a badge.
//!
//! Moving the pledged units, minting the badge and writing the badge's
//! metadata are the out-of-scope token and metadata capabilities of the
//! ledger; the caller performs them in the same atomic unit of work around
//! these transitions.

use vstd::prelude::*;
use crate::ids::AccountId;

verus! {

/// Longest accepted project name, in bytes.
pub const MAX_NAME_LEN: usize = 100;

/// Longest accepted badge symbol, in bytes.
pub const MAX_SYMBOL_LEN: usize = 10;

/// Longest accepted badge content reference, in bytes.
pub const MAX_URI_LEN: usize = 200;

/// Lifecycle of a Project: `Active` while pledges are accepted, then exactly
/// one of the two terminal states.
#[derive(Clone, Copy, PartialEq, Eq, Structural, Debug)]
pub enum ProjectStatus {
    Active,
    Successful,
    Failed,
}

impl Default for ProjectStatus {
    /// A project starts out accepting pledges.
    fn default() -> (s: Self)
        ensures
            s is Active,
    {
        ProjectStatus::Active
    }
}

/// Errors of the crowdfunding module.
#[derive(Clone, Copy, PartialEq, Eq, Structural, Debug)]
pub enum FundingError {
    /// A pledged, withdrawn or targeted amount must be positive.
    InvalidAmount,
    /// The deadline must lie in the future.
    InvalidDeadline,
    /// The project is no longer accepting pledges.
    ProjectNotActive,
    /// The pledge arrived after the deadline.
    ProjectEnded,
    /// A checked arithmetic step would overflow.
    MathOverflow,
    /// The caller is not authorized for this action.
    Unauthorized,
    /// The project can be resolved only after its deadline or once funded.
    ProjectStillRunning,
    /// The project was already resolved.
    ProjectAlreadyClosed,
    /// Withdrawals are gated on a successful outcome.
    ProjectNotSuccessful,
    /// The escrow does not hold the requested amount.
    VaultBalanceTooLow,
    /// The supplied asset class is not the project's.
    MintMismatch,
    /// The supplied escrow account is not the project's.
    VaultMismatch,
    /// Reserved: the substrate could not supply a uniqueness nonce.
    BumpNotFound,
    /// The wired metadata program is not the expected one.
    MetadataProgramMismatch,
    /// The project name is over `MAX_NAME_LEN` bytes.
    NameTooLong,
    /// The badge symbol is over `MAX_SYMBOL_LEN` bytes.
    SymbolTooLong,
    /// The badge content reference is over `MAX_URI_LEN` bytes.
    UriTooLong,
}

/// One crowdfunding campaign.
#[derive(Clone, Copy, PartialEq, Eq, Structural, Debug)]
pub struct Project {
    /// Caller-supplied ordinal of the project's derived address.
    pub project_id: u64,
    /// Stored copy of the ordinal as used in the address derivation.
    pub project_id_seed: u64,
    /// Identity that opened the project and may withdraw on success.
    pub authority: AccountId,
    /// Asset class pledges are made in.
    pub mint: AccountId,
    /// Asset class of the donor badge.
    pub badge_mint: AccountId,
    /// Escrow account holding the pledged units.
    pub vault: AccountId,
    /// Pledged total at which the project succeeds; always positive.
    pub target_amount: u64,
    /// Wall-clock deadline of the pledge window.
    pub deadline_ts: i64,
    /// Total pledged so far.
    pub total_pledged: u64,
    /// Lifecycle state; transitions one way, exactly once.
    pub status: ProjectStatus,
    /// Uniqueness nonce of the record's derived address.
    pub bump: u8,
}

/// Transition of `initialize_project`: bounds the metadata strings, requires
/// a positive target and a future deadline, and requires the wired metadata
/// program to be the expected one. On success the Project starts `Active`
/// with nothing pledged.
pub open spec fn initialize_project_result(
    project_id: u64,
    authority: AccountId,
    mint: AccountId,
    badge_mint: AccountId,
    vault: AccountId,
    target_amount: u64,
    deadline_ts: i64,
    now_ts: i64,
    project_name: Seq<u8>,
    badge_symbol: Seq<u8>,
    badge_uri: Seq<u8>,
    metadata_program: AccountId,
    metadata_program_id: AccountId,
    bump: u8,
) -> Result<Project, FundingError> {
    if project_name.len() > MAX_NAME_LEN {
        Err(FundingError::NameTooLong)
    } else if badge_symbol.len() > MAX_SYMBOL_LEN {
        Err(FundingError::SymbolTooLong)
    } else if badge_uri.len() > MAX_URI_LEN {
        Err(FundingError::UriTooLong)
    } else if target_amount == 0 {
        Err(FundingError::InvalidAmount)
    } else if deadline_ts <= now_ts {
        Err(FundingError::InvalidDeadline)
    } else if metadata_program != metadata_program_id {
        Err(FundingError::MetadataProgramMismatch)
    } else {
        Ok(
            Project {
                project_id,
                project_id_seed: project_id,
                authority,
                mint,
                badge_mint,
                vault,
                target_amount,
                deadline_ts,
                total_pledged: 0,
                status: ProjectStatus::Active,
                bump,
            },
        )
    }
}

/// Opens a crowdfunding project. The badge's name, symbol and content
/// reference are validated here and then written by the caller through the
/// ledger's metadata capability on success.
pub fn initialize_project(
    project_id: u64,
    authority: AccountId,
    mint: AccountId,
    badge_mint: AccountId,
    vault: AccountId,
    target_amount: u64,
    deadline_ts: i64,
    now_ts: i64,
    project_name: &Vec<u8>,
    badge_symbol: &Vec<u8>,
    badge_uri: &Vec<u8>,
    metadata_program: AccountId,
    metadata_program_id: AccountId,
    bump: u8,
) -> (result: Result<Project, FundingError>)
    ensures
        result == initialize_project_result(
            project_id,
            authority,
            mint,
            badge_mint,
            vault,
            target_amount,
            deadline_ts,
            now_ts,
            project_name@,
            badge_symbol@,
            badge_uri@,
            metadata_program,
            metadata_program_id,
            bump,
        ),
{
    if project_name.len() > MAX_NAME_LEN {
        return Err(FundingError::NameTooLong);
    }
    if badge_symbol.len() > MAX_SYMBOL_LEN {
        return Err(FundingError::SymbolTooLong);
    }
    if badge_uri.len() > MAX_URI_LEN {
        return Err(FundingError::UriTooLong);
    }
    if target_amount == 0 {
        return Err(FundingError::InvalidAmount);
    }
    if deadline_ts <= now_ts {
        return Err(FundingError::InvalidDeadline);
    }
    if metadata_program != metadata_program_id {
        return Err(FundingError::MetadataProgramMismatch);
    }
    Ok(
        Project {
            project_id,
            project_id_seed: project_id,
            authority,
            mint,
            badge_mint,
            vault,
            target_amount,
            deadline_ts,
            total_pledged: 0,
            status: ProjectStatus::Active,
            bump,
        },
    )
}

/// Transition of `pledge`: a positive amount in the project's asset class,
/// while the project is `Active` and strictly before the deadline; the total
/// grows with checked arithmetic. The result says whether this donor earns a
/// badge: exactly when the donor held none before the pledge.
pub open spec fn pledge_step(
    project: Project,
    amount: u64,
    now_ts: i64,
    donor_token_mint: AccountId,
    donor_badge_balance: u64,
) -> (Project, Result<bool, FundingError>) {
    if amount == 0 {
        (project, Err(FundingError::InvalidAmount))
    } else if !(project.status is Active) {
        (project, Err(FundingError::ProjectNotActive))
    } else if now_ts >= project.deadline_ts {
        (project, Err(FundingError::ProjectEnded))
    } else if donor_token_mint != project.mint {
        (project, Err(FundingError::MintMismatch))
    } else if project.total_pledged + amount > u64::MAX {
        (project, Err(FundingError::MathOverflow))
    } else {
        (
            Project { total_pledged: (project.total_pledged + amount) as u64, ..project },
            Ok(donor_badge_balance == 0),
        )
    }
}

/// Records a pledge of `amount` by a donor whose pledge account holds asset
/// class `donor_token_mint` and whose badge account holds
/// `donor_badge_balance` units before the pledge. Returns whether the caller
/// should mint the donor's first badge; the caller moves the pledged units
/// in the same atomic unit of work.
pub fn pledge(
    project: &mut Project,
    amount: u64,
    now_ts: i64,
    donor_token_mint: AccountId,
    donor_badge_balance: u64,
) -> (result: Result<bool, FundingError>)
    ensures
        ({
            let (p2, r) = pledge_step(*old(project), amount, now_ts, donor_token_mint,
                donor_badge_balance);
            *final(project) == p2 && result == r
        }),
{
    if amount == 0 {
        return Err(FundingError::InvalidAmount);
    }
    match project.status {
        ProjectStatus::Active => {},
        _ => {
            return Err(FundingError::ProjectNotActive);
        },
    }
    if now_ts >= project.deadline_ts {
        return Err(FundingError::ProjectEnded);
    }
    if donor_token_mint != project.mint {
        return Err(FundingError::MintMismatch);
    }
    if amount > u64::MAX - project.total_pledged {
        return Err(FundingError::MathOverflow);
    }
    project.total_pledged = project.total_pledged + amount;
    Ok(donor_badge_balance == 0)
}

/// Transition of `finalize_project`: only the project's authority may
/// resolve it, only once, and only after the deadline or once the target is
/// reached — whichever comes first. The terminal status is `Successful`
/// exactly when the pledged total reached the target.
pub open spec fn finalize_project_step(project: Project, authority: AccountId, now_ts: i64) -> (
    Project,
    Result<(), FundingError>,
) {
    if project.authority != authority {
        (project, Err(FundingError::Unauthorized))
    } else if !(project.status is Active) {
        (project, Err(FundingError::ProjectAlreadyClosed))
    } else if now_ts < project.deadline_ts && project.total_pledged < project.target_amount {
        (project, Err(FundingError::ProjectStillRunning))
    } else if project.total_pledged >= project.target_amount {
        (Project { status: ProjectStatus::Successful, ..project }, Ok(()))
    } else {
        (Project { status: ProjectStatus::Failed, ..project }, Ok(()))
    }
}

/// Resolves the project once its deadline has passed or its target is met.
pub fn finalize_project(project: &mut Project, authority: AccountId, now_ts: i64) -> (result:
    Result<(), FundingError>)
    ensures
        ({
            let (p2, r) = finalize_project_step(*old(project), authority, now_ts);
            *final(project) == p2 && result == r
        }),
{
    if project.authority != authority {
        return Err(FundingError::Unauthorized);
    }
    match project.status {
        ProjectStatus::Active => {},
        _ => {
            return Err(FundingError::ProjectAlreadyClosed);
        },
    }
    if now_ts < project.deadline_ts && project.total_pledged < project.target_amount {
        return Err(FundingError::ProjectStillRunning);
    }
    if project.total_pledged >= project.target_amount {
        project.status = ProjectStatus::Successful;
    } else {
        project.status = ProjectStatus::Failed;
    }
    Ok(())
}

/// Clearance of `withdraw`: only the project's authority, only a positive
/// amount, only from a successful project, and only up to what the escrow
/// holds. The project record itself is unchanged by a withdrawal.
pub open spec fn withdraw_result(
    project: Project,
    authority: AccountId,
    amount: u64,
    vault_balance: u64,
) -> Result<(), FundingError> {
    if project.authority != authority {
        Err(FundingError::Unauthorized)
    } else if amount == 0 {
        Err(FundingError::InvalidAmount)
    } else if !(project.status is Successful) {
        Err(FundingError::ProjectNotSuccessful)
    } else if vault_balance < amount {
        Err(FundingError::VaultBalanceTooLow)
    } else {
        Ok(())
    }
}

/// Clears a withdrawal of `amount` from the project's escrow, which holds
/// `vault_balance` units. On success the caller moves the units in the same
/// atomic unit of work.
pub fn withdraw(project: &Project, authority: AccountId, amount: u64, vault_balance: u64) -> (
    result: Result<(), FundingError>)
    ensures
        result == withdraw_result(*project, authority, amount, vault_balance),
{
    if project.authority != authority {
        return Err(FundingError::Unauthorized);
    }
    if amount == 0 {
        return Err(FundingError::InvalidAmount);
    }
    match project.status {
        ProjectStatus::Successful => {},
        _ => {
            return Err(FundingError::ProjectNotSuccessful);
        },
    }
    if vault_balance < amount {
        return Err(FundingError::VaultBalanceTooLow);
    }
    Ok(())
}

} // verus!
