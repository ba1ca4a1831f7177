use governance::funding::{finalize_project, initialize_project, pledge, withdraw, FundingError,
    Project, ProjectStatus};
use governance::ids::AccountId;

fn id(n: u64) -> AccountId {
    AccountId::new(n, 0, 0, 0)
}

fn metadata_program() -> AccountId {
    id(77)
}

fn sample_project() -> Project {
    initialize_project(
        5,
        id(1),
        id(2),
        id(3),
        id(4),
        10_000,
        1_000,
        100,
        &b"a fine project".to_vec(),
        &b"BADGE".to_vec(),
        &b"ipfs://badge".to_vec(),
        metadata_program(),
        metadata_program(),
        255,
    )
    .unwrap()
}

#[test]
fn initialize_project_rejects_long_name() {
    let name = vec![b'a'; 101];
    let r = initialize_project(5, id(1), id(2), id(3), id(4), 10_000, 1_000, 100, &name,
        &b"B".to_vec(), &b"u".to_vec(), metadata_program(), metadata_program(), 255);
    assert_eq!(r, Err(FundingError::NameTooLong));
}

#[test]
fn initialize_project_rejects_long_symbol() {
    let symbol = vec![b's'; 11];
    let r = initialize_project(5, id(1), id(2), id(3), id(4), 10_000, 1_000, 100,
        &b"n".to_vec(), &symbol, &b"u".to_vec(), metadata_program(), metadata_program(), 255);
    assert_eq!(r, Err(FundingError::SymbolTooLong));
}

#[test]
fn initialize_project_rejects_long_uri() {
    let uri = vec![b'u'; 201];
    let r = initialize_project(5, id(1), id(2), id(3), id(4), 10_000, 1_000, 100,
        &b"n".to_vec(), &b"s".to_vec(), &uri, metadata_program(), metadata_program(), 255);
    assert_eq!(r, Err(FundingError::UriTooLong));
}

#[test]
fn initialize_project_accepts_boundary_lengths() {
    let name = vec![b'a'; 100];
    let symbol = vec![b's'; 10];
    let uri = vec![b'u'; 200];
    let r = initialize_project(5, id(1), id(2), id(3), id(4), 10_000, 1_000, 100, &name,
        &symbol, &uri, metadata_program(), metadata_program(), 255);
    assert!(r.is_ok());
}

#[test]
fn initialize_project_rejects_zero_target() {
    let r = initialize_project(5, id(1), id(2), id(3), id(4), 0, 1_000, 100, &b"n".to_vec(),
        &b"s".to_vec(), &b"u".to_vec(), metadata_program(), metadata_program(), 255);
    assert_eq!(r, Err(FundingError::InvalidAmount));
}

#[test]
fn initialize_project_rejects_past_deadline() {
    let r = initialize_project(5, id(1), id(2), id(3), id(4), 10_000, 100, 100, &b"n".to_vec(),
        &b"s".to_vec(), &b"u".to_vec(), metadata_program(), metadata_program(), 255);
    assert_eq!(r, Err(FundingError::InvalidDeadline));
}

#[test]
fn initialize_project_rejects_wrong_metadata_program() {
    let r = initialize_project(5, id(1), id(2), id(3), id(4), 10_000, 1_000, 100,
        &b"n".to_vec(), &b"s".to_vec(), &b"u".to_vec(), id(78), metadata_program(), 255);
    assert_eq!(r, Err(FundingError::MetadataProgramMismatch));
}

#[test]
fn initialize_project_stores_configuration() {
    let p = sample_project();
    assert_eq!(p.project_id, 5);
    assert_eq!(p.project_id_seed, 5);
    assert_eq!(p.authority, id(1));
    assert_eq!(p.mint, id(2));
    assert_eq!(p.badge_mint, id(3));
    assert_eq!(p.vault, id(4));
    assert_eq!(p.target_amount, 10_000);
    assert_eq!(p.deadline_ts, 1_000);
    assert_eq!(p.total_pledged, 0);
    assert!(matches!(p.status, ProjectStatus::Active));
}

#[test]
fn project_status_defaults_to_active() {
    assert!(matches!(ProjectStatus::default(), ProjectStatus::Active));
}

#[test]
fn pledge_accumulates_and_grants_first_badge() {
    let mut p = sample_project();
    let first = pledge(&mut p, 600, 200, id(2), 0);
    assert_eq!(first, Ok(true));
    assert_eq!(p.total_pledged, 600);
    let second = pledge(&mut p, 400, 300, id(2), 1);
    assert_eq!(second, Ok(false));
    assert_eq!(p.total_pledged, 1_000);
}

#[test]
fn pledge_rejects_zero_amount() {
    let mut p = sample_project();
    assert_eq!(pledge(&mut p, 0, 200, id(2), 0), Err(FundingError::InvalidAmount));
    assert_eq!(p.total_pledged, 0);
}

#[test]
fn pledge_rejects_after_deadline() {
    let mut p = sample_project();
    assert_eq!(pledge(&mut p, 100, 1_000, id(2), 0), Err(FundingError::ProjectEnded));
    assert_eq!(p.total_pledged, 0);
}

#[test]
fn pledge_rejects_wrong_mint() {
    let mut p = sample_project();
    assert_eq!(pledge(&mut p, 100, 200, id(9), 0), Err(FundingError::MintMismatch));
    assert_eq!(p.total_pledged, 0);
}

#[test]
fn pledge_rejects_closed_project() {
    let mut p = sample_project();
    assert_eq!(pledge(&mut p, 10_000, 200, id(2), 0), Ok(true));
    assert_eq!(finalize_project(&mut p, id(1), 500), Ok(()));
    assert_eq!(pledge(&mut p, 1, 600, id(2), 1), Err(FundingError::ProjectNotActive));
    assert_eq!(p.total_pledged, 10_000);
}

#[test]
fn pledge_rejects_total_overflow() {
    let mut p = sample_project();
    assert_eq!(pledge(&mut p, u64::MAX, 200, id(2), 0), Ok(true));
    assert_eq!(pledge(&mut p, 1, 300, id(2), 1), Err(FundingError::MathOverflow));
    assert_eq!(p.total_pledged, u64::MAX);
}

#[test]
fn finalize_project_rejects_while_running() {
    let mut p = sample_project();
    assert_eq!(pledge(&mut p, 100, 200, id(2), 0), Ok(true));
    assert_eq!(finalize_project(&mut p, id(1), 999), Err(FundingError::ProjectStillRunning));
    assert!(matches!(p.status, ProjectStatus::Active));
}

#[test]
fn finalize_project_succeeds_once_target_met_before_deadline() {
    let mut p = sample_project();
    assert_eq!(pledge(&mut p, 10_000, 200, id(2), 0), Ok(true));
    assert_eq!(finalize_project(&mut p, id(1), 300), Ok(()));
    assert!(matches!(p.status, ProjectStatus::Successful));
}

#[test]
fn finalize_project_fails_under_target_after_deadline() {
    let mut p = sample_project();
    assert_eq!(pledge(&mut p, 9_999, 200, id(2), 0), Ok(true));
    assert_eq!(finalize_project(&mut p, id(1), 1_000), Ok(()));
    assert!(matches!(p.status, ProjectStatus::Failed));
}

#[test]
fn finalize_project_is_single_shot() {
    let mut p = sample_project();
    assert_eq!(finalize_project(&mut p, id(1), 1_000), Ok(()));
    assert!(matches!(p.status, ProjectStatus::Failed));
    assert_eq!(finalize_project(&mut p, id(1), 1_001), Err(FundingError::ProjectAlreadyClosed));
    assert!(matches!(p.status, ProjectStatus::Failed));
}

#[test]
fn finalize_project_rejects_non_authority() {
    let mut p = sample_project();
    assert_eq!(finalize_project(&mut p, id(9), 1_000), Err(FundingError::Unauthorized));
    assert!(matches!(p.status, ProjectStatus::Active));
}

#[test]
fn withdraw_clears_only_successful_projects() {
    let mut p = sample_project();
    assert_eq!(withdraw(&p, id(1), 100, 500), Err(FundingError::ProjectNotSuccessful));
    assert_eq!(pledge(&mut p, 10_000, 200, id(2), 0), Ok(true));
    assert_eq!(finalize_project(&mut p, id(1), 300), Ok(()));
    assert_eq!(withdraw(&p, id(1), 100, 10_000), Ok(()));
}

#[test]
fn withdraw_rejects_non_authority() {
    let mut p = sample_project();
    assert_eq!(pledge(&mut p, 10_000, 200, id(2), 0), Ok(true));
    assert_eq!(finalize_project(&mut p, id(1), 300), Ok(()));
    assert_eq!(withdraw(&p, id(9), 100, 10_000), Err(FundingError::Unauthorized));
}

#[test]
fn withdraw_rejects_zero_amount() {
    let mut p = sample_project();
    assert_eq!(pledge(&mut p, 10_000, 200, id(2), 0), Ok(true));
    assert_eq!(finalize_project(&mut p, id(1), 300), Ok(()));
    assert_eq!(withdraw(&p, id(1), 0, 10_000), Err(FundingError::InvalidAmount));
}

#[test]
fn withdraw_rejects_more_than_vault_holds() {
    let mut p = sample_project();
    assert_eq!(pledge(&mut p, 10_000, 200, id(2), 0), Ok(true));
    assert_eq!(finalize_project(&mut p, id(1), 300), Ok(()));
    assert_eq!(withdraw(&p, id(1), 10_001, 10_000), Err(FundingError::VaultBalanceTooLow));
}
