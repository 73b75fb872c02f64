use reclaimx::assets::{Asset, AssetType, TransferCmd};
use reclaimx::errors::ErrorCode;
use reclaimx::ids::AccountId;
use reclaimx::model::RecoveryState;
use reclaimx::vault::{
    approve_recovery, check_inactivity, initialize_vault, initiate_recovery, mark_malicious,
    stake_guardian_oft, update_last_active, Vault,
};

fn id(n: u64) -> AccountId {
    AccountId { w0: n, w1: 0, w2: 0, w3: 0 }
}

const OWNER: u64 = 1;
const GA: u64 = 2;
const GB: u64 = 3;
const GC: u64 = 4;
const GD: u64 = 5;
const BACKUP: u64 = 9;
const VAULT_ID: u64 = 100;
const STRANGER: u64 = 77;
const NEW_OWNER: u64 = 42;

fn fresh_vault() -> Vault {
    initialize_vault(
        id(VAULT_ID),
        id(OWNER),
        vec![id(GA), id(GB), id(GC)],
        2,
        3600,
        10_000,
        id(BACKUP),
        50,
        vec![],
        0,
    )
    .unwrap()
}

fn approvals_of(v: &Vault) -> Vec<AccountId> {
    match &v.recovery_state {
        RecoveryState::Pending { approvals, .. } => approvals.clone(),
        _ => panic!("expected a pending recovery"),
    }
}

fn malicious_of(v: &Vault) -> Vec<AccountId> {
    match &v.recovery_state {
        RecoveryState::Pending {
            malicious_approvals, ..
        } => malicious_approvals.clone(),
        _ => panic!("expected a pending recovery"),
    }
}

#[test]
fn init_rejects_zero_threshold() {
    let r = initialize_vault(
        id(VAULT_ID),
        id(OWNER),
        vec![id(GA)],
        0,
        10,
        10,
        id(BACKUP),
        0,
        vec![],
        0,
    );
    assert_eq!(r.err(), Some(ErrorCode::InvalidThreshold));
}

#[test]
fn init_rejects_threshold_above_guardians() {
    let r = initialize_vault(
        id(VAULT_ID),
        id(OWNER),
        vec![id(GA), id(GB)],
        3,
        10,
        10,
        id(BACKUP),
        0,
        vec![],
        0,
    );
    assert_eq!(r.err(), Some(ErrorCode::InvalidThreshold));
}

#[test]
fn init_rejects_too_many_guardians() {
    let guardians: Vec<AccountId> = (0..11).map(|n| id(200 + n)).collect();
    let r = initialize_vault(
        id(VAULT_ID),
        id(OWNER),
        guardians,
        2,
        10,
        10,
        id(BACKUP),
        0,
        vec![],
        0,
    );
    assert_eq!(r.err(), Some(ErrorCode::InvalidThreshold));
}

#[test]
fn init_rejects_too_many_assets() {
    let assets: Vec<Asset> = (0..11)
        .map(|n| Asset {
            asset_type: AssetType::Token,
            amount: 1,
            token_account: id(300 + n),
            mint: id(400 + n),
        })
        .collect();
    let r = initialize_vault(
        id(VAULT_ID),
        id(OWNER),
        vec![id(GA), id(GB)],
        2,
        10,
        10,
        id(BACKUP),
        0,
        assets,
        0,
    );
    assert_eq!(r.err(), Some(ErrorCode::InvalidThreshold));
}

#[test]
fn init_accepts_maximal_configuration() {
    let guardians: Vec<AccountId> = (0..10).map(|n| id(200 + n)).collect();
    let assets: Vec<Asset> = (0..10)
        .map(|n| Asset {
            asset_type: AssetType::NFT,
            amount: 1,
            token_account: id(300 + n),
            mint: id(400 + n),
        })
        .collect();
    let r = initialize_vault(
        id(VAULT_ID),
        id(OWNER),
        guardians,
        10,
        10,
        10,
        id(BACKUP),
        0,
        assets,
        0,
    );
    assert!(r.is_ok());
}

#[test]
fn init_sets_fresh_state() {
    let v = fresh_vault();
    assert_eq!(v.owner, id(OWNER));
    assert_eq!(v.recovery_id, 0);
    assert_eq!(v.last_active_timestamp, 0);
    assert!(matches!(v.recovery_state, RecoveryState::Idle));
    assert!(v.peers.is_empty());
}

#[test]
fn initiate_by_stranger_fails_unauthorized() {
    let mut v = fresh_vault();
    let r = initiate_recovery(&mut v, id(STRANGER), id(NEW_OWNER), 5);
    assert_eq!(r.err(), Some(ErrorCode::Unauthorized));
    assert!(matches!(v.recovery_state, RecoveryState::Idle));
    assert_eq!(v.recovery_id, 0);
}

#[test]
fn initiate_by_owner_opens_round_and_builds_message() {
    let mut v = fresh_vault();
    let m = initiate_recovery(&mut v, id(OWNER), id(NEW_OWNER), 7).unwrap();
    assert_eq!(m.vault_id, id(VAULT_ID));
    assert_eq!(m.new_owner, id(NEW_OWNER));
    assert_eq!(m.recovery_id, 1);
    assert_eq!(v.recovery_id, 1);
    match &v.recovery_state {
        RecoveryState::Pending {
            new_owner,
            approvals,
            malicious_approvals,
            start_timestamp,
            recovery_id,
        } => {
            assert_eq!(*new_owner, id(NEW_OWNER));
            assert!(approvals.is_empty());
            assert!(malicious_approvals.is_empty());
            assert_eq!(*start_timestamp, 7);
            assert_eq!(*recovery_id, 1);
        }
        _ => panic!("expected a pending recovery"),
    }
}

#[test]
fn initiate_by_guardian_is_allowed() {
    let mut v = fresh_vault();
    let r = initiate_recovery(&mut v, id(GB), id(NEW_OWNER), 7);
    assert!(r.is_ok());
    assert_eq!(v.recovery_id, 1);
}

#[test]
fn quorum_and_timelock_scenario() {
    // threshold = 2, timelock = 3600 s, guardians {A, B, C}.
    let mut v = fresh_vault();
    initiate_recovery(&mut v, id(OWNER), id(NEW_OWNER), 0).unwrap();

    let r = approve_recovery(&mut v, id(GA), 10).unwrap();
    assert!(r.is_none());
    assert_eq!(approvals_of(&v), vec![id(GA)]);

    // Quorum met at t = 20, but the timelock has not elapsed: still pending.
    let r = approve_recovery(&mut v, id(GB), 20).unwrap();
    assert!(r.is_none());
    assert_eq!(approvals_of(&v), vec![id(GA), id(GB)]);
    assert_eq!(v.owner, id(OWNER));

    // At t = 3600 an approval completes: ownership moves.
    let r = approve_recovery(&mut v, id(GC), 3600).unwrap();
    assert!(r.is_some());
    assert_eq!(v.owner, id(NEW_OWNER));
    assert!(matches!(v.recovery_state, RecoveryState::Completed));
}

#[test]
fn completion_needs_both_quorum_and_timelock() {
    // Timelock elapsed but quorum not met: still pending, vote retained.
    let mut v = fresh_vault();
    initiate_recovery(&mut v, id(OWNER), id(NEW_OWNER), 0).unwrap();
    let r = approve_recovery(&mut v, id(GA), 5000).unwrap();
    assert!(r.is_none());
    assert_eq!(approvals_of(&v), vec![id(GA)]);
    assert_eq!(v.owner, id(OWNER));
}

#[test]
fn timelock_boundary_is_inclusive() {
    let mut v = fresh_vault();
    initiate_recovery(&mut v, id(OWNER), id(NEW_OWNER), 100).unwrap();
    approve_recovery(&mut v, id(GA), 101).unwrap();
    // One second short of the timelock: recorded, not completed.
    let r = approve_recovery(&mut v, id(GB), 100 + 3599).unwrap();
    assert!(r.is_none());
    assert_eq!(approvals_of(&v), vec![id(GA), id(GB)]);
    // Exactly at start + timelock: completes.
    let r = approve_recovery(&mut v, id(GC), 100 + 3600).unwrap();
    assert!(r.is_some());
    assert_eq!(v.owner, id(NEW_OWNER));
}

#[test]
fn double_vote_rejected_and_count_unchanged() {
    let mut v = fresh_vault();
    initiate_recovery(&mut v, id(OWNER), id(NEW_OWNER), 0).unwrap();
    approve_recovery(&mut v, id(GA), 10).unwrap();
    let r = approve_recovery(&mut v, id(GA), 20);
    assert_eq!(r.err(), Some(ErrorCode::DuplicateApproval));
    assert_eq!(approvals_of(&v), vec![id(GA)]);
}

#[test]
fn approve_by_non_guardian_fails() {
    let mut v = fresh_vault();
    initiate_recovery(&mut v, id(OWNER), id(NEW_OWNER), 0).unwrap();
    let r = approve_recovery(&mut v, id(STRANGER), 10);
    assert_eq!(r.err(), Some(ErrorCode::Unauthorized));
    assert!(approvals_of(&v).is_empty());
    // The owner is not a guardian either.
    let r = approve_recovery(&mut v, id(OWNER), 10);
    assert_eq!(r.err(), Some(ErrorCode::Unauthorized));
}

#[test]
fn approve_without_pending_round_fails() {
    let mut v = fresh_vault();
    let r = approve_recovery(&mut v, id(GA), 10);
    assert_eq!(r.err(), Some(ErrorCode::NoActiveRecovery));
}

#[test]
fn completion_is_terminal_until_reinitiated() {
    let mut v = fresh_vault();
    initiate_recovery(&mut v, id(OWNER), id(NEW_OWNER), 0).unwrap();
    approve_recovery(&mut v, id(GA), 10).unwrap();
    approve_recovery(&mut v, id(GB), 4000).unwrap();
    assert!(matches!(v.recovery_state, RecoveryState::Completed));
    let r = approve_recovery(&mut v, id(GC), 5000);
    assert_eq!(r.err(), Some(ErrorCode::NoActiveRecovery));
    // A fresh initiation restarts the cycle.
    let r = initiate_recovery(&mut v, id(GA), id(OWNER), 6000);
    assert!(r.is_ok());
    assert_eq!(v.recovery_id, 2);
}

#[test]
fn reinitiation_discards_prior_votes() {
    let mut v = fresh_vault();
    initiate_recovery(&mut v, id(OWNER), id(NEW_OWNER), 0).unwrap();
    approve_recovery(&mut v, id(GA), 10).unwrap();
    let m = initiate_recovery(&mut v, id(GB), id(STRANGER), 20).unwrap();
    assert_eq!(m.recovery_id, 2);
    assert_eq!(v.recovery_id, 2);
    assert!(approvals_of(&v).is_empty());
    // The guardian who voted in the superseded round may vote again.
    let r = approve_recovery(&mut v, id(GA), 30).unwrap();
    assert!(r.is_none());
    assert_eq!(approvals_of(&v), vec![id(GA)]);
}

#[test]
fn completion_emits_one_transfer_per_asset_in_order() {
    let assets = vec![
        Asset {
            asset_type: AssetType::Token,
            amount: 7,
            token_account: id(301),
            mint: id(401),
        },
        Asset {
            asset_type: AssetType::NFT,
            amount: 999,
            token_account: id(302),
            mint: id(402),
        },
    ];
    let mut v = initialize_vault(
        id(VAULT_ID),
        id(OWNER),
        vec![id(GA), id(GB)],
        1,
        0,
        10_000,
        id(BACKUP),
        50,
        assets,
        0,
    )
    .unwrap();
    initiate_recovery(&mut v, id(OWNER), id(NEW_OWNER), 0).unwrap();
    let cmds = approve_recovery(&mut v, id(GA), 0).unwrap().unwrap();
    assert_eq!(
        cmds,
        vec![
            TransferCmd {
                source: id(301),
                mint: id(401),
                amount: 7,
            },
            TransferCmd {
                source: id(302),
                mint: id(402),
                amount: 1,
            },
        ]
    );
}

#[test]
fn watchdog_is_a_no_op_before_the_window() {
    let mut v = fresh_vault();
    check_inactivity(&mut v, 5_000);
    assert!(matches!(v.recovery_state, RecoveryState::Idle));
    check_inactivity(&mut v, 9_999);
    assert!(matches!(v.recovery_state, RecoveryState::Idle));
    assert_eq!(v.recovery_id, 0);
}

#[test]
fn watchdog_triggers_recovery_to_backup_once_window_elapses() {
    let mut v = fresh_vault();
    check_inactivity(&mut v, 9_999);
    assert!(matches!(v.recovery_state, RecoveryState::Idle));
    check_inactivity(&mut v, 10_000);
    assert_eq!(v.recovery_id, 1);
    match &v.recovery_state {
        RecoveryState::Pending {
            new_owner,
            approvals,
            start_timestamp,
            ..
        } => {
            assert_eq!(*new_owner, id(BACKUP));
            assert!(approvals.is_empty());
            assert_eq!(*start_timestamp, 10_000);
        }
        _ => panic!("expected a pending recovery"),
    }
}

#[test]
fn watchdog_supersedes_a_pending_round() {
    let mut v = fresh_vault();
    initiate_recovery(&mut v, id(OWNER), id(NEW_OWNER), 0).unwrap();
    approve_recovery(&mut v, id(GA), 10).unwrap();
    check_inactivity(&mut v, 20_000);
    assert_eq!(v.recovery_id, 2);
    assert!(approvals_of(&v).is_empty());
    match &v.recovery_state {
        RecoveryState::Pending { new_owner, .. } => assert_eq!(*new_owner, id(BACKUP)),
        _ => panic!("expected a pending recovery"),
    }
}

#[test]
fn owner_touch_refreshes_activity_clock() {
    let mut v = fresh_vault();
    update_last_active(&mut v, id(OWNER), 8_000).unwrap();
    assert_eq!(v.last_active_timestamp, 8_000);
    // The refreshed clock pushes the watchdog window out.
    check_inactivity(&mut v, 10_000);
    assert!(matches!(v.recovery_state, RecoveryState::Idle));
}

#[test]
fn touch_by_non_owner_fails() {
    let mut v = fresh_vault();
    let r = update_last_active(&mut v, id(GA), 8_000);
    assert_eq!(r.err(), Some(ErrorCode::Unauthorized));
    assert_eq!(v.last_active_timestamp, 0);
}

#[test]
fn slashing_signal_on_third_distinct_vote_only() {
    let mut v = initialize_vault(
        id(VAULT_ID),
        id(OWNER),
        vec![id(GA), id(GB), id(GC), id(GD)],
        2,
        3600,
        10_000,
        id(BACKUP),
        50,
        vec![],
        0,
    )
    .unwrap();
    initiate_recovery(&mut v, id(OWNER), id(NEW_OWNER), 0).unwrap();
    let accused = id(GD);
    let r = mark_malicious(&mut v, id(GA), accused).unwrap();
    assert!(r.is_none());
    let r = mark_malicious(&mut v, id(GB), accused).unwrap();
    assert!(r.is_none());
    assert_eq!(malicious_of(&v), vec![id(GA), id(GB)]);
    let r = mark_malicious(&mut v, id(GC), accused).unwrap().unwrap();
    assert_eq!(r.vault_id, id(VAULT_ID));
    assert_eq!(r.guardian, accused);
    assert_eq!(r.amount, 50);
    // A fourth distinct vote does not emit the signal again.
    let r = mark_malicious(&mut v, id(GD), accused).unwrap();
    assert!(r.is_none());
}

#[test]
fn malicious_vote_duplicate_rejected() {
    let mut v = fresh_vault();
    initiate_recovery(&mut v, id(OWNER), id(NEW_OWNER), 0).unwrap();
    mark_malicious(&mut v, id(GA), id(GB)).unwrap();
    let r = mark_malicious(&mut v, id(GA), id(GB));
    assert_eq!(r.err(), Some(ErrorCode::DuplicateApproval));
    assert_eq!(malicious_of(&v), vec![id(GA)]);
}

#[test]
fn malicious_vote_by_non_guardian_fails() {
    let mut v = fresh_vault();
    initiate_recovery(&mut v, id(OWNER), id(NEW_OWNER), 0).unwrap();
    let r = mark_malicious(&mut v, id(STRANGER), id(GA));
    assert_eq!(r.err(), Some(ErrorCode::Unauthorized));
}

#[test]
fn malicious_vote_without_pending_round_is_ignored() {
    let mut v = fresh_vault();
    let r = mark_malicious(&mut v, id(GA), id(GB)).unwrap();
    assert!(r.is_none());
    assert!(matches!(v.recovery_state, RecoveryState::Idle));
}

#[test]
fn stake_checks_role_and_minimum() {
    let v = fresh_vault();
    assert_eq!(
        stake_guardian_oft(&v, id(STRANGER), 100).err(),
        Some(ErrorCode::Unauthorized)
    );
    assert_eq!(
        stake_guardian_oft(&v, id(GA), 49).err(),
        Some(ErrorCode::InsufficientStake)
    );
    assert!(stake_guardian_oft(&v, id(GA), 50).is_ok());
}
