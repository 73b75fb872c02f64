//! The laws of the recovery engine, proved once and for all over the model
//! transitions that every executable operation is specified by.

use vstd::prelude::*;
use crate::ids::AccountId;
use crate::errors::ErrorCode;
use crate::model::{
    VaultModel, RecoveryModel, PendingModel, ApproveResult, MarkResult, GuardianSlashedEvent,
    MALICIOUS_VOTES,
};

verus! {

/// Quorum/timelock conjunction: an eligible approval completes the recovery
/// exactly when the vote count reaches the threshold AND the timelock has
/// elapsed since the round started; when either clause fails, the round
/// stays pending with every vote — including the new one — retained.
pub proof fn lemma_quorum_timelock_conjunction(v: VaultModel, g: AccountId, now: u64)
    requires
        v.inv(),
        v.recovery is Pending,
        v.guardians.contains(g),
        !v.recovery->Pending_p.approvals.contains(g),
    ensures
        (v.approve_result(g, now) is Completed) <==> {
            let p = v.recovery->Pending_p;
            &&& p.approvals.len() + 1 >= v.threshold as int
            &&& now as int >= p.start_timestamp as int + v.timelock as int
        },
        !(v.approve_result(g, now) is Completed) ==> {
            let p = v.recovery->Pending_p;
            v.approve_state(g, now).recovery == (RecoveryModel::Pending {
                p: PendingModel { approvals: p.approvals.push(g), ..p },
            })
        },
        (v.approve_result(g, now) is Completed) ==> {
            let p = v.recovery->Pending_p;
            &&& v.approve_state(g, now).owner == p.new_owner
            &&& v.approve_state(g, now).recovery is Completed
        },
{
}

/// No double voting: after a recorded approval by `g`, a second approval by
/// `g` in the same round is rejected as a duplicate and changes nothing, at
/// whatever time it arrives.
pub proof fn lemma_no_double_vote(v: VaultModel, g: AccountId, t1: u64, t2: u64)
    requires
        v.inv(),
        v.approve_result(g, t1) is Recorded,
    ensures
        ({
            let v1 = v.approve_state(g, t1);
            &&& v1.approve_result(g, t2) == (ApproveResult::Rejected {
                err: ErrorCode::DuplicateApproval,
            })
            &&& v1.approve_state(g, t2) == v1
        }),
{
    let p = v.recovery->Pending_p;
    assert(p.approvals.push(g)[p.approvals.len() as int] == g);
    assert(p.approvals.push(g).contains(g));
}

/// Re-initiation discards prior votes: initiating while a round is pending
/// opens a fresh round with no approvals and a fencing token one higher, so
/// no vote of the superseded round survives.
pub proof fn lemma_reinitiate_discards_votes(v: VaultModel, new_owner: AccountId, now: u64)
    requires
        v.inv(),
        v.recovery is Pending,
        v.recovery_id < u64::MAX,
    ensures
        v.initiate_step(new_owner, now).recovery->Pending_p.approvals.len() == 0,
        v.initiate_step(new_owner, now).recovery->Pending_p.malicious_approvals.len() == 0,
        v.initiate_step(new_owner, now).recovery_id == v.recovery_id + 1,
        v.initiate_step(new_owner, now).recovery->Pending_p.new_owner == new_owner,
{
}

/// Inactivity idempotence: every watchdog call before the window elapses is
/// a no-op, however often repeated; a call once the window has elapsed is
/// exactly a local initiation targeting the backup wallet.
pub proof fn lemma_watchdog_idempotent(v: VaultModel, t1: u64, t2: u64)
    requires
        v.inv(),
        !v.inactivity_due(t1),
        !v.inactivity_due(t2),
    ensures
        v.inactivity_step(t1) == v,
        v.inactivity_step(t1).inactivity_step(t2) == v,
{
}

/// The triggering half of the watchdog law: at or after the window, the
/// watchdog behaves exactly like an initiation toward the backup wallet.
pub proof fn lemma_watchdog_triggers(v: VaultModel, t: u64)
    requires
        v.inv(),
        v.inactivity_due(t),
    ensures
        v.inactivity_step(t) == v.initiate_step(v.backup_wallet, t),
        v.inactivity_step(t).recovery->Pending_p.new_owner == v.backup_wallet,
        v.inactivity_step(t).recovery->Pending_p.approvals.len() == 0,
{
}

/// Slashing threshold: with a pending round and no malicious votes yet, two
/// distinct accusers emit no forfeiture signal; the third distinct accuser
/// emits it, exactly once, naming the accused and the configured stake.
pub proof fn lemma_slash_threshold(
    v: VaultModel,
    g1: AccountId,
    g2: AccountId,
    g3: AccountId,
    accused: AccountId,
)
    requires
        v.inv(),
        v.recovery is Pending,
        v.recovery->Pending_p.malicious_approvals.len() == 0,
        v.guardians.contains(g1),
        v.guardians.contains(g2),
        v.guardians.contains(g3),
        g1 != g2,
        g1 != g3,
        g2 != g3,
    ensures
        ({
            let v1 = v.mark_state(g1, accused);
            let v2 = v1.mark_state(g2, accused);
            &&& v.mark_result(g1, accused) == (MarkResult::Recorded { slashed: Option::None })
            &&& v1.mark_result(g2, accused) == (MarkResult::Recorded { slashed: Option::None })
            &&& v2.mark_result(g3, accused) == (MarkResult::Recorded {
                slashed: Some(
                    GuardianSlashedEvent {
                        vault_id: v.vault_id,
                        guardian: accused,
                        amount: v.stake_amount,
                    },
                ),
            })
        }),
{
    let p = v.recovery->Pending_p;
    let v1 = v.mark_state(g1, accused);
    let p1 = v1.recovery->Pending_p;
    assert(p1.malicious_approvals == p.malicious_approvals.push(g1));
    assert(p1.malicious_approvals.len() == 1);
    assert(p1.malicious_approvals[0] == g1);
    assert(!p1.malicious_approvals.contains(g2));
    let v2 = v1.mark_state(g2, accused);
    let p2 = v2.recovery->Pending_p;
    assert(p2.malicious_approvals == p1.malicious_approvals.push(g2));
    assert(p2.malicious_approvals.len() == 2);
    assert(p2.malicious_approvals[0] == g1 && p2.malicious_approvals[1] == g2);
    assert(!p2.malicious_approvals.contains(g3));
    assert(p2.malicious_approvals.len() + 1 == MALICIOUS_VOTES as int);
}

/// Ownership moves only as the direct effect of a completed recovery: every
/// transition other than a completing approval keeps the owner, and the
/// completing approval installs exactly the pending round's designated new
/// owner.
pub proof fn lemma_owner_changes_only_on_completion(
    v: VaultModel,
    g: AccountId,
    accused: AccountId,
    new_owner: AccountId,
    t: u64,
)
    requires
        v.inv(),
    ensures
        v.initiate_step(new_owner, t).owner == v.owner,
        v.inactivity_step(t).owner == v.owner,
        v.mark_state(g, accused).owner == v.owner,
        v.touch_step(t).owner == v.owner,
        !(v.approve_result(g, t) is Completed) ==> v.approve_state(g, t).owner == v.owner,
        (v.approve_result(g, t) is Completed) ==> v.approve_state(g, t).owner
            == v.recovery->Pending_p.new_owner,
{
}

/// The fencing token never decreases: an initiation (local, remote, or by
/// the watchdog) raises it by exactly one, and every other transition keeps
/// it.
pub proof fn lemma_fencing_token_monotonic(
    v: VaultModel,
    g: AccountId,
    accused: AccountId,
    new_owner: AccountId,
    t: u64,
)
    requires
        v.inv(),
        v.recovery_id < u64::MAX,
    ensures
        v.initiate_step(new_owner, t).recovery_id == v.recovery_id + 1,
        v.inactivity_step(t).recovery_id >= v.recovery_id,
        v.approve_state(g, t).recovery_id == v.recovery_id,
        v.mark_state(g, accused).recovery_id == v.recovery_id,
        v.touch_step(t).recovery_id == v.recovery_id,
{
}

} // verus!
