//! The mathematical model of a vault and the transition functions of the
//! recovery state machine.  Every executable operation is specified as
//! exactly one of these transitions; the laws of the engine are proved about
//! them.

use vstd::prelude::*;
use crate::ids::{AccountId, distinct_ids, ids_within};
use crate::assets::{Asset, TransferCmd, transfers_of};
use crate::errors::ErrorCode;

verus! {

/// Most guardians a vault may name.
pub const MAX_GUARDIANS: usize = 10;

/// Most assets a vault may hold.
pub const MAX_ASSETS: usize = 10;

/// Distinct malicious-behavior votes that forfeit a guardian's stake.
pub const MALICIOUS_VOTES: usize = 3;

/// Live recovery state of a vault.
#[derive(Clone, Debug)]
pub enum RecoveryState {
    /// No recovery in flight.
    Idle,
    /// A recovery round: who would become owner, which guardians approved,
    /// which guardians voted an accused guardian malicious, when the round
    /// started, and the fencing token of the round.
    Pending {
        new_owner: AccountId,
        approvals: Vec<AccountId>,
        malicious_approvals: Vec<AccountId>,
        start_timestamp: u64,
        recovery_id: u64,
    },
    /// The last round reached quorum after its timelock and moved ownership.
    /// Terminal for its round: there is no automatic reset, and approvals
    /// fail until a fresh initiation opens the next round.
    Completed,
}

/// One trusted remote counterparty: messages from `peer` on chain `eid` may
/// drive recovery of vault `vault`.
#[derive(Clone, Copy, PartialEq, Eq, Structural, Debug)]
pub struct PeerInfo {
    pub vault: AccountId,
    pub eid: u32,
    pub peer: AccountId,
}

/// Advisory signal to an external slashing process: `guardian` forfeits
/// `amount` of stake posted for `vault_id`.
#[derive(Clone, Copy, PartialEq, Eq, Structural, Debug)]
pub struct GuardianSlashedEvent {
    pub vault_id: AccountId,
    pub guardian: AccountId,
    pub amount: u64,
}

/// Model of a pending recovery round.
#[verifier::ext_equal]
pub ghost struct PendingModel {
    pub new_owner: AccountId,
    pub approvals: Seq<AccountId>,
    pub malicious_approvals: Seq<AccountId>,
    pub start_timestamp: u64,
    pub recovery_id: u64,
}

/// Model of the recovery state.
#[verifier::ext_equal]
pub ghost enum RecoveryModel {
    Idle,
    Pending { p: PendingModel },
    Completed,
}

/// Model of a whole vault.
#[verifier::ext_equal]
pub ghost struct VaultModel {
    pub vault_id: AccountId,
    pub owner: AccountId,
    pub guardians: Seq<AccountId>,
    pub threshold: u8,
    pub timelock: u64,
    pub inactivity_period: u64,
    pub backup_wallet: AccountId,
    pub stake_amount: u64,
    pub assets: Seq<Asset>,
    pub recovery: RecoveryModel,
    pub recovery_id: u64,
    pub last_active_timestamp: u64,
    pub peers: Seq<PeerInfo>,
}

impl View for RecoveryState {
    type V = RecoveryModel;

    open spec fn view(&self) -> RecoveryModel {
        match self {
            RecoveryState::Idle => RecoveryModel::Idle,
            RecoveryState::Pending {
                new_owner,
                approvals,
                malicious_approvals,
                start_timestamp,
                recovery_id,
            } => RecoveryModel::Pending {
                p: PendingModel {
                    new_owner: *new_owner,
                    approvals: approvals@,
                    malicious_approvals: malicious_approvals@,
                    start_timestamp: *start_timestamp,
                    recovery_id: *recovery_id,
                },
            },
            RecoveryState::Completed => RecoveryModel::Completed,
        }
    }
}

/// Outcome of an approval call.
pub ghost enum ApproveResult {
    /// The call was refused and the vault is unchanged.
    Rejected { err: ErrorCode },
    /// The vote was recorded; quorum or timelock is still outstanding.
    Recorded,
    /// The vote completed the recovery: ownership moved and these transfers
    /// are owed, one per configured asset, in order.
    Completed { transfers: Seq<TransferCmd> },
}

/// Outcome of a malicious-behavior vote.
pub ghost enum MarkResult {
    /// The call was refused and the vault is unchanged.
    Rejected { err: ErrorCode },
    /// No recovery is pending: best-effort no-op.
    Ignored,
    /// The vote was recorded; `slashed` carries the forfeiture signal when
    /// this vote is the one that reaches the slashing threshold.
    Recorded { slashed: Option<GuardianSlashedEvent> },
}

impl VaultModel {
    /// Well-formedness: threshold within the guardian set, sizes within
    /// their maxima, peer bindings one per chain and owned by this vault,
    /// and any pending round carrying the current fencing token with
    /// duplicate-free guardian vote lists.
    pub open spec fn inv(self) -> bool {
        &&& 1 <= self.threshold as int
        &&& self.threshold as int <= self.guardians.len()
        &&& self.guardians.len() <= MAX_GUARDIANS as int
        &&& self.assets.len() <= MAX_ASSETS as int
        &&& (forall|i: int, j: int|
            0 <= i < j < self.peers.len() ==> self.peers[i].eid != self.peers[j].eid)
        &&& (forall|i: int| 0 <= i < self.peers.len() ==> self.peers[i].vault == self.vault_id)
        &&& match self.recovery {
            RecoveryModel::Pending { p } => {
                &&& p.recovery_id == self.recovery_id
                &&& distinct_ids(p.approvals)
                &&& ids_within(p.approvals, self.guardians)
                &&& distinct_ids(p.malicious_approvals)
                &&& ids_within(p.malicious_approvals, self.guardians)
            },
            _ => true,
        }
    }

    /// Who may start a recovery: the owner or any guardian.
    pub open spec fn initiate_allowed(self, who: AccountId) -> bool {
        who == self.owner || self.guardians.contains(who)
    }

    /// Starting (or restarting) a recovery round: the fencing token grows by
    /// one and a fresh pending round begins with no votes.  Any votes of a
    /// superseded round are discarded.
    pub open spec fn initiate_step(self, new_owner: AccountId, now: u64) -> VaultModel {
        VaultModel {
            recovery_id: (self.recovery_id + 1) as u64,
            recovery: RecoveryModel::Pending {
                p: PendingModel {
                    new_owner,
                    approvals: Seq::empty(),
                    malicious_approvals: Seq::empty(),
                    start_timestamp: now,
                    recovery_id: (self.recovery_id + 1) as u64,
                },
            },
            ..self
        }
    }

    /// The completion condition: quorum and timelock, as a conjunction.
    pub open spec fn completion_due(self, p: PendingModel, now: u64) -> bool {
        &&& p.approvals.len() >= self.threshold as int
        &&& now as int >= p.start_timestamp as int + self.timelock as int
    }

    /// What an approval by `g` at time `now` returns.
    pub open spec fn approve_result(self, g: AccountId, now: u64) -> ApproveResult {
        if !self.guardians.contains(g) {
            ApproveResult::Rejected { err: ErrorCode::Unauthorized }
        } else {
            match self.recovery {
                RecoveryModel::Pending { p } => {
                    if p.approvals.contains(g) {
                        ApproveResult::Rejected { err: ErrorCode::DuplicateApproval }
                    } else {
                        if self.completion_due(
                            PendingModel { approvals: p.approvals.push(g), ..p },
                            now,
                        ) {
                            ApproveResult::Completed { transfers: transfers_of(self.assets) }
                        } else {
                            ApproveResult::Recorded
                        }
                    }
                },
                _ => ApproveResult::Rejected { err: ErrorCode::NoActiveRecovery },
            }
        }
    }

    /// The vault after an approval by `g` at time `now`: unchanged on a
    /// rejection; one more vote while quorum or timelock is outstanding;
    /// ownership moved and the round closed on completion.
    pub open spec fn approve_state(self, g: AccountId, now: u64) -> VaultModel {
        match self.approve_result(g, now) {
            ApproveResult::Rejected { err } => self,
            ApproveResult::Recorded => {
                let p = self.recovery->Pending_p;
                VaultModel {
                    recovery: RecoveryModel::Pending {
                        p: PendingModel { approvals: p.approvals.push(g), ..p },
                    },
                    ..self
                }
            },
            ApproveResult::Completed { transfers } => {
                let p = self.recovery->Pending_p;
                VaultModel { owner: p.new_owner, recovery: RecoveryModel::Completed, ..self }
            },
        }
    }

    /// The inactivity window has elapsed.
    pub open spec fn inactivity_due(self, now: u64) -> bool {
        now as int >= self.last_active_timestamp as int + self.inactivity_period as int
    }

    /// The watchdog transition: before the window elapses, the identity;
    /// once it has elapsed, exactly a local initiation targeting the backup
    /// wallet.
    pub open spec fn inactivity_step(self, now: u64) -> VaultModel {
        if self.inactivity_due(now) {
            self.initiate_step(self.backup_wallet, now)
        } else {
            self
        }
    }

    /// What a malicious-behavior vote by `signer` returns.
    pub open spec fn mark_result(self, signer: AccountId, accused: AccountId) -> MarkResult {
        if !self.guardians.contains(signer) {
            MarkResult::Rejected { err: ErrorCode::Unauthorized }
        } else {
            match self.recovery {
                RecoveryModel::Pending { p } => {
                    if p.malicious_approvals.contains(signer) {
                        MarkResult::Rejected { err: ErrorCode::DuplicateApproval }
                    } else {
                        MarkResult::Recorded {
                            slashed: if p.malicious_approvals.len() + 1 == MALICIOUS_VOTES as int {
                                Some(
                                    GuardianSlashedEvent {
                                        vault_id: self.vault_id,
                                        guardian: accused,
                                        amount: self.stake_amount,
                                    },
                                )
                            } else {
                                Option::None
                            },
                        }
                    }
                },
                _ => MarkResult::Ignored,
            }
        }
    }

    /// The vault after a malicious-behavior vote: unchanged unless the vote
    /// was recorded, in which case it is appended.
    pub open spec fn mark_state(self, signer: AccountId, accused: AccountId) -> VaultModel {
        match self.mark_result(signer, accused) {
            MarkResult::Recorded { slashed } => {
                let p = self.recovery->Pending_p;
                VaultModel {
                    recovery: RecoveryModel::Pending {
                        p: PendingModel {
                            malicious_approvals: p.malicious_approvals.push(signer),
                            ..p
                        },
                    },
                    ..self
                }
            },
            _ => self,
        }
    }

    /// The owner refreshed the activity clock.
    pub open spec fn touch_step(self, now: u64) -> VaultModel {
        VaultModel { last_active_timestamp: now, ..self }
    }

    /// A message from chain `eid` signed by `sender` is trusted for this
    /// vault.
    pub open spec fn source_authorized(self, eid: u32, sender: AccountId) -> bool {
        exists|i: int|
            0 <= i < self.peers.len() && self.peers[i].eid == eid && self.peers[i].peer == sender
    }
}

} // verus!
