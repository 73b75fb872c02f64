//! The vault record and every operation of the recovery engine.
//!
//! Each operation is total over the inputs its `requires` admits, mutates
//! the vault exactly as the corresponding model transition says, and returns
//! the commands an embedding runtime must carry out (outbound messages,
//! asset transfers, slashing signals).  The runtime is responsible for
//! atomicity across the external call: it snapshots the vault before an
//! operation whose commands might fail downstream and restores the snapshot
//! if they do.

use vstd::prelude::*;
use crate::ids::{AccountId, contains_id, distinct_ids, ids_within};
use crate::assets::{Asset, TransferCmd, build_transfers};
use crate::codec::{RecoveryMessage, RecoveryAction, decode_message, message_of};
use crate::errors::ErrorCode;
use crate::model::{
    VaultModel, RecoveryModel, RecoveryState, PeerInfo, GuardianSlashedEvent, ApproveResult,
    MarkResult, MAX_GUARDIANS, MAX_ASSETS, MALICIOUS_VOTES,
};

verus! {

/// The durable record of one vault: configuration fixed at creation, plus
/// live recovery state.
#[derive(Clone, Debug)]
pub struct Vault {
    /// Identity of the vault itself, the key of its durable record.
    pub vault_id: AccountId,
    /// Identity of the current controller; changes only when a recovery
    /// completes.
    pub owner: AccountId,
    /// The identities allowed to vote on recovery.
    pub guardians: Vec<AccountId>,
    /// Distinct guardian approvals needed to complete a recovery.
    pub threshold: u8,
    /// Minimum seconds between the start of a round and its completion.
    pub timelock: u64,
    /// Seconds of owner silence after which anyone may trigger recovery.
    pub inactivity_period: u64,
    /// Destination of an inactivity-triggered recovery.
    pub backup_wallet: AccountId,
    /// Minimum collateral a guardian must post to stake.
    pub stake_amount: u64,
    /// The assets recovery moves, in order.
    pub assets: Vec<Asset>,
    /// The live recovery state.
    pub recovery_state: RecoveryState,
    /// Fencing token: grows by one on every initiation, never repeats.
    pub recovery_id: u64,
    /// Last authenticated owner action, as given by the caller's clock.
    pub last_active_timestamp: u64,
    /// Trusted remote counterparties, at most one per remote chain.
    pub peers: Vec<PeerInfo>,
}

impl View for Vault {
    type V = VaultModel;

    open spec fn view(&self) -> VaultModel {
        VaultModel {
            vault_id: self.vault_id,
            owner: self.owner,
            guardians: self.guardians@,
            threshold: self.threshold,
            timelock: self.timelock,
            inactivity_period: self.inactivity_period,
            backup_wallet: self.backup_wallet,
            stake_amount: self.stake_amount,
            assets: self.assets@,
            recovery: self.recovery_state@,
            recovery_id: self.recovery_id,
            last_active_timestamp: self.last_active_timestamp,
            peers: self.peers@,
        }
    }
}

/// An inbound delivery from the interchain transport.
#[derive(Clone, Debug)]
pub struct LzReceiveParams {
    /// Chain the message came from.
    pub src_eid: u32,
    /// Remote address that sent it.
    pub sender: AccountId,
    /// Transport sequence number (unused by the engine).
    pub nonce: u64,
    /// Transport message identifier (unused by the engine).
    pub guid: [u8; 32],
    /// The serialized recovery message.
    pub message: Vec<u8>,
    /// Transport extra data (unused by the engine).
    pub extra_data: Vec<u8>,
}

/// A creation request is acceptable: threshold within the guardian set and
/// both lists within their maxima.
pub open spec fn valid_config(guardians: Seq<AccountId>, threshold: u8, assets: Seq<Asset>) -> bool {
    &&& 1 <= threshold as int
    &&& threshold as int <= guardians.len()
    &&& guardians.len() <= MAX_GUARDIANS as int
    &&& assets.len() <= MAX_ASSETS as int
}

/// The message a local initiation dispatches to the remote chain: it names
/// this vault and carries the fencing token of the round just opened.
pub open spec fn outbound_initiate(v: VaultModel, new_owner: AccountId) -> RecoveryMessage {
    RecoveryMessage {
        vault_id: v.vault_id,
        new_owner,
        recovery_id: (v.recovery_id + 1) as u64,
        action: RecoveryAction::Initiate,
    }
}

/// Creates a vault, rejecting a malformed configuration.  The caller
/// supplies the vault's durable identity and the creation time; registering
/// the vault with the interchain transport is the runtime's part, and a
/// registration failure must discard the returned record (no partial vault).
pub fn initialize_vault(
    vault_id: AccountId,
    owner: AccountId,
    guardians: Vec<AccountId>,
    threshold: u8,
    timelock: u64,
    inactivity_period: u64,
    backup_wallet: AccountId,
    stake_amount: u64,
    assets: Vec<Asset>,
    now: u64,
) -> (r: Result<Vault, ErrorCode>)
    ensures
        r is Ok <==> valid_config(guardians@, threshold, assets@),
        (r matches Ok(v) ==> {
            &&& v@ == (VaultModel {
                vault_id,
                owner,
                guardians: guardians@,
                threshold,
                timelock,
                inactivity_period,
                backup_wallet,
                stake_amount,
                assets: assets@,
                recovery: RecoveryModel::Idle,
                recovery_id: 0u64,
                last_active_timestamp: now,
                peers: Seq::empty(),
            })
            &&& v@.inv()
        }),
        !valid_config(guardians@, threshold, assets@) ==> r == Err::<Vault, ErrorCode>(
            ErrorCode::InvalidThreshold,
        ),
{
    if threshold == 0 || threshold as usize > guardians.len() || guardians.len() > MAX_GUARDIANS
        || assets.len() > MAX_ASSETS {
        return Err(ErrorCode::InvalidThreshold);
    }
    let v = Vault {
        vault_id,
        owner,
        guardians,
        threshold,
        timelock,
        inactivity_period,
        backup_wallet,
        stake_amount,
        assets,
        recovery_state: RecoveryState::Idle,
        recovery_id: 0,
        last_active_timestamp: now,
        peers: Vec::new(),
    };
    proof {
        assert(v@ =~~= (VaultModel {
            vault_id,
            owner,
            guardians: v.guardians@,
            threshold,
            timelock,
            inactivity_period,
            backup_wallet,
            stake_amount,
            assets: v.assets@,
            recovery: RecoveryModel::Idle,
            recovery_id: 0u64,
            last_active_timestamp: now,
            peers: Seq::empty(),
        }));
    }
    Ok(v)
}

/// Opens a fresh recovery round: bumps the fencing token and installs a
/// pending state with no votes, superseding any round in flight.
fn begin_round(vault: &mut Vault, new_owner: AccountId, now: u64)
    requires
        old(vault)@.inv(),
        old(vault).recovery_id < u64::MAX,
    ensures
        final(vault)@.inv(),
        final(vault)@ == old(vault)@.initiate_step(new_owner, now),
{
    let rid = vault.recovery_id + 1;
    vault.recovery_id = rid;
    vault.recovery_state = RecoveryState::Pending {
        new_owner,
        approvals: Vec::new(),
        malicious_approvals: Vec::new(),
        start_timestamp: now,
        recovery_id: rid,
    };
    proof {
        assert(vault@ =~~= old(vault)@.initiate_step(new_owner, now));
    }
}

/// Starts a recovery toward `new_owner`, on the authority of the owner or a
/// guardian.  Returns the message the runtime must dispatch to the remote
/// peer; if that dispatch fails, the runtime must roll the vault back so the
/// initiation is all-or-nothing.  A round already pending is overwritten and
/// its votes are discarded: last initiator wins.
pub fn initiate_recovery(
    vault: &mut Vault,
    initiator: AccountId,
    new_owner: AccountId,
    now: u64,
) -> (r: Result<RecoveryMessage, ErrorCode>)
    requires
        old(vault)@.inv(),
        old(vault).recovery_id < u64::MAX,
    ensures
        final(vault)@.inv(),
        old(vault)@.initiate_allowed(initiator) ==> {
            &&& final(vault)@ == old(vault)@.initiate_step(new_owner, now)
            &&& r == Ok::<RecoveryMessage, ErrorCode>(outbound_initiate(old(vault)@, new_owner))
        },
        !old(vault)@.initiate_allowed(initiator) ==> {
            &&& r == Err::<RecoveryMessage, ErrorCode>(ErrorCode::Unauthorized)
            &&& final(vault)@ == old(vault)@
        },
{
    let is_owner = initiator == vault.owner;
    if !is_owner && !contains_id(&vault.guardians, initiator) {
        return Err(ErrorCode::Unauthorized);
    }
    begin_round(vault, new_owner, now);
    Ok(
        RecoveryMessage {
            vault_id: vault.vault_id,
            new_owner,
            recovery_id: vault.recovery_id,
            action: RecoveryAction::Initiate,
        },
    )
}

/// Records a guardian's approval of the pending recovery and, once the
/// quorum and the timelock are both satisfied, completes it: ownership moves
/// to the round's designated new owner and the returned transfer commands —
/// one per configured asset, in list order — are owed to the asset ledger.
/// `Ok(None)` means the vote was recorded but the round stays pending (a
/// valid below-quorum outcome, not an error).  The runtime must perform
/// every returned transfer or roll the whole call back.
pub fn approve_recovery(vault: &mut Vault, guardian: AccountId, now: u64) -> (r: Result<
    Option<Vec<TransferCmd>>,
    ErrorCode,
>)
    requires
        old(vault)@.inv(),
    ensures
        final(vault)@.inv(),
        final(vault)@ == old(vault)@.approve_state(guardian, now),
        (match old(vault)@.approve_result(guardian, now) {
            ApproveResult::Rejected { err } => r == Err::<Option<Vec<TransferCmd>>, ErrorCode>(
                err,
            ),
            ApproveResult::Recorded => r == Ok::<Option<Vec<TransferCmd>>, ErrorCode>(
                Option::None,
            ),
            ApproveResult::Completed { transfers } => r matches Ok(Some(cmds)) && cmds@
                == transfers,
        }),
{
    if !contains_id(&vault.guardians, guardian) {
        return Err(ErrorCode::Unauthorized);
    }
    let threshold = vault.threshold;
    let timelock = vault.timelock;
    let mut done = false;
    let mut target = vault.owner;
    match &mut vault.recovery_state {
        RecoveryState::Pending {
            new_owner,
            approvals,
            malicious_approvals,
            start_timestamp,
            recovery_id,
        } => {
            if contains_id(approvals, guardian) {
                return Err(ErrorCode::DuplicateApproval);
            }
            approvals.push(guardian);
            if approvals.len() >= threshold as usize && now >= *start_timestamp && now
                - *start_timestamp >= timelock {
                done = true;
                target = *new_owner;
            }
        },
        _ => {
            return Err(ErrorCode::NoActiveRecovery);
        },
    }
    if done {
        vault.owner = target;
        vault.recovery_state = RecoveryState::Completed;
        let cmds = build_transfers(&vault.assets);
        proof {
            assert(vault@ =~~= old(vault)@.approve_state(guardian, now));
        }
        Ok(Some(cmds))
    } else {
        proof {
            let p = old(vault)@.recovery->Pending_p;
            assert(distinct_ids(p.approvals.push(guardian)));
            assert(ids_within(p.approvals.push(guardian), old(vault)@.guardians));
            assert(vault@ =~~= old(vault)@.approve_state(guardian, now));
        }
        Ok(Option::None)
    }
}

/// Records `signer`'s vote that `guardian` behaved maliciously during the
/// pending recovery.  Best-effort while no recovery is pending: the call
/// succeeds and changes nothing.  The vote that brings the count to the
/// slashing threshold returns the forfeiture signal, exactly once per round;
/// acting on it is an external slashing process's part.
pub fn mark_malicious(vault: &mut Vault, signer: AccountId, guardian: AccountId) -> (r: Result<
    Option<GuardianSlashedEvent>,
    ErrorCode,
>)
    requires
        old(vault)@.inv(),
    ensures
        final(vault)@.inv(),
        final(vault)@ == old(vault)@.mark_state(signer, guardian),
        (match old(vault)@.mark_result(signer, guardian) {
            MarkResult::Rejected { err } => r == Err::<Option<GuardianSlashedEvent>, ErrorCode>(
                err,
            ),
            MarkResult::Ignored => r == Ok::<Option<GuardianSlashedEvent>, ErrorCode>(
                Option::None,
            ),
            MarkResult::Recorded { slashed } => r == Ok::<Option<GuardianSlashedEvent>, ErrorCode>(
                slashed,
            ),
        }),
{
    if !contains_id(&vault.guardians, signer) {
        return Err(ErrorCode::Unauthorized);
    }
    let vault_id = vault.vault_id;
    let stake_amount = vault.stake_amount;
    let mut reached = false;
    match &mut vault.recovery_state {
        RecoveryState::Pending {
            new_owner,
            approvals,
            malicious_approvals,
            start_timestamp,
            recovery_id,
        } => {
            if contains_id(malicious_approvals, signer) {
                return Err(ErrorCode::DuplicateApproval);
            }
            malicious_approvals.push(signer);
            if malicious_approvals.len() == MALICIOUS_VOTES {
                reached = true;
            }
            proof {
                let p = old(vault)@.recovery->Pending_p;
                assert(distinct_ids(p.malicious_approvals.push(signer)));
                assert(ids_within(p.malicious_approvals.push(signer), old(vault)@.guardians));
            }
        },
        _ => {
            return Ok(Option::None);
        },
    }
    proof {
        assert(vault@ =~~= old(vault)@.mark_state(signer, guardian));
    }
    if reached {
        Ok(Some(GuardianSlashedEvent { vault_id, guardian, amount: stake_amount }))
    } else {
        Ok(Option::None)
    }
}

/// The public inactivity watchdog: callable by anyone, with no authorization
/// check, and idempotent before the window elapses.  Once `now` reaches
/// `last_active_timestamp + inactivity_period`, it behaves exactly like a
/// local initiation targeting the backup wallet, superseding any pending
/// round; before that it is a no-op, not an error.
pub fn check_inactivity(vault: &mut Vault, now: u64)
    requires
        old(vault)@.inv(),
        old(vault).recovery_id < u64::MAX,
    ensures
        final(vault)@.inv(),
        final(vault)@ == old(vault)@.inactivity_step(now),
{
    if now >= vault.last_active_timestamp && now - vault.last_active_timestamp
        >= vault.inactivity_period {
        let backup = vault.backup_wallet;
        begin_round(vault, backup, now);
    }
}

/// Refreshes the owner's activity clock; only the owner may.
pub fn update_last_active(vault: &mut Vault, caller: AccountId, now: u64) -> (r: Result<
    (),
    ErrorCode,
>)
    requires
        old(vault)@.inv(),
    ensures
        final(vault)@.inv(),
        caller == old(vault).owner ==> {
            &&& r == Ok::<(), ErrorCode>(())
            &&& final(vault)@ == old(vault)@.touch_step(now)
        },
        caller != old(vault).owner ==> {
            &&& r == Err::<(), ErrorCode>(ErrorCode::Unauthorized)
            &&& final(vault)@ == old(vault)@
        },
{
    if caller != vault.owner {
        return Err(ErrorCode::Unauthorized);
    }
    vault.last_active_timestamp = now;
    proof {
        assert(vault@ =~~= old(vault)@.touch_step(now));
    }
    Ok(())
}

/// Admits a guardian's stake deposit: the caller must be a guardian and the
/// amount must reach the configured minimum.  On `Ok` the runtime forwards
/// exactly `amount` to the staking transport; the vault itself is unchanged.
pub fn stake_guardian_oft(vault: &Vault, guardian: AccountId, amount: u64) -> (r: Result<
    (),
    ErrorCode,
>)
    ensures
        !vault@.guardians.contains(guardian) ==> r == Err::<(), ErrorCode>(ErrorCode::Unauthorized),
        vault@.guardians.contains(guardian) && amount < vault.stake_amount ==> r == Err::<
            (),
            ErrorCode,
        >(ErrorCode::InsufficientStake),
        vault@.guardians.contains(guardian) && amount >= vault.stake_amount ==> r == Ok::<
            (),
            ErrorCode,
        >(()),
{
    if !contains_id(&vault.guardians, guardian) {
        return Err(ErrorCode::Unauthorized);
    }
    if amount < vault.stake_amount {
        return Err(ErrorCode::InsufficientStake);
    }
    Ok(())
}

/// Index of the binding for chain `eid`, if one exists.
fn find_peer(peers: &Vec<PeerInfo>, eid: u32) -> (r: Option<usize>)
    ensures
        (match r {
            Some(i) => i < peers@.len() && peers@[i as int].eid == eid,
            Option::None => forall|j: int| 0 <= j < peers@.len() ==> peers@[j].eid != eid,
        }),
{
    let mut i: usize = 0;
    while i < peers.len()
        invariant
            0 <= i <= peers@.len(),
            forall|j: int| 0 <= j < i ==> peers@[j].eid != eid,
        decreases peers@.len() - i,
    {
        if peers[i].eid == eid {
            return Some(i);
        }
        i = i + 1;
    }
    Option::None
}

/// A binding authorizing `sender` on chain `eid` exists.
fn peer_match(peers: &Vec<PeerInfo>, eid: u32, sender: AccountId) -> (r: bool)
    ensures
        r == exists|i: int|
            0 <= i < peers@.len() && peers@[i].eid == eid && peers@[i].peer == sender,
{
    let mut i: usize = 0;
    while i < peers.len()
        invariant
            0 <= i <= peers@.len(),
            forall|j: int| 0 <= j < i ==> !(peers@[j].eid == eid && peers@[j].peer == sender),
        decreases peers@.len() - i,
    {
        if peers[i].eid == eid && peers[i].peer == sender {
            return true;
        }
        i = i + 1;
    }
    false
}

/// Creates or overwrites the one trusted counterparty binding for chain
/// `eid`; only the owner may.  Afterwards exactly `peer` is authorized on
/// that chain, and the bindings of every other chain are untouched.
pub fn set_peer(vault: &mut Vault, caller: AccountId, eid: u32, peer: AccountId) -> (r: Result<
    (),
    ErrorCode,
>)
    requires
        old(vault)@.inv(),
    ensures
        final(vault)@.inv(),
        caller != old(vault).owner ==> {
            &&& r == Err::<(), ErrorCode>(ErrorCode::Unauthorized)
            &&& final(vault)@ == old(vault)@
        },
        caller == old(vault).owner ==> {
            &&& r == Ok::<(), ErrorCode>(())
            &&& (forall|s: AccountId| final(vault)@.source_authorized(eid, s) <==> s == peer)
            &&& (forall|e: u32, s: AccountId|
                e != eid ==> (final(vault)@.source_authorized(e, s)
                    <==> old(vault)@.source_authorized(e, s)))
            &&& final(vault)@ == (VaultModel { peers: final(vault)@.peers, ..old(vault)@ })
        },
{
    if caller != vault.owner {
        return Err(ErrorCode::Unauthorized);
    }
    let binding = PeerInfo { vault: vault.vault_id, eid, peer };
    let found = find_peer(&vault.peers, eid);
    match found {
        Some(i) => {
            vault.peers.set(i, binding);
            proof {
                let ps = old(vault)@.peers;
                let qs = vault@.peers;
                let ix = i as int;
                assert(qs == ps.update(ix, binding));
                assert forall|s: AccountId| vault@.source_authorized(eid, s) implies s == peer by {
                    let j = choose|j: int|
                        0 <= j < qs.len() && qs[j].eid == eid && qs[j].peer == s;
                    if j != ix {
                        assert(ps[j].eid == eid);
                        assert(ps[ix].eid == eid);
                    }
                };
                assert forall|s: AccountId| s == peer implies vault@.source_authorized(
                    eid,
                    s,
                ) by {
                    assert(qs[ix].eid == eid && qs[ix].peer == peer);
                };
                assert forall|e: u32, s: AccountId| e != eid implies (vault@.source_authorized(
                    e,
                    s,
                ) <==> old(vault)@.source_authorized(e, s)) by {
                    if vault@.source_authorized(e, s) {
                        let j = choose|j: int|
                            0 <= j < qs.len() && qs[j].eid == e && qs[j].peer == s;
                        assert(j != ix);
                        assert(ps[j].eid == e && ps[j].peer == s);
                    }
                    if old(vault)@.source_authorized(e, s) {
                        let j = choose|j: int|
                            0 <= j < ps.len() && ps[j].eid == e && ps[j].peer == s;
                        assert(ps[ix].eid == eid);
                        assert(j != ix);
                        assert(qs[j].eid == e && qs[j].peer == s);
                    }
                };
            }
            Ok(())
        },
        Option::None => {
            vault.peers.push(binding);
            proof {
                let ps = old(vault)@.peers;
                let qs = vault@.peers;
                let n = ps.len() as int;
                assert(qs == ps.push(binding));
                assert forall|s: AccountId| vault@.source_authorized(eid, s) implies s == peer by {
                    let j = choose|j: int|
                        0 <= j < qs.len() && qs[j].eid == eid && qs[j].peer == s;
                    if j < n {
                        assert(ps[j].eid == eid);
                    }
                };
                assert forall|s: AccountId| s == peer implies vault@.source_authorized(
                    eid,
                    s,
                ) by {
                    assert(qs[n].eid == eid && qs[n].peer == peer);
                };
                assert forall|e: u32, s: AccountId| e != eid implies (vault@.source_authorized(
                    e,
                    s,
                ) <==> old(vault)@.source_authorized(e, s)) by {
                    if vault@.source_authorized(e, s) {
                        let j = choose|j: int|
                            0 <= j < qs.len() && qs[j].eid == e && qs[j].peer == s;
                        assert(j < n);
                        assert(ps[j].eid == e && ps[j].peer == s);
                    }
                    if old(vault)@.source_authorized(e, s) {
                        let j = choose|j: int|
                            0 <= j < ps.len() && ps[j].eid == e && ps[j].peer == s;
                        assert(qs[j].eid == e && qs[j].peer == s);
                    }
                };
            }
            Ok(())
        },
    }
}

/// The cross-chain receive gate.  A delivery is accepted only from a sender
/// bound to its source chain in the peer registry, and only when its payload
/// decodes to a message naming this vault.  An `Initiate` message opens a
/// fresh round exactly like a local initiation.  An `Approve` message is
/// acknowledged but never credited toward the local quorum — remote guardian
/// identities have no mapping onto the local guardian set — and in
/// particular one carrying a stale fencing token changes nothing; neither
/// case errors the receive pipeline, which must not reject a delivery merely
/// because local state moved on.
pub fn lz_receive(vault: &mut Vault, params: &LzReceiveParams, now: u64) -> (r: Result<
    (),
    ErrorCode,
>)
    requires
        old(vault)@.inv(),
        old(vault).recovery_id < u64::MAX,
    ensures
        final(vault)@.inv(),
        !old(vault)@.source_authorized(params.src_eid, params.sender) ==> {
            &&& r == Err::<(), ErrorCode>(ErrorCode::UnauthorizedSource)
            &&& final(vault)@ == old(vault)@
        },
        old(vault)@.source_authorized(params.src_eid, params.sender) ==> (match message_of(
            params.message@,
        ) {
            Option::None => r == Err::<(), ErrorCode>(ErrorCode::InvalidVault) && final(vault)@
                == old(vault)@,
            Some(m) => {
                &&& m.vault_id != old(vault).vault_id ==> r == Err::<(), ErrorCode>(
                    ErrorCode::InvalidVault,
                ) && final(vault)@ == old(vault)@
                &&& m.vault_id == old(vault).vault_id && m.action is Initiate ==> r == Ok::<
                    (),
                    ErrorCode,
                >(()) && final(vault)@ == old(vault)@.initiate_step(m.new_owner, now)
                &&& m.vault_id == old(vault).vault_id && m.action is Approve ==> r == Ok::<
                    (),
                    ErrorCode,
                >(()) && final(vault)@ == old(vault)@
            },
        }),
{
    if !peer_match(&vault.peers, params.src_eid, params.sender) {
        return Err(ErrorCode::UnauthorizedSource);
    }
    let decoded = decode_message(&params.message);
    match decoded {
        Option::None => Err(ErrorCode::InvalidVault),
        Some(m) => {
            if !(m.vault_id == vault.vault_id) {
                return Err(ErrorCode::InvalidVault);
            }
            match m.action {
                RecoveryAction::Initiate => {
                    begin_round(vault, m.new_owner, now);
                    Ok(())
                },
                RecoveryAction::Approve => {
                    // Receipt acknowledged only: remote approvals carry no
                    // local guardian identity, so they never mutate the vote
                    // lists, whether their fencing token is current or stale.
                    Ok(())
                },
            }
        },
    }
}

} // verus!
