use vstd::prelude::*;

use crate::address::Address;

verus! {

/// Number of distinct governor approvals required before an emergency
/// proposal may be executed (3 of at least 5 governors).
pub const MULTISIG_THRESHOLD: u32 = 3;

/// Minimum size of the governor set accepted at initialization.
pub const MIN_GOVERNORS: usize = 5;

/// Lifecycle status of a lock. `Active` is the only non-terminal status:
/// a lock moves at most once, to `Unlocked` (ordinary withdrawal) or to
/// `EmergencyUnlocked` (forced by a governor quorum), and stays there.
#[derive(Clone, Copy, PartialEq, Eq, Structural, Debug)]
pub enum LockStatus {
    Active,
    Unlocked,
    EmergencyUnlocked,
}

/// A time lock over an abstract integer balance.
pub struct Lock {
    pub user: Address,
    pub amount: u64,
    pub unlock_time: u64,
    pub status: LockStatus,
    pub reason: String,
}

/// An emergency-unlock proposal. It references its target lock by id and
/// collects approvals, one per governor; `executed` flips to `true` at most
/// once, when the unlock is carried out.
pub struct EmergencyProposal {
    pub lock_id: u32,
    pub proposer: Address,
    pub approvals: Vec<Address>,
    pub required_approvals: u32,
    pub executed: bool,
    pub timestamp: u64,
}

/// Why an operation was refused.
#[derive(Clone, Copy, PartialEq, Eq, Structural, Debug)]
pub enum VaultError {
    /// The caller is not the principal the action demands, or lacks
    /// governor standing.
    Authorization,
    /// Malformed input: zero amount, past-dated unlock time, undersized
    /// governor set.
    Validation,
    /// The referenced lock or proposal id was never minted.
    NotFound,
    /// The action is invalid for the current status: withdrawal before
    /// maturity or on a non-active lock, work on an executed proposal, a
    /// duplicate vote, execution against a non-active lock.
    StateConflict,
    /// Execution was attempted before the approval quorum was reached.
    ThresholdNotMet,
}

/// The structured event a mutating operation emits, recorded in creation
/// order for the host to publish.
#[derive(Clone, Copy, PartialEq, Eq, Structural, Debug)]
pub enum VaultEvent {
    LockCreated { user: Address, lock_id: u32, amount: u64, unlock_time: u64 },
    FundsWithdrawn { user: Address, lock_id: u32, amount: u64 },
    ProposalCreated { proposer: Address, proposal_id: u32, lock_id: u32 },
    ProposalApproved { governor: Address, proposal_id: u32, approvals: usize },
    EmergencyUnlocked { user: Address, lock_id: u32, amount: u64 },
}

/// The vault's whole state: governance configuration, the two record
/// tables with their monotonic 1-based id counters (a record's id is its
/// position; records are never removed, so ids are minted in creation order
/// and never reused), and the log of emitted events.
pub struct LockVault {
    pub admin: Option<Address>,
    pub governors: Vec<Address>,
    pub locks: Vec<Lock>,
    pub proposals: Vec<EmergencyProposal>,
    pub events: Vec<VaultEvent>,
}

impl LockVault {
    /// A lock id is valid when it has been minted: ids are 1-based and
    /// contiguous up to the number of locks ever created.
    pub open spec fn valid_lock_id(self, lock_id: u32) -> bool {
        1 <= lock_id <= self.locks@.len()
    }

    pub open spec fn spec_lock(self, lock_id: u32) -> Lock
        recommends
            self.valid_lock_id(lock_id),
    {
        self.locks@[lock_id - 1]
    }

    pub open spec fn valid_proposal_id(self, proposal_id: u32) -> bool {
        1 <= proposal_id <= self.proposals@.len()
    }

    pub open spec fn spec_proposal(self, proposal_id: u32) -> EmergencyProposal
        recommends
            self.valid_proposal_id(proposal_id),
    {
        self.proposals@[proposal_id - 1]
    }

    pub open spec fn is_governor_spec(self, a: Address) -> bool {
        self.governors@.contains(a)
    }

    pub open spec fn has_approved(p: EmergencyProposal, a: Address) -> bool {
        p.approvals@.contains(a)
    }

    /// A lock's balance is positive exactly while it is active: creation
    /// demands a positive amount, and the one transition out of `Active`
    /// zeroes it.
    pub open spec fn lock_inv(l: Lock) -> bool {
        (l.status is Active) <==> l.amount > 0
    }

    /// Every proposal references a minted lock, carries the fixed
    /// threshold, and holds a duplicate-free approval list seeded with its
    /// proposer.
    pub open spec fn proposal_inv(self, p: EmergencyProposal) -> bool {
        &&& self.valid_lock_id(p.lock_id)
        &&& p.required_approvals == MULTISIG_THRESHOLD
        &&& p.approvals@.len() >= 1
        &&& p.approvals@[0] == p.proposer
        &&& forall|i: int, j: int|
            0 <= i < j < p.approvals@.len() ==> p.approvals@[i] != p.approvals@[j]
    }

    pub open spec fn well_formed(self) -> bool {
        &&& self.locks@.len() <= u32::MAX
        &&& self.proposals@.len() <= u32::MAX
        &&& forall|i: int|
            0 <= i < self.locks@.len() ==> Self::lock_inv(#[trigger] self.locks@[i])
        &&& forall|i: int|
            0 <= i < self.proposals@.len() ==> self.proposal_inv(#[trigger] self.proposals@[i])
    }

    /// An empty vault: not configured, no records, no events.
    pub fn new() -> (v: LockVault)
        ensures
            v.admin is None,
            v.governors@.len() == 0,
            v.locks@.len() == 0,
            v.proposals@.len() == 0,
            v.events@.len() == 0,
            v.well_formed(),
    {
        LockVault {
            admin: None,
            governors: Vec::new(),
            locks: Vec::new(),
            proposals: Vec::new(),
            events: Vec::new(),
        }
    }

    pub open spec fn initialize_outcome(self, governors: Seq<Address>) -> Result<
        (),
        VaultError,
    > {
        if governors.len() < MIN_GOVERNORS {
            Err(VaultError::Validation)
        } else {
            Ok(())
        }
    }

    /// Stores the governance configuration: the admin principal and the
    /// governor set. The caller must have authenticated as `admin` (a host
    /// concern). A later call replaces the configuration wholesale.
    pub fn initialize(&mut self, admin: Address, governors: Vec<Address>) -> (res: Result<
        (),
        VaultError,
    >)
        requires
            old(self).well_formed(),
        ensures
            res == old(self).initialize_outcome(governors@),
            final(self).well_formed(),
            res matches Err(_) ==> *final(self) == *old(self),
            res matches Ok(_) ==> ({
                &&& final(self).admin == Some(admin)
                &&& final(self).governors@ == governors@
                &&& final(self).locks@ == old(self).locks@
                &&& final(self).proposals@ == old(self).proposals@
                &&& final(self).events@ == old(self).events@
            }),
    {
        if governors.len() < MIN_GOVERNORS {
            return Err(VaultError::Validation);
        }
        self.admin = Some(admin);
        self.governors = governors;
        Ok(())
    }

    pub open spec fn lock_funds_outcome(self, amount: u64, unlock_time: u64, now: u64) -> Result<
        u32,
        VaultError,
    > {
        if amount == 0 {
            Err(VaultError::Validation)
        } else if unlock_time <= now {
            Err(VaultError::Validation)
        } else {
            Ok((self.locks@.len() + 1) as u32)
        }
    }

    /// Creates a lock for `user` (the authenticated caller) and returns the
    /// freshly minted 1-based lock id. Rejects a zero amount and an unlock
    /// time that is not in the future of `now`, the current ledger
    /// timestamp.
    pub fn lock_funds(
        &mut self,
        user: Address,
        amount: u64,
        unlock_time: u64,
        reason: String,
        now: u64,
    ) -> (res: Result<u32, VaultError>)
        requires
            old(self).well_formed(),
            old(self).locks@.len() < u32::MAX,
        ensures
            res == old(self).lock_funds_outcome(amount, unlock_time, now),
            final(self).well_formed(),
            res matches Err(_) ==> *final(self) == *old(self),
            res matches Ok(id) ==> ({
                &&& id == old(self).locks@.len() + 1
                &&& final(self).locks@ == old(self).locks@.push(
                    (Lock { user, amount, unlock_time, status: LockStatus::Active, reason }),
                )
                &&& final(self).events@ == old(self).events@.push(
                    (VaultEvent::LockCreated { user, lock_id: id, amount, unlock_time }),
                )
                &&& final(self).proposals@ == old(self).proposals@
                &&& final(self).governors@ == old(self).governors@
                &&& final(self).admin == old(self).admin
            }),
    {
        if amount == 0 {
            return Err(VaultError::Validation);
        }
        if unlock_time <= now {
            return Err(VaultError::Validation);
        }
        let new_lock_id: u32 = (self.locks.len() as u32) + 1;
        self.locks.push(Lock { user, amount, unlock_time, status: LockStatus::Active, reason });
        self.events.push(VaultEvent::LockCreated { user, lock_id: new_lock_id, amount, unlock_time });
        Ok(new_lock_id)
    }

    pub open spec fn withdraw_outcome(self, caller: Address, lock_id: u32, now: u64) -> Result<
        u64,
        VaultError,
    > {
        if !self.valid_lock_id(lock_id) {
            Err(VaultError::NotFound)
        } else {
            let l = self.spec_lock(lock_id);
            if caller != l.user {
                Err(VaultError::Authorization)
            } else if now < l.unlock_time {
                Err(VaultError::StateConflict)
            } else if !(l.status is Active) {
                Err(VaultError::StateConflict)
            } else {
                Ok(l.amount)
            }
        }
    }

    /// Ordinary withdrawal after maturity, by the lock's owner. On success
    /// the lock moves to its terminal `Unlocked` status, its balance is
    /// zeroed, and the captured pre-zero amount is returned; the status
    /// guard makes a second payout impossible.
    pub fn withdraw_funds(&mut self, caller: Address, lock_id: u32, now: u64) -> (res: Result<
        u64,
        VaultError,
    >)
        requires
            old(self).well_formed(),
        ensures
            res == old(self).withdraw_outcome(caller, lock_id, now),
            final(self).well_formed(),
            res matches Err(_) ==> *final(self) == *old(self),
            res matches Ok(amount) ==> ({
                &&& amount == old(self).spec_lock(lock_id).amount
                &&& final(self).locks@ == old(self).locks@.update(
                    lock_id - 1,
                    (Lock {
                        status: LockStatus::Unlocked,
                        amount: 0,
                        ..old(self).spec_lock(lock_id)
                    }),
                )
                &&& final(self).events@ == old(self).events@.push(
                    (VaultEvent::FundsWithdrawn { user: caller, lock_id, amount }),
                )
                &&& final(self).proposals@ == old(self).proposals@
                &&& final(self).governors@ == old(self).governors@
                &&& final(self).admin == old(self).admin
            }),
    {
        if lock_id == 0 || lock_id as usize > self.locks.len() {
            return Err(VaultError::NotFound);
        }
        let idx = (lock_id - 1) as usize;
        if caller != self.locks[idx].user {
            return Err(VaultError::Authorization);
        }
        if now < self.locks[idx].unlock_time {
            return Err(VaultError::StateConflict);
        }
        match self.locks[idx].status {
            LockStatus::Active => {},
            _ => {
                return Err(VaultError::StateConflict);
            },
        }
        let amount = self.locks[idx].amount;
        let l = &mut self.locks[idx];
        l.status = LockStatus::Unlocked;
        l.amount = 0;
        self.events.push(VaultEvent::FundsWithdrawn { user: caller, lock_id, amount });
        Ok(amount)
    }

    pub open spec fn propose_outcome(self, proposer: Address, lock_id: u32) -> Result<
        u32,
        VaultError,
    > {
        if !self.is_governor_spec(proposer) {
            Err(VaultError::Authorization)
        } else if !self.valid_lock_id(lock_id) {
            Err(VaultError::NotFound)
        } else {
            Ok((self.proposals@.len() + 1) as u32)
        }
    }

    /// Opens an emergency-unlock proposal against `lock_id`, by `proposer`
    /// (the authenticated caller, who must be a governor). The target lock
    /// must exist but need not be active: that is checked only at execution
    /// time. The proposal starts with the proposer's own approval.
    pub fn create_emergency_proposal(&mut self, proposer: Address, lock_id: u32, now: u64) -> (res:
        Result<u32, VaultError>)
        requires
            old(self).well_formed(),
            old(self).proposals@.len() < u32::MAX,
        ensures
            res == old(self).propose_outcome(proposer, lock_id),
            final(self).well_formed(),
            res matches Err(_) ==> *final(self) == *old(self),
            res matches Ok(id) ==> ({
                &&& id == old(self).proposals@.len() + 1
                &&& final(self).proposals@.len() == old(self).proposals@.len() + 1
                &&& final(self).proposals@.drop_last() == old(self).proposals@
                &&& ({
                    let p = final(self).proposals@.last();
                    &&& p.lock_id == lock_id
                    &&& p.proposer == proposer
                    &&& p.approvals@.len() == 1
                    &&& p.approvals@[0] == proposer
                    &&& p.required_approvals == MULTISIG_THRESHOLD
                    &&& !p.executed
                    &&& p.timestamp == now
                })
                &&& final(self).events@ == old(self).events@.push(
                    (VaultEvent::ProposalCreated { proposer, proposal_id: id, lock_id }),
                )
                &&& final(self).locks@ == old(self).locks@
                &&& final(self).governors@ == old(self).governors@
                &&& final(self).admin == old(self).admin
            }),
    {
        if !contains_address(&self.governors, proposer) {
            return Err(VaultError::Authorization);
        }
        if lock_id == 0 || lock_id as usize > self.locks.len() {
            return Err(VaultError::NotFound);
        }
        let new_proposal_id: u32 = (self.proposals.len() as u32) + 1;
        let mut approvals: Vec<Address> = Vec::new();
        approvals.push(proposer);
        let proposal = EmergencyProposal {
            lock_id,
            proposer,
            approvals,
            required_approvals: MULTISIG_THRESHOLD,
            executed: false,
            timestamp: now,
        };
        self.proposals.push(proposal);
        self.events.push(
            VaultEvent::ProposalCreated { proposer, proposal_id: new_proposal_id, lock_id },
        );
        proof {
            assert(self.proposals@.drop_last() =~= old(self).proposals@);
        }
        Ok(new_proposal_id)
    }

    pub open spec fn approve_outcome(self, proposal_id: u32, governor: Address) -> Result<
        (),
        VaultError,
    > {
        if !self.is_governor_spec(governor) {
            Err(VaultError::Authorization)
        } else if !self.valid_proposal_id(proposal_id) {
            Err(VaultError::NotFound)
        } else {
            let p = self.spec_proposal(proposal_id);
            if p.executed {
                Err(VaultError::StateConflict)
            } else if Self::has_approved(p, governor) {
                Err(VaultError::StateConflict)
            } else {
                Ok(())
            }
        }
    }

    /// Records one approval by `governor` (the authenticated caller, who
    /// must be a governor) on an open proposal. One vote per governor: a
    /// duplicate vote is rejected, not ignored.
    pub fn approve_emergency(&mut self, proposal_id: u32, governor: Address) -> (res: Result<
        (),
        VaultError,
    >)
        requires
            old(self).well_formed(),
        ensures
            res == old(self).approve_outcome(proposal_id, governor),
            final(self).well_formed(),
            res matches Err(_) ==> *final(self) == *old(self),
            res matches Ok(_) ==> ({
                let p0 = old(self).spec_proposal(proposal_id);
                let p1 = final(self).spec_proposal(proposal_id);
                &&& final(self).proposals@.len() == old(self).proposals@.len()
                &&& forall|j: int|
                    0 <= j < old(self).proposals@.len() && j != proposal_id - 1
                        ==> final(self).proposals@[j] == old(self).proposals@[j]
                &&& p1.approvals@ == p0.approvals@.push(governor)
                &&& p1.lock_id == p0.lock_id
                &&& p1.proposer == p0.proposer
                &&& p1.required_approvals == p0.required_approvals
                &&& p1.executed == p0.executed
                &&& p1.timestamp == p0.timestamp
                &&& final(self).events@ == old(self).events@.push(
                    (VaultEvent::ProposalApproved {
                        governor,
                        proposal_id,
                        approvals: (p0.approvals@.len() + 1) as usize,
                    }),
                )
                &&& final(self).locks@ == old(self).locks@
                &&& final(self).governors@ == old(self).governors@
                &&& final(self).admin == old(self).admin
            }),
    {
        if !contains_address(&self.governors, governor) {
            return Err(VaultError::Authorization);
        }
        if proposal_id == 0 || proposal_id as usize > self.proposals.len() {
            return Err(VaultError::NotFound);
        }
        let idx = (proposal_id - 1) as usize;
        if self.proposals[idx].executed {
            return Err(VaultError::StateConflict);
        }
        if contains_address(&self.proposals[idx].approvals, governor) {
            return Err(VaultError::StateConflict);
        }
        let p = &mut self.proposals[idx];
        p.approvals.push(governor);
        let count = p.approvals.len();
        self.events.push(VaultEvent::ProposalApproved { governor, proposal_id, approvals: count });
        Ok(())
    }

    pub open spec fn execute_outcome(self, proposal_id: u32) -> Result<u64, VaultError> {
        if !self.valid_proposal_id(proposal_id) {
            Err(VaultError::NotFound)
        } else {
            let p = self.spec_proposal(proposal_id);
            if p.executed {
                Err(VaultError::StateConflict)
            } else if p.approvals@.len() < MULTISIG_THRESHOLD {
                Err(VaultError::ThresholdNotMet)
            } else if !self.valid_lock_id(p.lock_id) {
                Err(VaultError::NotFound)
            } else if !(self.spec_lock(p.lock_id).status is Active) {
                Err(VaultError::StateConflict)
            } else {
                Ok(self.spec_lock(p.lock_id).amount)
            }
        }
    }

    /// Executes an emergency unlock once the approval quorum is reached.
    /// Deliberately permissionless: who may vote and who may trigger
    /// finalization are decoupled, so any party can settle a ripe proposal.
    /// On success the target lock moves to its terminal `EmergencyUnlocked`
    /// status with a zeroed balance, the proposal is marked executed, and
    /// the captured pre-zero amount is returned.
    pub fn execute_emergency_unlock(&mut self, proposal_id: u32) -> (res: Result<u64, VaultError>)
        requires
            old(self).well_formed(),
        ensures
            res == old(self).execute_outcome(proposal_id),
            final(self).well_formed(),
            res matches Err(_) ==> *final(self) == *old(self),
            res matches Ok(amount) ==> ({
                let p = old(self).spec_proposal(proposal_id);
                &&& amount == old(self).spec_lock(p.lock_id).amount
                &&& final(self).locks@ == old(self).locks@.update(
                    p.lock_id - 1,
                    (Lock {
                        status: LockStatus::EmergencyUnlocked,
                        amount: 0,
                        ..old(self).spec_lock(p.lock_id)
                    }),
                )
                &&& final(self).proposals@ == old(self).proposals@.update(
                    proposal_id - 1,
                    (EmergencyProposal { executed: true, ..p }),
                )
                &&& final(self).events@ == old(self).events@.push(
                    (VaultEvent::EmergencyUnlocked {
                        user: old(self).spec_lock(p.lock_id).user,
                        lock_id: p.lock_id,
                        amount,
                    }),
                )
                &&& final(self).governors@ == old(self).governors@
                &&& final(self).admin == old(self).admin
            }),
    {
        if proposal_id == 0 || proposal_id as usize > self.proposals.len() {
            return Err(VaultError::NotFound);
        }
        let pidx = (proposal_id - 1) as usize;
        if self.proposals[pidx].executed {
            return Err(VaultError::StateConflict);
        }
        if self.proposals[pidx].approvals.len() < MULTISIG_THRESHOLD as usize {
            return Err(VaultError::ThresholdNotMet);
        }
        let lock_id = self.proposals[pidx].lock_id;
        if lock_id == 0 || lock_id as usize > self.locks.len() {
            return Err(VaultError::NotFound);
        }
        let lidx = (lock_id - 1) as usize;
        match self.locks[lidx].status {
            LockStatus::Active => {},
            _ => {
                return Err(VaultError::StateConflict);
            },
        }
        let amount = self.locks[lidx].amount;
        let user = self.locks[lidx].user;
        let l = &mut self.locks[lidx];
        l.status = LockStatus::EmergencyUnlocked;
        l.amount = 0;
        let p = &mut self.proposals[pidx];
        p.executed = true;
        self.events.push(VaultEvent::EmergencyUnlocked { user, lock_id, amount });
        Ok(amount)
    }

    /// Point lookup of a lock; read-only.
    pub fn get_lock(&self, lock_id: u32) -> (res: Result<&Lock, VaultError>)
        ensures
            res is Ok <==> self.valid_lock_id(lock_id),
            res matches Ok(l) ==> *l == self.spec_lock(lock_id),
            res matches Err(e) ==> e == VaultError::NotFound,
    {
        if lock_id == 0 || lock_id as usize > self.locks.len() {
            return Err(VaultError::NotFound);
        }
        Ok(&self.locks[(lock_id - 1) as usize])
    }

    /// Point lookup of a proposal; read-only.
    pub fn get_proposal(&self, proposal_id: u32) -> (res: Result<&EmergencyProposal, VaultError>)
        ensures
            res is Ok <==> self.valid_proposal_id(proposal_id),
            res matches Ok(p) ==> *p == self.spec_proposal(proposal_id),
            res matches Err(e) ==> e == VaultError::NotFound,
    {
        if proposal_id == 0 || proposal_id as usize > self.proposals.len() {
            return Err(VaultError::NotFound);
        }
        Ok(&self.proposals[(proposal_id - 1) as usize])
    }

    /// The ids among `1..=n` whose locks belong to `user`, in ascending id
    /// order.
    pub open spec fn user_lock_ids_upto(self, user: Address, n: int) -> Seq<u32>
        recommends
            n <= self.locks@.len(),
        decreases n,
    {
        if n <= 0 {
            Seq::empty()
        } else if self.locks@[n - 1].user == user {
            self.user_lock_ids_upto(user, n - 1).push(n as u32)
        } else {
            self.user_lock_ids_upto(user, n - 1)
        }
    }

    /// The ids of all locks owned by `user`, in ascending id order, which
    /// is ascending creation order: ids are minted in creation order and
    /// never reused.
    pub open spec fn user_lock_ids(self, user: Address) -> Seq<u32> {
        self.user_lock_ids_upto(user, self.locks@.len() as int)
    }

    /// Enumerates `user`'s locks by a full scan over every minted id;
    /// read-only.
    pub fn get_user_locks(&self, user: Address) -> (res: Vec<u32>)
        requires
            self.well_formed(),
        ensures
            res@ == self.user_lock_ids(user),
    {
        let mut user_locks: Vec<u32> = Vec::new();
        let n = self.locks.len();
        let mut i: usize = 0;
        while i < n
            invariant
                i <= n,
                n == self.locks@.len(),
                n <= u32::MAX,
                user_locks@ == self.user_lock_ids_upto(user, i as int),
            decreases n - i,
        {
            if self.locks[i].user == user {
                user_locks.push((i as u32) + 1);
            }
            i += 1;
        }
        user_locks
    }

    /// Law: a lookup of an id that was never minted fails `NotFound`. Ids
    /// are 1-based and contiguous up to the counters, so an id is never
    /// minted exactly when it is zero or above the counter.
    pub proof fn lemma_unknown_ids_not_found(self, lock_id: u32, proposal_id: u32)
        requires
            !self.valid_lock_id(lock_id),
            !self.valid_proposal_id(proposal_id),
        ensures
            forall|caller: Address, now: u64|
                self.withdraw_outcome(caller, lock_id, now) == Err::<u64, VaultError>(
                    VaultError::NotFound,
                ),
            forall|proposer: Address|
                self.is_governor_spec(proposer) ==> self.propose_outcome(proposer, lock_id)
                    == Err::<u32, VaultError>(VaultError::NotFound),
            forall|governor: Address|
                self.is_governor_spec(governor) ==> self.approve_outcome(proposal_id, governor)
                    == Err::<(), VaultError>(VaultError::NotFound),
            self.execute_outcome(proposal_id) == Err::<u64, VaultError>(VaultError::NotFound),
    {
    }

    /// Law: a proposal by a principal outside the governor set always
    /// fails `Authorization`, whatever lock it targets.
    pub proof fn lemma_propose_requires_governor(self, proposer: Address, lock_id: u32)
        requires
            !self.is_governor_spec(proposer),
        ensures
            self.propose_outcome(proposer, lock_id) == Err::<u32, VaultError>(
                VaultError::Authorization,
            ),
    {
    }

    /// Law (round trip): when `lock_funds(user, amount, unlock_time,
    /// reason)` succeeds with id `id`, the stored lock under `id` is
    /// exactly the active lock built from those arguments.
    pub proof fn lemma_create_then_get(
        pre: LockVault,
        post: LockVault,
        user: Address,
        amount: u64,
        unlock_time: u64,
        reason: String,
        now: u64,
        id: u32,
    )
        requires
            pre.locks@.len() < u32::MAX,
            pre.lock_funds_outcome(amount, unlock_time, now) == Ok::<u32, VaultError>(id),
            post.locks@ == pre.locks@.push(
                (Lock { user, amount, unlock_time, status: LockStatus::Active, reason }),
            ),
        ensures
            post.valid_lock_id(id),
            post.spec_lock(id) == (Lock {
                user,
                amount,
                unlock_time,
                status: LockStatus::Active,
                reason,
            }),
    {
    }

    /// Law: a successful withdrawal cannot be repeated. After the success
    /// transition, a second `withdraw_funds` on the same lock by the same
    /// owner fails `StateConflict` at every later (or earlier) timestamp:
    /// the lock's status is terminal.
    pub proof fn lemma_withdraw_only_once(
        pre: LockVault,
        post: LockVault,
        caller: Address,
        lock_id: u32,
        now: u64,
        amount: u64,
        now2: u64,
    )
        requires
            pre.withdraw_outcome(caller, lock_id, now) == Ok::<u64, VaultError>(amount),
            post.locks@ == pre.locks@.update(
                lock_id - 1,
                (Lock { status: LockStatus::Unlocked, amount: 0, ..pre.spec_lock(lock_id) }),
            ),
        ensures
            amount == pre.spec_lock(lock_id).amount,
            post.withdraw_outcome(caller, lock_id, now2) == Err::<u64, VaultError>(
                VaultError::StateConflict,
            ),
    {
    }

    /// Law (idempotent voting): after a governor's approval succeeds, the
    /// same governor's second vote on the same proposal fails
    /// `StateConflict`.
    pub proof fn lemma_approve_idempotence_guard(
        pre: LockVault,
        post: LockVault,
        proposal_id: u32,
        governor: Address,
    )
        requires
            pre.approve_outcome(proposal_id, governor) == Ok::<(), VaultError>(()),
            post.governors@ == pre.governors@,
            post.proposals@.len() == pre.proposals@.len(),
            post.spec_proposal(proposal_id).approvals@ == pre.spec_proposal(
                proposal_id,
            ).approvals@.push(governor),
            post.spec_proposal(proposal_id).executed == pre.spec_proposal(proposal_id).executed,
        ensures
            post.approve_outcome(proposal_id, governor) == Err::<(), VaultError>(
                VaultError::StateConflict,
            ),
    {
        let s = post.spec_proposal(proposal_id).approvals@;
        assert(s[s.len() - 1] == governor);
        assert(Self::has_approved(post.spec_proposal(proposal_id), governor));
    }

    /// Law: a successful execution cannot be repeated. After the success
    /// transition, a second `execute_emergency_unlock` of the same
    /// proposal fails `StateConflict`: `executed` is terminal.
    pub proof fn lemma_execute_only_once(
        pre: LockVault,
        post: LockVault,
        proposal_id: u32,
        amount: u64,
    )
        requires
            pre.execute_outcome(proposal_id) == Ok::<u64, VaultError>(amount),
            post.proposals@ == pre.proposals@.update(
                proposal_id - 1,
                (EmergencyProposal { executed: true, ..pre.spec_proposal(proposal_id) }),
            ),
        ensures
            post.execute_outcome(proposal_id) == Err::<u64, VaultError>(VaultError::StateConflict),
    {
    }

    /// Law: once a lock is emergency-unlocked, its owner can never
    /// withdraw it in the ordinary way, at any timestamp — before maturity
    /// the time guard fails, after maturity the status guard fails, and
    /// both failures are `StateConflict`.
    pub proof fn lemma_no_withdraw_after_emergency(
        pre: LockVault,
        post: LockVault,
        proposal_id: u32,
        amount: u64,
        now: u64,
    )
        requires
            pre.execute_outcome(proposal_id) == Ok::<u64, VaultError>(amount),
            post.locks@ == pre.locks@.update(
                pre.spec_proposal(proposal_id).lock_id - 1,
                (Lock {
                    status: LockStatus::EmergencyUnlocked,
                    amount: 0,
                    ..pre.spec_lock(pre.spec_proposal(proposal_id).lock_id)
                }),
            ),
        ensures
            ({
                let lock_id = pre.spec_proposal(proposal_id).lock_id;
                let owner = pre.spec_lock(lock_id).user;
                post.withdraw_outcome(owner, lock_id, now) == Err::<u64, VaultError>(
                    VaultError::StateConflict,
                )
            }),
    {
    }

    /// Law: `user_lock_ids(user)` holds exactly the minted ids whose locks
    /// belong to `user`, in strictly ascending order.
    pub proof fn lemma_user_locks_exact(self, user: Address)
        requires
            self.locks@.len() <= u32::MAX,
        ensures
            forall|id: u32|
                self.user_lock_ids(user).contains(id) <==> (self.valid_lock_id(id)
                    && self.spec_lock(id).user == user),
            forall|k1: int, k2: int|
                0 <= k1 < k2 < self.user_lock_ids(user).len() ==> self.user_lock_ids(user)[k1]
                    < self.user_lock_ids(user)[k2],
    {
        self.lemma_user_lock_ids_upto(user, self.locks@.len() as int);
    }

    proof fn lemma_user_lock_ids_upto(self, user: Address, n: int)
        requires
            0 <= n <= self.locks@.len(),
            n <= u32::MAX,
        ensures
            forall|k: int|
                0 <= k < self.user_lock_ids_upto(user, n).len() ==> 1 <= #[trigger] self
                    .user_lock_ids_upto(user, n)[k] <= n,
            forall|k1: int, k2: int|
                0 <= k1 < k2 < self.user_lock_ids_upto(user, n).len() ==> self.user_lock_ids_upto(
                    user,
                    n,
                )[k1] < self.user_lock_ids_upto(user, n)[k2],
            forall|id: u32|
                self.user_lock_ids_upto(user, n).contains(id) <==> (1 <= id <= n && self.locks@[id
                    - 1].user == user),
        decreases n,
    {
        if n > 0 {
            self.lemma_user_lock_ids_upto(user, n - 1);
            let prev = self.user_lock_ids_upto(user, n - 1);
            let cur = self.user_lock_ids_upto(user, n);
            assert forall|id: u32| cur.contains(id) implies (1 <= id <= n && self.locks@[id
                - 1].user == user) by {
                let k = choose|k: int| 0 <= k < cur.len() && cur[k] == id;
                if k < prev.len() {
                    assert(prev[k] == id);
                    assert(prev.contains(id));
                } else {
                    assert(id == n as u32);
                }
            }
            assert forall|id: u32| (1 <= id <= n && self.locks@[id - 1].user == user) implies cur
                .contains(id) by {
                if id <= n - 1 {
                    assert(prev.contains(id));
                    let k = choose|k: int| 0 <= k < prev.len() && prev[k] == id;
                    assert(cur[k] == id);
                    assert(cur.contains(id));
                } else {
                    assert(self.locks@[n - 1].user == user);
                    assert(cur[cur.len() - 1] == n as u32);
                    assert(cur.contains(id));
                }
            }
        }
    }
}

/// Linear membership scan over a principal list. The governor set is small
/// and bounded from below at initialization, so a scan is all the lookup
/// this needs.
fn contains_address(v: &Vec<Address>, a: Address) -> (found: bool)
    ensures
        found == v@.contains(a),
{
    let mut i: usize = 0;
    while i < v.len()
        invariant
            i <= v@.len(),
            forall|k: int| 0 <= k < i ==> v@[k] != a,
        decreases v@.len() - i,
    {
        if v[i] == a {
            proof {
                assert(v@[i as int] == a);
            }
            return true;
        }
        i += 1;
    }
    false
}

} // verus!
