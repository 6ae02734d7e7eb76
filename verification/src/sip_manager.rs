use vstd::prelude::*;

use crate::address::Address;

verus! {

/// Highest accepted early-withdrawal penalty, in basis points (10%).
pub const MAX_PENALTY: u32 = 1000;

/// Seconds in one day.
pub const DAILY_INTERVAL: u64 = 86400;

/// Seconds in seven days.
pub const WEEKLY_INTERVAL: u64 = 604800;

/// Seconds in thirty days.
pub const MONTHLY_INTERVAL: u64 = 2592000;

/// How often a systematic investment plan (SIP) is due for execution.
#[derive(Clone, Copy, PartialEq, Eq, Structural, Debug)]
pub enum Frequency {
    Daily,
    Weekly,
    Monthly,
}

/// Lifecycle status of a SIP.
#[derive(Clone, Copy, PartialEq, Eq, Structural, Debug)]
pub enum Status {
    Active,
    Paused,
    Cancelled,
    Completed,
}

/// A recurring deposit plan: a fixed amount is deposited at most once per
/// interval, up to an optional execution cap, with a penalty applied on
/// early withdrawal.
#[derive(Clone, Copy, PartialEq, Eq, Structural, Debug)]
pub struct Sip {
    pub user: Address,
    pub token: Address,
    pub amount: u64,
    pub frequency: Frequency,
    pub start_time: u64,
    pub last_executed: u64,
    pub total_deposits: u64,
    pub execution_count: u32,
    pub max_executions: u32,
    pub status: Status,
    pub penalty_bps: u32,
}

/// Why a SIP operation was refused.
#[derive(Clone, Copy, PartialEq, Eq, Structural, Debug)]
pub enum SipError {
    /// The caller is not the plan's owner.
    Authorization,
    /// Malformed input: zero amount or an oversized penalty.
    Validation,
    /// The referenced SIP id was never minted.
    NotFound,
    /// The action is invalid for the plan's current status.
    StateConflict,
}

/// The scheduler's whole state: the plan table with its monotonic 1-based
/// id counter (a plan's id is its position; plans are never removed).
pub struct SIPManager {
    pub sips: Vec<Sip>,
}

pub open spec fn interval_of(f: Frequency) -> u64 {
    match f {
        Frequency::Daily => DAILY_INTERVAL,
        Frequency::Weekly => WEEKLY_INTERVAL,
        Frequency::Monthly => MONTHLY_INTERVAL,
    }
}

/// The seconds that must pass between two executions of a plan.
pub fn required_interval(f: Frequency) -> (r: u64)
    ensures
        r == interval_of(f),
{
    match f {
        Frequency::Daily => DAILY_INTERVAL,
        Frequency::Weekly => WEEKLY_INTERVAL,
        Frequency::Monthly => MONTHLY_INTERVAL,
    }
}

impl SIPManager {
    pub open spec fn valid_sip_id(self, sip_id: u32) -> bool {
        1 <= sip_id <= self.sips@.len()
    }

    pub open spec fn spec_sip(self, sip_id: u32) -> Sip
        recommends
            self.valid_sip_id(sip_id),
    {
        self.sips@[sip_id - 1]
    }

    pub open spec fn well_formed(self) -> bool {
        &&& self.sips@.len() <= u32::MAX
        &&& forall|i: int|
            0 <= i < self.sips@.len() ==> (#[trigger] self.sips@[i]).penalty_bps <= MAX_PENALTY
    }

    /// An empty scheduler with no plans.
    pub fn new() -> (m: SIPManager)
        ensures
            m.sips@.len() == 0,
            m.well_formed(),
    {
        SIPManager { sips: Vec::new() }
    }

    pub open spec fn create_sip_outcome(self, amount: u64, penalty_bps: u32) -> Result<
        u32,
        SipError,
    > {
        if amount == 0 {
            Err(SipError::Validation)
        } else if penalty_bps > MAX_PENALTY {
            Err(SipError::Validation)
        } else {
            Ok((self.sips@.len() + 1) as u32)
        }
    }

    /// Creates a plan for `user` (the authenticated caller) and returns
    /// the freshly minted 1-based SIP id. Rejects a zero amount and a
    /// penalty above the cap. `now` is the current ledger timestamp.
    pub fn create_sip(
        &mut self,
        user: Address,
        token: Address,
        amount: u64,
        frequency: Frequency,
        max_executions: u32,
        penalty_bps: u32,
        now: u64,
    ) -> (res: Result<u32, SipError>)
        requires
            old(self).well_formed(),
            old(self).sips@.len() < u32::MAX,
        ensures
            res == old(self).create_sip_outcome(amount, penalty_bps),
            final(self).well_formed(),
            res matches Err(_) ==> *final(self) == *old(self),
            res matches Ok(id) ==> ({
                &&& id == old(self).sips@.len() + 1
                &&& final(self).sips@ == old(self).sips@.push(
                    (Sip {
                        user,
                        token,
                        amount,
                        frequency,
                        start_time: now,
                        last_executed: 0,
                        total_deposits: 0,
                        execution_count: 0,
                        max_executions,
                        status: Status::Active,
                        penalty_bps,
                    }),
                )
            }),
    {
        if amount == 0 {
            return Err(SipError::Validation);
        }
        if penalty_bps > MAX_PENALTY {
            return Err(SipError::Validation);
        }
        let new_sip_id: u32 = (self.sips.len() as u32) + 1;
        self.sips.push(
            Sip {
                user,
                token,
                amount,
                frequency,
                start_time: now,
                last_executed: 0,
                total_deposits: 0,
                execution_count: 0,
                max_executions,
                status: Status::Active,
                penalty_bps,
            },
        );
        Ok(new_sip_id)
    }

    pub open spec fn execute_sip_outcome(self, sip_id: u32, now: u64) -> Result<bool, SipError> {
        if !self.valid_sip_id(sip_id) {
            Err(SipError::NotFound)
        } else {
            let s = self.spec_sip(sip_id);
            if !(s.status is Active) {
                Err(SipError::StateConflict)
            } else if s.max_executions > 0 && s.execution_count >= s.max_executions {
                Ok(false)
            } else if s.last_executed > 0 && now - s.last_executed < interval_of(s.frequency) {
                Ok(false)
            } else {
                Ok(true)
            }
        }
    }

    /// Executes one due deposit of a plan. Returns `Ok(false)` without a
    /// deposit when the plan just reached its execution cap (it is then
    /// marked `Completed`) or when the interval since the last execution
    /// has not yet passed; returns `Ok(true)` after recording the deposit.
    /// The ledger timestamp `now` never runs backwards, and the counters
    /// must have room for one more deposit.
    pub fn execute_sip(&mut self, sip_id: u32, now: u64) -> (res: Result<bool, SipError>)
        requires
            old(self).well_formed(),
            old(self).valid_sip_id(sip_id) ==> ({
                let s = old(self).spec_sip(sip_id);
                &&& now >= s.last_executed
                &&& s.execution_count < u32::MAX
                &&& s.total_deposits + s.amount <= u64::MAX
            }),
        ensures
            res == old(self).execute_sip_outcome(sip_id, now),
            final(self).well_formed(),
            res matches Err(_) ==> *final(self) == *old(self),
            res matches Ok(executed) ==> ({
                let s = old(self).spec_sip(sip_id);
                if s.max_executions > 0 && s.execution_count >= s.max_executions {
                    &&& !executed
                    &&& final(self).sips@ == old(self).sips@.update(
                        sip_id - 1,
                        (Sip { status: Status::Completed, ..s }),
                    )
                } else if s.last_executed > 0 && now - s.last_executed < interval_of(s.frequency) {
                    &&& !executed
                    &&& *final(self) == *old(self)
                } else {
                    &&& executed
                    &&& final(self).sips@ == old(self).sips@.update(
                        sip_id - 1,
                        (Sip {
                            last_executed: now,
                            execution_count: (s.execution_count + 1) as u32,
                            total_deposits: (s.total_deposits + s.amount) as u64,
                            ..s
                        }),
                    )
                }
            }),
    {
        if sip_id == 0 || sip_id as usize > self.sips.len() {
            return Err(SipError::NotFound);
        }
        let idx = (sip_id - 1) as usize;
        match self.sips[idx].status {
            Status::Active => {},
            _ => {
                return Err(SipError::StateConflict);
            },
        }
        if self.sips[idx].max_executions > 0 && self.sips[idx].execution_count
            >= self.sips[idx].max_executions {
            let s = &mut self.sips[idx];
            s.status = Status::Completed;
            return Ok(false);
        }
        let time_diff = now - self.sips[idx].last_executed;
        let interval = required_interval(self.sips[idx].frequency);
        if self.sips[idx].last_executed > 0 && time_diff < interval {
            return Ok(false);
        }
        let amount = self.sips[idx].amount;
        let s = &mut self.sips[idx];
        s.last_executed = now;
        s.execution_count = s.execution_count + 1;
        s.total_deposits = s.total_deposits + amount;
        Ok(true)
    }

    pub open spec fn pause_sip_outcome(self, caller: Address, sip_id: u32) -> Result<
        (),
        SipError,
    > {
        if !self.valid_sip_id(sip_id) {
            Err(SipError::NotFound)
        } else if caller != self.spec_sip(sip_id).user {
            Err(SipError::Authorization)
        } else {
            Ok(())
        }
    }

    /// Pauses a plan, by its owner. The status is overwritten whatever it
    /// was before.
    pub fn pause_sip(&mut self, caller: Address, sip_id: u32) -> (res: Result<(), SipError>)
        requires
            old(self).well_formed(),
        ensures
            res == old(self).pause_sip_outcome(caller, sip_id),
            final(self).well_formed(),
            res matches Err(_) ==> *final(self) == *old(self),
            res matches Ok(_) ==> final(self).sips@ == old(self).sips@.update(
                sip_id - 1,
                (Sip { status: Status::Paused, ..old(self).spec_sip(sip_id) }),
            ),
    {
        if sip_id == 0 || sip_id as usize > self.sips.len() {
            return Err(SipError::NotFound);
        }
        let idx = (sip_id - 1) as usize;
        if caller != self.sips[idx].user {
            return Err(SipError::Authorization);
        }
        let s = &mut self.sips[idx];
        s.status = Status::Paused;
        Ok(())
    }

    pub open spec fn resume_sip_outcome(self, caller: Address, sip_id: u32) -> Result<
        (),
        SipError,
    > {
        if !self.valid_sip_id(sip_id) {
            Err(SipError::NotFound)
        } else if caller != self.spec_sip(sip_id).user {
            Err(SipError::Authorization)
        } else if !(self.spec_sip(sip_id).status is Paused) {
            Err(SipError::StateConflict)
        } else {
            Ok(())
        }
    }

    /// Resumes a paused plan, by its owner; only a paused plan can be
    /// resumed.
    pub fn resume_sip(&mut self, caller: Address, sip_id: u32) -> (res: Result<(), SipError>)
        requires
            old(self).well_formed(),
        ensures
            res == old(self).resume_sip_outcome(caller, sip_id),
            final(self).well_formed(),
            res matches Err(_) ==> *final(self) == *old(self),
            res matches Ok(_) ==> final(self).sips@ == old(self).sips@.update(
                sip_id - 1,
                (Sip { status: Status::Active, ..old(self).spec_sip(sip_id) }),
            ),
    {
        if sip_id == 0 || sip_id as usize > self.sips.len() {
            return Err(SipError::NotFound);
        }
        let idx = (sip_id - 1) as usize;
        if caller != self.sips[idx].user {
            return Err(SipError::Authorization);
        }
        match self.sips[idx].status {
            Status::Paused => {},
            _ => {
                return Err(SipError::StateConflict);
            },
        }
        let s = &mut self.sips[idx];
        s.status = Status::Active;
        Ok(())
    }

    pub open spec fn cancel_sip_outcome(self, caller: Address, sip_id: u32) -> Result<
        (),
        SipError,
    > {
        if !self.valid_sip_id(sip_id) {
            Err(SipError::NotFound)
        } else if caller != self.spec_sip(sip_id).user {
            Err(SipError::Authorization)
        } else {
            Ok(())
        }
    }

    /// Cancels a plan, by its owner. The status is overwritten whatever it
    /// was before.
    pub fn cancel_sip(&mut self, caller: Address, sip_id: u32) -> (res: Result<(), SipError>)
        requires
            old(self).well_formed(),
        ensures
            res == old(self).cancel_sip_outcome(caller, sip_id),
            final(self).well_formed(),
            res matches Err(_) ==> *final(self) == *old(self),
            res matches Ok(_) ==> final(self).sips@ == old(self).sips@.update(
                sip_id - 1,
                (Sip { status: Status::Cancelled, ..old(self).spec_sip(sip_id) }),
            ),
    {
        if sip_id == 0 || sip_id as usize > self.sips.len() {
            return Err(SipError::NotFound);
        }
        let idx = (sip_id - 1) as usize;
        if caller != self.sips[idx].user {
            return Err(SipError::Authorization);
        }
        let s = &mut self.sips[idx];
        s.status = Status::Cancelled;
        Ok(())
    }

    /// Point lookup of a plan; read-only.
    pub fn get_sip(&self, sip_id: u32) -> (res: Result<Sip, SipError>)
        ensures
            res is Ok <==> self.valid_sip_id(sip_id),
            res matches Ok(s) ==> s == self.spec_sip(sip_id),
            res matches Err(e) ==> e == SipError::NotFound,
    {
        if sip_id == 0 || sip_id as usize > self.sips.len() {
            return Err(SipError::NotFound);
        }
        Ok(self.sips[(sip_id - 1) as usize])
    }

    /// The ids among `1..=n` whose plans belong to `user`, in ascending id
    /// order.
    pub open spec fn user_sip_ids_upto(self, user: Address, n: int) -> Seq<u32>
        recommends
            n <= self.sips@.len(),
        decreases n,
    {
        if n <= 0 {
            Seq::empty()
        } else if self.sips@[n - 1].user == user {
            self.user_sip_ids_upto(user, n - 1).push(n as u32)
        } else {
            self.user_sip_ids_upto(user, n - 1)
        }
    }

    /// The ids of all plans owned by `user`, in ascending id order.
    pub open spec fn user_sip_ids(self, user: Address) -> Seq<u32> {
        self.user_sip_ids_upto(user, self.sips@.len() as int)
    }

    /// Enumerates `user`'s plans by a full scan over every minted id;
    /// read-only.
    pub fn get_user_sips(&self, user: Address) -> (res: Vec<u32>)
        requires
            self.well_formed(),
        ensures
            res@ == self.user_sip_ids(user),
    {
        let mut user_sips: Vec<u32> = Vec::new();
        let n = self.sips.len();
        let mut i: usize = 0;
        while i < n
            invariant
                i <= n,
                n == self.sips@.len(),
                n <= u32::MAX,
                user_sips@ == self.user_sip_ids_upto(user, i as int),
            decreases n - i,
        {
            if self.sips[i].user == user {
                user_sips.push((i as u32) + 1);
            }
            i += 1;
        }
        user_sips
    }

    pub open spec fn early_withdrawal_outcome(self, caller: Address, sip_id: u32) -> Result<
        u64,
        SipError,
    > {
        if !self.valid_sip_id(sip_id) {
            Err(SipError::NotFound)
        } else {
            let s = self.spec_sip(sip_id);
            if caller != s.user {
                Err(SipError::Authorization)
            } else {
                Ok((s.total_deposits - (s.total_deposits * s.penalty_bps) / 10000) as u64)
            }
        }
    }

    /// Withdraws all deposits of a plan before completion, by its owner:
    /// the penalty (`penalty_bps` basis points of the total) is withheld,
    /// the plan is cancelled and its total is zeroed.
    pub fn early_withdrawal(&mut self, caller: Address, sip_id: u32) -> (res: Result<
        u64,
        SipError,
    >)
        requires
            old(self).well_formed(),
        ensures
            res == old(self).early_withdrawal_outcome(caller, sip_id),
            final(self).well_formed(),
            res matches Err(_) ==> *final(self) == *old(self),
            res matches Ok(_) ==> final(self).sips@ == old(self).sips@.update(
                sip_id - 1,
                (Sip {
                    status: Status::Cancelled,
                    total_deposits: 0,
                    ..old(self).spec_sip(sip_id)
                }),
            ),
    {
        if sip_id == 0 || sip_id as usize > self.sips.len() {
            return Err(SipError::NotFound);
        }
        let idx = (sip_id - 1) as usize;
        if caller != self.sips[idx].user {
            return Err(SipError::Authorization);
        }
        let total = self.sips[idx].total_deposits;
        let bps = self.sips[idx].penalty_bps;
        proof {
            assert((total as int) * (bps as int) / 10000 <= total as int) by (nonlinear_arith)
                requires
                    0 <= bps <= 10000,
                    0 <= total,
            ;
        }
        let penalty = ((total as u128) * (bps as u128) / 10000) as u64;
        let withdrawal_amount = total - penalty;
        let s = &mut self.sips[idx];
        s.status = Status::Cancelled;
        s.total_deposits = 0;
        Ok(withdrawal_amount)
    }
}

} // verus!
