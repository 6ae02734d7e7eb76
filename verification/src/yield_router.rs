use vstd::prelude::*;

use crate::address::Address;

verus! {

/// A registered yield pool: an external venue with a capacity cap, a
/// current total value locked, a risk score on a 1-10 scale and an APY
/// quote in basis points.
#[derive(Clone, Copy, PartialEq, Eq, Structural, Debug)]
pub struct Pool {
    pub address: Address,
    pub current_apy: i128,
    pub risk_score: u32,
    pub max_capacity: u64,
    pub current_tvl: u64,
    pub is_active: bool,
}

/// One slice of a deposit, routed to a single pool.
#[derive(Clone, Copy, PartialEq, Eq, Structural, Debug)]
pub struct Allocation {
    pub pool: Address,
    pub amount: u64,
    pub timestamp: u64,
}

/// Why a router operation was refused.
#[derive(Clone, Copy, PartialEq, Eq, Structural, Debug)]
pub enum RouterError {
    /// Malformed input: zero amount or a risk score outside 1-10.
    Validation,
    /// The referenced pool id was never minted.
    NotFound,
}

/// A user's stored routing result: the allocation list written by their
/// most recent deposit.
pub struct UserAllocations {
    pub user: Address,
    pub allocations: Vec<Allocation>,
}

/// The router's whole state: the pool table with its monotonic 1-based id
/// counter (a pool's id is its position; pools are never removed) and one
/// allocation list per depositing user.
pub struct YieldRouter {
    pub pools: Vec<Pool>,
    pub user_allocations: Vec<UserAllocations>,
}

/// Sum of the amounts of the first `n` allocations.
pub open spec fn sum_amounts_upto(s: Seq<Allocation>, n: int) -> int
    recommends
        n <= s.len(),
    decreases n,
{
    if n <= 0 {
        0
    } else {
        sum_amounts_upto(s, n - 1) + s[n - 1].amount
    }
}

/// Sum of the simplified yield (one percent of each amount, rounded down)
/// of the first `n` allocations.
pub open spec fn sum_yield_upto(s: Seq<Allocation>, n: int) -> int
    recommends
        n <= s.len(),
    decreases n,
{
    if n <= 0 {
        0
    } else {
        sum_yield_upto(s, n - 1) + s[n - 1].amount / 100
    }
}

proof fn lemma_sum_amounts_prefix(s1: Seq<Allocation>, s2: Seq<Allocation>, n: int)
    requires
        forall|k: int| 0 <= k < n ==> s1[k] == s2[k],
    ensures
        sum_amounts_upto(s1, n) == sum_amounts_upto(s2, n),
    decreases n,
{
    if n > 0 {
        lemma_sum_amounts_prefix(s1, s2, n - 1);
    }
}

proof fn lemma_sums_mono(s: Seq<Allocation>, i: int, j: int)
    requires
        0 <= i <= j,
    ensures
        sum_amounts_upto(s, i) <= sum_amounts_upto(s, j),
        sum_yield_upto(s, i) <= sum_yield_upto(s, j),
        sum_yield_upto(s, j) <= sum_amounts_upto(s, j),
    decreases j,
{
    if j > 0 && i < j {
        lemma_sums_mono(s, i, j - 1);
    } else if j > 0 {
        lemma_sums_mono(s, i - 1, j - 1);
    }
}

pub open spec fn seq_has_user(s: Seq<UserAllocations>, user: Address) -> bool {
    exists|i: int| 0 <= i < s.len() && (#[trigger] s[i]).user == user
}

pub open spec fn seq_user_index(s: Seq<UserAllocations>, user: Address) -> int {
    choose|i: int| 0 <= i < s.len() && (#[trigger] s[i]).user == user
}

/// No two entries belong to the same user, so a user's entry, where there
/// is one, is at one well-defined position.
pub open spec fn unique_users(s: Seq<UserAllocations>) -> bool {
    forall|i: int, j: int| 0 <= i < j < s.len() ==> s[i].user != s[j].user
}

/// The allocation list stored for `user` in `s`; empty when absent.
pub open spec fn seq_user_view(s: Seq<UserAllocations>, user: Address) -> Seq<Allocation> {
    if seq_has_user(s, user) {
        s[seq_user_index(s, user)].allocations@
    } else {
        Seq::empty()
    }
}

proof fn lemma_user_index_is(s: Seq<UserAllocations>, user: Address, i: int)
    requires
        unique_users(s),
        0 <= i < s.len(),
        s[i].user == user,
    ensures
        seq_has_user(s, user),
        seq_user_index(s, user) == i,
        seq_user_view(s, user) == s[i].allocations@,
{
    assert(seq_has_user(s, user));
    let j = seq_user_index(s, user);
    assert(0 <= j < s.len() && s[j].user == user);
    if j < i {
        assert(s[j].user != s[i].user);
    } else if i < j {
        assert(s[i].user != s[j].user);
    }
}

proof fn lemma_user_view_unchanged(s1: Seq<UserAllocations>, s2: Seq<UserAllocations>, a: Address)
    requires
        unique_users(s1),
        s1.len() == s2.len(),
        forall|k: int| 0 <= k < s1.len() ==> (#[trigger] s2[k]).user == s1[k].user,
        forall|k: int|
            0 <= k < s1.len() && (#[trigger] s1[k]).user == a ==> s2[k].allocations
                == s1[k].allocations,
    ensures
        seq_user_view(s2, a) == seq_user_view(s1, a),
{
    assert(unique_users(s2));
    if seq_has_user(s1, a) {
        let j = seq_user_index(s1, a);
        assert(0 <= j < s1.len() && s1[j].user == a);
        lemma_user_index_is(s1, a, j);
        assert(s2[j].user == a);
        lemma_user_index_is(s2, a, j);
    } else {
        if seq_has_user(s2, a) {
            let j = seq_user_index(s2, a);
            assert(0 <= j < s2.len() && s2[j].user == a);
            assert(s1[j].user == a);
        }
    }
}

impl YieldRouter {
    pub open spec fn valid_pool_id(self, pool_id: u32) -> bool {
        1 <= pool_id <= self.pools@.len()
    }

    pub open spec fn spec_pool(self, pool_id: u32) -> Pool
        recommends
            self.valid_pool_id(pool_id),
    {
        self.pools@[pool_id - 1]
    }

    pub open spec fn has_user(self, user: Address) -> bool {
        seq_has_user(self.user_allocations@, user)
    }

    pub open spec fn user_index(self, user: Address) -> int {
        seq_user_index(self.user_allocations@, user)
    }

    /// The allocation list stored for `user`; empty when the user never
    /// deposited.
    pub open spec fn spec_user_allocations(self, user: Address) -> Seq<Allocation> {
        seq_user_view(self.user_allocations@, user)
    }

    pub open spec fn well_formed(self) -> bool {
        &&& self.pools@.len() <= u32::MAX
        &&& forall|i: int|
            0 <= i < self.pools@.len() ==> (#[trigger] self.pools@[i]).current_tvl
                <= self.pools@[i].max_capacity
        &&& forall|i: int, j: int|
            0 <= i < j < self.user_allocations@.len() ==> self.user_allocations@[i].user
                != self.user_allocations@[j].user
        &&& forall|i: int|
            0 <= i < self.user_allocations@.len() ==> sum_amounts_upto(
                (#[trigger] self.user_allocations@[i]).allocations@,
                self.user_allocations@[i].allocations@.len() as int,
            ) <= u64::MAX
    }

    /// An empty router with no pools and no stored allocations.
    pub fn new() -> (r: YieldRouter)
        ensures
            r.pools@.len() == 0,
            r.user_allocations@.len() == 0,
            r.well_formed(),
    {
        YieldRouter { pools: Vec::new(), user_allocations: Vec::new() }
    }

    pub open spec fn register_pool_outcome(self, risk_score: u32) -> Result<u32, RouterError> {
        if risk_score < 1 || risk_score > 10 {
            Err(RouterError::Validation)
        } else {
            Ok((self.pools@.len() + 1) as u32)
        }
    }

    /// Registers a pool (an admin action; the host authenticates `admin`)
    /// and returns the freshly minted 1-based pool id. The pool starts
    /// active with an empty book.
    pub fn register_pool(
        &mut self,
        admin: Address,
        pool_address: Address,
        initial_apy: i128,
        risk_score: u32,
        max_capacity: u64,
    ) -> (res: Result<u32, RouterError>)
        requires
            old(self).well_formed(),
            old(self).pools@.len() < u32::MAX,
        ensures
            res == old(self).register_pool_outcome(risk_score),
            final(self).well_formed(),
            res matches Err(_) ==> *final(self) == *old(self),
            res matches Ok(id) ==> ({
                &&& id == old(self).pools@.len() + 1
                &&& final(self).pools@ == old(self).pools@.push(
                    (Pool {
                        address: pool_address,
                        current_apy: initial_apy,
                        risk_score,
                        max_capacity,
                        current_tvl: 0,
                        is_active: true,
                    }),
                )
                &&& final(self).user_allocations@ == old(self).user_allocations@
            }),
    {
        if risk_score < 1 || risk_score > 10 {
            return Err(RouterError::Validation);
        }
        let new_pool_id: u32 = (self.pools.len() as u32) + 1;
        self.pools.push(
            Pool {
                address: pool_address,
                current_apy: initial_apy,
                risk_score,
                max_capacity,
                current_tvl: 0,
                is_active: true,
            },
        );
        Ok(new_pool_id)
    }

    /// The first ids among `1..=n`, at most `limit` of them, whose pools
    /// are active and within the risk tolerance, in ascending id order.
    pub open spec fn optimal_upto(self, max_risk: u32, limit: u32, n: int) -> Seq<u32>
        recommends
            n <= self.pools@.len(),
        decreases n,
    {
        if n <= 0 {
            Seq::empty()
        } else {
            let prev = self.optimal_upto(max_risk, limit, n - 1);
            if prev.len() < limit && self.pools@[n - 1].is_active && self.pools@[n - 1].risk_score
                <= max_risk {
                prev.push(n as u32)
            } else {
                prev
            }
        }
    }

    pub open spec fn optimal_pool_ids(self, max_risk: u32, limit: u32) -> Seq<u32> {
        self.optimal_upto(max_risk, limit, self.pools@.len() as int)
    }

    /// Scans the pools in id order and returns the first `limit` ids that
    /// are active and within the caller's risk tolerance; read-only.
    pub fn get_optimal_pools(&self, max_risk: u32, limit: u32) -> (res: Vec<u32>)
        requires
            self.well_formed(),
        ensures
            res@ == self.optimal_pool_ids(max_risk, limit),
    {
        let mut optimal_pools: Vec<u32> = Vec::new();
        let n = self.pools.len();
        let mut i: usize = 0;
        while i < n
            invariant
                i <= n,
                n == self.pools@.len(),
                n <= u32::MAX,
                optimal_pools@ == self.optimal_upto(max_risk, limit, i as int),
                optimal_pools@.len() <= limit,
            decreases n - i,
        {
            if optimal_pools.len() < limit as usize && self.pools[i].is_active
                && self.pools[i].risk_score <= max_risk {
                optimal_pools.push((i as u32) + 1);
            }
            i += 1;
        }
        optimal_pools
    }

    /// One routing step: fill pool `id` with as much of `remaining` as its
    /// spare capacity takes, recording the slice; inactive or unknown
    /// pools and full pools are passed over.
    pub open spec fn deposit_step(
        pools: Seq<Pool>,
        allocs: Seq<Allocation>,
        remaining: u64,
        id: u32,
        ts: u64,
    ) -> (Seq<Pool>, Seq<Allocation>, u64) {
        if !(1 <= id <= pools.len()) {
            (pools, allocs, remaining)
        } else {
            let pool = pools[id - 1];
            if !pool.is_active {
                (pools, allocs, remaining)
            } else {
                let room = pool.max_capacity - pool.current_tvl;
                let alloc_amount = if remaining <= room {
                    remaining as int
                } else {
                    room
                };
                if alloc_amount > 0 {
                    (
                        pools.update(
                            id - 1,
                            (Pool {
                                current_tvl: (pool.current_tvl + alloc_amount) as u64,
                                ..pool
                            }),
                        ),
                        allocs.push(
                            (Allocation {
                                pool: pool.address,
                                amount: alloc_amount as u64,
                                timestamp: ts,
                            }),
                        ),
                        (remaining - alloc_amount) as u64,
                    )
                } else {
                    (pools, allocs, remaining)
                }
            }
        }
    }

    /// The routing fold over the first `k` selected pool ids, starting
    /// from `pools` with `remaining` still to place.
    pub open spec fn deposit_fold(
        pools: Seq<Pool>,
        ids: Seq<u32>,
        remaining: u64,
        ts: u64,
        k: int,
    ) -> (Seq<Pool>, Seq<Allocation>, u64)
        recommends
            k <= ids.len(),
        decreases k,
    {
        if k <= 0 {
            (pools, Seq::empty(), remaining)
        } else {
            let t = Self::deposit_fold(pools, ids, remaining, ts, k - 1);
            Self::deposit_step(t.0, t.1, t.2, ids[k - 1], ts)
        }
    }

    proof fn lemma_deposit_fold_props(
        pools: Seq<Pool>,
        ids: Seq<u32>,
        remaining: u64,
        ts: u64,
        k: int,
    )
        requires
            0 <= k,
            forall|i: int|
                0 <= i < pools.len() ==> (#[trigger] pools[i]).current_tvl <= pools[i].max_capacity,
        ensures
            ({
                let t = Self::deposit_fold(pools, ids, remaining, ts, k);
                &&& t.0.len() == pools.len()
                &&& forall|i: int|
                    0 <= i < t.0.len() ==> (#[trigger] t.0[i]).current_tvl <= t.0[i].max_capacity
                &&& t.2 <= remaining
                &&& sum_amounts_upto(t.1, t.1.len() as int) + t.2 == remaining
            }),
        decreases k,
    {
        if k > 0 {
            Self::lemma_deposit_fold_props(pools, ids, remaining, ts, k - 1);
            let t0 = Self::deposit_fold(pools, ids, remaining, ts, k - 1);
            let t1 = Self::deposit_fold(pools, ids, remaining, ts, k);
            if t1.1 != t0.1 {
                assert(t1.1 == t0.1.push(t1.1.last()));
                lemma_sum_amounts_prefix(t0.1, t1.1, t0.1.len() as int);
                assert(sum_amounts_upto(t1.1, t1.1.len() as int) == sum_amounts_upto(
                    t1.1,
                    t1.1.len() - 1,
                ) + t1.1.last().amount);
            }
        }
    }

    /// The position of `user`'s entry, where one exists. The scan is
    /// linear; entries are few (one per depositing user).
    fn find_user_index(&self, user: Address) -> (res: Option<usize>)
        requires
            unique_users(self.user_allocations@),
        ensures
            res is Some <==> self.has_user(user),
            res matches Some(i) ==> ({
                &&& i < self.user_allocations@.len()
                &&& i == self.user_index(user)
                &&& self.user_allocations@[i as int].user == user
            }),
    {
        let n = self.user_allocations.len();
        let mut i: usize = 0;
        while i < n
            invariant
                i <= n,
                n == self.user_allocations@.len(),
                unique_users(self.user_allocations@),
                forall|k: int| 0 <= k < i ==> self.user_allocations@[k].user != user,
            decreases n - i,
        {
            if self.user_allocations[i].user == user {
                proof {
                    lemma_user_index_is(self.user_allocations@, user, i as int);
                }
                return Some(i);
            }
            i += 1;
        }
        proof {
            assert(!self.has_user(user));
        }
        None
    }

    /// Replaces (or creates) the stored allocation list of `user`.
    fn set_user_allocations(&mut self, user: Address, allocations: Vec<Allocation>)
        requires
            old(self).well_formed(),
            sum_amounts_upto(allocations@, allocations@.len() as int) <= u64::MAX,
        ensures
            final(self).well_formed(),
            final(self).pools@ == old(self).pools@,
            final(self).spec_user_allocations(user) == allocations@,
            forall|a: Address|
                a != user ==> final(self).spec_user_allocations(a) == old(
                    self,
                ).spec_user_allocations(a),
    {
        let found = self.find_user_index(user);
        match found {
            Some(i) => {
                let e = &mut self.user_allocations[i];
                e.allocations = allocations;
                proof {
                    let pre = old(self).user_allocations@;
                    let post = self.user_allocations@;
                    assert forall|k: int| 0 <= k < pre.len() implies (#[trigger] post[k]).user
                        == pre[k].user by {
                        if k != i as int {
                            assert(post[k] == pre[k]);
                        }
                    }
                    lemma_user_index_is(post, user, i as int);
                    assert forall|a: Address| a != user implies seq_user_view(post, a)
                        == seq_user_view(pre, a) by {
                        lemma_user_view_unchanged(pre, post, a);
                    }
                }
            },
            None => {
                self.user_allocations.push(UserAllocations { user, allocations });
                proof {
                    let pre = old(self).user_allocations@;
                    let post = self.user_allocations@;
                    let m = post.len() - 1;
                    lemma_user_index_is(post, user, m);
                    assert forall|a: Address| a != user implies seq_user_view(post, a)
                        == seq_user_view(pre, a) by {
                        if seq_has_user(pre, a) {
                            let j = seq_user_index(pre, a);
                            assert(0 <= j < pre.len() && pre[j].user == a);
                            lemma_user_index_is(pre, a, j);
                            assert(post[j].user == a);
                            lemma_user_index_is(post, a, j);
                        } else {
                            if seq_has_user(post, a) {
                                let j = seq_user_index(post, a);
                                assert(0 <= j < post.len() && post[j].user == a);
                                assert(j != m);
                                assert(pre[j].user == a);
                            }
                        }
                    }
                }
            },
        }
    }

    /// Deposits `amount` for `user` (the authenticated caller), routing it
    /// across the first five pools within `max_risk` in id order: each
    /// pool takes as much as its spare capacity allows until the amount is
    /// placed. The resulting allocation list is stored for the user and
    /// returned; whatever found no room stays unplaced.
    pub fn deposit(
        &mut self,
        user: Address,
        token: Address,
        amount: u64,
        max_risk: u32,
        now: u64,
    ) -> (res: Result<Vec<Allocation>, RouterError>)
        requires
            old(self).well_formed(),
        ensures
            final(self).well_formed(),
            res is Err <==> (amount == 0 || max_risk < 1 || max_risk > 10),
            res matches Err(e) ==> e == RouterError::Validation && *final(self) == *old(self),
            res matches Ok(v) ==> ({
                let ids = old(self).optimal_pool_ids(max_risk, 5);
                let t = Self::deposit_fold(old(self).pools@, ids, amount, now, ids.len() as int);
                &&& v@ == t.1
                &&& final(self).pools@ == t.0
                &&& final(self).spec_user_allocations(user) == t.1
                &&& forall|a: Address|
                    a != user ==> final(self).spec_user_allocations(a) == old(
                        self,
                    ).spec_user_allocations(a)
            }),
    {
        if amount == 0 {
            return Err(RouterError::Validation);
        }
        if max_risk < 1 || max_risk > 10 {
            return Err(RouterError::Validation);
        }
        let pool_ids = self.get_optimal_pools(max_risk, 5);
        let ghost ids = pool_ids@;
        let ghost pools0 = self.pools@;
        let mut allocations: Vec<Allocation> = Vec::new();
        let mut remaining = amount;
        let n = pool_ids.len();
        let mut i: usize = 0;
        while i < n
            invariant
                i <= n,
                n == ids.len(),
                pool_ids@ == ids,
                (self.pools@, allocations@, remaining) == Self::deposit_fold(
                    pools0,
                    ids,
                    amount,
                    now,
                    i as int,
                ),
                self.user_allocations@ == old(self).user_allocations@,
                forall|k: int|
                    0 <= k < pools0.len() ==> (#[trigger] pools0[k]).current_tvl
                        <= pools0[k].max_capacity,
            decreases n - i,
        {
            proof {
                Self::lemma_deposit_fold_props(pools0, ids, amount, now, i as int);
            }
            let pool_id = pool_ids[i];
            if pool_id >= 1 && pool_id as usize <= self.pools.len() {
                let pidx = (pool_id - 1) as usize;
                if self.pools[pidx].is_active {
                    let room = self.pools[pidx].max_capacity - self.pools[pidx].current_tvl;
                    let allocation_amount = if remaining <= room {
                        remaining
                    } else {
                        room
                    };
                    if allocation_amount > 0 {
                        let pool_address = self.pools[pidx].address;
                        let p = &mut self.pools[pidx];
                        p.current_tvl = p.current_tvl + allocation_amount;
                        allocations.push(
                            Allocation { pool: pool_address, amount: allocation_amount, timestamp: now },
                        );
                        remaining = remaining - allocation_amount;
                    }
                }
            }
            i += 1;
        }
        proof {
            Self::lemma_deposit_fold_props(pools0, ids, amount, now, n as int);
        }
        let stored = copy_allocations(&allocations);
        self.set_user_allocations(user, stored);
        Ok(allocations)
    }

    /// Reports whether `user` (the authenticated caller) has anything to
    /// rebalance: their stored allocation list is non-empty. Moving the
    /// funds themselves is left to the pools; the router's book does not
    /// change.
    pub fn rebalance(&self, user: Address, max_risk: u32) -> (res: bool)
        requires
            self.well_formed(),
        ensures
            res == (self.spec_user_allocations(user).len() > 0),
    {
        let allocations = self.get_user_allocations(user);
        allocations.len() > 0
    }

    /// The simplified yield of `user`'s current allocations: one percent
    /// of each slice, rounded down, summed; read-only.
    pub fn harvest_yield(&self, user: Address) -> (res: u64)
        requires
            self.well_formed(),
        ensures
            res == sum_yield_upto(
                self.spec_user_allocations(user),
                self.spec_user_allocations(user).len() as int,
            ),
    {
        let allocations = self.get_user_allocations(user);
        let ghost s = self.spec_user_allocations(user);
        proof {
            if self.has_user(user) {
                let j = self.user_index(user);
                assert(0 <= j < self.user_allocations@.len() && self.user_allocations@[j].user
                    == user);
                assert(sum_amounts_upto(s, s.len() as int) <= u64::MAX);
            }
        }
        let mut total_yield: u64 = 0;
        let n = allocations.len();
        let mut i: usize = 0;
        while i < n
            invariant
                i <= n,
                n == s.len(),
                allocations@ == s,
                sum_amounts_upto(s, s.len() as int) <= u64::MAX,
                total_yield == sum_yield_upto(s, i as int),
                total_yield <= sum_amounts_upto(s, i as int),
            decreases n - i,
        {
            proof {
                lemma_sums_mono(s, i as int + 1, s.len() as int);
                lemma_sums_mono(s, i as int, i as int + 1);
            }
            total_yield = total_yield + allocations[i].amount / 100;
            i += 1;
        }
        total_yield
    }

    pub open spec fn update_pool_apy_outcome(self, pool_id: u32) -> Result<(), RouterError> {
        if !self.valid_pool_id(pool_id) {
            Err(RouterError::NotFound)
        } else {
            Ok(())
        }
    }

    /// Overwrites a pool's APY quote (an admin action; the host
    /// authenticates `admin`).
    pub fn update_pool_apy(&mut self, admin: Address, pool_id: u32, new_apy: i128) -> (res: Result<
        (),
        RouterError,
    >)
        requires
            old(self).well_formed(),
        ensures
            res == old(self).update_pool_apy_outcome(pool_id),
            final(self).well_formed(),
            res matches Err(_) ==> *final(self) == *old(self),
            res matches Ok(_) ==> ({
                &&& final(self).pools@ == old(self).pools@.update(
                    pool_id - 1,
                    (Pool { current_apy: new_apy, ..old(self).spec_pool(pool_id) }),
                )
                &&& final(self).user_allocations@ == old(self).user_allocations@
            }),
    {
        if pool_id == 0 || pool_id as usize > self.pools.len() {
            return Err(RouterError::NotFound);
        }
        let idx = (pool_id - 1) as usize;
        let p = &mut self.pools[idx];
        p.current_apy = new_apy;
        Ok(())
    }

    /// Point lookup of a pool; read-only.
    pub fn get_pool(&self, pool_id: u32) -> (res: Result<Pool, RouterError>)
        ensures
            res is Ok <==> self.valid_pool_id(pool_id),
            res matches Ok(p) ==> p == self.spec_pool(pool_id),
            res matches Err(e) ==> e == RouterError::NotFound,
    {
        if pool_id == 0 || pool_id as usize > self.pools.len() {
            return Err(RouterError::NotFound);
        }
        Ok(self.pools[(pool_id - 1) as usize])
    }

    /// The allocation list stored for `user`, empty when the user never
    /// deposited; read-only.
    pub fn get_user_allocations(&self, user: Address) -> (res: Vec<Allocation>)
        requires
            self.well_formed(),
        ensures
            res@ == self.spec_user_allocations(user),
    {
        let found = self.find_user_index(user);
        match found {
            Some(i) => copy_allocations(&self.user_allocations[i].allocations),
            None => Vec::new(),
        }
    }

    /// The registered risk score of a pool; read-only.
    pub fn calculate_risk(&self, pool_id: u32) -> (res: Result<u32, RouterError>)
        ensures
            res is Ok <==> self.valid_pool_id(pool_id),
            res matches Ok(r) ==> r == self.spec_pool(pool_id).risk_score,
            res matches Err(e) ==> e == RouterError::NotFound,
    {
        if pool_id == 0 || pool_id as usize > self.pools.len() {
            return Err(RouterError::NotFound);
        }
        Ok(self.pools[(pool_id - 1) as usize].risk_score)
    }
}

/// Element-wise copy of an allocation list.
fn copy_allocations(v: &Vec<Allocation>) -> (res: Vec<Allocation>)
    ensures
        res@ == v@,
{
    let mut res: Vec<Allocation> = Vec::new();
    let mut i: usize = 0;
    while i < v.len()
        invariant
            i <= v@.len(),
            res@ == v@.take(i as int),
        decreases v@.len() - i,
    {
        res.push(v[i]);
        proof {
            assert(res@ =~= v@.take(i as int + 1));
        }
        i += 1;
    }
    proof {
        assert(res@ =~= v@);
    }
    res
}

} // verus!
