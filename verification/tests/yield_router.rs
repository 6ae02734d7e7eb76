use custody_vault::address::Address;
use custody_vault::yield_router::{Allocation, RouterError, YieldRouter};

#[test]
fn test_register_pool() {
    let mut router = YieldRouter::new();
    let admin = Address::new(1);
    let pool_addr = Address::new(2);

    let pool_id = router
        .register_pool(admin, pool_addr, 1500, 5, 1000000)
        .unwrap();
    assert_eq!(pool_id, 1);

    let pool = router.get_pool(pool_id).unwrap();
    assert_eq!(pool.current_apy, 1500);
    assert_eq!(pool.risk_score, 5);
}

#[test]
fn register_pool_rejects_bad_risk() {
    let mut router = YieldRouter::new();
    let admin = Address::new(1);
    assert_eq!(
        router.register_pool(admin, Address::new(2), 100, 0, 10),
        Err(RouterError::Validation)
    );
    assert_eq!(
        router.register_pool(admin, Address::new(2), 100, 11, 10),
        Err(RouterError::Validation)
    );
    assert_eq!(router.get_pool(1).err(), Some(RouterError::NotFound));
}

#[test]
fn optimal_pools_filter_by_risk_and_limit() {
    let mut router = YieldRouter::new();
    let admin = Address::new(1);
    for i in 0..7u64 {
        router
            .register_pool(admin, Address::new(100 + i), 1000, (i + 1) as u32, 1000)
            .unwrap();
    }
    assert_eq!(router.get_optimal_pools(3, 5), vec![1, 2, 3]);
    assert_eq!(router.get_optimal_pools(10, 5), vec![1, 2, 3, 4, 5]);
    assert_eq!(router.get_optimal_pools(10, 2), vec![1, 2]);
    assert_eq!(router.get_optimal_pools(0, 5), Vec::<u32>::new());
}

#[test]
fn deposit_fills_pools_in_order() {
    let mut router = YieldRouter::new();
    let admin = Address::new(1);
    let user = Address::new(9);
    let token = Address::new(8);
    router
        .register_pool(admin, Address::new(101), 1000, 2, 300)
        .unwrap();
    router
        .register_pool(admin, Address::new(102), 1200, 3, 500)
        .unwrap();

    let allocations = router.deposit(user, token, 700, 5, 77).unwrap();
    assert_eq!(
        allocations,
        vec![
            Allocation {
                pool: Address::new(101),
                amount: 300,
                timestamp: 77
            },
            Allocation {
                pool: Address::new(102),
                amount: 400,
                timestamp: 77
            },
        ]
    );
    assert_eq!(router.get_pool(1).unwrap().current_tvl, 300);
    assert_eq!(router.get_pool(2).unwrap().current_tvl, 400);
    assert_eq!(router.get_user_allocations(user), allocations);
    assert_eq!(
        router.get_user_allocations(admin),
        Vec::<Allocation>::new()
    );
}

#[test]
fn deposit_rejects_bad_inputs() {
    let mut router = YieldRouter::new();
    let user = Address::new(9);
    let token = Address::new(8);
    assert_eq!(
        router.deposit(user, token, 0, 5, 0),
        Err(RouterError::Validation)
    );
    assert_eq!(
        router.deposit(user, token, 100, 0, 0),
        Err(RouterError::Validation)
    );
    assert_eq!(
        router.deposit(user, token, 100, 11, 0),
        Err(RouterError::Validation)
    );
}

#[test]
fn deposit_skips_full_and_risky_pools() {
    let mut router = YieldRouter::new();
    let admin = Address::new(1);
    let user = Address::new(9);
    let token = Address::new(8);
    router
        .register_pool(admin, Address::new(101), 1000, 9, 1000)
        .unwrap();
    router
        .register_pool(admin, Address::new(102), 1200, 2, 50)
        .unwrap();

    let allocations = router.deposit(user, token, 200, 3, 5).unwrap();
    assert_eq!(
        allocations,
        vec![Allocation {
            pool: Address::new(102),
            amount: 50,
            timestamp: 5
        }]
    );
    assert_eq!(router.get_pool(1).unwrap().current_tvl, 0);
    assert_eq!(router.get_pool(2).unwrap().current_tvl, 50);
}

#[test]
fn rebalance_reports_stored_allocations() {
    let mut router = YieldRouter::new();
    let admin = Address::new(1);
    let user = Address::new(9);
    let token = Address::new(8);
    assert!(!router.rebalance(user, 5));

    router
        .register_pool(admin, Address::new(101), 1000, 2, 1000)
        .unwrap();
    router.deposit(user, token, 100, 5, 0).unwrap();
    assert!(router.rebalance(user, 5));
    assert!(!router.rebalance(admin, 5));
}

#[test]
fn harvest_yield_sums_one_percent_slices() {
    let mut router = YieldRouter::new();
    let admin = Address::new(1);
    let user = Address::new(9);
    let token = Address::new(8);
    router
        .register_pool(admin, Address::new(101), 1000, 2, 250)
        .unwrap();
    router
        .register_pool(admin, Address::new(102), 1000, 2, 10000)
        .unwrap();
    router.deposit(user, token, 609, 5, 0).unwrap();

    assert_eq!(router.harvest_yield(user), 2 + 3);
    assert_eq!(router.harvest_yield(admin), 0);
}

#[test]
fn update_pool_apy_overwrites_quote() {
    let mut router = YieldRouter::new();
    let admin = Address::new(1);
    router
        .register_pool(admin, Address::new(101), 1000, 2, 250)
        .unwrap();
    assert_eq!(router.update_pool_apy(admin, 1, -50), Ok(()));
    assert_eq!(router.get_pool(1).unwrap().current_apy, -50);
    assert_eq!(
        router.update_pool_apy(admin, 2, 10),
        Err(RouterError::NotFound)
    );
    assert_eq!(router.calculate_risk(1), Ok(2));
    assert_eq!(router.calculate_risk(2), Err(RouterError::NotFound));
}
