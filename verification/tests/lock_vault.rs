use custody_vault::address::Address;
use custody_vault::lock_vault::{LockStatus, LockVault, VaultError, VaultEvent};

fn governors5() -> Vec<Address> {
    vec![
        Address::new(1),
        Address::new(2),
        Address::new(3),
        Address::new(4),
        Address::new(5),
    ]
}

fn initialized_vault() -> LockVault {
    let mut vault = LockVault::new();
    vault
        .initialize(Address::new(99), governors5())
        .expect("five governors are enough");
    vault
}

#[test]
fn test_lock_funds() {
    let mut vault = initialized_vault();
    let user = Address::new(10);

    let now: u64 = 0;
    let unlock_time = now + 86400;
    let lock_id = vault
        .lock_funds(user, 1000, unlock_time, "EMERGENCY".to_string(), now)
        .unwrap();

    assert_eq!(lock_id, 1);

    let lock = vault.get_lock(lock_id).unwrap();
    assert_eq!(lock.amount, 1000);
}

#[test]
fn initialize_rejects_undersized_governor_set() {
    let mut vault = LockVault::new();
    let four = vec![
        Address::new(1),
        Address::new(2),
        Address::new(3),
        Address::new(4),
    ];
    assert_eq!(
        vault.initialize(Address::new(99), four),
        Err(VaultError::Validation)
    );
    assert_eq!(vault.initialize(Address::new(99), governors5()), Ok(()));
}

#[test]
fn unknown_ids_fail_not_found() {
    let vault = initialized_vault();
    assert_eq!(vault.get_lock(1).err(), Some(VaultError::NotFound));
    assert_eq!(vault.get_proposal(1).err(), Some(VaultError::NotFound));
    assert_eq!(vault.get_lock(0).err(), Some(VaultError::NotFound));

    let mut vault = initialized_vault();
    let user = Address::new(10);
    vault
        .lock_funds(user, 500, 100, "SAVINGS".to_string(), 0)
        .unwrap();
    assert_eq!(vault.get_lock(2).err(), Some(VaultError::NotFound));
    assert_eq!(
        vault.withdraw_funds(user, 2, 100),
        Err(VaultError::NotFound)
    );
    assert_eq!(
        vault.create_emergency_proposal(Address::new(1), 2, 0),
        Err(VaultError::NotFound)
    );
    assert_eq!(
        vault.approve_emergency(1, Address::new(1)),
        Err(VaultError::NotFound)
    );
    assert_eq!(
        vault.execute_emergency_unlock(1),
        Err(VaultError::NotFound)
    );
}

#[test]
fn create_lock_rejects_bad_inputs() {
    let mut vault = initialized_vault();
    let user = Address::new(10);
    assert_eq!(
        vault.lock_funds(user, 0, 100, "EMERGENCY".to_string(), 0),
        Err(VaultError::Validation)
    );
    assert_eq!(
        vault.lock_funds(user, 1000, 50, "EMERGENCY".to_string(), 50),
        Err(VaultError::Validation)
    );
    assert_eq!(
        vault.lock_funds(user, 1000, 49, "EMERGENCY".to_string(), 50),
        Err(VaultError::Validation)
    );
    assert_eq!(vault.get_lock(1).err(), Some(VaultError::NotFound));
}

#[test]
fn create_lock_round_trip() {
    let mut vault = initialized_vault();
    let user = Address::new(10);
    let id = vault
        .lock_funds(user, 777, 12345, "VACATION".to_string(), 11)
        .unwrap();
    assert_eq!(id, 1);

    let lock = vault.get_lock(id).unwrap();
    assert_eq!(lock.user, user);
    assert_eq!(lock.amount, 777);
    assert_eq!(lock.unlock_time, 12345);
    assert_eq!(lock.status, LockStatus::Active);
    assert_eq!(lock.reason, "VACATION");
    assert_eq!(
        vault.events.last(),
        Some(&VaultEvent::LockCreated {
            user,
            lock_id: 1,
            amount: 777,
            unlock_time: 12345
        })
    );
}

#[test]
fn withdraw_succeeds_exactly_once() {
    let mut vault = initialized_vault();
    let user = Address::new(10);
    let id = vault
        .lock_funds(user, 400, 1000, "RENT".to_string(), 0)
        .unwrap();

    assert_eq!(
        vault.withdraw_funds(user, id, 999),
        Err(VaultError::StateConflict)
    );
    assert_eq!(
        vault.withdraw_funds(Address::new(11), id, 1000),
        Err(VaultError::Authorization)
    );
    assert_eq!(vault.withdraw_funds(user, id, 1000), Ok(400));
    assert_eq!(
        vault.withdraw_funds(user, id, 2000),
        Err(VaultError::StateConflict)
    );

    let lock = vault.get_lock(id).unwrap();
    assert_eq!(lock.status, LockStatus::Unlocked);
    assert_eq!(lock.amount, 0);
}

#[test]
fn propose_by_non_governor_fails_authorization() {
    let mut vault = initialized_vault();
    let user = Address::new(10);
    let id = vault
        .lock_funds(user, 400, 1000, "RENT".to_string(), 0)
        .unwrap();
    assert_eq!(
        vault.create_emergency_proposal(Address::new(42), id, 5),
        Err(VaultError::Authorization)
    );
    assert_eq!(
        vault.create_emergency_proposal(user, id, 5),
        Err(VaultError::Authorization)
    );
}

#[test]
fn duplicate_approval_fails_state_conflict() {
    let mut vault = initialized_vault();
    let user = Address::new(10);
    let lock_id = vault
        .lock_funds(user, 400, 1000, "RENT".to_string(), 0)
        .unwrap();
    let pid = vault
        .create_emergency_proposal(Address::new(1), lock_id, 5)
        .unwrap();

    let proposal = vault.get_proposal(pid).unwrap();
    assert_eq!(proposal.approvals, vec![Address::new(1)]);

    assert_eq!(
        vault.approve_emergency(pid, Address::new(1)),
        Err(VaultError::StateConflict)
    );
    assert_eq!(vault.approve_emergency(pid, Address::new(2)), Ok(()));
    assert_eq!(
        vault.approve_emergency(pid, Address::new(2)),
        Err(VaultError::StateConflict)
    );
    assert_eq!(
        vault.approve_emergency(pid, Address::new(42)),
        Err(VaultError::Authorization)
    );
}

#[test]
fn execute_gated_by_threshold_and_lock_status() {
    let mut vault = initialized_vault();
    let user = Address::new(10);
    let lock_id = vault
        .lock_funds(user, 900, 1000, "RENT".to_string(), 0)
        .unwrap();
    let pid = vault
        .create_emergency_proposal(Address::new(1), lock_id, 5)
        .unwrap();

    assert_eq!(
        vault.execute_emergency_unlock(pid),
        Err(VaultError::ThresholdNotMet)
    );
    vault.approve_emergency(pid, Address::new(2)).unwrap();
    assert_eq!(
        vault.execute_emergency_unlock(pid),
        Err(VaultError::ThresholdNotMet)
    );
    vault.approve_emergency(pid, Address::new(3)).unwrap();

    assert_eq!(vault.execute_emergency_unlock(pid), Ok(900));
    let lock = vault.get_lock(lock_id).unwrap();
    assert_eq!(lock.status, LockStatus::EmergencyUnlocked);
    assert_eq!(lock.amount, 0);
    assert!(vault.get_proposal(pid).unwrap().executed);

    assert_eq!(
        vault.execute_emergency_unlock(pid),
        Err(VaultError::StateConflict)
    );
    assert_eq!(
        vault.approve_emergency(pid, Address::new(4)),
        Err(VaultError::StateConflict)
    );
}

#[test]
fn execute_against_non_active_lock_fails() {
    let mut vault = initialized_vault();
    let user = Address::new(10);
    let lock_id = vault
        .lock_funds(user, 900, 1000, "RENT".to_string(), 0)
        .unwrap();
    let pid = vault
        .create_emergency_proposal(Address::new(1), lock_id, 5)
        .unwrap();
    vault.approve_emergency(pid, Address::new(2)).unwrap();
    vault.approve_emergency(pid, Address::new(3)).unwrap();

    vault.withdraw_funds(user, lock_id, 1000).unwrap();
    assert_eq!(
        vault.execute_emergency_unlock(pid),
        Err(VaultError::StateConflict)
    );
    assert!(!vault.get_proposal(pid).unwrap().executed);
}

#[test]
fn emergency_unlock_end_to_end() {
    let mut vault = LockVault::new();
    let admin = Address::new(100);
    let governors = governors5();
    vault.initialize(admin, governors).unwrap();

    let user = Address::new(7);
    let now: u64 = 50;
    let unlock_time = now + 86400;
    let lock_id = vault
        .lock_funds(user, 1000, unlock_time, "EMERGENCY".to_string(), now)
        .unwrap();
    assert_eq!(lock_id, 1);

    let pid = vault
        .create_emergency_proposal(Address::new(1), lock_id, now)
        .unwrap();
    assert_eq!(pid, 1);
    assert_eq!(
        vault.get_proposal(pid).unwrap().approvals,
        vec![Address::new(1)]
    );

    vault.approve_emergency(pid, Address::new(2)).unwrap();
    vault.approve_emergency(pid, Address::new(3)).unwrap();
    assert_eq!(vault.get_proposal(pid).unwrap().approvals.len(), 3);

    assert_eq!(vault.execute_emergency_unlock(pid), Ok(1000));
    let lock = vault.get_lock(lock_id).unwrap();
    assert_eq!(lock.status, LockStatus::EmergencyUnlocked);
    assert_eq!(lock.amount, 0);

    assert_eq!(
        vault.withdraw_funds(user, lock_id, unlock_time + 5000),
        Err(VaultError::StateConflict)
    );
}

#[test]
fn user_locks_in_creation_order() {
    let mut vault = initialized_vault();
    let alice = Address::new(10);
    let bob = Address::new(11);

    vault
        .lock_funds(alice, 100, 1000, "A".to_string(), 0)
        .unwrap();
    vault
        .lock_funds(bob, 200, 1000, "B".to_string(), 0)
        .unwrap();
    vault
        .lock_funds(alice, 300, 1000, "C".to_string(), 0)
        .unwrap();
    vault
        .lock_funds(alice, 400, 1000, "D".to_string(), 0)
        .unwrap();

    assert_eq!(vault.get_user_locks(alice), vec![1, 3, 4]);
    assert_eq!(vault.get_user_locks(bob), vec![2]);
    assert_eq!(vault.get_user_locks(Address::new(12)), Vec::<u32>::new());
}

#[test]
fn events_are_recorded_in_order() {
    let mut vault = initialized_vault();
    let user = Address::new(10);
    let lock_id = vault
        .lock_funds(user, 900, 1000, "RENT".to_string(), 0)
        .unwrap();
    let pid = vault
        .create_emergency_proposal(Address::new(1), lock_id, 5)
        .unwrap();
    vault.approve_emergency(pid, Address::new(2)).unwrap();
    vault.approve_emergency(pid, Address::new(3)).unwrap();
    vault.execute_emergency_unlock(pid).unwrap();

    assert_eq!(
        vault.events,
        vec![
            VaultEvent::LockCreated {
                user,
                lock_id: 1,
                amount: 900,
                unlock_time: 1000
            },
            VaultEvent::ProposalCreated {
                proposer: Address::new(1),
                proposal_id: 1,
                lock_id: 1
            },
            VaultEvent::ProposalApproved {
                governor: Address::new(2),
                proposal_id: 1,
                approvals: 2
            },
            VaultEvent::ProposalApproved {
                governor: Address::new(3),
                proposal_id: 1,
                approvals: 3
            },
            VaultEvent::EmergencyUnlocked {
                user,
                lock_id: 1,
                amount: 900
            },
        ]
    );
}
