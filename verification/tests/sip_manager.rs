use custody_vault::address::Address;
use custody_vault::sip_manager::{Frequency, SIPManager, SipError, Status};

#[test]
fn test_create_sip() {
    let mut manager = SIPManager::new();
    let user = Address::new(1);
    let token = Address::new(2);

    let sip_id = manager
        .create_sip(user, token, 100, Frequency::Weekly, 12, 500, 0)
        .unwrap();
    assert_eq!(sip_id, 1);

    let sip = manager.get_sip(sip_id).unwrap();
    assert_eq!(sip.amount, 100);
    assert_eq!(sip.execution_count, 0);
}

#[test]
fn create_sip_rejects_bad_inputs() {
    let mut manager = SIPManager::new();
    let user = Address::new(1);
    let token = Address::new(2);
    assert_eq!(
        manager.create_sip(user, token, 0, Frequency::Daily, 0, 100, 0),
        Err(SipError::Validation)
    );
    assert_eq!(
        manager.create_sip(user, token, 100, Frequency::Daily, 0, 1001, 0),
        Err(SipError::Validation)
    );
    assert_eq!(manager.get_sip(1).err(), Some(SipError::NotFound));
}

#[test]
fn execute_sip_respects_interval() {
    let mut manager = SIPManager::new();
    let user = Address::new(1);
    let token = Address::new(2);
    let id = manager
        .create_sip(user, token, 100, Frequency::Daily, 0, 0, 1000)
        .unwrap();

    assert_eq!(manager.execute_sip(id, 1000), Ok(true));
    let sip = manager.get_sip(id).unwrap();
    assert_eq!(sip.execution_count, 1);
    assert_eq!(sip.total_deposits, 100);
    assert_eq!(sip.last_executed, 1000);

    assert_eq!(manager.execute_sip(id, 1000 + 86399), Ok(false));
    assert_eq!(manager.get_sip(id).unwrap().total_deposits, 100);

    assert_eq!(manager.execute_sip(id, 1000 + 86400), Ok(true));
    assert_eq!(manager.get_sip(id).unwrap().total_deposits, 200);

    assert_eq!(manager.execute_sip(99, 0), Err(SipError::NotFound));
}

#[test]
fn execute_sip_completes_at_cap() {
    let mut manager = SIPManager::new();
    let user = Address::new(1);
    let token = Address::new(2);
    let id = manager
        .create_sip(user, token, 50, Frequency::Weekly, 2, 0, 0)
        .unwrap();

    assert_eq!(manager.execute_sip(id, 604800), Ok(true));
    assert_eq!(manager.execute_sip(id, 2 * 604800), Ok(true));
    assert_eq!(manager.execute_sip(id, 3 * 604800), Ok(false));

    let sip = manager.get_sip(id).unwrap();
    assert_eq!(sip.status, Status::Completed);
    assert_eq!(sip.execution_count, 2);
    assert_eq!(sip.total_deposits, 100);

    assert_eq!(
        manager.execute_sip(id, 4 * 604800),
        Err(SipError::StateConflict)
    );
}

#[test]
fn pause_resume_cancel_lifecycle() {
    let mut manager = SIPManager::new();
    let user = Address::new(1);
    let token = Address::new(2);
    let id = manager
        .create_sip(user, token, 50, Frequency::Monthly, 0, 0, 0)
        .unwrap();

    assert_eq!(
        manager.pause_sip(Address::new(9), id),
        Err(SipError::Authorization)
    );
    assert_eq!(
        manager.resume_sip(user, id),
        Err(SipError::StateConflict)
    );
    assert_eq!(manager.pause_sip(user, id), Ok(()));
    assert_eq!(manager.get_sip(id).unwrap().status, Status::Paused);
    assert_eq!(
        manager.execute_sip(id, 2592000),
        Err(SipError::StateConflict)
    );
    assert_eq!(manager.resume_sip(user, id), Ok(()));
    assert_eq!(manager.get_sip(id).unwrap().status, Status::Active);
    assert_eq!(manager.cancel_sip(user, id), Ok(()));
    assert_eq!(manager.get_sip(id).unwrap().status, Status::Cancelled);
    assert_eq!(manager.cancel_sip(user, 5), Err(SipError::NotFound));
}

#[test]
fn early_withdrawal_applies_penalty() {
    let mut manager = SIPManager::new();
    let user = Address::new(1);
    let token = Address::new(2);
    let id = manager
        .create_sip(user, token, 1000, Frequency::Daily, 0, 500, 0)
        .unwrap();
    manager.execute_sip(id, 86400).unwrap();
    manager.execute_sip(id, 2 * 86400).unwrap();
    assert_eq!(manager.get_sip(id).unwrap().total_deposits, 2000);

    assert_eq!(
        manager.early_withdrawal(Address::new(9), id),
        Err(SipError::Authorization)
    );
    assert_eq!(manager.early_withdrawal(user, id), Ok(1900));

    let sip = manager.get_sip(id).unwrap();
    assert_eq!(sip.status, Status::Cancelled);
    assert_eq!(sip.total_deposits, 0);
    assert_eq!(manager.early_withdrawal(user, id), Ok(0));
}

#[test]
fn user_sips_in_creation_order() {
    let mut manager = SIPManager::new();
    let alice = Address::new(1);
    let bob = Address::new(2);
    let token = Address::new(3);
    manager
        .create_sip(alice, token, 10, Frequency::Daily, 0, 0, 0)
        .unwrap();
    manager
        .create_sip(bob, token, 20, Frequency::Daily, 0, 0, 0)
        .unwrap();
    manager
        .create_sip(alice, token, 30, Frequency::Daily, 0, 0, 0)
        .unwrap();

    assert_eq!(manager.get_user_sips(alice), vec![1, 3]);
    assert_eq!(manager.get_user_sips(bob), vec![2]);
    assert_eq!(manager.get_user_sips(token), Vec::<u32>::new());
}
