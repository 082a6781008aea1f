use adaptive_escrow::escrow::{Error, Escrow, Identity};
use adaptive_escrow::ledger::AdaptiveEscrow;

#[test]
fn initialize_is_empty() {
    let l = AdaptiveEscrow::initialize();
    assert_eq!(l.peek_next_id(), 1);
    assert_eq!(l.records().len(), 0);
    assert_eq!(l.get_escrow(1), Err(Error::NotFound));
}

#[test]
fn create_returns_strictly_increasing_ids() {
    let mut l = AdaptiveEscrow::initialize();
    let c = Identity(1);
    let f = Identity(2);
    let mut last: u32 = 0;
    for amount in [1u64, 50, 100, u64::MAX] {
        let id = l.create_escrow(c, f, amount).unwrap();
        assert!(id > last);
        last = id;
    }
    assert_eq!(last, 4);
}

#[test]
fn create_zero_amount_changes_nothing() {
    let mut l = AdaptiveEscrow::initialize();
    l.create_escrow(Identity(1), Identity(2), 10).unwrap();
    let counter_before = l.peek_next_id();
    let records_before = l.records().clone();
    assert_eq!(l.create_escrow(Identity(1), Identity(2), 0), Err(Error::InvalidAmount));
    assert_eq!(l.peek_next_id(), counter_before);
    assert_eq!(l.records(), &records_before);
}

#[test]
fn create_then_get_returns_the_record() {
    let mut l = AdaptiveEscrow::initialize();
    let c = Identity(10);
    let f = Identity(20);
    let id = l.create_escrow(c, f, 77).unwrap();
    assert_eq!(
        l.get_escrow(id),
        Ok(Escrow { client: c, freelancer: f, amount: 77, released: false })
    );
}

#[test]
fn release_by_stranger_is_unauthorized_and_changes_nothing() {
    let mut l = AdaptiveEscrow::initialize();
    let c = Identity(10);
    let f = Identity(20);
    let id = l.create_escrow(c, f, 77).unwrap();
    assert_eq!(l.release_funds(id, f), Err(Error::Unauthorized));
    assert_eq!(l.get_escrow(id).unwrap().released, false);
    assert_eq!(l.release_funds(id, Identity(99)), Err(Error::Unauthorized));
    assert_eq!(
        l.get_escrow(id),
        Ok(Escrow { client: c, freelancer: f, amount: 77, released: false })
    );
}

#[test]
fn release_by_client_succeeds_and_is_idempotent() {
    let mut l = AdaptiveEscrow::initialize();
    let c = Identity(10);
    let f = Identity(20);
    let id = l.create_escrow(c, f, 77).unwrap();
    assert_eq!(l.release_funds(id, c), Ok(()));
    assert_eq!(l.get_escrow(id).unwrap().released, true);
    assert_eq!(l.release_funds(id, c), Ok(()));
    assert_eq!(l.get_escrow(id).unwrap().released, true);
    assert_eq!(
        l.get_escrow(id),
        Ok(Escrow { client: c, freelancer: f, amount: 77, released: true })
    );
}

#[test]
fn missing_id_is_not_found() {
    let mut l = AdaptiveEscrow::initialize();
    assert_eq!(l.get_escrow(1), Err(Error::NotFound));
    assert_eq!(l.release_funds(1, Identity(1)), Err(Error::NotFound));
    l.create_escrow(Identity(1), Identity(2), 5).unwrap();
    assert_eq!(l.get_escrow(0), Err(Error::NotFound));
    assert_eq!(l.get_escrow(2), Err(Error::NotFound));
    assert_eq!(l.release_funds(2, Identity(1)), Err(Error::NotFound));
}

#[test]
fn two_escrows_release_only_the_first() {
    let a = Identity(1);
    let b = Identity(2);
    let c = Identity(3);
    let mut l = AdaptiveEscrow::initialize();
    assert_eq!(l.create_escrow(a, b, 100), Ok(1));
    assert_eq!(l.create_escrow(a, c, 50), Ok(2));
    assert_eq!(l.release_funds(1, a), Ok(()));
    assert_eq!(l.get_escrow(1).unwrap().released, true);
    assert_eq!(l.get_escrow(2).unwrap().released, false);
    assert_eq!(l.release_funds(2, b), Err(Error::Unauthorized));
}

#[test]
fn from_records_rebuilds_the_ledger() {
    let mut l = AdaptiveEscrow::initialize();
    let c = Identity(4);
    let f = Identity(5);
    l.create_escrow(c, f, 30).unwrap();
    l.create_escrow(c, f, 40).unwrap();
    l.release_funds(1, c).unwrap();

    let rebuilt = AdaptiveEscrow::from_records(l.records().clone()).unwrap();
    assert_eq!(rebuilt.peek_next_id(), 3);
    assert_eq!(rebuilt.records(), l.records());
    assert_eq!(
        rebuilt.get_escrow(1),
        Ok(Escrow { client: c, freelancer: f, amount: 30, released: true })
    );
    assert_eq!(
        rebuilt.get_escrow(2),
        Ok(Escrow { client: c, freelancer: f, amount: 40, released: false })
    );
}

#[test]
fn from_records_rejects_a_zero_amount() {
    let bad = vec![
        Escrow { client: Identity(1), freelancer: Identity(2), amount: 3, released: false },
        Escrow { client: Identity(1), freelancer: Identity(2), amount: 0, released: false },
    ];
    assert_eq!(AdaptiveEscrow::from_records(bad).err(), Some(Error::InvalidAmount));
}
