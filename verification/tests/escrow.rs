use custody_ledger::errors::Error;
use custody_ledger::escrow::EscrowContract;
use custody_ledger::transfer::Transfer;

#[test]
fn test_create_and_release_escrow() {
    let mut contract = EscrowContract::new();
    let creator: u64 = 1;
    let recipient: u64 = 2;
    let token: u64 = 3;
    let amount: i128 = 1000;
    let now: u64 = 0;
    let deadline = now + 3600;

    let (escrow_id, _deposit) = contract
        .create_escrow(creator, recipient, token, amount, deadline, creator)
        .unwrap();
    assert_eq!(escrow_id, 0);

    let escrow = contract.get_escrow(escrow_id).unwrap();
    assert_eq!(escrow.amount, amount);
    assert_eq!(escrow.released, false);
}

#[test]
fn test_create_escrow_requires_creator_auth() {
    let mut contract = EscrowContract::new();
    let r = contract.create_escrow(1, 2, 3, 1000, 3600, 2);
    assert_eq!(r, Err(Error::Unauthorized));
    assert_eq!(contract.get_escrow(0), Err(Error::NotFound));
}

#[test]
fn test_create_escrow_returns_deposit() {
    let mut contract = EscrowContract::new();
    let (escrow_id, deposit) = contract.create_escrow(1, 2, 3, 1000, 3600, 1).unwrap();
    assert_eq!(escrow_id, 0);
    assert_eq!(
        deposit,
        Transfer::Deposit { token: 3, from: 1, amount: 1000 }
    );
}

#[test]
fn test_get_escrow_round_trip() {
    let mut contract = EscrowContract::new();
    let (id0, _) = contract.create_escrow(1, 2, 3, 1000, 3600, 1).unwrap();
    let (id1, _) = contract.create_escrow(4, 5, 3, 77, 9000, 4).unwrap();
    assert_eq!(id0, 0);
    assert_eq!(id1, 1);

    let e = contract.get_escrow(id1).unwrap();
    assert_eq!(e.creator, 4);
    assert_eq!(e.recipient, 5);
    assert_eq!(e.amount, 77);
    assert_eq!(e.deadline, 9000);
    assert_eq!(e.released, false);
}

#[test]
fn test_release_scenario_at_deadline() {
    let mut contract = EscrowContract::new();
    let (id, _) = contract.create_escrow(1, 2, 3, 1000, 3600, 1).unwrap();

    let payout = contract.release(id, 3, 3600, 2).unwrap();
    assert_eq!(payout, Transfer::Payout { token: 3, to: 2, amount: 1000 });
    assert_eq!(contract.get_escrow(id).unwrap().released, true);

    let again = contract.release(id, 3, 7200, 2);
    assert_eq!(again, Err(Error::AlreadyReleased));
}

#[test]
fn test_release_before_deadline_fails() {
    let mut contract = EscrowContract::new();
    let (id, _) = contract.create_escrow(1, 2, 3, 1000, 3600, 1).unwrap();
    let r = contract.release(id, 3, 3599, 2);
    assert_eq!(r, Err(Error::DeadlineNotReached));
    assert_eq!(contract.get_escrow(id).unwrap().released, false);
}

#[test]
fn test_release_requires_recipient_auth() {
    let mut contract = EscrowContract::new();
    let (id, _) = contract.create_escrow(1, 2, 3, 1000, 3600, 1).unwrap();
    let r = contract.release(id, 3, 3600, 1);
    assert_eq!(r, Err(Error::Unauthorized));
}

#[test]
fn test_refund_deadline_boundary() {
    let mut contract = EscrowContract::new();
    let (id, _) = contract.create_escrow(1, 2, 3, 1000, 3600, 1).unwrap();

    let at_deadline = contract.refund(id, 3, 3600, 1);
    assert_eq!(at_deadline, Err(Error::DeadlineNotPassed));

    let after = contract.refund(id, 3, 3601, 1).unwrap();
    assert_eq!(after, Transfer::Payout { token: 3, to: 1, amount: 1000 });
    assert_eq!(contract.get_escrow(id).unwrap().released, true);

    let release_after_refund = contract.release(id, 3, 7200, 2);
    assert_eq!(release_after_refund, Err(Error::AlreadyReleased));
}

#[test]
fn test_refund_requires_creator_auth() {
    let mut contract = EscrowContract::new();
    let (id, _) = contract.create_escrow(1, 2, 3, 1000, 3600, 1).unwrap();
    let r = contract.refund(id, 3, 4000, 2);
    assert_eq!(r, Err(Error::Unauthorized));
}

#[test]
fn test_escrow_not_found() {
    let mut contract = EscrowContract::new();
    assert_eq!(contract.get_escrow(0), Err(Error::NotFound));
    assert_eq!(contract.release(0, 3, 9999, 2), Err(Error::NotFound));
    assert_eq!(contract.refund(0, 3, 9999, 1), Err(Error::NotFound));

    let (id, _) = contract.create_escrow(1, 2, 3, 1000, 3600, 1).unwrap();
    assert_eq!(contract.get_escrow(id + 1), Err(Error::NotFound));
}
