use ledger_custody::escrow::{
    cancel_escrow, delivery_fulfilled, initialize_escrow, mark_as_delivered, EscrowAccount,
    EscrowError,
};

fn blank_escrow() -> EscrowAccount {
    EscrowAccount {
        initiator: 0,
        party: 0,
        amount: 0,
        is_fullfulled: false,
        is_cancelled: false,
        party_marked_delivered: false,
        index: 0,
    }
}

#[test]
fn full_escrow_lifecycle_pays_the_party() {
    let mut escrow = blank_escrow();
    let mut payer_lamports: u64 = 1_000;
    let mut vault_lamports: u64 = 0;
    let r = initialize_escrow(&mut escrow, 1, 2, 600, 0, &mut payer_lamports, &mut vault_lamports);
    assert_eq!(r, Ok(()));
    assert_eq!(payer_lamports, 400);
    assert_eq!(vault_lamports, 600);
    assert_eq!(escrow.initiator, 1);
    assert_eq!(escrow.party, 2);
    assert_eq!(escrow.amount, 600);

    assert_eq!(mark_as_delivered(&mut escrow, 2), Ok(()));
    assert!(escrow.party_marked_delivered);

    let mut party_lamports: u64 = 0;
    let r = delivery_fulfilled(&mut escrow, 1, &mut vault_lamports, &mut party_lamports);
    assert_eq!(r, Ok(()));
    assert!(escrow.is_fullfulled);
    assert!(!escrow.is_cancelled);
    assert_eq!(vault_lamports, 0);
    assert_eq!(party_lamports, 600);
}

#[test]
fn cancelled_escrow_refunds_the_initiator() {
    let mut escrow = blank_escrow();
    let mut payer_lamports: u64 = 1_000;
    let mut vault_lamports: u64 = 0;
    initialize_escrow(&mut escrow, 1, 2, 600, 0, &mut payer_lamports, &mut vault_lamports)
        .unwrap();

    let r = cancel_escrow(&mut escrow, 1, &mut vault_lamports, &mut payer_lamports);
    assert_eq!(r, Ok(()));
    assert!(escrow.is_cancelled);
    assert!(!escrow.is_fullfulled);
    assert_eq!(vault_lamports, 0);
    assert_eq!(payer_lamports, 1_000);
}

#[test]
fn zero_amount_escrow_is_rejected() {
    let mut escrow = blank_escrow();
    let mut payer_lamports: u64 = 1_000;
    let mut vault_lamports: u64 = 0;
    let r = initialize_escrow(&mut escrow, 1, 2, 0, 0, &mut payer_lamports, &mut vault_lamports);
    assert_eq!(r, Err(EscrowError::InvalidAmount));
    assert_eq!(payer_lamports, 1_000);
}

#[test]
fn underfunded_payer_is_rejected() {
    let mut escrow = blank_escrow();
    let mut payer_lamports: u64 = 100;
    let mut vault_lamports: u64 = 0;
    let r = initialize_escrow(&mut escrow, 1, 2, 600, 0, &mut payer_lamports, &mut vault_lamports);
    assert_eq!(r, Err(EscrowError::InsufficientFunds));
    assert_eq!(payer_lamports, 100);
    assert_eq!(vault_lamports, 0);
}

#[test]
fn only_the_party_may_mark_delivery() {
    let mut escrow = blank_escrow();
    let mut payer_lamports: u64 = 1_000;
    let mut vault_lamports: u64 = 0;
    initialize_escrow(&mut escrow, 1, 2, 600, 0, &mut payer_lamports, &mut vault_lamports)
        .unwrap();
    let r = mark_as_delivered(&mut escrow, 3);
    assert_eq!(r, Err(EscrowError::Unauthorized));
    assert!(!escrow.party_marked_delivered);
}

#[test]
fn only_the_initiator_may_confirm_delivery() {
    let mut escrow = blank_escrow();
    let mut payer_lamports: u64 = 1_000;
    let mut vault_lamports: u64 = 0;
    initialize_escrow(&mut escrow, 1, 2, 600, 0, &mut payer_lamports, &mut vault_lamports)
        .unwrap();
    mark_as_delivered(&mut escrow, 2).unwrap();
    let mut party_lamports: u64 = 0;
    let r = delivery_fulfilled(&mut escrow, 2, &mut vault_lamports, &mut party_lamports);
    assert_eq!(r, Err(EscrowError::Unauthorized));
    assert!(!escrow.is_fullfulled);
}

#[test]
fn confirming_before_delivery_is_rejected() {
    let mut escrow = blank_escrow();
    let mut payer_lamports: u64 = 1_000;
    let mut vault_lamports: u64 = 0;
    initialize_escrow(&mut escrow, 1, 2, 600, 0, &mut payer_lamports, &mut vault_lamports)
        .unwrap();
    let mut party_lamports: u64 = 0;
    let r = delivery_fulfilled(&mut escrow, 1, &mut vault_lamports, &mut party_lamports);
    assert_eq!(r, Err(EscrowError::NotDelivered));
}

#[test]
fn cancelled_escrow_refuses_further_action() {
    let mut escrow = blank_escrow();
    let mut payer_lamports: u64 = 1_000;
    let mut vault_lamports: u64 = 0;
    initialize_escrow(&mut escrow, 1, 2, 600, 0, &mut payer_lamports, &mut vault_lamports)
        .unwrap();
    mark_as_delivered(&mut escrow, 2).unwrap();
    cancel_escrow(&mut escrow, 1, &mut vault_lamports, &mut payer_lamports).unwrap();

    assert_eq!(
        mark_as_delivered(&mut escrow, 2),
        Err(EscrowError::AlreadyCancelled)
    );
    let mut party_lamports: u64 = 0;
    assert_eq!(
        delivery_fulfilled(&mut escrow, 1, &mut vault_lamports, &mut party_lamports),
        Err(EscrowError::AlreadyCancelled)
    );
    assert_eq!(
        cancel_escrow(&mut escrow, 1, &mut vault_lamports, &mut payer_lamports),
        Err(EscrowError::AlreadyCancelled)
    );
}

#[test]
fn fulfilled_escrow_refuses_further_action() {
    let mut escrow = blank_escrow();
    let mut payer_lamports: u64 = 1_000;
    let mut vault_lamports: u64 = 0;
    initialize_escrow(&mut escrow, 1, 2, 600, 0, &mut payer_lamports, &mut vault_lamports)
        .unwrap();
    mark_as_delivered(&mut escrow, 2).unwrap();
    let mut party_lamports: u64 = 0;
    delivery_fulfilled(&mut escrow, 1, &mut vault_lamports, &mut party_lamports).unwrap();

    assert_eq!(
        mark_as_delivered(&mut escrow, 2),
        Err(EscrowError::AlreadyFulfilled)
    );
    assert_eq!(
        delivery_fulfilled(&mut escrow, 1, &mut vault_lamports, &mut party_lamports),
        Err(EscrowError::AlreadyFulfilled)
    );
    assert_eq!(
        cancel_escrow(&mut escrow, 1, &mut vault_lamports, &mut payer_lamports),
        Err(EscrowError::AlreadyFulfilled)
    );
}

#[test]
fn drained_vault_refuses_release() {
    // A vault emptied out from under the escrow record cannot pay out.
    let mut escrow = EscrowAccount {
        initiator: 1,
        party: 2,
        amount: 600,
        is_fullfulled: false,
        is_cancelled: false,
        party_marked_delivered: true,
        index: 0,
    };
    let mut vault_lamports: u64 = 100;
    let mut party_lamports: u64 = 0;
    let r = delivery_fulfilled(&mut escrow, 1, &mut vault_lamports, &mut party_lamports);
    assert_eq!(r, Err(EscrowError::InsufficientFunds));
    assert!(!escrow.is_fullfulled);
    assert_eq!(vault_lamports, 100);
}
