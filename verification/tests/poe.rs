use poe_node::claim::{Claim, MAX_CLAIM_LENGTH, bytes_equal};
use poe_node::pallet::{create_effect, revoke_effect, transfer_effect, Deposit, Effect, RecordChange, decide_create, decide_owner_call, new_claim, ensure_signed, DispatchError, Error, Event, Origin, Pallet};
use poe_node::store::ProofStore;

fn claim(bytes: &[u8]) -> Claim {
    new_claim(bytes.to_vec()).unwrap()
}

fn pallet_at(block: u64) -> Pallet {
    let mut p = Pallet::new();
    p.set_block_number(block);
    p
}

#[test]
fn create_claim_works() {
    let mut p = pallet_at(1);
    assert_eq!(p.create_claim(Origin::Signed(1), claim(&[0, 1])), Ok(()));
    assert_eq!(p.proofs(&claim(&[0, 1])), Some((1, 1)));
    assert_eq!(p.events(), &[Event::ClaimCreated(1, claim(&[0, 1]))][..]);
}

#[test]
fn create_claim_failed_when_claim_already_exist() {
    let mut p = pallet_at(1);
    assert_eq!(p.create_claim(Origin::Signed(1), claim(&[0, 1])), Ok(()));
    p.set_block_number(2);
    assert_eq!(
        p.create_claim(Origin::Signed(2), claim(&[0, 1])),
        Err(DispatchError::Module(Error::ProofAlreadyExist))
    );
    assert_eq!(p.proofs(&claim(&[0, 1])), Some((1, 1)));
    assert_eq!(p.events().len(), 1);
}

#[test]
fn create_claim_needs_signed_origin() {
    let mut p = pallet_at(1);
    assert_eq!(p.create_claim(Origin::Root, claim(&[7])), Err(DispatchError::BadOrigin));
    assert_eq!(p.create_claim(Origin::Unsigned, claim(&[7])), Err(DispatchError::BadOrigin));
    assert_eq!(p.proofs(&claim(&[7])), None);
    assert!(p.events().is_empty());
}

#[test]
fn revoke_claim_works() {
    let mut p = pallet_at(1);
    assert_eq!(p.create_claim(Origin::Signed(1), claim(&[0, 1])), Ok(()));
    assert_eq!(p.revoke_claim(Origin::Signed(1), claim(&[0, 1])), Ok(()));
    assert_eq!(p.proofs(&claim(&[0, 1])), None);
    assert_eq!(
        p.events(),
        &[Event::ClaimCreated(1, claim(&[0, 1])), Event::ClaimnRevoked(1, claim(&[0, 1]))][..]
    );
}

#[test]
fn revoke_claim_failed_when_claim_is_not_exist() {
    let mut p = pallet_at(1);
    assert_eq!(
        p.revoke_claim(Origin::Signed(1), claim(&[0, 1])),
        Err(DispatchError::Module(Error::ClaimNotExist))
    );
}

#[test]
fn revoke_claim_failed_with_wrong_owner() {
    let mut p = pallet_at(1);
    assert_eq!(p.create_claim(Origin::Signed(1), claim(&[0, 1])), Ok(()));
    assert_eq!(
        p.revoke_claim(Origin::Signed(2), claim(&[0, 1])),
        Err(DispatchError::Module(Error::NotClaimOwner))
    );
    assert_eq!(p.proofs(&claim(&[0, 1])), Some((1, 1)));
    assert_eq!(p.events().len(), 1);
}

#[test]
fn revoke_claim_needs_signed_origin() {
    let mut p = pallet_at(1);
    assert_eq!(p.create_claim(Origin::Signed(1), claim(&[0, 1])), Ok(()));
    assert_eq!(p.revoke_claim(Origin::Root, claim(&[0, 1])), Err(DispatchError::BadOrigin));
    assert_eq!(p.proofs(&claim(&[0, 1])), Some((1, 1)));
}

#[test]
fn transfer_claim_works() {
    let mut p = pallet_at(1);
    assert_eq!(p.create_claim(Origin::Signed(1), claim(&[0, 1])), Ok(()));
    p.set_block_number(5);
    assert_eq!(p.transfer_claim(Origin::Signed(1), claim(&[0, 1]), 2), Ok(()));
    assert_eq!(p.proofs(&claim(&[0, 1])), Some((2, 5)));
    // a transfer deposits no event
    assert_eq!(p.events().len(), 1);
    // the previous owner no longer owns it, the new one does
    assert_eq!(
        p.revoke_claim(Origin::Signed(1), claim(&[0, 1])),
        Err(DispatchError::Module(Error::NotClaimOwner))
    );
    assert_eq!(p.revoke_claim(Origin::Signed(2), claim(&[0, 1])), Ok(()));
}

#[test]
fn transfer_claim_failed_when_claim_is_not_exist() {
    let mut p = pallet_at(1);
    assert_eq!(
        p.transfer_claim(Origin::Signed(1), claim(&[0, 1]), 2),
        Err(DispatchError::Module(Error::ClaimNotExist))
    );
    assert_eq!(p.proofs(&claim(&[0, 1])), None);
}

#[test]
fn transfer_claim_failed_with_wrong_owner() {
    let mut p = pallet_at(1);
    assert_eq!(p.create_claim(Origin::Signed(1), claim(&[0, 1])), Ok(()));
    assert_eq!(
        p.transfer_claim(Origin::Signed(3), claim(&[0, 1]), 3),
        Err(DispatchError::Module(Error::NotClaimOwner))
    );
    assert_eq!(p.proofs(&claim(&[0, 1])), Some((1, 1)));
}

#[test]
fn transfer_claim_needs_signed_origin() {
    let mut p = pallet_at(1);
    assert_eq!(p.create_claim(Origin::Signed(1), claim(&[0, 1])), Ok(()));
    assert_eq!(
        p.transfer_claim(Origin::Unsigned, claim(&[0, 1]), 3),
        Err(DispatchError::BadOrigin)
    );
}

#[test]
fn revoke_undoes_create_on_concrete_values() {
    let mut p = pallet_at(3);
    assert_eq!(p.create_claim(Origin::Signed(9), claim(&[1, 2, 3])), Ok(()));
    assert_eq!(p.create_claim(Origin::Signed(4), claim(&[4])), Ok(()));
    assert_eq!(p.revoke_claim(Origin::Signed(4), claim(&[4])), Ok(()));
    assert_eq!(p.proofs(&claim(&[4])), None);
    assert_eq!(p.proofs(&claim(&[1, 2, 3])), Some((9, 3)));
    // the claim can be created afresh once revoked
    assert_eq!(p.create_claim(Origin::Signed(5), claim(&[4])), Ok(()));
    assert_eq!(p.proofs(&claim(&[4])), Some((5, 3)));
}

#[test]
fn other_claims_untouched_on_concrete_values() {
    let mut p = pallet_at(2);
    assert_eq!(p.create_claim(Origin::Signed(1), claim(&[1])), Ok(()));
    assert_eq!(p.create_claim(Origin::Signed(1), claim(&[1, 0])), Ok(()));
    assert_eq!(p.create_claim(Origin::Signed(1), claim(&[])), Ok(()));
    p.set_block_number(8);
    assert_eq!(p.transfer_claim(Origin::Signed(1), claim(&[1, 0]), 6), Ok(()));
    assert_eq!(p.revoke_claim(Origin::Signed(1), claim(&[])), Ok(()));
    assert_eq!(p.proofs(&claim(&[1])), Some((1, 2)));
    assert_eq!(p.proofs(&claim(&[1, 0])), Some((6, 8)));
    assert_eq!(p.proofs(&claim(&[])), None);
}

#[test]
fn new_claim_respects_the_bound() {
    let max = MAX_CLAIM_LENGTH as usize;
    let c = new_claim(vec![7u8; max]).unwrap();
    assert_eq!(c.len(), max);
    assert_eq!(new_claim(vec![7u8; max + 1]), Err(Error::ClaimTooLong));
    let c = new_claim(vec![3, 1, 4]).unwrap();
    assert_eq!(c.as_slice(), &[3, 1, 4]);
}

#[test]
fn ensure_signed_gives_the_signer() {
    assert_eq!(ensure_signed(Origin::Signed(42)), Ok(42));
    assert_eq!(ensure_signed(Origin::Root), Err(DispatchError::BadOrigin));
    assert_eq!(ensure_signed(Origin::Unsigned), Err(DispatchError::BadOrigin));
}

#[test]
fn proof_store_reads_back_what_was_written() {
    let mut s = ProofStore::new();
    assert!(!s.contains_key(&claim(&[1])));
    s.insert(claim(&[1]), (3, 4));
    s.insert(claim(&[2]), (5, 6));
    assert!(s.contains_key(&claim(&[1])));
    assert_eq!(s.get(&claim(&[1])), Some((3, 4)));
    s.insert(claim(&[1]), (7, 8));
    assert_eq!(s.get(&claim(&[1])), Some((7, 8)));
    s.remove(&claim(&[1]));
    assert_eq!(s.get(&claim(&[1])), None);
    assert_eq!(s.get(&claim(&[2])), Some((5, 6)));
    s.remove(&claim(&[9]));
    assert_eq!(s.get(&claim(&[2])), Some((5, 6)));
}

#[test]
fn bytes_equal_compares_contents() {
    assert!(bytes_equal(&[1, 2], &[1, 2]));
    assert!(!bytes_equal(&[1, 2], &[1, 3]));
    assert!(!bytes_equal(&[1, 2], &[1, 2, 3]));
    assert!(bytes_equal(&[], &[]));
}

#[test]
fn decide_create_on_each_input() {
    assert_eq!(decide_create(Origin::Signed(3), false), Ok(3));
    assert_eq!(
        decide_create(Origin::Signed(3), true),
        Err(DispatchError::Module(Error::ProofAlreadyExist))
    );
    assert_eq!(decide_create(Origin::Root, false), Err(DispatchError::BadOrigin));
}

#[test]
fn decide_owner_call_on_each_input() {
    assert_eq!(decide_owner_call(Origin::Signed(3), Some((3, 9))), Ok(3));
    assert_eq!(
        decide_owner_call(Origin::Signed(3), Some((4, 9))),
        Err(DispatchError::Module(Error::NotClaimOwner))
    );
    assert_eq!(
        decide_owner_call(Origin::Signed(3), None),
        Err(DispatchError::Module(Error::ClaimNotExist))
    );
    assert_eq!(decide_owner_call(Origin::Unsigned, Some((3, 9))), Err(DispatchError::BadOrigin));
}

#[test]
fn genesis_block_keeps_no_events() {
    let mut p = Pallet::new();
    assert_eq!(p.block_number(), 0);
    assert_eq!(p.create_claim(Origin::Signed(1), claim(&[5])), Ok(()));
    assert_eq!(p.proofs(&claim(&[5])), Some((1, 0)));
    assert_eq!(p.revoke_claim(Origin::Signed(1), claim(&[5])), Ok(()));
    assert_eq!(p.proofs(&claim(&[5])), None);
    assert!(p.events().is_empty());
    p.set_block_number(1);
    assert_eq!(p.create_claim(Origin::Signed(1), claim(&[5])), Ok(()));
    assert_eq!(p.events(), &[Event::ClaimCreated(1, claim(&[5]))][..]);
}

#[test]
fn effects_of_each_call() {
    assert_eq!(
        create_effect(Origin::Signed(2), false, 7),
        Ok(Effect {
            change: RecordChange::Insert((2, 7)),
            deposit: Some(Deposit::ClaimCreated(2)),
        })
    );
    assert_eq!(
        create_effect(Origin::Signed(2), false, 0),
        Ok(Effect { change: RecordChange::Insert((2, 0)), deposit: None })
    );
    assert_eq!(
        create_effect(Origin::Signed(2), true, 7),
        Err(DispatchError::Module(Error::ProofAlreadyExist))
    );
    assert_eq!(
        revoke_effect(Origin::Signed(2), Some((2, 1)), 7),
        Ok(Effect { change: RecordChange::Remove, deposit: Some(Deposit::ClaimnRevoked(2)) })
    );
    assert_eq!(
        revoke_effect(Origin::Signed(3), Some((2, 1)), 7),
        Err(DispatchError::Module(Error::NotClaimOwner))
    );
    assert_eq!(
        transfer_effect(Origin::Signed(2), Some((2, 1)), 9, 7),
        Ok(Effect { change: RecordChange::Insert((9, 7)), deposit: None })
    );
    assert_eq!(
        transfer_effect(Origin::Signed(2), None, 9, 7),
        Err(DispatchError::Module(Error::ClaimNotExist))
    );
    assert_eq!(transfer_effect(Origin::Root, Some((2, 1)), 9, 7), Err(DispatchError::BadOrigin));
}
