use sn_node::transfers::{
    ClientSignature, Error, KeySet, ReplicaInfo, Replicas, SignedTransfer, Transfer,
    TransferValidated,
};
use sn_node::types::{Prefix, PublicKey, XorName};

fn key_set(threshold: u64, share_count: u64) -> KeySet {
    KeySet { public_key: PublicKey(999), threshold, share_count }
}

fn replica_at(key_index: u64) -> Replicas {
    let ks = key_set(3, 5);
    let mut chain = Vec::new();
    let mut i: u64 = 0;
    while i <= key_index {
        chain.push(ks);
        i += 1;
    }
    let info = ReplicaInfo {
        id: PublicKey(100),
        our_index: 0,
        key_index,
        peer_replicas: ks,
        section_proof_chain: chain,
        initiating: true,
    };
    Replicas::new(info)
}

fn signed(from: u64, to: u64, amount: u64, seq: u64) -> SignedTransfer {
    SignedTransfer {
        transfer: Transfer { from: PublicKey(from), to: PublicKey(to), amount, seq },
        client_signature: ClientSignature { signer: PublicKey(from) },
    }
}

fn validation(st: SignedTransfer, key_index: u64, signer_index: u64) -> TransferValidated {
    TransferValidated { signed_transfer: st, key_index, signer_index }
}

/// Drive a proposed transfer to finalization with shares 0, 1 and 2.
fn settle(replica: &mut Replicas, st: SignedTransfer) {
    assert!(matches!(replica.propose(st), Ok(Some(_))));
    assert!(matches!(replica.receive_validation(validation(st, 0, 0)), Ok(None)));
    assert!(matches!(replica.receive_validation(validation(st, 0, 1)), Ok(None)));
    match replica.receive_validation(validation(st, 0, 2)) {
        Ok(Some(proof)) => {
            assert_eq!(proof.signed_transfer, st);
            assert_eq!(proof.signers.len(), 3);
        },
        other => panic!("expected finalization, got {:?}", other),
    }
}

#[test]
fn genesis_establishes_the_supply_once() {
    let mut replica = replica_at(0);
    assert!(matches!(replica.genesis(PublicKey(1), 104), Ok(())));
    assert_eq!(replica.balance(PublicKey(1)), 104);
    assert_eq!(replica.balance(PublicKey(2)), 0);
    // A second genesis is refused: the supply exists.
    assert!(matches!(replica.genesis(PublicKey(1), 104), Err(Error::InvalidOperation)));
}

#[test]
fn proposal_validation_errors() {
    let mut replica = replica_at(0);
    replica.genesis(PublicKey(1), 100).unwrap();
    // A forged owner signature is rejected.
    let mut forged = signed(1, 2, 10, 1);
    forged.client_signature = ClientSignature { signer: PublicKey(3) };
    assert!(matches!(replica.propose(forged), Err(Error::InvalidSignature)));
    // Self-transfers, zero amounts and overdrafts are rejected.
    assert!(matches!(replica.propose(signed(1, 1, 10, 1)), Err(Error::SameSenderAndRecipient)));
    assert!(matches!(replica.propose(signed(1, 2, 0, 1)), Err(Error::ZeroValueTransfer)));
    assert!(matches!(replica.propose(signed(1, 2, 101, 1)), Err(Error::InsufficientBalance)));
}

#[test]
fn ordering_rejects_any_gap_and_replays_once() {
    let mut replica = replica_at(0);
    replica.genesis(PublicKey(1), 100).unwrap();
    // Last finalized sequence number is 0: only 1 is accepted.
    assert!(matches!(replica.propose(signed(1, 2, 10, 2)), Err(Error::InvalidSequence)));
    assert!(matches!(replica.propose(signed(1, 2, 10, 0)), Err(Error::InvalidSequence)));
    let st = signed(1, 2, 10, 1);
    assert!(matches!(replica.propose(st), Ok(Some(_))));
    // The same proposal delivered twice is accepted exactly once: the replay
    // is a silent no-op.
    assert!(matches!(replica.propose(st), Ok(None)));
    // A different transfer with the same sequence number conflicts.
    assert!(matches!(replica.propose(signed(1, 3, 10, 1)), Err(Error::PendingConflict)));
}

#[test]
fn threshold_is_exact() {
    let mut replica = replica_at(0);
    replica.genesis(PublicKey(1), 100).unwrap();
    let st = signed(1, 2, 10, 1);
    assert!(matches!(replica.propose(st), Ok(Some(_))));
    // Two of the three required shares never finalize.
    assert!(matches!(replica.receive_validation(validation(st, 0, 0)), Ok(None)));
    assert!(matches!(replica.receive_validation(validation(st, 0, 1)), Ok(None)));
    assert_eq!(replica.balance(PublicKey(1)), 100);
    // A duplicate share does not count toward the threshold.
    assert!(matches!(replica.receive_validation(validation(st, 0, 1)), Ok(None)));
    assert_eq!(replica.balance(PublicKey(1)), 100);
    // The third distinct share combines the proof and settles the transfer.
    match replica.receive_validation(validation(st, 0, 2)) {
        Ok(Some(proof)) => assert_eq!(proof.signers, vec![0u64, 1, 2]),
        other => panic!("expected finalization, got {:?}", other),
    }
    assert_eq!(replica.balance(PublicKey(1)), 90);
    assert_eq!(replica.balance(PublicKey(2)), 10);
    // Extra shares after finalization change nothing.
    assert!(matches!(replica.receive_validation(validation(st, 0, 3)), Ok(None)));
    assert_eq!(replica.balance(PublicKey(1)), 90);
    assert_eq!(replica.balance(PublicKey(2)), 10);
    let history = replica.history(PublicKey(1)).unwrap();
    assert_eq!(history.len(), 2);
    // Re-delivering the finalized proposal is a no-op, not an error.
    assert!(matches!(replica.propose(st), Ok(None)));
}

#[test]
fn invalid_share_index_is_refused() {
    let mut replica = replica_at(0);
    replica.genesis(PublicKey(1), 100).unwrap();
    let st = signed(1, 2, 10, 1);
    assert!(matches!(replica.propose(st), Ok(Some(_))));
    // Share index 5 does not belong to a key set of five shares (0 to 4).
    assert!(matches!(
        replica.receive_validation(validation(st, 0, 5)),
        Err(Error::InvalidSignature)
    ));
}

#[test]
fn churn_drops_stale_epoch_validations() {
    let mut replica = replica_at(0);
    replica.genesis(PublicKey(1), 100).unwrap();
    let st = signed(1, 2, 10, 1);
    assert!(matches!(replica.propose(st), Ok(Some(_))));
    assert!(matches!(replica.receive_validation(validation(st, 0, 0)), Ok(None)));
    assert!(matches!(replica.receive_validation(validation(st, 0, 1)), Ok(None)));
    // The elder set changes: rotate to section-key index 1.
    let ks = key_set(3, 5);
    let new_info = ReplicaInfo {
        id: PublicKey(100),
        our_index: 0,
        key_index: 1,
        peer_replicas: ks,
        section_proof_chain: vec![ks, ks],
        initiating: false,
    };
    replica.update_replica_keys(new_info).unwrap();
    // A validation produced under the old index arrives late: it is dropped
    // and contributes toward no threshold, even as the would-be third share.
    assert!(matches!(replica.receive_validation(validation(st, 0, 2)), Ok(None)));
    assert_eq!(replica.balance(PublicKey(1)), 100);
    assert_eq!(replica.balance(PublicKey(2)), 0);
    // The abandoned proposal can be made anew under the new index.
    assert!(matches!(replica.propose(st), Ok(Some(_))));
    assert!(matches!(replica.receive_validation(validation(st, 1, 0)), Ok(None)));
    assert!(matches!(replica.receive_validation(validation(st, 1, 1)), Ok(None)));
    assert!(matches!(replica.receive_validation(validation(st, 1, 2)), Ok(Some(_))));
    assert_eq!(replica.balance(PublicKey(2)), 10);
}

#[test]
fn split_partitions_every_account_to_exactly_one_side() {
    let mut replica = replica_at(0);
    let high = 1u64 << 63;
    // The section holds three accounts; two fall under the upper-half prefix.
    replica.genesis(PublicKey(high | 5), 100).unwrap();
    settle(&mut replica, signed(high | 5, 7, 10, 1));
    settle(&mut replica, signed(high | 5, high | 9, 20, 2));
    let prefix = Prefix { bits: high, len: 1 };
    let departed = replica.section_split(prefix);
    // Kept: exactly the accounts matching the prefix, ledgers intact.
    assert_eq!(replica.balance(PublicKey(high | 5)), 70);
    assert_eq!(replica.balance(PublicKey(high | 9)), 20);
    assert!(replica.history(PublicKey(7)).is_none());
    // Departed: exactly the rest, ledgers intact.
    assert_eq!(departed.balance(PublicKey(7)), 10);
    assert!(departed.history(PublicKey(high | 5)).is_none());
    assert!(departed.history(PublicKey(high | 9)).is_none());
}

#[test]
fn worked_payment_scenario() {
    // Account A holds 100 and has last finalized sequence number 4; it sends
    // 30 to account B; three of five Elders validate with threshold 3.
    let mut replica = replica_at(0);
    let a: u64 = 1;
    let b: u64 = 2;
    let c: u64 = 3;
    replica.genesis(PublicKey(a), 104).unwrap();
    settle(&mut replica, signed(a, c, 1, 1));
    settle(&mut replica, signed(a, c, 1, 2));
    settle(&mut replica, signed(a, c, 1, 3));
    settle(&mut replica, signed(a, c, 1, 4));
    assert_eq!(replica.balance(PublicKey(a)), 100);
    assert_eq!(replica.next_seq(PublicKey(a)), Some(5));

    let st = signed(a, b, 30, 5);
    assert!(matches!(replica.propose(st), Ok(Some(_))));
    assert!(matches!(replica.receive_validation(validation(st, 0, 0)), Ok(None)));
    assert!(matches!(replica.receive_validation(validation(st, 0, 1)), Ok(None)));
    // After the third validation arrives, the transfer finalizes.
    assert!(matches!(replica.receive_validation(validation(st, 0, 2)), Ok(Some(_))));
    // A's next required sequence number becomes 6 and its balance reads 70.
    assert_eq!(replica.next_seq(PublicKey(a)), Some(6));
    assert_eq!(replica.balance(PublicKey(a)), 70);
    assert_eq!(replica.balance(PublicKey(b)), 30);
}
