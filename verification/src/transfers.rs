//! The asset-transfer replica protocol.
//!
//! Each Elder runs a Replica holding partial signing authority over the
//! section's money-transfer history. A replica validates proposed transfers
//! (owner signature, strict gapless sequence numbers, sufficient balance),
//! emits its own validation share, accumulates the shares of its peers, and
//! once threshold-many shares under the current section-key index have been
//! collected, combines them into a transfer proof, appends the transfer to
//! both accounts' ledgers and reports the finalization.
//!
//! Balances are derived by replaying the append-only ledger, never stored as
//! a separately mutable field, so balance and history cannot diverge.
//!
//! Signature shares are carried as plain values: what the protocol reads of a
//! share is which elder produced it and under which section-key index. The
//! cryptographic combination itself lives with the surrounding host; the
//! replica decides *when* a combination is owed, which is what is proved here.

use crate::table::{lemma_get_at, tbl_get, tbl_has, tbl_index, Table};
use crate::types::{Money, Prefix, PublicKey, XorName};
use vstd::prelude::*;

verus! {

/// Accounts are identified by their owner's public key.
pub type AccountId = PublicKey;

/// Errors a replica reports back to the origin of a request. None is fatal.
#[derive(Clone, Copy, PartialEq, Eq, Structural, Debug)]
pub enum Error {
    /// The owner signature does not match the sending account.
    InvalidSignature,
    /// Sender and recipient are the same account.
    SameSenderAndRecipient,
    /// Zero-amount transfers are not accepted.
    ZeroValueTransfer,
    /// Another transfer from this account is still awaiting validations.
    PendingConflict,
    /// The sequence number is not exactly one past the last finalized one.
    InvalidSequence,
    /// The sender's balance does not cover the amount.
    InsufficientBalance,
    /// Crediting the recipient would exceed the largest representable amount.
    ExcessiveValue,
    /// The operation is not available in the replica's current state.
    InvalidOperation,
}

/// A section's threshold key set: `threshold` shares out of `share_count`
/// reconstruct a signature under the section public key; fewer cannot.
#[derive(Clone, Copy, PartialEq, Eq, Structural, Debug)]
pub struct KeySet {
    pub public_key: PublicKey,
    pub threshold: u64,
    pub share_count: u64,
}

impl KeySet {
    pub open spec fn wf(self) -> bool {
        1 <= self.threshold <= self.share_count
    }
}

/// A replica's signing context. Replaced wholesale on every churn event; the
/// old instance is discarded, never mutated in place.
#[derive(Clone, PartialEq, Eq, Debug)]
pub struct ReplicaInfo {
    /// Our own key share id.
    pub id: PublicKey,
    /// Our share index within the current key set.
    pub our_index: u64,
    /// The section-key index: the position of the current key set in the
    /// section proof chain. Rotates upward on every churn event.
    pub key_index: u64,
    /// The current section key set.
    pub peer_replicas: KeySet,
    /// Ordered history of the section's key sets; the last one is current.
    pub section_proof_chain: Vec<KeySet>,
    /// Set on first launch, before genesis has been applied.
    pub initiating: bool,
}

impl ReplicaInfo {
    pub open spec fn wf(self) -> bool {
        &&& self.peer_replicas.wf()
        &&& self.our_index < self.peer_replicas.share_count
        &&& self.section_proof_chain@.len() == self.key_index + 1
        &&& self.section_proof_chain@.last() == self.peer_replicas
    }
}

/// A money transfer, immutable once created.
#[derive(Clone, Copy, PartialEq, Eq, Structural, Debug, Hash)]
pub struct Transfer {
    pub from: AccountId,
    pub to: AccountId,
    pub amount: Money,
    /// Monotonically increasing per-account sequence number.
    pub seq: u64,
}

/// The sender's owner signature, reduced to the identity of the key that
/// produced it: signatures are unforgeable, so a valid one could only have
/// been made by its owner.
#[derive(Clone, Copy, PartialEq, Eq, Structural, Debug, Hash)]
pub struct ClientSignature {
    pub signer: PublicKey,
}

/// A transfer together with its sender's owner signature.
#[derive(Clone, Copy, PartialEq, Eq, Structural, Debug, Hash)]
pub struct SignedTransfer {
    pub transfer: Transfer,
    pub client_signature: ClientSignature,
}

/// The owner signature verifies exactly when the sending account's key made it.
pub open spec fn sig_ok(st: SignedTransfer) -> bool {
    st.client_signature.signer == st.transfer.from
}

/// One Elder's signature share over a signed transfer, tagged with the
/// section-key index that produced it.
#[derive(Clone, Copy, PartialEq, Eq, Structural, Debug)]
pub struct TransferValidated {
    pub signed_transfer: SignedTransfer,
    /// The section-key index the share was produced under.
    pub key_index: u64,
    /// Which elder's key share signed.
    pub signer_index: u64,
}

/// Aggregation of validations: valid only once threshold-many distinct shares
/// under the same section-key index have been combined.
#[derive(Clone, PartialEq, Eq, Debug)]
pub struct TransferProof {
    pub signed_transfer: SignedTransfer,
    pub key_index: u64,
    /// The distinct share indices that contributed.
    pub signers: Vec<u64>,
}

impl TransferProof {
    /// An owned copy with the same content.
    pub fn copy(&self) -> (r: TransferProof)
        ensures
            r.signed_transfer == self.signed_transfer,
            r.key_index == self.key_index,
            r.signers@ == self.signers@,
    {
        let n = self.signers.len();
        let mut signers: Vec<u64> = Vec::new();
        let mut i: usize = 0;
        while i < n
            invariant
                n == self.signers@.len(),
                i <= n,
                signers@ =~= self.signers@.take(i as int),
            decreases n - i,
        {
            signers.push(self.signers[i]);
            proof {
                assert(signers@ =~= self.signers@.take(i as int + 1));
            }
            i += 1;
        }
        proof {
            assert(self.signers@.take(n as int) =~= self.signers@);
        }
        TransferProof {
            signed_transfer: self.signed_transfer,
            key_index: self.key_index,
            signers,
        }
    }
}

/// One entry of an account's append-only ledger.
#[derive(Clone, PartialEq, Eq, Debug)]
pub enum LedgerEntry {
    /// The initial money supply, created once at network genesis.
    Genesis { amount: Money },
    /// An outgoing finalized transfer.
    Debit(TransferProof),
    /// An incoming finalized transfer.
    Credit(TransferProof),
}

/// The balance change an entry contributes during replay.
pub open spec fn entry_delta(e: LedgerEntry) -> int {
    match e {
        LedgerEntry::Genesis { amount } => amount as int,
        LedgerEntry::Credit(p) => p.signed_transfer.transfer.amount as int,
        LedgerEntry::Debit(p) => -(p.signed_transfer.transfer.amount as int),
    }
}

/// An account's balance: the replay of its ledger.
pub open spec fn replay(l: Seq<LedgerEntry>) -> int
    decreases l.len(),
{
    if l.len() == 0 {
        0
    } else {
        replay(l.drop_last()) + entry_delta(l.last())
    }
}

/// How many debits a ledger holds; the last finalized sequence number.
pub open spec fn debit_count(l: Seq<LedgerEntry>) -> int
    decreases l.len(),
{
    if l.len() == 0 {
        0
    } else {
        debit_count(l.drop_last()) + if l.last() is Debit {
            1int
        } else {
            0int
        }
    }
}

/// `e` is a debit entry carrying exactly the transfer `t`.
pub open spec fn is_debit_of(e: LedgerEntry, t: Transfer) -> bool {
    e matches LedgerEntry::Debit(p) && p.signed_transfer.transfer == t
}

/// The ledger already holds a finalized debit of `t`.
pub open spec fn ledger_has_debit(l: Seq<LedgerEntry>, t: Transfer) -> bool {
    exists|i: int| 0 <= i < l.len() && is_debit_of(#[trigger] l[i], t)
}

/// What each entry of account `a`'s ledger must satisfy at its position.
pub open spec fn entry_wf_at(a: AccountId, l: Seq<LedgerEntry>, i: int) -> bool {
    match l[i] {
        LedgerEntry::Genesis { amount } => i == 0,
        LedgerEntry::Debit(p) => {
            &&& p.signed_transfer.transfer.from == a
            &&& sig_ok(p.signed_transfer)
            &&& p.signed_transfer.transfer.seq == debit_count(l.take(i)) + 1
        },
        LedgerEntry::Credit(p) => p.signed_transfer.transfer.to == a,
    }
}

/// A well-formed ledger for account `a`: every entry belongs to `a`, debits
/// carry gapless sequence numbers, and every historical balance (every prefix
/// replay) stays within the representable range.
pub open spec fn wf_account(a: AccountId, l: Seq<LedgerEntry>) -> bool {
    &&& forall|i: int| 0 <= i < l.len() ==> entry_wf_at(a, l, i)
    &&& forall|i: int| 0 <= i <= l.len() ==> 0 <= #[trigger] replay(l.take(i)) <= u64::MAX
}

/// Per-account append-only history of finalized, proof-bearing transfers.
#[derive(Clone, PartialEq, Eq, Debug)]
pub struct AccountState {
    pub ledger: Vec<LedgerEntry>,
}

/// An in-flight transfer awaiting validations, keyed by its sender.
#[derive(Clone, PartialEq, Eq, Debug)]
pub struct PendingTransfer {
    pub st: SignedTransfer,
    /// The section-key index the proposal was accepted under.
    pub key_index: u64,
    /// Distinct share indices collected so far.
    pub signers: Vec<u64>,
}

/// The replica: signing context, account ledgers, and in-flight transfers.
pub struct Replicas {
    pub info: ReplicaInfo,
    /// Account ledgers, keyed by account id.
    pub accounts: Table<AccountState>,
    /// In-flight transfers, keyed by sender account id.
    pub pending: Table<PendingTransfer>,
}

impl Replicas {
    /// The ledger of account `a` (empty when the account is unknown).
    pub open spec fn spec_ledger(self, a: AccountId) -> Seq<LedgerEntry> {
        match tbl_get(self.accounts@, a.0) {
            Some(acc) => acc.ledger@,
            None => Seq::empty(),
        }
    }

    /// The balance of account `a`, derived by replay.
    pub open spec fn spec_balance(self, a: AccountId) -> int {
        replay(self.spec_ledger(a))
    }

    /// The last finalized sequence number of account `a`.
    pub open spec fn spec_last_seq(self, a: AccountId) -> int {
        debit_count(self.spec_ledger(a))
    }

    /// The transfer `t` has already been finalized here.
    pub open spec fn spec_finalized(self, t: Transfer) -> bool {
        ledger_has_debit(self.spec_ledger(t.from), t)
    }

    /// The in-flight transfer of `a`'s sender slot, if any.
    pub open spec fn spec_pending(self, a: AccountId) -> Option<PendingTransfer> {
        tbl_get(self.pending@, a.0)
    }

    /// Exactly `st` is in flight under the current section-key index.
    pub open spec fn spec_in_flight(self, st: SignedTransfer) -> bool {
        self.spec_pending(st.transfer.from) matches Some(p) && p.key_index
            == self.info.key_index && p.st == st
    }

    /// A different transfer from the same sender is in flight under the
    /// current section-key index.
    pub open spec fn spec_conflicting(self, st: SignedTransfer) -> bool {
        self.spec_pending(st.transfer.from) matches Some(p) && p.key_index
            == self.info.key_index && p.st != st
    }

    /// What an in-flight entry must satisfy while it is current.
    pub open spec fn pending_entry_wf(self, k: u64, p: PendingTransfer) -> bool {
        &&& p.st.transfer.from.0 == k
        &&& p.key_index <= self.info.key_index
        &&& p.key_index == self.info.key_index ==> {
            &&& sig_ok(p.st)
            &&& p.st.transfer.from != p.st.transfer.to
            &&& p.st.transfer.amount > 0
            &&& p.st.transfer.seq == self.spec_last_seq(p.st.transfer.from) + 1
            &&& p.st.transfer.amount <= self.spec_balance(p.st.transfer.from)
            &&& p.signers@.len() < self.info.peer_replicas.threshold
            &&& forall|i: int, j: int|
                0 <= i < j < p.signers@.len() ==> p.signers@[i] != p.signers@[j]
            &&& forall|i: int|
                0 <= i < p.signers@.len() ==> #[trigger] p.signers@[i]
                    < self.info.peer_replicas.share_count
        }
    }

    /// Replica well-formedness: the signing context is sound, ledgers are
    /// well-formed per account, and in-flight entries under the current key
    /// index are consistent with the ledgers they will settle against.
    pub open spec fn wf(self) -> bool {
        &&& self.info.wf()
        &&& self.accounts.wf()
        &&& self.pending.wf()
        &&& forall|k: u64|
            #[trigger] tbl_has(self.accounts@, k) ==> (tbl_get(self.accounts@, k) matches Some(acc)
                && wf_account(PublicKey(k), acc.ledger@))
        &&& forall|k: u64|
            #[trigger] tbl_has(self.pending@, k) ==> (tbl_get(self.pending@, k) matches Some(p)
                && self.pending_entry_wf(k, p))
    }

    /// A fresh replica with no accounts and nothing in flight.
    pub fn new(info: ReplicaInfo) -> (r: Replicas)
        requires
            info.wf(),
        ensures
            r.wf(),
            r.info == info,
            r.accounts@ =~= Seq::<(u64, AccountState)>::empty(),
            r.pending@ =~= Seq::<(u64, PendingTransfer)>::empty(),
    {
        Replicas { info, accounts: Table::new(), pending: Table::new() }
    }

    /// Establish the initial money supply on the first node of a network.
    /// Available exactly once, while the replica is still initiating and no
    /// account exists yet.
    pub fn genesis(&mut self, id: AccountId, amount: Money) -> (r: Result<(), Error>)
        requires
            old(self).wf(),
        ensures
            final(self).wf(),
            r is Ok <==> (old(self).info.initiating && old(self).accounts@.len() == 0),
            r is Err ==> r == Result::<(), Error>::Err(Error::InvalidOperation) && *final(self)
                == *old(self),
            r is Ok ==> {
                &&& final(self).info == old(self).info
                &&& final(self).pending@ == old(self).pending@
                &&& final(self).spec_ledger(id) =~= seq![LedgerEntry::Genesis { amount }]
                &&& final(self).spec_balance(id) == amount
                &&& forall|a: AccountId|
                    a != id ==> final(self).spec_ledger(a) == old(self).spec_ledger(a)
            },
    {
        if !self.info.initiating || self.accounts.len() != 0 {
            return Err(Error::InvalidOperation);
        }
        let mut ledger: Vec<LedgerEntry> = Vec::new();
        ledger.push(LedgerEntry::Genesis { amount });
        proof {
            let l = ledger@;
            assert(replay(Seq::<LedgerEntry>::empty()) == 0);
            assert(l.drop_last() =~= Seq::<LedgerEntry>::empty());
            assert(replay(l) == amount);
            assert forall|i: int| 0 <= i <= l.len() implies 0 <= #[trigger] replay(l.take(i))
                <= u64::MAX by {
                if i == 0 {
                    assert(l.take(0) =~= Seq::<LedgerEntry>::empty());
                } else {
                    assert(l.take(1) =~= l);
                }
            }
            assert(wf_account(id, l));
        }
        self.accounts.set(id.0, AccountState { ledger });
        proof {
            assert forall|k: u64| #[trigger] tbl_has(self.accounts@, k) implies (tbl_get(
                self.accounts@,
                k,
            ) matches Some(acc) && wf_account(PublicKey(k), acc.ledger@)) by {
                if k != id.0 {
                    assert(tbl_get(old(self).accounts@, k) == tbl_get(self.accounts@, k));
                    assert(!tbl_has(old(self).accounts@, k) ==> tbl_get(
                        old(self).accounts@,
                        k,
                    ) is None);
                }
            }
            assert forall|k: u64| #[trigger] tbl_has(self.pending@, k) implies (tbl_get(
                self.pending@,
                k,
            ) matches Some(p) && self.pending_entry_wf(k, p)) by {
                assert(tbl_has(old(self).pending@, k));
                let p = tbl_get(old(self).pending@, k)->Some_0;
                assert(old(self).pending_entry_wf(k, p));
                if p.key_index == self.info.key_index {
                    assert(!tbl_has(old(self).accounts@, p.st.transfer.from.0));
                    assert(old(self).spec_ledger(p.st.transfer.from) =~= Seq::<
                        LedgerEntry,
                    >::empty());
                    assert(replay(Seq::<LedgerEntry>::empty()) == 0);
                    assert(false);
                }
            }
            assert(self.spec_ledger(id) =~= seq![LedgerEntry::Genesis { amount }]);
            let g = self.spec_ledger(id);
            assert(g.drop_last() =~= Seq::<LedgerEntry>::empty());
            assert(replay(Seq::<LedgerEntry>::empty()) == 0);
            assert(replay(g) == amount);
            assert forall|a: AccountId| a != id implies self.spec_ledger(a) == old(
                self,
            ).spec_ledger(a) by {
                assert(a.0 != id.0);
                assert(tbl_get(self.accounts@, a.0) == tbl_get(old(self).accounts@, a.0));
            }
        }
        Ok(())
    }

    /// What a proposal is owed, as a function of the replica's state: the
    /// validation share it earns, a silent no-op on re-delivery, or the exact
    /// error it is rejected with.
    pub open spec fn spec_propose_outcome(self, st: SignedTransfer) -> Result<
        Option<TransferValidated>,
        Error,
    > {
        let t = st.transfer;
        if !sig_ok(st) {
            Result::Err(Error::InvalidSignature)
        } else if t.from == t.to {
            Result::Err(Error::SameSenderAndRecipient)
        } else if t.amount == 0 {
            Result::Err(Error::ZeroValueTransfer)
        } else if self.spec_in_flight(st) {
            Result::Ok(None)
        } else if self.spec_finalized(t) {
            Result::Ok(None)
        } else if self.spec_conflicting(st) {
            Result::Err(Error::PendingConflict)
        } else if t.seq != self.spec_last_seq(t.from) + 1 {
            Result::Err(Error::InvalidSequence)
        } else if t.amount > self.spec_balance(t.from) {
            Result::Err(Error::InsufficientBalance)
        } else {
            Result::Ok(
                Some(
                    TransferValidated {
                        signed_transfer: st,
                        key_index: self.info.key_index,
                        signer_index: self.info.our_index,
                    },
                ),
            )
        }
    }

    /// Validate a proposed transfer. On success the replica's own validation
    /// share is produced and the transfer starts awaiting validations; on a
    /// re-delivered proposal (in flight or already finalized) nothing changes
    /// and nothing is reported; otherwise the exact rejection is returned and
    /// the state is left unchanged.
    pub fn propose(&mut self, st: SignedTransfer) -> (r: Result<Option<TransferValidated>, Error>)
        requires
            old(self).wf(),
        ensures
            final(self).wf(),
            r == old(self).spec_propose_outcome(st),
            !(r matches Ok(Some(_))) ==> *final(self) == *old(self),
            r matches Ok(Some(v)) ==> ({
                &&& v == (TransferValidated {
                    signed_transfer: st,
                    key_index: old(self).info.key_index,
                    signer_index: old(self).info.our_index,
                })
                &&& final(self).info == old(self).info
                &&& final(self).accounts@ == old(self).accounts@
                &&& (tbl_get(final(self).pending@, st.transfer.from.0) matches Some(p) && p.st == st
                    && p.key_index == old(self).info.key_index && p.signers@ =~= Seq::<
                    u64,
                >::empty())
                &&& forall|k: u64|
                    k != st.transfer.from.0 ==> tbl_get(final(self).pending@, k) == tbl_get(
                        old(self).pending@,
                        k,
                    )
            }),
    {
        let t = st.transfer;
        if !(st.client_signature.signer == t.from) {
            return Err(Error::InvalidSignature);
        }
        if t.from == t.to {
            return Err(Error::SameSenderAndRecipient);
        }
        if t.amount == 0 {
            return Err(Error::ZeroValueTransfer);
        }
        let in_flight = match self.pending.get(t.from.0) {
            Some(p) => p.key_index == self.info.key_index && p.st == st,
            None => false,
        };
        if in_flight {
            return Ok(None);
        }
        let finalized = match self.accounts.get(t.from.0) {
            Some(acc) => ledger_contains_debit(&acc.ledger, t),
            None => false,
        };
        proof {
            if !tbl_has(self.accounts@, t.from.0) {
                assert(self.spec_ledger(t.from) =~= Seq::<LedgerEntry>::empty());
            }
        }
        if finalized {
            return Ok(None);
        }
        let conflicting = match self.pending.get(t.from.0) {
            Some(p) => p.key_index == self.info.key_index,
            None => false,
        };
        if conflicting {
            return Err(Error::PendingConflict);
        }
        proof {
            assert(replay(Seq::<LedgerEntry>::empty()) == 0);
            assert(debit_count(Seq::<LedgerEntry>::empty()) == 0);
            if tbl_has(self.accounts@, t.from.0) {
                assert(tbl_get(self.accounts@, t.from.0) matches Some(acc) && wf_account(
                    PublicKey(t.from.0),
                    acc.ledger@,
                ));
            }
        }
        let last = match self.accounts.get(t.from.0) {
            Some(acc) => debit_count_of(&acc.ledger),
            None => 0,
        };
        if !(t.seq >= 1 && t.seq - 1 == last) {
            return Err(Error::InvalidSequence);
        }
        let bal = match self.accounts.get(t.from.0) {
            Some(acc) => balance_of(&acc.ledger),
            None => 0,
        };
        if t.amount > bal {
            return Err(Error::InsufficientBalance);
        }
        let v = TransferValidated {
            signed_transfer: st,
            key_index: self.info.key_index,
            signer_index: self.info.our_index,
        };
        self.pending.set(
            t.from.0,
            PendingTransfer { st, key_index: self.info.key_index, signers: Vec::new() },
        );
        proof {
            assert forall|k: u64| #[trigger] tbl_has(self.pending@, k) implies (tbl_get(
                self.pending@,
                k,
            ) matches Some(p) && self.pending_entry_wf(k, p)) by {
                if k != t.from.0 {
                    assert(tbl_get(self.pending@, k) == tbl_get(old(self).pending@, k));
                    assert(tbl_has(old(self).pending@, k));
                    let p = tbl_get(old(self).pending@, k)->Some_0;
                    assert(old(self).pending_entry_wf(k, p));
                }
            }
        }
        Ok(Some(v))
    }

    /// How an incoming validation share is settled, as a function of the
    /// replica's state.
    pub open spec fn spec_receive_action(self, v: TransferValidated) -> ReceiveAction {
        let st = v.signed_transfer;
        if v.key_index != self.info.key_index {
            ReceiveAction::DroppedStaleEpoch
        } else if v.signer_index >= self.info.peer_replicas.share_count {
            ReceiveAction::RejectedInvalidShare
        } else if !self.spec_in_flight(st) {
            ReceiveAction::DroppedUnmatched
        } else {
            let p = self.spec_pending(st.transfer.from)->Some_0;
            if p.signers@.contains(v.signer_index) {
                ReceiveAction::DroppedDuplicate
            } else if p.signers@.len() + 1 < self.info.peer_replicas.threshold {
                ReceiveAction::Recorded
            } else if self.spec_balance(st.transfer.to) + st.transfer.amount > u64::MAX {
                ReceiveAction::RejectedOverflow
            } else {
                ReceiveAction::Finalized
            }
        }
    }

    /// Accept one Elder's validation share. A share under a stale section-key
    /// index, for no in-flight transfer, or already seen, is silently dropped.
    /// A fresh share is accumulated; the one that completes the threshold
    /// combines the collected shares into a transfer proof, appends the
    /// transfer to both accounts' ledgers and reports the finalization.
    pub fn receive_validation(&mut self, v: TransferValidated) -> (r: Result<
        Option<TransferProof>,
        Error,
    >)
        requires
            old(self).wf(),
        ensures
            final(self).wf(),
            ({
                let action = old(self).spec_receive_action(v);
                let st = v.signed_transfer;
                let from = st.transfer.from;
                let to = st.transfer.to;
                let amount = st.transfer.amount;
                let p_old = tbl_get(old(self).pending@, from.0)->Some_0;
                &&& (action == ReceiveAction::DroppedStaleEpoch || action
                    == ReceiveAction::DroppedUnmatched || action == ReceiveAction::DroppedDuplicate)
                    ==> r == Result::<Option<TransferProof>, Error>::Ok(None) && *final(self)
                    == *old(self)
                &&& action == ReceiveAction::RejectedInvalidShare ==> r == Result::<
                    Option<TransferProof>,
                    Error,
                >::Err(Error::InvalidSignature) && *final(self) == *old(self)
                &&& action == ReceiveAction::Recorded ==> {
                    &&& r == Result::<Option<TransferProof>, Error>::Ok(None)
                    &&& final(self).info == old(self).info
                    &&& final(self).accounts@ == old(self).accounts@
                    &&& (tbl_get(final(self).pending@, from.0) matches Some(p2) && p2.st
                        == p_old.st && p2.key_index == p_old.key_index && p2.signers@
                        == p_old.signers@.push(v.signer_index))
                    &&& forall|k: u64|
                        k != from.0 ==> tbl_get(final(self).pending@, k) == tbl_get(
                            old(self).pending@,
                            k,
                        )
                }
                &&& action == ReceiveAction::RejectedOverflow ==> {
                    &&& r == Result::<Option<TransferProof>, Error>::Err(Error::ExcessiveValue)
                    &&& final(self).info == old(self).info
                    &&& final(self).accounts@ == old(self).accounts@
                    &&& !tbl_has(final(self).pending@, from.0)
                    &&& forall|k: u64|
                        k != from.0 ==> tbl_get(final(self).pending@, k) == tbl_get(
                            old(self).pending@,
                            k,
                        )
                }
                &&& action == ReceiveAction::Finalized ==> {
                    &&& (r matches Ok(op) && op matches Some(proof) && {
                        &&& proof.signed_transfer == st
                        &&& proof.key_index == v.key_index
                        &&& proof.signers@ == p_old.signers@.push(v.signer_index)
                        &&& proof.signers@.len() == old(self).info.peer_replicas.threshold
                    })
                    &&& final(self).info == old(self).info
                    &&& !tbl_has(final(self).pending@, from.0)
                    &&& forall|k: u64|
                        k != from.0 ==> tbl_get(final(self).pending@, k) == tbl_get(
                            old(self).pending@,
                            k,
                        )
                    &&& final(self).spec_ledger(from).len() == old(self).spec_ledger(from).len()
                        + 1
                    &&& final(self).spec_ledger(from).drop_last() == old(self).spec_ledger(from)
                    &&& (final(self).spec_ledger(from).last() matches LedgerEntry::Debit(dp)
                        && dp.signed_transfer == st && dp.key_index == v.key_index && dp.signers@
                        == p_old.signers@.push(v.signer_index))
                    &&& final(self).spec_ledger(to).len() == old(self).spec_ledger(to).len() + 1
                    &&& final(self).spec_ledger(to).drop_last() == old(self).spec_ledger(to)
                    &&& (final(self).spec_ledger(to).last() matches LedgerEntry::Credit(cp)
                        && cp.signed_transfer == st && cp.key_index == v.key_index && cp.signers@
                        == p_old.signers@.push(v.signer_index))
                    &&& final(self).spec_balance(from) == old(self).spec_balance(from) - amount
                    &&& final(self).spec_balance(to) == old(self).spec_balance(to) + amount
                    &&& final(self).spec_last_seq(from) == old(self).spec_last_seq(from) + 1
                    &&& final(self).spec_last_seq(to) == old(self).spec_last_seq(to)
                    &&& final(self).spec_finalized(st.transfer)
                    &&& forall|a: AccountId|
                        a != from && a != to ==> final(self).spec_ledger(a) == old(
                            self,
                        ).spec_ledger(a)
                }
            }),
    {
        let st = v.signed_transfer;
        let from = st.transfer.from;
        let to = st.transfer.to;
        if v.key_index != self.info.key_index {
            return Ok(None);
        }
        if v.signer_index >= self.info.peer_replicas.share_count {
            return Err(Error::InvalidSignature);
        }
        let matched = match self.pending.get(from.0) {
            Some(p) => p.key_index == self.info.key_index && p.st == st,
            None => false,
        };
        if !matched {
            return Ok(None);
        }
        let dup = match self.pending.get(from.0) {
            Some(p) => contains_u64(&p.signers, v.signer_index),
            None => false,
        };
        if dup {
            return Ok(None);
        }
        proof {
            assert(tbl_has(self.pending@, from.0));
            let p0 = tbl_get(self.pending@, from.0)->Some_0;
            assert(self.pending_entry_wf(from.0, p0));
        }
        let mut p = match self.pending.remove(from.0) {
            Some(x) => x,
            None => {
                proof {
                    assert(false);
                }
                return Ok(None);
            },
        };
        p.signers.push(v.signer_index);
        proof {
            let s_old = tbl_get(old(self).pending@, from.0)->Some_0.signers@;
            let s_new = p.signers@;
            assert(s_new == s_old.push(v.signer_index));
            assert forall|i: int, j: int| 0 <= i < j < s_new.len() implies s_new[i] != s_new[j] by {
                if j < s_old.len() {
                    assert(s_old[i] != s_old[j]);
                } else {
                    assert(s_new[j] == v.signer_index);
                    assert(!s_old.contains(v.signer_index));
                    assert(s_old[i] == s_new[i]);
                }
            }
        }
        if (p.signers.len() as u64) < self.info.peer_replicas.threshold {
            // Below threshold: keep awaiting further shares.
            self.pending.set(from.0, p);
            proof {
                assert forall|k: u64| #[trigger] tbl_has(self.pending@, k) implies (tbl_get(
                    self.pending@,
                    k,
                ) matches Some(q) && self.pending_entry_wf(k, q)) by {
                    if k != from.0 {
                        assert(tbl_get(self.pending@, k) == tbl_get(old(self).pending@, k));
                        assert(tbl_has(old(self).pending@, k));
                        let q = tbl_get(old(self).pending@, k)->Some_0;
                        assert(old(self).pending_entry_wf(k, q));
                    } else {
                        let q_old = tbl_get(old(self).pending@, from.0)->Some_0;
                        assert(old(self).pending_entry_wf(k, q_old));
                    }
                }
            }
            return Ok(None);
        }
        // Threshold reached: settle the transfer.
        proof {
            assert(replay(Seq::<LedgerEntry>::empty()) == 0);
            assert(debit_count(Seq::<LedgerEntry>::empty()) == 0);
            if tbl_has(self.accounts@, to.0) {
                assert(tbl_get(self.accounts@, to.0) matches Some(acc) && wf_account(
                    PublicKey(to.0),
                    acc.ledger@,
                ));
            } else {
                assert(old(self).spec_ledger(to) =~= Seq::<LedgerEntry>::empty());
            }
        }
        let to_bal = match self.accounts.get(to.0) {
            Some(acc) => balance_of(&acc.ledger),
            None => 0,
        };
        if st.transfer.amount > u64::MAX - to_bal {
            // The credit would not be representable; the transfer is
            // abandoned and must be proposed anew.
            proof {
                assert forall|k: u64| #[trigger] tbl_has(self.pending@, k) implies (tbl_get(
                    self.pending@,
                    k,
                ) matches Some(q) && self.pending_entry_wf(k, q)) by {
                    assert(k != from.0);
                    assert(tbl_get(self.pending@, k) == tbl_get(old(self).pending@, k));
                    assert(tbl_has(old(self).pending@, k));
                    let q = tbl_get(old(self).pending@, k)->Some_0;
                    assert(old(self).pending_entry_wf(k, q));
                }
            }
            return Err(Error::ExcessiveValue);
        }
        let signers_credit = clone_u64_vec(&p.signers);
        let signers_ret = clone_u64_vec(&p.signers);
        let debit_proof = TransferProof {
            signed_transfer: st,
            key_index: v.key_index,
            signers: p.signers,
        };
        let credit_proof = TransferProof {
            signed_transfer: st,
            key_index: v.key_index,
            signers: signers_credit,
        };
        let ret_proof = TransferProof {
            signed_transfer: st,
            key_index: v.key_index,
            signers: signers_ret,
        };
        proof {
            // The sender account exists: it covers a positive amount.
            let q_old = tbl_get(old(self).pending@, from.0)->Some_0;
            assert(old(self).pending_entry_wf(from.0, q_old));
            if !tbl_has(self.accounts@, from.0) {
                assert(old(self).spec_ledger(from) =~= Seq::<LedgerEntry>::empty());
                assert(old(self).spec_balance(from) == 0);
            }
            assert(tbl_has(self.accounts@, from.0));
            assert(tbl_get(self.accounts@, from.0) matches Some(acc) && wf_account(
                PublicKey(from.0),
                acc.ledger@,
            ));
        }
        let mut from_acc = match self.accounts.remove(from.0) {
            Some(a) => a,
            None => {
                proof {
                    assert(false);
                }
                return Ok(None);
            },
        };
        proof {
            lemma_account_append(from, from_acc.ledger@, LedgerEntry::Debit(debit_proof));
        }
        from_acc.ledger.push(LedgerEntry::Debit(debit_proof));
        self.accounts.set(from.0, from_acc);
        proof {
            if tbl_has(self.accounts@, to.0) && to.0 != from.0 {
                assert(tbl_get(self.accounts@, to.0) == tbl_get(old(self).accounts@, to.0));
            }
        }
        let mut to_acc = match self.accounts.remove(to.0) {
            Some(a) => a,
            None => AccountState { ledger: Vec::new() },
        };
        proof {
            assert(wf_account(to, to_acc.ledger@));
            lemma_account_append(to, to_acc.ledger@, LedgerEntry::Credit(credit_proof));
        }
        to_acc.ledger.push(LedgerEntry::Credit(credit_proof));
        self.accounts.set(to.0, to_acc);
        proof {
            let lf = self.spec_ledger(from);
            assert(lf.drop_last() =~= old(self).spec_ledger(from));
            let lt = self.spec_ledger(to);
            assert(lt.drop_last() =~= old(self).spec_ledger(to));
            assert(is_debit_of(lf.last(), st.transfer));
            assert(lf[lf.len() - 1] == lf.last());
            assert(self.spec_finalized(st.transfer));
            assert forall|a: AccountId| a != from && a != to implies self.spec_ledger(a) == old(
                self,
            ).spec_ledger(a) by {
                assert(a.0 != from.0 && a.0 != to.0);
                assert(tbl_get(self.accounts@, a.0) == tbl_get(old(self).accounts@, a.0));
            }
            assert forall|k: u64| #[trigger] tbl_has(self.accounts@, k) implies (tbl_get(
                self.accounts@,
                k,
            ) matches Some(acc) && wf_account(PublicKey(k), acc.ledger@)) by {
                if k != from.0 && k != to.0 {
                    assert(tbl_get(self.accounts@, k) == tbl_get(old(self).accounts@, k));
                    assert(tbl_has(old(self).accounts@, k));
                }
            }
            assert forall|k: u64| #[trigger] tbl_has(self.pending@, k) implies (tbl_get(
                self.pending@,
                k,
            ) matches Some(q) && self.pending_entry_wf(k, q)) by {
                assert(k != from.0);
                assert(tbl_get(self.pending@, k) == tbl_get(old(self).pending@, k));
                assert(tbl_has(old(self).pending@, k));
                let q = tbl_get(old(self).pending@, k)->Some_0;
                assert(old(self).pending_entry_wf(k, q));
                if q.key_index == self.info.key_index {
                    let sender = q.st.transfer.from;
                    assert(sender.0 == k);
                    if sender == to {
                        assert(self.spec_balance(sender) == old(self).spec_balance(sender)
                            + st.transfer.amount);
                        assert(self.spec_last_seq(sender) == old(self).spec_last_seq(sender));
                    } else {
                        assert(sender != from && sender != to);
                        assert(self.spec_ledger(sender) == old(self).spec_ledger(sender));
                    }
                }
            }
        }
        Ok(Some(ret_proof))
    }
}

impl Replicas {
    /// The balance of an account, derived by replaying its ledger.
    pub fn balance(&self, a: AccountId) -> (r: Money)
        requires
            self.wf(),
        ensures
            r as int == self.spec_balance(a),
    {
        proof {
            assert(replay(Seq::<LedgerEntry>::empty()) == 0);
            if tbl_has(self.accounts@, a.0) {
                assert(tbl_get(self.accounts@, a.0) matches Some(acc) && wf_account(
                    PublicKey(a.0),
                    acc.ledger@,
                ));
            } else {
                assert(self.spec_ledger(a) =~= Seq::<LedgerEntry>::empty());
            }
        }
        match self.accounts.get(a.0) {
            Some(acc) => balance_of(&acc.ledger),
            None => 0,
        }
    }

    /// The next sequence number owed by an account's proposals.
    pub fn next_seq(&self, a: AccountId) -> (r: Option<u64>)
        requires
            self.wf(),
        ensures
            r matches Some(n) ==> n as int == self.spec_last_seq(a) + 1,
            r is None ==> self.spec_last_seq(a) == u64::MAX,
    {
        proof {
            assert(debit_count(Seq::<LedgerEntry>::empty()) == 0);
            if tbl_has(self.accounts@, a.0) {
                assert(tbl_get(self.accounts@, a.0) matches Some(acc) && wf_account(
                    PublicKey(a.0),
                    acc.ledger@,
                ));
            } else {
                assert(self.spec_ledger(a) =~= Seq::<LedgerEntry>::empty());
            }
        }
        let last = match self.accounts.get(a.0) {
            Some(acc) => debit_count_of(&acc.ledger),
            None => 0,
        };
        if last == u64::MAX {
            None
        } else {
            Some(last + 1)
        }
    }

    /// The account's finalized history, if the account is known here.
    pub fn history(&self, a: AccountId) -> (r: Option<&Vec<LedgerEntry>>)
        requires
            self.wf(),
        ensures
            r matches Some(l) ==> tbl_has(self.accounts@, a.0) && l@ == self.spec_ledger(a),
            r is None ==> !tbl_has(self.accounts@, a.0),
    {
        match self.accounts.get(a.0) {
            Some(acc) => Some(&acc.ledger),
            None => None,
        }
    }

    /// Install a fresh signing context after an elder-set change. The old
    /// context is discarded wholesale; work in flight under the old
    /// section-key index drains away through the stale-epoch checks.
    pub fn update_replica_keys(&mut self, info: ReplicaInfo) -> (r: Result<(), Error>)
        requires
            old(self).wf(),
        ensures
            final(self).wf(),
            r is Ok <==> (info.wf() && info.key_index > old(self).info.key_index),
            r is Err ==> r == Result::<(), Error>::Err(Error::InvalidOperation) && *final(self)
                == *old(self),
            r is Ok ==> final(self).info == info && final(self).accounts@ == old(self).accounts@
                && final(self).pending@ == old(self).pending@,
    {
        let ok = {
            let ks = info.peer_replicas;
            let n = info.section_proof_chain.len();
            1 <= ks.threshold && ks.threshold <= ks.share_count && info.our_index < ks.share_count
                && n >= 1 && (n - 1) as u64 == info.key_index && info.section_proof_chain[n - 1]
                == ks && info.key_index > self.info.key_index
        };
        if !ok {
            return Err(Error::InvalidOperation);
        }
        self.info = info;
        proof {
            assert forall|k: u64| #[trigger] tbl_has(self.pending@, k) implies (tbl_get(
                self.pending@,
                k,
            ) matches Some(p) && self.pending_entry_wf(k, p)) by {
                assert(tbl_has(old(self).pending@, k));
                let p = tbl_get(old(self).pending@, k)->Some_0;
                assert(old(self).pending_entry_wf(k, p));
                assert(p.key_index < self.info.key_index);
            }
        }
        Ok(())
    }

    /// On a section split, partition the ledgers and the in-flight transfers
    /// by account-id prefix membership: this replica keeps the accounts that
    /// fall inside `prefix`, and the returned replica is seeded with exactly
    /// the rest — every account lands on one side and none is dropped.
    pub fn section_split(&mut self, prefix: Prefix) -> (r: Replicas)
        requires
            old(self).wf(),
            prefix.wf(),
        ensures
            final(self).wf(),
            r.wf(),
            final(self).info == old(self).info,
            same_info(r.info, old(self).info),
            forall|k: u64|
                prefix.spec_matches(k) ==> tbl_get(final(self).accounts@, k) == tbl_get(
                    old(self).accounts@,
                    k,
                ) && !tbl_has(r.accounts@, k),
            forall|k: u64|
                !prefix.spec_matches(k) ==> tbl_get(r.accounts@, k) == tbl_get(
                    old(self).accounts@,
                    k,
                ) && !tbl_has(final(self).accounts@, k),
            forall|k: u64|
                prefix.spec_matches(k) ==> tbl_get(final(self).pending@, k) == tbl_get(
                    old(self).pending@,
                    k,
                ) && !tbl_has(r.pending@, k),
            forall|k: u64|
                !prefix.spec_matches(k) ==> tbl_get(r.pending@, k) == tbl_get(
                    old(self).pending@,
                    k,
                ) && !tbl_has(final(self).pending@, k),
    {
        let mut accounts = Table::new();
        core::mem::swap(&mut accounts, &mut self.accounts);
        let ghost acc0 = accounts@;
        let (kept_accounts, departed_accounts) = partition_table(accounts, prefix);
        self.accounts = kept_accounts;
        let mut pending = Table::new();
        core::mem::swap(&mut pending, &mut self.pending);
        let ghost pend0 = pending@;
        let (kept_pending, departed_pending) = partition_table(pending, prefix);
        self.pending = kept_pending;
        let departed = Replicas {
            info: clone_replica_info(&self.info),
            accounts: departed_accounts,
            pending: departed_pending,
        };
        proof {
            assert(acc0 == old(self).accounts@);
            assert(pend0 == old(self).pending@);
            assert forall|k: u64| #[trigger] tbl_has(self.accounts@, k) implies tbl_get(
                self.accounts@,
                k,
            ) == tbl_get(old(self).accounts@, k) && prefix.spec_matches(k) == true by {
                if !prefix.spec_matches(k) {
                    assert(!tbl_has(self.accounts@, k));
                }
            }
            assert forall|k: u64| #[trigger] tbl_has(self.pending@, k) implies tbl_get(
                self.pending@,
                k,
            ) == tbl_get(old(self).pending@, k) && prefix.spec_matches(k) == true by {
                if !prefix.spec_matches(k) {
                    assert(!tbl_has(self.pending@, k));
                }
            }
            assert forall|k: u64| #[trigger] tbl_has(departed.accounts@, k) implies tbl_get(
                departed.accounts@,
                k,
            ) == tbl_get(old(self).accounts@, k) && prefix.spec_matches(k) == false by {
                if prefix.spec_matches(k) {
                    assert(!tbl_has(departed.accounts@, k));
                }
            }
            assert forall|k: u64| #[trigger] tbl_has(departed.pending@, k) implies tbl_get(
                departed.pending@,
                k,
            ) == tbl_get(old(self).pending@, k) && prefix.spec_matches(k) == false by {
                if prefix.spec_matches(k) {
                    assert(!tbl_has(departed.pending@, k));
                }
            }
            lemma_split_side_wf(*old(self), *self, prefix, true);
            lemma_split_side_wf(*old(self), departed, prefix, false);
        }
        departed
    }
}

/// Two signing contexts agree on every field (their proof chains may be
/// distinct owned copies with the same content).
pub open spec fn same_info(a: ReplicaInfo, b: ReplicaInfo) -> bool {
    &&& a.id == b.id
    &&& a.our_index == b.our_index
    &&& a.key_index == b.key_index
    &&& a.peer_replicas == b.peer_replicas
    &&& a.section_proof_chain@ == b.section_proof_chain@
    &&& a.initiating == b.initiating
}

/// An owned copy of a replica's signing context.
fn clone_replica_info(info: &ReplicaInfo) -> (r: ReplicaInfo)
    ensures
        r.id == info.id,
        r.our_index == info.our_index,
        r.key_index == info.key_index,
        r.peer_replicas == info.peer_replicas,
        r.section_proof_chain@ == info.section_proof_chain@,
        r.initiating == info.initiating,
        info.wf() ==> r.wf(),
{
    let n = info.section_proof_chain.len();
    let mut chain: Vec<KeySet> = Vec::new();
    let mut i: usize = 0;
    while i < n
        invariant
            n == info.section_proof_chain@.len(),
            i <= n,
            chain@ =~= info.section_proof_chain@.take(i as int),
        decreases n - i,
    {
        chain.push(info.section_proof_chain[i]);
        proof {
            assert(chain@ =~= info.section_proof_chain@.take(i as int + 1));
        }
        i += 1;
    }
    proof {
        assert(info.section_proof_chain@.take(n as int) =~= info.section_proof_chain@);
    }
    ReplicaInfo {
        id: info.id,
        our_index: info.our_index,
        key_index: info.key_index,
        peer_replicas: info.peer_replicas,
        section_proof_chain: chain,
        initiating: info.initiating,
    }
}

/// Split a table in two by prefix membership of the keys: entries whose key
/// matches land in the first result, all others in the second.
fn partition_table<V>(t: Table<V>, prefix: Prefix) -> (r: (Table<V>, Table<V>))
    requires
        t.wf(),
        prefix.wf(),
    ensures
        r.0.wf(),
        r.1.wf(),
        forall|k: u64|
            prefix.spec_matches(k) ==> tbl_get(r.0@, k) == tbl_get(t@, k) && !tbl_has(r.1@, k),
        forall|k: u64|
            !prefix.spec_matches(k) ==> tbl_get(r.1@, k) == tbl_get(t@, k) && !tbl_has(r.0@, k),
{
    let mut src = t;
    let mut ins: Table<V> = Table::new();
    let mut outs: Table<V> = Table::new();
    proof {
        assert(src@ =~= t@.take(src@.len() as int));
    }
    loop
        invariant
            src.wf(),
            ins.wf(),
            outs.wf(),
            prefix.wf(),
            t.wf(),
            src@.len() <= t@.len(),
            src@ == t@.take(src@.len() as int),
            forall|k: u64|
                #[trigger] tbl_has(ins@, k) ==> prefix.spec_matches(k) && tbl_get(ins@, k)
                    == tbl_get(t@, k),
            forall|k: u64|
                #[trigger] tbl_has(outs@, k) ==> !prefix.spec_matches(k) && tbl_get(outs@, k)
                    == tbl_get(t@, k),
            forall|k: u64|
                #[trigger] tbl_has(t@, k) && !tbl_has(src@, k) ==> tbl_has(ins@, k) || tbl_has(
                    outs@,
                    k,
                ),
        decreases src@.len(),
    {
        let ghost src_pre = src@;
        let popped = src.pop();
        match popped {
            Some((k, v)) => {
                proof {
                    let m = src_pre.len() as int;
                    assert(m >= 1);
                    assert((k, v) == src_pre.last());
                    assert(src_pre[m - 1] == (k, v));
                    assert(src_pre == t@.take(m));
                    assert(t@.take(m)[m - 1] == t@[m - 1]);
                    assert(t@[m - 1] == (k, v));
                    lemma_get_at(t@, m - 1);
                    lemma_get_at(src_pre, m - 1);
                    assert(src@ =~= t@.take(src@.len() as int));
                    // A key leaves `src` exactly when it is the popped one.
                    assert forall|k2: u64| tbl_has(src_pre, k2) && k2 != k implies tbl_has(
                        src@,
                        k2,
                    ) by {
                        let i = tbl_index(src_pre, k2);
                        assert(0 <= i < m && src_pre[i].0 == k2);
                        assert(i != m - 1);
                        assert(src@[i] == src_pre[i]);
                    }
                    assert forall|i: int| 0 <= i < src@.len() implies src@[i].0 != k by {
                        assert(src@[i] == t@[i]);
                        assert(t@[i].0 != t@[m - 1].0);
                    }
                    assert(!tbl_has(src@, k));
                }
                if prefix.matches(crate::types::XorName(k)) {
                    ins.set(k, v);
                } else {
                    outs.set(k, v);
                }
            },
            None => {
                proof {
                    assert(src@.len() == 0);
                    assert forall|k: u64| prefix.spec_matches(k) implies tbl_get(ins@, k)
                        == tbl_get(t@, k) && !tbl_has(outs@, k) by {
                        if tbl_has(t@, k) {
                            assert(!tbl_has(src@, k));
                            assert(tbl_has(ins@, k) || tbl_has(outs@, k));
                        } else {
                            if tbl_has(ins@, k) {
                                assert(tbl_get(ins@, k) == tbl_get(t@, k));
                            }
                        }
                    }
                    assert forall|k: u64| !prefix.spec_matches(k) implies tbl_get(outs@, k)
                        == tbl_get(t@, k) && !tbl_has(ins@, k) by {
                        if tbl_has(t@, k) {
                            assert(!tbl_has(src@, k));
                            assert(tbl_has(ins@, k) || tbl_has(outs@, k));
                        } else {
                            if tbl_has(outs@, k) {
                                assert(tbl_get(outs@, k) == tbl_get(t@, k));
                            }
                        }
                    }
                }
                return (ins, outs);
            },
        }
    }
}

/// Both sides of a split are well-formed: each keeps whole accounts with
/// their ledgers, and a side's in-flight transfers settle against accounts
/// that live on the same side.
proof fn lemma_split_side_wf(orig: Replicas, side: Replicas, prefix: Prefix, kept: bool)
    requires
        orig.wf(),
        side.info.wf(),
        side.info.key_index == orig.info.key_index,
        side.info.peer_replicas == orig.info.peer_replicas,
        side.accounts.wf(),
        side.pending.wf(),
        forall|k: u64|
            #[trigger] tbl_has(side.accounts@, k) ==> tbl_get(side.accounts@, k) == tbl_get(
                orig.accounts@,
                k,
            ) && prefix.spec_matches(k) == kept,
        forall|k: u64|
            #[trigger] tbl_has(side.pending@, k) ==> tbl_get(side.pending@, k) == tbl_get(
                orig.pending@,
                k,
            ) && prefix.spec_matches(k) == kept,
        forall|k: u64|
            prefix.spec_matches(k) == kept ==> tbl_get(side.accounts@, k) == tbl_get(
                orig.accounts@,
                k,
            ),
    ensures
        side.wf(),
{
    assert forall|k: u64| #[trigger] tbl_has(side.accounts@, k) implies (tbl_get(
        side.accounts@,
        k,
    ) matches Some(acc) && wf_account(PublicKey(k), acc.ledger@)) by {
        assert(tbl_get(side.accounts@, k) == tbl_get(orig.accounts@, k));
        assert(tbl_has(orig.accounts@, k));
    }
    assert forall|k: u64| #[trigger] tbl_has(side.pending@, k) implies (tbl_get(
        side.pending@,
        k,
    ) matches Some(p) && side.pending_entry_wf(k, p)) by {
        assert(tbl_get(side.pending@, k) == tbl_get(orig.pending@, k));
        assert(tbl_has(orig.pending@, k));
        let p = tbl_get(orig.pending@, k)->Some_0;
        assert(orig.pending_entry_wf(k, p));
        if p.key_index == side.info.key_index {
            let sender = p.st.transfer.from;
            assert(sender.0 == k);
            assert(tbl_get(side.accounts@, sender.0) == tbl_get(orig.accounts@, sender.0));
            assert(side.spec_ledger(sender) == orig.spec_ledger(sender));
        }
    }
}

proof fn lemma_debit_count_take_succ(l: Seq<LedgerEntry>, i: int)
    requires
        0 <= i < l.len(),
    ensures
        debit_count(l.take(i + 1)) == debit_count(l.take(i)) + if l[i] is Debit {
            1int
        } else {
            0int
        },
{
    assert(l.take(i + 1).drop_last() =~= l.take(i));
    assert(l.take(i + 1).last() == l[i]);
}

proof fn lemma_debit_count_mono(l: Seq<LedgerEntry>, i: int, j: int)
    requires
        0 <= i <= j <= l.len(),
    ensures
        debit_count(l.take(i)) <= debit_count(l.take(j)),
    decreases j - i,
{
    if i < j {
        lemma_debit_count_mono(l, i, j - 1);
        lemma_debit_count_take_succ(l, j - 1);
    }
}

/// No double settlement: in a well-formed ledger the debits carry strictly
/// increasing sequence numbers, so no transfer is finalized twice and no two
/// conflicting finalized transfers share a sequence number.
pub proof fn lemma_debits_unique(a: AccountId, l: Seq<LedgerEntry>)
    requires
        wf_account(a, l),
    ensures
        forall|i: int, j: int|
            0 <= i < j < l.len() && (#[trigger] l[i]) is Debit && (#[trigger] l[j]) is Debit
                ==> l[i]->Debit_0.signed_transfer.transfer.seq
                != l[j]->Debit_0.signed_transfer.transfer.seq,
{
    assert forall|i: int, j: int|
        0 <= i < j < l.len() && (#[trigger] l[i]) is Debit && (#[trigger] l[j]) is Debit
            implies l[i]->Debit_0.signed_transfer.transfer.seq
        != l[j]->Debit_0.signed_transfer.transfer.seq by {
        assert(entry_wf_at(a, l, i));
        assert(entry_wf_at(a, l, j));
        lemma_debit_count_take_succ(l, i);
        lemma_debit_count_mono(l, i + 1, j);
        assert(debit_count(l.take(i)) + 1 <= debit_count(l.take(j)));
    }
}

/// Ordering: a proposal whose sequence number is not exactly one past the
/// account's last finalized sequence number never earns a validation share.
pub proof fn lemma_ordering_rejects_wrong_seq(r: Replicas, st: SignedTransfer)
    requires
        r.wf(),
        st.transfer.seq != r.spec_last_seq(st.transfer.from) + 1,
    ensures
        !(r.spec_propose_outcome(st) matches Ok(Some(_))),
{
}

/// Ordering: a proposal that was accepted is a silent no-op when it is
/// delivered a second time — it is accepted exactly once.
pub proof fn lemma_ordering_replay_noop(pre: Replicas, post: Replicas, st: SignedTransfer)
    requires
        pre.wf(),
        pre.spec_propose_outcome(st) matches Ok(Some(_)),
        post.info == pre.info,
        tbl_get(post.pending@, st.transfer.from.0) matches Some(p) && p.st == st && p.key_index
            == post.info.key_index,
    ensures
        post.spec_propose_outcome(st) == Result::<Option<TransferValidated>, Error>::Ok(None),
{
    assert(post.spec_in_flight(st));
}

/// Threshold safety: a validation share finalizes its transfer exactly when
/// it is a fresh share under the current section-key index that completes the
/// quorum threshold (and the credit stays representable); with fewer shares
/// collected it is merely recorded.
pub proof fn lemma_threshold_finalizes(r: Replicas, v: TransferValidated)
    requires
        r.wf(),
    ensures
        r.spec_receive_action(v) == ReceiveAction::Finalized <==> ({
            let st = v.signed_transfer;
            let p = r.spec_pending(st.transfer.from)->Some_0;
            &&& v.key_index == r.info.key_index
            &&& v.signer_index < r.info.peer_replicas.share_count
            &&& r.spec_in_flight(st)
            &&& !p.signers@.contains(v.signer_index)
            &&& p.signers@.len() + 1 >= r.info.peer_replicas.threshold
            &&& r.spec_balance(st.transfer.to) + st.transfer.amount <= u64::MAX
        }),
        ({
            let st = v.signed_transfer;
            let p = r.spec_pending(st.transfer.from)->Some_0;
            (v.key_index == r.info.key_index && v.signer_index
                < r.info.peer_replicas.share_count && r.spec_in_flight(st)
                && !p.signers@.contains(v.signer_index) && p.signers@.len() + 1
                < r.info.peer_replicas.threshold) ==> r.spec_receive_action(v)
                == ReceiveAction::Recorded
        }),
{
}

/// Threshold safety: once a transfer is finalized, further validation shares
/// for it find nothing in flight and are dropped without effect.
pub proof fn lemma_finalized_settled(r: Replicas, v: TransferValidated)
    requires
        r.wf(),
        r.spec_finalized(v.signed_transfer.transfer),
    ensures
        !r.spec_in_flight(v.signed_transfer),
        r.spec_receive_action(v) == ReceiveAction::DroppedStaleEpoch || r.spec_receive_action(v)
            == ReceiveAction::RejectedInvalidShare || r.spec_receive_action(v)
            == ReceiveAction::DroppedUnmatched,
{
    let st = v.signed_transfer;
    let from = st.transfer.from;
    if r.spec_in_flight(st) {
        let p = r.spec_pending(from)->Some_0;
        assert(tbl_has(r.pending@, from.0));
        assert(r.pending_entry_wf(from.0, p));
        let l = r.spec_ledger(from);
        let i = choose|i: int| 0 <= i < l.len() && is_debit_of(#[trigger] l[i], st.transfer);
        assert(0 <= i < l.len() && is_debit_of(l[i], st.transfer));
        if !tbl_has(r.accounts@, from.0) {
            assert(l =~= Seq::<LedgerEntry>::empty());
        }
        assert(tbl_get(r.accounts@, from.0) matches Some(acc) && wf_account(
            PublicKey(from.0),
            acc.ledger@,
        ));
        assert(entry_wf_at(PublicKey(from.0), l, i));
        lemma_debit_count_take_succ(l, i);
        lemma_debit_count_mono(l, i + 1, l.len() as int);
        assert(l.take(l.len() as int) =~= l);
        assert(st.transfer.seq <= debit_count(l));
        assert(st.transfer.seq == r.spec_last_seq(from) + 1);
        assert(false);
    }
}

/// Churn isolation: a validation produced under a section-key index other
/// than the replica's current one is dropped and contributes to no threshold.
pub proof fn lemma_stale_epoch_dropped(r: Replicas, v: TransferValidated)
    requires
        v.key_index != r.info.key_index,
    ensures
        r.spec_receive_action(v) == ReceiveAction::DroppedStaleEpoch,
{
}

/// Split partition: after a section split, every account lands on exactly one
/// of the two resulting replicas — the side whose prefix it matches — with
/// its ledger intact, and no account is dropped or invented.
pub proof fn lemma_split_partition(
    orig: Replicas,
    kept: Replicas,
    departed: Replicas,
    prefix: Prefix,
)
    requires
        forall|k: u64|
            prefix.spec_matches(k) ==> tbl_get(kept.accounts@, k) == tbl_get(orig.accounts@, k)
                && !tbl_has(departed.accounts@, k),
        forall|k: u64|
            !prefix.spec_matches(k) ==> tbl_get(departed.accounts@, k) == tbl_get(
                orig.accounts@,
                k,
            ) && !tbl_has(kept.accounts@, k),
    ensures
        forall|k: u64|
            #[trigger] tbl_has(orig.accounts@, k) ==> {
                &&& tbl_has(kept.accounts@, k) == prefix.spec_matches(k)
                &&& tbl_has(departed.accounts@, k) == !prefix.spec_matches(k)
                &&& (prefix.spec_matches(k) ==> tbl_get(kept.accounts@, k) == tbl_get(
                    orig.accounts@,
                    k,
                ))
                &&& (!prefix.spec_matches(k) ==> tbl_get(departed.accounts@, k) == tbl_get(
                    orig.accounts@,
                    k,
                ))
            },
        forall|k: u64|
            !tbl_has(orig.accounts@, k) ==> !tbl_has(kept.accounts@, k) && !tbl_has(
                departed.accounts@,
                k,
            ),
{
    assert forall|k: u64| #[trigger] tbl_has(orig.accounts@, k) implies tbl_has(kept.accounts@, k)
        == prefix.spec_matches(k) && tbl_has(departed.accounts@, k) == !prefix.spec_matches(
        k,
    ) by {
        if prefix.spec_matches(k) {
            assert(tbl_get(kept.accounts@, k) == tbl_get(orig.accounts@, k));
        } else {
            assert(tbl_get(departed.accounts@, k) == tbl_get(orig.accounts@, k));
        }
    }
    assert forall|k: u64| !tbl_has(orig.accounts@, k) implies !tbl_has(kept.accounts@, k)
        && !tbl_has(departed.accounts@, k) by {
        if prefix.spec_matches(k) {
            assert(tbl_get(kept.accounts@, k) == tbl_get(orig.accounts@, k));
        } else {
            assert(tbl_get(departed.accounts@, k) == tbl_get(orig.accounts@, k));
        }
    }
}

/// The fate of one incoming validation share.
#[derive(Clone, Copy, PartialEq, Eq, Structural, Debug)]
pub enum ReceiveAction {
    /// Produced under an old section-key index; expected churn noise.
    DroppedStaleEpoch,
    /// The share index does not belong to the current key set.
    RejectedInvalidShare,
    /// No matching transfer is awaiting validations here.
    DroppedUnmatched,
    /// This elder's share was already collected.
    DroppedDuplicate,
    /// Accumulated; the threshold is not yet reached.
    Recorded,
    /// The credit would not be representable.
    RejectedOverflow,
    /// The share completed the threshold; the transfer is settled.
    Finalized,
}

/// Whether the ledger holds a debit carrying exactly `t`.
fn ledger_contains_debit(l: &Vec<LedgerEntry>, t: Transfer) -> (r: bool)
    ensures
        r == ledger_has_debit(l@, t),
{
    let n = l.len();
    let mut i: usize = 0;
    while i < n
        invariant
            n == l@.len(),
            i <= n,
            forall|j: int| 0 <= j < i ==> !is_debit_of(#[trigger] l@[j], t),
        decreases n - i,
    {
        match &l[i] {
            LedgerEntry::Debit(p) => {
                if p.signed_transfer.transfer == t {
                    proof {
                        assert(is_debit_of(l@[i as int], t));
                    }
                    return true;
                }
            },
            _ => {},
        }
        i += 1;
    }
    false
}

/// The replay of a whole ledger, total because every historical balance is
/// known to stay representable.
fn balance_of(l: &Vec<LedgerEntry>) -> (r: u64)
    requires
        forall|i: int| 0 <= i <= l@.len() ==> 0 <= #[trigger] replay(l@.take(i)) <= u64::MAX,
    ensures
        r as int == replay(l@),
{
    let n = l.len();
    let mut acc: u64 = 0;
    let mut i: usize = 0;
    proof {
        assert(l@.take(0) =~= Seq::<LedgerEntry>::empty());
        assert(replay(Seq::<LedgerEntry>::empty()) == 0);
    }
    while i < n
        invariant
            n == l@.len(),
            i <= n,
            acc as int == replay(l@.take(i as int)),
            forall|j: int| 0 <= j <= l@.len() ==> 0 <= #[trigger] replay(l@.take(j)) <= u64::MAX,
        decreases n - i,
    {
        proof {
            assert(l@.take(i as int + 1).drop_last() =~= l@.take(i as int));
            assert(l@.take(i as int + 1).last() == l@[i as int]);
            assert(replay(l@.take(i as int + 1)) == replay(l@.take(i as int)) + entry_delta(
                l@[i as int],
            ));
        }
        match &l[i] {
            LedgerEntry::Genesis { amount } => {
                acc = acc + *amount;
            },
            LedgerEntry::Credit(p) => {
                acc = acc + p.signed_transfer.transfer.amount;
            },
            LedgerEntry::Debit(p) => {
                acc = acc - p.signed_transfer.transfer.amount;
            },
        }
        i += 1;
    }
    proof {
        assert(l@.take(n as int) =~= l@);
    }
    acc
}

/// How many debits the ledger holds.
fn debit_count_of(l: &Vec<LedgerEntry>) -> (r: u64)
    ensures
        r as int == debit_count(l@),
        debit_count(l@) <= l@.len(),
{
    let n = l.len();
    let mut count: u64 = 0;
    let mut i: usize = 0;
    proof {
        assert(l@.take(0) =~= Seq::<LedgerEntry>::empty());
        assert(debit_count(Seq::<LedgerEntry>::empty()) == 0);
    }
    while i < n
        invariant
            n == l@.len(),
            i <= n,
            count as int == debit_count(l@.take(i as int)),
            debit_count(l@.take(i as int)) <= i,
        decreases n - i,
    {
        proof {
            assert(l@.take(i as int + 1).drop_last() =~= l@.take(i as int));
            assert(l@.take(i as int + 1).last() == l@[i as int]);
        }
        match &l[i] {
            LedgerEntry::Debit(_) => {
                count = count + 1;
            },
            _ => {},
        }
        i += 1;
    }
    proof {
        assert(l@.take(n as int) =~= l@);
    }
    count
}

/// Whether a share index was already collected.
fn contains_u64(v: &Vec<u64>, x: u64) -> (r: bool)
    ensures
        r == v@.contains(x),
{
    let n = v.len();
    let mut i: usize = 0;
    while i < n
        invariant
            n == v@.len(),
            i <= n,
            forall|j: int| 0 <= j < i ==> v@[j] != x,
        decreases n - i,
    {
        if v[i] == x {
            return true;
        }
        i += 1;
    }
    false
}

/// An owned copy of a share-index list.
fn clone_u64_vec(v: &Vec<u64>) -> (r: Vec<u64>)
    ensures
        r@ == v@,
{
    let n = v.len();
    let mut r: Vec<u64> = Vec::new();
    let mut i: usize = 0;
    while i < n
        invariant
            n == v@.len(),
            i <= n,
            r@ =~= v@.take(i as int),
        decreases n - i,
    {
        r.push(v[i]);
        proof {
            assert(r@ =~= v@.take(i as int + 1));
        }
        i += 1;
    }
    proof {
        assert(v@.take(n as int) =~= v@);
    }
    r
}

/// Appending an entry extends every old prefix unchanged and shifts the
/// replay and debit count by the new entry alone.
pub proof fn lemma_append_entry(l: Seq<LedgerEntry>, e: LedgerEntry)
    ensures
        replay(l.push(e)) == replay(l) + entry_delta(e),
        debit_count(l.push(e)) == debit_count(l) + if e is Debit {
            1int
        } else {
            0int
        },
        forall|i: int| 0 <= i <= l.len() ==> #[trigger] (l.push(e)).take(i) == l.take(i),
{
    assert((l.push(e)).drop_last() =~= l);
    assert forall|i: int| 0 <= i <= l.len() implies #[trigger] (l.push(e)).take(i) == l.take(
        i,
    ) by {
        assert((l.push(e)).take(i) =~= l.take(i));
    }
}

/// A well-formed ledger stays well-formed under a fitting append.
pub proof fn lemma_account_append(a: AccountId, l: Seq<LedgerEntry>, e: LedgerEntry)
    requires
        wf_account(a, l),
        !(e is Genesis) || l.len() == 0,
        e matches LedgerEntry::Debit(p) ==> {
            &&& p.signed_transfer.transfer.from == a
            &&& sig_ok(p.signed_transfer)
            &&& p.signed_transfer.transfer.seq == debit_count(l) + 1
            &&& p.signed_transfer.transfer.amount <= replay(l)
        },
        e matches LedgerEntry::Credit(p) ==> {
            &&& p.signed_transfer.transfer.to == a
            &&& replay(l) + p.signed_transfer.transfer.amount <= u64::MAX
        },
        e matches LedgerEntry::Genesis { amount } ==> amount <= u64::MAX,
    ensures
        wf_account(a, l.push(e)),
        replay(l.push(e)) == replay(l) + entry_delta(e),
        debit_count(l.push(e)) == debit_count(l) + if e is Debit {
            1int
        } else {
            0int
        },
{
    lemma_append_entry(l, e);
    let l2 = l.push(e);
    assert(replay(l.take(l.len() as int)) == replay(l)) by {
        assert(l.take(l.len() as int) =~= l);
    }
    assert forall|i: int| 0 <= i < l2.len() implies entry_wf_at(a, l2, i) by {
        if i < l.len() {
            assert(entry_wf_at(a, l, i));
            assert(l2.take(i) == l.take(i));
            assert(l2[i] == l[i]);
        } else {
            assert(l2[i] == e);
            assert(l2.take(i) == l.take(i));
            assert(l.take(l.len() as int) =~= l);
        }
    }
    assert forall|i: int| 0 <= i <= l2.len() implies 0 <= #[trigger] replay(l2.take(i))
        <= u64::MAX by {
        if i <= l.len() {
            assert(l2.take(i) == l.take(i));
        } else {
            assert(l2.take(i) =~= l2);
        }
    }
}

} // verus!

