//! The section funds / reward coordinator: issues reward payouts by driving
//! a transfer actor through transfer initiation and validation collection.
//!
//! A payout is proposed once; its validations are routed back in until the
//! quorum threshold combines them into a proof, and the finalized payout is
//! announced network-wide. A local validation error is reported by answering
//! nothing; retry is the caller's responsibility.

use crate::node_msgs::{Message, MessagingDuty, NetworkCmd};
use crate::transfers::{
    sig_ok, AccountId, ClientSignature, KeySet, SignedTransfer, Transfer, TransferProof,
    TransferValidated,
};
use crate::types::{MessageId, Money};
use vstd::prelude::*;

verus! {

/// Mints ids for an Elder's outbound decisions.
#[derive(Clone, Copy, PartialEq, Eq, Structural, Debug)]
pub struct ElderMsgDecisions {
    pub next_msg_id: u64,
}

impl ElderMsgDecisions {
    pub fn new() -> (r: ElderMsgDecisions)
        ensures
            r.next_msg_id == 0,
    {
        ElderMsgDecisions { next_msg_id: 0 }
    }

    /// Stamp a fresh id and hand the message to the messaging layer.
    pub fn send(&mut self, message: Message) -> (r: Option<MessagingDuty>)
        ensures
            r == Some(MessagingDuty::Send(message)),
            final(self).next_msg_id == old(self).next_msg_id.wrapping_add(1),
    {
        self.next_msg_id = self.next_msg_id.wrapping_add(1);
        Some(MessagingDuty::Send(message))
    }
}

/// A proposed transfer, waiting to be applied to the actor.
#[derive(Clone, Copy, PartialEq, Eq, Structural, Debug)]
pub struct TransferInitiated {
    pub signed_transfer: SignedTransfer,
}

/// A collected validation share, with the proof it may have completed.
#[derive(PartialEq, Eq, Debug)]
pub struct TransferValidationReceived {
    pub validation: TransferValidated,
    pub proof: Option<TransferProof>,
}

/// An event the actor applies to its own state.
#[derive(PartialEq, Eq, Debug)]
pub enum ActorEvent {
    TransferInitiated(TransferInitiated),
    TransferValidationReceived(TransferValidationReceived),
}

/// An in-flight payout and the shares collected for it.
#[derive(PartialEq, Eq, Debug)]
pub struct PendingActorTransfer {
    pub st: SignedTransfer,
    pub signers: Vec<u64>,
}

/// An error raised while driving the actor.
#[derive(Clone, Copy, PartialEq, Eq, Structural, Debug)]
pub enum ActorError {
    /// The owner signature does not match the sending account.
    InvalidSignature,
    /// Sender and recipient are the same account.
    SameSenderAndRecipient,
    /// Zero-amount transfers are not accepted.
    ZeroValueTransfer,
    /// The account does not cover the amount.
    InsufficientBalance,
    /// The event does not fit the actor's state.
    InvalidOperation,
}

/// The sending side of the transfer protocol: holds the section's funds
/// account, proposes transfers from it, and accumulates validation shares
/// until threshold-many combine into a proof.
pub struct TransferActor {
    /// The account this actor spends from.
    pub id: AccountId,
    /// The current section key set.
    pub key_set: KeySet,
    /// The current section-key index.
    pub key_index: u64,
    /// The account's balance, as last synchronized with the replicas.
    pub balance: Money,
    /// The next sequence number a proposal must carry.
    pub next_seq: u64,
    /// The one in-flight transfer, if any.
    pub pending: Option<PendingActorTransfer>,
}

impl TransferActor {
    pub open spec fn wf(self) -> bool {
        &&& self.key_set.wf()
        &&& self.pending matches Some(p) ==> {
            &&& p.st.transfer.from == self.id
            &&& sig_ok(p.st)
            &&& p.st.transfer.from != p.st.transfer.to
            &&& p.st.transfer.amount > 0
            &&& p.st.transfer.amount <= self.balance
            &&& p.st.transfer.seq == self.next_seq
            &&& p.signers@.len() < self.key_set.threshold
            &&& (forall|i: int, j: int|
                0 <= i < j < p.signers@.len() ==> p.signers@[i] != p.signers@[j])
            &&& (forall|i: int|
                0 <= i < p.signers@.len() ==> #[trigger] p.signers@[i] < self.key_set.share_count)
        }
    }

    /// A fresh actor over the given account, synchronized to the given
    /// balance and next sequence number.
    pub fn new(id: AccountId, key_set: KeySet, key_index: u64, balance: Money, next_seq: u64) -> (r:
        Result<TransferActor, ActorError>)
        ensures
            r matches Ok(actor) ==> actor.wf() && actor == (TransferActor {
                id,
                key_set,
                key_index,
                balance,
                next_seq,
                pending: None,
            }),
            r is Err ==> r == Result::<TransferActor, ActorError>::Err(ActorError::InvalidOperation)
                && !key_set.wf(),
    {
        if !(1 <= key_set.threshold && key_set.threshold <= key_set.share_count) {
            return Err(ActorError::InvalidOperation);
        }
        Ok(TransferActor { id, key_set, key_index, balance, next_seq, pending: None })
    }

    /// What proposing a transfer yields, as a function of the actor's state.
    pub open spec fn spec_transfer(self, amount: Money, to: AccountId) -> Result<
        Option<TransferInitiated>,
        ActorError,
    > {
        if self.pending is Some {
            Result::Ok(None)
        } else if to == self.id {
            Result::Err(ActorError::SameSenderAndRecipient)
        } else if amount == 0 {
            Result::Err(ActorError::ZeroValueTransfer)
        } else if amount > self.balance {
            Result::Err(ActorError::InsufficientBalance)
        } else {
            Result::Ok(
                Some(
                    TransferInitiated {
                        signed_transfer: SignedTransfer {
                            transfer: Transfer { from: self.id, to, amount, seq: self.next_seq },
                            client_signature: ClientSignature { signer: self.id },
                        },
                    },
                ),
            )
        }
    }

    /// Propose a transfer from the actor's account: produces the signed
    /// transfer to announce, or the exact rejection; with one already in
    /// flight, nothing.
    pub fn transfer(&self, amount: Money, to: AccountId) -> (r: Result<
        Option<TransferInitiated>,
        ActorError,
    >)
        ensures
            r == self.spec_transfer(amount, to),
    {
        if self.pending.is_some() {
            return Ok(None);
        }
        if to == self.id {
            return Err(ActorError::SameSenderAndRecipient);
        }
        if amount == 0 {
            return Err(ActorError::ZeroValueTransfer);
        }
        if amount > self.balance {
            return Err(ActorError::InsufficientBalance);
        }
        Ok(
            Some(
                TransferInitiated {
                    signed_transfer: SignedTransfer {
                        transfer: Transfer { from: self.id, to, amount, seq: self.next_seq },
                        client_signature: ClientSignature { signer: self.id },
                    },
                },
            ),
        )
    }

    /// Whether a validation share is fresh for the in-flight transfer.
    pub open spec fn spec_accepts_validation(self, v: TransferValidated) -> bool {
        &&& self.pending matches Some(p) && p.st == v.signed_transfer
        &&& v.key_index == self.key_index
        &&& v.signer_index < self.key_set.share_count
        &&& !(self.pending->Some_0).signers@.contains(v.signer_index)
    }

    /// Accept one Elder's validation share for the in-flight transfer. Stale,
    /// unmatched or duplicate shares are dropped silently; a fresh share is
    /// reported, together with the proof when it completes the threshold.
    pub fn receive(&self, validation: TransferValidated) -> (r: Result<
        Option<TransferValidationReceived>,
        ActorError,
    >)
        requires
            self.wf(),
        ensures
            r is Err ==> r == Result::<Option<TransferValidationReceived>, ActorError>::Err(
                ActorError::InvalidSignature,
            ) && v_bad_share(*self, validation),
            r is Ok ==> !v_bad_share(*self, validation),
            (r matches Ok(Some(_))) <==> self.spec_accepts_validation(validation),
            r matches Ok(Some(ev)) ==> {
                &&& ev.validation == validation
                &&& (ev.proof is Some) <==> ((self.pending->Some_0).signers@.len() + 1
                    >= self.key_set.threshold)
                &&& ev.proof matches Some(p) ==> p.signed_transfer == validation.signed_transfer
                    && p.key_index == validation.key_index && p.signers@ == (
                self.pending->Some_0).signers@.push(validation.signer_index)
            },
    {
        if validation.key_index != self.key_index {
            return Ok(None);
        }
        if validation.signer_index >= self.key_set.share_count {
            return Err(ActorError::InvalidSignature);
        }
        let p = match &self.pending {
            Some(p) => p,
            None => {
                return Ok(None);
            },
        };
        if !(p.st == validation.signed_transfer) {
            return Ok(None);
        }
        if contains_index(&p.signers, validation.signer_index) {
            return Ok(None);
        }
        let proof = if (p.signers.len() as u64) + 1 >= self.key_set.threshold {
            let mut signers: Vec<u64> = copy_indices(&p.signers);
            signers.push(validation.signer_index);
            Some(
                TransferProof {
                    signed_transfer: validation.signed_transfer,
                    key_index: validation.key_index,
                    signers,
                },
            )
        } else {
            None
        };
        Ok(Some(TransferValidationReceived { validation, proof }))
    }

    /// Apply an event to the actor's state: register the in-flight transfer,
    /// record a share, or settle the completed payout (debit the balance,
    /// step the sequence number, clear the slot). Events that do not fit the
    /// state are refused and change nothing.
    pub fn apply(&mut self, event: ActorEvent) -> (r: Result<(), ActorError>)
        requires
            old(self).wf(),
        ensures
            final(self).wf(),
            r is Err ==> *final(self) == *old(self),
            event matches ActorEvent::TransferInitiated(ti) ==> {
                &&& (r is Ok) == (old(self).pending is None && old(self).spec_transfer(
                    ti.signed_transfer.transfer.amount,
                    ti.signed_transfer.transfer.to,
                ) == Result::<Option<TransferInitiated>, ActorError>::Ok(Some(ti)))
                &&& r is Ok ==> {
                    &&& (final(self).pending matches Some(p) && p.st == ti.signed_transfer
                        && p.signers@ =~= Seq::<u64>::empty())
                    &&& final(self).balance == old(self).balance
                    &&& final(self).next_seq == old(self).next_seq
                    &&& final(self).id == old(self).id
                    &&& final(self).key_set == old(self).key_set
                    &&& final(self).key_index == old(self).key_index
                }
            },
            event matches ActorEvent::TransferValidationReceived(ev) ==> ({
                let completes = (old(self).pending->Some_0).signers@.len() + 1 >= old(
                    self,
                ).key_set.threshold;
                &&& (r is Ok) == (old(self).spec_accepts_validation(ev.validation) && (
                ev.proof is Some) == completes && (completes ==> old(self).next_seq < u64::MAX))
                &&& (r is Ok && !completes) ==> {
                    &&& final(self).balance == old(self).balance
                    &&& final(self).next_seq == old(self).next_seq
                    &&& (final(self).pending matches Some(p2) && p2.st == (
                    old(self).pending->Some_0).st && p2.signers@ == (
                    old(self).pending->Some_0).signers@.push(ev.validation.signer_index))
                }
                &&& (r is Ok && completes) ==> {
                    &&& final(self).pending is None
                    &&& final(self).balance == old(self).balance - (
                    old(self).pending->Some_0).st.transfer.amount
                    &&& final(self).next_seq == old(self).next_seq + 1
                }
                &&& final(self).id == old(self).id
                &&& final(self).key_set == old(self).key_set
                &&& final(self).key_index == old(self).key_index
            }),
    {
        match event {
            ActorEvent::TransferInitiated(ti) => {
                if self.pending.is_some() {
                    return Err(ActorError::InvalidOperation);
                }
                let st = ti.signed_transfer;
                let t = st.transfer;
                let ok = st.client_signature.signer == self.id && t.from == self.id && t.to
                    != self.id && t.amount > 0 && t.amount <= self.balance && t.seq
                    == self.next_seq;
                if !ok {
                    return Err(ActorError::InvalidOperation);
                }
                self.pending = Some(PendingActorTransfer { st, signers: Vec::new() });
                Ok(())
            },
            ActorEvent::TransferValidationReceived(ev) => {
                let v = ev.validation;
                if v.key_index != self.key_index || v.signer_index >= self.key_set.share_count {
                    return Err(ActorError::InvalidOperation);
                }
                let (matched, dup, count) = match &self.pending {
                    Some(p) => (
                        p.st == v.signed_transfer,
                        contains_index(&p.signers, v.signer_index),
                        p.signers.len(),
                    ),
                    None => (false, false, 0),
                };
                if !matched || dup {
                    return Err(ActorError::InvalidOperation);
                }
                let completes = (count as u64) + 1 >= self.key_set.threshold;
                if completes != ev.proof.is_some() {
                    return Err(ActorError::InvalidOperation);
                }
                if completes {
                    // The payout settled: debit and step the sequence number.
                    if self.next_seq == u64::MAX {
                        return Err(ActorError::InvalidOperation);
                    }
                    let amount = match &self.pending {
                        Some(p) => p.st.transfer.amount,
                        None => {
                            proof {
                                assert(false);
                            }
                            return Err(ActorError::InvalidOperation);
                        },
                    };
                    self.pending = None;
                    self.balance = self.balance - amount;
                    self.next_seq = self.next_seq + 1;
                    Ok(())
                } else {
                    match &mut self.pending {
                        Some(p) => {
                            p.signers.push(v.signer_index);
                        },
                        None => {
                            proof {
                                assert(false);
                            }
                            return Err(ActorError::InvalidOperation);
                        },
                    }
                    proof {
                        let s_old = (old(self).pending->Some_0).signers@;
                        let s_new = (self.pending->Some_0).signers@;
                        assert(s_new == s_old.push(v.signer_index));
                        assert forall|i: int, j: int|
                            0 <= i < j < s_new.len() implies s_new[i] != s_new[j] by {
                            if j < s_old.len() {
                                assert(s_old[i] != s_old[j]);
                            } else {
                                assert(s_new[j] == v.signer_index);
                                assert(!s_old.contains(v.signer_index));
                                assert(s_old[i] == s_new[i]);
                            }
                        }
                    }
                    Ok(())
                }
            },
        }
    }
}

/// The share is not one of the current key set's.
pub open spec fn v_bad_share(actor: TransferActor, v: TransferValidated) -> bool {
    v.key_index == actor.key_index && v.signer_index >= actor.key_set.share_count
}

/// Whether a share index was already collected.
fn contains_index(v: &Vec<u64>, x: u64) -> (r: bool)
    ensures
        r == v@.contains(x),
{
    let n = v.len();
    let mut i: usize = 0;
    while i < n
        invariant
            n == v@.len(),
            i <= n,
            forall|j: int| 0 <= j < i ==> v@[j] != x,
        decreases n - i,
    {
        if v[i] == x {
            return true;
        }
        i += 1;
    }
    false
}

/// An owned copy of a share-index list.
fn copy_indices(v: &Vec<u64>) -> (r: Vec<u64>)
    ensures
        r@ == v@,
{
    let n = v.len();
    let mut r: Vec<u64> = Vec::new();
    let mut i: usize = 0;
    while i < n
        invariant
            n == v@.len(),
            i <= n,
            r@ =~= v@.take(i as int),
        decreases n - i,
    {
        r.push(v[i]);
        proof {
            assert(r@ =~= v@.take(i as int + 1));
        }
        i += 1;
    }
    proof {
        assert(v@.take(n as int) =~= v@);
    }
    r
}

/// The reward coordinator: an actor over the section funds account, and the
/// decision wrapper its announcements go out through.
pub struct SectionFunds {
    pub actor: TransferActor,
    pub decisions: ElderMsgDecisions,
}

impl SectionFunds {
    pub open spec fn wf(self) -> bool {
        self.actor.wf()
    }

    pub fn new(actor: TransferActor, decisions: ElderMsgDecisions) -> (r: SectionFunds)
        ensures
            r.actor == actor,
            r.decisions == decisions,
    {
        SectionFunds { actor, decisions }
    }

    /// Initiate a reward payout: propose the transfer from the section funds
    /// account and announce it network-wide. A rejected proposal answers
    /// nothing (reported locally, no automatic retry), as does one already in
    /// flight.
    pub fn initiate_reward_payout(&mut self, amount: Money, to: AccountId) -> (r: Option<
        MessagingDuty,
    >)
        requires
            old(self).wf(),
        ensures
            final(self).wf(),
            final(self).actor.id == old(self).actor.id,
            ({
                let outcome = old(self).actor.spec_transfer(amount, to);
                match outcome {
                    Result::Ok(Some(ti)) => {
                        &&& r == Some(
                            MessagingDuty::Send(
                                Message::NetworkCmd {
                                    cmd: NetworkCmd::InitiateRewardPayout(ti.signed_transfer),
                                    id: MessageId(old(self).decisions.next_msg_id),
                                },
                            ),
                        )
                        &&& (final(self).actor.pending matches Some(p) && p.st
                            == ti.signed_transfer && p.signers@ =~= Seq::<u64>::empty())
                        &&& final(self).actor.balance == old(self).actor.balance
                        &&& final(self).actor.next_seq == old(self).actor.next_seq
                    },
                    _ => r is None && final(self).actor == old(self).actor,
                }
            }),
    {
        match self.actor.transfer(amount, to) {
            Ok(Some(event)) => {
                let applied = self.actor.apply(ActorEvent::TransferInitiated(event));
                proof {
                    assert(applied is Ok);
                }
                self.decisions.send(
                    Message::NetworkCmd {
                        cmd: NetworkCmd::InitiateRewardPayout(event.signed_transfer),
                        id: MessageId(self.decisions.next_msg_id),
                    },
                )
            },
            Ok(None) => None,
            Err(_) => None,
        }
    }

    /// Route one Elder's validation of the payout back into the actor; the
    /// share that completes the threshold finalizes the payout and announces
    /// it network-wide.
    pub fn receive(&mut self, validation: TransferValidated) -> (r: Option<MessagingDuty>)
        requires
            old(self).wf(),
        ensures
            final(self).wf(),
            final(self).actor.id == old(self).actor.id,
            !old(self).actor.spec_accepts_validation(validation) ==> r is None && final(self).actor
                == old(self).actor,
            old(self).actor.spec_accepts_validation(validation) ==> ({
                let completes = (old(self).actor.pending->Some_0).signers@.len() + 1 >= old(
                    self,
                ).actor.key_set.threshold;
                if completes && old(self).actor.next_seq == u64::MAX {
                    // The sequence space is exhausted: the payout cannot
                    // settle and nothing is announced.
                    r is None && final(self).actor == old(self).actor
                } else if completes {
                    &&& (r matches Some(d) && d matches MessagingDuty::Send(m) && m matches
                        Message::NetworkCmd { cmd, id } && cmd matches
                        NetworkCmd::FinaliseRewardPayout(p) && ({
                        &&& id == MessageId(old(self).decisions.next_msg_id)
                        &&& p.signed_transfer == validation.signed_transfer
                        &&& p.key_index == validation.key_index
                        &&& p.signers@ == (old(self).actor.pending->Some_0).signers@.push(
                            validation.signer_index,
                        )
                    }))
                    &&& final(self).actor.pending is None
                    &&& final(self).actor.balance == old(self).actor.balance - (
                    old(self).actor.pending->Some_0).st.transfer.amount
                    &&& final(self).actor.next_seq == old(self).actor.next_seq + 1
                } else {
                    &&& r is None
                    &&& (final(self).actor.pending matches Some(p2) && p2.st == (
                    old(self).actor.pending->Some_0).st && p2.signers@ == (
                    old(self).actor.pending->Some_0).signers@.push(validation.signer_index))
                    &&& final(self).actor.balance == old(self).actor.balance
                    &&& final(self).actor.next_seq == old(self).actor.next_seq
                }
            }),
    {
        match self.actor.receive(validation) {
            Ok(Some(event)) => {
                let announce = match &event.proof {
                    Some(p) => {
                        if self.actor.next_seq == u64::MAX {
                            // The sequence space is exhausted; the payout
                            // cannot settle.
                            None
                        } else {
                            Some(p.copy())
                        }
                    },
                    None => None,
                };
                let applied = self.actor.apply(ActorEvent::TransferValidationReceived(event));
                match announce {
                    Some(p) => {
                        proof {
                            assert(applied is Ok);
                        }
                        self.decisions.send(
                            Message::NetworkCmd {
                                cmd: NetworkCmd::FinaliseRewardPayout(p),
                                id: MessageId(self.decisions.next_msg_id),
                            },
                        )
                    },
                    None => None,
                }
            },
            Ok(None) => None,
            Err(_) => None,
        }
    }
}

} // verus!
