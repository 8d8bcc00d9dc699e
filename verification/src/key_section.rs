//! The key section: the Elders' client-facing half. It classifies incoming
//! client messages into duties, runs the transfer replicas, and coordinates
//! elder churn and section splits.
//!
//! Signing material arrives from the membership layer as plain values (share
//! index, key set, proof chain) and is swapped in wholesale: the old replica
//! context is discarded, never mutated in place, and work in flight under an
//! old section-key index drains away through the stale-epoch checks.

use crate::node_msgs::{
    Cmd, CmdError, ElderMsgWrapping, GatewayDuty, KeySectionDuty, Message, MetadataDuty,
    MsgEnvelope, NetworkEvent, NodeOperation, Query, QueryResponse, TransferCmd, TransferDuty,
    TransferQuery,
};
use crate::table::tbl_get;
use crate::transfers::{
    AccountId, KeySet, ReplicaInfo, Replicas, SignedTransfer, TransferValidated,
};
use crate::types::{MessageId, Money, Prefix, PublicKey};
use vstd::prelude::*;

verus! {

/// An error raised while running the key section. None is fatal to the node.
#[derive(Clone, Copy, PartialEq, Eq, Structural, Debug)]
pub enum Error {
    /// The message is not one the key section classifies.
    InvalidMessage,
    /// The handed signing material does not form a valid replica context.
    InvalidReplicaInfo,
    /// The operation is not available in the current state.
    InvalidOperation,
}

/// Produces this Elder's signature shares over transfers, under its share
/// index in the current key set.
pub struct Signer {
    pub index: u64,
}

impl Signer {
    pub fn new(index: u64) -> (r: Signer)
        ensures
            r.index == index,
    {
        Signer { index }
    }

    /// Sign a transfer with our key share: the share carries who signed and
    /// under which section-key index.
    pub fn sign_with_secret_key_share(&self, st: SignedTransfer, key_index: u64) -> (r:
        TransferValidated)
        ensures
            r == (TransferValidated { signed_transfer: st, key_index, signer_index: self.index }),
    {
        TransferValidated { signed_transfer: st, key_index, signer_index: self.index }
    }
}

/// Deals with client onboarding and routing messages back to clients.
pub struct ClientGateway {}

impl ClientGateway {
    pub fn new() -> (r: ClientGateway) {
        ClientGateway {  }
    }

    /// Route a message back toward the client it concerns.
    pub fn process_as_gateway(&self, duty: GatewayDuty) -> (r: Result<NodeOperation, Error>)
        ensures
            r == match duty {
                GatewayDuty::FindClientFor(msg) => Result::<NodeOperation, Error>::Ok(
                    NodeOperation::SendToClient(msg),
                ),
            },
    {
        match duty {
            GatewayDuty::FindClientFor(msg) => Ok(NodeOperation::SendToClient(msg)),
        }
    }
}

/// What classifying a client message yields: exactly one typed duty, or a
/// classification failure surfaced to the caller as a local error.
pub open spec fn spec_evaluate(msg: MsgEnvelope) -> Result<NodeOperation, Error> {
    match msg.message {
        Message::Cmd { cmd: Cmd::Transfer(tc), id } => Result::Ok(
            NodeOperation::RunAsTransfers(
                TransferDuty::ProcessCmd { cmd: tc, msg_id: id, origin: msg.origin },
            ),
        ),
        Message::Query { query: Query::Transfer(tq), id } => Result::Ok(
            NodeOperation::RunAsTransfers(
                TransferDuty::ProcessQuery { query: tq, msg_id: id, origin: msg.origin },
            ),
        ),
        Message::Cmd { cmd: Cmd::Data(w), id } => Result::Ok(
            NodeOperation::RunAsMetadata(
                MetadataDuty::ProcessWrite { write: w, msg_id: id, origin: msg.origin },
            ),
        ),
        Message::Query { query: Query::Data(rd), id } => Result::Ok(
            NodeOperation::RunAsMetadata(
                MetadataDuty::ProcessRead { read: rd, msg_id: id, origin: msg.origin },
            ),
        ),
        _ => Result::Err(Error::InvalidMessage),
    }
}

/// Inspects a verified, signed client envelope and produces the one duty the
/// local subsystems owe it. Pure: it never performs I/O.
pub struct ClientMsgAnalysis {}

impl ClientMsgAnalysis {
    pub fn new() -> (r: ClientMsgAnalysis) {
        ClientMsgAnalysis {  }
    }

    /// Classify a client message into exactly one typed duty or a local
    /// classification error.
    pub fn evaluate(&self, msg: MsgEnvelope) -> (r: Result<NodeOperation, Error>)
        ensures
            r == spec_evaluate(msg),
    {
        match msg.message {
            Message::Cmd { cmd: Cmd::Transfer(tc), id } => Ok(
                NodeOperation::RunAsTransfers(
                    TransferDuty::ProcessCmd { cmd: tc, msg_id: id, origin: msg.origin },
                ),
            ),
            Message::Query { query: Query::Transfer(tq), id } => Ok(
                NodeOperation::RunAsTransfers(
                    TransferDuty::ProcessQuery { query: tq, msg_id: id, origin: msg.origin },
                ),
            ),
            Message::Cmd { cmd: Cmd::Data(w), id } => Ok(
                NodeOperation::RunAsMetadata(
                    MetadataDuty::ProcessWrite { write: w, msg_id: id, origin: msg.origin },
                ),
            ),
            Message::Query { query: Query::Data(rd), id } => Ok(
                NodeOperation::RunAsMetadata(
                    MetadataDuty::ProcessRead { read: rd, msg_id: id, origin: msg.origin },
                ),
            ),
            _ => Err(Error::InvalidMessage),
        }
    }
}

/// Sends money between keys: the replica protocol behind the Elders' duties.
pub struct Transfers {
    pub replicas: Replicas,
    pub wrapping: ElderMsgWrapping,
    /// How many nodes have reported their storage full.
    pub full_node_count: u64,
}

impl Transfers {
    pub fn new(wrapping: ElderMsgWrapping, replicas: Replicas) -> (r: Transfers)
        ensures
            r.replicas == replicas,
            r.wrapping == wrapping,
            r.full_node_count == 0,
    {
        Transfers { replicas, wrapping, full_node_count: 0 }
    }

    pub open spec fn wf(self) -> bool {
        self.replicas.wf()
    }

    /// Count one more full node.
    pub fn increase_full_node_count(&mut self, _node_id: PublicKey) -> (r: Result<(), Error>)
        ensures
            r is Ok,
            final(self).full_node_count == old(self).full_node_count.wrapping_add(1),
            final(self).replicas == old(self).replicas,
            final(self).wrapping == old(self).wrapping,
    {
        self.full_node_count = self.full_node_count.wrapping_add(1);
        Ok(())
    }

    /// Establish the initial money supply on the first node of a network.
    pub fn genesis(&mut self, id: AccountId, amount: Money) -> (r: Result<NodeOperation, Error>)
        requires
            old(self).wf(),
        ensures
            final(self).wf(),
            final(self).wrapping == old(self).wrapping,
            final(self).full_node_count == old(self).full_node_count,
            (r is Ok) == (old(self).replicas.info.initiating && old(self).replicas.accounts@.len()
                == 0),
            r is Err ==> r == Result::<NodeOperation, Error>::Err(Error::InvalidOperation)
                && final(self).replicas == old(self).replicas,
            r is Ok ==> {
                &&& r == Result::<NodeOperation, Error>::Ok(NodeOperation::NoOp)
                &&& final(self).replicas.spec_balance(id) == amount
                &&& final(self).replicas.info == old(self).replicas.info
                &&& forall|a: AccountId|
                    a != id ==> final(self).replicas.spec_ledger(a) == old(self).replicas.spec_ledger(a)
            },
    {
        match self.replicas.genesis(id, amount) {
            Ok(()) => Ok(NodeOperation::NoOp),
            Err(_) => Err(Error::InvalidOperation),
        }
    }

    /// Ask peer Elders for any proof-chain history we may be missing, before
    /// accepting new writes.
    pub fn catchup_with_replicas(&self) -> (r: Result<NodeOperation, Error>)
        ensures
            r == Result::<NodeOperation, Error>::Ok(NodeOperation::CatchUpWithSection),
    {
        Ok(NodeOperation::CatchUpWithSection)
    }

    /// Swap in a fresh signing context after an elder-set change.
    pub fn update_replica_keys(&mut self, info: ReplicaInfo) -> (r: Result<NodeOperation, Error>)
        requires
            old(self).wf(),
        ensures
            final(self).wf(),
            final(self).wrapping == old(self).wrapping,
            final(self).full_node_count == old(self).full_node_count,
            (r is Ok) == (info.wf() && info.key_index > old(self).replicas.info.key_index),
            r is Err ==> r == Result::<NodeOperation, Error>::Err(Error::InvalidReplicaInfo)
                && final(self).replicas == old(self).replicas,
            r is Ok ==> {
                &&& r == Result::<NodeOperation, Error>::Ok(NodeOperation::NoOp)
                &&& final(self).replicas.info == info
                &&& final(self).replicas.accounts@ == old(self).replicas.accounts@
                &&& final(self).replicas.pending@ == old(self).replicas.pending@
            },
    {
        match self.replicas.update_replica_keys(info) {
            Ok(()) => Ok(NodeOperation::NoOp),
            Err(_) => Err(Error::InvalidReplicaInfo),
        }
    }

    /// Partition the ledgers on a section split: this node keeps exactly the
    /// accounts inside its prefix; the rest seed the sibling section's
    /// replicas, which its own Elders carry.
    pub fn section_split(&mut self, prefix: Prefix) -> (r: Result<NodeOperation, Error>)
        requires
            old(self).wf(),
            prefix.wf(),
        ensures
            final(self).wf(),
            final(self).wrapping == old(self).wrapping,
            final(self).full_node_count == old(self).full_node_count,
            r == Result::<NodeOperation, Error>::Ok(NodeOperation::NoOp),
            final(self).replicas.info == old(self).replicas.info,
            forall|k: u64|
                prefix.spec_matches(k) ==> tbl_get(final(self).replicas.accounts@, k) == tbl_get(
                    old(self).replicas.accounts@,
                    k,
                ),
            forall|k: u64|
                !prefix.spec_matches(k) ==> !crate::table::tbl_has(
                    final(self).replicas.accounts@,
                    k,
                ),
            forall|k: u64|
                prefix.spec_matches(k) ==> tbl_get(final(self).replicas.pending@, k) == tbl_get(
                    old(self).replicas.pending@,
                    k,
                ),
            forall|k: u64|
                !prefix.spec_matches(k) ==> !crate::table::tbl_has(
                    final(self).replicas.pending@,
                    k,
                ),
    {
        let _departed = self.replicas.section_split(prefix);
        Ok(NodeOperation::NoOp)
    }

    /// What processing a transfer duty yields and leaves behind.
    pub open spec fn process_post(
        pre: Transfers,
        post: Transfers,
        duty: TransferDuty,
        reply_id: MessageId,
        r: Result<NodeOperation, Error>,
    ) -> bool {
        &&& post.wrapping == pre.wrapping
        &&& post.full_node_count == pre.full_node_count
        &&& match duty {
            TransferDuty::ProcessCmd { cmd, msg_id, origin } => match cmd {
                TransferCmd::ProposeTransfer(st) => match pre.replicas.spec_propose_outcome(st) {
                    Result::Ok(Some(v)) => {
                        &&& r == Result::<NodeOperation, Error>::Ok(
                            NodeOperation::SendToSection(
                                Message::Cmd {
                                    cmd: Cmd::Transfer(TransferCmd::ReceiveValidation(v)),
                                    id: reply_id,
                                },
                            ),
                        )
                        &&& post.replicas.spec_in_flight(st)
                        &&& post.replicas.info == pre.replicas.info
                        &&& post.replicas.accounts@ == pre.replicas.accounts@
                    },
                    Result::Ok(None) => r == Result::<NodeOperation, Error>::Ok(NodeOperation::NoOp)
                        && post.replicas == pre.replicas,
                    Result::Err(e) => r == Result::<NodeOperation, Error>::Ok(
                        NodeOperation::SendToSection(
                            Message::CmdError {
                                error: CmdError::Transfer(e),
                                id: reply_id,
                                correlation_id: msg_id,
                                cmd_origin: origin.spec_address(),
                            },
                        ),
                    ) && post.replicas == pre.replicas,
                },
                TransferCmd::ReceiveValidation(v) => {
                    let action = pre.replicas.spec_receive_action(v);
                    if action == crate::transfers::ReceiveAction::Finalized {
                        &&& (r matches Ok(op) && op matches NodeOperation::SendToSection(m) && m
                            matches Message::NetworkEvent { event, id } && event
                            matches NetworkEvent::TransferFinalised(p) && ({
                            &&& id == reply_id
                            &&& p.signed_transfer == v.signed_transfer
                            &&& p.key_index == v.key_index
                        }))
                        &&& post.replicas.spec_finalized(v.signed_transfer.transfer)
                        &&& post.replicas.spec_balance(v.signed_transfer.transfer.from)
                            == pre.replicas.spec_balance(v.signed_transfer.transfer.from)
                            - v.signed_transfer.transfer.amount
                        &&& post.replicas.spec_balance(v.signed_transfer.transfer.to)
                            == pre.replicas.spec_balance(v.signed_transfer.transfer.to)
                            + v.signed_transfer.transfer.amount
                        &&& post.replicas.info == pre.replicas.info
                    } else if action == crate::transfers::ReceiveAction::RejectedInvalidShare {
                        r == Result::<NodeOperation, Error>::Ok(
                            NodeOperation::SendToSection(
                                Message::CmdError {
                                    error: CmdError::Transfer(
                                        crate::transfers::Error::InvalidSignature,
                                    ),
                                    id: reply_id,
                                    correlation_id: msg_id,
                                    cmd_origin: origin.spec_address(),
                                },
                            ),
                        ) && post.replicas == pre.replicas
                    } else if action == crate::transfers::ReceiveAction::RejectedOverflow {
                        r == Result::<NodeOperation, Error>::Ok(
                            NodeOperation::SendToSection(
                                Message::CmdError {
                                    error: CmdError::Transfer(
                                        crate::transfers::Error::ExcessiveValue,
                                    ),
                                    id: reply_id,
                                    correlation_id: msg_id,
                                    cmd_origin: origin.spec_address(),
                                },
                            ),
                        ) && post.replicas.info == pre.replicas.info
                            && post.replicas.accounts@ == pre.replicas.accounts@
                    } else if action == crate::transfers::ReceiveAction::Recorded {
                        r == Result::<NodeOperation, Error>::Ok(NodeOperation::NoOp)
                            && post.replicas.info == pre.replicas.info
                            && post.replicas.accounts@ == pre.replicas.accounts@
                    } else {
                        // Stale-epoch, unmatched or duplicate shares are
                        // silently dropped: expected churn noise.
                        r == Result::<NodeOperation, Error>::Ok(NodeOperation::NoOp)
                            && post.replicas == pre.replicas
                    }
                },
            },
            TransferDuty::ProcessQuery { query, msg_id, origin } => match query {
                TransferQuery::GetBalance(a) => {
                    &&& post.replicas == pre.replicas
                    &&& (r matches Ok(op) && op matches NodeOperation::SendToSection(m) && m
                        matches Message::QueryResponse { response, id, correlation_id, query_origin }
                        && response matches QueryResponse::GetBalance(res) && res matches Ok(b)
                        && ({
                        &&& id == reply_id
                        &&& correlation_id == msg_id
                        &&& query_origin == origin.spec_address()
                        &&& b as int == pre.replicas.spec_balance(a)
                    }))
                },
                TransferQuery::GetHistory(a) => {
                    &&& post.replicas == pre.replicas
                    &&& (r matches Ok(op) && op matches NodeOperation::SendToSection(m) && m
                        matches Message::QueryResponse { response, id, correlation_id, query_origin }
                        && response matches QueryResponse::GetHistory(res) && ({
                        &&& id == reply_id
                        &&& correlation_id == msg_id
                        &&& query_origin == origin.spec_address()
                        &&& match res {
                            Result::Ok(l) => crate::table::tbl_has(pre.replicas.accounts@, a.0)
                                && ledger_matches(l@, pre.replicas.spec_ledger(a)),
                            Result::Err(e) => e == crate::map_storage::NdError::NoSuchData
                                && !crate::table::tbl_has(pre.replicas.accounts@, a.0),
                        }
                    }))
                },
            },
        }
    }

    /// Process one transfer duty: validate a proposal, settle a validation
    /// share, or answer a balance or history query.
    pub fn process_transfer_duty(&mut self, duty: TransferDuty, reply_id: MessageId) -> (r: Result<
        NodeOperation,
        Error,
    >)
        requires
            old(self).wf(),
        ensures
            final(self).wf(),
            Self::process_post(*old(self), *final(self), duty, reply_id, r),
    {
        match duty {
            TransferDuty::ProcessCmd { cmd, msg_id, origin } => match cmd {
                TransferCmd::ProposeTransfer(st) => {
                    match self.replicas.propose(st) {
                        Ok(Some(v)) => Ok(
                            NodeOperation::SendToSection(
                                Message::Cmd {
                                    cmd: Cmd::Transfer(TransferCmd::ReceiveValidation(v)),
                                    id: reply_id,
                                },
                            ),
                        ),
                        Ok(None) => Ok(NodeOperation::NoOp),
                        Err(e) => Ok(
                            NodeOperation::SendToSection(
                                Message::CmdError {
                                    error: CmdError::Transfer(e),
                                    id: reply_id,
                                    correlation_id: msg_id,
                                    cmd_origin: origin.address(),
                                },
                            ),
                        ),
                    }
                },
                TransferCmd::ReceiveValidation(v) => {
                    match self.replicas.receive_validation(v) {
                        Ok(Some(proof)) => Ok(
                            NodeOperation::SendToSection(
                                Message::NetworkEvent {
                                    event: NetworkEvent::TransferFinalised(proof),
                                    id: reply_id,
                                },
                            ),
                        ),
                        Ok(None) => Ok(NodeOperation::NoOp),
                        Err(e) => Ok(
                            NodeOperation::SendToSection(
                                Message::CmdError {
                                    error: CmdError::Transfer(e),
                                    id: reply_id,
                                    correlation_id: msg_id,
                                    cmd_origin: origin.address(),
                                },
                            ),
                        ),
                    }
                },
            },
            TransferDuty::ProcessQuery { query, msg_id, origin } => match query {
                TransferQuery::GetBalance(a) => {
                    let balance = self.replicas.balance(a);
                    Ok(
                        NodeOperation::SendToSection(
                            Message::QueryResponse {
                                response: QueryResponse::GetBalance(Ok(balance)),
                                id: reply_id,
                                correlation_id: msg_id,
                                query_origin: origin.address(),
                            },
                        ),
                    )
                },
                TransferQuery::GetHistory(a) => {
                    let res = match self.replicas.history(a) {
                        Some(ledger) => Ok(copy_ledger(ledger)),
                        None => Err(crate::map_storage::NdError::NoSuchData),
                    };
                    Ok(
                        NodeOperation::SendToSection(
                            Message::QueryResponse {
                                response: QueryResponse::GetHistory(res),
                                id: reply_id,
                                correlation_id: msg_id,
                                query_origin: origin.address(),
                            },
                        ),
                    )
                },
            },
        }
    }
}

/// One history entry reports the same event: same kind, transfer and share
/// indices (the share lists are distinct owned copies with equal content).
pub open spec fn entry_matches(a: crate::transfers::LedgerEntry, b: crate::transfers::LedgerEntry)
    -> bool {
    match (a, b) {
        (
            crate::transfers::LedgerEntry::Genesis { amount: x },
            crate::transfers::LedgerEntry::Genesis { amount: y },
        ) => x == y,
        (crate::transfers::LedgerEntry::Debit(p), crate::transfers::LedgerEntry::Debit(q)) => p
            .signed_transfer == q.signed_transfer && p.key_index == q.key_index && p.signers@
            == q.signers@,
        (crate::transfers::LedgerEntry::Credit(p), crate::transfers::LedgerEntry::Credit(q)) => p
            .signed_transfer == q.signed_transfer && p.key_index == q.key_index && p.signers@
            == q.signers@,
        _ => false,
    }
}

/// Two histories report the same events, entry for entry.
pub open spec fn ledger_matches(
    a: Seq<crate::transfers::LedgerEntry>,
    b: Seq<crate::transfers::LedgerEntry>,
) -> bool {
    a.len() == b.len() && forall|i: int| 0 <= i < a.len() ==> entry_matches(a[i], b[i])
}

/// An owned copy of a ledger, reporting the same events.
fn copy_ledger(l: &Vec<crate::transfers::LedgerEntry>) -> (r: Vec<crate::transfers::LedgerEntry>)
    ensures
        ledger_matches(r@, l@),
{
    let n = l.len();
    let mut r: Vec<crate::transfers::LedgerEntry> = Vec::new();
    let mut i: usize = 0;
    while i < n
        invariant
            n == l@.len(),
            i <= n,
            r@.len() == i,
            forall|j: int| 0 <= j < i ==> entry_matches(#[trigger] r@[j], l@[j]),
        decreases n - i,
    {
        let copied = match &l[i] {
            crate::transfers::LedgerEntry::Genesis { amount } => crate::transfers::LedgerEntry::Genesis {
                amount: *amount,
            },
            crate::transfers::LedgerEntry::Debit(p) => crate::transfers::LedgerEntry::Debit(
                p.copy(),
            ),
            crate::transfers::LedgerEntry::Credit(p) => crate::transfers::LedgerEntry::Credit(
                p.copy(),
            ),
        };
        r.push(copied);
        i += 1;
    }
    r
}

/// A Key Section interfaces with clients, who are essentially a public key.
/// The gateway deals with onboarding and routing messages back to clients;
/// transfers deals with sending money between keys.
pub struct KeySection {
    pub gateway: ClientGateway,
    pub transfers: Transfers,
    pub msg_analysis: ClientMsgAnalysis,
    pub signer: Signer,
}

impl KeySection {
    /// Build this Elder's replica context from the membership layer's plain
    /// values: our share index, the current key set and the proof chain. The
    /// context starts in the initiating (first-launch genesis) state.
    fn transfer_replicas(
        id: PublicKey,
        our_index: u64,
        key_set: KeySet,
        proof_chain: Vec<KeySet>,
    ) -> (r: Result<Replicas, Error>)
        ensures
            (r is Ok) <==> (1 <= key_set.threshold <= key_set.share_count && our_index
                < key_set.share_count && proof_chain@.len() >= 1 && proof_chain@.last()
                == key_set),
            r matches Ok(replicas) ==> replicas.wf() && replicas.info.wf()
                && replicas.info.initiating && replicas.info.our_index == our_index
                && replicas.info.peer_replicas == key_set && replicas.info.key_index + 1
                == proof_chain@.len() && replicas.accounts@.len() == 0 && replicas.pending@.len()
                == 0,
            r is Err ==> r == Result::<Replicas, Error>::Err(Error::InvalidReplicaInfo),
    {
        let n = proof_chain.len();
        let ok = 1 <= key_set.threshold && key_set.threshold <= key_set.share_count && our_index
            < key_set.share_count && n >= 1 && proof_chain[n - 1] == key_set;
        if !ok {
            return Err(Error::InvalidReplicaInfo);
        }
        let info = ReplicaInfo {
            id,
            our_index,
            key_index: (n - 1) as u64,
            peer_replicas: key_set,
            section_proof_chain: proof_chain,
            initiating: true,
        };
        Ok(Replicas::new(info))
    }

    /// Start a key section from the membership layer's signing material.
    pub fn new(
        id: PublicKey,
        our_index: u64,
        key_set: KeySet,
        proof_chain: Vec<KeySet>,
    ) -> (r: Result<KeySection, Error>)
        ensures
            (r is Ok) <==> (1 <= key_set.threshold <= key_set.share_count && our_index
                < key_set.share_count && proof_chain@.len() >= 1 && proof_chain@.last()
                == key_set),
            r matches Ok(ks) ==> ks.transfers.wf() && ks.transfers.replicas.info.initiating
                && ks.transfers.replicas.info.our_index == our_index
                && ks.transfers.replicas.info.peer_replicas == key_set
                && ks.transfers.replicas.info.key_index + 1 == proof_chain@.len()
                && ks.transfers.replicas.accounts@.len() == 0 && ks.transfers.replicas.pending@.len()
                == 0 && ks.signer.index == our_index,
            r is Err ==> r == Result::<KeySection, Error>::Err(Error::InvalidReplicaInfo),
    {
        let replicas = match Self::transfer_replicas(id, our_index, key_set, proof_chain) {
            Ok(replicas) => replicas,
            Err(e) => {
                return Err(e);
            },
        };
        let transfers = Transfers::new(ElderMsgWrapping::new(id), replicas);
        Ok(
            KeySection {
                gateway: ClientGateway::new(),
                transfers,
                msg_analysis: ClientMsgAnalysis::new(),
                signer: Signer::new(our_index),
            },
        )
    }

    /// Count one more full node.
    pub fn increase_full_node_count(&mut self, node_id: PublicKey) -> (r: Result<(), Error>)
        ensures
            r is Ok,
            final(self).transfers.full_node_count == old(self).transfers.full_node_count.wrapping_add(1),
            final(self).transfers.replicas == old(self).transfers.replicas,
    {
        self.transfers.increase_full_node_count(node_id)
    }

    /// Initiate as the first node in a network.
    pub fn init_genesis_node(&mut self, id: AccountId, amount: Money) -> (r: Result<
        NodeOperation,
        Error,
    >)
        requires
            old(self).transfers.wf(),
        ensures
            final(self).transfers.wf(),
            (r is Ok) == (old(self).transfers.replicas.info.initiating && old(self).transfers.replicas.accounts@.len() == 0),
            r is Ok ==> final(self).transfers.replicas.spec_balance(id) == amount,
            r is Err ==> r == Result::<NodeOperation, Error>::Err(Error::InvalidOperation)
                && final(self).transfers.replicas == old(self).transfers.replicas,
    {
        self.transfers.genesis(id, amount)
    }

    /// Issue queries to the Elders of the section to catch up with the shared
    /// state and start working properly in the group.
    pub fn catchup_with_section(&mut self) -> (r: Result<NodeOperation, Error>)
        ensures
            r == Result::<NodeOperation, Error>::Ok(NodeOperation::CatchUpWithSection),
            *final(self) == *old(self),
    {
        self.transfers.catchup_with_replicas()
    }

    /// Ask the membership layer to open or close joining.
    pub fn set_node_join_flag(&mut self, joins_allowed: bool) -> (r: Result<NodeOperation, Error>)
        ensures
            r == Result::<NodeOperation, Error>::Ok(NodeOperation::SetJoinsAllowed(joins_allowed)),
            *final(self) == *old(self),
    {
        Ok(NodeOperation::SetJoinsAllowed(joins_allowed))
    }

    /// Update our replica with the latest keys: build the fresh context from
    /// the membership layer's plain values and swap it in wholesale.
    pub fn elders_changed(
        &mut self,
        our_index: u64,
        key_set: KeySet,
        proof_chain: Vec<KeySet>,
    ) -> (r: Result<NodeOperation, Error>)
        requires
            old(self).transfers.wf(),
        ensures
            final(self).transfers.wf(),
            final(self).signer.index == our_index,
            // The swap is owed exactly when the handed material forms a valid
            // replica context whose section-key index exceeds the current one.
            (r is Ok) <==> (1 <= key_set.threshold <= key_set.share_count && our_index
                < key_set.share_count && proof_chain@.len() >= 1 && proof_chain@.last() == key_set
                && proof_chain@.len() > old(self).transfers.replicas.info.key_index + 1),
            r is Err ==> r == Result::<NodeOperation, Error>::Err(Error::InvalidReplicaInfo)
                && final(self).transfers.replicas == old(self).transfers.replicas,
            r is Ok ==> {
                &&& r == Result::<NodeOperation, Error>::Ok(NodeOperation::NoOp)
                &&& final(self).transfers.replicas.info.id == old(self).transfers.replicas.info.id
                &&& final(self).transfers.replicas.info.our_index == our_index
                &&& final(self).transfers.replicas.info.peer_replicas == key_set
                &&& final(self).transfers.replicas.info.section_proof_chain@ == proof_chain@
                &&& final(self).transfers.replicas.info.key_index + 1 == proof_chain@.len()
                &&& !final(self).transfers.replicas.info.initiating
                &&& final(self).transfers.replicas.info.key_index > old(self).transfers.replicas.info.key_index
                &&& final(self).transfers.replicas.accounts@ == old(self).transfers.replicas.accounts@
                &&& final(self).transfers.replicas.pending@ == old(self).transfers.replicas.pending@
            },
    {
        self.signer = Signer::new(our_index);
        let n = proof_chain.len();
        if !(n >= 1) {
            return Err(Error::InvalidReplicaInfo);
        }
        let id = self.transfers.replicas.info.id;
        let info = ReplicaInfo {
            id,
            our_index,
            key_index: (n - 1) as u64,
            peer_replicas: key_set,
            section_proof_chain: proof_chain,
            initiating: false,
        };
        self.transfers.update_replica_keys(info)
    }

    /// When the section splits, the replicas in either resulting section also
    /// split the responsibility of their data.
    pub fn section_split(&mut self, prefix: Prefix) -> (r: Result<NodeOperation, Error>)
        requires
            old(self).transfers.wf(),
            prefix.wf(),
        ensures
            final(self).transfers.wf(),
            r == Result::<NodeOperation, Error>::Ok(NodeOperation::NoOp),
            forall|k: u64|
                prefix.spec_matches(k) ==> tbl_get(final(self).transfers.replicas.accounts@, k)
                    == tbl_get(old(self).transfers.replicas.accounts@, k),
            forall|k: u64|
                !prefix.spec_matches(k) ==> !crate::table::tbl_has(
                    final(self).transfers.replicas.accounts@,
                    k,
                ),
            forall|k: u64|
                prefix.spec_matches(k) ==> tbl_get(final(self).transfers.replicas.pending@, k)
                    == tbl_get(old(self).transfers.replicas.pending@, k),
            forall|k: u64|
                !prefix.spec_matches(k) ==> !crate::table::tbl_has(
                    final(self).transfers.replicas.pending@,
                    k,
                ),
    {
        self.transfers.section_split(prefix)
    }

    /// Process one key-section duty: classify a client message, run the
    /// gateway, or run the transfer replicas.
    pub fn process_key_section_duty(&mut self, duty: KeySectionDuty, reply_id: MessageId) -> (r:
        Result<NodeOperation, Error>)
        requires
            old(self).transfers.wf(),
        ensures
            final(self).transfers.wf(),
            duty matches KeySectionDuty::EvaluateClientMsg(msg) ==> r == spec_evaluate(msg)
                && *final(self) == *old(self),
            duty matches KeySectionDuty::RunAsGateway(GatewayDuty::FindClientFor(m)) ==> r
                == Result::<NodeOperation, Error>::Ok(NodeOperation::SendToClient(m)) && *final(self) == *old(self),
            duty matches KeySectionDuty::RunAsTransfers(td) ==> Transfers::process_post(
                old(self).transfers,
                final(self).transfers,
                td,
                reply_id,
                r,
            ),
            duty is NoOp ==> r == Result::<NodeOperation, Error>::Ok(NodeOperation::NoOp)
                && *final(self) == *old(self),
    {
        match duty {
            KeySectionDuty::EvaluateClientMsg(msg) => self.msg_analysis.evaluate(msg),
            KeySectionDuty::RunAsGateway(gd) => self.gateway.process_as_gateway(gd),
            KeySectionDuty::RunAsTransfers(td) => self.transfers.process_transfer_duty(
                td,
                reply_id,
            ),
            KeySectionDuty::NoOp => Ok(NodeOperation::NoOp),
        }
    }
}

} // verus!
