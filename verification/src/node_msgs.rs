//! The typed messages exchanged between clients, Elders and Adults, and the
//! duties a classified message is routed to.

use crate::map_storage::{MapChunk, MapEntry, MapPermissionSet, MapRead, MapWrite, NdError};
use crate::mock_routing::ImmutableData;
use crate::transfers::{
    AccountId, KeySet, LedgerEntry, SignedTransfer, TransferProof, TransferValidated,
};
use crate::types::{MessageId, Money, Prefix, PublicKey, XorName};
use vstd::prelude::*;

verus! {

/// The verified sender of an envelope, reduced to its identity.
#[derive(Clone, Copy, PartialEq, Eq, Structural, Debug)]
pub struct MsgSender {
    pub id: PublicKey,
}

impl MsgSender {
    /// The address responses to this sender are directed to.
    pub open spec fn spec_address(self) -> XorName {
        XorName(self.id.0)
    }

    pub fn address(&self) -> (r: XorName)
        ensures
            r == self.spec_address(),
    {
        XorName(self.id.0)
    }
}

/// A typed error response to a command.
#[derive(Clone, Copy, PartialEq, Eq, Structural, Debug)]
pub enum CmdError {
    Data(NdError),
    Transfer(crate::transfers::Error),
}

/// The payload of a response to a query.
#[derive(PartialEq, Eq, Debug)]
pub enum QueryResponse {
    GetMap(Result<MapChunk, NdError>),
    GetMapShell(Result<MapChunk, NdError>),
    GetMapVersion(Result<u64, NdError>),
    GetMapValue(Result<Vec<u8>, NdError>),
    ListMapKeys(Result<Vec<Vec<u8>>, NdError>),
    ListMapValues(Result<Vec<Vec<u8>>, NdError>),
    ListMapEntries(Result<Vec<MapEntry>, NdError>),
    ListMapPermissions(Result<Vec<(PublicKey, MapPermissionSet)>, NdError>),
    ListMapUserPermissions(Result<MapPermissionSet, NdError>),
    GetBlob(Result<ImmutableData, NdError>),
    GetBalance(Result<Money, NdError>),
    GetHistory(Result<Vec<LedgerEntry>, NdError>),
}

/// A money-transfer command for the replicas.
#[derive(Clone, Copy, PartialEq, Eq, Structural, Debug)]
pub enum TransferCmd {
    /// Propose a transfer for validation.
    ProposeTransfer(SignedTransfer),
    /// Hand one Elder's validation share to the replica.
    ReceiveValidation(TransferValidated),
}

/// A money-transfer query.
#[derive(Clone, Copy, PartialEq, Eq, Structural, Debug)]
pub enum TransferQuery {
    GetBalance(AccountId),
    GetHistory(AccountId),
}

/// A blob write request.
#[derive(PartialEq, Eq, Debug)]
pub enum BlobWrite {
    New(ImmutableData),
    DeletePrivate(XorName),
}

/// A blob read request.
#[derive(Clone, Copy, PartialEq, Eq, Structural, Debug)]
pub enum BlobRead {
    Get(XorName),
}

/// A typed data write request.
#[derive(PartialEq, Eq, Debug)]
pub enum DataWrite {
    Blob(BlobWrite),
    MapData(MapWrite),
}

/// A typed data read request.
#[derive(PartialEq, Eq, Debug)]
pub enum DataRead {
    Blob(BlobRead),
    MapData(MapRead),
}

/// A client command.
#[derive(PartialEq, Eq, Debug)]
pub enum Cmd {
    Transfer(TransferCmd),
    Data(DataWrite),
}

/// A client query.
#[derive(PartialEq, Eq, Debug)]
pub enum Query {
    Transfer(TransferQuery),
    Data(DataRead),
}

/// A command between network nodes.
#[derive(PartialEq, Eq, Debug)]
pub enum NetworkCmd {
    InitiateRewardPayout(SignedTransfer),
    FinaliseRewardPayout(TransferProof),
}

/// An observable effect of the membership layer.
#[derive(Clone, PartialEq, Eq, Debug)]
pub enum NetworkEvent {
    /// The elder set changed: the new signing material, as plain values.
    EldersChanged { our_index: u64, key_index: u64, key_set: KeySet, proof_chain: Vec<KeySet> },
    /// The section split; we keep the given prefix.
    SectionSplit(Prefix),
    /// A transfer reached its quorum threshold and was settled here.
    TransferFinalised(TransferProof),
}

/// A network message.
#[derive(PartialEq, Eq, Debug)]
pub enum Message {
    Cmd { cmd: Cmd, id: MessageId },
    Query { query: Query, id: MessageId },
    QueryResponse {
        response: QueryResponse,
        id: MessageId,
        correlation_id: MessageId,
        query_origin: XorName,
    },
    CmdError { error: CmdError, id: MessageId, correlation_id: MessageId, cmd_origin: XorName },
    NetworkCmd { cmd: NetworkCmd, id: MessageId },
    NetworkEvent { event: NetworkEvent, id: MessageId },
}

/// A signed message envelope, after the sender's signature and authorization
/// have been checked at the boundary.
#[derive(PartialEq, Eq, Debug)]
pub struct MsgEnvelope {
    pub message: Message,
    pub origin: MsgSender,
}

/// Wraps an Elder's outbound messages for the messaging layer.
#[derive(Clone, Copy, PartialEq, Eq, Structural, Debug)]
pub struct ElderMsgWrapping {
    /// The wrapping Elder's identity.
    pub id: PublicKey,
}

impl ElderMsgWrapping {
    pub fn new(id: PublicKey) -> (r: ElderMsgWrapping)
        ensures
            r.id == id,
    {
        ElderMsgWrapping { id }
    }

    /// Hand a message to the messaging layer.
    pub fn send(&self, message: Message) -> (r: Option<MessagingDuty>)
        ensures
            r == Some(MessagingDuty::Send(message)),
    {
        Some(MessagingDuty::Send(message))
    }

    /// Report a typed data error back to a command's origin.
    pub fn error(
        &self,
        error: CmdError,
        correlation_id: MessageId,
        reply_id: MessageId,
        cmd_origin: XorName,
    ) -> (r: Option<MessagingDuty>)
        ensures
            r == Some(
                MessagingDuty::Send(
                    Message::CmdError { error, id: reply_id, correlation_id, cmd_origin },
                ),
            ),
    {
        Some(
            MessagingDuty::Send(Message::CmdError { error, id: reply_id, correlation_id, cmd_origin }),
        )
    }
}

/// Work for the messaging layer: a message to hand to the transport.
#[derive(PartialEq, Eq, Debug)]
pub enum MessagingDuty {
    Send(Message),
}

/// Work for the transfer replicas.
#[derive(PartialEq, Eq, Debug)]
pub enum TransferDuty {
    ProcessCmd { cmd: TransferCmd, msg_id: MessageId, origin: MsgSender },
    ProcessQuery { query: TransferQuery, msg_id: MessageId, origin: MsgSender },
}

/// Work for the metadata (data-section) handlers.
#[derive(PartialEq, Eq, Debug)]
pub enum MetadataDuty {
    ProcessRead { read: DataRead, msg_id: MessageId, origin: MsgSender },
    ProcessWrite { write: DataWrite, msg_id: MessageId, origin: MsgSender },
}

/// Work for the client gateway.
#[derive(PartialEq, Eq, Debug)]
pub enum GatewayDuty {
    /// Route a message back to the client it concerns.
    FindClientFor(Message),
}

/// Work for a key section Elder.
#[derive(PartialEq, Eq, Debug)]
pub enum KeySectionDuty {
    /// Classify an incoming client message.
    EvaluateClientMsg(MsgEnvelope),
    RunAsGateway(GatewayDuty),
    RunAsTransfers(TransferDuty),
    NoOp,
}

/// The one typed duty a handled message produces (or a no-op).
#[derive(PartialEq, Eq, Debug)]
pub enum NodeOperation {
    RunAsKeySection(KeySectionDuty),
    RunAsTransfers(TransferDuty),
    RunAsMetadata(MetadataDuty),
    /// Hand a message to the transport, section-bound.
    SendToSection(Message),
    /// Hand a message to the transport, client-bound.
    SendToClient(Message),
    /// Ask the membership layer to open or close joining.
    SetJoinsAllowed(bool),
    /// Ask peer Elders for the section history we may be missing.
    CatchUpWithSection,
    NoOp,
}

} // verus!
