//! An Adult's duties: holding data chunks, without consensus authority. An
//! Adult receives blob commands and queries, keeps the chunks in its store,
//! and answers every request with the data or the exact error owed.

use crate::chunk_store::ChunkStore;
use crate::map_storage::NdError;
use crate::mock_routing::{copy_bytes, ImmutableData};
use crate::node_msgs::{
    BlobRead, BlobWrite, Cmd, CmdError, DataRead, DataWrite, Message, MessagingDuty, MsgEnvelope,
    Query, QueryResponse,
};
use crate::table::{tbl_get, tbl_has};
use crate::types::{MessageId, PublicKey};
use vstd::prelude::*;

verus! {

/// The keys a node acts under, reduced to its public identity.
#[derive(Clone, Copy, PartialEq, Eq, Structural, Debug)]
pub struct NodeKeys {
    pub public_key: PublicKey,
}

impl NodeKeys {
    pub fn new(public_key: PublicKey) -> (r: NodeKeys)
        ensures
            r.public_key == public_key,
    {
        NodeKeys { public_key }
    }

    pub fn public_key(&self) -> (r: PublicKey)
        ensures
            r == self.public_key,
    {
        self.public_key
    }
}

/// The chunk-holding half of an Adult: a content-addressed blob store driven
/// by blob commands and queries.
pub struct Chunks {
    pub store: ChunkStore<ImmutableData>,
}

impl Chunks {
    /// Every stored blob is filed under its own name.
    pub open spec fn wf(self) -> bool {
        &&& self.store.wf()
        &&& forall|k: u64|
            #[trigger] tbl_has(self.store@, k) ==> (tbl_get(self.store@, k) matches Some(b)
                && b.name.0 == k)
    }

    pub fn new() -> (r: Chunks)
        ensures
            r.wf(),
            r.store@ =~= Seq::<(u64, ImmutableData)>::empty(),
    {
        Chunks { store: ChunkStore::new() }
    }

    /// Handle one blob message: store a fresh chunk (a second store at an
    /// occupied address is a conflict that changes nothing), delete a held
    /// chunk, or answer a read with the chunk or the error owed. Messages
    /// that are not blob work are not this component's and produce nothing.
    pub fn receive_msg(&mut self, msg: &MsgEnvelope, reply_id: MessageId) -> (r: Option<
        MessagingDuty,
    >)
        requires
            old(self).wf(),
        ensures
            final(self).wf(),
            msg.message matches Message::Cmd { cmd: Cmd::Data(DataWrite::Blob(BlobWrite::New(data))), id } ==> ({
                if tbl_has(old(self).store@, data.name.0) {
                    &&& final(self).store@ == old(self).store@
                    &&& r == Some(
                        MessagingDuty::Send(
                            Message::CmdError {
                                error: CmdError::Data(NdError::DataExists),
                                id: reply_id,
                                correlation_id: id,
                                cmd_origin: msg.origin.spec_address(),
                            },
                        ),
                    )
                } else {
                    &&& (final(self).store.spec_get(data.name) matches Some(b) && b@ == data@)
                    &&& forall|k: u64|
                        k != data.name.0 ==> tbl_get(final(self).store@, k) == tbl_get(
                            old(self).store@,
                            k,
                        )
                    &&& r is None
                }
            }),
            msg.message matches Message::Cmd { cmd: Cmd::Data(DataWrite::Blob(BlobWrite::DeletePrivate(name))), id } ==> ({
                if tbl_has(old(self).store@, name.0) {
                    &&& final(self).store.spec_get(name) is None
                    &&& forall|k: u64|
                        k != name.0 ==> tbl_get(final(self).store@, k) == tbl_get(
                            old(self).store@,
                            k,
                        )
                    &&& r is None
                } else {
                    &&& final(self).store@ == old(self).store@
                    &&& r == Some(
                        MessagingDuty::Send(
                            Message::CmdError {
                                error: CmdError::Data(NdError::NoSuchData),
                                id: reply_id,
                                correlation_id: id,
                                cmd_origin: msg.origin.spec_address(),
                            },
                        ),
                    )
                }
            }),
            msg.message matches Message::Query { query: Query::Data(DataRead::Blob(BlobRead::Get(name))), id } ==> ({
                &&& *final(self) == *old(self)
                &&& (r matches Some(d) && d matches MessagingDuty::Send(m) && m matches
                    Message::QueryResponse { response, id: rid, correlation_id, query_origin }
                    && response matches QueryResponse::GetBlob(res) && ({
                    &&& rid == reply_id
                    &&& correlation_id == id
                    &&& query_origin == msg.origin.spec_address()
                    &&& match tbl_get(old(self).store@, name.0) {
                        Some(b) => res matches Ok(b2) && b2@ == b@,
                        None => res == Result::<ImmutableData, NdError>::Err(NdError::NoSuchData),
                    }
                }))
            }),
            !(msg.message matches Message::Cmd { cmd: Cmd::Data(DataWrite::Blob(_)), .. }
                || msg.message matches Message::Query {
                query: Query::Data(DataRead::Blob(_)),
                ..
            }) ==> r is None && *final(self) == *old(self),
    {
        match &msg.message {
            Message::Cmd { cmd: Cmd::Data(DataWrite::Blob(BlobWrite::New(data))), id } => {
                if self.store.has_chunk(&data.name) {
                    return Some(
                        MessagingDuty::Send(
                            Message::CmdError {
                                error: CmdError::Data(NdError::DataExists),
                                id: reply_id,
                                correlation_id: *id,
                                cmd_origin: msg.origin.address(),
                            },
                        ),
                    );
                }
                let name = data.name;
                self.store.put(
                    &name,
                    ImmutableData { name: data.name, value: copy_bytes(&data.value) },
                );
                proof {
                    assert forall|k: u64| #[trigger] tbl_has(self.store@, k) implies (tbl_get(
                        self.store@,
                        k,
                    ) matches Some(b) && b.name.0 == k) by {
                        if k != name.0 {
                            assert(tbl_has(old(self).store@, k));
                        }
                    }
                }
                None
            },
            Message::Cmd { cmd: Cmd::Data(DataWrite::Blob(BlobWrite::DeletePrivate(name))), id } => {
                match self.store.delete(name) {
                    Ok(()) => {
                        proof {
                            assert forall|k: u64| #[trigger] tbl_has(self.store@, k) implies (
                            tbl_get(self.store@, k) matches Some(b) && b.name.0 == k) by {
                                if k != name.0 {
                                    assert(tbl_has(old(self).store@, k));
                                }
                                assert(k != name.0);
                            }
                        }
                        None
                    },
                    Err(_) => Some(
                        MessagingDuty::Send(
                            Message::CmdError {
                                error: CmdError::Data(NdError::NoSuchData),
                                id: reply_id,
                                correlation_id: *id,
                                cmd_origin: msg.origin.address(),
                            },
                        ),
                    ),
                }
            },
            Message::Query { query: Query::Data(DataRead::Blob(BlobRead::Get(name))), id } => {
                let res = match self.store.get(name) {
                    Ok(b) => Ok(ImmutableData { name: b.name, value: copy_bytes(&b.value) }),
                    Err(_) => Err(NdError::NoSuchData),
                };
                Some(
                    MessagingDuty::Send(
                        Message::QueryResponse {
                            response: QueryResponse::GetBlob(res),
                            id: reply_id,
                            correlation_id: *id,
                            query_origin: msg.origin.address(),
                        },
                    ),
                )
            },
            _ => None,
        }
    }
}

/// The duties a node performs while an Adult: receiving and serving chunks.
pub struct AdultDuties {
    pub keys: NodeKeys,
    pub chunks: Chunks,
}

impl AdultDuties {
    pub fn new(keys: NodeKeys) -> (r: Result<AdultDuties, NdError>)
        ensures
            r matches Ok(a) && a.keys == keys && a.chunks.wf() && a.chunks.store@ =~= Seq::<
                (u64, ImmutableData),
            >::empty(),
    {
        Ok(AdultDuties { keys, chunks: Chunks::new() })
    }

    /// Route one envelope to the chunk handler.
    pub fn receive_msg(&mut self, msg: &MsgEnvelope, reply_id: MessageId) -> (r: Option<
        MessagingDuty,
    >)
        requires
            old(self).chunks.wf(),
        ensures
            final(self).chunks.wf(),
            final(self).keys == old(self).keys,
            msg.message matches Message::Query { query: Query::Data(DataRead::Blob(BlobRead::Get(name))), id } ==> ({
                &&& *final(self) == *old(self)
                &&& (r matches Some(d) && d matches MessagingDuty::Send(m) && m matches
                    Message::QueryResponse { response, id: rid, correlation_id, query_origin }
                    && response matches QueryResponse::GetBlob(res) && ({
                    &&& rid == reply_id
                    &&& correlation_id == id
                    &&& query_origin == msg.origin.spec_address()
                    &&& match tbl_get(old(self).chunks.store@, name.0) {
                        Some(b) => res matches Ok(b2) && b2@ == b@,
                        None => res == Result::<ImmutableData, NdError>::Err(NdError::NoSuchData),
                    }
                }))
            }),
            msg.message matches Message::Cmd { cmd: Cmd::Data(DataWrite::Blob(BlobWrite::New(data))), id } ==> ({
                if tbl_has(old(self).chunks.store@, data.name.0) {
                    final(self).chunks.store@ == old(self).chunks.store@ && r == Some(
                        MessagingDuty::Send(
                            Message::CmdError {
                                error: CmdError::Data(NdError::DataExists),
                                id: reply_id,
                                correlation_id: id,
                                cmd_origin: msg.origin.spec_address(),
                            },
                        ),
                    )
                } else {
                    (final(self).chunks.store.spec_get(data.name) matches Some(b) && b@ == data@)
                        && r is None
                }
            }),
    {
        self.chunks.receive_msg(msg, reply_id)
    }
}

} // verus!
