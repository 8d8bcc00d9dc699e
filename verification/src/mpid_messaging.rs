//! The mailbox message types: headers, full messages, and the wrapper that
//! classifies a mailbox request.
//!
//! A header announces a stored message; the full message carries the body.
//! Both are immutable once created and named by a digest of their content, so
//! a name binds to exactly one announcement. Signatures are carried as the
//! identity of the signing key.

use crate::types::{SecretKey, XorName};
use vstd::prelude::*;

verus! {

/// Most metadata bytes a header may carry.
pub const MAX_HEADER_METADATA_SIZE: usize = 128;

/// Most body bytes a message may carry.
pub const MAX_BODY_SIZE: usize = 102400;

/// Bytes a mailbox charges for a stored header beyond its metadata.
pub const HEADER_BASE_SIZE: u64 = 104;

/// Bytes a mailbox charges for a stored message beyond metadata and body.
pub const MESSAGE_BASE_SIZE: u64 = 144;

/// Space granted to an inbox.
pub const MAX_INBOX_SIZE: u64 = 1 << 27;

/// Space granted to an outbox.
pub const MAX_OUTBOX_SIZE: u64 = 1 << 27;

/// Why a header or message could not be created.
#[derive(Clone, Copy, PartialEq, Eq, Structural, Debug)]
pub enum MpidError {
    MetadataTooLarge,
    BodyTooLarge,
}

/// One step of the content digest that names headers.
pub open spec fn spec_mix(h: u64, b: u8) -> u64 {
    ((h << 7) | (h >> 57)) ^ (b as u64)
}

/// The digest of a byte string, folded onto an accumulator.
pub open spec fn spec_digest(acc: u64, bytes: Seq<u8>) -> u64
    decreases bytes.len(),
{
    if bytes.len() == 0 {
        acc
    } else {
        spec_digest(spec_mix(acc, bytes[0]), bytes.drop_first())
    }
}

/// The name of a header with the given content: a pure function of sender,
/// metadata and signature, so equal announcements collide and re-delivery is
/// detected by name. With identities reduced to single words, a small rolling
/// digest stands in for the cryptographic content hash a real deployment
/// substitutes here; nothing is claimed of it beyond being a function of the
/// content.
pub open spec fn spec_header_name(sender: XorName, metadata: Seq<u8>, sig: u64) -> XorName {
    XorName(spec_digest(((sender.0 << 7) | (sender.0 >> 57)) ^ sig, metadata))
}

fn digest(acc: u64, bytes: &Vec<u8>) -> (r: u64)
    ensures
        r == spec_digest(acc, bytes@),
{
    let n = bytes.len();
    let mut h: u64 = acc;
    let mut i: usize = 0;
    proof {
        assert(bytes@.skip(0) =~= bytes@);
    }
    while i < n
        invariant
            n == bytes@.len(),
            i <= n,
            spec_digest(acc, bytes@) == spec_digest(h, bytes@.skip(i as int)),
        decreases n - i,
    {
        proof {
            let rest = bytes@.skip(i as int);
            assert(rest[0] == bytes@[i as int]);
            assert(rest.drop_first() =~= bytes@.skip(i as int + 1));
        }
        h = ((h << 7u64) | (h >> 57u64)) ^ (bytes[i] as u64);
        i += 1;
    }
    proof {
        assert(bytes@.skip(n as int) =~= Seq::<u8>::empty());
    }
    h
}

/// What a header is, to the specification: its content as plain values.
pub struct HeaderView {
    pub sender: XorName,
    pub metadata: Seq<u8>,
    pub sig: u64,
}

/// Announces a stored mailbox message: the sender, caller-chosen metadata,
/// and the sender's signature over them.
#[derive(Clone, PartialEq, Eq, Debug)]
pub struct MpidHeader {
    sender: XorName,
    metadata: Vec<u8>,
    sig: u64,
}

impl View for MpidHeader {
    type V = HeaderView;

    closed spec fn view(&self) -> HeaderView {
        HeaderView { sender: self.sender, metadata: self.metadata@, sig: self.sig }
    }
}

impl MpidHeader {
    /// Create a header; rejected when the metadata exceeds the allowed size.
    pub fn new(sender: XorName, metadata: Vec<u8>, secret_key: &SecretKey) -> (r: Result<
        MpidHeader,
        MpidError,
    >)
        ensures
            (r is Err) <==> metadata@.len() > MAX_HEADER_METADATA_SIZE,
            r is Err ==> r == Result::<MpidHeader, MpidError>::Err(MpidError::MetadataTooLarge),
            r matches Ok(h) ==> h@ == (HeaderView {
                sender,
                metadata: metadata@,
                sig: secret_key.0,
            }),
    {
        if metadata.len() > MAX_HEADER_METADATA_SIZE {
            return Err(MpidError::MetadataTooLarge);
        }
        Ok(MpidHeader { sender, metadata, sig: secret_key.0 })
    }

    pub open spec fn wf(self) -> bool {
        self@.metadata.len() <= MAX_HEADER_METADATA_SIZE
    }

    pub fn sender(&self) -> (r: &XorName)
        ensures
            *r == self@.sender,
    {
        &self.sender
    }

    /// Whether the header respects the metadata size bound.
    pub fn check(&self) -> (r: bool)
        ensures
            r == self.wf(),
    {
        self.metadata.len() <= MAX_HEADER_METADATA_SIZE
    }

    /// The header's name: the digest of its content.
    pub fn name(&self) -> (r: XorName)
        ensures
            r == spec_header_name(self@.sender, self@.metadata, self@.sig),
    {
        XorName(digest(((self.sender.0 << 7u64) | (self.sender.0 >> 57u64)) ^ self.sig, &self.metadata))
    }

    /// What a mailbox charges for storing this header.
    pub fn stored_size(&self) -> (r: u64)
        requires
            self.wf(),
        ensures
            r == self@.metadata.len() + HEADER_BASE_SIZE,
    {
        self.metadata.len() as u64 + HEADER_BASE_SIZE
    }

    /// An owned copy with the same content.
    pub fn copy(&self) -> (r: MpidHeader)
        ensures
            r@ == self@,
    {
        let mut metadata: Vec<u8> = Vec::new();
        let n = self.metadata.len();
        let mut i: usize = 0;
        while i < n
            invariant
                n == self.metadata@.len(),
                i <= n,
                metadata@ =~= self.metadata@.take(i as int),
            decreases n - i,
        {
            metadata.push(self.metadata[i]);
            proof {
                assert(metadata@ =~= self.metadata@.take(i as int + 1));
            }
            i += 1;
        }
        proof {
            assert(self.metadata@.take(n as int) =~= self.metadata@);
        }
        MpidHeader { sender: self.sender, metadata, sig: self.sig }
    }
}

/// What a message is, to the specification.
pub struct MessageView {
    pub header: HeaderView,
    pub recipient: XorName,
    pub body: Seq<u8>,
}

/// A full mailbox message: its announcing header, the recipient, and a body.
#[derive(Clone, PartialEq, Eq, Debug)]
pub struct MpidMessage {
    header: MpidHeader,
    recipient: XorName,
    body: Vec<u8>,
}

impl View for MpidMessage {
    type V = MessageView;

    closed spec fn view(&self) -> MessageView {
        MessageView { header: self.header@, recipient: self.recipient, body: self.body@ }
    }
}

impl MpidMessage {
    /// Create a message; rejected when metadata or body exceed their sizes.
    pub fn new(
        sender: XorName,
        metadata: Vec<u8>,
        recipient: XorName,
        body: Vec<u8>,
        secret_key: &SecretKey,
    ) -> (r: Result<MpidMessage, MpidError>)
        ensures
            metadata@.len() > MAX_HEADER_METADATA_SIZE ==> r == Result::<
                MpidMessage,
                MpidError,
            >::Err(MpidError::MetadataTooLarge),
            metadata@.len() <= MAX_HEADER_METADATA_SIZE && body@.len() > MAX_BODY_SIZE ==> r
                == Result::<MpidMessage, MpidError>::Err(MpidError::BodyTooLarge),
            metadata@.len() <= MAX_HEADER_METADATA_SIZE && body@.len() <= MAX_BODY_SIZE ==> (
            r matches Ok(m) && m@ == (MessageView {
                header: HeaderView { sender, metadata: metadata@, sig: secret_key.0 },
                recipient,
                body: body@,
            })),
    {
        if body.len() > MAX_BODY_SIZE {
            if metadata.len() > MAX_HEADER_METADATA_SIZE {
                return Err(MpidError::MetadataTooLarge);
            }
            return Err(MpidError::BodyTooLarge);
        }
        let header = match MpidHeader::new(sender, metadata, secret_key) {
            Ok(h) => h,
            Err(e) => {
                return Err(e);
            },
        };
        Ok(MpidMessage { header, recipient, body })
    }

    pub open spec fn wf(self) -> bool {
        self@.header.metadata.len() <= MAX_HEADER_METADATA_SIZE && self@.body.len()
            <= MAX_BODY_SIZE
    }

    pub fn header(&self) -> (r: &MpidHeader)
        ensures
            r@ == self@.header,
            r.wf() == (self@.header.metadata.len() <= MAX_HEADER_METADATA_SIZE),
    {
        &self.header
    }

    pub fn recipient(&self) -> (r: &XorName)
        ensures
            *r == self@.recipient,
    {
        &self.recipient
    }

    /// Whether the message respects the metadata and body size bounds.
    pub fn check(&self) -> (r: bool)
        ensures
            r == self.wf(),
    {
        self.header.check() && self.body.len() <= MAX_BODY_SIZE
    }

    /// What a mailbox charges for storing this message.
    pub fn stored_size(&self) -> (r: u64)
        requires
            self.wf(),
        ensures
            r == self@.header.metadata.len() + self@.body.len() + MESSAGE_BASE_SIZE,
    {
        self.header.metadata.len() as u64 + self.body.len() as u64 + MESSAGE_BASE_SIZE
    }

    /// An owned copy with the same content.
    pub fn copy(&self) -> (r: MpidMessage)
        ensures
            r@ == self@,
    {
        let mut body: Vec<u8> = Vec::new();
        let n = self.body.len();
        let mut i: usize = 0;
        while i < n
            invariant
                n == self.body@.len(),
                i <= n,
                body@ =~= self.body@.take(i as int),
            decreases n - i,
        {
            body.push(self.body[i]);
            proof {
                assert(body@ =~= self.body@.take(i as int + 1));
            }
            i += 1;
        }
        proof {
            assert(self.body@.take(n as int) =~= self.body@);
        }
        MpidMessage { header: self.header.copy(), recipient: self.recipient, body }
    }
}

/// What a wrapper is, to the specification.
pub enum WrapperView {
    Online,
    PutHeader(HeaderView),
    PutMessage(MessageView),
    GetMessage(HeaderView),
    OutboxHas(Seq<XorName>),
    OutboxHasResponse(Seq<HeaderView>),
    GetOutboxHeaders,
    GetOutboxHeadersResponse(Seq<HeaderView>),
    DeleteMessage(XorName),
    DeleteHeader(XorName),
}

/// Classifies a mailbox request or response payload.
#[derive(Clone, PartialEq, Eq, Debug)]
pub enum MpidMessageWrapper {
    /// The sending client came online.
    Online,
    /// Store an announcement in the recipient's inbox.
    PutHeader(MpidHeader),
    /// Store a full message in the sender's outbox.
    PutMessage(MpidMessage),
    /// Fetch the full message a header announces.
    GetMessage(MpidHeader),
    /// Which of these names are still in the outbox?
    OutboxHas(Vec<XorName>),
    OutboxHasResponse(Vec<MpidHeader>),
    /// List every header in the outbox.
    GetOutboxHeaders,
    GetOutboxHeadersResponse(Vec<MpidHeader>),
    /// Remove a message from the outbox.
    DeleteMessage(XorName),
    /// Remove an announcement from the inbox.
    DeleteHeader(XorName),
}

/// An owned copy of a header list with the same content.
pub fn copy_headers(hs: &Vec<MpidHeader>) -> (r: Vec<MpidHeader>)
    ensures
        r@.map_values(|h: MpidHeader| h@) == hs@.map_values(|h: MpidHeader| h@),
{
    let n = hs.len();
    let mut r: Vec<MpidHeader> = Vec::new();
    let mut i: usize = 0;
    while i < n
        invariant
            n == hs@.len(),
            i <= n,
            r@.len() == i,
            forall|j: int| 0 <= j < i ==> (#[trigger] r@[j])@ == hs@[j]@,
        decreases n - i,
    {
        r.push(hs[i].copy());
        i += 1;
    }
    proof {
        assert(r@.map_values(|h: MpidHeader| h@) =~= hs@.map_values(|h: MpidHeader| h@));
    }
    r
}

impl MpidMessageWrapper {
    /// An owned copy with the same content.
    pub fn copy(&self) -> (r: MpidMessageWrapper)
        ensures
            r@ == self@,
    {
        match self {
            MpidMessageWrapper::Online => MpidMessageWrapper::Online,
            MpidMessageWrapper::PutHeader(h) => MpidMessageWrapper::PutHeader(h.copy()),
            MpidMessageWrapper::PutMessage(m) => MpidMessageWrapper::PutMessage(m.copy()),
            MpidMessageWrapper::GetMessage(h) => MpidMessageWrapper::GetMessage(h.copy()),
            MpidMessageWrapper::OutboxHas(names) => {
                let n = names.len();
                let mut copied: Vec<XorName> = Vec::new();
                let mut i: usize = 0;
                while i < n
                    invariant
                        n == names@.len(),
                        i <= n,
                        copied@ =~= names@.take(i as int),
                    decreases n - i,
                {
                    copied.push(names[i]);
                    proof {
                        assert(copied@ =~= names@.take(i as int + 1));
                    }
                    i += 1;
                }
                proof {
                    assert(names@.take(n as int) =~= names@);
                }
                MpidMessageWrapper::OutboxHas(copied)
            },
            MpidMessageWrapper::OutboxHasResponse(hs) => MpidMessageWrapper::OutboxHasResponse(
                copy_headers(hs),
            ),
            MpidMessageWrapper::GetOutboxHeaders => MpidMessageWrapper::GetOutboxHeaders,
            MpidMessageWrapper::GetOutboxHeadersResponse(hs) => MpidMessageWrapper::GetOutboxHeadersResponse(
                copy_headers(hs),
            ),
            MpidMessageWrapper::DeleteMessage(n) => MpidMessageWrapper::DeleteMessage(*n),
            MpidMessageWrapper::DeleteHeader(n) => MpidMessageWrapper::DeleteHeader(*n),
        }
    }
}

impl View for MpidMessageWrapper {
    type V = WrapperView;

    open spec fn view(&self) -> WrapperView {
        match self {
            MpidMessageWrapper::Online => WrapperView::Online,
            MpidMessageWrapper::PutHeader(h) => WrapperView::PutHeader(h@),
            MpidMessageWrapper::PutMessage(m) => WrapperView::PutMessage(m@),
            MpidMessageWrapper::GetMessage(h) => WrapperView::GetMessage(h@),
            MpidMessageWrapper::OutboxHas(names) => WrapperView::OutboxHas(names@),
            MpidMessageWrapper::OutboxHasResponse(hs) => WrapperView::OutboxHasResponse(
                hs@.map_values(|h: MpidHeader| h@),
            ),
            MpidMessageWrapper::GetOutboxHeaders => WrapperView::GetOutboxHeaders,
            MpidMessageWrapper::GetOutboxHeadersResponse(hs) => WrapperView::GetOutboxHeadersResponse(
                hs@.map_values(|h: MpidHeader| h@),
            ),
            MpidMessageWrapper::DeleteMessage(n) => WrapperView::DeleteMessage(*n),
            MpidMessageWrapper::DeleteHeader(n) => WrapperView::DeleteHeader(*n),
        }
    }
}

} // verus!
