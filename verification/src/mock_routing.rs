//! An in-memory routing node: the send capability handed to the personas.
//!
//! It records every message given to it, in order, one ledger per message
//! kind, and hands queued inbound events to the node under its own receiver.
//! Handlers are verified against its exact recording contracts; a live
//! deployment would put a network transport behind the same calls.

use crate::mpid_messaging::MpidMessageWrapper;
use crate::types::{MessageId, PublicKey, XorName};
use vstd::prelude::*;

verus! {

/// The number of close-group members whose agreement a mutation needs.
pub const QUORUM_SIZE: usize = 5;

/// Identity and role of a message endpoint.
#[derive(Clone, Copy, PartialEq, Eq, Structural, Debug)]
pub enum Authority {
    /// A client, reached through its proxy node.
    Client { client_key: PublicKey, proxy_node_name: XorName },
    /// The group managing a client's account.
    ClientManager(XorName),
    /// The group managing a data element's address.
    NaeManager(XorName),
    /// A single managed node.
    ManagedNode(XorName),
}

impl Authority {
    /// The name an authority acts under.
    pub open spec fn spec_name(self) -> XorName {
        match self {
            Authority::Client { proxy_node_name, .. } => proxy_node_name,
            Authority::ClientManager(n) => n,
            Authority::NaeManager(n) => n,
            Authority::ManagedNode(n) => n,
        }
    }

    pub fn name(&self) -> (r: &XorName)
        ensures
            *r == self.spec_name(),
    {
        match self {
            Authority::Client { proxy_node_name, .. } => proxy_node_name,
            Authority::ClientManager(n) => n,
            Authority::NaeManager(n) => n,
            Authority::ManagedNode(n) => n,
        }
    }
}

/// Names a data element without carrying it.
#[derive(Clone, Copy, PartialEq, Eq, Structural, Debug)]
pub enum DataIdentifier {
    Plain(XorName),
    Immutable(XorName),
}

/// What a plain data element is, to the specification.
pub struct PlainDataView {
    pub name: XorName,
    pub value: crate::mpid_messaging::WrapperView,
}

/// A named payload carrying a mailbox wrapper.
#[derive(Clone, PartialEq, Eq, Debug)]
pub struct PlainData {
    pub name: XorName,
    pub value: MpidMessageWrapper,
}

impl View for PlainData {
    type V = PlainDataView;

    open spec fn view(&self) -> PlainDataView {
        PlainDataView { name: self.name, value: self.value@ }
    }
}

/// What an immutable data element is, to the specification.
pub struct ImmutableDataView {
    pub name: XorName,
    pub value: Seq<u8>,
}

/// A content-addressed byte chunk.
#[derive(Clone, PartialEq, Eq, Debug)]
pub struct ImmutableData {
    pub name: XorName,
    pub value: Vec<u8>,
}

impl View for ImmutableData {
    type V = ImmutableDataView;

    open spec fn view(&self) -> ImmutableDataView {
        ImmutableDataView { name: self.name, value: self.value@ }
    }
}

/// What a data element is, to the specification.
pub enum DataView {
    Plain(PlainDataView),
    Immutable(ImmutableDataView),
}

/// A data element carried by a request.
#[derive(Clone, PartialEq, Eq, Debug)]
pub enum Data {
    Plain(PlainData),
    Immutable(ImmutableData),
}

impl View for Data {
    type V = DataView;

    open spec fn view(&self) -> DataView {
        match self {
            Data::Plain(d) => DataView::Plain(d@),
            Data::Immutable(d) => DataView::Immutable(d@),
        }
    }
}

/// What a request carries, to the specification.
pub enum RequestContentView {
    Get(DataIdentifier, MessageId),
    Put(DataView, MessageId),
    Post(DataView, MessageId),
    Delete(DataView, MessageId),
    Refresh(Seq<u8>, MessageId),
}

/// What a request carries.
#[derive(Clone, PartialEq, Eq, Debug)]
pub enum RequestContent {
    Get(DataIdentifier, MessageId),
    Put(Data, MessageId),
    Post(Data, MessageId),
    Delete(Data, MessageId),
    Refresh(Vec<u8>, MessageId),
}

impl View for RequestContent {
    type V = RequestContentView;

    open spec fn view(&self) -> RequestContentView {
        match self {
            RequestContent::Get(i, id) => RequestContentView::Get(*i, *id),
            RequestContent::Put(d, id) => RequestContentView::Put(d@, *id),
            RequestContent::Post(d, id) => RequestContentView::Post(d@, *id),
            RequestContent::Delete(d, id) => RequestContentView::Delete(d@, *id),
            RequestContent::Refresh(c, id) => RequestContentView::Refresh(c@, *id),
        }
    }
}

/// What a request is, to the specification.
pub struct RequestView {
    pub src: Authority,
    pub dst: Authority,
    pub content: RequestContentView,
}

/// A routed request.
#[derive(Clone, PartialEq, Eq, Debug)]
pub struct RequestMessage {
    pub src: Authority,
    pub dst: Authority,
    pub content: RequestContent,
}

impl View for RequestMessage {
    type V = RequestView;

    open spec fn view(&self) -> RequestView {
        RequestView { src: self.src, dst: self.dst, content: self.content@ }
    }
}

/// What a response carries, to the specification.
pub enum ResponseContentView {
    GetSuccess(DataView, MessageId),
    PutSuccess(DataIdentifier, MessageId),
    PostSuccess(DataIdentifier, MessageId),
    DeleteSuccess(DataIdentifier, MessageId),
    GetFailure { id: MessageId, request: RequestView, external_error_indicator: Seq<u8> },
    PutFailure { id: MessageId, request: RequestView, external_error_indicator: Seq<u8> },
    PostFailure { id: MessageId, request: RequestView, external_error_indicator: Seq<u8> },
    DeleteFailure { id: MessageId, request: RequestView, external_error_indicator: Seq<u8> },
}

/// What a response carries.
#[derive(Clone, PartialEq, Eq, Debug)]
pub enum ResponseContent {
    GetSuccess(Data, MessageId),
    PutSuccess(DataIdentifier, MessageId),
    PostSuccess(DataIdentifier, MessageId),
    DeleteSuccess(DataIdentifier, MessageId),
    GetFailure { id: MessageId, request: RequestMessage, external_error_indicator: Vec<u8> },
    PutFailure { id: MessageId, request: RequestMessage, external_error_indicator: Vec<u8> },
    PostFailure { id: MessageId, request: RequestMessage, external_error_indicator: Vec<u8> },
    DeleteFailure { id: MessageId, request: RequestMessage, external_error_indicator: Vec<u8> },
}

impl View for ResponseContent {
    type V = ResponseContentView;

    open spec fn view(&self) -> ResponseContentView {
        match self {
            ResponseContent::GetSuccess(d, id) => ResponseContentView::GetSuccess(d@, *id),
            ResponseContent::PutSuccess(i, id) => ResponseContentView::PutSuccess(*i, *id),
            ResponseContent::PostSuccess(i, id) => ResponseContentView::PostSuccess(*i, *id),
            ResponseContent::DeleteSuccess(i, id) => ResponseContentView::DeleteSuccess(*i, *id),
            ResponseContent::GetFailure { id, request, external_error_indicator } => ResponseContentView::GetFailure {
                id: *id,
                request: request@,
                external_error_indicator: external_error_indicator@,
            },
            ResponseContent::PutFailure { id, request, external_error_indicator } => ResponseContentView::PutFailure {
                id: *id,
                request: request@,
                external_error_indicator: external_error_indicator@,
            },
            ResponseContent::PostFailure { id, request, external_error_indicator } => ResponseContentView::PostFailure {
                id: *id,
                request: request@,
                external_error_indicator: external_error_indicator@,
            },
            ResponseContent::DeleteFailure { id, request, external_error_indicator } => ResponseContentView::DeleteFailure {
                id: *id,
                request: request@,
                external_error_indicator: external_error_indicator@,
            },
        }
    }
}

/// What a response is, to the specification.
pub struct ResponseView {
    pub src: Authority,
    pub dst: Authority,
    pub content: ResponseContentView,
}

/// A routed response.
#[derive(Clone, PartialEq, Eq, Debug)]
pub struct ResponseMessage {
    pub src: Authority,
    pub dst: Authority,
    pub content: ResponseContent,
}

impl View for ResponseMessage {
    type V = ResponseView;

    open spec fn view(&self) -> ResponseView {
        ResponseView { src: self.src, dst: self.dst, content: self.content@ }
    }
}

pub(crate) fn copy_bytes(v: &Vec<u8>) -> (r: Vec<u8>)
    ensures
        r@ == v@,
{
    let n = v.len();
    let mut r: Vec<u8> = Vec::new();
    let mut i: usize = 0;
    while i < n
        invariant
            n == v@.len(),
            i <= n,
            r@ =~= v@.take(i as int),
        decreases n - i,
    {
        r.push(v[i]);
        proof {
            assert(r@ =~= v@.take(i as int + 1));
        }
        i += 1;
    }
    proof {
        assert(v@.take(n as int) =~= v@);
    }
    r
}

impl Data {
    /// An owned copy with the same content.
    pub fn copy(&self) -> (r: Data)
        ensures
            r@ == self@,
    {
        match self {
            Data::Plain(d) => Data::Plain(PlainData { name: d.name, value: d.value.copy() }),
            Data::Immutable(d) => Data::Immutable(
                ImmutableData { name: d.name, value: copy_bytes(&d.value) },
            ),
        }
    }
}

impl RequestMessage {
    /// An owned copy with the same content.
    pub fn copy(&self) -> (r: RequestMessage)
        ensures
            r@ == self@,
    {
        let content = match &self.content {
            RequestContent::Get(i, id) => RequestContent::Get(*i, *id),
            RequestContent::Put(d, id) => RequestContent::Put(d.copy(), *id),
            RequestContent::Post(d, id) => RequestContent::Post(d.copy(), *id),
            RequestContent::Delete(d, id) => RequestContent::Delete(d.copy(), *id),
            RequestContent::Refresh(c, id) => RequestContent::Refresh(copy_bytes(c), *id),
        };
        RequestMessage { src: self.src, dst: self.dst, content }
    }
}

/// Exactly the put-request record changed between two recorded states.
pub open spec fn only_put_requests_changed(a: MockRoutingView, b: MockRoutingView) -> bool {
    b == (MockRoutingView { put_requests: b.put_requests, ..a })
}

/// Exactly the put-failure record changed between two recorded states.
pub open spec fn only_put_failures_changed(a: MockRoutingView, b: MockRoutingView) -> bool {
    b == (MockRoutingView { put_failures: b.put_failures, ..a })
}

/// Exactly the post-request record changed between two recorded states.
pub open spec fn only_post_requests_changed(a: MockRoutingView, b: MockRoutingView) -> bool {
    b == (MockRoutingView { post_requests: b.post_requests, ..a })
}

/// Exactly the post-failure record changed between two recorded states.
pub open spec fn only_post_failures_changed(a: MockRoutingView, b: MockRoutingView) -> bool {
    b == (MockRoutingView { post_failures: b.post_failures, ..a })
}

/// Exactly the delete-failure record changed between two recorded states.
pub open spec fn only_delete_failures_changed(a: MockRoutingView, b: MockRoutingView) -> bool {
    b == (MockRoutingView { delete_failures: b.delete_failures, ..a })
}

/// What an event is, to the specification.
pub enum EventView {
    Request(RequestView),
    Response(ResponseView),
    NodeAdded(XorName),
    NodeLost(XorName),
}

/// An inbound event delivered to the node.
#[derive(Clone, PartialEq, Eq, Debug)]
pub enum Event {
    Request(RequestMessage),
    Response(ResponseMessage),
    NodeAdded(XorName),
    NodeLost(XorName),
}

impl View for Event {
    type V = EventView;

    open spec fn view(&self) -> EventView {
        match self {
            Event::Request(m) => EventView::Request(m@),
            Event::Response(m) => EventView::Response(m@),
            Event::NodeAdded(n) => EventView::NodeAdded(*n),
            Event::NodeLost(n) => EventView::NodeLost(*n),
        }
    }
}

/// An error raised at the routing interface.
#[derive(Clone, Copy, PartialEq, Eq, Structural, Debug)]
pub enum InterfaceError {
    NotConnected,
}

/// An error raised while starting a routing node.
#[derive(Clone, Copy, PartialEq, Eq, Structural, Debug)]
pub enum RoutingError {
    Interface(InterfaceError),
}

/// The whole recorded state of the node, to the specification.
pub struct MockRoutingView {
    pub name: XorName,
    pub next_msg_id: u64,
    pub routing_table: Seq<XorName>,
    pub events: Seq<Event>,
    pub get_requests: Seq<RequestMessage>,
    pub put_requests: Seq<RequestMessage>,
    pub post_requests: Seq<RequestMessage>,
    pub delete_requests: Seq<RequestMessage>,
    pub refresh_requests: Seq<RequestMessage>,
    pub get_successes: Seq<ResponseMessage>,
    pub get_failures: Seq<ResponseMessage>,
    pub put_successes: Seq<ResponseMessage>,
    pub put_failures: Seq<ResponseMessage>,
    pub post_successes: Seq<ResponseMessage>,
    pub post_failures: Seq<ResponseMessage>,
    pub delete_successes: Seq<ResponseMessage>,
    pub delete_failures: Seq<ResponseMessage>,
}

/// Whether a name is already known.
fn contains_name(v: &Vec<XorName>, x: XorName) -> (r: bool)
    ensures
        r == v@.contains(x),
{
    let n = v.len();
    let mut i: usize = 0;
    while i < n
        invariant
            n == v@.len(),
            i <= n,
            forall|j: int| 0 <= j < i ==> v@[j] != x,
        decreases n - i,
    {
        if v[i] == x {
            return true;
        }
        i += 1;
    }
    false
}

/// The routing node stand-in.
pub struct MockRoutingNode {
    name: XorName,
    next_msg_id: u64,
    routing_table: Vec<XorName>,
    events: Vec<Event>,
    get_requests: Vec<RequestMessage>,
    put_requests: Vec<RequestMessage>,
    post_requests: Vec<RequestMessage>,
    delete_requests: Vec<RequestMessage>,
    refresh_requests: Vec<RequestMessage>,
    get_successes: Vec<ResponseMessage>,
    get_failures: Vec<ResponseMessage>,
    put_successes: Vec<ResponseMessage>,
    put_failures: Vec<ResponseMessage>,
    post_successes: Vec<ResponseMessage>,
    post_failures: Vec<ResponseMessage>,
    delete_successes: Vec<ResponseMessage>,
    delete_failures: Vec<ResponseMessage>,
}

impl View for MockRoutingNode {
    type V = MockRoutingView;

    closed spec fn view(&self) -> MockRoutingView {
        MockRoutingView {
            name: self.name,
            next_msg_id: self.next_msg_id,
            routing_table: self.routing_table@,
            events: self.events@,
            get_requests: self.get_requests@,
            put_requests: self.put_requests@,
            post_requests: self.post_requests@,
            delete_requests: self.delete_requests@,
            refresh_requests: self.refresh_requests@,
            get_successes: self.get_successes@,
            get_failures: self.get_failures@,
            put_successes: self.put_successes@,
            put_failures: self.put_failures@,
            post_successes: self.post_successes@,
            post_failures: self.post_failures@,
            delete_successes: self.delete_successes@,
            delete_failures: self.delete_failures@,
        }
    }
}

impl MockRoutingNode {
    /// A fresh node with nothing recorded. The data-cache flag is kept for
    /// callers' sake and has no observable effect here.
    pub fn new(_use_data_cache: bool) -> (r: Result<MockRoutingNode, RoutingError>)
        ensures
            r matches Ok(node) && node@ == (MockRoutingView {
                name: XorName(0),
                next_msg_id: 0,
                routing_table: Seq::empty(),
                events: Seq::empty(),
                get_requests: Seq::empty(),
                put_requests: Seq::empty(),
                post_requests: Seq::empty(),
                delete_requests: Seq::empty(),
                refresh_requests: Seq::empty(),
                get_successes: Seq::empty(),
                get_failures: Seq::empty(),
                put_successes: Seq::empty(),
                put_failures: Seq::empty(),
                post_successes: Seq::empty(),
                post_failures: Seq::empty(),
                delete_successes: Seq::empty(),
                delete_failures: Seq::empty(),
            }),
    {
        Ok(
            MockRoutingNode {
                name: XorName(0),
                next_msg_id: 0,
                routing_table: Vec::new(),
                events: Vec::new(),
                get_requests: Vec::new(),
                put_requests: Vec::new(),
                post_requests: Vec::new(),
                delete_requests: Vec::new(),
                refresh_requests: Vec::new(),
                get_successes: Vec::new(),
                get_failures: Vec::new(),
                put_successes: Vec::new(),
                put_failures: Vec::new(),
                post_successes: Vec::new(),
                post_failures: Vec::new(),
                delete_successes: Vec::new(),
                delete_failures: Vec::new(),
            },
        )
    }

    /// Drain the events queued for delivery.
    pub fn get_client_receiver(&mut self) -> (r: Vec<Event>)
        ensures
            r@ == old(self)@.events,
            final(self)@ == (MockRoutingView { events: Seq::empty(), ..old(self)@ }),
    {
        let mut drained: Vec<Event> = Vec::new();
        core::mem::swap(&mut drained, &mut self.events);
        drained
    }

    /// Mint a fresh message id from the node's counter.
    fn mint_id(&mut self) -> (r: MessageId)
        ensures
            r == MessageId(old(self)@.next_msg_id),
            final(self)@ == (MockRoutingView {
                next_msg_id: old(self)@.next_msg_id.wrapping_add(1),
                ..old(self)@
            }),
    {
        let id = MessageId(self.next_msg_id);
        self.next_msg_id = self.next_msg_id.wrapping_add(1);
        id
    }

    /// Queue a client's get request for the data's manager group.
    pub fn client_get(
        &mut self,
        client_address: XorName,
        client_pub_key: PublicKey,
        data_identifier: DataIdentifier,
    )
        ensures
            final(self)@ == (MockRoutingView {
                next_msg_id: old(self)@.next_msg_id.wrapping_add(1),
                events: old(self)@.events.push(
                    Event::Request(
                        RequestMessage {
                            src: Self::spec_client_authority(client_address, client_pub_key),
                            dst: Authority::ClientManager(client_address),
                            content: RequestContent::Get(
                                data_identifier,
                                MessageId(old(self)@.next_msg_id),
                            ),
                        },
                    ),
                ),
                ..old(self)@
            }),
    {
        let id = self.mint_id();
        let msg = RequestMessage {
            src: Self::client_authority(client_address, client_pub_key),
            dst: Authority::ClientManager(client_address),
            content: RequestContent::Get(data_identifier, id),
        };
        self.events.push(Event::Request(msg));
    }

    /// Queue a client's put request for its account manager group.
    pub fn client_put(&mut self, client_address: XorName, client_pub_key: PublicKey, data: Data)
        ensures
            final(self)@ == (MockRoutingView {
                next_msg_id: old(self)@.next_msg_id.wrapping_add(1),
                events: old(self)@.events.push(
                    Event::Request(
                        RequestMessage {
                            src: Self::spec_client_authority(client_address, client_pub_key),
                            dst: Authority::ClientManager(client_address),
                            content: RequestContent::Put(data, MessageId(old(self)@.next_msg_id)),
                        },
                    ),
                ),
                ..old(self)@
            }),
    {
        let id = self.mint_id();
        let msg = RequestMessage {
            src: Self::client_authority(client_address, client_pub_key),
            dst: Authority::ClientManager(client_address),
            content: RequestContent::Put(data, id),
        };
        self.events.push(Event::Request(msg));
    }

    /// Queue a client's post request for its account manager group.
    pub fn client_post(&mut self, client_address: XorName, client_pub_key: PublicKey, data: Data)
        ensures
            final(self)@ == (MockRoutingView {
                next_msg_id: old(self)@.next_msg_id.wrapping_add(1),
                events: old(self)@.events.push(
                    Event::Request(
                        RequestMessage {
                            src: Self::spec_client_authority(client_address, client_pub_key),
                            dst: Authority::ClientManager(client_address),
                            content: RequestContent::Post(data, MessageId(old(self)@.next_msg_id)),
                        },
                    ),
                ),
                ..old(self)@
            }),
    {
        let id = self.mint_id();
        let msg = RequestMessage {
            src: Self::client_authority(client_address, client_pub_key),
            dst: Authority::ClientManager(client_address),
            content: RequestContent::Post(data, id),
        };
        self.events.push(Event::Request(msg));
    }

    /// Queue a client's delete request for its account manager group.
    pub fn client_delete(&mut self, client_address: XorName, client_pub_key: PublicKey, data: Data)
        ensures
            final(self)@ == (MockRoutingView {
                next_msg_id: old(self)@.next_msg_id.wrapping_add(1),
                events: old(self)@.events.push(
                    Event::Request(
                        RequestMessage {
                            src: Self::spec_client_authority(client_address, client_pub_key),
                            dst: Authority::ClientManager(client_address),
                            content: RequestContent::Delete(
                                data,
                                MessageId(old(self)@.next_msg_id),
                            ),
                        },
                    ),
                ),
                ..old(self)@
            }),
    {
        let id = self.mint_id();
        let msg = RequestMessage {
            src: Self::client_authority(client_address, client_pub_key),
            dst: Authority::ClientManager(client_address),
            content: RequestContent::Delete(data, id),
        };
        self.events.push(Event::Request(msg));
    }

    /// Queue a membership event: a node joined the close group. The node is
    /// remembered in the routing table, once.
    pub fn node_added_event(&mut self, node_added: XorName)
        ensures
            final(self)@ == (MockRoutingView {
                events: old(self)@.events.push(Event::NodeAdded(node_added)),
                routing_table: if old(self)@.routing_table.contains(node_added) {
                    old(self)@.routing_table
                } else {
                    old(self)@.routing_table.push(node_added)
                },
                ..old(self)@
            }),
    {
        if !contains_name(&self.routing_table, node_added) {
            self.routing_table.push(node_added);
        }
        self.events.push(Event::NodeAdded(node_added));
    }

    /// Queue a membership event: a node left the close group. The node is
    /// forgotten from the routing table.
    pub fn node_lost_event(&mut self, node_lost: XorName)
        ensures
            final(self)@ == (MockRoutingView {
                events: old(self)@.events.push(Event::NodeLost(node_lost)),
                routing_table: final(self)@.routing_table,
                ..old(self)@
            }),
            forall|i: int|
                0 <= i < final(self)@.routing_table.len() ==> #[trigger] final(self)@.routing_table[i] != node_lost && old(self)@.routing_table.contains(
                    final(self)@.routing_table[i],
                ),
            !old(self)@.routing_table.contains(node_lost) ==> final(self)@.routing_table == old(self)@.routing_table,
    {
        let n = self.routing_table.len();
        let mut kept: Vec<XorName> = Vec::new();
        let mut i: usize = 0;
        while i < n
            invariant
                n == old(self)@.routing_table.len(),
                self.routing_table@ == old(self)@.routing_table,
                i <= n,
                forall|j: int|
                    0 <= j < kept@.len() ==> #[trigger] kept@[j] != node_lost && old(self)@.routing_table.contains(kept@[j]),
                !old(self)@.routing_table.take(i as int).contains(node_lost) ==> kept@ == old(self)@.routing_table.take(i as int),
            decreases n - i,
        {
            let name = self.routing_table[i];
            if !(name == node_lost) {
                kept.push(name);
            }
            proof {
                assert(old(self)@.routing_table.take(i as int + 1).drop_last() =~= old(self)@.routing_table.take(i as int));
                assert(old(self)@.routing_table.take(i as int + 1).last() == old(self)@.routing_table[i as int]);
                if !old(self)@.routing_table.take(i as int + 1).contains(node_lost) {
                    assert(!old(self)@.routing_table.take(i as int).contains(node_lost));
                    assert(kept@ =~= old(self)@.routing_table.take(i as int + 1));
                }
            }
            i += 1;
        }
        proof {
            assert(old(self)@.routing_table.take(n as int) =~= old(self)@.routing_table);
        }
        self.routing_table = kept;
        self.events.push(Event::NodeLost(node_lost));
    }

    /// The names this node currently routes to.
    pub fn get_routing_table(&self) -> (r: &Vec<XorName>)
        ensures
            r@ == self@.routing_table,
    {
        &self.routing_table
    }

    /// The close group of a name: in this stand-in, every known peer.
    pub fn close_group(&self, _name: XorName) -> (r: Result<
        Option<Vec<XorName>>,
        InterfaceError,
    >)
        ensures
            r matches Ok(g) && g matches Some(names) && names@ == self@.routing_table,
    {
        let n = self.routing_table.len();
        let mut names: Vec<XorName> = Vec::new();
        let mut i: usize = 0;
        while i < n
            invariant
                n == self.routing_table@.len(),
                i <= n,
                names@ =~= self.routing_table@.take(i as int),
            decreases n - i,
        {
            names.push(self.routing_table[i]);
            proof {
                assert(names@ =~= self.routing_table@.take(i as int + 1));
            }
            i += 1;
        }
        proof {
            assert(self.routing_table@.take(n as int) =~= self.routing_table@);
        }
        Ok(Some(names))
    }

    pub fn get_requests_given(&self) -> (r: &Vec<RequestMessage>)
        ensures
            r@ == self@.get_requests,
    {
        &self.get_requests
    }

    pub fn put_requests_given(&self) -> (r: &Vec<RequestMessage>)
        ensures
            r@ == self@.put_requests,
    {
        &self.put_requests
    }

    pub fn post_requests_given(&self) -> (r: &Vec<RequestMessage>)
        ensures
            r@ == self@.post_requests,
    {
        &self.post_requests
    }

    pub fn delete_requests_given(&self) -> (r: &Vec<RequestMessage>)
        ensures
            r@ == self@.delete_requests,
    {
        &self.delete_requests
    }

    pub fn refresh_requests_given(&self) -> (r: &Vec<RequestMessage>)
        ensures
            r@ == self@.refresh_requests,
    {
        &self.refresh_requests
    }

    pub fn get_successes_given(&self) -> (r: &Vec<ResponseMessage>)
        ensures
            r@ == self@.get_successes,
    {
        &self.get_successes
    }

    pub fn get_failures_given(&self) -> (r: &Vec<ResponseMessage>)
        ensures
            r@ == self@.get_failures,
    {
        &self.get_failures
    }

    pub fn put_successes_given(&self) -> (r: &Vec<ResponseMessage>)
        ensures
            r@ == self@.put_successes,
    {
        &self.put_successes
    }

    pub fn put_failures_given(&self) -> (r: &Vec<ResponseMessage>)
        ensures
            r@ == self@.put_failures,
    {
        &self.put_failures
    }

    pub fn post_successes_given(&self) -> (r: &Vec<ResponseMessage>)
        ensures
            r@ == self@.post_successes,
    {
        &self.post_successes
    }

    pub fn post_failures_given(&self) -> (r: &Vec<ResponseMessage>)
        ensures
            r@ == self@.post_failures,
    {
        &self.post_failures
    }

    pub fn delete_successes_given(&self) -> (r: &Vec<ResponseMessage>)
        ensures
            r@ == self@.delete_successes,
    {
        &self.delete_successes
    }

    pub fn delete_failures_given(&self) -> (r: &Vec<ResponseMessage>)
        ensures
            r@ == self@.delete_failures,
    {
        &self.delete_failures
    }

    pub fn send_get_request(
        &mut self,
        src: Authority,
        dst: Authority,
        data_identifier: DataIdentifier,
        id: MessageId,
    ) -> (r: Result<(), InterfaceError>)
        ensures
            r is Ok,
            final(self)@ == (MockRoutingView {
                get_requests: old(self)@.get_requests.push(
                    RequestMessage { src, dst, content: RequestContent::Get(data_identifier, id) },
                ),
                ..old(self)@
            }),
    {
        self.get_requests.push(
            RequestMessage { src, dst, content: RequestContent::Get(data_identifier, id) },
        );
        Ok(())
    }

    pub fn send_put_request(
        &mut self,
        src: Authority,
        dst: Authority,
        data: Data,
        id: MessageId,
    ) -> (r: Result<(), InterfaceError>)
        ensures
            r is Ok,
            final(self)@ == (MockRoutingView {
                put_requests: old(self)@.put_requests.push(
                    RequestMessage { src, dst, content: RequestContent::Put(data, id) },
                ),
                ..old(self)@
            }),
    {
        self.put_requests.push(RequestMessage { src, dst, content: RequestContent::Put(data, id) });
        Ok(())
    }

    pub fn send_post_request(
        &mut self,
        src: Authority,
        dst: Authority,
        data: Data,
        id: MessageId,
    ) -> (r: Result<(), InterfaceError>)
        ensures
            r is Ok,
            final(self)@ == (MockRoutingView {
                post_requests: old(self)@.post_requests.push(
                    RequestMessage { src, dst, content: RequestContent::Post(data, id) },
                ),
                ..old(self)@
            }),
    {
        self.post_requests.push(
            RequestMessage { src, dst, content: RequestContent::Post(data, id) },
        );
        Ok(())
    }

    pub fn send_delete_request(
        &mut self,
        src: Authority,
        dst: Authority,
        data: Data,
        id: MessageId,
    ) -> (r: Result<(), InterfaceError>)
        ensures
            r is Ok,
            final(self)@ == (MockRoutingView {
                delete_requests: old(self)@.delete_requests.push(
                    RequestMessage { src, dst, content: RequestContent::Delete(data, id) },
                ),
                ..old(self)@
            }),
    {
        self.delete_requests.push(
            RequestMessage { src, dst, content: RequestContent::Delete(data, id) },
        );
        Ok(())
    }

    pub fn send_refresh_request(
        &mut self,
        src: Authority,
        dst: Authority,
        content: Vec<u8>,
        message_id: MessageId,
    ) -> (r: Result<(), InterfaceError>)
        ensures
            r is Ok,
            final(self)@ == (MockRoutingView {
                refresh_requests: old(self)@.refresh_requests.push(
                    RequestMessage {
                        src,
                        dst,
                        content: RequestContent::Refresh(content, message_id),
                    },
                ),
                ..old(self)@
            }),
    {
        self.refresh_requests.push(
            RequestMessage { src, dst, content: RequestContent::Refresh(content, message_id) },
        );
        Ok(())
    }

    pub fn send_get_success(
        &mut self,
        src: Authority,
        dst: Authority,
        data: Data,
        id: MessageId,
    ) -> (r: Result<(), InterfaceError>)
        ensures
            r is Ok,
            final(self)@ == (MockRoutingView {
                get_successes: old(self)@.get_successes.push(
                    ResponseMessage { src, dst, content: ResponseContent::GetSuccess(data, id) },
                ),
                ..old(self)@
            }),
    {
        self.get_successes.push(
            ResponseMessage { src, dst, content: ResponseContent::GetSuccess(data, id) },
        );
        Ok(())
    }

    pub fn send_get_failure(
        &mut self,
        src: Authority,
        dst: Authority,
        request: RequestMessage,
        external_error_indicator: Vec<u8>,
        id: MessageId,
    ) -> (r: Result<(), InterfaceError>)
        ensures
            r is Ok,
            final(self)@ == (MockRoutingView {
                get_failures: old(self)@.get_failures.push(
                    ResponseMessage {
                        src,
                        dst,
                        content: ResponseContent::GetFailure {
                            id,
                            request,
                            external_error_indicator,
                        },
                    },
                ),
                ..old(self)@
            }),
    {
        self.get_failures.push(
            ResponseMessage {
                src,
                dst,
                content: ResponseContent::GetFailure { id, request, external_error_indicator },
            },
        );
        Ok(())
    }

    pub fn send_put_success(
        &mut self,
        src: Authority,
        dst: Authority,
        data_identifier: DataIdentifier,
        id: MessageId,
    ) -> (r: Result<(), InterfaceError>)
        ensures
            r is Ok,
            final(self)@ == (MockRoutingView {
                put_successes: old(self)@.put_successes.push(
                    ResponseMessage {
                        src,
                        dst,
                        content: ResponseContent::PutSuccess(data_identifier, id),
                    },
                ),
                ..old(self)@
            }),
    {
        self.put_successes.push(
            ResponseMessage { src, dst, content: ResponseContent::PutSuccess(data_identifier, id) },
        );
        Ok(())
    }

    pub fn send_put_failure(
        &mut self,
        src: Authority,
        dst: Authority,
        request: RequestMessage,
        external_error_indicator: Vec<u8>,
        id: MessageId,
    ) -> (r: Result<(), InterfaceError>)
        ensures
            r is Ok,
            final(self)@ == (MockRoutingView {
                put_failures: old(self)@.put_failures.push(
                    ResponseMessage {
                        src,
                        dst,
                        content: ResponseContent::PutFailure {
                            id,
                            request,
                            external_error_indicator,
                        },
                    },
                ),
                ..old(self)@
            }),
    {
        self.put_failures.push(
            ResponseMessage {
                src,
                dst,
                content: ResponseContent::PutFailure { id, request, external_error_indicator },
            },
        );
        Ok(())
    }

    pub fn send_post_success(
        &mut self,
        src: Authority,
        dst: Authority,
        data_identifier: DataIdentifier,
        id: MessageId,
    ) -> (r: Result<(), InterfaceError>)
        ensures
            r is Ok,
            final(self)@ == (MockRoutingView {
                post_successes: old(self)@.post_successes.push(
                    ResponseMessage {
                        src,
                        dst,
                        content: ResponseContent::PostSuccess(data_identifier, id),
                    },
                ),
                ..old(self)@
            }),
    {
        self.post_successes.push(
            ResponseMessage {
                src,
                dst,
                content: ResponseContent::PostSuccess(data_identifier, id),
            },
        );
        Ok(())
    }

    pub fn send_post_failure(
        &mut self,
        src: Authority,
        dst: Authority,
        request: RequestMessage,
        external_error_indicator: Vec<u8>,
        id: MessageId,
    ) -> (r: Result<(), InterfaceError>)
        ensures
            r is Ok,
            final(self)@ == (MockRoutingView {
                post_failures: old(self)@.post_failures.push(
                    ResponseMessage {
                        src,
                        dst,
                        content: ResponseContent::PostFailure {
                            id,
                            request,
                            external_error_indicator,
                        },
                    },
                ),
                ..old(self)@
            }),
    {
        self.post_failures.push(
            ResponseMessage {
                src,
                dst,
                content: ResponseContent::PostFailure { id, request, external_error_indicator },
            },
        );
        Ok(())
    }

    pub fn send_delete_success(
        &mut self,
        src: Authority,
        dst: Authority,
        data_identifier: DataIdentifier,
        id: MessageId,
    ) -> (r: Result<(), InterfaceError>)
        ensures
            r is Ok,
            final(self)@ == (MockRoutingView {
                delete_successes: old(self)@.delete_successes.push(
                    ResponseMessage {
                        src,
                        dst,
                        content: ResponseContent::DeleteSuccess(data_identifier, id),
                    },
                ),
                ..old(self)@
            }),
    {
        self.delete_successes.push(
            ResponseMessage {
                src,
                dst,
                content: ResponseContent::DeleteSuccess(data_identifier, id),
            },
        );
        Ok(())
    }

    pub fn send_delete_failure(
        &mut self,
        src: Authority,
        dst: Authority,
        request: RequestMessage,
        external_error_indicator: Vec<u8>,
        id: MessageId,
    ) -> (r: Result<(), InterfaceError>)
        ensures
            r is Ok,
            final(self)@ == (MockRoutingView {
                delete_failures: old(self)@.delete_failures.push(
                    ResponseMessage {
                        src,
                        dst,
                        content: ResponseContent::DeleteFailure {
                            id,
                            request,
                            external_error_indicator,
                        },
                    },
                ),
                ..old(self)@
            }),
    {
        self.delete_failures.push(
            ResponseMessage {
                src,
                dst,
                content: ResponseContent::DeleteFailure { id, request, external_error_indicator },
            },
        );
        Ok(())
    }

    /// The node's own name.
    pub fn name(&self) -> (r: Result<XorName, InterfaceError>)
        ensures
            r == Result::<XorName, InterfaceError>::Ok(self@.name),
    {
        Ok(self.name)
    }

    /// How many close-group members must agree on a mutation.
    pub fn quorum_size(&self) -> (r: Result<usize, InterfaceError>)
        ensures
            r == Result::<usize, InterfaceError>::Ok(QUORUM_SIZE),
    {
        Ok(QUORUM_SIZE)
    }

    /// The authority a client request arrives under.
    pub open spec fn spec_client_authority(
        client_address: XorName,
        client_pub_key: PublicKey,
    ) -> Authority {
        Authority::Client { client_key: client_pub_key, proxy_node_name: client_address }
    }

    fn client_authority(client_address: XorName, client_pub_key: PublicKey) -> (r: Authority)
        ensures
            r == Self::spec_client_authority(client_address, client_pub_key),
    {
        Authority::Client { client_key: client_pub_key, proxy_node_name: client_address }
    }
}

} // verus!
