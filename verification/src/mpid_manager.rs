//! The mailbox persona: per-account inboxes and outboxes of announced
//! messages, with space accounting, driven by put, post and delete requests.
//!
//! A sender's manager group stores full messages in the sender's outbox and
//! announces each with a header put into the recipient's inbox; the recipient
//! fetches the full message once its clients come online. Every failure is
//! reported back to the origin; none is fatal to the node.

use crate::chunk_store::ChunkStore;
use crate::mock_routing::{
    only_delete_failures_changed, only_post_failures_changed, only_post_requests_changed, only_put_failures_changed,
    only_put_requests_changed, Authority, Data, MockRoutingNode, PlainData, RequestContent,
    RequestMessage, ResponseContentView, ResponseView,
};
use crate::mpid_messaging::{
    MpidHeader, MpidMessage, MpidMessageWrapper, WrapperView, HEADER_BASE_SIZE, MAX_INBOX_SIZE,
    MAX_OUTBOX_SIZE, MESSAGE_BASE_SIZE,
};
use crate::table::{tbl_get, tbl_has, tbl_keys, Table};
use crate::types::{MessageId, PublicKey, XorName};
use vstd::prelude::*;

verus! {

/// An error reported back to the requesting client.
#[derive(Clone, Copy, PartialEq, Eq, Structural, Debug)]
pub enum ClientError {
    /// The address is already occupied.
    DataExists,
}

/// An error surfaced to the caller of a handler.
#[derive(Clone, Copy, PartialEq, Eq, Structural, Debug)]
pub enum InternalError {
    Client(ClientError),
    /// The envelope does not carry a request this persona handles.
    UnexpectedRequest,
}

/// One account's mailbox: named entries under a space allowance.
pub struct MailBox {
    pub allowance: u64,
    pub used_space: u64,
    pub space_available: u64,
    /// Entry name to the sender's public key, where one was retained.
    pub mail_box: Table<Option<PublicKey>>,
}

impl MailBox {
    /// The two space counters always split the allowance exactly.
    pub open spec fn wf(self) -> bool {
        &&& self.mail_box.wf()
        &&& self.used_space + self.space_available == self.allowance
    }

    pub fn new(allowance: u64) -> (r: MailBox)
        ensures
            r.wf(),
            r.allowance == allowance,
            r.used_space == 0,
            r.space_available == allowance,
            r.mail_box@ =~= Seq::<(u64, Option<PublicKey>)>::empty(),
    {
        MailBox { allowance, used_space: 0, space_available: allowance, mail_box: Table::new() }
    }

    /// Charge `size` and record an entry. Accepted exactly when the space is
    /// available and the entry is new; a re-announced entry retains the new
    /// key but is not charged and is reported as rejected.
    pub fn put(&mut self, size: u64, entry: &XorName, public_key: &Option<PublicKey>) -> (r: bool)
        requires
            old(self).wf(),
        ensures
            final(self).wf(),
            r == (size <= old(self).space_available && !tbl_has(old(self).mail_box@, entry.0)),
            final(self).allowance == old(self).allowance,
            size > old(self).space_available ==> *final(self) == *old(self),
            size <= old(self).space_available ==> {
                &&& tbl_get(final(self).mail_box@, entry.0) == Some(*public_key)
                &&& forall|k: u64|
                    k != entry.0 ==> tbl_get(final(self).mail_box@, k) == tbl_get(
                        old(self).mail_box@,
                        k,
                    )
                &&& (r ==> final(self).used_space == old(self).used_space + size
                    && final(self).space_available == old(self).space_available - size)
                &&& (!r ==> final(self).used_space == old(self).used_space
                    && final(self).space_available == old(self).space_available)
            },
    {
        if size > self.space_available {
            return false;
        }
        let had = self.mail_box.contains(entry.0);
        self.mail_box.set(entry.0, *public_key);
        if had {
            false
        } else {
            self.used_space = self.used_space + size;
            self.space_available = self.space_available - size;
            true
        }
    }

    /// Remove an entry and release its charge (capped by what is used).
    pub fn remove(&mut self, size: u64, entry: &XorName) -> (r: bool)
        requires
            old(self).wf(),
        ensures
            final(self).wf(),
            r == tbl_has(old(self).mail_box@, entry.0),
            final(self).allowance == old(self).allowance,
            !r ==> final(self).mail_box@ == old(self).mail_box@ && final(self).used_space == old(self).used_space && final(self).space_available == old(self).space_available,
            r ==> {
                &&& !tbl_has(final(self).mail_box@, entry.0)
                &&& forall|k: u64|
                    k != entry.0 ==> tbl_get(final(self).mail_box@, k) == tbl_get(
                        old(self).mail_box@,
                        k,
                    )
                &&& final(self).used_space == old(self).used_space - (if size <= old(self).used_space {
                    size as int
                } else {
                    old(self).used_space as int
                })
                &&& final(self).space_available == old(self).space_available + (if size <= old(self).used_space {
                    size as int
                } else {
                    old(self).used_space as int
                })
            },
    {
        match self.mail_box.remove(entry.0) {
            Some(_) => {
                let delta = if size <= self.used_space {
                    size
                } else {
                    self.used_space
                };
                self.used_space = self.used_space - delta;
                self.space_available = self.space_available + delta;
                true
            },
            None => false,
        }
    }

    pub fn contains_key(&self, entry: &XorName) -> (r: bool)
        requires
            self.wf(),
        ensures
            r == tbl_has(self.mail_box@, entry.0),
    {
        self.mail_box.contains(entry.0)
    }

    /// The entry names, in entry order.
    pub fn names(&self) -> (r: Vec<XorName>)
        ensures
            r@.len() == self.mail_box@.len(),
            forall|i: int|
                0 <= i < r@.len() ==> r@[i] == XorName(tbl_keys(self.mail_box@)[i]),
    {
        let keys = self.mail_box.keys();
        let n = keys.len();
        let mut r: Vec<XorName> = Vec::new();
        let mut i: usize = 0;
        while i < n
            invariant
                n == keys@.len(),
                keys@ == tbl_keys(self.mail_box@),
                i <= n,
                r@.len() == i,
                forall|j: int| 0 <= j < i ==> r@[j] == XorName(keys@[j]),
            decreases n - i,
        {
            r.push(XorName(keys[i]));
            i += 1;
        }
        r
    }
}

/// How registering a client authority changes a client list: a client not
/// yet registered is appended; anything else leaves the list unchanged.
pub open spec fn spec_register(cs: Seq<Authority>, c: Authority) -> Seq<Authority> {
    if c is Client && !cs.contains(c) {
        cs.push(c)
    } else {
        cs
    }
}

/// The names of a mailbox's entries, in entry order.
pub open spec fn spec_mbox_names(mbox: Seq<(u64, Option<PublicKey>)>) -> Seq<XorName> {
    tbl_keys(mbox).map_values(|k: u64| XorName(k))
}

/// The headers of the stored messages selected by `names`: a name counts when
/// the mailbox lists it and the store still holds its message.
pub open spec fn spec_selected_headers(
    store: Seq<(u64, MpidMessage)>,
    mbox: Seq<(u64, Option<PublicKey>)>,
    names: Seq<XorName>,
) -> Seq<crate::mpid_messaging::HeaderView>
    decreases names.len(),
{
    if names.len() == 0 {
        Seq::empty()
    } else {
        let rest = spec_selected_headers(store, mbox, names.drop_last());
        let n = names.last();
        if tbl_has(mbox, n.0) && tbl_get(store, n.0) is Some {
            rest.push((tbl_get(store, n.0)->Some_0)@.header)
        } else {
            rest
        }
    }
}

/// The fetch requests a client's coming-online owes: one per announced
/// header still held in the inbox store, in announcement order, each asking
/// the announcing sender's managers for the full message.
pub open spec fn spec_online_fetches(
    store: Seq<(u64, MpidHeader)>,
    names: Seq<XorName>,
    src: Authority,
    mid: MessageId,
) -> Seq<crate::mock_routing::RequestView>
    decreases names.len(),
{
    if names.len() == 0 {
        Seq::empty()
    } else {
        let rest = spec_online_fetches(store, names.drop_last(), src, mid);
        let n = names.last();
        match tbl_get(store, n.0) {
            Some(h) => rest.push(
                crate::mock_routing::RequestView {
                    src,
                    dst: Authority::ClientManager(h@.sender),
                    content: crate::mock_routing::RequestContentView::Post(
                        crate::mock_routing::DataView::Plain(
                            crate::mock_routing::PlainDataView {
                                name: crate::mpid_messaging::spec_header_name(
                                    h@.sender,
                                    h@.metadata,
                                    h@.sig,
                                ),
                                value: crate::mpid_messaging::WrapperView::GetMessage(h@),
                            },
                        ),
                        mid,
                    ),
                },
            ),
            None => rest,
        }
    }
}

/// Collect the headers of the stored messages selected by `names`.
fn selected_headers(
    store: &ChunkStore<MpidMessage>,
    outbox: &MailBox,
    names: &Vec<XorName>,
) -> (r: Vec<MpidHeader>)
    requires
        store.wf(),
        outbox.wf(),
    ensures
        r@.map_values(|h: MpidHeader| h@) == spec_selected_headers(
            store@,
            outbox.mail_box@,
            names@,
        ),
{
    let n = names.len();
    let mut headers: Vec<MpidHeader> = Vec::new();
    proof {
        assert(names@.take(0) =~= Seq::<XorName>::empty());
    }
    let mut i: usize = 0;
    while i < n
        invariant
            n == names@.len(),
            i <= n,
            store.wf(),
            outbox.wf(),
            headers@.map_values(|h: MpidHeader| h@) == spec_selected_headers(
                store@,
                outbox.mail_box@,
                names@.take(i as int),
            ),
        decreases n - i,
    {
        let ghost prefix_map = headers@.map_values(|h: MpidHeader| h@);
        let name = names[i];
        if outbox.contains_key(&name) {
            match store.get(&name) {
                Ok(m) => {
                    headers.push(m.header().copy());
                    proof {
                        assert(headers@.map_values(|h: MpidHeader| h@) =~= prefix_map.push(
                            (tbl_get(store@, name.0)->Some_0)@.header,
                        ));
                    }
                },
                Err(_) => {},
            }
        }
        proof {
            assert(names@.take(i as int + 1).drop_last() =~= names@.take(i as int));
            assert(names@.take(i as int + 1).last() == names@[i as int]);
        }
        i += 1;
    }
    proof {
        assert(names@.take(n as int) =~= names@);
    }
    headers
}

/// Whether `a` is among the registered clients.
fn has_client(clients: &Vec<Authority>, a: &Authority) -> (r: bool)
    ensures
        r == clients@.contains(*a),
{
    let n = clients.len();
    let mut i: usize = 0;
    while i < n
        invariant
            n == clients@.len(),
            i <= n,
            forall|j: int| 0 <= j < i ==> clients@[j] != *a,
        decreases n - i,
    {
        if clients[i] == *a {
            return true;
        }
        i += 1;
    }
    false
}

/// One account: the owner's registered client proxies, an inbox of received
/// announcements and an outbox of stored messages.
pub struct Account {
    pub clients: Vec<Authority>,
    pub inbox: MailBox,
    pub outbox: MailBox,
}

impl Account {
    pub open spec fn wf(self) -> bool {
        self.inbox.wf() && self.outbox.wf()
    }
}

impl Default for Account {
    /// A fresh account with the default inbox and outbox allowances granted.
    fn default() -> (r: Account)
        ensures
            r.wf(),
            r.clients@ =~= Seq::<Authority>::empty(),
            r.inbox.allowance == MAX_INBOX_SIZE,
            r.inbox.used_space == 0,
            r.inbox.space_available == MAX_INBOX_SIZE,
            r.inbox.mail_box@ =~= Seq::<(u64, Option<PublicKey>)>::empty(),
            r.outbox.allowance == MAX_OUTBOX_SIZE,
            r.outbox.used_space == 0,
            r.outbox.space_available == MAX_OUTBOX_SIZE,
            r.outbox.mail_box@ =~= Seq::<(u64, Option<PublicKey>)>::empty(),
    {
        Account {
            clients: Vec::new(),
            inbox: MailBox::new(MAX_INBOX_SIZE),
            outbox: MailBox::new(MAX_OUTBOX_SIZE),
        }
    }
}

impl Account {
    pub fn put_into_outbox(
        &mut self,
        size: u64,
        entry: &XorName,
        public_key: &Option<PublicKey>,
    ) -> (r: bool)
        requires
            old(self).wf(),
        ensures
            final(self).wf(),
            final(self).clients@ == old(self).clients@,
            final(self).inbox == old(self).inbox,
            final(self).outbox.allowance == old(self).outbox.allowance,
            r == (size <= old(self).outbox.space_available && !tbl_has(
                old(self).outbox.mail_box@,
                entry.0,
            )),
            size > old(self).outbox.space_available ==> final(self).outbox == old(self).outbox,
            size <= old(self).outbox.space_available ==> {
                &&& tbl_get(final(self).outbox.mail_box@, entry.0) == Some(*public_key)
                &&& forall|k: u64|
                    k != entry.0 ==> tbl_get(final(self).outbox.mail_box@, k) == tbl_get(
                        old(self).outbox.mail_box@,
                        k,
                    )
                &&& (r ==> final(self).outbox.used_space == old(self).outbox.used_space + size
                    && final(self).outbox.space_available == old(self).outbox.space_available
                    - size)
                &&& (!r ==> final(self).outbox.used_space == old(self).outbox.used_space && final(self).outbox.space_available == old(self).outbox.space_available)
            },
    {
        self.outbox.put(size, entry, public_key)
    }

    pub fn put_into_inbox(
        &mut self,
        size: u64,
        entry: &XorName,
        public_key: &Option<PublicKey>,
    ) -> (r: bool)
        requires
            old(self).wf(),
        ensures
            final(self).wf(),
            final(self).clients@ == old(self).clients@,
            final(self).outbox == old(self).outbox,
            final(self).inbox.allowance == old(self).inbox.allowance,
            r == (size <= old(self).inbox.space_available && !tbl_has(
                old(self).inbox.mail_box@,
                entry.0,
            )),
            size > old(self).inbox.space_available ==> final(self).inbox == old(self).inbox,
            size <= old(self).inbox.space_available ==> {
                &&& tbl_get(final(self).inbox.mail_box@, entry.0) == Some(*public_key)
                &&& forall|k: u64|
                    k != entry.0 ==> tbl_get(final(self).inbox.mail_box@, k) == tbl_get(
                        old(self).inbox.mail_box@,
                        k,
                    )
                &&& (r ==> final(self).inbox.used_space == old(self).inbox.used_space + size
                    && final(self).inbox.space_available == old(self).inbox.space_available
                    - size)
                &&& (!r ==> final(self).inbox.used_space == old(self).inbox.used_space && final(self).inbox.space_available == old(self).inbox.space_available)
            },
    {
        self.inbox.put(size, entry, public_key)
    }

    pub fn remove_from_outbox(&mut self, size: u64, entry: &XorName) -> (r: bool)
        requires
            old(self).wf(),
        ensures
            final(self).wf(),
            final(self).clients@ == old(self).clients@,
            final(self).inbox == old(self).inbox,
            r == tbl_has(old(self).outbox.mail_box@, entry.0),
            r ==> !tbl_has(final(self).outbox.mail_box@, entry.0) && final(self).outbox.used_space
                == old(self).outbox.used_space - (if size <= old(self).outbox.used_space {
                size as int
            } else {
                old(self).outbox.used_space as int
            }),
            r ==> forall|k: u64|
                k != entry.0 ==> tbl_get(final(self).outbox.mail_box@, k) == tbl_get(
                    old(self).outbox.mail_box@,
                    k,
                ),
            !r ==> final(self).outbox.mail_box@ == old(self).outbox.mail_box@ && final(self).outbox.used_space == old(self).outbox.used_space,
    {
        self.outbox.remove(size, entry)
    }

    pub fn remove_from_inbox(&mut self, size: u64, entry: &XorName) -> (r: bool)
        requires
            old(self).wf(),
        ensures
            final(self).wf(),
            final(self).clients@ == old(self).clients@,
            final(self).outbox == old(self).outbox,
            r == tbl_has(old(self).inbox.mail_box@, entry.0),
            r ==> !tbl_has(final(self).inbox.mail_box@, entry.0) && final(self).inbox.used_space
                == old(self).inbox.used_space - (if size <= old(self).inbox.used_space {
                size as int
            } else {
                old(self).inbox.used_space as int
            }),
            r ==> forall|k: u64|
                k != entry.0 ==> tbl_get(final(self).inbox.mail_box@, k) == tbl_get(
                    old(self).inbox.mail_box@,
                    k,
                ),
            !r ==> final(self).inbox.mail_box@ == old(self).inbox.mail_box@ && final(self).inbox.used_space == old(self).inbox.used_space,
    {
        self.inbox.remove(size, entry)
    }

    pub fn has_in_outbox(&self, entry: &XorName) -> (r: bool)
        requires
            self.wf(),
        ensures
            r == tbl_has(self.outbox.mail_box@, entry.0),
    {
        self.outbox.contains_key(entry)
    }

    /// Register a client proxy as online; only client authorities register,
    /// and each at most once.
    pub fn register_online(&mut self, client: &Authority)
        ensures
            final(self).inbox == old(self).inbox,
            final(self).outbox == old(self).outbox,
            (client matches Authority::Client { .. } && !old(self).clients@.contains(*client))
                ==> final(self).clients@ == old(self).clients@.push(*client),
            !(client matches Authority::Client { .. } && !old(self).clients@.contains(*client))
                ==> final(self).clients@ == old(self).clients@,
    {
        match client {
            Authority::Client { .. } => {
                if !has_client(&self.clients, client) {
                    self.clients.push(*client);
                }
            },
            _ => {},
        }
    }

    /// The names announced into the inbox.
    pub fn received_headers(&self) -> (r: Vec<XorName>)
        ensures
            r@.len() == self.inbox.mail_box@.len(),
            forall|i: int|
                0 <= i < r@.len() ==> r@[i] == XorName(tbl_keys(self.inbox.mail_box@)[i]),
    {
        self.inbox.names()
    }

    /// The names of the messages stored in the outbox.
    pub fn stored_messages(&self) -> (r: Vec<XorName>)
        ensures
            r@.len() == self.outbox.mail_box@.len(),
            forall|i: int|
                0 <= i < r@.len() ==> r@[i] == XorName(tbl_keys(self.outbox.mail_box@)[i]),
    {
        self.outbox.names()
    }

    pub fn registered_clients(&self) -> (r: &Vec<Authority>)
        ensures
            r@ == self.clients@,
    {
        &self.clients
    }
}

/// The mailbox persona: accounts keyed by owner name, and the two chunk
/// stores holding announced headers and full messages.
pub struct MpidManager {
    pub accounts: Table<Account>,
    pub chunk_store_inbox: ChunkStore<MpidHeader>,
    pub chunk_store_outbox: ChunkStore<MpidMessage>,
}

impl MpidManager {
    /// Accounts and stored chunks are well-formed throughout.
    pub open spec fn wf(self) -> bool {
        &&& self.accounts.wf()
        &&& self.chunk_store_inbox.wf()
        &&& self.chunk_store_outbox.wf()
        &&& forall|k: u64|
            #[trigger] tbl_has(self.accounts@, k) ==> (tbl_get(self.accounts@, k) matches Some(a)
                && a.wf())
        &&& forall|k: u64|
            #[trigger] tbl_has(self.chunk_store_inbox@, k) ==> (tbl_get(
                self.chunk_store_inbox@,
                k,
            ) matches Some(h) && h.wf())
        &&& forall|k: u64|
            #[trigger] tbl_has(self.chunk_store_outbox@, k) ==> (tbl_get(
                self.chunk_store_outbox@,
                k,
            ) matches Some(m) && m.wf())
    }

    pub fn new() -> (r: MpidManager)
        ensures
            r.wf(),
            r.accounts@ =~= Seq::<(u64, Account)>::empty(),
            r.chunk_store_inbox@ =~= Seq::<(u64, MpidHeader)>::empty(),
            r.chunk_store_outbox@ =~= Seq::<(u64, MpidMessage)>::empty(),
    {
        MpidManager {
            accounts: Table::new(),
            chunk_store_inbox: ChunkStore::new(),
            chunk_store_outbox: ChunkStore::new(),
        }
    }

    /// The account stored under a name.
    pub open spec fn spec_account(self, name: u64) -> Option<Account> {
        tbl_get(self.accounts@, name)
    }

    /// Whether the inbox of `dst` (granted fresh if absent) accepts a new
    /// entry of the given size.
    pub open spec fn spec_inbox_accepts(self, dst: u64, size: int, entry: XorName) -> bool {
        match self.spec_account(dst) {
            Some(a) => size <= a.inbox.space_available && !tbl_has(a.inbox.mail_box@, entry.0),
            None => size <= MAX_INBOX_SIZE,
        }
    }

    /// Whether the outbox of `dst` (granted fresh if absent) accepts a new
    /// entry of the given size.
    pub open spec fn spec_outbox_accepts(self, dst: u64, size: int, entry: XorName) -> bool {
        match self.spec_account(dst) {
            Some(a) => size <= a.outbox.space_available && !tbl_has(a.outbox.mail_box@, entry.0),
            None => size <= MAX_OUTBOX_SIZE,
        }
    }

    /// What the destination account looks like after an announcement was put
    /// into its inbox (granted fresh if the account was absent): the charge
    /// and entry are exact, and everything else about the account — its
    /// clients, its outbox, the untouched inbox entries — is preserved.
    pub open spec fn spec_account_after_inbox_put(
        self,
        a2: Account,
        dst: u64,
        size: int,
        entry: XorName,
    ) -> bool {
        match self.spec_account(dst) {
            Some(a) => {
                &&& a2.clients@ == a.clients@
                &&& a2.outbox == a.outbox
                &&& a2.inbox.allowance == a.inbox.allowance
                &&& (size > a.inbox.space_available ==> a2.inbox == a.inbox)
                &&& (size <= a.inbox.space_available ==> {
                    &&& tbl_get(a2.inbox.mail_box@, entry.0) == Some(None::<PublicKey>)
                    &&& (forall|k: u64|
                        k != entry.0 ==> tbl_get(a2.inbox.mail_box@, k) == tbl_get(
                            a.inbox.mail_box@,
                            k,
                        ))
                    &&& (self.spec_inbox_accepts(dst, size, entry) ==> a2.inbox.used_space
                        == a.inbox.used_space + size && a2.inbox.space_available
                        == a.inbox.space_available - size)
                    &&& (!self.spec_inbox_accepts(dst, size, entry) ==> a2.inbox.used_space
                        == a.inbox.used_space && a2.inbox.space_available
                        == a.inbox.space_available)
                })
            },
            None => {
                &&& a2.clients@.len() == 0
                &&& a2.outbox.allowance == MAX_OUTBOX_SIZE
                &&& a2.outbox.used_space == 0
                &&& a2.outbox.space_available == MAX_OUTBOX_SIZE
                &&& a2.outbox.mail_box@.len() == 0
                &&& a2.inbox.allowance == MAX_INBOX_SIZE
                &&& (forall|k: u64| k != entry.0 ==> !tbl_has(a2.inbox.mail_box@, k))
                &&& (size <= MAX_INBOX_SIZE ==> tbl_get(a2.inbox.mail_box@, entry.0) == Some(
                    None::<PublicKey>,
                ) && a2.inbox.used_space == size && a2.inbox.space_available == MAX_INBOX_SIZE
                    - size)
                &&& (size > MAX_INBOX_SIZE ==> !tbl_has(a2.inbox.mail_box@, entry.0)
                    && a2.inbox.used_space == 0 && a2.inbox.space_available == MAX_INBOX_SIZE)
            },
        }
    }

    /// What the destination account looks like after a message was put into
    /// its outbox (granted fresh if the account was absent); the mirror of the
    /// inbox case.
    pub open spec fn spec_account_after_outbox_put(
        self,
        a2: Account,
        dst: u64,
        size: int,
        entry: XorName,
    ) -> bool {
        match self.spec_account(dst) {
            Some(a) => {
                &&& a2.clients@ == a.clients@
                &&& a2.inbox == a.inbox
                &&& a2.outbox.allowance == a.outbox.allowance
                &&& (size > a.outbox.space_available ==> a2.outbox == a.outbox)
                &&& (size <= a.outbox.space_available ==> {
                    &&& tbl_get(a2.outbox.mail_box@, entry.0) == Some(None::<PublicKey>)
                    &&& (forall|k: u64|
                        k != entry.0 ==> tbl_get(a2.outbox.mail_box@, k) == tbl_get(
                            a.outbox.mail_box@,
                            k,
                        ))
                    &&& (self.spec_outbox_accepts(dst, size, entry) ==> a2.outbox.used_space
                        == a.outbox.used_space + size && a2.outbox.space_available
                        == a.outbox.space_available - size)
                    &&& (!self.spec_outbox_accepts(dst, size, entry) ==> a2.outbox.used_space
                        == a.outbox.used_space && a2.outbox.space_available
                        == a.outbox.space_available)
                })
            },
            None => {
                &&& a2.clients@.len() == 0
                &&& a2.inbox.allowance == MAX_INBOX_SIZE
                &&& a2.inbox.used_space == 0
                &&& a2.inbox.space_available == MAX_INBOX_SIZE
                &&& a2.inbox.mail_box@.len() == 0
                &&& a2.outbox.allowance == MAX_OUTBOX_SIZE
                &&& (forall|k: u64| k != entry.0 ==> !tbl_has(a2.outbox.mail_box@, k))
                &&& (size <= MAX_OUTBOX_SIZE ==> tbl_get(a2.outbox.mail_box@, entry.0) == Some(
                    None::<PublicKey>,
                ) && a2.outbox.used_space == size && a2.outbox.space_available == MAX_OUTBOX_SIZE
                    - size)
                &&& (size > MAX_OUTBOX_SIZE ==> !tbl_has(a2.outbox.mail_box@, entry.0)
                    && a2.outbox.used_space == 0 && a2.outbox.space_available == MAX_OUTBOX_SIZE)
            },
        }
    }

    /// Fetch an account for update, granting a fresh one when absent.
    fn take_account(&mut self, name: u64) -> (r: Account)
        requires
            old(self).wf(),
        ensures
            final(self).chunk_store_inbox == old(self).chunk_store_inbox,
            final(self).chunk_store_outbox == old(self).chunk_store_outbox,
            final(self).accounts.wf(),
            !tbl_has(final(self).accounts@, name),
            forall|k: u64|
                k != name ==> tbl_get(final(self).accounts@, k) == tbl_get(old(self).accounts@, k),
            r.wf(),
            tbl_has(old(self).accounts@, name) ==> tbl_get(old(self).accounts@, name) == Some(r),
            !tbl_has(old(self).accounts@, name) ==> r.clients@ =~= Seq::<Authority>::empty()
                && r.inbox.allowance == MAX_INBOX_SIZE && r.inbox.used_space == 0
                && r.inbox.space_available == MAX_INBOX_SIZE && r.inbox.mail_box@ =~= Seq::<
                (u64, Option<PublicKey>),
            >::empty() && r.outbox.allowance == MAX_OUTBOX_SIZE && r.outbox.used_space == 0
                && r.outbox.space_available == MAX_OUTBOX_SIZE && r.outbox.mail_box@ =~= Seq::<
                (u64, Option<PublicKey>),
            >::empty(),
    {
        match self.accounts.remove(name) {
            Some(a) => a,
            None => Account::default(),
        }
    }

    /// Handle a put request: store a header announcement into the inbox, or a
    /// full message into the outbox with a notification to the recipient's
    /// manager group. Re-delivery to an occupied address is a conflict that
    /// changes nothing; a full mailbox earns the origin a put failure.
    #[verifier::rlimit(100)]
    pub fn handle_put(
        &mut self,
        routing_node: &mut MockRoutingNode,
        request: &RequestMessage,
    ) -> (r: Result<(), InternalError>)
        requires
            old(self).wf(),
        ensures
            final(self).wf(),
            !(request.content matches RequestContent::Put(Data::Plain(_), _)) ==> r
                == Result::<(), InternalError>::Err(InternalError::UnexpectedRequest) && *final(self) == *old(self) && *final(routing_node) == *old(routing_node),
            request.content matches RequestContent::Put(Data::Plain(pd), mid) ==> ({
                let dst = request.dst.spec_name().0;
                match pd.value {
                    MpidMessageWrapper::PutHeader(h) => {
                        if tbl_has(old(self).chunk_store_inbox@, pd.name.0) {
                            r == Result::<(), InternalError>::Err(
                                InternalError::Client(ClientError::DataExists),
                            ) && *final(self) == *old(self) && *final(routing_node) == *old(routing_node)
                        } else if !h.wf() {
                            r == Result::<(), InternalError>::Err(InternalError::UnexpectedRequest)
                                && *final(self) == *old(self) && *final(routing_node) == *old(routing_node)
                        } else {
                            let size = h@.metadata.len() + HEADER_BASE_SIZE;
                            let accepted = old(self).spec_inbox_accepts(dst, size, pd.name);
                            &&& r is Ok
                            &&& final(self).chunk_store_outbox == old(self).chunk_store_outbox
                            &&& forall|k: u64|
                                k != dst ==> tbl_get(final(self).accounts@, k) == tbl_get(
                                    old(self).accounts@,
                                    k,
                                )
                            &&& (tbl_get(final(self).accounts@, dst) matches Some(a2) && old(self).spec_account_after_inbox_put(a2, dst, size, pd.name))
                            &&& (accepted ==> {
                                &&& (final(self).chunk_store_inbox.spec_get(pd.name)
                                    matches Some(h2) && h2@ == h@)
                                &&& forall|k: u64|
                                    k != pd.name.0 ==> tbl_get(final(self).chunk_store_inbox@, k)
                                        == tbl_get(old(self).chunk_store_inbox@, k)
                                &&& *final(routing_node) == *old(routing_node)
                            })
                            &&& (!accepted ==> {
                                &&& final(self).chunk_store_inbox@ == old(self).chunk_store_inbox@
                                &&& only_put_failures_changed(
                                    old(routing_node)@,
                                    final(routing_node)@,
                                )
                                &&& final(routing_node)@.put_failures.len() == old(routing_node)@.put_failures.len() + 1
                                &&& final(routing_node)@.put_failures.drop_last() == old(routing_node)@.put_failures
                                &&& final(routing_node)@.put_failures.last()@ == (ResponseView {
                                    src: request.dst,
                                    dst: request.src,
                                    content: ResponseContentView::PutFailure {
                                        id: mid,
                                        request: request@,
                                        external_error_indicator: Seq::empty(),
                                    },
                                })
                            })
                        }
                    },
                    MpidMessageWrapper::PutMessage(m) => {
                        if tbl_has(old(self).chunk_store_outbox@, pd.name.0) {
                            r == Result::<(), InternalError>::Err(
                                InternalError::Client(ClientError::DataExists),
                            ) && *final(self) == *old(self) && *final(routing_node) == *old(routing_node)
                        } else if !m.wf() {
                            r == Result::<(), InternalError>::Err(InternalError::UnexpectedRequest)
                                && *final(self) == *old(self) && *final(routing_node) == *old(routing_node)
                        } else {
                            let size = m@.header.metadata.len() + m@.body.len()
                                + MESSAGE_BASE_SIZE;
                            let accepted = old(self).spec_outbox_accepts(dst, size, pd.name);
                            &&& r is Ok
                            &&& final(self).chunk_store_inbox == old(self).chunk_store_inbox
                            &&& forall|k: u64|
                                k != dst ==> tbl_get(final(self).accounts@, k) == tbl_get(
                                    old(self).accounts@,
                                    k,
                                )
                            &&& (tbl_get(final(self).accounts@, dst) matches Some(a2) && old(self).spec_account_after_outbox_put(a2, dst, size, pd.name))
                            &&& (accepted ==> {
                                &&& (final(self).chunk_store_outbox.spec_get(pd.name)
                                    matches Some(m2) && m2@ == m@)
                                &&& forall|k: u64|
                                    k != pd.name.0 ==> tbl_get(final(self).chunk_store_outbox@, k)
                                        == tbl_get(old(self).chunk_store_outbox@, k)
                                &&& only_put_requests_changed(
                                    old(routing_node)@,
                                    final(routing_node)@,
                                )
                                &&& final(routing_node)@.put_requests.len() == old(routing_node)@.put_requests.len() + 1
                                &&& final(routing_node)@.put_requests.drop_last() == old(routing_node)@.put_requests
                                &&& final(routing_node)@.put_requests.last()@.src == request.dst
                                &&& final(routing_node)@.put_requests.last()@.dst
                                    == Authority::ClientManager(m@.recipient)
                                &&& (final(routing_node)@.put_requests.last()@.content
                                    matches crate::mock_routing::RequestContentView::Put(d, id)
                                    && ({
                                    &&& id == mid
                                    &&& (d matches crate::mock_routing::DataView::Plain(pd2)
                                        && pd2.name == crate::mpid_messaging::spec_header_name(
                                        m@.header.sender,
                                        m@.header.metadata,
                                        m@.header.sig,
                                    ) && pd2.value == WrapperView::PutHeader(m@.header))
                                }))
                            })
                            &&& (!accepted ==> {
                                &&& final(self).chunk_store_outbox@ == old(self).chunk_store_outbox@
                                &&& only_put_failures_changed(
                                    old(routing_node)@,
                                    final(routing_node)@,
                                )
                                &&& final(routing_node)@.put_failures.len() == old(routing_node)@.put_failures.len() + 1
                                &&& final(routing_node)@.put_failures.drop_last() == old(routing_node)@.put_failures
                                &&& final(routing_node)@.put_failures.last()@ == (ResponseView {
                                    src: request.dst,
                                    dst: request.src,
                                    content: ResponseContentView::PutFailure {
                                        id: mid,
                                        request: request@,
                                        external_error_indicator: Seq::empty(),
                                    },
                                })
                            })
                        }
                    },
                    _ => r == Result::<(), InternalError>::Err(InternalError::UnexpectedRequest)
                        && *final(self) == *old(self) && *final(routing_node) == *old(routing_node),
                }
            }),
    {
        let (data, message_id) = match &request.content {
            RequestContent::Put(Data::Plain(data), id) => (data, *id),
            _ => {
                return Err(InternalError::UnexpectedRequest);
            },
        };
        match &data.value {
            MpidMessageWrapper::PutHeader(header) => {
                if self.chunk_store_inbox.has_chunk(&data.name) {
                    return Err(InternalError::Client(ClientError::DataExists));
                }
                if !header.check() {
                    return Err(InternalError::UnexpectedRequest);
                }
                let size = header.stored_size();
                let dst_name = *request.dst.name();
                let mut account = self.take_account(dst_name.0);
                let ok = account.put_into_inbox(size, &data.name, &None);
                proof {
                    if !tbl_has(old(self).accounts@, dst_name.0) {
                        assert forall|k: u64| k != data.name.0 implies !tbl_has(
                            account.inbox.mail_box@,
                            k,
                        ) by {
                            assert(tbl_get(account.inbox.mail_box@, k) is None);
                        }
                    }
                }
                self.accounts.set(dst_name.0, account);
                if ok {
                    self.chunk_store_inbox.put(&data.name, header.copy());
                } else {
                    let _ = routing_node.send_put_failure(
                        request.dst,
                        request.src,
                        request.copy(),
                        Vec::new(),
                        message_id,
                    );
                }
                proof {
                    self.lemma_wf_after_account_update(*old(self), dst_name.0);
                }
                Ok(())
            },
            MpidMessageWrapper::PutMessage(message) => {
                if self.chunk_store_outbox.has_chunk(&data.name) {
                    return Err(InternalError::Client(ClientError::DataExists));
                }
                if !message.check() {
                    return Err(InternalError::UnexpectedRequest);
                }
                let size = message.stored_size();
                let dst_name = *request.dst.name();
                let mut account = self.take_account(dst_name.0);
                let ok = account.put_into_outbox(size, &data.name, &None);
                proof {
                    if !tbl_has(old(self).accounts@, dst_name.0) {
                        assert forall|k: u64| k != data.name.0 implies !tbl_has(
                            account.outbox.mail_box@,
                            k,
                        ) by {
                            assert(tbl_get(account.outbox.mail_box@, k) is None);
                        }
                    }
                }
                self.accounts.set(dst_name.0, account);
                if ok {
                    self.chunk_store_outbox.put(&data.name, message.copy());
                    // Announce the stored message to the recipient's managers.
                    let src = request.dst;
                    let dst = Authority::ClientManager(*message.recipient());
                    let wrapper = MpidMessageWrapper::PutHeader(message.header().copy());
                    let name = message.header().name();
                    let notification = Data::Plain(PlainData { name, value: wrapper });
                    let _ = routing_node.send_put_request(src, dst, notification, message_id);
                } else {
                    let _ = routing_node.send_put_failure(
                        request.dst,
                        request.src,
                        request.copy(),
                        Vec::new(),
                        message_id,
                    );
                }
                proof {
                    self.lemma_wf_after_account_update(*old(self), dst_name.0);
                }
                Ok(())
            },
            _ => Err(InternalError::UnexpectedRequest),
        }
    }

    /// Handle the failure report for an announcement this manager sent on a
    /// client's behalf: an inbox-full report from the recipient's managers is
    /// forwarded to every registered client of the sending account, provided
    /// the announced message is still held in the sender's outbox.
    pub fn handle_put_failure(
        &mut self,
        routing_node: &mut MockRoutingNode,
        request: &RequestMessage,
    ) -> (r: Result<(), InternalError>)
        requires
            old(self).wf(),
        ensures
            final(self).wf(),
            *final(self) == *old(self),
            !(request.content matches RequestContent::Put(Data::Plain(_), _)) ==> r
                == Result::<(), InternalError>::Err(InternalError::UnexpectedRequest) && *final(routing_node) == *old(routing_node),
            request.content matches RequestContent::Put(Data::Plain(pd), mid) ==> ({
                match pd.value {
                    MpidMessageWrapper::PutHeader(h) => {
                        let relevant = h@.sender == request.src.spec_name() && (old(self).spec_account(request.src.spec_name().0) matches Some(acc) && tbl_has(
                            acc.outbox.mail_box@,
                            crate::mpid_messaging::spec_header_name(
                                h@.sender,
                                h@.metadata,
                                h@.sig,
                            ).0,
                        ));
                        let clients = (old(self).spec_account(
                            request.src.spec_name().0,
                        )->Some_0).clients@;
                        &&& r is Ok
                        &&& (!relevant ==> *final(routing_node) == *old(routing_node))
                        &&& (relevant ==> {
                            &&& only_put_failures_changed(old(routing_node)@, final(routing_node)@)
                            &&& final(routing_node)@.put_failures.len() == old(routing_node)@.put_failures.len() + clients.len()
                            &&& final(routing_node)@.put_failures.take(
                                old(routing_node)@.put_failures.len() as int,
                            ) == old(routing_node)@.put_failures
                            &&& forall|j: int|
                                old(routing_node)@.put_failures.len() <= j < final(routing_node)@.put_failures.len() ==> (#[trigger] final(routing_node)@.put_failures[j])@ == (ResponseView {
                                    src: request.src,
                                    dst: clients[j - old(routing_node)@.put_failures.len()],
                                    content: ResponseContentView::PutFailure {
                                        id: mid,
                                        request: request@,
                                        external_error_indicator: Seq::empty(),
                                    },
                                })
                        })
                    },
                    _ => r == Result::<(), InternalError>::Err(InternalError::UnexpectedRequest)
                        && *final(routing_node) == *old(routing_node),
                }
            }),
    {
        let (data, message_id) = match &request.content {
            RequestContent::Put(Data::Plain(data), id) => (data, *id),
            _ => {
                return Err(InternalError::UnexpectedRequest);
            },
        };
        match &data.value {
            MpidMessageWrapper::PutHeader(header) => {
                if !(*header.sender() == *request.src.name()) {
                    return Ok(());
                }
                let src_name = *request.src.name();
                match self.accounts.get(src_name.0) {
                    Some(account) => {
                        proof {
                            assert(tbl_has(self.accounts@, src_name.0));
                        }
                        let ori_msg_name = header.name();
                        if account.has_in_outbox(&ori_msg_name) {
                            let clients = account.registered_clients();
                            let n = clients.len();
                            let ghost base = routing_node@.put_failures;
                            let mut i: usize = 0;
                            while i < n
                                invariant
                                    n == clients@.len(),
                                    i <= n,
                                    only_put_failures_changed(old(routing_node)@, routing_node@),
                                    base == old(routing_node)@.put_failures,
                                    routing_node@.put_failures.len() == base.len() + i,
                                    routing_node@.put_failures.take(base.len() as int) == base,
                                    forall|j: int|
                                        base.len() <= j < routing_node@.put_failures.len() ==> (
                                        #[trigger] routing_node@.put_failures[j])@ == (ResponseView {
                                            src: request.src,
                                            dst: clients@[j - base.len()],
                                            content: ResponseContentView::PutFailure {
                                                id: message_id,
                                                request: request@,
                                                external_error_indicator: Seq::empty(),
                                            },
                                        }),
                                decreases n - i,
                            {
                                let _ = routing_node.send_put_failure(
                                    request.src,
                                    clients[i],
                                    request.copy(),
                                    Vec::new(),
                                    message_id,
                                );
                                proof {
                                    assert(routing_node@.put_failures.take(base.len() as int)
                                        =~= base);
                                }
                                i += 1;
                            }
                        }
                    },
                    None => {},
                }
                Ok(())
            },
            _ => Err(InternalError::UnexpectedRequest),
        }
    }

    /// Handle a post request: a client coming online, a fetch of a full
    /// message, forwarding a received message to registered clients, or the
    /// outbox queries.
    pub fn handle_post(
        &mut self,
        routing_node: &mut MockRoutingNode,
        request: &RequestMessage,
    ) -> (r: Result<(), InternalError>)
        requires
            old(self).wf(),
        ensures
            final(self).wf(),
            final(self).chunk_store_inbox == old(self).chunk_store_inbox,
            final(self).chunk_store_outbox == old(self).chunk_store_outbox,
            !(request.content matches RequestContent::Post(Data::Plain(_), _)) ==> r
                == Result::<(), InternalError>::Err(InternalError::UnexpectedRequest) && *final(self)
                == *old(self) && *final(routing_node) == *old(routing_node),
            request.content matches RequestContent::Post(Data::Plain(pd), mid) ==> ({
                let dst = request.dst.spec_name().0;
                match pd.value {
                    MpidMessageWrapper::Online => {
                        // The client is registered with the account, and for
                        // every announced header still held, a fetch of the
                        // full message is sent to the announcing sender's
                        // managers.
                        &&& r is Ok
                        &&& (tbl_get(final(self).accounts@, dst) matches Some(a2) && ({
                            let old_clients = match old(self).spec_account(dst) {
                                Some(a) => a.clients@,
                                None => Seq::empty(),
                            };
                            &&& a2.clients@ == spec_register(old_clients, request.src)
                            &&& (old(self).spec_account(dst) matches Some(a) ==> a2.inbox
                                == a.inbox && a2.outbox == a.outbox)
                        }))
                        &&& forall|k: u64|
                            k != dst ==> tbl_get(final(self).accounts@, k) == tbl_get(
                                old(self).accounts@,
                                k,
                            )
                        &&& only_post_requests_changed(old(routing_node)@, final(routing_node)@)
                        &&& ({
                            let names = match old(self).spec_account(dst) {
                                Some(a) => spec_mbox_names(a.inbox.mail_box@),
                                None => Seq::empty(),
                            };
                            let fetches = spec_online_fetches(
                                old(self).chunk_store_inbox@,
                                names,
                                request.dst,
                                mid,
                            );
                            &&& final(routing_node)@.post_requests.len() == old(routing_node)@.post_requests.len() + fetches.len()
                            &&& final(routing_node)@.post_requests.take(
                                old(routing_node)@.post_requests.len() as int,
                            ) == old(routing_node)@.post_requests
                            &&& forall|j: int|
                                0 <= j < fetches.len() ==> (#[trigger] final(routing_node)@.post_requests[old(routing_node)@.post_requests.len() + j])@
                                    == fetches[j]
                        })
                    },
                    MpidMessageWrapper::GetMessage(h) => {
                        let header_name = crate::mpid_messaging::spec_header_name(
                            h@.sender,
                            h@.metadata,
                            h@.sig,
                        );
                        let stored = tbl_get(old(self).chunk_store_outbox@, header_name.0);
                        &&& r is Ok
                        &&& *final(self) == *old(self)
                        &&& (stored matches Some(m) ==> ({
                            let message_name = crate::mpid_messaging::spec_header_name(
                                m@.header.sender,
                                m@.header.metadata,
                                m@.header.sig,
                            );
                            if message_name == header_name && m@.recipient
                                == request.src.spec_name() {
                                &&& only_post_requests_changed(
                                    old(routing_node)@,
                                    final(routing_node)@,
                                )
                                &&& final(routing_node)@.post_requests.len() == old(routing_node)@.post_requests.len() + 1
                                &&& final(routing_node)@.post_requests.drop_last() == old(routing_node)@.post_requests
                                &&& (final(routing_node)@.post_requests.last()@ == (
                                crate::mock_routing::RequestView {
                                    src: request.dst,
                                    dst: request.src,
                                    content: crate::mock_routing::RequestContentView::Post(
                                        crate::mock_routing::DataView::Plain(
                                            crate::mock_routing::PlainDataView {
                                                name: message_name,
                                                value: WrapperView::PutMessage(m@),
                                            },
                                        ),
                                        mid,
                                    ),
                                }))
                            } else {
                                *final(routing_node) == *old(routing_node)
                            }
                        }))
                        &&& (stored is None ==> {
                            &&& only_post_failures_changed(old(routing_node)@, final(routing_node)@)
                            &&& final(routing_node)@.post_failures.len() == old(routing_node)@.post_failures.len() + 1
                            &&& final(routing_node)@.post_failures.drop_last() == old(routing_node)@.post_failures
                            &&& final(routing_node)@.post_failures.last()@ == (ResponseView {
                                src: request.dst,
                                dst: request.src,
                                content: ResponseContentView::PostFailure {
                                    id: mid,
                                    request: request@,
                                    external_error_indicator: Seq::empty(),
                                },
                            })
                        })
                    },
                    MpidMessageWrapper::PutMessage(m) => {
                        let relevant = old(self).spec_account(dst) is Some && m@.recipient
                            == request.dst.spec_name();
                        let clients = (old(self).spec_account(dst)->Some_0).clients@;
                        &&& r is Ok
                        &&& *final(self) == *old(self)
                        &&& (!relevant ==> *final(routing_node) == *old(routing_node))
                        &&& (relevant ==> {
                            &&& only_post_requests_changed(old(routing_node)@, final(routing_node)@)
                            &&& final(routing_node)@.post_requests.len() == old(routing_node)@.post_requests.len() + clients.len()
                            &&& final(routing_node)@.post_requests.take(
                                old(routing_node)@.post_requests.len() as int,
                            ) == old(routing_node)@.post_requests
                            &&& forall|j: int|
                                old(routing_node)@.post_requests.len() <= j < final(routing_node)@.post_requests.len() ==> (#[trigger] final(routing_node)@.post_requests[j])@ == (crate::mock_routing::RequestView {
                                    src: request.dst,
                                    dst: clients[j - old(routing_node)@.post_requests.len()],
                                    content: crate::mock_routing::RequestContentView::Post(
                                        crate::mock_routing::DataView::Plain(pd@),
                                        mid,
                                    ),
                                })
                        })
                    },
                    MpidMessageWrapper::OutboxHas(names) => {
                        let authorized = old(self).spec_account(dst) matches Some(acc)
                            && acc.clients@.contains(request.src);
                        let acc = old(self).spec_account(dst)->Some_0;
                        &&& r is Ok
                        &&& *final(self) == *old(self)
                        &&& (!authorized ==> *final(routing_node) == *old(routing_node))
                        &&& (authorized ==> {
                            &&& only_post_requests_changed(old(routing_node)@, final(routing_node)@)
                            &&& final(routing_node)@.post_requests.len() == old(routing_node)@.post_requests.len() + 1
                            &&& final(routing_node)@.post_requests.drop_last() == old(routing_node)@.post_requests
                            &&& final(routing_node)@.post_requests.last()@ == (
                            crate::mock_routing::RequestView {
                                src: request.dst,
                                dst: request.src,
                                content: crate::mock_routing::RequestContentView::Post(
                                    crate::mock_routing::DataView::Plain(
                                        crate::mock_routing::PlainDataView {
                                            name: request.dst.spec_name(),
                                            value: WrapperView::OutboxHasResponse(
                                                spec_selected_headers(
                                                    old(self).chunk_store_outbox@,
                                                    acc.outbox.mail_box@,
                                                    names@,
                                                ),
                                            ),
                                        },
                                    ),
                                    mid,
                                ),
                            })
                        })
                    },
                    MpidMessageWrapper::GetOutboxHeaders => {
                        let authorized = old(self).spec_account(dst) matches Some(acc)
                            && acc.clients@.contains(request.src);
                        let acc = old(self).spec_account(dst)->Some_0;
                        &&& r is Ok
                        &&& *final(self) == *old(self)
                        &&& (!authorized ==> *final(routing_node) == *old(routing_node))
                        &&& (authorized ==> {
                            &&& only_post_requests_changed(old(routing_node)@, final(routing_node)@)
                            &&& final(routing_node)@.post_requests.len() == old(routing_node)@.post_requests.len() + 1
                            &&& final(routing_node)@.post_requests.drop_last() == old(routing_node)@.post_requests
                            &&& final(routing_node)@.post_requests.last()@ == (
                            crate::mock_routing::RequestView {
                                src: request.dst,
                                dst: request.src,
                                content: crate::mock_routing::RequestContentView::Post(
                                    crate::mock_routing::DataView::Plain(
                                        crate::mock_routing::PlainDataView {
                                            name: request.dst.spec_name(),
                                            value: WrapperView::GetOutboxHeadersResponse(
                                                spec_selected_headers(
                                                    old(self).chunk_store_outbox@,
                                                    acc.outbox.mail_box@,
                                                    spec_mbox_names(acc.outbox.mail_box@),
                                                ),
                                            ),
                                        },
                                    ),
                                    mid,
                                ),
                            })
                        })
                    },
                    _ => r == Result::<(), InternalError>::Err(InternalError::UnexpectedRequest)
                        && *final(self) == *old(self) && *final(routing_node) == *old(routing_node),
                }
            }),
    {
        let (data, message_id) = match &request.content {
            RequestContent::Post(Data::Plain(data), id) => (data, *id),
            _ => {
                return Err(InternalError::UnexpectedRequest);
            },
        };
        match &data.value {
            MpidMessageWrapper::Online => {
                let dst_name = *request.dst.name();
                let mut account = self.take_account(dst_name.0);
                account.register_online(&request.src);
                let received_headers = account.received_headers();
                self.accounts.set(dst_name.0, account);
                proof {
                    self.lemma_wf_after_account_update(*old(self), dst_name.0);
                }
                // For each received header, fetch the full message from the
                // announcing sender's managers.
                let n = received_headers.len();
                let ghost base = routing_node@.post_requests;
                let ghost names = match old(self).spec_account(request.dst.spec_name().0) {
                    Some(a) => spec_mbox_names(a.inbox.mail_box@),
                    None => Seq::empty(),
                };
                proof {
                    assert(received_headers@ =~= names);
                }
                let mut i: usize = 0;
                while i < n
                    invariant
                        n == received_headers@.len(),
                        i <= n,
                        received_headers@ == names,
                        self.wf(),
                        self.chunk_store_inbox == old(self).chunk_store_inbox,
                        self.chunk_store_outbox == old(self).chunk_store_outbox,
                        tbl_get(self.accounts@, request.dst.spec_name().0) matches Some(a2) && ({
                            let old_clients = match old(self).spec_account(
                                request.dst.spec_name().0,
                            ) {
                                Some(a) => a.clients@,
                                None => Seq::empty(),
                            };
                            &&& a2.clients@ == spec_register(old_clients, request.src)
                            &&& (old(self).spec_account(request.dst.spec_name().0) matches Some(a)
                                ==> a2.inbox == a.inbox && a2.outbox == a.outbox)
                        }),
                        forall|k: u64|
                            k != request.dst.spec_name().0 ==> tbl_get(self.accounts@, k)
                                == tbl_get(old(self).accounts@, k),
                        only_post_requests_changed(old(routing_node)@, routing_node@),
                        base == old(routing_node)@.post_requests,
                        routing_node@.post_requests.len() == base.len() + spec_online_fetches(
                            old(self).chunk_store_inbox@,
                            names.take(i as int),
                            request.dst,
                            message_id,
                        ).len(),
                        routing_node@.post_requests.take(base.len() as int) == base,
                        forall|j: int|
                            0 <= j < spec_online_fetches(
                                old(self).chunk_store_inbox@,
                                names.take(i as int),
                                request.dst,
                                message_id,
                            ).len() ==> (#[trigger] routing_node@.post_requests[base.len() + j])@
                                == spec_online_fetches(
                                old(self).chunk_store_inbox@,
                                names.take(i as int),
                                request.dst,
                                message_id,
                            )[j],
                    decreases n - i,
                {
                    let ghost fetches_pre = spec_online_fetches(
                        old(self).chunk_store_inbox@,
                        names.take(i as int),
                        request.dst,
                        message_id,
                    );
                    proof {
                        assert(names.take(i as int + 1).drop_last() =~= names.take(i as int));
                        assert(names.take(i as int + 1).last() == names[i as int]);
                    }
                    let header_name = received_headers[i];
                    match self.chunk_store_inbox.get(&header_name) {
                        Ok(mpid_header) => {
                            let target = Authority::ClientManager(*mpid_header.sender());
                            let request_wrapper = MpidMessageWrapper::GetMessage(
                                mpid_header.copy(),
                            );
                            let name = mpid_header.name();
                            let fetch = Data::Plain(PlainData { name, value: request_wrapper });
                            proof {
                                assert(tbl_has(self.chunk_store_inbox@, header_name.0));
                                assert(tbl_get(old(self).chunk_store_inbox@, names[i as int].0)
                                    == Some(*mpid_header));
                            }
                            let _ = routing_node.send_post_request(
                                request.dst,
                                target,
                                fetch,
                                message_id,
                            );
                            proof {
                                assert(routing_node@.post_requests.take(base.len() as int)
                                    =~= base);
                                assert(routing_node@.post_requests.last()@ == spec_online_fetches(
                                    old(self).chunk_store_inbox@,
                                    names.take(i as int + 1),
                                    request.dst,
                                    message_id,
                                ).last());
                            }
                        },
                        Err(_) => {
                            proof {
                                assert(tbl_get(old(self).chunk_store_inbox@, names[i as int].0)
                                    is None);
                            }
                        },
                    }
                    i += 1;
                }
                proof {
                    assert(names.take(n as int) =~= names);
                }
                Ok(())
            },
            MpidMessageWrapper::GetMessage(mpid_header) => {
                let header_name = mpid_header.name();
                let step = match self.chunk_store_outbox.get(&header_name) {
                    Ok(mpid_message) => Some(
                        (mpid_message.header().name(), *mpid_message.recipient(), mpid_message.copy()),
                    ),
                    Err(_) => None,
                };
                match step {
                    Some((message_name, recipient, mpid_message)) => {
                        if message_name == header_name && recipient == *request.src.name() {
                            let wrapper = MpidMessageWrapper::PutMessage(mpid_message);
                            let reply = Data::Plain(
                                PlainData { name: message_name, value: wrapper },
                            );
                            let _ = routing_node.send_post_request(
                                request.dst,
                                request.src,
                                reply,
                                message_id,
                            );
                        }
                    },
                    None => {
                        let _ = routing_node.send_post_failure(
                            request.dst,
                            request.src,
                            request.copy(),
                            Vec::new(),
                            message_id,
                        );
                    },
                }
                Ok(())
            },
            MpidMessageWrapper::PutMessage(mpid_message) => {
                let dst_name = *request.dst.name();
                match self.accounts.get(dst_name.0) {
                    Some(receiver) => {
                        proof {
                            assert(tbl_has(self.accounts@, dst_name.0));
                        }
                        if *mpid_message.recipient() == dst_name {
                            let clients = receiver.registered_clients();
                            let n = clients.len();
                            let ghost base = routing_node@.post_requests;
                            let mut i: usize = 0;
                            while i < n
                                invariant
                                    n == clients@.len(),
                                    i <= n,
                                    only_post_requests_changed(old(routing_node)@, routing_node@),
                                    base == old(routing_node)@.post_requests,
                                    routing_node@.post_requests.len() == base.len() + i,
                                    routing_node@.post_requests.take(base.len() as int) == base,
                                    forall|j: int|
                                        base.len() <= j < routing_node@.post_requests.len() ==> (
                                        #[trigger] routing_node@.post_requests[j])@ == (
                                        crate::mock_routing::RequestView {
                                            src: request.dst,
                                            dst: clients@[j - base.len()],
                                            content: crate::mock_routing::RequestContentView::Post(
                                                crate::mock_routing::DataView::Plain(data@),
                                                message_id,
                                            ),
                                        }),
                                decreases n - i,
                            {
                                let forwarded = Data::Plain(
                                    PlainData { name: data.name, value: data.value.copy() },
                                );
                                let _ = routing_node.send_post_request(
                                    request.dst,
                                    clients[i],
                                    forwarded,
                                    message_id,
                                );
                                proof {
                                    assert(routing_node@.post_requests.take(base.len() as int)
                                        =~= base);
                                }
                                i += 1;
                            }
                        }
                    },
                    None => {},
                }
                Ok(())
            },
            MpidMessageWrapper::OutboxHas(header_names) => {
                let dst_name = *request.dst.name();
                match self.accounts.get(dst_name.0) {
                    Some(account) => {
                        proof {
                            assert(tbl_has(self.accounts@, dst_name.0));
                        }
                        if has_client(account.registered_clients(), &request.src) {
                            let headers = selected_headers(
                                &self.chunk_store_outbox,
                                &account.outbox,
                                header_names,
                            );
                            let wrapper = MpidMessageWrapper::OutboxHasResponse(headers);
                            let reply = Data::Plain(PlainData { name: dst_name, value: wrapper });
                            let _ = routing_node.send_post_request(
                                request.dst,
                                request.src,
                                reply,
                                message_id,
                            );
                        }
                    },
                    None => {},
                }
                Ok(())
            },
            MpidMessageWrapper::GetOutboxHeaders => {
                let dst_name = *request.dst.name();
                match self.accounts.get(dst_name.0) {
                    Some(account) => {
                        proof {
                            assert(tbl_has(self.accounts@, dst_name.0));
                        }
                        if has_client(account.registered_clients(), &request.src) {
                            let stored = account.stored_messages();
                            proof {
                                assert(stored@ =~= spec_mbox_names(account.outbox.mail_box@));
                            }
                            let headers = selected_headers(
                                &self.chunk_store_outbox,
                                &account.outbox,
                                &stored,
                            );
                            let wrapper = MpidMessageWrapper::GetOutboxHeadersResponse(headers);
                            let reply = Data::Plain(PlainData { name: dst_name, value: wrapper });
                            let _ = routing_node.send_post_request(
                                request.dst,
                                request.src,
                                reply,
                                message_id,
                            );
                        }
                    },
                    None => {},
                }
                Ok(())
            },
            _ => Err(InternalError::UnexpectedRequest),
        }
    }

    /// Handle a delete request: a sender (or the recipient) withdraws a
    /// stored message from the outbox, or a registered client clears a
    /// received announcement from the inbox. Deleting an absent chunk earns
    /// the origin a delete failure.
    pub fn handle_delete(
        &mut self,
        routing_node: &mut MockRoutingNode,
        request: &RequestMessage,
    ) -> (r: Result<(), InternalError>)
        requires
            old(self).wf(),
        ensures
            final(self).wf(),
            !(request.content matches RequestContent::Delete(Data::Plain(_), _)) ==> r
                == Result::<(), InternalError>::Err(InternalError::UnexpectedRequest) && *final(self)
                == *old(self) && *final(routing_node) == *old(routing_node),
            request.content matches RequestContent::Delete(Data::Plain(pd), mid) ==> ({
                let dst = request.dst.spec_name().0;
                match pd.value {
                    MpidMessageWrapper::DeleteMessage(message_name) => {
                        &&& r is Ok
                        &&& final(self).chunk_store_inbox == old(self).chunk_store_inbox
                        &&& (old(self).spec_account(dst) is None ==> *final(self) == *old(self)
                            && *final(routing_node) == *old(routing_node))
                        &&& (old(self).spec_account(dst) matches Some(acc) ==> ({
                            let registered = acc.clients@.contains(request.src);
                            match tbl_get(old(self).chunk_store_outbox@, message_name.0) {
                                Some(m) => {
                                    if !registered && m@.recipient != request.src.spec_name() {
                                        *final(self) == *old(self) && *final(routing_node) == *old(routing_node)
                                    } else {
                                        let sz = m@.header.metadata.len() + m@.body.len()
                                            + MESSAGE_BASE_SIZE;
                                        &&& *final(routing_node) == *old(routing_node)
                                        &&& final(self).chunk_store_outbox.spec_get(
                                            message_name,
                                        ) is None
                                        &&& forall|k: u64|
                                            k != message_name.0 ==> tbl_get(
                                                final(self).chunk_store_outbox@,
                                                k,
                                            ) == tbl_get(old(self).chunk_store_outbox@, k)
                                        &&& (tbl_get(final(self).accounts@, dst) matches Some(a2)
                                            && !tbl_has(a2.outbox.mail_box@, message_name.0)
                                            && a2.inbox == acc.inbox && a2.clients@ == acc.clients@
                                            && a2.outbox.used_space == (if tbl_has(
                                            acc.outbox.mail_box@,
                                            message_name.0,
                                        ) {
                                            acc.outbox.used_space - (if sz
                                                <= acc.outbox.used_space {
                                                sz
                                            } else {
                                                acc.outbox.used_space as int
                                            })
                                        } else {
                                            acc.outbox.used_space as int
                                        }))
                                        &&& forall|k: u64|
                                            k != dst ==> tbl_get(final(self).accounts@, k)
                                                == tbl_get(old(self).accounts@, k)
                                    }
                                },
                                None => {
                                    &&& *final(self) == *old(self)
                                    &&& only_delete_failures_changed(
                                        old(routing_node)@,
                                        final(routing_node)@,
                                    )
                                    &&& final(routing_node)@.delete_failures.len() == old(routing_node)@.delete_failures.len() + 1
                                    &&& final(routing_node)@.delete_failures.drop_last() == old(routing_node)@.delete_failures
                                    &&& final(routing_node)@.delete_failures.last()@ == (ResponseView {
                                        src: request.dst,
                                        dst: request.src,
                                        content: ResponseContentView::DeleteFailure {
                                            id: mid,
                                            request: request@,
                                            external_error_indicator: Seq::empty(),
                                        },
                                    })
                                },
                            }
                        }))
                    },
                    MpidMessageWrapper::DeleteHeader(header_name) => {
                        &&& r is Ok
                        &&& final(self).chunk_store_outbox == old(self).chunk_store_outbox
                        &&& (old(self).spec_account(dst) is None ==> *final(self) == *old(self)
                            && *final(routing_node) == *old(routing_node))
                        &&& (old(self).spec_account(dst) matches Some(acc) ==> ({
                            let registered = acc.clients@.contains(request.src);
                            if !registered {
                                *final(self) == *old(self) && *final(routing_node) == *old(routing_node)
                            } else {
                                match tbl_get(old(self).chunk_store_inbox@, header_name.0) {
                                    Some(h) => {
                                        let sz = h@.metadata.len() + HEADER_BASE_SIZE;
                                        &&& *final(routing_node) == *old(routing_node)
                                        &&& final(self).chunk_store_inbox.spec_get(
                                            header_name,
                                        ) is None
                                        &&& forall|k: u64|
                                            k != header_name.0 ==> tbl_get(
                                                final(self).chunk_store_inbox@,
                                                k,
                                            ) == tbl_get(old(self).chunk_store_inbox@, k)
                                        &&& (tbl_get(final(self).accounts@, dst) matches Some(a2)
                                            && !tbl_has(a2.inbox.mail_box@, header_name.0)
                                            && a2.outbox == acc.outbox && a2.clients@
                                            == acc.clients@ && a2.inbox.used_space == (if tbl_has(
                                            acc.inbox.mail_box@,
                                            header_name.0,
                                        ) {
                                            acc.inbox.used_space - (if sz
                                                <= acc.inbox.used_space {
                                                sz
                                            } else {
                                                acc.inbox.used_space as int
                                            })
                                        } else {
                                            acc.inbox.used_space as int
                                        }))
                                        &&& forall|k: u64|
                                            k != dst ==> tbl_get(final(self).accounts@, k)
                                                == tbl_get(old(self).accounts@, k)
                                    },
                                    None => {
                                        &&& *final(self) == *old(self)
                                        &&& only_delete_failures_changed(
                                            old(routing_node)@,
                                            final(routing_node)@,
                                        )
                                        &&& final(routing_node)@.delete_failures.len() == old(routing_node)@.delete_failures.len() + 1
                                        &&& final(routing_node)@.delete_failures.drop_last() == old(routing_node)@.delete_failures
                                        &&& final(routing_node)@.delete_failures.last()@ == (ResponseView {
                                            src: request.dst,
                                            dst: request.src,
                                            content: ResponseContentView::DeleteFailure {
                                                id: mid,
                                                request: request@,
                                                external_error_indicator: Seq::empty(),
                                            },
                                        })
                                    },
                                }
                            }
                        }))
                    },
                    _ => r == Result::<(), InternalError>::Err(InternalError::UnexpectedRequest)
                        && *final(self) == *old(self) && *final(routing_node) == *old(routing_node),
                }
            }),
    {
        let (data, message_id) = match &request.content {
            RequestContent::Delete(Data::Plain(data), id) => (data, *id),
            _ => {
                return Err(InternalError::UnexpectedRequest);
            },
        };
        match &data.value {
            MpidMessageWrapper::DeleteMessage(message_name) => {
                let message_name = *message_name;
                let dst_name = *request.dst.name();
                let registered = match self.accounts.get(dst_name.0) {
                    Some(account) => {
                        proof {
                            assert(tbl_has(self.accounts@, dst_name.0));
                        }
                        Some(has_client(account.registered_clients(), &request.src))
                    },
                    None => None,
                };
                let registered = match registered {
                    Some(x) => x,
                    None => {
                        return Ok(());
                    },
                };
                let stored = match self.chunk_store_outbox.get(&message_name) {
                    Ok(m) => {
                        proof {
                            assert(tbl_has(self.chunk_store_outbox@, message_name.0));
                        }
                        Some((m.stored_size(), *m.recipient()))
                    },
                    Err(_) => None,
                };
                match stored {
                    Some((data_size, recipient)) => {
                        if !registered && !(recipient == *request.src.name()) {
                            return Ok(());
                        }
                        let _ = self.chunk_store_outbox.delete(&message_name);
                        let mut account = self.take_account(dst_name.0);
                        let _ = account.remove_from_outbox(data_size, &message_name);
                        self.accounts.set(dst_name.0, account);
                        proof {
                            self.lemma_wf_after_account_update(*old(self), dst_name.0);
                        }
                    },
                    None => {
                        let _ = routing_node.send_delete_failure(
                            request.dst,
                            request.src,
                            request.copy(),
                            Vec::new(),
                            message_id,
                        );
                    },
                }
                Ok(())
            },
            MpidMessageWrapper::DeleteHeader(header_name) => {
                let header_name = *header_name;
                let dst_name = *request.dst.name();
                let registered = match self.accounts.get(dst_name.0) {
                    Some(account) => {
                        proof {
                            assert(tbl_has(self.accounts@, dst_name.0));
                        }
                        Some(has_client(account.registered_clients(), &request.src))
                    },
                    None => None,
                };
                match registered {
                    Some(true) => {},
                    Some(false) => {
                        return Ok(());
                    },
                    None => {
                        return Ok(());
                    },
                }
                let stored = match self.chunk_store_inbox.get(&header_name) {
                    Ok(h) => {
                        proof {
                            assert(tbl_has(self.chunk_store_inbox@, header_name.0));
                        }
                        Some(h.stored_size())
                    },
                    Err(_) => None,
                };
                match stored {
                    Some(data_size) => {
                        let _ = self.chunk_store_inbox.delete(&header_name);
                        let mut account = self.take_account(dst_name.0);
                        let _ = account.remove_from_inbox(data_size, &header_name);
                        self.accounts.set(dst_name.0, account);
                        proof {
                            self.lemma_wf_after_account_update(*old(self), dst_name.0);
                        }
                    },
                    None => {
                        let _ = routing_node.send_delete_failure(
                            request.dst,
                            request.src,
                            request.copy(),
                            Vec::new(),
                            message_id,
                        );
                    },
                }
                Ok(())
            },
            _ => Err(InternalError::UnexpectedRequest),
        }
    }

    /// Accounts differing from a well-formed state in one well-formed entry
    /// and chunks extended by well-formed values keep the manager well-formed.
    proof fn lemma_wf_after_account_update(self, pre: MpidManager, name: u64)
        requires
            pre.wf(),
            self.accounts.wf(),
            self.chunk_store_inbox.wf(),
            self.chunk_store_outbox.wf(),
            tbl_get(self.accounts@, name) matches Some(a) && a.wf(),
            forall|k: u64| k != name ==> tbl_get(self.accounts@, k) == tbl_get(pre.accounts@, k),
            forall|k: u64|
                #[trigger] tbl_has(self.chunk_store_inbox@, k) ==> (tbl_get(
                    self.chunk_store_inbox@,
                    k,
                ) matches Some(h) && h.wf()) || tbl_get(self.chunk_store_inbox@, k) == tbl_get(
                    pre.chunk_store_inbox@,
                    k,
                ),
            forall|k: u64|
                #[trigger] tbl_has(self.chunk_store_outbox@, k) ==> (tbl_get(
                    self.chunk_store_outbox@,
                    k,
                ) matches Some(m) && m.wf()) || tbl_get(self.chunk_store_outbox@, k) == tbl_get(
                    pre.chunk_store_outbox@,
                    k,
                ),
        ensures
            self.wf(),
    {
        assert forall|k: u64| #[trigger] tbl_has(self.accounts@, k) implies (tbl_get(
            self.accounts@,
            k,
        ) matches Some(a) && a.wf()) by {
            if k != name {
                assert(tbl_has(pre.accounts@, k));
            }
        }
        assert forall|k: u64| #[trigger] tbl_has(self.chunk_store_inbox@, k) implies (tbl_get(
            self.chunk_store_inbox@,
            k,
        ) matches Some(h) && h.wf()) by {
            if !(tbl_get(self.chunk_store_inbox@, k) matches Some(h) && h.wf()) {
                assert(tbl_get(self.chunk_store_inbox@, k) == tbl_get(pre.chunk_store_inbox@, k));
                assert(tbl_has(pre.chunk_store_inbox@, k));
            }
        }
        assert forall|k: u64| #[trigger] tbl_has(self.chunk_store_outbox@, k) implies (tbl_get(
            self.chunk_store_outbox@,
            k,
        ) matches Some(m) && m.wf()) by {
            if !(tbl_get(self.chunk_store_outbox@, k) matches Some(m) && m.wf()) {
                assert(tbl_get(self.chunk_store_outbox@, k) == tbl_get(pre.chunk_store_outbox@, k));
                assert(tbl_has(pre.chunk_store_outbox@, k));
            }
        }
    }
}

} // verus!
