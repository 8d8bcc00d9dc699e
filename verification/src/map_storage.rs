//! Operations over the key-value map data type: typed read and write
//! requests translated into chunk-store operations, with per-action
//! permission checks against the map's stored permission sets and owner.
//!
//! Creation of an occupied address is a conflict that leaves the stored chunk
//! unchanged; reads and writes of a missing address report that no such data
//! exists; unauthorized actions are denied. Every failure is reported back to
//! the origin as a typed error; none is fatal.

use crate::chunk_store::ChunkStore;
use crate::node_msgs::{
    CmdError, ElderMsgWrapping, Message, MessagingDuty, MsgSender, QueryResponse,
};
use crate::table::{tbl_get, tbl_has, Table};
use crate::types::{MessageId, PublicKey, XorName};
use vstd::prelude::*;

verus! {

use vstd::pervasive::VecAdditionalExecFns;

/// A typed data error reported back to the origin.
#[derive(Clone, Copy, PartialEq, Eq, Structural, Debug)]
pub enum NdError {
    /// No data is stored at the requested address.
    NoSuchData,
    /// The address is already occupied.
    DataExists,
    /// The map holds no entry under the requested key.
    NoSuchEntry,
    /// An inserted key is already present.
    EntryExists,
    /// The requester may not perform the action.
    AccessDenied,
    /// The mutation names a version other than one past the current one; the
    /// current version is carried along.
    InvalidSuccessor(u64),
    /// No permission set is stored for the named user.
    NoSuchKey,
}

/// What a request is about to do with a map.
#[derive(Clone, Copy, PartialEq, Eq, Structural, Debug)]
pub enum MapAction {
    Read,
    Insert,
    Update,
    Delete,
    ManagePermissions,
}

/// One user's rights on a map.
#[derive(Clone, Copy, PartialEq, Eq, Structural, Debug)]
pub struct MapPermissionSet {
    pub read: bool,
    pub insert: bool,
    pub update: bool,
    pub delete: bool,
    pub manage_permissions: bool,
}

impl MapPermissionSet {
    pub open spec fn spec_is_allowed(self, action: MapAction) -> bool {
        match action {
            MapAction::Read => self.read,
            MapAction::Insert => self.insert,
            MapAction::Update => self.update,
            MapAction::Delete => self.delete,
            MapAction::ManagePermissions => self.manage_permissions,
        }
    }

    pub fn is_allowed(&self, action: MapAction) -> (r: bool)
        ensures
            r == self.spec_is_allowed(action),
    {
        match action {
            MapAction::Read => self.read,
            MapAction::Insert => self.insert,
            MapAction::Update => self.update,
            MapAction::Delete => self.delete,
            MapAction::ManagePermissions => self.manage_permissions,
        }
    }
}

/// Where a map lives in the address space.
#[derive(Clone, Copy, PartialEq, Eq, Structural, Debug)]
pub struct MapAddress {
    pub name: XorName,
    pub tag: u64,
}

/// What an entry is, to the specification.
pub struct EntryView {
    pub key: Seq<u8>,
    pub value: Seq<u8>,
}

/// One key-value entry of a map.
#[derive(Clone, PartialEq, Eq, Debug)]
pub struct MapEntry {
    pub key: Vec<u8>,
    pub value: Vec<u8>,
}

impl View for MapEntry {
    type V = EntryView;

    open spec fn view(&self) -> EntryView {
        EntryView { key: self.key@, value: self.value@ }
    }
}

/// The entries as the specification sees them.
pub open spec fn view_entries(s: Seq<MapEntry>) -> Seq<EntryView> {
    s.map_values(|e: MapEntry| e@)
}

/// There is an entry with key `k`.
pub open spec fn vent_has(s: Seq<EntryView>, k: Seq<u8>) -> bool {
    exists|i: int| 0 <= i < s.len() && s[i].key == k
}

/// The position of the entry with key `k`.
pub open spec fn vent_index(s: Seq<EntryView>, k: Seq<u8>) -> int {
    choose|i: int| 0 <= i < s.len() && s[i].key == k
}

/// The value stored under `k`, if any.
pub open spec fn vent_get(s: Seq<EntryView>, k: Seq<u8>) -> Option<Seq<u8>> {
    if vent_has(s, k) {
        Some(s[vent_index(s, k)].value)
    } else {
        None
    }
}

/// No two entries share a key.
pub open spec fn vent_unique(s: Seq<EntryView>) -> bool {
    forall|i: int, j: int| 0 <= i < j < s.len() ==> s[i].key != s[j].key
}

/// With unique keys, an entry's position determines the lookup result.
pub proof fn lemma_vent_at(s: Seq<EntryView>, j: int)
    requires
        vent_unique(s),
        0 <= j < s.len(),
    ensures
        vent_has(s, s[j].key),
        vent_index(s, s[j].key) == j,
        vent_get(s, s[j].key) == Some(s[j].value),
{
    let k = s[j].key;
    assert(vent_has(s, k));
    let i = vent_index(s, k);
    if i < j {
        assert(s[i].key != s[j].key);
    } else if j < i {
        assert(s[j].key != s[i].key);
    }
}

/// Two byte strings are equal.
fn bytes_eq(a: &Vec<u8>, b: &Vec<u8>) -> (r: bool)
    ensures
        r == (a@ == b@),
{
    let n = a.len();
    if n != b.len() {
        proof {
            assert(a@ != b@);
        }
        return false;
    }
    let mut i: usize = 0;
    while i < n
        invariant
            n == a@.len(),
            n == b@.len(),
            i <= n,
            forall|j: int| 0 <= j < i ==> a@[j] == b@[j],
        decreases n - i,
    {
        if a[i] != b[i] {
            return false;
        }
        i += 1;
    }
    proof {
        assert(a@ =~= b@);
    }
    true
}

/// An owned copy of a byte string.
fn bytes_copy(v: &Vec<u8>) -> (r: Vec<u8>)
    ensures
        r@ == v@,
{
    let n = v.len();
    let mut r: Vec<u8> = Vec::new();
    let mut i: usize = 0;
    while i < n
        invariant
            n == v@.len(),
            i <= n,
            r@ =~= v@.take(i as int),
        decreases n - i,
    {
        r.push(v[i]);
        proof {
            assert(r@ =~= v@.take(i as int + 1));
        }
        i += 1;
    }
    proof {
        assert(v@.take(n as int) =~= v@);
    }
    r
}

/// The position of the entry with key `k`, if any.
fn ent_find(entries: &Vec<MapEntry>, key: &Vec<u8>) -> (r: Option<usize>)
    ensures
        r matches Some(i) ==> i < entries@.len() && entries@[i as int].key@ == key@,
        r is None ==> !vent_has(view_entries(entries@), key@),
{
    let n = entries.len();
    let mut i: usize = 0;
    while i < n
        invariant
            n == entries@.len(),
            i <= n,
            forall|j: int| 0 <= j < i ==> (#[trigger] entries@[j]).key@ != key@,
        decreases n - i,
    {
        if bytes_eq(&entries[i].key, key) {
            return Some(i);
        }
        i += 1;
    }
    None
}

/// One requested change to a map's entries.
#[derive(Clone, PartialEq, Eq, Debug)]
pub enum MapEntryAction {
    /// Insert a fresh key.
    Ins(Vec<u8>, Vec<u8>),
    /// Overwrite an existing key's value.
    Update(Vec<u8>, Vec<u8>),
    /// Remove an existing key.
    Del(Vec<u8>),
}

/// What one action does to the entries, under the requester's rights.
pub open spec fn spec_apply_one(
    s: Seq<EntryView>,
    a: MapEntryAction,
    can_ins: bool,
    can_upd: bool,
    can_del: bool,
) -> Result<Seq<EntryView>, NdError> {
    match a {
        MapEntryAction::Ins(k, v) => if !can_ins {
            Result::Err(NdError::AccessDenied)
        } else if vent_has(s, k@) {
            Result::Err(NdError::EntryExists)
        } else {
            Result::Ok(s.push(EntryView { key: k@, value: v@ }))
        },
        MapEntryAction::Update(k, v) => if !can_upd {
            Result::Err(NdError::AccessDenied)
        } else if !vent_has(s, k@) {
            Result::Err(NdError::NoSuchEntry)
        } else {
            Result::Ok(s.update(vent_index(s, k@), EntryView { key: k@, value: v@ }))
        },
        MapEntryAction::Del(k) => if !can_del {
            Result::Err(NdError::AccessDenied)
        } else if !vent_has(s, k@) {
            Result::Err(NdError::NoSuchEntry)
        } else {
            Result::Ok(s.remove(vent_index(s, k@)))
        },
    }
}

/// What a sequence of actions does to the entries: applied in order, the
/// first failing action decides the error and nothing is changed.
pub open spec fn spec_apply_actions(
    s: Seq<EntryView>,
    actions: Seq<MapEntryAction>,
    can_ins: bool,
    can_upd: bool,
    can_del: bool,
) -> Result<Seq<EntryView>, NdError>
    decreases actions.len(),
{
    if actions.len() == 0 {
        Result::Ok(s)
    } else {
        match spec_apply_actions(s, actions.drop_last(), can_ins, can_upd, can_del) {
            Result::Ok(s2) => spec_apply_one(s2, actions.last(), can_ins, can_upd, can_del),
            Result::Err(e) => Result::Err(e),
        }
    }
}

/// Once a prefix of the actions has failed, every extension fails the same way.
proof fn lemma_apply_error_stays(
    s: Seq<EntryView>,
    actions: Seq<MapEntryAction>,
    i: int,
    can_ins: bool,
    can_upd: bool,
    can_del: bool,
)
    requires
        0 <= i <= actions.len(),
        spec_apply_actions(s, actions.take(i), can_ins, can_upd, can_del) is Err,
    ensures
        spec_apply_actions(s, actions.take(actions.len() as int), can_ins, can_upd, can_del)
            == spec_apply_actions(s, actions.take(i), can_ins, can_upd, can_del),
    decreases actions.len() - i,
{
    if i < actions.len() {
        assert(actions.take(i + 1).drop_last() =~= actions.take(i));
        lemma_apply_error_stays(s, actions, i + 1, can_ins, can_upd, can_del);
    }
}

/// Whether all entry keys are distinct.
fn entries_unique_check(entries: &Vec<MapEntry>) -> (r: bool)
    ensures
        r == vent_unique(view_entries(entries@)),
{
    let n = entries.len();
    let mut i: usize = 0;
    while i < n
        invariant
            n == entries@.len(),
            i <= n,
            forall|x: int, y: int|
                0 <= x < y < i ==> (#[trigger] entries@[x]).key@ != (#[trigger] entries@[y]).key@,
        decreases n - i,
    {
        let mut j: usize = 0;
        while j < i
            invariant
                n == entries@.len(),
                j <= i,
                i < n,
                forall|x: int| 0 <= x < j ==> (#[trigger] entries@[x]).key@ != entries@[i as int].key@,
            decreases i - j,
        {
            if bytes_eq(&entries[j].key, &entries[i].key) {
                proof {
                    let v = view_entries(entries@);
                    assert(v[j as int].key == v[i as int].key);
                    assert(!vent_unique(v));
                }
                return false;
            }
            j += 1;
        }
        i += 1;
    }
    proof {
        let v = view_entries(entries@);
        assert forall|x: int, y: int| 0 <= x < y < v.len() implies v[x].key != v[y].key by {
            assert(entries@[x].key@ != entries@[y].key@);
        }
    }
    true
}

/// What a map chunk is, to the specification.
pub struct MapChunkView {
    pub name: XorName,
    pub tag: u64,
    pub owner: PublicKey,
    pub version: u64,
    pub entries: Seq<EntryView>,
    pub permissions: Seq<(u64, MapPermissionSet)>,
}

/// A map chunk: owned, versioned, permissioned key-value entries.
#[derive(PartialEq, Eq, Debug)]
pub struct MapChunk {
    pub name: XorName,
    pub tag: u64,
    pub owner: PublicKey,
    pub version: u64,
    pub entries: Vec<MapEntry>,
    /// Per-user permission sets, keyed by the user's public key.
    pub permissions: Table<MapPermissionSet>,
}

impl View for MapChunk {
    type V = MapChunkView;

    open spec fn view(&self) -> MapChunkView {
        MapChunkView {
            name: self.name,
            tag: self.tag,
            owner: self.owner,
            version: self.version,
            entries: view_entries(self.entries@),
            permissions: self.permissions@,
        }
    }
}

impl MapChunk {
    pub open spec fn wf(self) -> bool {
        &&& vent_unique(view_entries(self.entries@))
        &&& self.permissions.wf()
    }

    pub fn address(&self) -> (r: MapAddress)
        ensures
            r == (MapAddress { name: self@.name, tag: self@.tag }),
    {
        MapAddress { name: self.name, tag: self.tag }
    }

    /// Whether the requester may perform the action: the owner always may,
    /// anyone else exactly when their stored permission set allows it.
    pub open spec fn spec_allows(self, requester: PublicKey, action: MapAction) -> bool {
        if requester == self.owner {
            true
        } else {
            match tbl_get(self.permissions@, requester.0) {
                Some(ps) => ps.spec_is_allowed(action),
                None => false,
            }
        }
    }

    /// Check the requested action against ownership and stored permissions.
    pub fn check_permissions(&self, action: MapAction, requester: PublicKey) -> (r: Result<
        (),
        NdError,
    >)
        requires
            self.wf(),
        ensures
            r is Ok <==> self.spec_allows(requester, action),
            r is Err ==> r == Result::<(), NdError>::Err(NdError::AccessDenied),
    {
        if requester == self.owner {
            return Ok(());
        }
        match self.permissions.get(requester.0) {
            Some(ps) => {
                if ps.is_allowed(action) {
                    Ok(())
                } else {
                    Err(NdError::AccessDenied)
                }
            },
            None => Err(NdError::AccessDenied),
        }
    }

    /// Check that the requester owns the map.
    pub fn check_is_owner(&self, requester: PublicKey) -> (r: Result<(), NdError>)
        ensures
            r is Ok <==> requester == self@.owner,
            r is Err ==> r == Result::<(), NdError>::Err(NdError::AccessDenied),
    {
        if requester == self.owner {
            Ok(())
        } else {
            Err(NdError::AccessDenied)
        }
    }

    /// An owned copy with the same content.
    pub fn copy(&self) -> (r: MapChunk)
        ensures
            r@ == self@,
            self.wf() ==> r.wf(),
    {
        let n = self.entries.len();
        let mut entries: Vec<MapEntry> = Vec::new();
        let mut i: usize = 0;
        while i < n
            invariant
                n == self.entries@.len(),
                i <= n,
                entries@.len() == i,
                forall|j: int| 0 <= j < i ==> (#[trigger] entries@[j])@ == self.entries@[j]@,
            decreases n - i,
        {
            entries.push(
                MapEntry {
                    key: bytes_copy(&self.entries[i].key),
                    value: bytes_copy(&self.entries[i].value),
                },
            );
            i += 1;
        }
        proof {
            assert(view_entries(entries@) =~= view_entries(self.entries@));
        }
        MapChunk {
            name: self.name,
            tag: self.tag,
            owner: self.owner,
            version: self.version,
            entries,
            permissions: self.permissions.duplicate(),
        }
    }

    /// Grant a permission set to a user. The caller names the version the map
    /// moves to, which must be exactly one past the current one.
    pub fn set_user_permissions(
        &mut self,
        user: PublicKey,
        permissions: MapPermissionSet,
        version: u64,
    ) -> (r: Result<(), NdError>)
        requires
            old(self).wf(),
        ensures
            final(self).wf(),
            r is Ok <==> version == old(self).version + 1,
            r is Err ==> r == Result::<(), NdError>::Err(
                NdError::InvalidSuccessor(old(self).version),
            ) && *final(self) == *old(self),
            r is Ok ==> {
                &&& final(self).version == version
                &&& tbl_get(final(self).permissions@, user.0) == Some(permissions)
                &&& forall|k: u64|
                    k != user.0 ==> tbl_get(final(self).permissions@, k) == tbl_get(
                        old(self).permissions@,
                        k,
                    )
                &&& final(self).entries@ == old(self).entries@
                &&& final(self).name == old(self).name
                &&& final(self).tag == old(self).tag
                &&& final(self).owner == old(self).owner
            },
    {
        if !(self.version < u64::MAX && version == self.version + 1) {
            return Err(NdError::InvalidSuccessor(self.version));
        }
        self.permissions.set(user.0, permissions);
        self.version = version;
        Ok(())
    }

    /// Withdraw a user's permission set, moving to the named version.
    pub fn del_user_permissions(&mut self, user: PublicKey, version: u64) -> (r: Result<
        (),
        NdError,
    >)
        requires
            old(self).wf(),
        ensures
            final(self).wf(),
            r is Ok <==> (version == old(self).version + 1 && tbl_has(
                old(self).permissions@,
                user.0,
            )),
            r is Err ==> *final(self) == *old(self),
            version != old(self).version + 1 ==> r == Result::<(), NdError>::Err(
                NdError::InvalidSuccessor(old(self).version),
            ),
            version == old(self).version + 1 && !tbl_has(old(self).permissions@, user.0) ==> r
                == Result::<(), NdError>::Err(NdError::NoSuchKey),
            r is Ok ==> {
                &&& final(self).version == version
                &&& !tbl_has(final(self).permissions@, user.0)
                &&& forall|k: u64|
                    k != user.0 ==> tbl_get(final(self).permissions@, k) == tbl_get(
                        old(self).permissions@,
                        k,
                    )
                &&& final(self).entries@ == old(self).entries@
                &&& final(self).name == old(self).name
                &&& final(self).tag == old(self).tag
                &&& final(self).owner == old(self).owner
            },
    {
        if !(self.version < u64::MAX && version == self.version + 1) {
            return Err(NdError::InvalidSuccessor(self.version));
        }
        if !self.permissions.contains(user.0) {
            return Err(NdError::NoSuchKey);
        }
        let _ = self.permissions.remove(user.0);
        self.version = version;
        Ok(())
    }

    /// Apply entry mutations, all or nothing: on the first action that is not
    /// permitted or does not fit the entries, nothing changes and the exact
    /// error is reported; otherwise all actions are applied in order.
    pub fn mutate_entries(&mut self, actions: &Vec<MapEntryAction>, requester: PublicKey) -> (r:
        Result<(), NdError>)
        requires
            old(self).wf(),
        ensures
            final(self).wf(),
            ({
                let outcome = spec_apply_actions(
                    view_entries(old(self).entries@),
                    actions@,
                    old(self).spec_allows(requester, MapAction::Insert),
                    old(self).spec_allows(requester, MapAction::Update),
                    old(self).spec_allows(requester, MapAction::Delete),
                );
                &&& ((r is Ok) == (outcome is Ok))
                &&& (r matches Err(e) ==> outcome == Result::<Seq<EntryView>, NdError>::Err(e)
                    && *final(self) == *old(self))
                &&& (r is Ok ==> {
                    &&& view_entries(final(self).entries@) == outcome->Ok_0
                    &&& final(self).version == old(self).version
                    &&& final(self).name == old(self).name
                    &&& final(self).tag == old(self).tag
                    &&& final(self).owner == old(self).owner
                    &&& final(self).permissions@ == old(self).permissions@
                })
            }),
    {
        let can_ins = match self.check_permissions(MapAction::Insert, requester) {
            Ok(()) => true,
            Err(_) => false,
        };
        let can_upd = match self.check_permissions(MapAction::Update, requester) {
            Ok(()) => true,
            Err(_) => false,
        };
        let can_del = match self.check_permissions(MapAction::Delete, requester) {
            Ok(()) => true,
            Err(_) => false,
        };
        let ghost orig = view_entries(self.entries@);
        // Work on a copy so that a failing action leaves the map untouched.
        let n0 = self.entries.len();
        let mut working: Vec<MapEntry> = Vec::new();
        let mut i: usize = 0;
        while i < n0
            invariant
                n0 == self.entries@.len(),
                i <= n0,
                working@.len() == i,
                forall|j: int| 0 <= j < i ==> (#[trigger] working@[j])@ == self.entries@[j]@,
            decreases n0 - i,
        {
            working.push(
                MapEntry {
                    key: bytes_copy(&self.entries[i].key),
                    value: bytes_copy(&self.entries[i].value),
                },
            );
            i += 1;
        }
        proof {
            assert(view_entries(working@) =~= orig);
        }
        let n = actions.len();
        let mut a: usize = 0;
        proof {
            assert(actions@.take(0) =~= Seq::<MapEntryAction>::empty());
        }
        while a < n
            invariant
                n == actions@.len(),
                a <= n,
                self == old(self),
                self.wf(),
                orig == view_entries(old(self).entries@),
                can_ins == old(self).spec_allows(requester, MapAction::Insert),
                can_upd == old(self).spec_allows(requester, MapAction::Update),
                can_del == old(self).spec_allows(requester, MapAction::Delete),
                spec_apply_actions(orig, actions@.take(a as int), can_ins, can_upd, can_del)
                    == Result::<Seq<EntryView>, NdError>::Ok(view_entries(working@)),
                vent_unique(view_entries(working@)),
            decreases n - a,
        {
            let ghost w_pre = view_entries(working@);
            let ghost act = actions@[a as int];
            let step_err: Option<NdError> = match &actions[a] {
                MapEntryAction::Ins(key, value) => {
                    if !can_ins {
                        Some(NdError::AccessDenied)
                    } else {
                        match ent_find(&working, key) {
                            Some(idx) => {
                                proof {
                                    assert(view_entries(working@)[idx as int].key == key@);
                                    assert(vent_has(w_pre, key@));
                                }
                                Some(NdError::EntryExists)
                            },
                            None => {
                                working.push(
                                    MapEntry { key: bytes_copy(key), value: bytes_copy(value) },
                                );
                                proof {
                                    assert(view_entries(working@) =~= w_pre.push(
                                        EntryView { key: key@, value: value@ },
                                    ));
                                    assert forall|x: int, y: int|
                                        0 <= x < y < view_entries(working@).len() implies view_entries(
                                        working@,
                                    )[x].key != view_entries(working@)[y].key by {
                                        if y < w_pre.len() {
                                            assert(w_pre[x].key != w_pre[y].key);
                                        } else {
                                            assert(view_entries(working@)[y].key == key@);
                                            assert(vent_has(w_pre, w_pre[x].key));
                                        }
                                    }
                                }
                                None
                            },
                        }
                    }
                },
                MapEntryAction::Update(key, value) => {
                    if !can_upd {
                        Some(NdError::AccessDenied)
                    } else {
                        match ent_find(&working, key) {
                            Some(idx) => {
                                proof {
                                    assert(view_entries(working@)[idx as int].key == key@);
                                    lemma_vent_at(w_pre, idx as int);
                                }
                                working.set(
                                    idx,
                                    MapEntry { key: bytes_copy(key), value: bytes_copy(value) },
                                );
                                proof {
                                    assert(view_entries(working@) =~= w_pre.update(
                                        vent_index(w_pre, key@),
                                        EntryView { key: key@, value: value@ },
                                    ));
                                    assert forall|x: int, y: int|
                                        0 <= x < y < view_entries(working@).len() implies view_entries(
                                        working@,
                                    )[x].key != view_entries(working@)[y].key by {
                                        assert(view_entries(working@)[x].key == w_pre[x].key);
                                        assert(view_entries(working@)[y].key == w_pre[y].key);
                                        assert(w_pre[x].key != w_pre[y].key);
                                    }
                                }
                                None
                            },
                            None => Some(NdError::NoSuchEntry),
                        }
                    }
                },
                MapEntryAction::Del(key) => {
                    if !can_del {
                        Some(NdError::AccessDenied)
                    } else {
                        match ent_find(&working, key) {
                            Some(idx) => {
                                proof {
                                    assert(view_entries(working@)[idx as int].key == key@);
                                    lemma_vent_at(w_pre, idx as int);
                                }
                                let _ = working.remove(idx);
                                proof {
                                    assert(view_entries(working@) =~= w_pre.remove(
                                        vent_index(w_pre, key@),
                                    ));
                                    let w_now = view_entries(working@);
                                    let idx0 = idx as int;
                                    assert forall|x: int, y: int|
                                        0 <= x < y < w_now.len() implies w_now[x].key
                                        != w_now[y].key by {
                                        let x0 = if x < idx0 {
                                            x
                                        } else {
                                            x + 1
                                        };
                                        let y0 = if y < idx0 {
                                            y
                                        } else {
                                            y + 1
                                        };
                                        assert(w_now[x] == w_pre[x0]);
                                        assert(w_now[y] == w_pre[y0]);
                                        assert(w_pre[x0].key != w_pre[y0].key);
                                    }
                                }
                                None
                            },
                            None => Some(NdError::NoSuchEntry),
                        }
                    }
                },
            };
            proof {
                assert(actions@.take(a as int + 1).drop_last() =~= actions@.take(a as int));
                assert(actions@.take(a as int + 1).last() == act);
            }
            match step_err {
                Some(e) => {
                    proof {
                        assert(spec_apply_one(w_pre, act, can_ins, can_upd, can_del)
                            == Result::<Seq<EntryView>, NdError>::Err(e));
                        lemma_apply_error_stays(
                            orig,
                            actions@,
                            a as int + 1,
                            can_ins,
                            can_upd,
                            can_del,
                        );
                        assert(actions@.take(n as int) =~= actions@);
                    }
                    return Err(e);
                },
                None => {
                    proof {
                        assert(spec_apply_one(w_pre, act, can_ins, can_upd, can_del)
                            == Result::<Seq<EntryView>, NdError>::Ok(view_entries(working@)));
                    }
                },
            }
            a += 1;
        }
        proof {
            assert(actions@.take(n as int) =~= actions@);
        }
        self.entries = working;
        Ok(())
    }

    /// The map without its entries: name, tag, owner, version, permissions.
    pub fn shell(&self) -> (r: MapChunk)
        ensures
            r@.name == self@.name,
            r@.tag == self@.tag,
            r@.owner == self@.owner,
            r@.version == self@.version,
            r@.entries =~= Seq::<EntryView>::empty(),
            r@.permissions == self@.permissions,
            self.wf() ==> r.wf(),
    {
        MapChunk {
            name: self.name,
            tag: self.tag,
            owner: self.owner,
            version: self.version,
            entries: Vec::new(),
            permissions: self.permissions.duplicate(),
        }
    }
}

/// A typed map read request.
#[derive(Clone, PartialEq, Eq, Debug)]
pub enum MapRead {
    Get(MapAddress),
    GetValue { address: MapAddress, key: Vec<u8> },
    GetShell(MapAddress),
    GetVersion(MapAddress),
    ListEntries(MapAddress),
    ListKeys(MapAddress),
    ListValues(MapAddress),
    ListPermissions(MapAddress),
    ListUserPermissions { address: MapAddress, user: PublicKey },
}

/// A typed map write request.
#[derive(PartialEq, Eq, Debug)]
pub enum MapWrite {
    New(MapChunk),
    Delete(MapAddress),
    SetUserPermissions {
        address: MapAddress,
        user: PublicKey,
        permissions: MapPermissionSet,
        version: u64,
    },
    DelUserPermissions { address: MapAddress, user: PublicKey, version: u64 },
    Edit { address: MapAddress, changes: Vec<MapEntryAction> },
}

/// Operations over the map data type.
pub struct MapStorage {
    pub chunks: ChunkStore<MapChunk>,
    pub wrapping: ElderMsgWrapping,
}

impl MapStorage {
    /// Every stored chunk is well-formed and filed under its own name.
    pub open spec fn wf(self) -> bool {
        &&& self.chunks.wf()
        &&& forall|k: u64|
            #[trigger] tbl_has(self.chunks@, k) ==> (tbl_get(self.chunks@, k) matches Some(c)
                && c.wf() && c.name.0 == k)
    }

    /// The chunk stored under an address, if any.
    pub open spec fn spec_chunk(self, address: MapAddress) -> Option<MapChunk> {
        tbl_get(self.chunks@, address.name.0)
    }

    /// What a permission-checked fetch of a chunk yields: the stored chunk,
    /// or the exact error owed to the requester.
    pub open spec fn spec_fetch(self, address: MapAddress, requester: PublicKey, action: MapAction)
        -> Result<MapChunk, NdError> {
        match self.spec_chunk(address) {
            Some(c) => if c.spec_allows(requester, action) {
                Result::Ok(c)
            } else {
                Result::Err(NdError::AccessDenied)
            },
            None => Result::Err(NdError::NoSuchData),
        }
    }

    pub fn new(wrapping: ElderMsgWrapping) -> (r: Result<MapStorage, NdError>)
        ensures
            r matches Ok(s) && s.wf() && s.chunks@ =~= Seq::<(u64, MapChunk)>::empty()
                && s.wrapping == wrapping,
    {
        Ok(MapStorage { chunks: ChunkStore::new(), wrapping })
    }

    /// Get a chunk from the store and check the requested action against its
    /// permissions.
    fn get_chunk(&self, address: &MapAddress, origin: &MsgSender, action: MapAction) -> (r: Result<
        &MapChunk,
        NdError,
    >)
        requires
            self.wf(),
        ensures
            r matches Ok(c) ==> self.spec_fetch(*address, origin.id, action) == Result::<
                MapChunk,
                NdError,
            >::Ok(*c),
            r matches Err(e) ==> self.spec_fetch(*address, origin.id, action) == Result::<
                MapChunk,
                NdError,
            >::Err(e),
    {
        match self.chunks.get(&address.name) {
            Ok(chunk) => {
                proof {
                    assert(tbl_has(self.chunks@, address.name.0));
                }
                match chunk.check_permissions(action, origin.id) {
                    Ok(()) => Ok(chunk),
                    Err(e) => Err(e),
                }
            },
            Err(_) => Err(NdError::NoSuchData),
        }
    }

    /// Build the query-response envelope every read answers with.
    fn respond(
        &self,
        response: QueryResponse,
        msg_id: MessageId,
        reply_id: MessageId,
        origin: &MsgSender,
    ) -> (r: Option<MessagingDuty>)
        ensures
            r == Some(
                MessagingDuty::Send(
                    Message::QueryResponse {
                        response,
                        id: reply_id,
                        correlation_id: msg_id,
                        query_origin: origin.spec_address(),
                    },
                ),
            ),
    {
        self.wrapping.send(
            Message::QueryResponse {
                response,
                id: reply_id,
                correlation_id: msg_id,
                query_origin: origin.address(),
            },
        )
    }

    /// Report a write's error to its origin; a successful write answers with
    /// nothing.
    fn ok_or_error(
        &self,
        result: Result<(), NdError>,
        msg_id: MessageId,
        reply_id: MessageId,
        origin: &MsgSender,
    ) -> (r: Option<MessagingDuty>)
        ensures
            result is Ok ==> r is None,
            result matches Err(e) ==> r == Some(
                MessagingDuty::Send(
                    Message::CmdError {
                        error: CmdError::Data(e),
                        id: reply_id,
                        correlation_id: msg_id,
                        cmd_origin: origin.spec_address(),
                    },
                ),
            ),
    {
        match result {
            Err(error) => self.wrapping.error(
                CmdError::Data(error),
                msg_id,
                reply_id,
                origin.address(),
            ),
            Ok(()) => None,
        }
    }

    /// Answer a read request. The response carries exactly what the store
    /// holds for the requester: the data, or the error owed (no such data, or
    /// access denied), correlated to the request.
    pub fn read(
        &self,
        read: &MapRead,
        msg_id: MessageId,
        origin: &MsgSender,
        reply_id: MessageId,
    ) -> (r: Option<MessagingDuty>)
        requires
            self.wf(),
        ensures
            (r matches Some(d) && d matches MessagingDuty::Send(m) && m matches
                Message::QueryResponse { response, id, correlation_id, query_origin } && ({
                &&& id == reply_id
                &&& correlation_id == msg_id
                &&& query_origin == origin.spec_address()
                &&& match *read {
                    MapRead::Get(a) => self.get_response_ok(a, origin.id, response),
                    MapRead::GetValue { address, ref key } => self.get_value_response_ok(
                        address,
                        key@,
                        origin.id,
                        response,
                    ),
                    MapRead::GetShell(a) => self.get_shell_response_ok(a, origin.id, response),
                    MapRead::GetVersion(a) => self.get_version_response_ok(a, origin.id, response),
                    MapRead::ListEntries(a) => self.list_entries_response_ok(
                        a,
                        origin.id,
                        response,
                    ),
                    MapRead::ListKeys(a) => self.list_keys_response_ok(a, origin.id, response),
                    MapRead::ListValues(a) => self.list_values_response_ok(a, origin.id, response),
                    MapRead::ListPermissions(a) => self.list_permissions_response_ok(
                        a,
                        origin.id,
                        response,
                    ),
                    MapRead::ListUserPermissions { address, user } => self.list_user_permissions_response_ok(
                        address,
                        user,
                        origin.id,
                        response,
                    ),
                }
            })),
    {
        match read {
            MapRead::Get(address) => self.get(*address, msg_id, origin, reply_id),
            MapRead::GetValue { address, key } => self.get_value(
                *address,
                key,
                msg_id,
                origin,
                reply_id,
            ),
            MapRead::GetShell(address) => self.get_shell(*address, msg_id, origin, reply_id),
            MapRead::GetVersion(address) => self.get_version(*address, msg_id, origin, reply_id),
            MapRead::ListEntries(address) => self.list_entries(*address, msg_id, origin, reply_id),
            MapRead::ListKeys(address) => self.list_keys(*address, msg_id, origin, reply_id),
            MapRead::ListValues(address) => self.list_values(*address, msg_id, origin, reply_id),
            MapRead::ListPermissions(address) => self.list_permissions(
                *address,
                msg_id,
                origin,
                reply_id,
            ),
            MapRead::ListUserPermissions { address, user } => self.list_user_permissions(
                *address,
                *user,
                msg_id,
                origin,
                reply_id,
            ),
        }
    }

    /// The response owed to a whole-map read.
    pub open spec fn get_response_ok(
        self,
        address: MapAddress,
        requester: PublicKey,
        response: QueryResponse,
    ) -> bool {
        response matches QueryResponse::GetMap(res) && match self.spec_fetch(
            address,
            requester,
            MapAction::Read,
        ) {
            Result::Ok(c) => res matches Ok(c2) && c2@ == c@,
            Result::Err(e) => res == Result::<MapChunk, NdError>::Err(e),
        }
    }

    /// Get the entire map.
    fn get(
        &self,
        address: MapAddress,
        msg_id: MessageId,
        origin: &MsgSender,
        reply_id: MessageId,
    ) -> (r: Option<MessagingDuty>)
        requires
            self.wf(),
        ensures
            (r matches Some(d) && d matches MessagingDuty::Send(m) && m matches
                Message::QueryResponse { response, id, correlation_id, query_origin } && id
                == reply_id && correlation_id == msg_id && query_origin == origin.spec_address()
                && self.get_response_ok(address, origin.id, response)),
    {
        let result = match self.get_chunk(&address, origin, MapAction::Read) {
            Ok(chunk) => Ok(chunk.copy()),
            Err(e) => Err(e),
        };
        self.respond(QueryResponse::GetMap(result), msg_id, reply_id, origin)
    }

    /// The response owed to a shell read.
    pub open spec fn get_shell_response_ok(
        self,
        address: MapAddress,
        requester: PublicKey,
        response: QueryResponse,
    ) -> bool {
        response matches QueryResponse::GetMapShell(res) && match self.spec_fetch(
            address,
            requester,
            MapAction::Read,
        ) {
            Result::Ok(c) => res matches Ok(c2) && c2@ == (MapChunkView {
                entries: Seq::empty(),
                ..c@
            }),
            Result::Err(e) => res == Result::<MapChunk, NdError>::Err(e),
        }
    }

    /// Get the map without its entries.
    fn get_shell(
        &self,
        address: MapAddress,
        msg_id: MessageId,
        origin: &MsgSender,
        reply_id: MessageId,
    ) -> (r: Option<MessagingDuty>)
        requires
            self.wf(),
        ensures
            (r matches Some(d) && d matches MessagingDuty::Send(m) && m matches
                Message::QueryResponse { response, id, correlation_id, query_origin } && id
                == reply_id && correlation_id == msg_id && query_origin == origin.spec_address()
                && self.get_shell_response_ok(address, origin.id, response)),
    {
        let result = match self.get_chunk(&address, origin, MapAction::Read) {
            Ok(chunk) => {
                let shell = chunk.shell();
                proof {
                    assert(shell@ =~= (MapChunkView { entries: Seq::empty(), ..chunk@ }));
                }
                Ok(shell)
            },
            Err(e) => Err(e),
        };
        self.respond(QueryResponse::GetMapShell(result), msg_id, reply_id, origin)
    }

    /// The response owed to a version read.
    pub open spec fn get_version_response_ok(
        self,
        address: MapAddress,
        requester: PublicKey,
        response: QueryResponse,
    ) -> bool {
        response == QueryResponse::GetMapVersion(
            match self.spec_fetch(address, requester, MapAction::Read) {
                Result::Ok(c) => Result::Ok(c.version),
                Result::Err(e) => Result::Err(e),
            },
        )
    }

    /// Get the map's version.
    fn get_version(
        &self,
        address: MapAddress,
        msg_id: MessageId,
        origin: &MsgSender,
        reply_id: MessageId,
    ) -> (r: Option<MessagingDuty>)
        requires
            self.wf(),
        ensures
            (r matches Some(d) && d matches MessagingDuty::Send(m) && m matches
                Message::QueryResponse { response, id, correlation_id, query_origin } && id
                == reply_id && correlation_id == msg_id && query_origin == origin.spec_address()
                && self.get_version_response_ok(address, origin.id, response)),
    {
        let result = match self.get_chunk(&address, origin, MapAction::Read) {
            Ok(chunk) => Ok(chunk.version),
            Err(e) => Err(e),
        };
        self.respond(QueryResponse::GetMapVersion(result), msg_id, reply_id, origin)
    }

    /// The response owed to a single-entry read.
    pub open spec fn get_value_response_ok(
        self,
        address: MapAddress,
        key: Seq<u8>,
        requester: PublicKey,
        response: QueryResponse,
    ) -> bool {
        response matches QueryResponse::GetMapValue(res) && match self.spec_fetch(
            address,
            requester,
            MapAction::Read,
        ) {
            Result::Ok(c) => match vent_get(view_entries(c.entries@), key) {
                Some(v) => res matches Ok(v2) && v2@ == v,
                None => res == Result::<Vec<u8>, NdError>::Err(NdError::NoSuchEntry),
            },
            Result::Err(e) => res == Result::<Vec<u8>, NdError>::Err(e),
        }
    }

    /// Get one entry's value.
    fn get_value(
        &self,
        address: MapAddress,
        key: &Vec<u8>,
        msg_id: MessageId,
        origin: &MsgSender,
        reply_id: MessageId,
    ) -> (r: Option<MessagingDuty>)
        requires
            self.wf(),
        ensures
            (r matches Some(d) && d matches MessagingDuty::Send(m) && m matches
                Message::QueryResponse { response, id, correlation_id, query_origin } && id
                == reply_id && correlation_id == msg_id && query_origin == origin.spec_address()
                && self.get_value_response_ok(address, key@, origin.id, response)),
    {
        let result = match self.get_chunk(&address, origin, MapAction::Read) {
            Ok(chunk) => {
                match ent_find(&chunk.entries, key) {
                    Some(i) => {
                        proof {
                            lemma_vent_at(view_entries(chunk.entries@), i as int);
                        }
                        Ok(bytes_copy(&chunk.entries[i].value))
                    },
                    None => Err(NdError::NoSuchEntry),
                }
            },
            Err(e) => Err(e),
        };
        self.respond(QueryResponse::GetMapValue(result), msg_id, reply_id, origin)
    }

    /// The response owed to an entry listing.
    pub open spec fn list_entries_response_ok(
        self,
        address: MapAddress,
        requester: PublicKey,
        response: QueryResponse,
    ) -> bool {
        response matches QueryResponse::ListMapEntries(res) && match self.spec_fetch(
            address,
            requester,
            MapAction::Read,
        ) {
            Result::Ok(c) => res matches Ok(es) && view_entries(es@) == view_entries(c.entries@),
            Result::Err(e) => res == Result::<Vec<MapEntry>, NdError>::Err(e),
        }
    }

    /// List all entries.
    fn list_entries(
        &self,
        address: MapAddress,
        msg_id: MessageId,
        origin: &MsgSender,
        reply_id: MessageId,
    ) -> (r: Option<MessagingDuty>)
        requires
            self.wf(),
        ensures
            (r matches Some(d) && d matches MessagingDuty::Send(m) && m matches
                Message::QueryResponse { response, id, correlation_id, query_origin } && id
                == reply_id && correlation_id == msg_id && query_origin == origin.spec_address()
                && self.list_entries_response_ok(address, origin.id, response)),
    {
        let result = match self.get_chunk(&address, origin, MapAction::Read) {
            Ok(chunk) => {
                let copied = chunk.copy();
                Ok(copied.entries)
            },
            Err(e) => Err(e),
        };
        self.respond(QueryResponse::ListMapEntries(result), msg_id, reply_id, origin)
    }

    /// The response owed to a key listing.
    pub open spec fn list_keys_response_ok(
        self,
        address: MapAddress,
        requester: PublicKey,
        response: QueryResponse,
    ) -> bool {
        response matches QueryResponse::ListMapKeys(res) && match self.spec_fetch(
            address,
            requester,
            MapAction::Read,
        ) {
            Result::Ok(c) => res matches Ok(ks) && ks@.map_values(|k: Vec<u8>| k@)
                == view_entries(c.entries@).map_values(|e: EntryView| e.key),
            Result::Err(e) => res == Result::<Vec<Vec<u8>>, NdError>::Err(e),
        }
    }

    /// List the entry keys.
    fn list_keys(
        &self,
        address: MapAddress,
        msg_id: MessageId,
        origin: &MsgSender,
        reply_id: MessageId,
    ) -> (r: Option<MessagingDuty>)
        requires
            self.wf(),
        ensures
            (r matches Some(d) && d matches MessagingDuty::Send(m) && m matches
                Message::QueryResponse { response, id, correlation_id, query_origin } && id
                == reply_id && correlation_id == msg_id && query_origin == origin.spec_address()
                && self.list_keys_response_ok(address, origin.id, response)),
    {
        let result = match self.get_chunk(&address, origin, MapAction::Read) {
            Ok(chunk) => {
                let n = chunk.entries.len();
                let mut keys: Vec<Vec<u8>> = Vec::new();
                let mut i: usize = 0;
                while i < n
                    invariant
                        n == chunk.entries@.len(),
                        i <= n,
                        keys@.len() == i,
                        forall|j: int| 0 <= j < i ==> (#[trigger] keys@[j])@
                            == chunk.entries@[j].key@,
                    decreases n - i,
                {
                    keys.push(bytes_copy(&chunk.entries[i].key));
                    i += 1;
                }
                proof {
                    assert(keys@.map_values(|k: Vec<u8>| k@) =~= view_entries(
                        chunk.entries@,
                    ).map_values(|e: EntryView| e.key));
                }
                Ok(keys)
            },
            Err(e) => Err(e),
        };
        self.respond(QueryResponse::ListMapKeys(result), msg_id, reply_id, origin)
    }

    /// The response owed to a value listing.
    pub open spec fn list_values_response_ok(
        self,
        address: MapAddress,
        requester: PublicKey,
        response: QueryResponse,
    ) -> bool {
        response matches QueryResponse::ListMapValues(res) && match self.spec_fetch(
            address,
            requester,
            MapAction::Read,
        ) {
            Result::Ok(c) => res matches Ok(vs) && vs@.map_values(|v: Vec<u8>| v@)
                == view_entries(c.entries@).map_values(|e: EntryView| e.value),
            Result::Err(e) => res == Result::<Vec<Vec<u8>>, NdError>::Err(e),
        }
    }

    /// List the entry values.
    fn list_values(
        &self,
        address: MapAddress,
        msg_id: MessageId,
        origin: &MsgSender,
        reply_id: MessageId,
    ) -> (r: Option<MessagingDuty>)
        requires
            self.wf(),
        ensures
            (r matches Some(d) && d matches MessagingDuty::Send(m) && m matches
                Message::QueryResponse { response, id, correlation_id, query_origin } && id
                == reply_id && correlation_id == msg_id && query_origin == origin.spec_address()
                && self.list_values_response_ok(address, origin.id, response)),
    {
        let result = match self.get_chunk(&address, origin, MapAction::Read) {
            Ok(chunk) => {
                let n = chunk.entries.len();
                let mut values: Vec<Vec<u8>> = Vec::new();
                let mut i: usize = 0;
                while i < n
                    invariant
                        n == chunk.entries@.len(),
                        i <= n,
                        values@.len() == i,
                        forall|j: int| 0 <= j < i ==> (#[trigger] values@[j])@
                            == chunk.entries@[j].value@,
                    decreases n - i,
                {
                    values.push(bytes_copy(&chunk.entries[i].value));
                    i += 1;
                }
                proof {
                    assert(values@.map_values(|v: Vec<u8>| v@) =~= view_entries(
                        chunk.entries@,
                    ).map_values(|e: EntryView| e.value));
                }
                Ok(values)
            },
            Err(e) => Err(e),
        };
        self.respond(QueryResponse::ListMapValues(result), msg_id, reply_id, origin)
    }

    /// The response owed to a permission listing.
    pub open spec fn list_permissions_response_ok(
        self,
        address: MapAddress,
        requester: PublicKey,
        response: QueryResponse,
    ) -> bool {
        response matches QueryResponse::ListMapPermissions(res) && match self.spec_fetch(
            address,
            requester,
            MapAction::Read,
        ) {
            Result::Ok(c) => res matches Ok(ps) && ps@.map_values(
                |p: (PublicKey, MapPermissionSet)| (p.0.0, p.1),
            ) == c.permissions@,
            Result::Err(e) => res == Result::<Vec<(PublicKey, MapPermissionSet)>, NdError>::Err(e),
        }
    }

    /// List all users' permission sets.
    fn list_permissions(
        &self,
        address: MapAddress,
        msg_id: MessageId,
        origin: &MsgSender,
        reply_id: MessageId,
    ) -> (r: Option<MessagingDuty>)
        requires
            self.wf(),
        ensures
            (r matches Some(d) && d matches MessagingDuty::Send(m) && m matches
                Message::QueryResponse { response, id, correlation_id, query_origin } && id
                == reply_id && correlation_id == msg_id && query_origin == origin.spec_address()
                && self.list_permissions_response_ok(address, origin.id, response)),
    {
        let result = match self.get_chunk(&address, origin, MapAction::Read) {
            Ok(chunk) => {
                let n = chunk.permissions.len();
                let mut ps: Vec<(PublicKey, MapPermissionSet)> = Vec::new();
                let mut i: usize = 0;
                while i < n
                    invariant
                        n == chunk.permissions@.len(),
                        i <= n,
                        ps@.len() == i,
                        forall|j: int|
                            0 <= j < i ==> ((#[trigger] ps@[j]).0.0, ps@[j].1)
                                == chunk.permissions@[j],
                    decreases n - i,
                {
                    let entry = chunk.permissions.entry_at(i);
                    ps.push((PublicKey(entry.0), entry.1));
                    i += 1;
                }
                proof {
                    assert(ps@.map_values(|p: (PublicKey, MapPermissionSet)| (p.0.0, p.1))
                        =~= chunk.permissions@);
                }
                Ok(ps)
            },
            Err(e) => Err(e),
        };
        self.respond(QueryResponse::ListMapPermissions(result), msg_id, reply_id, origin)
    }

    /// The response owed to a single user's permission read.
    pub open spec fn list_user_permissions_response_ok(
        self,
        address: MapAddress,
        user: PublicKey,
        requester: PublicKey,
        response: QueryResponse,
    ) -> bool {
        response == QueryResponse::ListMapUserPermissions(
            match self.spec_fetch(address, requester, MapAction::Read) {
                Result::Ok(c) => match tbl_get(c.permissions@, user.0) {
                    Some(ps) => Result::Ok(ps),
                    None => Result::Err(NdError::NoSuchKey),
                },
                Result::Err(e) => Result::Err(e),
            },
        )
    }

    /// What handling a creation leaves behind: a conflict on an occupied
    /// address changes nothing and reports `DataExists` (a later read still
    /// returns the original chunk); duplicate entry keys are rejected; a
    /// fresh address stores the chunk and answers with nothing.
    pub open spec fn create_post(
        pre: MapStorage,
        post: MapStorage,
        duty: Option<MessagingDuty>,
        data: MapChunk,
        msg_id: MessageId,
        reply_id: MessageId,
        origin: MsgSender,
    ) -> bool {
        let address = MapAddress { name: data.name, tag: data.tag };
        if tbl_has(pre.chunks@, data.name.0) {
            &&& post.chunks@ == pre.chunks@
            &&& post.spec_chunk(address) == pre.spec_chunk(address)
            &&& duty == Some(
                MessagingDuty::Send(
                    Message::CmdError {
                        error: CmdError::Data(NdError::DataExists),
                        id: reply_id,
                        correlation_id: msg_id,
                        cmd_origin: origin.spec_address(),
                    },
                ),
            )
        } else if !vent_unique(view_entries(data.entries@)) || !data.permissions.wf() {
            &&& post.chunks@ == pre.chunks@
            &&& duty == Some(
                MessagingDuty::Send(
                    Message::CmdError {
                        error: CmdError::Data(NdError::EntryExists),
                        id: reply_id,
                        correlation_id: msg_id,
                        cmd_origin: origin.spec_address(),
                    },
                ),
            )
        } else {
            &&& post.spec_chunk(address) == Some(data)
            &&& forall|k: u64| k != data.name.0 ==> tbl_get(post.chunks@, k) == tbl_get(
                pre.chunks@,
                k,
            )
            &&& duty is None
        }
    }

    /// Uniqueness: a second creation at an already-occupied address yields a
    /// conflict error and leaves the stored chunk unchanged, so a read after
    /// the failed creation still returns the original value.
    pub proof fn lemma_create_conflict_roundtrip(
        pre: MapStorage,
        post: MapStorage,
        duty: Option<MessagingDuty>,
        data: MapChunk,
        msg_id: MessageId,
        reply_id: MessageId,
        origin: MsgSender,
    )
        requires
            tbl_has(pre.chunks@, data.name.0),
            Self::create_post(pre, post, duty, data, msg_id, reply_id, origin),
        ensures
            duty == Some(
                MessagingDuty::Send(
                    Message::CmdError {
                        error: CmdError::Data(NdError::DataExists),
                        id: reply_id,
                        correlation_id: msg_id,
                        cmd_origin: origin.spec_address(),
                    },
                ),
            ),
            forall|a: MapAddress| post.spec_chunk(a) == pre.spec_chunk(a),
            forall|a: MapAddress, requester: PublicKey, action: MapAction|
                post.spec_fetch(a, requester, action) == pre.spec_fetch(a, requester, action),
    {
    }

    /// Store a fresh map. Creation of an occupied address is a conflict that
    /// leaves the stored chunk unchanged.
    pub fn create(
        &mut self,
        data: MapChunk,
        msg_id: MessageId,
        origin: &MsgSender,
        reply_id: MessageId,
    ) -> (r: Option<MessagingDuty>)
        requires
            old(self).wf(),
        ensures
            final(self).wf(),
            final(self).wrapping == old(self).wrapping,
            Self::create_post(*old(self), *final(self), r, data, msg_id, reply_id, *origin),
    {
        if self.chunks.has_chunk(&data.name) {
            return self.ok_or_error(Err(NdError::DataExists), msg_id, reply_id, origin);
        }
        if !entries_unique_check(&data.entries) || !data.permissions.check_unique() {
            return self.ok_or_error(Err(NdError::EntryExists), msg_id, reply_id, origin);
        }
        let name = data.name;
        self.chunks.put(&name, data);
        proof {
            Self::lemma_store_wf_after_edit(*old(self), *self, name);
        }
        None
    }

    /// A store whose one touched slot holds a fitting, well-formed chunk (or
    /// nothing) stays well-formed.
    proof fn lemma_store_wf_after_edit(pre: MapStorage, post: MapStorage, name: XorName)
        requires
            pre.wf(),
            post.chunks.wf(),
            tbl_get(post.chunks@, name.0) matches Some(c) ==> c.wf() && c.name.0 == name.0,
            forall|k: u64|
                k != name.0 ==> tbl_get(post.chunks@, k) == tbl_get(pre.chunks@, k),
        ensures
            post.wf(),
    {
        assert forall|k: u64| #[trigger] tbl_has(post.chunks@, k) implies (tbl_get(
            post.chunks@,
            k,
        ) matches Some(c) && c.wf() && c.name.0 == k) by {
            if k != name.0 {
                assert(tbl_has(pre.chunks@, k));
            }
        }
    }

    /// What handling a map deletion leaves behind: only the owner may delete;
    /// a missing address or a non-owner changes nothing and earns the exact
    /// error; otherwise the chunk is removed and nothing is answered.
    pub open spec fn delete_post(
        pre: MapStorage,
        post: MapStorage,
        duty: Option<MessagingDuty>,
        address: MapAddress,
        msg_id: MessageId,
        reply_id: MessageId,
        origin: MsgSender,
    ) -> bool {
        match pre.spec_chunk(address) {
            None => (forall|k: u64| tbl_get(post.chunks@, k) == tbl_get(pre.chunks@, k)) && duty
                == Some(
                MessagingDuty::Send(
                    Message::CmdError {
                        error: CmdError::Data(NdError::NoSuchData),
                        id: reply_id,
                        correlation_id: msg_id,
                        cmd_origin: origin.spec_address(),
                    },
                ),
            ),
            Some(c) => if origin.id != c.owner {
                (forall|k: u64| tbl_get(post.chunks@, k) == tbl_get(pre.chunks@, k)) && duty
                    == Some(
                    MessagingDuty::Send(
                        Message::CmdError {
                            error: CmdError::Data(NdError::AccessDenied),
                            id: reply_id,
                            correlation_id: msg_id,
                            cmd_origin: origin.spec_address(),
                        },
                    ),
                )
            } else {
                &&& post.spec_chunk(address) is None
                &&& forall|k: u64| k != address.name.0 ==> tbl_get(post.chunks@, k) == tbl_get(
                    pre.chunks@,
                    k,
                )
                &&& duty is None
            },
        }
    }

    /// Delete a whole map; only its owner may.
    pub fn delete(
        &mut self,
        address: MapAddress,
        msg_id: MessageId,
        origin: &MsgSender,
        reply_id: MessageId,
    ) -> (r: Option<MessagingDuty>)
        requires
            old(self).wf(),
        ensures
            final(self).wf(),
            final(self).wrapping == old(self).wrapping,
            Self::delete_post(*old(self), *final(self), r, address, msg_id, reply_id, *origin),
    {
        let owner_check = match self.chunks.get(&address.name) {
            Ok(chunk) => {
                match chunk.check_is_owner(origin.id) {
                    Ok(()) => Ok(()),
                    Err(e) => Err(e),
                }
            },
            Err(_) => Err(NdError::NoSuchData),
        };
        match owner_check {
            Ok(()) => {
                let _ = self.chunks.delete(&address.name);
                proof {
                    Self::lemma_store_wf_after_edit(*old(self), *self, address.name);
                }
                None
            },
            Err(e) => self.ok_or_error(Err(e), msg_id, reply_id, origin),
        }
    }

    /// What granting a user's permissions leaves behind.
    pub open spec fn set_user_permissions_post(
        pre: MapStorage,
        post: MapStorage,
        duty: Option<MessagingDuty>,
        address: MapAddress,
        user: PublicKey,
        permissions: MapPermissionSet,
        version: u64,
        msg_id: MessageId,
        reply_id: MessageId,
        origin: MsgSender,
    ) -> bool {
        let err = |e: NdError|
            duty == Some(
                MessagingDuty::Send(
                    Message::CmdError {
                        error: CmdError::Data(e),
                        id: reply_id,
                        correlation_id: msg_id,
                        cmd_origin: origin.spec_address(),
                    },
                ),
            );
        let unchanged = forall|k: u64| tbl_get(post.chunks@, k) == tbl_get(pre.chunks@, k);
        match pre.spec_chunk(address) {
            None => unchanged && err(NdError::NoSuchData),
            Some(c) => if !c.spec_allows(origin.id, MapAction::ManagePermissions) {
                unchanged && err(NdError::AccessDenied)
            } else if version != c.version + 1 {
                unchanged && err(NdError::InvalidSuccessor(c.version))
            } else {
                &&& (post.spec_chunk(address) matches Some(c2) && {
                    &&& c2.version == version
                    &&& tbl_get(c2.permissions@, user.0) == Some(permissions)
                    &&& forall|u: u64|
                        u != user.0 ==> tbl_get(c2.permissions@, u) == tbl_get(c.permissions@, u)
                    &&& c2.entries@ == c.entries@
                    &&& c2.name == c.name
                    &&& c2.tag == c.tag
                    &&& c2.owner == c.owner
                })
                &&& forall|k: u64| k != address.name.0 ==> tbl_get(post.chunks@, k) == tbl_get(
                    pre.chunks@,
                    k,
                )
                &&& duty is None
            },
        }
    }

    /// Grant a user a permission set, at the next version.
    pub fn set_user_permissions(
        &mut self,
        address: MapAddress,
        user: PublicKey,
        permissions: MapPermissionSet,
        version: u64,
        msg_id: MessageId,
        origin: &MsgSender,
        reply_id: MessageId,
    ) -> (r: Option<MessagingDuty>)
        requires
            old(self).wf(),
        ensures
            final(self).wf(),
            final(self).wrapping == old(self).wrapping,
            Self::set_user_permissions_post(
                *old(self),
                *final(self),
                r,
                address,
                user,
                permissions,
                version,
                msg_id,
                reply_id,
                *origin,
            ),
    {
        let mut chunk = match self.chunks.take(&address.name) {
            Some(c) => c,
            None => {
                return self.ok_or_error(Err(NdError::NoSuchData), msg_id, reply_id, origin);
            },
        };
        proof {
            assert(tbl_has(old(self).chunks@, address.name.0));
        }
        let result = match chunk.check_permissions(MapAction::ManagePermissions, origin.id) {
            Ok(()) => chunk.set_user_permissions(user, permissions, version),
            Err(e) => Err(e),
        };
        let name = address.name;
        self.chunks.put(&name, chunk);
        proof {
            Self::lemma_store_wf_after_edit(*old(self), *self, name);
        }
        self.ok_or_error(result, msg_id, reply_id, origin)
    }

    /// What withdrawing a user's permissions leaves behind.
    pub open spec fn del_user_permissions_post(
        pre: MapStorage,
        post: MapStorage,
        duty: Option<MessagingDuty>,
        address: MapAddress,
        user: PublicKey,
        version: u64,
        msg_id: MessageId,
        reply_id: MessageId,
        origin: MsgSender,
    ) -> bool {
        let err = |e: NdError|
            duty == Some(
                MessagingDuty::Send(
                    Message::CmdError {
                        error: CmdError::Data(e),
                        id: reply_id,
                        correlation_id: msg_id,
                        cmd_origin: origin.spec_address(),
                    },
                ),
            );
        let unchanged = forall|k: u64| tbl_get(post.chunks@, k) == tbl_get(pre.chunks@, k);
        match pre.spec_chunk(address) {
            None => unchanged && err(NdError::NoSuchData),
            Some(c) => if !c.spec_allows(origin.id, MapAction::ManagePermissions) {
                unchanged && err(NdError::AccessDenied)
            } else if version != c.version + 1 {
                unchanged && err(NdError::InvalidSuccessor(c.version))
            } else if !tbl_has(c.permissions@, user.0) {
                unchanged && err(NdError::NoSuchKey)
            } else {
                &&& (post.spec_chunk(address) matches Some(c2) && {
                    &&& c2.version == version
                    &&& !tbl_has(c2.permissions@, user.0)
                    &&& forall|u: u64|
                        u != user.0 ==> tbl_get(c2.permissions@, u) == tbl_get(c.permissions@, u)
                    &&& c2.entries@ == c.entries@
                    &&& c2.name == c.name
                    &&& c2.tag == c.tag
                    &&& c2.owner == c.owner
                })
                &&& forall|k: u64| k != address.name.0 ==> tbl_get(post.chunks@, k) == tbl_get(
                    pre.chunks@,
                    k,
                )
                &&& duty is None
            },
        }
    }

    /// Withdraw a user's permission set, at the next version.
    pub fn delete_user_permissions(
        &mut self,
        address: MapAddress,
        user: PublicKey,
        version: u64,
        msg_id: MessageId,
        origin: &MsgSender,
        reply_id: MessageId,
    ) -> (r: Option<MessagingDuty>)
        requires
            old(self).wf(),
        ensures
            final(self).wf(),
            final(self).wrapping == old(self).wrapping,
            Self::del_user_permissions_post(
                *old(self),
                *final(self),
                r,
                address,
                user,
                version,
                msg_id,
                reply_id,
                *origin,
            ),
    {
        let mut chunk = match self.chunks.take(&address.name) {
            Some(c) => c,
            None => {
                return self.ok_or_error(Err(NdError::NoSuchData), msg_id, reply_id, origin);
            },
        };
        proof {
            assert(tbl_has(old(self).chunks@, address.name.0));
        }
        let result = match chunk.check_permissions(MapAction::ManagePermissions, origin.id) {
            Ok(()) => chunk.del_user_permissions(user, version),
            Err(e) => Err(e),
        };
        let name = address.name;
        self.chunks.put(&name, chunk);
        proof {
            Self::lemma_store_wf_after_edit(*old(self), *self, name);
        }
        self.ok_or_error(result, msg_id, reply_id, origin)
    }

    /// What an entry edit leaves behind: the requested changes applied in
    /// order, all or nothing, under the requester's per-action rights.
    pub open spec fn edit_entries_post(
        pre: MapStorage,
        post: MapStorage,
        duty: Option<MessagingDuty>,
        address: MapAddress,
        changes: Seq<MapEntryAction>,
        msg_id: MessageId,
        reply_id: MessageId,
        origin: MsgSender,
    ) -> bool {
        let err = |e: NdError|
            duty == Some(
                MessagingDuty::Send(
                    Message::CmdError {
                        error: CmdError::Data(e),
                        id: reply_id,
                        correlation_id: msg_id,
                        cmd_origin: origin.spec_address(),
                    },
                ),
            );
        let unchanged = forall|k: u64|
            tbl_get(post.chunks@, k) =~= tbl_get(pre.chunks@, k);
        match pre.spec_chunk(address) {
            None => unchanged && err(NdError::NoSuchData),
            Some(c) => {
                let outcome = spec_apply_actions(
                    view_entries(c.entries@),
                    changes,
                    c.spec_allows(origin.id, MapAction::Insert),
                    c.spec_allows(origin.id, MapAction::Update),
                    c.spec_allows(origin.id, MapAction::Delete),
                );
                match outcome {
                    Result::Err(e) => unchanged && err(e),
                    Result::Ok(es) => {
                        &&& (post.spec_chunk(address) matches Some(c2) && {
                            &&& view_entries(c2.entries@) == es
                            &&& c2.version == c.version
                            &&& c2.permissions@ == c.permissions@
                            &&& c2.name == c.name
                            &&& c2.tag == c.tag
                            &&& c2.owner == c.owner
                        })
                        &&& forall|k: u64|
                            k != address.name.0 ==> tbl_get(post.chunks@, k) == tbl_get(
                                pre.chunks@,
                                k,
                            )
                        &&& duty is None
                    },
                }
            },
        }
    }

    /// Apply entry changes to a stored map.
    pub fn edit_entries(
        &mut self,
        address: MapAddress,
        changes: &Vec<MapEntryAction>,
        msg_id: MessageId,
        origin: &MsgSender,
        reply_id: MessageId,
    ) -> (r: Option<MessagingDuty>)
        requires
            old(self).wf(),
        ensures
            final(self).wf(),
            final(self).wrapping == old(self).wrapping,
            Self::edit_entries_post(
                *old(self),
                *final(self),
                r,
                address,
                changes@,
                msg_id,
                reply_id,
                *origin,
            ),
    {
        let mut chunk = match self.chunks.take(&address.name) {
            Some(c) => c,
            None => {
                return self.ok_or_error(Err(NdError::NoSuchData), msg_id, reply_id, origin);
            },
        };
        proof {
            assert(tbl_has(old(self).chunks@, address.name.0));
        }
        let result = chunk.mutate_entries(changes, origin.id);
        let name = address.name;
        self.chunks.put(&name, chunk);
        proof {
            Self::lemma_store_wf_after_edit(*old(self), *self, name);
        }
        self.ok_or_error(result, msg_id, reply_id, origin)
    }

    /// Apply a write request: create, delete, permission management, or an
    /// entry edit, each with its exact outcome.
    pub fn write(
        &mut self,
        write: MapWrite,
        msg_id: MessageId,
        origin: &MsgSender,
        reply_id: MessageId,
    ) -> (r: Option<MessagingDuty>)
        requires
            old(self).wf(),
        ensures
            final(self).wf(),
            final(self).wrapping == old(self).wrapping,
            match write {
                MapWrite::New(data) => Self::create_post(
                    *old(self),
                    *final(self),
                    r,
                    data,
                    msg_id,
                    reply_id,
                    *origin,
                ),
                MapWrite::Delete(a) => Self::delete_post(
                    *old(self),
                    *final(self),
                    r,
                    a,
                    msg_id,
                    reply_id,
                    *origin,
                ),
                MapWrite::SetUserPermissions { address, user, permissions, version } => Self::set_user_permissions_post(
                    *old(self),
                    *final(self),
                    r,
                    address,
                    user,
                    permissions,
                    version,
                    msg_id,
                    reply_id,
                    *origin,
                ),
                MapWrite::DelUserPermissions { address, user, version } => Self::del_user_permissions_post(
                    *old(self),
                    *final(self),
                    r,
                    address,
                    user,
                    version,
                    msg_id,
                    reply_id,
                    *origin,
                ),
                MapWrite::Edit { address, ref changes } => Self::edit_entries_post(
                    *old(self),
                    *final(self),
                    r,
                    address,
                    changes@,
                    msg_id,
                    reply_id,
                    *origin,
                ),
            },
    {
        match write {
            MapWrite::New(data) => self.create(data, msg_id, origin, reply_id),
            MapWrite::Delete(address) => self.delete(address, msg_id, origin, reply_id),
            MapWrite::SetUserPermissions { address, user, permissions, version } => self
                .set_user_permissions(
                address,
                user,
                permissions,
                version,
                msg_id,
                origin,
                reply_id,
            ),
            MapWrite::DelUserPermissions { address, user, version } => self
                .delete_user_permissions(address, user, version, msg_id, origin, reply_id),
            MapWrite::Edit { address, changes } => self.edit_entries(
                address,
                &changes,
                msg_id,
                origin,
                reply_id,
            ),
        }
    }

    /// Get one user's permission set.
    fn list_user_permissions(
        &self,
        address: MapAddress,
        user: PublicKey,
        msg_id: MessageId,
        origin: &MsgSender,
        reply_id: MessageId,
    ) -> (r: Option<MessagingDuty>)
        requires
            self.wf(),
        ensures
            (r matches Some(d) && d matches MessagingDuty::Send(m) && m matches
                Message::QueryResponse { response, id, correlation_id, query_origin } && id
                == reply_id && correlation_id == msg_id && query_origin == origin.spec_address()
                && self.list_user_permissions_response_ok(address, user, origin.id, response)),
    {
        let result = match self.get_chunk(&address, origin, MapAction::Read) {
            Ok(chunk) => {
                match chunk.permissions.get(user.0) {
                    Some(ps) => Ok(*ps),
                    None => Err(NdError::NoSuchKey),
                }
            },
            Err(e) => Err(e),
        };
        self.respond(QueryResponse::ListMapUserPermissions(result), msg_id, reply_id, origin)
    }
}

} // verus!
