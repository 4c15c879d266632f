//! A registry of public keys with free-form metadata.
//!
//! A key is registered under an identifier by its owner, who may revoke it
//! or replace its metadata. A key with an expiry time is reported as
//! Expired once that time has passed, though it is stored as it was.

use vstd::prelude::*;
use crate::account::AccountId;
use crate::table::{bytes_copy, bytes_same, key_views, Table};

verus! {

/// The state of a key.
#[derive(Clone, Copy, Debug, PartialEq, Eq, Structural)]
pub enum KeyStatus {
    Active,
    Revoked,
    Expired,
}

/// One registered key.
#[derive(Clone, Debug, PartialEq, Eq)]
pub struct KeyInfo {
    pub owner: AccountId,
    pub public_key: Vec<u8>,
    pub metadata: Table<String, String>,
    pub created_at: u64,
    /// The time after which the key no longer counts, if there is one.
    pub expires_at: Option<u64>,
    pub status: KeyStatus,
}

impl KeyInfo {
    /// Whether the expiry time of the key has passed at `now`.
    pub open spec fn lapsed(self, now: u64) -> bool {
        self.expires_at matches Some(t) && now > t
    }

    /// The status under which the key is reported at `now`.
    pub open spec fn reported_status(self, now: u64) -> KeyStatus {
        if self.lapsed(now) && self.status == KeyStatus::Active {
            KeyStatus::Expired
        } else {
            self.status
        }
    }

    /// Whether the key counts at `now`: Active and not past its expiry.
    pub open spec fn usable(self, now: u64) -> bool {
        self.status == KeyStatus::Active && !self.lapsed(now)
    }

    /// Whether the metadata of the key holds `value` under `key`.
    pub open spec fn tagged(self, key: Seq<char>, value: Seq<char>) -> bool {
        self.metadata.contains(key) && self.metadata.get(key)@ == value
    }
}

/// A key was registered.
#[derive(Clone, Debug, PartialEq, Eq)]
pub struct KeyRegistered {
    pub owner: AccountId,
    pub key_id: Vec<u8>,
}

/// A key was revoked.
#[derive(Clone, Debug, PartialEq, Eq)]
pub struct KeyRevoked {
    pub owner: AccountId,
    pub key_id: Vec<u8>,
}

/// The metadata of a key was replaced.
#[derive(Clone, Debug, PartialEq, Eq)]
pub struct KeyMetadataUpdated {
    pub owner: AccountId,
    pub key_id: Vec<u8>,
}

/// Any notification of the contract.
#[derive(Clone, Debug, PartialEq, Eq)]
pub enum KeyEvent {
    Registered(KeyRegistered),
    Revoked(KeyRevoked),
    MetadataUpdated(KeyMetadataUpdated),
}

/// A notification as a value of the model.
pub enum KeyEventView {
    Registered { owner: AccountId, key_id: Seq<u8> },
    Revoked { owner: AccountId, key_id: Seq<u8> },
    MetadataUpdated { owner: AccountId, key_id: Seq<u8> },
}

impl View for KeyEvent {
    type V = KeyEventView;

    open spec fn view(&self) -> KeyEventView {
        match self {
            KeyEvent::Registered(e) => KeyEventView::Registered {
                owner: e.owner,
                key_id: e.key_id@,
            },
            KeyEvent::Revoked(e) => KeyEventView::Revoked { owner: e.owner, key_id: e.key_id@ },
            KeyEvent::MetadataUpdated(e) => KeyEventView::MetadataUpdated {
                owner: e.owner,
                key_id: e.key_id@,
            },
        }
    }
}

/// The byte strings of a list of identifiers.
pub open spec fn views(ids: Seq<Vec<u8>>) -> Seq<Seq<u8>> {
    Seq::new(ids.len(), |i: int| ids[i]@)
}

/// The notifications of a list of events.
pub open spec fn event_views(events: Seq<KeyEvent>) -> Seq<KeyEventView> {
    Seq::new(events.len(), |i: int| events[i]@)
}

/// The identifiers listed for `user`; none where the account is unknown.
pub open spec fn keys_of(m: Map<AccountId, Seq<Seq<u8>>>, user: AccountId) -> Seq<Seq<u8>> {
    if m.contains_key(user) {
        m[user]
    } else {
        Seq::empty()
    }
}

/// The lists that name `lists[i]` for `users[i]`.
pub open spec fn key_listing(users: Seq<AccountId>, lists: Seq<Vec<Vec<u8>>>) -> Map<
    AccountId,
    Seq<Seq<u8>>,
> {
    Map::new(|a: AccountId| users.contains(a), |a: AccountId| views(lists[users.index_of(a)]@))
}

/// Whether `users` and `lists` name one list for each account, and no
/// account twice.
pub open spec fn key_listing_admissible(users: Seq<AccountId>, lists: Seq<Vec<Vec<u8>>>) -> bool {
    users.len() == lists.len() && users.no_duplicates()
}

/// The state of the contract.
pub struct KeyBook {
    /// The identifiers of the registered keys, in the order of
    /// registration.
    pub ids: Seq<Seq<u8>>,
    /// The key registered under each identifier, in the same order.
    pub infos: Seq<KeyInfo>,
    /// For each account, the identifiers it registered.
    pub user_keys: Map<AccountId, Seq<Seq<u8>>>,
    /// The notifications that were produced and not yet taken.
    pub events: Seq<KeyEventView>,
}

impl KeyBook {
    /// What holds of every state that the operations reach.
    pub open spec fn wf(self) -> bool {
        &&& self.ids.len() == self.infos.len()
        &&& self.ids.no_duplicates()
        &&& forall|i: int| 0 <= i < self.infos.len() ==> (#[trigger] self.infos[i]).metadata.wf()
    }

    /// Whether a key is registered under `id`.
    pub open spec fn has(self, id: Seq<u8>) -> bool {
        self.ids.contains(id)
    }

    /// The place of the key `id` in the order of registration.
    pub open spec fn place(self, id: Seq<u8>) -> int {
        self.ids.index_of(id)
    }

    /// The key registered under `id`.
    pub open spec fn info(self, id: Seq<u8>) -> KeyInfo {
        self.infos[self.place(id)]
    }

    /// What a registration must satisfy.
    pub open spec fn can_register(self, key_id: Seq<u8>, public_key: Seq<u8>) -> bool {
        &&& key_id.len() > 0
        &&& public_key.len() > 0
        &&& !self.has(key_id)
    }

    /// Whether `caller` may revoke the key `id`: only its owner.
    pub open spec fn can_revoke(self, caller: AccountId, id: Seq<u8>) -> bool {
        self.has(id) && caller == self.info(id).owner
    }

    /// Whether `caller` may replace the metadata of the key `id`: only
    /// its owner, and only while the key is stored as Active.
    pub open spec fn can_update(self, caller: AccountId, id: Seq<u8>) -> bool {
        &&& self.has(id)
        &&& caller == self.info(id).owner
        &&& self.info(id).status == KeyStatus::Active
    }

    /// The identifiers, among the first `n` in the order of registration,
    /// of the keys that count at `now` and hold `value` under `key`.
    pub open spec fn matching(self, now: u64, key: Seq<char>, value: Seq<char>, n: int) -> Seq<
        Seq<u8>,
    >
        decreases n,
    {
        if n <= 0 {
            Seq::empty()
        } else {
            let rest = self.matching(now, key, value, n - 1);
            if self.infos[n - 1].usable(now) && self.infos[n - 1].tagged(key, value) {
                rest.push(self.ids[n - 1])
            } else {
                rest
            }
        }
    }
}

/// A copy of a list of identifiers.
pub fn copy_keys(ids: &Vec<Vec<u8>>) -> (r: Vec<Vec<u8>>)
    ensures
        views(r@) == views(ids@),
{
    let mut out: Vec<Vec<u8>> = Vec::new();
    let mut i: usize = 0;
    while i < ids.len()
        invariant
            i <= ids.len(),
            views(out@) == views(ids@).take(i as int),
        decreases ids.len() - i,
    {
        let ghost before = out@;
        out.push(bytes_copy(&ids[i]));
        assert(views(out@) =~= views(before).push(ids@[i as int]@));
        assert(views(ids@).take(i + 1) =~= views(ids@).take(i as int).push(ids@[i as int]@));
        i += 1;
    }
    assert(views(ids@).take(ids@.len() as int) =~= views(ids@));
    out
}

/// A copy of a table of metadata.
pub fn copy_metadata(metadata: &Table<String, String>) -> (r: Table<String, String>)
    requires
        metadata.wf(),
    ensures
        r.wf(),
        r.keys() == metadata.keys(),
        r.values() == metadata.values(),
{
    let mut out: Table<String, String> = Table::new();
    let n = metadata.len();
    let mut i: usize = 0;
    while i < n
        invariant
            i <= n,
            n == metadata.keys().len(),
            metadata.wf(),
            out.wf(),
            out.keys() == metadata.keys().take(i as int),
            out.values() == metadata.values().take(i as int),
        decreases n - i,
    {
        let key = metadata.key_at(i).clone();
        let value = metadata.value_at(i).clone();
        proof {
            if out.keys().contains(key@) {
                let j = out.keys().index_of(key@);
                assert(out.keys()[j] == key@);
                assert(metadata.keys()[j] == metadata.keys()[i as int]);
            }
        }
        out.insert(key, value);
        assert(metadata.keys().take(i + 1) =~= metadata.keys().take(i as int).push(
            metadata.keys()[i as int],
        ));
        assert(metadata.values().take(i + 1) =~= metadata.values().take(i as int).push(
            metadata.values()[i as int],
        ));
        i += 1;
    }
    assert(metadata.keys().take(n as int) =~= metadata.keys());
    assert(metadata.values().take(n as int) =~= metadata.values());
    out
}

/// For each account, the identifiers it registered, in the order of
/// registration.
pub struct KeyIndex {
    table: Table<AccountId, Vec<Vec<u8>>>,
}

impl View for KeyIndex {
    type V = Map<AccountId, Seq<Seq<u8>>>;

    closed spec fn view(&self) -> Map<AccountId, Seq<Seq<u8>>> {
        Map::new(|a: AccountId| self.table.contains(a), |a: AccountId| views(self.table.get(a)@))
    }
}

impl KeyIndex {
    /// The object's own consistency; every constructor gives it and every
    /// operation keeps it.
    pub closed spec fn wf(&self) -> bool {
        self.table.wf()
    }

    /// An index without lists.
    pub fn new() -> (r: Self)
        ensures
            r.wf(),
            r@ == Map::<AccountId, Seq<Seq<u8>>>::empty(),
    {
        let r = KeyIndex { table: Table::new() };
        assert(r@ =~= Map::<AccountId, Seq<Seq<u8>>>::empty());
        r
    }

    /// The index that lists `lists[i]` for `users[i]`, where there is one
    /// list for each account and no account occurs twice.
    pub fn from_entries(users: Vec<AccountId>, lists: Vec<Vec<Vec<u8>>>) -> (r: Option<Self>)
        ensures
            match r {
                Some(index) => key_listing_admissible(users@, lists@) && index.wf() && index@
                    == key_listing(users@, lists@),
                None => !key_listing_admissible(users@, lists@),
            },
    {
        assert(key_views(users@) =~= users@);
        match Table::from_entries(users, lists) {
            Some(table) => {
                let index = KeyIndex { table };
                assert(index@ =~= key_listing(users@, lists@));
                Some(index)
            },
            None => None,
        }
    }

    /// The accounts and their lists, in the order in which the accounts
    /// were first listed.
    pub fn into_entries(self) -> (r: (Vec<AccountId>, Vec<Vec<Vec<u8>>>))
        requires
            self.wf(),
        ensures
            key_listing_admissible(r.0@, r.1@),
            key_listing(r.0@, r.1@) == self@,
    {
        let ghost view = self@;
        let ghost table = self.table;
        let r = self.table.into_entries();
        assert(key_views(r.0@) =~= r.0@);
        assert(key_listing(r.0@, r.1@) =~= view);
        r
    }

    /// The identifiers listed for `user`.
    pub fn listed(&self, user: AccountId) -> (r: Vec<Vec<u8>>)
        requires
            self.wf(),
        ensures
            views(r@) == keys_of(self@, user),
    {
        match self.table.lookup(&user) {
            Some(ids) => copy_keys(ids),
            None => {
                let r: Vec<Vec<u8>> = Vec::new();
                assert(views(r@) =~= Seq::<Seq<u8>>::empty());
                r
            },
        }
    }

    /// Adds `key_id` at the end of the list of `user`.
    pub fn add(&mut self, user: AccountId, key_id: Vec<u8>)
        requires
            old(self).wf(),
        ensures
            final(self).wf(),
            final(self)@ == old(self)@.insert(user, keys_of(old(self)@, user).push(key_id@)),
    {
        let mut ids = self.listed(user);
        let ghost before = ids@;
        ids.push(key_id);
        assert(views(ids@) =~= views(before).push(key_id@));
        let ghost added = ids;
        self.table.insert(user, ids);
        assert forall|a: AccountId| self.table.contains(a) == (old(self).table.contains(a) || a
            == user) by {
            assert(self.table.map().contains_key(a) == self.table.contains(a));
            assert(old(self).table.map().contains_key(a) == old(self).table.contains(a));
        }
        assert forall|a: AccountId| self.table.contains(a) implies self.table.get(a) == (if a
            == user {
            added
        } else {
            old(self).table.get(a)
        }) by {
            assert(self.table.map()[a] == self.table.get(a));
            if a != user {
                assert(old(self).table.map()[a] == old(self).table.get(a));
            }
        }
        assert(self@ =~= old(self)@.insert(user, keys_of(old(self)@, user).push(key_id@)));
    }
}

/// The state of the contract as plain values, to be stored and to be read
/// back.
#[derive(Clone, Debug, PartialEq, Eq)]
pub struct KeyBookParts {
    /// The identifiers of the keys, in the order of registration.
    pub ids: Vec<Vec<u8>>,
    /// The key registered under each identifier, in the same order.
    pub infos: Vec<KeyInfo>,
    /// The accounts for which keys are listed.
    pub users: Vec<AccountId>,
    /// The identifiers that each of them registered, in the same order.
    pub user_keys: Vec<Vec<Vec<u8>>>,
    /// The notifications that were not yet taken.
    pub events: Vec<KeyEvent>,
}

impl KeyBookParts {
    /// Whether the values describe a state of the contract.
    pub open spec fn admissible(self) -> bool {
        &&& self.ids@.len() == self.infos@.len()
        &&& views(self.ids@).no_duplicates()
        &&& forall|i: int|
            0 <= i < self.infos@.len() ==> (#[trigger] self.infos@[i]).metadata.wf()
        &&& key_listing_admissible(self.users@, self.user_keys@)
    }

    /// Whether `book` is the state that the values describe.
    pub open spec fn describes(self, book: KeyBook) -> bool {
        &&& book.ids == views(self.ids@)
        &&& book.infos == self.infos@
        &&& book.user_keys == key_listing(self.users@, self.user_keys@)
        &&& book.events == event_views(self.events@)
    }
}

/// The contract.
pub struct KeyRegistry {
    keys: Table<Vec<u8>, KeyInfo>,
    user_keys: KeyIndex,
    events: Vec<KeyEvent>,
}

impl View for KeyRegistry {
    type V = KeyBook;

    closed spec fn view(&self) -> KeyBook {
        KeyBook {
            ids: self.keys.keys(),
            infos: self.keys.values(),
            user_keys: self.user_keys@,
            events: event_views(self.events@),
        }
    }
}

impl KeyRegistry {
    /// The object's own consistency; every constructor gives it and every
    /// operation keeps it.
    pub closed spec fn wf(&self) -> bool {
        &&& self.keys.wf()
        &&& self.user_keys.wf()
        &&& self@.wf()
    }

    /// What holds of every state holds of the state of a consistent
    /// contract.
    pub proof fn wf_view(&self)
        requires
            self.wf(),
        ensures
            self@.wf(),
    {
    }

    /// A registry without keys.
    pub fn new() -> (r: Self)
        ensures
            r.wf(),
            r@.ids == Seq::<Seq<u8>>::empty(),
            r@.infos == Seq::<KeyInfo>::empty(),
            r@.user_keys == Map::<AccountId, Seq<Seq<u8>>>::empty(),
            r@.events == Seq::<KeyEventView>::empty(),
    {
        let r = KeyRegistry { keys: Table::new(), user_keys: KeyIndex::new(), events: Vec::new() };
        assert(r@.events =~= Seq::<KeyEventView>::empty());
        r
    }

    /// The state of the contract as plain values.
    pub fn into_parts(self) -> (parts: KeyBookParts)
        requires
            self.wf(),
        ensures
            parts.admissible(),
            parts.describes(self@),
    {
        let (users, user_keys) = self.user_keys.into_entries();
        let (ids, infos) = self.keys.into_entries();
        assert(views(ids@) =~= key_views(ids@));
        KeyBookParts { ids, infos, users, user_keys, events: self.events }
    }

    /// The contract in the state that `parts` describe, where they
    /// describe one.
    pub fn from_parts(parts: KeyBookParts) -> (r: Option<Self>)
        ensures
            match r {
                Some(contract) => parts.admissible() && contract.wf() && parts.describes(
                    contract@,
                ),
                None => !parts.admissible(),
            },
    {
        let mut i: usize = 0;
        while i < parts.infos.len()
            invariant
                i <= parts.infos@.len(),
                forall|k: int| 0 <= k < i ==> (#[trigger] parts.infos@[k]).metadata.wf(),
            decreases parts.infos@.len() - i,
        {
            if !parts.infos[i].metadata.is_wf() {
                return None;
            }
            i += 1;
        }
        assert(views(parts.ids@) =~= key_views(parts.ids@));
        let keys = match Table::from_entries(parts.ids, parts.infos) {
            Some(table) => table,
            None => {
                return None;
            },
        };
        let user_keys = match KeyIndex::from_entries(parts.users, parts.user_keys) {
            Some(index) => index,
            None => {
                return None;
            },
        };
        Some(KeyRegistry { keys, user_keys, events: parts.events })
    }

    /// Tells of `event`.
    fn emit(&mut self, event: KeyEvent)
        ensures
            final(self).keys == old(self).keys,
            final(self).user_keys == old(self).user_keys,
            event_views(final(self).events@) == event_views(old(self).events@).push(event@),
    {
        self.events.push(event);
        assert(event_views(self.events@) =~= event_views(old(self).events@).push(event@));
    }

    /// Whether a key may be registered under `key_id` with `public_key`.
    pub fn can_register(&self, key_id: &Vec<u8>, public_key: &Vec<u8>) -> (r: bool)
        requires
            self.wf(),
        ensures
            r == self@.can_register(key_id@, public_key@),
    {
        key_id.len() > 0 && public_key.len() > 0 && !self.keys.contains_key(key_id)
    }

    /// Registers `public_key` under `key_id` for `caller`, as an Active
    /// key created at `now`.
    pub fn register_key(
        &mut self,
        caller: AccountId,
        now: u64,
        key_id: Vec<u8>,
        public_key: Vec<u8>,
        metadata: Table<String, String>,
        expires_at: Option<u64>,
    ) -> (r: bool)
        requires
            old(self).wf(),
            metadata.wf(),
            old(self)@.can_register(key_id@, public_key@),
        ensures
            final(self).wf(),
            r,
            final(self)@.ids == old(self)@.ids.push(key_id@),
            final(self)@.infos == old(self)@.infos.push(
                KeyInfo {
                    owner: caller,
                    public_key,
                    metadata,
                    created_at: now,
                    expires_at,
                    status: KeyStatus::Active,
                },
            ),
            final(self)@.user_keys == old(self)@.user_keys.insert(
                caller,
                keys_of(old(self)@.user_keys, caller).push(key_id@),
            ),
            final(self)@.events == old(self)@.events.push(
                KeyEventView::Registered { owner: caller, key_id: key_id@ },
            ),
    {
        let key_info = KeyInfo {
            owner: caller,
            public_key,
            metadata,
            created_at: now,
            expires_at,
            status: KeyStatus::Active,
        };
        self.keys.insert(bytes_copy(&key_id), key_info);
        self.user_keys.add(caller, bytes_copy(&key_id));
        self.emit(KeyEvent::Registered(KeyRegistered { owner: caller, key_id }));
        assert forall|i: int| 0 <= i < self@.infos.len() implies (
        #[trigger] self@.infos[i]).metadata.wf() by {
            if i < old(self)@.infos.len() {
                assert(self@.infos[i] == old(self)@.infos[i]);
            }
        }
        true
    }

    /// Whether `caller` may revoke the key `key_id`.
    pub fn can_revoke(&self, caller: AccountId, key_id: &Vec<u8>) -> (r: bool)
        requires
            self.wf(),
        ensures
            r == self@.can_revoke(caller, key_id@),
    {
        match self.keys.lookup(key_id) {
            Some(key) => caller.same(&key.owner),
            None => false,
        }
    }

    /// Revokes the key `key_id` for its owner `caller`.
    pub fn revoke_key(&mut self, caller: AccountId, key_id: Vec<u8>) -> (r: bool)
        requires
            old(self).wf(),
            old(self)@.can_revoke(caller, key_id@),
        ensures
            final(self).wf(),
            r,
            final(self)@.ids == old(self)@.ids,
            final(self)@.infos == old(self)@.infos.update(
                old(self)@.place(key_id@),
                KeyInfo { status: KeyStatus::Revoked, ..old(self)@.info(key_id@) },
            ),
            final(self)@.user_keys == old(self)@.user_keys,
            final(self)@.events == old(self)@.events.push(
                KeyEventView::Revoked { owner: caller, key_id: key_id@ },
            ),
    {
        let place = match self.keys.position(&key_id) {
            Some(i) => i,
            None => {
                return true;
            },
        };
        let key = self.keys.value_at_mut(place);
        key.status = KeyStatus::Revoked;
        self.emit(KeyEvent::Revoked(KeyRevoked { owner: caller, key_id }));
        assert forall|i: int| 0 <= i < self@.infos.len() implies (
        #[trigger] self@.infos[i]).metadata.wf() by {
            if i != place {
                assert(self@.infos[i] == old(self)@.infos[i]);
            } else {
                assert(old(self)@.infos[i].metadata.wf());
            }
        }
        true
    }

    /// Whether `caller` may replace the metadata of the key `key_id`.
    pub fn can_update(&self, caller: AccountId, key_id: &Vec<u8>) -> (r: bool)
        requires
            self.wf(),
        ensures
            r == self@.can_update(caller, key_id@),
    {
        match self.keys.lookup(key_id) {
            Some(key) => caller.same(&key.owner) && key.status == KeyStatus::Active,
            None => false,
        }
    }

    /// Replaces the metadata of the key `key_id`, for its owner `caller`.
    pub fn update_metadata(
        &mut self,
        caller: AccountId,
        key_id: Vec<u8>,
        metadata: Table<String, String>,
    ) -> (r: bool)
        requires
            old(self).wf(),
            metadata.wf(),
            old(self)@.can_update(caller, key_id@),
        ensures
            final(self).wf(),
            r,
            final(self)@.ids == old(self)@.ids,
            final(self)@.infos == old(self)@.infos.update(
                old(self)@.place(key_id@),
                KeyInfo { metadata, ..old(self)@.info(key_id@) },
            ),
            final(self)@.user_keys == old(self)@.user_keys,
            final(self)@.events == old(self)@.events.push(
                KeyEventView::MetadataUpdated { owner: caller, key_id: key_id@ },
            ),
    {
        let place = match self.keys.position(&key_id) {
            Some(i) => i,
            None => {
                return true;
            },
        };
        let key = self.keys.value_at_mut(place);
        key.metadata = metadata;
        self.emit(KeyEvent::MetadataUpdated(KeyMetadataUpdated { owner: caller, key_id }));
        assert forall|i: int| 0 <= i < self@.infos.len() implies (
        #[trigger] self@.infos[i]).metadata.wf() by {
            if i != place {
                assert(self@.infos[i] == old(self)@.infos[i]);
            }
        }
        true
    }

    /// The key `key_id` as it is reported at `now`, if it is registered:
    /// owner, public key, metadata, time of creation, expiry and status.
    pub fn get_key(&self, now: u64, key_id: Vec<u8>) -> (r: Option<
        (AccountId, Vec<u8>, Table<String, String>, u64, Option<u64>, KeyStatus),
    >)
        requires
            self.wf(),
        ensures
            match r {
                Some(t) => {
                    &&& self@.has(key_id@)
                    &&& t.0 == self@.info(key_id@).owner
                    &&& t.1@ == self@.info(key_id@).public_key@
                    &&& t.2.wf()
                    &&& t.2.keys() == self@.info(key_id@).metadata.keys()
                    &&& t.2.values() == self@.info(key_id@).metadata.values()
                    &&& t.3 == self@.info(key_id@).created_at
                    &&& t.4 == self@.info(key_id@).expires_at
                    &&& t.5 == self@.info(key_id@).reported_status(now)
                },
                None => !self@.has(key_id@),
            },
    {
        let place = match self.keys.position(&key_id) {
            Some(i) => i,
            None => {
                return None;
            },
        };
        let key = self.keys.value_at(place);
        assert(self@.infos[place as int].metadata.wf());
        let lapsed = match key.expires_at {
            Some(expires_at) => now > expires_at,
            None => false,
        };
        let status = if lapsed && key.status == KeyStatus::Active {
            KeyStatus::Expired
        } else {
            key.status
        };
        Some(
            (
                key.owner,
                bytes_copy(&key.public_key),
                copy_metadata(&key.metadata),
                key.created_at,
                key.expires_at,
                status,
            ),
        )
    }

    /// The identifiers that `user` registered, oldest first.
    pub fn get_user_keys(&self, user: AccountId) -> (r: Vec<Vec<u8>>)
        requires
            self.wf(),
        ensures
            views(r@) == keys_of(self@.user_keys, user),
    {
        self.user_keys.listed(user)
    }

    /// Whether `public_key` is the key registered under `key_id` and that
    /// key counts at `now`.
    pub fn verify_key(&self, now: u64, key_id: Vec<u8>, public_key: Vec<u8>) -> (r: bool)
        requires
            self.wf(),
        ensures
            r == (self@.has(key_id@) && self@.info(key_id@).usable(now) && self@.info(
                key_id@,
            ).public_key@ == public_key@),
    {
        match self.keys.lookup(&key_id) {
            Some(key) => {
                if key.status != KeyStatus::Active {
                    return false;
                }
                if let Some(expires_at) = key.expires_at {
                    if now > expires_at {
                        return false;
                    }
                }
                bytes_same(&key.public_key, &public_key)
            },
            None => false,
        }
    }

    /// The identifiers of the keys that count at `now` and whose metadata
    /// holds `value` under `key`, in the order of registration.
    pub fn lookup_by_metadata(&self, now: u64, key: String, value: String) -> (r: Vec<Vec<u8>>)
        requires
            self.wf(),
        ensures
            views(r@) == self@.matching(now, key@, value@, self@.ids.len() as int),
    {
        let mut matching_keys: Vec<Vec<u8>> = Vec::new();
        assert(views(matching_keys@) =~= Seq::<Seq<u8>>::empty());
        let n = self.keys.len();
        let mut i: usize = 0;
        while i < n
            invariant
                i <= n,
                n == self@.ids.len(),
                self.wf(),
                views(matching_keys@) == self@.matching(now, key@, value@, i as int),
            decreases n - i,
        {
            let key_info = self.keys.value_at(i);
            assert(self@.infos[i as int].metadata.wf());
            let lapsed = match key_info.expires_at {
                Some(expires_at) => now > expires_at,
                None => false,
            };
            if key_info.status == KeyStatus::Active && !lapsed {
                let hit = match key_info.metadata.lookup(&key) {
                    Some(meta_value) => *meta_value == value,
                    None => false,
                };
                if hit {
                    let ghost before = matching_keys@;
                    matching_keys.push(bytes_copy(self.keys.key_at(i)));
                    assert(views(matching_keys@) =~= views(before).push(self@.ids[i as int]));
                }
            }
            i += 1;
        }
        matching_keys
    }

    /// The notifications produced since they were last taken, oldest
    /// first. Nothing else changes.
    pub fn take_events(&mut self) -> (events: Vec<KeyEvent>)
        requires
            old(self).wf(),
        ensures
            final(self).wf(),
            event_views(events@) == old(self)@.events,
            final(self)@ == (KeyBook { events: Seq::empty(), ..old(self)@ }),
    {
        let mut taken: Vec<KeyEvent> = Vec::new();
        std::mem::swap(&mut self.events, &mut taken);
        assert(event_views(self.events@) =~= Seq::<KeyEventView>::empty());
        taken
    }
}

/// A key that is revoked, or past its expiry, counts for nothing: it
/// verifies no public key and no search finds it.
pub proof fn unusable_key_is_never_found(
    book: KeyBook,
    now: u64,
    key: Seq<char>,
    value: Seq<char>,
    place: int,
    n: int,
)
    requires
        0 <= place < n <= book.ids.len(),
        book.ids.len() == book.infos.len(),
        book.ids.no_duplicates(),
        !book.infos[place].usable(now),
    ensures
        !book.matching(now, key, value, n).contains(book.ids[place]),
    decreases n,
{
    let rest = book.matching(now, key, value, n - 1);
    if place < n - 1 {
        unusable_key_is_never_found(book, now, key, value, place, n - 1);
        if book.infos[n - 1].usable(now) && book.infos[n - 1].tagged(key, value) {
            let all = rest.push(book.ids[n - 1]);
            if all.contains(book.ids[place]) {
                let j = choose|j: int| 0 <= j < all.len() && all[j] == book.ids[place];
                assert(book.ids[n - 1] != book.ids[place]);
                assert(rest[j] == book.ids[place]);
                assert(rest.contains(book.ids[place]));
            }
        }
    } else if rest.contains(book.ids[place]) {
        found_keys_are_earlier(book, now, key, value, n - 1, book.ids[place]);
    }
}

/// A search among the first `n` keys finds only identifiers of those.
pub proof fn found_keys_are_earlier(
    book: KeyBook,
    now: u64,
    key: Seq<char>,
    value: Seq<char>,
    n: int,
    id: Seq<u8>,
)
    requires
        0 <= n <= book.ids.len(),
        book.matching(now, key, value, n).contains(id),
    ensures
        exists|j: int| 0 <= j < n && book.ids[j] == id,
    decreases n,
{
    if n > 0 {
        let rest = book.matching(now, key, value, n - 1);
        let all = book.matching(now, key, value, n);
        let k = choose|k: int| 0 <= k < all.len() && all[k] == id;
        let last_matches = book.infos[n - 1].usable(now) && book.infos[n - 1].tagged(key, value);
        if last_matches && k == rest.len() {
            assert(book.ids[n - 1] == id);
        } else {
            assert(rest[k] == id);
            assert(rest.contains(id));
            found_keys_are_earlier(book, now, key, value, n - 1, id);
        }
    }
}

} // verus!
