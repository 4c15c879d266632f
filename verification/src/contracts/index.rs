//! Per-account lists of identifiers.

use vstd::prelude::*;
use crate::account::AccountId;
use crate::table::{key_views, Table};

verus! {

/// The identifiers listed for `user`; none where the account is unknown.
pub open spec fn ids_of(m: Map<AccountId, Seq<u32>>, user: AccountId) -> Seq<u32> {
    if m.contains_key(user) {
        m[user]
    } else {
        Seq::empty()
    }
}

/// The lists with `id` added at the end of the list of `user`.
pub open spec fn with_id(m: Map<AccountId, Seq<u32>>, user: AccountId, id: u32) -> Map<
    AccountId,
    Seq<u32>,
> {
    m.insert(user, ids_of(m, user).push(id))
}

/// The lists that name `lists[i]` for `users[i]`.
pub open spec fn listing(users: Seq<AccountId>, lists: Seq<Vec<u32>>) -> Map<
    AccountId,
    Seq<u32>,
> {
    Map::new(|a: AccountId| users.contains(a), |a: AccountId| lists[users.index_of(a)]@)
}

/// Whether `users` and `lists` name one list for each account, and no
/// account twice.
pub open spec fn listing_admissible(users: Seq<AccountId>, lists: Seq<Vec<u32>>) -> bool {
    users.len() == lists.len() && users.no_duplicates()
}

/// A copy of a list of identifiers.
pub fn copy_ids(ids: &Vec<u32>) -> (r: Vec<u32>)
    ensures
        r@ == ids@,
{
    let mut out: Vec<u32> = Vec::new();
    let mut i: usize = 0;
    while i < ids.len()
        invariant
            i <= ids.len(),
            out@ == ids@.take(i as int),
        decreases ids.len() - i,
    {
        out.push(ids[i]);
        assert(ids@.take(i + 1) =~= ids@.take(i as int).push(ids@[i as int]));
        i += 1;
    }
    assert(ids@.take(ids@.len() as int) =~= ids@);
    out
}

/// For each account, the identifiers listed for it, in the order in which
/// they were added.
pub struct IdIndex {
    table: Table<AccountId, Vec<u32>>,
}

impl View for IdIndex {
    type V = Map<AccountId, Seq<u32>>;

    closed spec fn view(&self) -> Map<AccountId, Seq<u32>> {
        Map::new(|a: AccountId| self.table.contains(a), |a: AccountId| self.table.get(a)@)
    }
}

impl IdIndex {
    /// The object's own consistency; every constructor gives it and every
    /// operation keeps it.
    pub closed spec fn wf(&self) -> bool {
        self.table.wf()
    }

    /// An index without lists.
    pub fn new() -> (r: Self)
        ensures
            r.wf(),
            r@ == Map::<AccountId, Seq<u32>>::empty(),
    {
        let r = IdIndex { table: Table::new() };
        assert(r@ =~= Map::<AccountId, Seq<u32>>::empty());
        r
    }

    /// The index that lists `lists[i]` for `users[i]`, where there is one
    /// list for each account and no account occurs twice.
    pub fn from_entries(users: Vec<AccountId>, lists: Vec<Vec<u32>>) -> (r: Option<Self>)
        ensures
            match r {
                Some(index) => listing_admissible(users@, lists@) && index.wf() && index@
                    == listing(users@, lists@),
                None => !listing_admissible(users@, lists@),
            },
    {
        assert(key_views(users@) =~= users@);
        match Table::from_entries(users, lists) {
            Some(table) => {
                let index = IdIndex { table };
                assert(index@ =~= listing(users@, lists@));
                Some(index)
            },
            None => None,
        }
    }

    /// The accounts and their lists, in the order in which the accounts
    /// were first listed.
    pub fn into_entries(self) -> (r: (Vec<AccountId>, Vec<Vec<u32>>))
        requires
            self.wf(),
        ensures
            listing_admissible(r.0@, r.1@),
            listing(r.0@, r.1@) == self@,
    {
        let ghost view = self@;
        let ghost table = self.table;
        let r = self.table.into_entries();
        assert(key_views(r.0@) =~= r.0@);
        assert(listing(r.0@, r.1@) =~= view);
        r
    }

    /// The identifiers listed for `user`.
    pub fn listed(&self, user: AccountId) -> (r: Vec<u32>)
        requires
            self.wf(),
        ensures
            r@ == ids_of(self@, user),
    {
        match self.table.lookup(&user) {
            Some(ids) => copy_ids(ids),
            None => Vec::new(),
        }
    }

    /// Adds `id` at the end of the list of `user`.
    pub fn add(&mut self, user: AccountId, id: u32)
        requires
            old(self).wf(),
        ensures
            final(self).wf(),
            final(self)@ == with_id(old(self)@, user, id),
    {
        let mut ids = self.listed(user);
        ids.push(id);
        let ghost added = ids;
        self.table.insert(user, ids);
        assert forall|a: AccountId| self.table.contains(a) == (old(self).table.contains(a) || a
            == user) by {
            assert(self.table.map().contains_key(a) == self.table.contains(a));
            assert(old(self).table.map().contains_key(a) == old(self).table.contains(a));
        }
        assert forall|a: AccountId| self.table.contains(a) implies self.table.get(a) == (if a
            == user {
            added
        } else {
            old(self).table.get(a)
        }) by {
            assert(self.table.map()[a] == self.table.get(a));
            if a != user {
                assert(old(self).table.map()[a] == old(self).table.get(a));
            }
        }
        assert(self@ =~= with_id(old(self)@, user, id));
    }
}

} // verus!
