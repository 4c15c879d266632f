//! A registry of user tags: each tag names the address that took it first.

use vstd::prelude::*;
use crate::account::Address;
use crate::table::{key_views, Table};

verus! {

/// The tags after `caller` asked for `tag`: a free tag goes to the caller,
/// a taken one stays where it is.
pub open spec fn with_tag(tags: Map<Seq<char>, Address>, tag: Seq<char>, caller: Address) -> Map<
    Seq<char>,
    Address,
> {
    if tags.contains_key(tag) {
        tags
    } else {
        tags.insert(tag, caller)
    }
}

/// Whether `tags` and `addresses` name one address for each tag, and no
/// tag twice.
pub open spec fn tags_admissible(tags: Seq<String>, addresses: Seq<Address>) -> bool {
    tags.len() == addresses.len() && key_views(tags).no_duplicates()
}

/// The tags among which `tags[i]` names `addresses[i]`.
pub open spec fn tags_of(tags: Seq<String>, addresses: Seq<Address>) -> Map<Seq<char>, Address> {
    Map::new(
        |t: Seq<char>| key_views(tags).contains(t),
        |t: Seq<char>| addresses[key_views(tags).index_of(t)],
    )
}

/// The registry.
pub struct KeyRegistry {
    tag_to_address: Table<String, Address>,
}

impl View for KeyRegistry {
    type V = Map<Seq<char>, Address>;

    closed spec fn view(&self) -> Map<Seq<char>, Address> {
        self.tag_to_address.map()
    }
}

impl KeyRegistry {
    /// The object's own consistency; every constructor gives it and every
    /// operation keeps it.
    pub closed spec fn wf(&self) -> bool {
        self.tag_to_address.wf()
    }

    /// A registry without tags.
    pub fn new() -> (r: Self)
        ensures
            r.wf(),
            r@ == Map::<Seq<char>, Address>::empty(),
    {
        KeyRegistry { tag_to_address: Table::new() }
    }

    /// The same as `new`.
    pub fn default() -> (r: Self)
        ensures
            r.wf(),
            r@ == Map::<Seq<char>, Address>::empty(),
    {
        Self::new()
    }

    /// The tags and the address that each names, in the order in which
    /// the tags were taken.
    pub fn into_entries(self) -> (r: (Vec<String>, Vec<Address>))
        requires
            self.wf(),
        ensures
            tags_admissible(r.0@, r.1@),
            tags_of(r.0@, r.1@) == self@,
    {
        let ghost view = self@;
        let ghost table = self.tag_to_address;
        let r = self.tag_to_address.into_entries();
        assert(tags_of(r.0@, r.1@) =~= view);
        r
    }

    /// The registry in which `tags[i]` names `addresses[i]`, where there
    /// is one address for each tag and no tag occurs twice.
    pub fn from_entries(tags: Vec<String>, addresses: Vec<Address>) -> (r: Option<Self>)
        ensures
            match r {
                Some(registry) => tags_admissible(tags@, addresses@) && registry.wf()
                    && registry@ == tags_of(tags@, addresses@),
                None => !tags_admissible(tags@, addresses@),
            },
    {
        match Table::from_entries(tags, addresses) {
            Some(table) => {
                let registry = KeyRegistry { tag_to_address: table };
                assert(registry@ =~= tags_of(tags@, addresses@));
                Some(registry)
            },
            None => None,
        }
    }

    /// Takes `user_tag` for `caller`. Returns whether it did: a tag that
    /// is taken stays with the address that has it, and nothing changes.
    pub fn register_tag(&mut self, caller: Address, user_tag: String) -> (r: bool)
        requires
            old(self).wf(),
        ensures
            final(self).wf(),
            r == !old(self)@.contains_key(user_tag@),
            final(self)@ == with_tag(old(self)@, user_tag@, caller),
    {
        if self.tag_to_address.contains_key(&user_tag) {
            return false;
        }
        self.tag_to_address.insert(user_tag, caller);
        true
    }

    /// The address that took `user_tag`, if any did.
    pub fn lookup_address(&self, user_tag: String) -> (r: Option<Address>)
        requires
            self.wf(),
        ensures
            r == (if self@.contains_key(user_tag@) {
                Some(self@[user_tag@])
            } else {
                None
            }),
    {
        match self.tag_to_address.lookup(&user_tag) {
            Some(address) => Some(*address),
            None => None,
        }
    }
}

/// A tag that is taken is never given to another address: whoever asks
/// for it afterwards is refused, and it names the address that took it
/// first.
pub proof fn first_taker_keeps_tag(
    tags: Map<Seq<char>, Address>,
    tag: Seq<char>,
    first: Address,
    second: Address,
)
    ensures
        with_tag(tags, tag, first).contains_key(tag),
        with_tag(with_tag(tags, tag, first), tag, second) == with_tag(tags, tag, first),
        !tags.contains_key(tag) ==> with_tag(with_tag(tags, tag, first), tag, second)[tag]
            == first,
{
}

/// Taking a tag leaves every other tag as it was.
pub proof fn other_tags_unchanged(
    tags: Map<Seq<char>, Address>,
    tag: Seq<char>,
    caller: Address,
    other: Seq<char>,
)
    requires
        other != tag,
    ensures
        with_tag(tags, tag, caller).contains_key(other) == tags.contains_key(other),
        tags.contains_key(other) ==> with_tag(tags, tag, caller)[other] == tags[other],
{
}

} // verus!
