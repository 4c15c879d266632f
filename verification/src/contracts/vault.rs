//! Vaults that hold balances of several assets for a set of beneficiaries.

use vstd::prelude::*;
use crate::account::AccountId;
use crate::contracts::index::{ids_of, listing, listing_admissible, with_id, IdIndex};
use crate::table::Table;

verus! {

/// One vault.
#[derive(Clone, Debug, PartialEq, Eq)]
pub struct VaultInfo {
    pub name: String,
    /// The accounts that may withdraw.
    pub beneficiaries: Vec<AccountId>,
    pub threshold: u32,
    /// The balance of each asset that was ever deposited.
    pub tokens: Table<String, u128>,
    pub creator: AccountId,
}

impl VaultInfo {
    /// The balance of `token`; zero for an asset that was never deposited.
    pub open spec fn balance(self, token: Seq<char>) -> u128 {
        if self.tokens.contains(token) {
            self.tokens.get(token)
        } else {
            0
        }
    }

    /// Whether `account` is among the beneficiaries.
    pub open spec fn has_beneficiary(self, account: AccountId) -> bool {
        self.beneficiaries@.contains(account)
    }

    /// Whether `other` is this vault with the balance of `token` set to
    /// `balance`.
    pub open spec fn same_but_balance(self, other: VaultInfo, token: Seq<char>, balance: u128)
        -> bool {
        &&& other.name == self.name
        &&& other.beneficiaries == self.beneficiaries
        &&& other.threshold == self.threshold
        &&& other.creator == self.creator
        &&& other.tokens.wf()
        &&& other.tokens.map() == self.tokens.map().insert(token, balance)
    }
}

/// A vault was created.
#[derive(Clone, Debug, PartialEq, Eq)]
pub struct VaultCreated {
    pub vault_id: u32,
    pub creator: AccountId,
    pub name: String,
}

/// An amount was deposited into a vault.
#[derive(Clone, Debug, PartialEq, Eq)]
pub struct Deposit {
    pub vault_id: u32,
    pub from: AccountId,
    pub token: String,
    pub amount: u128,
}

/// An amount was withdrawn from a vault.
#[derive(Clone, Debug, PartialEq, Eq)]
pub struct Withdrawal {
    pub vault_id: u32,
    pub to: AccountId,
    pub token: String,
    pub amount: u128,
}

/// Any notification of the contract.
#[derive(Clone, Debug, PartialEq, Eq)]
pub enum VaultEvent {
    Created(VaultCreated),
    Deposit(Deposit),
    Withdrawal(Withdrawal),
}

/// The state of the contract.
pub struct VaultBook {
    /// Every vault ever created; a vault's identifier is its position.
    pub vaults: Seq<VaultInfo>,
    /// For each account, the vaults it created.
    pub owner_vaults: Map<AccountId, Seq<u32>>,
    /// The notifications that were produced and not yet taken.
    pub events: Seq<VaultEvent>,
}

impl VaultBook {
    /// Whether there is a record with identifier `id`.
    pub open spec fn has(self, id: u32) -> bool {
        (id as int) < self.vaults.len()
    }

    /// The vault with identifier `id`.
    pub open spec fn vault(self, id: u32) -> VaultInfo {
        self.vaults[id as int]
    }

    /// The balance of `token` in vault `id`; zero where there is no such
    /// vault.
    pub open spec fn balance(self, id: u32, token: Seq<char>) -> u128 {
        if self.has(id) {
            self.vault(id).balance(token)
        } else {
            0
        }
    }

    /// What holds of every state that the operations reach.
    pub open spec fn wf(self) -> bool {
        &&& self.vaults.len() <= u32::MAX
        &&& forall|i: int| 0 <= i < self.vaults.len() ==> (#[trigger] self.vaults[i]).tokens.wf()
    }

    /// What a new vault must satisfy: at least one beneficiary, and a
    /// threshold of at least one and at most their number.
    pub open spec fn can_create(beneficiaries: Seq<AccountId>, threshold: u32) -> bool {
        &&& beneficiaries.len() > 0
        &&& threshold > 0
        &&& threshold <= (beneficiaries.len() as u32)
    }

    /// Whether `amount` of `token` may be deposited into vault `id`.
    pub open spec fn can_deposit(self, id: u32, token: Seq<char>, amount: u128) -> bool {
        self.has(id) && self.vault(id).balance(token) + amount <= u128::MAX
    }

    /// Whether `caller` may withdraw `amount` of `token` from vault `id`.
    pub open spec fn can_withdraw(self, caller: AccountId, id: u32, token: Seq<char>, amount: u128)
        -> bool {
        &&& self.has(id)
        &&& self.vault(id).has_beneficiary(caller)
        &&& self.vault(id).balance(token) >= amount
    }

    /// Whether `other` is this state with the balance of `token` in vault
    /// `id` set to `balance` and `event` told.
    pub open spec fn same_but_balance(
        self,
        other: VaultBook,
        id: u32,
        token: Seq<char>,
        balance: u128,
        event: VaultEvent,
    ) -> bool {
        &&& other.vaults.len() == self.vaults.len()
        &&& self.vault(id).same_but_balance(other.vault(id), token, balance)
        &&& forall|j: int|
            0 <= j < self.vaults.len() && j != id ==> other.vaults[j] == self.vaults[j]
        &&& other.owner_vaults == self.owner_vaults
        &&& other.events == self.events.push(event)
    }
}

/// The state of the contract as plain values, to be stored and to be read
/// back.
#[derive(Clone, Debug, PartialEq, Eq)]
pub struct VaultBookParts {
    /// The vaults, in the order of their identifiers.
    pub vaults: Vec<VaultInfo>,
    /// The accounts for which vaults are listed.
    pub owners: Vec<AccountId>,
    /// The vaults that each of them created, in the same order.
    pub owner_vaults: Vec<Vec<u32>>,
    /// The notifications that were not yet taken.
    pub events: Vec<VaultEvent>,
}

impl VaultBookParts {
    /// Whether the values describe a state of the contract.
    pub open spec fn admissible(self) -> bool {
        &&& self.vaults@.len() <= u32::MAX
        &&& forall|i: int|
            0 <= i < self.vaults@.len() ==> (#[trigger] self.vaults@[i]).tokens.wf()
        &&& listing_admissible(self.owners@, self.owner_vaults@)
    }

    /// Whether `book` is the state that the values describe.
    pub open spec fn describes(self, book: VaultBook) -> bool {
        &&& book.vaults == self.vaults@
        &&& book.owner_vaults == listing(self.owners@, self.owner_vaults@)
        &&& book.events == self.events@
    }
}

/// The contract.
pub struct Vault {
    vaults: Vec<VaultInfo>,
    owner_vaults: IdIndex,
    events: Vec<VaultEvent>,
}

impl View for Vault {
    type V = VaultBook;

    closed spec fn view(&self) -> VaultBook {
        VaultBook { vaults: self.vaults@, owner_vaults: self.owner_vaults@, events: self.events@ }
    }
}

/// A copy of a list of accounts.
pub fn copy_accounts(accounts: &Vec<AccountId>) -> (r: Vec<AccountId>)
    ensures
        r@ == accounts@,
{
    let mut out: Vec<AccountId> = Vec::new();
    let mut i: usize = 0;
    while i < accounts.len()
        invariant
            i <= accounts.len(),
            out@ == accounts@.take(i as int),
        decreases accounts.len() - i,
    {
        out.push(accounts[i]);
        assert(accounts@.take(i + 1) =~= accounts@.take(i as int).push(accounts@[i as int]));
        i += 1;
    }
    assert(accounts@.take(accounts@.len() as int) =~= accounts@);
    out
}

/// Whether `account` is in `accounts`.
pub fn lists_account(accounts: &Vec<AccountId>, account: &AccountId) -> (r: bool)
    ensures
        r == accounts@.contains(*account),
{
    let mut i: usize = 0;
    while i < accounts.len()
        invariant
            i <= accounts.len(),
            forall|j: int| 0 <= j < i ==> accounts@[j] != *account,
        decreases accounts.len() - i,
    {
        if accounts[i].same(account) {
            return true;
        }
        i += 1;
    }
    false
}

impl Vault {
    /// The object's own consistency; every constructor gives it and every
    /// operation keeps it.
    pub closed spec fn wf(&self) -> bool {
        &&& self.owner_vaults.wf()
        &&& self@.wf()
    }

    /// What holds of every state holds of the state of a consistent
    /// contract.
    pub proof fn wf_view(&self)
        requires
            self.wf(),
        ensures
            self@.wf(),
    {
    }

    /// A contract without vaults.
    pub fn new() -> (r: Self)
        ensures
            r.wf(),
            r@.vaults == Seq::<VaultInfo>::empty(),
            r@.owner_vaults == Map::<AccountId, Seq<u32>>::empty(),
            r@.events == Seq::<VaultEvent>::empty(),
    {
        Vault { vaults: Vec::new(), owner_vaults: IdIndex::new(), events: Vec::new() }
    }

    /// The state of the contract as plain values.
    pub fn into_parts(self) -> (parts: VaultBookParts)
        requires
            self.wf(),
        ensures
            parts.admissible(),
            parts.describes(self@),
    {
        let (owners, owner_vaults) = self.owner_vaults.into_entries();
        VaultBookParts { vaults: self.vaults, owners, owner_vaults, events: self.events }
    }

    /// The contract in the state that `parts` describe, where they
    /// describe one.
    pub fn from_parts(parts: VaultBookParts) -> (r: Option<Self>)
        ensures
            match r {
                Some(contract) => parts.admissible() && contract.wf() && parts.describes(
                    contract@,
                ),
                None => !parts.admissible(),
            },
    {
        if parts.vaults.len() > u32::MAX as usize {
            return None;
        }
        let mut i: usize = 0;
        while i < parts.vaults.len()
            invariant
                i <= parts.vaults@.len(),
                forall|k: int| 0 <= k < i ==> (#[trigger] parts.vaults@[k]).tokens.wf(),
            decreases parts.vaults@.len() - i,
        {
            if !parts.vaults[i].tokens.is_wf() {
                return None;
            }
            i += 1;
        }
        match IdIndex::from_entries(parts.owners, parts.owner_vaults) {
            Some(owner_vaults) => Some(
                Vault { vaults: parts.vaults, owner_vaults, events: parts.events },
            ),
            None => None,
        }
    }

    /// The number of vaults created so far.
    pub fn vault_count(&self) -> (n: u32)
        requires
            self.wf(),
        ensures
            n == self@.vaults.len(),
    {
        self.vaults.len() as u32
    }

    /// Creates an empty vault for `caller` and returns its identifier.
    pub fn create_vault(
        &mut self,
        caller: AccountId,
        name: String,
        beneficiaries: Vec<AccountId>,
        threshold: u32,
    ) -> (vault_id: u32)
        requires
            old(self).wf(),
            VaultBook::can_create(beneficiaries@, threshold),
            old(self)@.vaults.len() < u32::MAX,
        ensures
            final(self).wf(),
            vault_id == old(self)@.vaults.len(),
            final(self)@.vaults.len() == old(self)@.vaults.len() + 1,
            forall|j: int|
                0 <= j < old(self)@.vaults.len() ==> final(self)@.vaults[j] == old(self)@.vaults[j],
            final(self)@.vault(vault_id).name == name,
            final(self)@.vault(vault_id).beneficiaries == beneficiaries,
            final(self)@.vault(vault_id).threshold == threshold,
            final(self)@.vault(vault_id).creator == caller,
            final(self)@.vault(vault_id).tokens.map() == Map::<Seq<char>, u128>::empty(),
            final(self)@.owner_vaults == with_id(old(self)@.owner_vaults, caller, vault_id),
            final(self)@.events == old(self)@.events.push(
                VaultEvent::Created(VaultCreated { vault_id, creator: caller, name }),
            ),
    {
        let vault_id = self.vaults.len() as u32;
        let event = VaultEvent::Created(
            VaultCreated { vault_id, creator: caller, name: name.clone() },
        );
        let vault_info = VaultInfo {
            name,
            beneficiaries,
            threshold,
            tokens: Table::new(),
            creator: caller,
        };
        self.vaults.push(vault_info);
        self.owner_vaults.add(caller, vault_id);
        self.events.push(event);
        vault_id
    }

    /// Whether `amount` of `token` may be deposited into vault `vault_id`.
    pub fn can_deposit(&self, vault_id: u32, token: &String, amount: u128) -> (r: bool)
        requires
            self.wf(),
        ensures
            r == self@.can_deposit(vault_id, token@, amount),
    {
        if (vault_id as usize) >= self.vaults.len() {
            return false;
        }
        let current_balance = self.balance_of(vault_id, token);
        amount <= u128::MAX - current_balance
    }

    /// Adds `amount` to the balance of `token` in vault `vault_id`, for
    /// `caller`.
    pub fn deposit(&mut self, caller: AccountId, vault_id: u32, token: String, amount: u128)
        requires
            old(self).wf(),
            old(self)@.can_deposit(vault_id, token@, amount),
        ensures
            final(self).wf(),
            old(self)@.same_but_balance(
                final(self)@,
                vault_id,
                token@,
                (old(self)@.balance(vault_id, token@) + amount) as u128,
                VaultEvent::Deposit(Deposit { vault_id, from: caller, token, amount }),
            ),
    {
        let index = vault_id as usize;
        let current_balance = self.balance_of(vault_id, &token);
        let event = VaultEvent::Deposit(
            Deposit { vault_id, from: caller, token: token.clone(), amount },
        );
        self.vaults[index].tokens.insert(token, current_balance + amount);
        self.events.push(event);
    }

    /// Whether `caller` may withdraw `amount` of `token` from vault
    /// `vault_id`.
    pub fn can_withdraw(
        &self,
        caller: AccountId,
        vault_id: u32,
        token: &String,
        amount: u128,
    ) -> (r: bool)
        requires
            self.wf(),
        ensures
            r == self@.can_withdraw(caller, vault_id, token@, amount),
    {
        if (vault_id as usize) >= self.vaults.len() {
            return false;
        }
        let vault = &self.vaults[vault_id as usize];
        if !lists_account(&vault.beneficiaries, &caller) {
            return false;
        }
        self.balance_of(vault_id, token) >= amount
    }

    /// Takes `amount` from the balance of `token` in vault `vault_id`, for
    /// the beneficiary `caller`, to be sent to `destination`.
    pub fn withdraw(
        &mut self,
        caller: AccountId,
        vault_id: u32,
        token: String,
        amount: u128,
        destination: AccountId,
    ) -> (r: bool)
        requires
            old(self).wf(),
            old(self)@.can_withdraw(caller, vault_id, token@, amount),
        ensures
            final(self).wf(),
            r,
            old(self)@.same_but_balance(
                final(self)@,
                vault_id,
                token@,
                (old(self)@.balance(vault_id, token@) - amount) as u128,
                VaultEvent::Withdrawal(Withdrawal { vault_id, to: destination, token, amount }),
            ),
    {
        let index = vault_id as usize;
        let current_balance = self.balance_of(vault_id, &token);
        let event = VaultEvent::Withdrawal(
            Withdrawal { vault_id, to: destination, token: token.clone(), amount },
        );
        self.vaults[index].tokens.insert(token, current_balance - amount);
        self.events.push(event);
        true
    }

    /// The name, the beneficiaries, the threshold and the creator of vault
    /// `vault_id`, if it exists.
    pub fn get_vault(&self, vault_id: u32) -> (r: Option<(String, Vec<AccountId>, u32, AccountId)>)
        requires
            self.wf(),
        ensures
            match r {
                Some(t) => self@.has(vault_id) && t.0 == self@.vault(vault_id).name && t.1@
                    == self@.vault(vault_id).beneficiaries@ && t.2 == self@.vault(
                    vault_id,
                ).threshold && t.3 == self@.vault(vault_id).creator,
                None => !self@.has(vault_id),
            },
    {
        if (vault_id as usize) >= self.vaults.len() {
            return None;
        }
        let vault = &self.vaults[vault_id as usize];
        Some(
            (
                vault.name.clone(),
                copy_accounts(&vault.beneficiaries),
                vault.threshold,
                vault.creator,
            ),
        )
    }

    /// The balance of `token` in vault `vault_id`; zero where the vault
    /// does not exist or never held the asset.
    pub fn get_vault_balance(&self, vault_id: u32, token: String) -> (balance: u128)
        requires
            self.wf(),
        ensures
            balance == self@.balance(vault_id, token@),
    {
        self.balance_of(vault_id, &token)
    }

    /// The balance of `token` in vault `vault_id`.
    fn balance_of(&self, vault_id: u32, token: &String) -> (balance: u128)
        requires
            self.wf(),
        ensures
            balance == self@.balance(vault_id, token@),
    {
        if (vault_id as usize) >= self.vaults.len() {
            return 0;
        }
        let vault = &self.vaults[vault_id as usize];
        assert(vault.tokens.wf());
        match vault.tokens.lookup(token) {
            Some(balance) => *balance,
            None => 0,
        }
    }

    /// The vaults that `user` created, oldest first.
    pub fn get_user_vaults(&self, user: AccountId) -> (r: Vec<u32>)
        requires
            self.wf(),
        ensures
            r@ == ids_of(self@.owner_vaults, user),
    {
        self.owner_vaults.listed(user)
    }

    /// The notifications produced since they were last taken, oldest
    /// first. Nothing else changes.
    pub fn take_events(&mut self) -> (events: Vec<VaultEvent>)
        requires
            old(self).wf(),
        ensures
            final(self).wf(),
            events@ == old(self)@.events,
            final(self)@ == (VaultBook { events: Seq::empty(), ..old(self)@ }),
    {
        let mut taken: Vec<VaultEvent> = Vec::new();
        std::mem::swap(&mut self.events, &mut taken);
        taken
    }
}

/// Setting the balance of one asset in one vault changes no other balance,
/// in that vault or in any other.
pub proof fn other_balances_unchanged(
    before: VaultBook,
    after: VaultBook,
    id: u32,
    token: Seq<char>,
    balance: u128,
    event: VaultEvent,
    other_id: u32,
    other_token: Seq<char>,
)
    requires
        before.has(id),
        before.same_but_balance(after, id, token, balance, event),
        other_id != id || other_token != token,
    ensures
        after.balance(id, token) == balance,
        after.balance(other_id, other_token) == before.balance(other_id, other_token),
{
    assert(after.vault(id).tokens.map().contains_key(token));
    assert(after.vault(id).tokens.map()[token] == balance);
    if other_id == id {
        assert(after.vault(id).tokens.map().contains_key(other_token) == before.vault(
            id,
        ).tokens.map().contains_key(other_token));
        if before.vault(id).tokens.contains(other_token) {
            let held = before.vault(id).tokens.map()[other_token];
            assert(after.vault(id).tokens.map()[other_token] == held);
        }
    } else if before.has(other_id) {
        assert(after.vaults[other_id as int] == before.vaults[other_id as int]);
    }
}

} // verus!
