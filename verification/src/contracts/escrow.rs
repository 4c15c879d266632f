//! Escrow between a seller and a buyer.
//!
//! An escrow is Active until the buyer releases it (or its release time
//! comes), the seller refunds it, or either party disputes it.

use vstd::prelude::*;
use crate::account::AccountId;
use crate::contracts::index::{ids_of, listing, listing_admissible, with_id, IdIndex};

verus! {

/// The state of an escrow.
#[derive(Clone, Copy, Debug, PartialEq, Eq, Structural)]
pub enum EscrowStatus {
    Active,
    Released,
    Refunded,
    Disputed,
}

/// One escrow.
#[derive(Clone, Debug, PartialEq, Eq)]
pub struct EscrowInfo {
    pub seller: AccountId,
    pub buyer: AccountId,
    pub amount: u128,
    pub token: String,
    pub status: EscrowStatus,
    /// The time from which anyone may release the escrow, if there is one.
    pub release_time: Option<u64>,
    /// Why the escrow was disputed, once it was.
    pub dispute_reason: Option<String>,
    pub created_at: u64,
}

/// An escrow was created.
#[derive(Clone, Debug, PartialEq, Eq)]
pub struct EscrowCreated {
    pub escrow_id: u32,
    pub seller: AccountId,
    pub buyer: AccountId,
    pub amount: u128,
    pub token: String,
}

/// An escrow was released to the seller.
#[derive(Clone, Copy, Debug, PartialEq, Eq)]
pub struct EscrowReleased {
    pub escrow_id: u32,
    pub released_by: AccountId,
}

/// An escrow was refunded to the buyer.
#[derive(Clone, Copy, Debug, PartialEq, Eq)]
pub struct EscrowRefunded {
    pub escrow_id: u32,
    pub refunded_by: AccountId,
}

/// An escrow was disputed.
#[derive(Clone, Debug, PartialEq, Eq)]
pub struct EscrowDisputed {
    pub escrow_id: u32,
    pub disputed_by: AccountId,
    pub reason: String,
}

/// Any notification of the contract.
#[derive(Clone, Debug, PartialEq, Eq)]
pub enum EscrowEvent {
    Created(EscrowCreated),
    Released(EscrowReleased),
    Refunded(EscrowRefunded),
    Disputed(EscrowDisputed),
}

/// The state of the contract.
pub struct EscrowBook {
    /// Every escrow ever created; an escrow's identifier is its position.
    pub escrows: Seq<EscrowInfo>,
    /// For each account, the escrows it sells or buys in.
    pub user_escrows: Map<AccountId, Seq<u32>>,
    /// The notifications that were produced and not yet taken.
    pub events: Seq<EscrowEvent>,
}

impl EscrowBook {
    /// Whether there is a record with identifier `id`.
    pub open spec fn has(self, id: u32) -> bool {
        (id as int) < self.escrows.len()
    }

    /// The escrow with identifier `id`.
    pub open spec fn escrow(self, id: u32) -> EscrowInfo {
        self.escrows[id as int]
    }

    /// Whether record `id` exists and is Active.
    pub open spec fn is_active(self, id: u32) -> bool {
        self.has(id) && self.escrow(id).status == EscrowStatus::Active
    }

    /// Whether `caller` may create an escrow between `seller` and `buyer`.
    pub open spec fn can_create(
        caller: AccountId,
        seller: AccountId,
        buyer: AccountId,
        amount: u128,
    )
        -> bool {
        amount > 0 && (caller == seller || caller == buyer)
    }

    /// Whether the release time of escrow `id` has come at `now`.
    pub open spec fn release_time_passed(self, id: u32, now: u64) -> bool {
        self.escrow(id).release_time matches Some(t) && now >= t
    }

    /// Whether `caller` may release escrow `id` at `now`: the buyer at any
    /// time, anyone from the release time on.
    pub open spec fn can_release(self, caller: AccountId, id: u32, now: u64) -> bool {
        &&& self.is_active(id)
        &&& (caller == self.escrow(id).buyer || self.release_time_passed(id, now))
    }

    /// Whether `caller` may refund escrow `id`: only the seller.
    pub open spec fn can_refund(self, caller: AccountId, id: u32) -> bool {
        self.is_active(id) && caller == self.escrow(id).seller
    }

    /// Whether `caller` may dispute escrow `id`: the buyer or the seller.
    pub open spec fn can_dispute(self, caller: AccountId, id: u32) -> bool {
        &&& self.is_active(id)
        &&& (caller == self.escrow(id).buyer || caller == self.escrow(id).seller)
    }

    /// The state with escrow `id` in `status`, and `event` told.
    pub open spec fn moved(self, id: u32, status: EscrowStatus, event: EscrowEvent) -> EscrowBook {
        EscrowBook {
            escrows: self.escrows.update(id as int, EscrowInfo { status, ..self.escrow(id) }),
            events: self.events.push(event),
            ..self
        }
    }
}

/// The state of the contract as plain values, to be stored and to be read
/// back.
#[derive(Clone, Debug, PartialEq, Eq)]
pub struct EscrowBookParts {
    /// The escrows, in the order of their identifiers.
    pub escrows: Vec<EscrowInfo>,
    /// The accounts for which escrows are listed.
    pub users: Vec<AccountId>,
    /// The escrows listed for each account, in the same order.
    pub user_escrows: Vec<Vec<u32>>,
    /// The notifications that were not yet taken.
    pub events: Vec<EscrowEvent>,
}

impl EscrowBookParts {
    /// Whether the values describe a state of the contract.
    pub open spec fn admissible(self) -> bool {
        self.escrows@.len() <= u32::MAX && listing_admissible(self.users@, self.user_escrows@)
    }

    /// Whether `book` is the state that the values describe.
    pub open spec fn describes(self, book: EscrowBook) -> bool {
        &&& book.escrows == self.escrows@
        &&& book.user_escrows == listing(self.users@, self.user_escrows@)
        &&& book.events == self.events@
    }
}

/// The contract.
pub struct Escrow {
    escrows: Vec<EscrowInfo>,
    user_escrows: IdIndex,
    events: Vec<EscrowEvent>,
}

impl View for Escrow {
    type V = EscrowBook;

    closed spec fn view(&self) -> EscrowBook {
        EscrowBook {
            escrows: self.escrows@,
            user_escrows: self.user_escrows@,
            events: self.events@,
        }
    }
}

impl Escrow {
    /// The object's own consistency; every constructor gives it and every
    /// operation keeps it.
    pub closed spec fn wf(&self) -> bool {
        &&& self.user_escrows.wf()
        &&& self.escrows@.len() <= u32::MAX
    }

    /// A contract without escrows.
    pub fn new() -> (r: Self)
        ensures
            r.wf(),
            r@.escrows == Seq::<EscrowInfo>::empty(),
            r@.user_escrows == Map::<AccountId, Seq<u32>>::empty(),
            r@.events == Seq::<EscrowEvent>::empty(),
    {
        Escrow { escrows: Vec::new(), user_escrows: IdIndex::new(), events: Vec::new() }
    }

    /// The state of the contract as plain values.
    pub fn into_parts(self) -> (parts: EscrowBookParts)
        requires
            self.wf(),
        ensures
            parts.admissible(),
            parts.describes(self@),
    {
        let (users, user_escrows) = self.user_escrows.into_entries();
        EscrowBookParts { escrows: self.escrows, users, user_escrows, events: self.events }
    }

    /// The contract in the state that `parts` describe, where they
    /// describe one.
    pub fn from_parts(parts: EscrowBookParts) -> (r: Option<Self>)
        ensures
            match r {
                Some(contract) => parts.admissible() && contract.wf() && parts.describes(
                    contract@,
                ),
                None => !parts.admissible(),
            },
    {
        if parts.escrows.len() > u32::MAX as usize {
            return None;
        }
        match IdIndex::from_entries(parts.users, parts.user_escrows) {
            Some(user_escrows) => Some(
                Escrow { escrows: parts.escrows, user_escrows, events: parts.events },
            ),
            None => None,
        }
    }

    /// The number of escrows created so far.
    pub fn escrow_count(&self) -> (n: u32)
        requires
            self.wf(),
        ensures
            n == self@.escrows.len(),
    {
        self.escrows.len() as u32
    }

    /// Adds escrow `escrow_id` to the list of `user`.
    fn add_user_escrow(&mut self, user: AccountId, escrow_id: u32)
        requires
            old(self).wf(),
        ensures
            final(self).wf(),
            final(self)@ == (EscrowBook {
                user_escrows: with_id(old(self)@.user_escrows, user, escrow_id),
                ..old(self)@
            }),
    {
        self.user_escrows.add(user, escrow_id);
    }

    /// Creates an Active escrow between `seller` and `buyer` and returns
    /// its identifier. It is listed for the seller and then for the buyer.
    pub fn create_escrow(
        &mut self,
        caller: AccountId,
        now: u64,
        seller: AccountId,
        buyer: AccountId,
        amount: u128,
        token: String,
        release_time: Option<u64>,
    ) -> (escrow_id: u32)
        requires
            old(self).wf(),
            EscrowBook::can_create(caller, seller, buyer, amount),
            old(self)@.escrows.len() < u32::MAX,
        ensures
            final(self).wf(),
            escrow_id == old(self)@.escrows.len(),
            final(self)@.escrows == old(self)@.escrows.push(
                EscrowInfo {
                    seller,
                    buyer,
                    amount,
                    token,
                    status: EscrowStatus::Active,
                    release_time,
                    dispute_reason: None,
                    created_at: now,
                },
            ),
            final(self)@.user_escrows == with_id(
                with_id(old(self)@.user_escrows, seller, escrow_id),
                buyer,
                escrow_id,
            ),
            final(self)@.events == old(self)@.events.push(
                EscrowEvent::Created(EscrowCreated { escrow_id, seller, buyer, amount, token }),
            ),
    {
        let escrow_id = self.escrows.len() as u32;
        let event = EscrowEvent::Created(
            EscrowCreated { escrow_id, seller, buyer, amount, token: token.clone() },
        );
        let escrow_info = EscrowInfo {
            seller,
            buyer,
            amount,
            token,
            status: EscrowStatus::Active,
            release_time,
            dispute_reason: None,
            created_at: now,
        };
        self.escrows.push(escrow_info);
        self.add_user_escrow(seller, escrow_id);
        self.add_user_escrow(buyer, escrow_id);
        self.events.push(event);
        escrow_id
    }

    /// Whether `caller` may release escrow `escrow_id` at `now`.
    pub fn can_release(&self, caller: AccountId, now: u64, escrow_id: u32) -> (r: bool)
        requires
            self.wf(),
        ensures
            r == self@.can_release(caller, escrow_id, now),
    {
        if (escrow_id as usize) >= self.escrows.len() {
            return false;
        }
        let escrow = &self.escrows[escrow_id as usize];
        if escrow.status != EscrowStatus::Active {
            return false;
        }
        let is_buyer = caller.same(&escrow.buyer);
        let time_passed = match escrow.release_time {
            Some(release_time) => now >= release_time,
            None => false,
        };
        is_buyer || time_passed
    }

    /// Releases escrow `escrow_id` to the seller, for `caller`.
    pub fn release(&mut self, caller: AccountId, now: u64, escrow_id: u32) -> (r: bool)
        requires
            old(self).wf(),
            old(self)@.can_release(caller, escrow_id, now),
        ensures
            final(self).wf(),
            r,
            final(self)@ == old(self)@.moved(
                escrow_id,
                EscrowStatus::Released,
                EscrowEvent::Released(EscrowReleased { escrow_id, released_by: caller }),
            ),
    {
        self.escrows[escrow_id as usize].status = EscrowStatus::Released;
        self.events.push(EscrowEvent::Released(EscrowReleased { escrow_id, released_by: caller }));
        assert(self@.escrows =~= old(self)@.moved(
            escrow_id,
            EscrowStatus::Released,
            EscrowEvent::Released(EscrowReleased { escrow_id, released_by: caller }),
        ).escrows);
        true
    }

    /// Whether `caller` may refund escrow `escrow_id`.
    pub fn can_refund(&self, caller: AccountId, escrow_id: u32) -> (r: bool)
        requires
            self.wf(),
        ensures
            r == self@.can_refund(caller, escrow_id),
    {
        if (escrow_id as usize) >= self.escrows.len() {
            return false;
        }
        let escrow = &self.escrows[escrow_id as usize];
        escrow.status == EscrowStatus::Active && caller.same(&escrow.seller)
    }

    /// Refunds escrow `escrow_id` to the buyer, for the seller `caller`.
    pub fn refund(&mut self, caller: AccountId, escrow_id: u32) -> (r: bool)
        requires
            old(self).wf(),
            old(self)@.can_refund(caller, escrow_id),
        ensures
            final(self).wf(),
            r,
            final(self)@ == old(self)@.moved(
                escrow_id,
                EscrowStatus::Refunded,
                EscrowEvent::Refunded(EscrowRefunded { escrow_id, refunded_by: caller }),
            ),
    {
        self.escrows[escrow_id as usize].status = EscrowStatus::Refunded;
        self.events.push(EscrowEvent::Refunded(EscrowRefunded { escrow_id, refunded_by: caller }));
        assert(self@.escrows =~= old(self)@.moved(
            escrow_id,
            EscrowStatus::Refunded,
            EscrowEvent::Refunded(EscrowRefunded { escrow_id, refunded_by: caller }),
        ).escrows);
        true
    }

    /// Whether `caller` may dispute escrow `escrow_id`.
    pub fn can_dispute(&self, caller: AccountId, escrow_id: u32) -> (r: bool)
        requires
            self.wf(),
        ensures
            r == self@.can_dispute(caller, escrow_id),
    {
        if (escrow_id as usize) >= self.escrows.len() {
            return false;
        }
        let escrow = &self.escrows[escrow_id as usize];
        escrow.status == EscrowStatus::Active && (caller.same(&escrow.buyer) || caller.same(
            &escrow.seller,
        ))
    }

    /// Disputes escrow `escrow_id` for `caller`, with `reason`, which is
    /// kept with the escrow.
    pub fn dispute(&mut self, caller: AccountId, escrow_id: u32, reason: String) -> (r: bool)
        requires
            old(self).wf(),
            old(self)@.can_dispute(caller, escrow_id),
        ensures
            final(self).wf(),
            r,
            final(self)@.escrows == old(self)@.escrows.update(
                escrow_id as int,
                EscrowInfo {
                    status: EscrowStatus::Disputed,
                    dispute_reason: Some(reason),
                    ..old(self)@.escrow(escrow_id)
                },
            ),
            final(self)@.user_escrows == old(self)@.user_escrows,
            final(self)@.events == old(self)@.events.push(
                EscrowEvent::Disputed(EscrowDisputed { escrow_id, disputed_by: caller, reason }),
            ),
    {
        self.escrows[escrow_id as usize].status = EscrowStatus::Disputed;
        self.escrows[escrow_id as usize].dispute_reason = Some(reason.clone());
        self.events.push(
            EscrowEvent::Disputed(EscrowDisputed { escrow_id, disputed_by: caller, reason }),
        );
        assert(self@.escrows =~= old(self)@.escrows.update(
            escrow_id as int,
            EscrowInfo {
                status: EscrowStatus::Disputed,
                dispute_reason: Some(reason),
                ..old(self)@.escrow(escrow_id)
            },
        ));
        true
    }

    /// Escrow `escrow_id`, if it exists.
    pub fn get_escrow(&self, escrow_id: u32) -> (r: Option<
        (AccountId, AccountId, u128, String, EscrowStatus, Option<u64>, Option<String>, u64),
    >)
        requires
            self.wf(),
        ensures
            r == (if self@.has(escrow_id) {
                Some(
                    (
                        self@.escrow(escrow_id).seller,
                        self@.escrow(escrow_id).buyer,
                        self@.escrow(escrow_id).amount,
                        self@.escrow(escrow_id).token,
                        self@.escrow(escrow_id).status,
                        self@.escrow(escrow_id).release_time,
                        self@.escrow(escrow_id).dispute_reason,
                        self@.escrow(escrow_id).created_at,
                    ),
                )
            } else {
                None
            }),
    {
        if (escrow_id as usize) >= self.escrows.len() {
            return None;
        }
        let escrow = &self.escrows[escrow_id as usize];
        let dispute_reason = match &escrow.dispute_reason {
            Some(reason) => Some(reason.clone()),
            None => None,
        };
        Some(
            (
                escrow.seller,
                escrow.buyer,
                escrow.amount,
                escrow.token.clone(),
                escrow.status,
                escrow.release_time,
                dispute_reason,
                escrow.created_at,
            ),
        )
    }

    /// The escrows that `user` sells or buys in, oldest first.
    pub fn get_user_escrows(&self, user: AccountId) -> (r: Vec<u32>)
        requires
            self.wf(),
        ensures
            r@ == ids_of(self@.user_escrows, user),
    {
        self.user_escrows.listed(user)
    }

    /// The notifications produced since they were last taken, oldest
    /// first. Nothing else changes.
    pub fn take_events(&mut self) -> (events: Vec<EscrowEvent>)
        requires
            old(self).wf(),
        ensures
            final(self).wf(),
            events@ == old(self)@.events,
            final(self)@ == (EscrowBook { events: Seq::empty(), ..old(self)@ }),
    {
        let mut taken: Vec<EscrowEvent> = Vec::new();
        std::mem::swap(&mut self.events, &mut taken);
        taken
    }
}

/// An escrow that was released, refunded or disputed admits no further
/// release, refund or dispute.
pub proof fn settled_escrow_stays_settled(book: EscrowBook, caller: AccountId, id: u32, now: u64)
    requires
        book.has(id),
        book.escrow(id).status != EscrowStatus::Active,
    ensures
        !book.can_release(caller, id, now),
        !book.can_refund(caller, id),
        !book.can_dispute(caller, id),
{
}

} // verus!
