//! Hash-locked swaps between two parties.
//!
//! The initiator offers a swap under a hash lock and a deadline. The swap is
//! locked, then completed by whoever presents the secret behind the lock
//! before the deadline; after the deadline the initiator takes it back.

use vstd::prelude::*;
use crate::account::{bytes_equal, AccountId};
use crate::contracts::index::{ids_of, listing, listing_admissible, with_id, IdIndex};

verus! {

/// The state of a hash-locked swap.
#[derive(Clone, Copy, Debug, PartialEq, Eq, Structural)]
pub enum SwapStatus {
    Initiated,
    Locked,
    Completed,
    Refunded,
    Expired,
}

/// One hash-locked swap.
#[derive(Clone, Debug, PartialEq, Eq)]
pub struct SwapInfo {
    pub initiator: AccountId,
    pub recipient: AccountId,
    pub source_token: String,
    pub source_amount: u128,
    pub target_token: String,
    pub target_amount: u128,
    pub target_chain: String,
    pub hash_lock: [u8; 32],
    /// The time from which the swap counts as expired.
    pub timeout: u64,
    pub status: SwapStatus,
    /// The secret, once it was presented.
    pub secret: Option<[u8; 32]>,
}

/// A swap was offered.
#[derive(Clone, Debug, PartialEq, Eq)]
pub struct SwapInitiated {
    pub swap_id: u32,
    pub initiator: AccountId,
    pub recipient: AccountId,
    pub source_token: String,
    pub source_amount: u128,
    pub target_token: String,
    pub target_amount: u128,
    pub target_chain: String,
    pub hash_lock: [u8; 32],
    pub timeout: u64,
}

/// A swap was locked.
#[derive(Clone, Copy, Debug, PartialEq, Eq)]
pub struct SwapLocked {
    pub swap_id: u32,
    pub locker: AccountId,
}

/// A swap was completed with the secret.
#[derive(Clone, Copy, Debug, PartialEq, Eq)]
pub struct SwapCompleted {
    pub swap_id: u32,
    pub claimer: AccountId,
    pub secret: [u8; 32],
}

/// A swap was taken back.
#[derive(Clone, Copy, Debug, PartialEq, Eq)]
pub struct SwapRefunded {
    pub swap_id: u32,
    pub refunder: AccountId,
}

/// Any notification of the contract.
#[derive(Clone, Debug, PartialEq, Eq)]
pub enum SwapEvent {
    Initiated(SwapInitiated),
    Locked(SwapLocked),
    Completed(SwapCompleted),
    Refunded(SwapRefunded),
}

/// The hash of a secret. The lock is the secret itself.
pub open spec fn spec_hash_secret(secret: [u8; 32]) -> [u8; 32] {
    secret
}

/// The state of the contract.
pub struct SwapBook {
    /// Every swap ever offered; a swap's identifier is its position.
    pub swaps: Seq<SwapInfo>,
    /// For each account, the swaps it initiated or is to receive.
    pub user_swaps: Map<AccountId, Seq<u32>>,
    /// The notifications that were produced and not yet taken.
    pub events: Seq<SwapEvent>,
}

impl SwapBook {
    /// Whether there is a record with identifier `id`.
    pub open spec fn has(self, id: u32) -> bool {
        (id as int) < self.swaps.len()
    }

    /// The swap with identifier `id`.
    pub open spec fn swap(self, id: u32) -> SwapInfo {
        self.swaps[id as int]
    }

    /// Whether swap `id` is neither completed nor taken back.
    pub open spec fn is_open(self, id: u32) -> bool {
        self.swap(id).status == SwapStatus::Initiated || self.swap(id).status
            == SwapStatus::Locked
    }

    /// The status under which swap `id` is reported at `now`: an open swap
    /// past its deadline is reported as Expired.
    pub open spec fn reported_status(self, id: u32, now: u64) -> SwapStatus {
        if now >= self.swap(id).timeout && self.is_open(id) {
            SwapStatus::Expired
        } else {
            self.swap(id).status
        }
    }

    /// What an offer must satisfy.
    pub open spec fn offer_valid(
        source_amount: u128,
        target_amount: u128,
        target_chain: Seq<char>,
        timeout_duration: u64,
    ) -> bool {
        &&& source_amount > 0
        &&& target_amount > 0
        &&& target_chain.len() > 0
        &&& timeout_duration > 0
    }

    /// Whether swap `id` may be locked at `now`.
    pub open spec fn can_lock(self, id: u32, now: u64) -> bool {
        &&& self.has(id)
        &&& self.swap(id).status == SwapStatus::Initiated
        &&& now < self.swap(id).timeout
    }

    /// Whether `secret` completes swap `id` at `now`.
    pub open spec fn can_complete(self, id: u32, now: u64, secret: [u8; 32]) -> bool {
        &&& self.has(id)
        &&& self.swap(id).status == SwapStatus::Locked
        &&& now < self.swap(id).timeout
        &&& spec_hash_secret(secret) == self.swap(id).hash_lock
    }

    /// Whether `caller` may take swap `id` back at `now`.
    pub open spec fn can_refund(self, caller: AccountId, id: u32, now: u64) -> bool {
        &&& self.has(id)
        &&& self.is_open(id)
        &&& now >= self.swap(id).timeout
        &&& caller == self.swap(id).initiator
    }

    /// The state with swap `id` in `status`, and `event` told.
    pub open spec fn moved(self, id: u32, status: SwapStatus, event: SwapEvent) -> SwapBook {
        SwapBook {
            swaps: self.swaps.update(id as int, SwapInfo { status, ..self.swap(id) }),
            events: self.events.push(event),
            ..self
        }
    }
}

/// The state of the contract as plain values, to be stored and to be read
/// back.
#[derive(Clone, Debug, PartialEq, Eq)]
pub struct SwapBookParts {
    /// The swaps, in the order of their identifiers.
    pub swaps: Vec<SwapInfo>,
    /// The accounts for which swaps are listed.
    pub users: Vec<AccountId>,
    /// The swaps listed for each account, in the same order.
    pub user_swaps: Vec<Vec<u32>>,
    /// The notifications that were not yet taken.
    pub events: Vec<SwapEvent>,
}

impl SwapBookParts {
    /// Whether the values describe a state of the contract.
    pub open spec fn admissible(self) -> bool {
        self.swaps@.len() <= u32::MAX && listing_admissible(self.users@, self.user_swaps@)
    }

    /// Whether `book` is the state that the values describe.
    pub open spec fn describes(self, book: SwapBook) -> bool {
        &&& book.swaps == self.swaps@
        &&& book.user_swaps == listing(self.users@, self.user_swaps@)
        &&& book.events == self.events@
    }
}

/// The contract.
pub struct CrossChainSwap {
    swaps: Vec<SwapInfo>,
    user_swaps: IdIndex,
    events: Vec<SwapEvent>,
}

impl View for CrossChainSwap {
    type V = SwapBook;

    closed spec fn view(&self) -> SwapBook {
        SwapBook { swaps: self.swaps@, user_swaps: self.user_swaps@, events: self.events@ }
    }
}

impl CrossChainSwap {
    /// The object's own consistency; every constructor gives it and every
    /// operation keeps it.
    pub closed spec fn wf(&self) -> bool {
        &&& self.user_swaps.wf()
        &&& self.swaps@.len() <= u32::MAX
    }

    /// A contract without swaps.
    pub fn new() -> (r: Self)
        ensures
            r.wf(),
            r@.swaps == Seq::<SwapInfo>::empty(),
            r@.user_swaps == Map::<AccountId, Seq<u32>>::empty(),
            r@.events == Seq::<SwapEvent>::empty(),
    {
        CrossChainSwap { swaps: Vec::new(), user_swaps: IdIndex::new(), events: Vec::new() }
    }

    /// The state of the contract as plain values.
    pub fn into_parts(self) -> (parts: SwapBookParts)
        requires
            self.wf(),
        ensures
            parts.admissible(),
            parts.describes(self@),
    {
        let (users, user_swaps) = self.user_swaps.into_entries();
        SwapBookParts { swaps: self.swaps, users, user_swaps, events: self.events }
    }

    /// The contract in the state that `parts` describe, where they
    /// describe one.
    pub fn from_parts(parts: SwapBookParts) -> (r: Option<Self>)
        ensures
            match r {
                Some(contract) => parts.admissible() && contract.wf() && parts.describes(
                    contract@,
                ),
                None => !parts.admissible(),
            },
    {
        if parts.swaps.len() > u32::MAX as usize {
            return None;
        }
        match IdIndex::from_entries(parts.users, parts.user_swaps) {
            Some(user_swaps) => Some(
                CrossChainSwap { swaps: parts.swaps, user_swaps, events: parts.events },
            ),
            None => None,
        }
    }

    /// The number of swaps offered so far.
    pub fn swap_count(&self) -> (n: u32)
        requires
            self.wf(),
        ensures
            n == self@.swaps.len(),
    {
        self.swaps.len() as u32
    }

    /// The hash of a secret.
    fn hash_secret(secret: &[u8; 32]) -> (hash: [u8; 32])
        ensures
            hash == spec_hash_secret(*secret),
    {
        *secret
    }

    /// Whether `secret` opens `hash_lock`.
    pub fn verify_secret(&self, hash_lock: [u8; 32], secret: [u8; 32]) -> (r: bool)
        ensures
            r == (spec_hash_secret(secret) == hash_lock),
    {
        let hash = Self::hash_secret(&secret);
        bytes_equal(&hash, &hash_lock)
    }

    /// Adds swap `swap_id` to the list of `user`.
    fn add_user_swap(&mut self, user: AccountId, swap_id: u32)
        requires
            old(self).wf(),
        ensures
            final(self).wf(),
            final(self)@ == (SwapBook {
                user_swaps: with_id(old(self)@.user_swaps, user, swap_id),
                ..old(self)@
            }),
    {
        self.user_swaps.add(user, swap_id);
    }

    /// Offers a swap from `caller` to `recipient` and returns its
    /// identifier. The swap expires at `now` plus `timeout_duration`; it
    /// is listed for the caller and then for the recipient.
    pub fn initiate_swap(
        &mut self,
        caller: AccountId,
        now: u64,
        recipient: AccountId,
        source_token: String,
        source_amount: u128,
        target_token: String,
        target_amount: u128,
        target_chain: String,
        hash_lock: [u8; 32],
        timeout_duration: u64,
    ) -> (swap_id: u32)
        requires
            old(self).wf(),
            SwapBook::offer_valid(source_amount, target_amount, target_chain@, timeout_duration),
            old(self)@.swaps.len() < u32::MAX,
            now + timeout_duration <= u64::MAX,
        ensures
            final(self).wf(),
            swap_id == old(self)@.swaps.len(),
            final(self)@.swaps == old(self)@.swaps.push(
                SwapInfo {
                    initiator: caller,
                    recipient,
                    source_token,
                    source_amount,
                    target_token,
                    target_amount,
                    target_chain,
                    hash_lock,
                    timeout: (now + timeout_duration) as u64,
                    status: SwapStatus::Initiated,
                    secret: None,
                },
            ),
            final(self)@.user_swaps == with_id(
                with_id(old(self)@.user_swaps, caller, swap_id),
                recipient,
                swap_id,
            ),
            final(self)@.events == old(self)@.events.push(
                SwapEvent::Initiated(
                    SwapInitiated {
                        swap_id,
                        initiator: caller,
                        recipient,
                        source_token,
                        source_amount,
                        target_token,
                        target_amount,
                        target_chain,
                        hash_lock,
                        timeout: (now + timeout_duration) as u64,
                    },
                ),
            ),
    {
        let swap_id = self.swaps.len() as u32;
        let timeout: u64 = now + timeout_duration;
        let event = SwapEvent::Initiated(
            SwapInitiated {
                swap_id,
                initiator: caller,
                recipient,
                source_token: source_token.clone(),
                source_amount,
                target_token: target_token.clone(),
                target_amount,
                target_chain: target_chain.clone(),
                hash_lock,
                timeout,
            },
        );
        let swap_info = SwapInfo {
            initiator: caller,
            recipient,
            source_token,
            source_amount,
            target_token,
            target_amount,
            target_chain,
            hash_lock,
            timeout,
            status: SwapStatus::Initiated,
            secret: None,
        };
        self.swaps.push(swap_info);
        self.add_user_swap(caller, swap_id);
        self.add_user_swap(recipient, swap_id);
        self.events.push(event);
        swap_id
    }

    /// Whether swap `swap_id` may be locked at `now`.
    pub fn can_lock(&self, now: u64, swap_id: u32) -> (r: bool)
        requires
            self.wf(),
        ensures
            r == self@.can_lock(swap_id, now),
    {
        if (swap_id as usize) >= self.swaps.len() {
            return false;
        }
        let swap = &self.swaps[swap_id as usize];
        swap.status == SwapStatus::Initiated && now < swap.timeout
    }

    /// Locks swap `swap_id` for `caller`.
    pub fn lock_swap(&mut self, caller: AccountId, now: u64, swap_id: u32) -> (r: bool)
        requires
            old(self).wf(),
            old(self)@.can_lock(swap_id, now),
        ensures
            final(self).wf(),
            r,
            final(self)@ == old(self)@.moved(
                swap_id,
                SwapStatus::Locked,
                SwapEvent::Locked(SwapLocked { swap_id, locker: caller }),
            ),
    {
        self.swaps[swap_id as usize].status = SwapStatus::Locked;
        self.events.push(SwapEvent::Locked(SwapLocked { swap_id, locker: caller }));
        assert(self@.swaps =~= old(self)@.moved(
            swap_id,
            SwapStatus::Locked,
            SwapEvent::Locked(SwapLocked { swap_id, locker: caller }),
        ).swaps);
        true
    }

    /// Whether `secret` completes swap `swap_id` at `now`.
    pub fn can_complete(&self, now: u64, swap_id: u32, secret: [u8; 32]) -> (r: bool)
        requires
            self.wf(),
        ensures
            r == self@.can_complete(swap_id, now, secret),
    {
        if (swap_id as usize) >= self.swaps.len() {
            return false;
        }
        let swap = &self.swaps[swap_id as usize];
        swap.status == SwapStatus::Locked && now < swap.timeout && self.verify_secret(
            swap.hash_lock,
            secret,
        )
    }

    /// Completes swap `swap_id` for `caller` with `secret`, which is kept
    /// with the swap.
    pub fn complete_swap(
        &mut self,
        caller: AccountId,
        now: u64,
        swap_id: u32,
        secret: [u8; 32],
    ) -> (r: bool)
        requires
            old(self).wf(),
            old(self)@.can_complete(swap_id, now, secret),
        ensures
            final(self).wf(),
            r,
            final(self)@.swaps == old(self)@.swaps.update(
                swap_id as int,
                SwapInfo {
                    status: SwapStatus::Completed,
                    secret: Some(secret),
                    ..old(self)@.swap(swap_id)
                },
            ),
            final(self)@.user_swaps == old(self)@.user_swaps,
            final(self)@.events == old(self)@.events.push(
                SwapEvent::Completed(SwapCompleted { swap_id, claimer: caller, secret }),
            ),
    {
        self.swaps[swap_id as usize].status = SwapStatus::Completed;
        self.swaps[swap_id as usize].secret = Some(secret);
        self.events.push(SwapEvent::Completed(SwapCompleted { swap_id, claimer: caller, secret }));
        assert(self@.swaps =~= old(self)@.swaps.update(
            swap_id as int,
            SwapInfo {
                status: SwapStatus::Completed,
                secret: Some(secret),
                ..old(self)@.swap(swap_id)
            },
        ));
        true
    }

    /// Whether `caller` may take swap `swap_id` back at `now`.
    pub fn can_refund(&self, caller: AccountId, now: u64, swap_id: u32) -> (r: bool)
        requires
            self.wf(),
        ensures
            r == self@.can_refund(caller, swap_id, now),
    {
        if (swap_id as usize) >= self.swaps.len() {
            return false;
        }
        let swap = &self.swaps[swap_id as usize];
        (swap.status == SwapStatus::Initiated || swap.status == SwapStatus::Locked) && now
            >= swap.timeout && caller.same(&swap.initiator)
    }

    /// Takes swap `swap_id` back for its initiator `caller`.
    pub fn refund_swap(&mut self, caller: AccountId, now: u64, swap_id: u32) -> (r: bool)
        requires
            old(self).wf(),
            old(self)@.can_refund(caller, swap_id, now),
        ensures
            final(self).wf(),
            r,
            final(self)@ == old(self)@.moved(
                swap_id,
                SwapStatus::Refunded,
                SwapEvent::Refunded(SwapRefunded { swap_id, refunder: caller }),
            ),
    {
        self.swaps[swap_id as usize].status = SwapStatus::Refunded;
        self.events.push(SwapEvent::Refunded(SwapRefunded { swap_id, refunder: caller }));
        assert(self@.swaps =~= old(self)@.moved(
            swap_id,
            SwapStatus::Refunded,
            SwapEvent::Refunded(SwapRefunded { swap_id, refunder: caller }),
        ).swaps);
        true
    }

    /// Swap `swap_id` as it is reported at `now`, if it exists: an open
    /// swap past its deadline is reported as Expired, though it is stored
    /// as it was.
    pub fn get_swap(&self, now: u64, swap_id: u32) -> (r: Option<
        (
            AccountId,
            AccountId,
            String,
            u128,
            String,
            u128,
            String,
            [u8; 32],
            u64,
            SwapStatus,
            Option<[u8; 32]>,
        ),
    >)
        requires
            self.wf(),
        ensures
            r == (if self@.has(swap_id) {
                Some(
                    (
                        self@.swap(swap_id).initiator,
                        self@.swap(swap_id).recipient,
                        self@.swap(swap_id).source_token,
                        self@.swap(swap_id).source_amount,
                        self@.swap(swap_id).target_token,
                        self@.swap(swap_id).target_amount,
                        self@.swap(swap_id).target_chain,
                        self@.swap(swap_id).hash_lock,
                        self@.swap(swap_id).timeout,
                        self@.reported_status(swap_id, now),
                        self@.swap(swap_id).secret,
                    ),
                )
            } else {
                None
            }),
    {
        if (swap_id as usize) >= self.swaps.len() {
            return None;
        }
        let swap = &self.swaps[swap_id as usize];
        let status = if now >= swap.timeout && (swap.status == SwapStatus::Initiated || swap.status
            == SwapStatus::Locked) {
            SwapStatus::Expired
        } else {
            swap.status
        };
        Some(
            (
                swap.initiator,
                swap.recipient,
                swap.source_token.clone(),
                swap.source_amount,
                swap.target_token.clone(),
                swap.target_amount,
                swap.target_chain.clone(),
                swap.hash_lock,
                swap.timeout,
                status,
                swap.secret,
            ),
        )
    }

    /// The swaps that `user` initiated or is to receive, oldest first.
    pub fn get_user_swaps(&self, user: AccountId) -> (r: Vec<u32>)
        requires
            self.wf(),
        ensures
            r@ == ids_of(self@.user_swaps, user),
    {
        self.user_swaps.listed(user)
    }

    /// The notifications produced since they were last taken, oldest
    /// first. Nothing else changes.
    pub fn take_events(&mut self) -> (events: Vec<SwapEvent>)
        requires
            old(self).wf(),
        ensures
            final(self).wf(),
            events@ == old(self)@.events,
            final(self)@ == (SwapBook { events: Seq::empty(), ..old(self)@ }),
    {
        let mut taken: Vec<SwapEvent> = Vec::new();
        std::mem::swap(&mut self.events, &mut taken);
        taken
    }
}

/// A swap that was completed or taken back is not open: it can be neither
/// locked, nor completed, nor taken back again.
pub proof fn closed_swap_stays_closed(
    book: SwapBook,
    caller: AccountId,
    id: u32,
    now: u64,
    secret: [u8; 32],
)
    requires
        book.has(id),
        book.swap(id).status == SwapStatus::Completed || book.swap(id).status
            == SwapStatus::Refunded,
    ensures
        !book.can_lock(id, now),
        !book.can_complete(id, now, secret),
        !book.can_refund(caller, id, now),
{
}

/// At no time can a swap be both completed and taken back: completion
/// needs a time before the deadline, taking back a time from it on.
pub proof fn completion_excludes_refund(
    book: SwapBook,
    caller: AccountId,
    id: u32,
    now: u64,
    secret: [u8; 32],
)
    ensures
        !(book.can_complete(id, now, secret) && book.can_refund(caller, id, now)),
        !(book.can_lock(id, now) && book.can_refund(caller, id, now)),
{
}

} // verus!
