//! Payments streamed over time from a sender to a recipient.
//!
//! The amount of a stream becomes available to the recipient in proportion
//! to the time that has passed. Either party may cancel: what is available
//! then goes to the recipient, the rest back to the sender.

use vstd::prelude::*;
use crate::account::AccountId;
use crate::contracts::index::{ids_of, listing, listing_admissible, with_id, IdIndex};

verus! {

/// The state of a stream.
#[derive(Clone, Copy, Debug, PartialEq, Eq, Structural)]
pub enum StreamStatus {
    Active,
    Completed,
    Canceled,
}

/// One stream.
#[derive(Clone, Debug, PartialEq, Eq)]
pub struct StreamInfo {
    pub sender: AccountId,
    pub recipient: AccountId,
    pub total_amount: u128,
    pub token: String,
    pub start_time: u64,
    pub end_time: u64,
    pub last_withdrawal_time: u64,
    pub withdrawn_amount: u128,
    pub status: StreamStatus,
}

impl StreamInfo {
    /// What holds of every stream at all times.
    pub open spec fn valid(self) -> bool {
        &&& self.total_amount > 0
        &&& self.start_time < self.end_time
        &&& self.withdrawn_amount <= self.total_amount
        &&& self.start_time <= self.last_withdrawal_time
        &&& (self.status == StreamStatus::Active ==> self.last_withdrawal_time < self.end_time)
    }

    /// The time since the last withdrawal that counts at `now`: none
    /// beyond the end of the stream.
    pub open spec fn time_passed(self, now: u64) -> nat {
        let until = if now > self.end_time {
            self.end_time
        } else {
            now
        };
        if until > self.last_withdrawal_time {
            (until - self.last_withdrawal_time) as nat
        } else {
            0
        }
    }

    /// The share of the total that the time since the last withdrawal
    /// earns, rounded down.
    pub open spec fn earned(self, now: u64) -> nat {
        (self.total_amount * self.time_passed(now) / (self.end_time - self.start_time)) as nat
    }

    /// What the recipient may withdraw at `now`: the earned share, but no
    /// more than what is left of the total.
    pub open spec fn available(self, now: u64) -> nat {
        if self.status != StreamStatus::Active {
            0
        } else if now <= self.last_withdrawal_time {
            0
        } else if self.end_time - self.start_time == 0 {
            0
        } else if self.earned(now) + self.withdrawn_amount > self.total_amount {
            (self.total_amount - self.withdrawn_amount) as nat
        } else {
            self.earned(now)
        }
    }

    /// Whether the earned share can be computed in 128 bits at `now`.
    pub open spec fn computable(self, now: u64) -> bool {
        self.total_amount * self.time_passed(now) <= u128::MAX
    }

    /// The stream after a withdrawal at `now`: it is Completed where the
    /// total is reached or the end has come.
    pub open spec fn after_withdrawal(self, now: u64) -> StreamInfo {
        let withdrawn = self.withdrawn_amount + self.available(now);
        if withdrawn >= self.total_amount || now >= self.end_time {
            StreamInfo {
                withdrawn_amount: self.total_amount,
                last_withdrawal_time: now,
                status: StreamStatus::Completed,
                ..self
            }
        } else {
            StreamInfo { withdrawn_amount: withdrawn as u128, last_withdrawal_time: now, ..self }
        }
    }

    /// What goes back to the sender at a cancellation at `now`.
    pub open spec fn refundable(self, now: u64) -> nat {
        (self.total_amount - self.withdrawn_amount - self.available(now)) as nat
    }

    /// The stream after a cancellation at `now`.
    pub open spec fn after_cancellation(self, now: u64) -> StreamInfo {
        StreamInfo {
            withdrawn_amount: (self.withdrawn_amount + self.available(now)) as u128,
            status: StreamStatus::Canceled,
            ..self
        }
    }
}

impl StreamInfo {
    /// Whether the record satisfies what holds of every stream.
    pub fn is_valid(&self) -> (r: bool)
        ensures
            r == self.valid(),
    {
        self.total_amount > 0 && self.start_time < self.end_time && self.withdrawn_amount
            <= self.total_amount && self.start_time <= self.last_withdrawal_time && (self.status
            != StreamStatus::Active || self.last_withdrawal_time < self.end_time)
    }
}

/// A stream was created.
#[derive(Clone, Debug, PartialEq, Eq)]
pub struct StreamCreated {
    pub stream_id: u32,
    pub sender: AccountId,
    pub recipient: AccountId,
    pub amount: u128,
    pub token: String,
    pub duration: u64,
}

/// The recipient withdrew from a stream.
#[derive(Clone, Copy, Debug, PartialEq, Eq)]
pub struct StreamWithdrawal {
    pub stream_id: u32,
    pub recipient: AccountId,
    pub amount: u128,
}

/// A stream was canceled.
#[derive(Clone, Copy, Debug, PartialEq, Eq)]
pub struct StreamCanceled {
    pub stream_id: u32,
    pub canceled_by: AccountId,
    pub refunded_amount: u128,
}

/// A stream was paid out in full or reached its end.
#[derive(Clone, Copy, Debug, PartialEq, Eq)]
pub struct StreamCompleted {
    pub stream_id: u32,
    pub recipient: AccountId,
}

/// Any notification of the contract.
#[derive(Clone, Debug, PartialEq, Eq)]
pub enum StreamEvent {
    Created(StreamCreated),
    Withdrawal(StreamWithdrawal),
    Canceled(StreamCanceled),
    Completed(StreamCompleted),
}

/// The state of the contract.
pub struct StreamBook {
    /// Every stream ever created; a stream's identifier is its position.
    pub streams: Seq<StreamInfo>,
    /// For each account, the streams it sends.
    pub as_sender: Map<AccountId, Seq<u32>>,
    /// For each account, the streams it receives.
    pub as_recipient: Map<AccountId, Seq<u32>>,
    /// The notifications that were produced and not yet taken.
    pub events: Seq<StreamEvent>,
}

impl StreamBook {
    /// Whether there is a record with identifier `id`.
    pub open spec fn has(self, id: u32) -> bool {
        (id as int) < self.streams.len()
    }

    /// The stream with identifier `id`.
    pub open spec fn stream(self, id: u32) -> StreamInfo {
        self.streams[id as int]
    }

    /// Whether record `id` exists and is Active.
    pub open spec fn is_active(self, id: u32) -> bool {
        self.has(id) && self.stream(id).status == StreamStatus::Active
    }

    /// What holds of every state that the operations reach.
    pub open spec fn wf(self) -> bool {
        &&& self.streams.len() <= u32::MAX
        &&& forall|i: int| 0 <= i < self.streams.len() ==> (#[trigger] self.streams[i]).valid()
    }

    /// Whether `caller` may create a stream to `recipient`.
    pub open spec fn can_create(
        caller: AccountId,
        recipient: AccountId,
        amount: u128,
        duration: u64,
    )
        -> bool {
        amount > 0 && duration > 0 && caller != recipient
    }

    /// Whether `caller` may withdraw from stream `id` at `now`: only the
    /// recipient, and only where something is available.
    pub open spec fn can_withdraw(self, caller: AccountId, id: u32, now: u64) -> bool {
        &&& self.is_active(id)
        &&& caller == self.stream(id).recipient
        &&& self.stream(id).available(now) > 0
    }

    /// Whether `caller` may cancel stream `id`: the sender or the
    /// recipient.
    pub open spec fn can_cancel(self, caller: AccountId, id: u32) -> bool {
        &&& self.is_active(id)
        &&& (caller == self.stream(id).sender || caller == self.stream(id).recipient)
    }

    /// The notifications of a withdrawal from stream `id` by `caller` at
    /// `now`: of the completion first, where the stream completes.
    pub open spec fn withdrawal_events(self, caller: AccountId, id: u32, now: u64) -> Seq<
        StreamEvent,
    > {
        let paid = StreamEvent::Withdrawal(
            StreamWithdrawal {
                stream_id: id,
                recipient: caller,
                amount: self.stream(id).available(now) as u128,
            },
        );
        if self.stream(id).after_withdrawal(now).status == StreamStatus::Completed {
            seq![
                StreamEvent::Completed(StreamCompleted { stream_id: id, recipient: caller }),
                paid,
            ]
        } else {
            seq![paid]
        }
    }
}

/// The state of the contract as plain values, to be stored and to be read
/// back.
#[derive(Clone, Debug, PartialEq, Eq)]
pub struct StreamBookParts {
    /// The streams, in the order of their identifiers.
    pub streams: Vec<StreamInfo>,
    /// The accounts for which sent streams are listed.
    pub senders: Vec<AccountId>,
    /// The streams that each of them sends, in the same order.
    pub sent: Vec<Vec<u32>>,
    /// The accounts for which received streams are listed.
    pub recipients: Vec<AccountId>,
    /// The streams that each of them receives, in the same order.
    pub received: Vec<Vec<u32>>,
    /// The notifications that were not yet taken.
    pub events: Vec<StreamEvent>,
}

impl StreamBookParts {
    /// Whether the values describe a state of the contract.
    pub open spec fn admissible(self) -> bool {
        &&& self.streams@.len() <= u32::MAX
        &&& forall|i: int| 0 <= i < self.streams@.len() ==> (#[trigger] self.streams@[i]).valid()
        &&& listing_admissible(self.senders@, self.sent@)
        &&& listing_admissible(self.recipients@, self.received@)
    }

    /// Whether `book` is the state that the values describe.
    pub open spec fn describes(self, book: StreamBook) -> bool {
        &&& book.streams == self.streams@
        &&& book.as_sender == listing(self.senders@, self.sent@)
        &&& book.as_recipient == listing(self.recipients@, self.received@)
        &&& book.events == self.events@
    }
}

/// The contract.
pub struct StreamingPayments {
    streams: Vec<StreamInfo>,
    user_streams_as_sender: IdIndex,
    user_streams_as_recipient: IdIndex,
    events: Vec<StreamEvent>,
}

impl View for StreamingPayments {
    type V = StreamBook;

    closed spec fn view(&self) -> StreamBook {
        StreamBook {
            streams: self.streams@,
            as_sender: self.user_streams_as_sender@,
            as_recipient: self.user_streams_as_recipient@,
            events: self.events@,
        }
    }
}

impl StreamingPayments {
    /// The object's own consistency; every constructor gives it and every
    /// operation keeps it.
    pub closed spec fn wf(&self) -> bool {
        &&& self.user_streams_as_sender.wf()
        &&& self.user_streams_as_recipient.wf()
        &&& self@.wf()
    }

    /// What holds of every state holds of the state of a consistent
    /// contract.
    pub proof fn wf_view(&self)
        requires
            self.wf(),
        ensures
            self@.wf(),
    {
    }

    /// A contract without streams.
    pub fn new() -> (r: Self)
        ensures
            r.wf(),
            r@.streams == Seq::<StreamInfo>::empty(),
            r@.as_sender == Map::<AccountId, Seq<u32>>::empty(),
            r@.as_recipient == Map::<AccountId, Seq<u32>>::empty(),
            r@.events == Seq::<StreamEvent>::empty(),
    {
        StreamingPayments {
            streams: Vec::new(),
            user_streams_as_sender: IdIndex::new(),
            user_streams_as_recipient: IdIndex::new(),
            events: Vec::new(),
        }
    }

    /// The state of the contract as plain values.
    pub fn into_parts(self) -> (parts: StreamBookParts)
        requires
            self.wf(),
        ensures
            parts.admissible(),
            parts.describes(self@),
    {
        let (senders, sent) = self.user_streams_as_sender.into_entries();
        let (recipients, received) = self.user_streams_as_recipient.into_entries();
        StreamBookParts {
            streams: self.streams,
            senders,
            sent,
            recipients,
            received,
            events: self.events,
        }
    }

    /// The contract in the state that `parts` describe, where they
    /// describe one.
    pub fn from_parts(parts: StreamBookParts) -> (r: Option<Self>)
        ensures
            match r {
                Some(contract) => parts.admissible() && contract.wf() && parts.describes(
                    contract@,
                ),
                None => !parts.admissible(),
            },
    {
        if parts.streams.len() > u32::MAX as usize {
            return None;
        }
        let mut i: usize = 0;
        while i < parts.streams.len()
            invariant
                i <= parts.streams@.len(),
                forall|k: int| 0 <= k < i ==> (#[trigger] parts.streams@[k]).valid(),
            decreases parts.streams@.len() - i,
        {
            if !parts.streams[i].is_valid() {
                return None;
            }
            i += 1;
        }
        let user_streams_as_sender = match IdIndex::from_entries(parts.senders, parts.sent) {
            Some(index) => index,
            None => {
                return None;
            },
        };
        let user_streams_as_recipient = match IdIndex::from_entries(
            parts.recipients,
            parts.received,
        ) {
            Some(index) => index,
            None => {
                return None;
            },
        };
        Some(
            StreamingPayments {
                streams: parts.streams,
                user_streams_as_sender,
                user_streams_as_recipient,
                events: parts.events,
            },
        )
    }

    /// The number of streams created so far.
    pub fn stream_count(&self) -> (n: u32)
        requires
            self.wf(),
        ensures
            n == self@.streams.len(),
    {
        self.streams.len() as u32
    }

    /// Adds stream `stream_id` to the list of streams that `user` sends.
    fn add_user_stream_as_sender(&mut self, user: AccountId, stream_id: u32)
        requires
            old(self).wf(),
        ensures
            final(self).wf(),
            final(self)@ == (StreamBook {
                as_sender: with_id(old(self)@.as_sender, user, stream_id),
                ..old(self)@
            }),
    {
        self.user_streams_as_sender.add(user, stream_id);
    }

    /// Adds stream `stream_id` to the list of streams that `user`
    /// receives.
    fn add_user_stream_as_recipient(&mut self, user: AccountId, stream_id: u32)
        requires
            old(self).wf(),
        ensures
            final(self).wf(),
            final(self)@ == (StreamBook {
                as_recipient: with_id(old(self)@.as_recipient, user, stream_id),
                ..old(self)@
            }),
    {
        self.user_streams_as_recipient.add(user, stream_id);
    }

    /// Creates an Active stream of `amount` from `caller` to `recipient`,
    /// running from `now` for `duration`, and returns its identifier.
    pub fn create_stream(
        &mut self,
        caller: AccountId,
        now: u64,
        recipient: AccountId,
        amount: u128,
        token: String,
        duration: u64,
    ) -> (stream_id: u32)
        requires
            old(self).wf(),
            StreamBook::can_create(caller, recipient, amount, duration),
            old(self)@.streams.len() < u32::MAX,
            now + duration <= u64::MAX,
        ensures
            final(self).wf(),
            stream_id == old(self)@.streams.len(),
            final(self)@.streams == old(self)@.streams.push(
                StreamInfo {
                    sender: caller,
                    recipient,
                    total_amount: amount,
                    token,
                    start_time: now,
                    end_time: (now + duration) as u64,
                    last_withdrawal_time: now,
                    withdrawn_amount: 0,
                    status: StreamStatus::Active,
                },
            ),
            final(self)@.as_sender == with_id(old(self)@.as_sender, caller, stream_id),
            final(self)@.as_recipient == with_id(old(self)@.as_recipient, recipient, stream_id),
            final(self)@.events == old(self)@.events.push(
                StreamEvent::Created(
                    StreamCreated {
                        stream_id,
                        sender: caller,
                        recipient,
                        amount,
                        token,
                        duration,
                    },
                ),
            ),
    {
        let stream_id = self.streams.len() as u32;
        let event = StreamEvent::Created(
            StreamCreated {
                stream_id,
                sender: caller,
                recipient,
                amount,
                token: token.clone(),
                duration,
            },
        );
        let stream_info = StreamInfo {
            sender: caller,
            recipient,
            total_amount: amount,
            token,
            start_time: now,
            end_time: now + duration,
            last_withdrawal_time: now,
            withdrawn_amount: 0,
            status: StreamStatus::Active,
        };
        self.streams.push(stream_info);
        self.add_user_stream_as_sender(caller, stream_id);
        self.add_user_stream_as_recipient(recipient, stream_id);
        self.events.push(event);
        stream_id
    }

    /// What the recipient of stream `stream_id` may withdraw at `now`.
    fn calculate_available_amount(&self, now: u64, stream_id: u32) -> (available: u128)
        requires
            self.wf(),
            self@.has(stream_id),
            self@.stream(stream_id).computable(now),
        ensures
            available == self@.stream(stream_id).available(now),
            available + self@.stream(stream_id).withdrawn_amount <= self@.stream(
                stream_id,
            ).total_amount,
    {
        let stream = &self.streams[stream_id as usize];
        assert(stream.valid());
        if stream.status != StreamStatus::Active {
            return 0;
        }
        if now <= stream.last_withdrawal_time {
            return 0;
        }
        let end_time = if now > stream.end_time {
            stream.end_time
        } else {
            now
        };
        let time_passed = end_time - stream.last_withdrawal_time;
        let total_duration = stream.end_time - stream.start_time;
        if total_duration == 0 {
            return 0;
        }
        let available = stream.total_amount * (time_passed as u128) / (total_duration as u128);
        if available > stream.total_amount - stream.withdrawn_amount {
            return stream.total_amount - stream.withdrawn_amount;
        }
        available
    }

    /// What the recipient of stream `stream_id` may withdraw at `now`.
    pub fn get_available_amount(&self, now: u64, stream_id: u32) -> (available: u128)
        requires
            self.wf(),
            self@.has(stream_id),
            self@.stream(stream_id).computable(now),
        ensures
            available == self@.stream(stream_id).available(now),
    {
        self.calculate_available_amount(now, stream_id)
    }

    /// Whether what stream `stream_id` has earned at `now` can be computed
    /// in 128 bits.
    pub fn is_computable(&self, now: u64, stream_id: u32) -> (r: bool)
        requires
            self.wf(),
            self@.has(stream_id),
        ensures
            r == self@.stream(stream_id).computable(now),
    {
        let stream = &self.streams[stream_id as usize];
        let until = if now > stream.end_time {
            stream.end_time
        } else {
            now
        };
        if until <= stream.last_withdrawal_time {
            assert(stream.time_passed(now) == 0);
            assert(stream.total_amount * 0 == 0);
            return true;
        }
        let time_passed: u128 = (until - stream.last_withdrawal_time) as u128;
        let limit: u128 = u128::MAX / time_passed;
        proof {
            let a = stream.total_amount as int;
            let k = time_passed as int;
            let m = u128::MAX as int;
            assert(a <= m / k <==> a * k <= m) by (nonlinear_arith)
                requires
                    k > 0,
                    a >= 0,
                    m >= 0,
            ;
        }
        stream.total_amount <= limit
    }

    /// Pays out what is available of stream `stream_id` at `now` to its
    /// recipient `caller`, and returns the amount. The stream is Completed
    /// where its total is reached or its end has come.
    pub fn withdraw(&mut self, caller: AccountId, now: u64, stream_id: u32) -> (amount: u128)
        requires
            old(self).wf(),
            old(self)@.can_withdraw(caller, stream_id, now),
            old(self)@.stream(stream_id).computable(now),
        ensures
            final(self).wf(),
            amount == old(self)@.stream(stream_id).available(now),
            final(self)@.streams == old(self)@.streams.update(
                stream_id as int,
                old(self)@.stream(stream_id).after_withdrawal(now),
            ),
            final(self)@.as_sender == old(self)@.as_sender,
            final(self)@.as_recipient == old(self)@.as_recipient,
            final(self)@.events == old(self)@.events + old(self)@.withdrawal_events(
                caller,
                stream_id,
                now,
            ),
    {
        let index = stream_id as usize;
        let available_amount = self.calculate_available_amount(now, stream_id);
        assert(self.streams@[index as int].valid());
        let total_amount = self.streams[index].total_amount;
        let end_time = self.streams[index].end_time;
        let withdrawn = self.streams[index].withdrawn_amount + available_amount;
        self.streams[index].withdrawn_amount = withdrawn;
        self.streams[index].last_withdrawal_time = now;
        if withdrawn >= total_amount || now >= end_time {
            self.streams[index].status = StreamStatus::Completed;
            self.streams[index].withdrawn_amount = total_amount;
            self.events.push(
                StreamEvent::Completed(StreamCompleted { stream_id, recipient: caller }),
            );
        }
        self.events.push(
            StreamEvent::Withdrawal(
                StreamWithdrawal { stream_id, recipient: caller, amount: available_amount },
            ),
        );
        assert(self@.streams =~= old(self)@.streams.update(
            stream_id as int,
            old(self)@.stream(stream_id).after_withdrawal(now),
        ));
        assert(self@.events =~= old(self)@.events + old(self)@.withdrawal_events(
            caller,
            stream_id,
            now,
        ));
        assert forall|i: int| 0 <= i < self@.streams.len() implies (
        #[trigger] self@.streams[i]).valid() by {
            if i != index {
                assert(self@.streams[i] == old(self)@.streams[i]);
            }
        }
        available_amount
    }

    /// Cancels stream `stream_id` for `caller` at `now`. Returns what goes
    /// to the recipient, which counts as withdrawn, and what goes back to
    /// the sender.
    pub fn cancel_stream(
        &mut self,
        caller: AccountId,
        now: u64,
        stream_id: u32,
    ) -> (r: (u128, u128))
        requires
            old(self).wf(),
            old(self)@.can_cancel(caller, stream_id),
            old(self)@.stream(stream_id).computable(now),
        ensures
            final(self).wf(),
            r.0 == old(self)@.stream(stream_id).available(now),
            r.1 == old(self)@.stream(stream_id).refundable(now),
            final(self)@.streams == old(self)@.streams.update(
                stream_id as int,
                old(self)@.stream(stream_id).after_cancellation(now),
            ),
            final(self)@.as_sender == old(self)@.as_sender,
            final(self)@.as_recipient == old(self)@.as_recipient,
            final(self)@.events == old(self)@.events.push(
                StreamEvent::Canceled(
                    StreamCanceled { stream_id, canceled_by: caller, refunded_amount: r.1 },
                ),
            ),
    {
        let index = stream_id as usize;
        let available_amount = self.calculate_available_amount(now, stream_id);
        assert(self.streams@[index as int].valid());
        let refund_amount = self.streams[index].total_amount - self.streams[index].withdrawn_amount
            - available_amount;
        let withdrawn = self.streams[index].withdrawn_amount + available_amount;
        self.streams[index].status = StreamStatus::Canceled;
        self.streams[index].withdrawn_amount = withdrawn;
        self.events.push(
            StreamEvent::Canceled(
                StreamCanceled { stream_id, canceled_by: caller, refunded_amount: refund_amount },
            ),
        );
        assert(self@.streams =~= old(self)@.streams.update(
            stream_id as int,
            old(self)@.stream(stream_id).after_cancellation(now),
        ));
        assert forall|i: int| 0 <= i < self@.streams.len() implies (
        #[trigger] self@.streams[i]).valid() by {
            if i != index {
                assert(self@.streams[i] == old(self)@.streams[i]);
            }
        }
        (available_amount, refund_amount)
    }

    /// Stream `stream_id`, if it exists.
    pub fn get_stream(&self, stream_id: u32) -> (r: Option<
        (AccountId, AccountId, u128, String, u64, u64, u64, u128, StreamStatus),
    >)
        requires
            self.wf(),
        ensures
            r == (if self@.has(stream_id) {
                Some(
                    (
                        self@.stream(stream_id).sender,
                        self@.stream(stream_id).recipient,
                        self@.stream(stream_id).total_amount,
                        self@.stream(stream_id).token,
                        self@.stream(stream_id).start_time,
                        self@.stream(stream_id).end_time,
                        self@.stream(stream_id).last_withdrawal_time,
                        self@.stream(stream_id).withdrawn_amount,
                        self@.stream(stream_id).status,
                    ),
                )
            } else {
                None
            }),
    {
        if (stream_id as usize) >= self.streams.len() {
            return None;
        }
        let stream = &self.streams[stream_id as usize];
        Some(
            (
                stream.sender,
                stream.recipient,
                stream.total_amount,
                stream.token.clone(),
                stream.start_time,
                stream.end_time,
                stream.last_withdrawal_time,
                stream.withdrawn_amount,
                stream.status,
            ),
        )
    }

    /// The streams that `user` sends, oldest first.
    pub fn get_user_streams_as_sender(&self, user: AccountId) -> (r: Vec<u32>)
        requires
            self.wf(),
        ensures
            r@ == ids_of(self@.as_sender, user),
    {
        self.user_streams_as_sender.listed(user)
    }

    /// The streams that `user` receives, oldest first.
    pub fn get_user_streams_as_recipient(&self, user: AccountId) -> (r: Vec<u32>)
        requires
            self.wf(),
        ensures
            r@ == ids_of(self@.as_recipient, user),
    {
        self.user_streams_as_recipient.listed(user)
    }

    /// The notifications produced since they were last taken, oldest
    /// first. Nothing else changes.
    pub fn take_events(&mut self) -> (events: Vec<StreamEvent>)
        requires
            old(self).wf(),
        ensures
            final(self).wf(),
            events@ == old(self)@.events,
            final(self)@ == (StreamBook { events: Seq::empty(), ..old(self)@ }),
    {
        let mut taken: Vec<StreamEvent> = Vec::new();
        std::mem::swap(&mut self.events, &mut taken);
        taken
    }
}

/// A stream never pays out more than its total: what was withdrawn and
/// what is available add up to the total at most, and at a cancellation
/// the recipient's part, the sender's part and what was withdrawn before
/// add up to the total exactly.
pub proof fn stream_conserves_total(stream: StreamInfo, now: u64)
    requires
        stream.valid(),
    ensures
        stream.withdrawn_amount + stream.available(now) <= stream.total_amount,
        stream.withdrawn_amount + stream.available(now) + stream.refundable(now)
            == stream.total_amount,
        stream.after_withdrawal(now).withdrawn_amount <= stream.total_amount,
        stream.after_cancellation(now).withdrawn_amount <= stream.total_amount,
{
}

/// Nothing is available from a stream that is Completed or Canceled.
pub proof fn ended_stream_pays_nothing(stream: StreamInfo, now: u64)
    requires
        stream.status != StreamStatus::Active,
    ensures
        stream.available(now) == 0,
{
}

} // verus!
