//! The subscribing side of the Redis stream adapter.
//!
//! A [`Subscriber`] decides; it does not talk to the server. It names the
//! commands to send, takes the server's replies, and says what they come
//! to: which messages are handed on, which error is reported, and from
//! where the next claim of stalled entries goes on. The driver that owns
//! the connection sends the commands, both polls of one round at once, and
//! hands the replies back.

use super::ack::{Ack, AckView};
use super::command::{
    data_field, never_delivered, start_at_end, start_of_pending, AutoClaim, ConsumerDelete,
    GroupCreate, GroupRead,
};
use super::config::{SubscriberConfig, SubscriberConfigView};
use super::errors::{RedisFailure, SubscribeError, UnsubscribeError};
use super::group_make::{answers_creation, group_create, group_made, make_stream_group};
use super::reply::{entries_of, flatten_keys, AutoClaimReply, StreamEntry, StreamKey};
use crate::channel::Phase;
use crate::errors::{BrokerError, SubError, UnSubError};
use crate::payload::{payload_bytes, payload_from_vec};
use bytes::Bytes;
use vstd::prelude::*;

verus! {

/// What a [`Subscriber`] holds.
pub struct SubscriberView {
    pub cfg: SubscriberConfigView,
    pub phase: Phase,
    /// Cursor from which the next claim of stalled entries goes on.
    pub cursor: Seq<char>,
}

/// The two polls of one round.
#[derive(Debug)]
pub struct Poll {
    /// The claim of stalled entries; `None` where claiming is switched off.
    pub reclaim: Option<AutoClaim>,
    /// The read of new entries.
    pub fresh: GroupRead,
}

/// A consumer of one Redis stream within one consumer group.
#[derive(Clone, Debug)]
pub struct Subscriber {
    cfg: SubscriberConfig,
    phase: Phase,
    cursor: String,
}

impl View for Subscriber {
    type V = SubscriberView;

    closed spec fn view(&self) -> SubscriberView {
        SubscriberView { cfg: self.cfg@, phase: self.phase, cursor: self.cursor@ }
    }
}

/// The message that an entry carries, with the handle that acknowledges
/// it: the bytes of the entry's `data` field, where that field is a bulk
/// string. Other entries carry no message.
pub open spec fn delivery(cfg: SubscriberConfigView, entry: StreamEntry) -> Option<
    (Seq<u8>, AckView),
> {
    match entry.bulk(data_field()) {
        Some(bytes) => Some(
            (bytes, AckView { group: cfg.group_name, stream_name: cfg.topic_name, id: entry.id@ }),
        ),
        None => None,
    }
}

/// The messages that the entries carry, in the entries' order.
pub open spec fn deliveries(cfg: SubscriberConfigView, entries: Seq<StreamEntry>) -> Seq<
    (Seq<u8>, AckView),
> {
    entries.filter_map(|entry: StreamEntry| delivery(cfg, entry))
}

/// What the items hold: each payload's bytes, and each handle's view.
pub open spec fn delivered(items: Seq<(Bytes, Ack)>) -> Seq<(Seq<u8>, AckView)> {
    items.map_values(|item: (Bytes, Ack)| (payload_bytes(item.0), item.1@))
}

impl SubscriberView {
    /// Whether a round claims stalled entries.
    pub open spec fn claims(self) -> bool {
        self.phase == Phase::Polling && self.cfg.auto_claim > 0
    }

    /// The subscriber after the server answered the creation of the group
    /// with `reply`: it polls from the start of the pending entries, unless
    /// the creation failed or the consumer has left the group.
    pub open spec fn subscribed(self, reply: Result<(), RedisFailure>) -> SubscriberView {
        if group_made(reply) is Ok && self.phase != Phase::Unsubscribed {
            SubscriberView { phase: Phase::Polling, cursor: start_of_pending(), ..self }
        } else {
            self
        }
    }

    /// What the start of a subscription comes to, when the server
    /// answered the creation of the group with `reply`.
    pub open spec fn started(reply: Result<(), RedisFailure>) -> Result<(), SubError> {
        match group_made(reply) {
            Ok(()) => Ok(()),
            Err(failure) => Err(
                SubError::BrokerError(
                    BrokerError::RedisSubscribe(SubscribeError::GroupCreation(failure)),
                ),
            ),
        }
    }

    /// The claimed entries that count in a round: those of a claim that
    /// was asked for and succeeded.
    pub open spec fn claimed(self, reclaim: Option<Result<AutoClaimReply, RedisFailure>>) -> Option<
        AutoClaimReply,
    > {
        match reclaim {
            Some(Ok(reply)) if self.claims() => Some(reply),
            _ => None,
        }
    }

    /// The failure of a round, if it has one: that of the claim where the
    /// claim was asked for and failed, else that of the read.
    pub open spec fn failure(
        self,
        reclaim: Option<Result<AutoClaimReply, RedisFailure>>,
        fresh: Result<Vec<StreamKey>, RedisFailure>,
    ) -> Option<SubscribeError> {
        if self.phase != Phase::Polling {
            None
        } else {
            match (reclaim, fresh) {
                (Some(Err(failure)), _) if self.claims() => Some(
                    SubscribeError::AutoClaim(failure),
                ),
                (_, Err(failure)) => Some(SubscribeError::Read(failure)),
                _ => None,
            }
        }
    }

    /// The entries of a round without failure: the claimed ones first, then
    /// the new ones. Outside the polling phase a round has no entries.
    pub open spec fn entries(
        self,
        reclaim: Option<Result<AutoClaimReply, RedisFailure>>,
        fresh: Result<Vec<StreamKey>, RedisFailure>,
    ) -> Seq<StreamEntry> {
        if self.phase != Phase::Polling {
            Seq::empty()
        } else {
            let stalled = match self.claimed(reclaim) {
                Some(reply) => reply.claimed@,
                None => Seq::empty(),
            };
            let recent = match fresh {
                Ok(keys) => entries_of(keys@),
                Err(_) => Seq::empty(),
            };
            stalled + recent
        }
    }

    /// The subscriber after a round: the cursor moves to where a claim that
    /// counted said to go on, and stays where no claim counted.
    pub open spec fn collected(
        self,
        reclaim: Option<Result<AutoClaimReply, RedisFailure>>,
    ) -> SubscriberView {
        match self.claimed(reclaim) {
            Some(reply) => SubscriberView { cursor: reply.next_stream_id@, ..self },
            None => self,
        }
    }

    /// The subscriber after the server answered the removal of the consumer
    /// with `reply`.
    pub open spec fn unsubscribed(self, reply: Result<usize, RedisFailure>) -> SubscriberView {
        match reply {
            Ok(_) => SubscriberView { phase: Phase::Unsubscribed, ..self },
            Err(_) => self,
        }
    }
}

/// Subscribing is safe to repeat: against a server that answers the
/// creation of a group as [`answers_creation`] says, a subscription starts
/// without error, and starts without error again when it is started a
/// second time with the same settings, whatever groups existed before.
/// Each time the subscriber polls from the start of the pending entries,
/// unless its consumer had left the group.
pub proof fn lemma_subscribe_repeats(
    subscriber: SubscriberView,
    groups: Set<(Seq<char>, Seq<char>)>,
    first: Result<(), RedisFailure>,
    second: Result<(), RedisFailure>,
)
    requires
        answers_creation(groups, subscriber.cfg.topic_name, subscriber.cfg.group_name, first),
        answers_creation(
            groups.insert((subscriber.cfg.topic_name, subscriber.cfg.group_name)),
            subscriber.cfg.topic_name,
            subscriber.cfg.group_name,
            second,
        ),
    ensures
        SubscriberView::started(first) is Ok,
        SubscriberView::started(second) is Ok,
        subscriber.phase != Phase::Unsubscribed ==> subscriber.subscribed(first).subscribed(second)
            == (SubscriberView { phase: Phase::Polling, cursor: start_of_pending(), ..subscriber }),
{
}

/// Nothing leads out of the last phase: once the consumer has left its
/// group, the subscriber stays unsubscribed whatever is reported to it, and
/// its cursor stays where it was.
pub proof fn lemma_unsubscribed_is_terminal(
    subscriber: SubscriberView,
    provisioned: Result<(), RedisFailure>,
    reclaim: Option<Result<AutoClaimReply, RedisFailure>>,
    fresh: Result<Vec<StreamKey>, RedisFailure>,
    released: Result<usize, RedisFailure>,
)
    requires
        subscriber.phase == Phase::Unsubscribed,
    ensures
        subscriber.subscribed(provisioned) == subscriber,
        subscriber.collected(reclaim) == subscriber,
        subscriber.entries(reclaim, fresh) == Seq::<StreamEntry>::empty(),
        subscriber.failure(reclaim, fresh) is None,
        subscriber.unsubscribed(released) == subscriber,
{
}

impl Subscriber {
    /// A subscriber that has not provisioned its group yet.
    pub fn new(cfg: SubscriberConfig) -> (subscriber: Self)
        ensures
            subscriber@ == (SubscriberView {
                cfg: cfg@,
                phase: Phase::Uninitialized,
                cursor: start_of_pending(),
            }),
    {
        Subscriber { cfg, phase: Phase::Uninitialized, cursor: String::from_str("0-0") }
    }

    /// The phase the subscriber stands in.
    pub fn phase(&self) -> (phase: Phase)
        ensures
            phase == self@.phase,
    {
        self.phase
    }

    /// The command that provisions the consumer group, and the stream with
    /// it. It is sent at the start of every subscription.
    pub fn provision(&self) -> (cmd: GroupCreate)
        ensures
            cmd.stream@ == self@.cfg.topic_name,
            cmd.group@ == self@.cfg.group_name,
            cmd.start_id@ == start_at_end(),
    {
        group_create(self.cfg.topic().clone(), self.cfg.group().clone())
    }

    /// Starts the subscription, given the server's reply to
    /// [`provision`](Self::provision).
    ///
    /// A group that exists already counts as provisioned. Any other failure
    /// ends this call with the failure, and leaves the subscriber as it
    /// was. On success the subscriber polls, from the start of the pending
    /// entries; a subscriber whose consumer has left the group stays so.
    pub fn subscribe(&mut self, reply: Result<(), RedisFailure>) -> (started: Result<(), SubError>)
        ensures
            final(self)@ == old(self)@.subscribed(reply),
            started == SubscriberView::started(reply),
    {
        match make_stream_group(reply) {
            Ok(()) => {
                if self.phase != Phase::Unsubscribed {
                    self.phase = Phase::Polling;
                    self.cursor = String::from_str("0-0");
                }
                Ok(())
            },
            Err(failure) => Err(
                SubError::BrokerError(BrokerError::from(SubscribeError::GroupCreation(failure))),
            ),
        }
    }

    /// The polls of the next round, or `None` where the subscriber does
    /// not poll.
    ///
    /// The claim of stalled entries is part of the round if and only if the
    /// idle threshold is above zero; it goes on from the cursor. The read
    /// asks for entries that were never delivered to the group, and blocks
    /// for the configured time at most.
    pub fn next_poll(&self) -> (poll: Option<Poll>)
        ensures
            poll is Some == (self@.phase == Phase::Polling),
            poll matches Some(round) ==> {
                &&& round.reclaim is Some == self@.claims()
                &&& round.reclaim matches Some(claim) ==> {
                    &&& claim.stream@ == self@.cfg.topic_name
                    &&& claim.group@ == self@.cfg.group_name
                    &&& claim.consumer@ == self@.cfg.consumer_name
                    &&& claim.min_idle == self@.cfg.auto_claim
                    &&& claim.start@ == self@.cursor
                    &&& claim.count == self@.cfg.num_fetch
                }
                &&& round.fresh.stream@ == self@.cfg.topic_name
                &&& round.fresh.id@ == never_delivered()
                &&& round.fresh.group@ == self@.cfg.group_name
                &&& round.fresh.consumer@ == self@.cfg.consumer_name
                &&& round.fresh.count == self@.cfg.num_fetch
                &&& round.fresh.block == self@.cfg.block_time
            },
    {
        if self.phase != Phase::Polling {
            return None;
        }
        let reclaim = if self.cfg.claim_idle_millis() > 0 {
            Some(
                AutoClaim {
                    stream: self.cfg.topic().clone(),
                    group: self.cfg.group().clone(),
                    consumer: self.cfg.consumer().clone(),
                    min_idle: self.cfg.claim_idle_millis(),
                    start: self.cursor.clone(),
                    count: self.cfg.fetch_count(),
                },
            )
        } else {
            None
        };
        let fresh = GroupRead {
            stream: self.cfg.topic().clone(),
            id: String::from_str(">"),
            group: self.cfg.group().clone(),
            consumer: self.cfg.consumer().clone(),
            count: self.cfg.fetch_count(),
            block: self.cfg.block_millis(),
        };
        Some(Poll { reclaim, fresh })
    }

    /// Ends a round, given the replies to the polls of
    /// [`next_poll`](Self::next_poll): `reclaim` for the claim, `None`
    /// where none was sent, and `fresh` for the read.
    ///
    /// Where both polls succeeded, the messages of the claimed entries are
    /// handed on first, then those of the new entries. Where one failed,
    /// the round hands on no message and reports the failure, that of the
    /// claim before that of the read; the subscriber goes on polling. The
    /// cursor moves only when the claim itself succeeded. A reply to a claim
    /// that was not part of the round is left aside, and so is every reply
    /// outside the polling phase.
    pub fn collect(
        &mut self,
        reclaim: Option<Result<AutoClaimReply, RedisFailure>>,
        fresh: Result<Vec<StreamKey>, RedisFailure>,
    ) -> (round: Result<Vec<(Bytes, Ack)>, SubError>)
        ensures
            final(self)@ == old(self)@.collected(reclaim),
            match old(self)@.failure(reclaim, fresh) {
                Some(err) => round == Err::<Vec<(Bytes, Ack)>, SubError>(
                    SubError::BrokerError(BrokerError::RedisSubscribe(err)),
                ),
                None => round matches Ok(items) && delivered(items@) == deliveries(
                    old(self)@.cfg,
                    old(self)@.entries(reclaim, fresh),
                ),
            },
    {
        if self.phase != Phase::Polling {
            let none: Vec<(Bytes, Ack)> = Vec::new();
            assert(delivered(none@) =~= deliveries(self@.cfg, Seq::empty()));
            return Ok(none);
        }
        let claiming = self.cfg.claim_idle_millis() > 0;
        let mut entries: Vec<StreamEntry> = Vec::new();
        match reclaim {
            Some(Ok(reply)) => {
                if claiming {
                    self.cursor = reply.next_stream_id;
                    entries = reply.claimed;
                }
            },
            Some(Err(failure)) => {
                if claiming {
                    return Err(
                        SubError::BrokerError(
                            BrokerError::from(SubscribeError::AutoClaim(failure)),
                        ),
                    );
                }
            },
            None => {},
        }
        match fresh {
            Ok(keys) => {
                let mut recent = flatten_keys(keys);
                entries.append(&mut recent);
                Ok(self.handle_stream_ids(entries))
            },
            Err(failure) => Err(
                SubError::BrokerError(BrokerError::from(SubscribeError::Read(failure))),
            ),
        }
    }

    /// Turns entries into messages: for each entry whose `data` field is a
    /// bulk string, the field's bytes and the handle that acknowledges the
    /// entry for this subscriber's group. Entries without such a field are
    /// passed over. The order of the entries is kept.
    pub fn handle_stream_ids(&self, stream_ids: Vec<StreamEntry>) -> (results: Vec<(Bytes, Ack)>)
        ensures
            delivered(results@) == deliveries(self@.cfg, stream_ids@),
    {
        let mut results: Vec<(Bytes, Ack)> = Vec::new();
        let data = String::from_str("data");
        let ghost carried = |entry: StreamEntry| delivery(self@.cfg, entry);
        assert(stream_ids@.take(0).filter_map(carried) =~= delivered(results@));
        for entry in it: stream_ids
            invariant
                it.seq() == stream_ids@,
                data@ == data_field(),
                carried == |entry: StreamEntry| delivery(self@.cfg, entry),
                delivered(results@) == stream_ids@.take(it.index() as int).filter_map(carried),
        {
            let ghost before = results@;
            proof {
                stream_ids@.lemma_filter_map_take_succ(carried, it.index() as int);
            }
            if let Some(bytes) = entry.bulk_string(&data) {
                let ack = Ack::new(self.cfg.group().clone(), self.cfg.topic().clone(), entry.id);
                results.push((payload_from_vec(bytes), ack));
                assert(delivered(results@) =~= delivered(before).push(
                    delivery(self@.cfg, entry).unwrap(),
                ));
            }
        }
        assert(stream_ids@.take(stream_ids@.len() as int) == stream_ids@);
        results
    }

    /// The command that removes this consumer from its group.
    pub fn release(&self) -> (cmd: ConsumerDelete)
        ensures
            cmd.stream@ == self@.cfg.topic_name,
            cmd.group@ == self@.cfg.group_name,
            cmd.consumer@ == self@.cfg.consumer_name,
    {
        ConsumerDelete {
            stream: self.cfg.topic().clone(),
            group: self.cfg.group().clone(),
            consumer: self.cfg.consumer().clone(),
        }
    }

    /// Ends the subscription, given the server's reply to
    /// [`release`](Self::release).
    ///
    /// The server counts the entries that were pending for the consumer;
    /// whatever it counted, and also where it knew no such consumer, the
    /// consumer has left and the subscriber polls no more. A failure is
    /// reported and leaves the subscriber as it was.
    pub fn unsubscribe(&mut self, reply: Result<usize, RedisFailure>) -> (left: Result<
        (),
        UnSubError,
    >)
        ensures
            final(self)@ == old(self)@.unsubscribed(reply),
            left == match reply {
                Ok(_) => Ok::<(), UnSubError>(()),
                Err(failure) => Err(
                    UnSubError::BrokerError(
                        BrokerError::RedisUnsubscribe(UnsubscribeError(failure)),
                    ),
                ),
            },
    {
        match reply {
            Ok(_) => {
                self.phase = Phase::Unsubscribed;
                Ok(())
            },
            Err(failure) => Err(
                UnSubError::BrokerError(BrokerError::from(UnsubscribeError(failure))),
            ),
        }
    }
}

} // verus!
