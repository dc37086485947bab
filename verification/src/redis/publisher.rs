//! The publishing side of the Redis stream adapter.
//!
//! A [`Publisher`] decides; it does not talk to the server. One publish
//! takes two commands: the creation of the consumer group, which also
//! makes a missing stream, and the append of the message. The driver that
//! owns the connection sends them and hands the replies back.

use super::command::{data_field, server_chosen, start_at_end, Append, GroupCreate};
use super::config::{PublisherConfig, PublisherConfigView};
use super::errors::{PublishError, RedisFailure};
use super::group_make::{answers_creation, group_create, group_made, make_stream_group};
use crate::errors::{BrokerError, PubError};
use crate::payload::{payload_bytes, payload_into_vec};
use bytes::Bytes;
use vstd::prelude::*;

verus! {

/// What a [`Publisher`] holds.
pub struct PublisherView {
    pub cfg: PublisherConfigView,
}

/// A publisher of byte payloads to Redis streams.
#[derive(Clone, Debug)]
pub struct Publisher {
    cfg: PublisherConfig,
}

impl View for Publisher {
    type V = PublisherView;

    closed spec fn view(&self) -> PublisherView {
        PublisherView { cfg: self.cfg@ }
    }
}

impl PublisherView {
    /// Name of the group that is created with the stream `topic`: the
    /// configured one, or the stream's own name where none is configured.
    pub open spec fn group_for(self, topic: Seq<char>) -> Seq<char> {
        match self.cfg.group_name {
            Some(name) => name,
            None => topic,
        }
    }

    /// What the first step of a publish comes to, when the server answered
    /// the creation of the group with `reply`.
    pub open spec fn provisioned(reply: Result<(), RedisFailure>) -> Result<(), PubError> {
        match group_made(reply) {
            Ok(()) => Ok(()),
            Err(failure) => Err(
                PubError::BrokerError(
                    BrokerError::RedisPublish(PublishError::GroupCreation(failure)),
                ),
            ),
        }
    }
}

/// Publishing is safe to repeat: against a server that answers the
/// creation of a group as [`answers_creation`] says, the provisioning of a
/// publish succeeds, and succeeds again for a second publish to the same
/// stream, whatever groups existed before.
pub proof fn lemma_publish_repeats(
    publisher: PublisherView,
    groups: Set<(Seq<char>, Seq<char>)>,
    topic: Seq<char>,
    first: Result<(), RedisFailure>,
    second: Result<(), RedisFailure>,
)
    requires
        answers_creation(groups, topic, publisher.group_for(topic), first),
        answers_creation(
            groups.insert((topic, publisher.group_for(topic))),
            topic,
            publisher.group_for(topic),
            second,
        ),
    ensures
        PublisherView::provisioned(first) is Ok,
        PublisherView::provisioned(second) is Ok,
{
}

impl Publisher {
    /// A publisher with the given settings.
    pub fn new(cfg: PublisherConfig) -> (publisher: Self)
        ensures
            publisher@ == (PublisherView { cfg: cfg@ }),
    {
        Publisher { cfg }
    }

    /// The command that provisions the stream `topic` and its consumer
    /// group. It is sent before every append.
    pub fn provision(&self, topic: &str) -> (cmd: GroupCreate)
        ensures
            cmd.stream@ == topic@,
            cmd.group@ == self@.group_for(topic@),
            cmd.start_id@ == start_at_end(),
    {
        let group = match self.cfg.group() {
            Some(name) => name.clone(),
            None => topic.to_owned(),
        };
        group_create(topic.to_owned(), group)
    }

    /// The second step of a publish, given the server's reply to
    /// [`provision`](Self::provision): the command that appends `payload`
    /// to the stream `topic`.
    ///
    /// A group that exists already counts as provisioned. Any other failure
    /// ends the publish with that failure, and nothing is appended. The
    /// append carries the payload's bytes in the field `data`, lets the
    /// server number the entry, and trims the stream to about the
    /// configured length.
    pub fn publish(&self, topic: &str, payload: Bytes, provisioned: Result<(), RedisFailure>) -> (step:
        Result<Append, PubError>)
        ensures
            match PublisherView::provisioned(provisioned) {
                Ok(()) => step matches Ok(cmd) && {
                    &&& cmd.stream@ == topic@
                    &&& cmd.max_len == self@.cfg.stream_length
                    &&& cmd.id@ == server_chosen()
                    &&& cmd.field@ == data_field()
                    &&& cmd.payload@ == payload_bytes(payload)
                },
                Err(err) => step == Err::<Append, PubError>(err),
            },
    {
        match make_stream_group(provisioned) {
            Ok(()) => Ok(
                Append {
                    stream: topic.to_owned(),
                    max_len: self.cfg.max_length(),
                    id: String::from_str("*"),
                    field: String::from_str("data"),
                    payload: payload_into_vec(payload),
                },
            ),
            Err(failure) => Err(
                PubError::BrokerError(BrokerError::from(PublishError::GroupCreation(failure))),
            ),
        }
    }

    /// What the publish comes to, given the server's reply to the append
    /// of [`publish`](Self::publish): success once the server took the
    /// entry, whatever id it gave, and the server's failure wrapped
    /// otherwise.
    pub fn published(&self, reply: Result<Option<String>, RedisFailure>) -> (done: Result<
        (),
        PubError,
    >)
        ensures
            done == match reply {
                Ok(_) => Ok::<(), PubError>(()),
                Err(failure) => Err(
                    PubError::BrokerError(BrokerError::RedisPublish(PublishError::Push(failure))),
                ),
            },
    {
        match reply {
            Ok(_) => Ok(()),
            Err(failure) => Err(
                PubError::BrokerError(BrokerError::from(PublishError::Push(failure))),
            ),
        }
    }
}

} // verus!
