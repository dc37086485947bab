//! Acknowledgment of one entry of a Redis stream.

use super::command::Acknowledge;
use super::errors::{AckError as RedisAckError, RedisFailure};
use crate::errors::{AckError, BrokerError};
use vstd::prelude::*;

verus! {

/// What an [`Ack`] holds.
pub struct AckView {
    /// Name of the consumer group the entry was delivered to.
    pub group: Seq<char>,
    /// Name of the stream the entry stands in.
    pub stream_name: Seq<char>,
    /// Id of the entry.
    pub id: Seq<char>,
}

/// Handle that acknowledges one entry, for one consumer group.
///
/// The handle holds no state that an acknowledgment changes: to acknowledge
/// twice is to send the same command twice.
#[derive(Clone, Debug)]
pub struct Ack {
    group: String,
    stream_name: String,
    id: String,
}

impl View for Ack {
    type V = AckView;

    closed spec fn view(&self) -> AckView {
        AckView { group: self.group@, stream_name: self.stream_name@, id: self.id@ }
    }
}

impl Ack {
    /// The handle for the entry `id` of `stream_name`, delivered to `group`.
    pub fn new(group: String, stream_name: String, id: String) -> (ack: Self)
        ensures
            ack@ == (AckView { group: group@, stream_name: stream_name@, id: id@ }),
    {
        Ack { group, stream_name, id }
    }

    /// The command that acknowledges the entry.
    pub fn command(&self) -> (cmd: Acknowledge)
        ensures
            cmd.stream@ == self@.stream_name,
            cmd.group@ == self@.group,
            cmd.id@ == self@.id,
    {
        Acknowledge {
            stream: self.stream_name.clone(),
            group: self.group.clone(),
            id: self.id.clone(),
        }
    }

    /// What the acknowledgment comes to, given the server's reply to
    /// [`command`](Self::command): success whatever number of entries the
    /// server counted, and the server's failure wrapped otherwise.
    pub fn ack(&self, reply: Result<usize, RedisFailure>) -> (done: Result<(), AckError>)
        ensures
            done == Self::acked(reply),
    {
        match reply {
            Ok(_) => Ok(()),
            Err(failure) => Err(AckError::BrokerError(BrokerError::from(RedisAckError(failure)))),
        }
    }

    /// The outcome of an acknowledgment whose command the server answered
    /// with `reply`.
    pub open spec fn acked(reply: Result<usize, RedisFailure>) -> Result<(), AckError> {
        match reply {
            Ok(_) => Ok(()),
            Err(failure) => Err(
                AckError::BrokerError(BrokerError::RedisAck(RedisAckError(failure))),
            ),
        }
    }
}

} // verus!
