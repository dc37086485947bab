//! The subscribing side of the JetStream adapter.
//!
//! A [`SubFetcher`] decides; it does not talk to the server. It names the
//! stream and the consumer to find or create and the consumer to delete,
//! and says what the server's answers come to. Stalled deliveries need no
//! poll of their own: the server sends again what was not acknowledged in
//! time.

use super::errors::NatsSubFetcherError;
use super::options::{text_of, AckSubOptions, AckSubOptionsView, PullConfig, StreamConfig};
use crate::channel::Phase;
use crate::errors::{BrokerError, SubError, UnSubError};
use vstd::prelude::*;

verus! {

/// What a [`SubFetcher`] holds.
pub struct SubFetcherView {
    pub options: AckSubOptionsView,
    pub phase: Phase,
}

/// Reads a JetStream stream through a durable pull consumer.
#[derive(Debug, Clone)]
pub struct SubFetcher {
    options: AckSubOptions,
    phase: Phase,
}

impl View for SubFetcher {
    type V = SubFetcherView;

    closed spec fn view(&self) -> SubFetcherView {
        SubFetcherView { options: self.options@, phase: self.phase }
    }
}

impl SubFetcherView {
    /// The fetcher after the server answered the creation of the consumer
    /// with `created`.
    pub open spec fn subscribed(self, created: Result<(), BrokerError>) -> SubFetcherView {
        if created is Ok && self.phase != Phase::Unsubscribed {
            SubFetcherView { phase: Phase::Polling, ..self }
        } else {
            self
        }
    }

    /// The fetcher after the server answered the deletion of the consumer
    /// with `deleted`.
    pub open spec fn unsubscribed(self, deleted: Result<(), BrokerError>) -> SubFetcherView {
        if deleted is Ok {
            SubFetcherView { phase: Phase::Unsubscribed, ..self }
        } else {
            self
        }
    }
}

/// Nothing leads out of the last phase: once the consumer is deleted, the
/// fetcher stays unsubscribed whatever is reported to it.
pub proof fn lemma_unsubscribed_is_terminal(
    fetcher: SubFetcherView,
    created: Result<(), BrokerError>,
    deleted: Result<(), BrokerError>,
)
    requires
        fetcher.phase == Phase::Unsubscribed,
    ensures
        fetcher.subscribed(created) == fetcher,
        fetcher.unsubscribed(deleted) == fetcher,
{
}

impl SubFetcher {
    /// The stream to find or create before a fetcher is set up.
    pub fn stream(options: &AckSubOptions) -> (cfg: StreamConfig)
        ensures
            cfg.name@ == options@.stream_name,
            super::options::texts_of(cfg.subjects@) == options@.subjects,
    {
        options.stream()
    }

    /// Sets a fetcher up, given the server's answer to the creation of the
    /// stream of [`stream`](Self::stream). A stream that was there already
    /// is no failure of the server's; a failure ends the setup.
    pub fn new(options: AckSubOptions, created: Result<(), BrokerError>) -> (fetcher: Result<
        Self,
        NatsSubFetcherError,
    >)
        ensures
            match created {
                Ok(()) => fetcher matches Ok(made) && made@ == (SubFetcherView {
                    options: options@,
                    phase: Phase::Uninitialized,
                }),
                Err(err) => fetcher matches Err(NatsSubFetcherError::JetStreamStreamCreation(cause))
                    && cause == err,
            },
    {
        match created {
            Ok(()) => Ok(SubFetcher { options, phase: Phase::Uninitialized }),
            Err(err) => Err(NatsSubFetcherError::JetStreamStreamCreation(err)),
        }
    }

    /// The phase the fetcher stands in.
    pub fn phase(&self) -> (phase: Phase)
        ensures
            phase == self@.phase,
    {
        self.phase
    }

    /// The consumer to find or create at the start of every subscription:
    /// its name, which is the stream's, and its configuration.
    pub fn provision(&self) -> (consumer: (String, PullConfig))
        ensures
            consumer.0@ == self@.options.stream_name,
            text_of(consumer.1.name) == self@.options.consumer_name,
            text_of(consumer.1.durable_name) == self@.options.durable_name,
    {
        (self.options.stream().name, self.options.consumer())
    }

    /// Starts the subscription, given the server's answer to the creation
    /// of the consumer of [`provision`](Self::provision). A failure ends
    /// this call with the failure, and leaves the fetcher as it was. On
    /// success the fetcher polls; a fetcher whose consumer was deleted
    /// stays so.
    pub fn subscribe(&mut self, created: Result<(), BrokerError>) -> (started: Result<
        (),
        SubError,
    >)
        ensures
            final(self)@ == old(self)@.subscribed(created),
            started == match created {
                Ok(()) => Ok::<(), SubError>(()),
                Err(err) => Err(SubError::BrokerError(err)),
            },
    {
        match created {
            Ok(()) => {
                if self.phase != Phase::Unsubscribed {
                    self.phase = Phase::Polling;
                }
                Ok(())
            },
            Err(err) => Err(SubError::BrokerError(err)),
        }
    }

    /// Whether the consumer is durable, so that it can be deleted by name.
    pub fn is_durable(&self) -> (durable: bool)
        ensures
            durable == self@.options.durable_name is Some,
    {
        self.options.consumer().durable_name.is_some()
    }

    /// The name of the consumer to delete: its durable name.
    pub fn release(&self) -> (name: String)
        requires
            self@.options.durable_name is Some,
        ensures
            Some(name@) == self@.options.durable_name,
    {
        self.options.consumer().durable_name.unwrap()
    }

    /// Ends the subscription, given the server's answer to the deletion of
    /// the consumer of [`release`](Self::release). On success the consumer
    /// has left and the fetcher polls no more. A failure is reported and
    /// leaves the fetcher as it was.
    pub fn unsubscribe(&mut self, deleted: Result<(), BrokerError>) -> (left: Result<
        (),
        UnSubError,
    >)
        ensures
            final(self)@ == old(self)@.unsubscribed(deleted),
            left == match deleted {
                Ok(()) => Ok::<(), UnSubError>(()),
                Err(err) => Err(UnSubError::BrokerError(err)),
            },
    {
        match deleted {
            Ok(()) => {
                self.phase = Phase::Unsubscribed;
                Ok(())
            },
            Err(err) => Err(UnSubError::BrokerError(err)),
        }
    }
}

} // verus!
