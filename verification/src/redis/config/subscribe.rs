use vstd::prelude::*;

verus! {

/// What a [`SubscriberConfig`] holds.
pub struct SubscriberConfigView {
    /// Name under which this consumer reads within its group.
    pub consumer_name: Seq<char>,
    /// Name of the consumer group.
    pub group_name: Seq<char>,
    /// Name of the stream.
    pub topic_name: Seq<char>,
    /// Largest number of entries asked for by one read or one claim.
    pub num_fetch: usize,
    /// Longest time, in milliseconds, that one read waits for new entries.
    pub block_time: usize,
    /// Idle time, in milliseconds, after which a pending entry of another
    /// consumer is claimed; zero switches claiming off.
    pub auto_claim: usize,
}

/// Settings of a Redis stream subscriber.
///
/// Defaults: consumer and group are named after the topic, a read fetches
/// up to 10 entries and blocks for up to 5000 ms, and entries that were
/// pending for 30000 ms are claimed.
#[derive(Clone, Debug)]
pub struct SubscriberConfig {
    consumer_name: String,
    group_name: String,
    topic_name: String,
    num_fetch: usize,
    block_time: usize,
    auto_claim: usize,
}

impl View for SubscriberConfig {
    type V = SubscriberConfigView;

    closed spec fn view(&self) -> SubscriberConfigView {
        SubscriberConfigView {
            consumer_name: self.consumer_name@,
            group_name: self.group_name@,
            topic_name: self.topic_name@,
            num_fetch: self.num_fetch,
            block_time: self.block_time,
            auto_claim: self.auto_claim,
        }
    }
}

impl SubscriberConfig {
    /// The default settings for the given topic.
    pub fn new(topic_name: String) -> (cfg: Self)
        ensures
            cfg@ == (SubscriberConfigView {
                consumer_name: topic_name@,
                group_name: topic_name@,
                topic_name: topic_name@,
                num_fetch: 10,
                block_time: 5000,
                auto_claim: 30000,
            }),
    {
        SubscriberConfig {
            consumer_name: topic_name.clone(),
            group_name: topic_name.clone(),
            topic_name,
            num_fetch: 10,
            block_time: 5000,
            auto_claim: 30000,
        }
    }

    /// Sets the consumer name.
    pub fn consumer_name(self, consumer_name: String) -> (cfg: Self)
        ensures
            cfg@ == (SubscriberConfigView { consumer_name: consumer_name@, ..self@ }),
    {
        let mut cfg = self;
        cfg.consumer_name = consumer_name;
        cfg
    }

    /// Sets the consumer group name.
    pub fn group_name(self, group_name: String) -> (cfg: Self)
        ensures
            cfg@ == (SubscriberConfigView { group_name: group_name@, ..self@ }),
    {
        let mut cfg = self;
        cfg.group_name = group_name;
        cfg
    }

    /// Sets the topic (stream) name.
    pub fn topic_name(self, topic_name: String) -> (cfg: Self)
        ensures
            cfg@ == (SubscriberConfigView { topic_name: topic_name@, ..self@ }),
    {
        let mut cfg = self;
        cfg.topic_name = topic_name;
        cfg
    }

    /// Sets how many entries one read fetches at most.
    pub fn num_fetch(self, count: usize) -> (cfg: Self)
        ensures
            cfg@ == (SubscriberConfigView { num_fetch: count, ..self@ }),
    {
        let mut cfg = self;
        cfg.num_fetch = count;
        cfg
    }

    /// Sets how long one read blocks at most, in milliseconds.
    pub fn block_time(self, millis: usize) -> (cfg: Self)
        ensures
            cfg@ == (SubscriberConfigView { block_time: millis, ..self@ }),
    {
        let mut cfg = self;
        cfg.block_time = millis;
        cfg
    }

    /// Sets the idle time, in milliseconds, after which pending entries are
    /// claimed. Zero switches claiming off.
    pub fn auto_claim(self, millis: usize) -> (cfg: Self)
        ensures
            cfg@ == (SubscriberConfigView { auto_claim: millis, ..self@ }),
    {
        let mut cfg = self;
        cfg.auto_claim = millis;
        cfg
    }

    /// The consumer name.
    pub(crate) fn consumer(&self) -> (name: &String)
        ensures
            name@ == self@.consumer_name,
    {
        &self.consumer_name
    }

    /// The consumer group name.
    pub(crate) fn group(&self) -> (name: &String)
        ensures
            name@ == self@.group_name,
    {
        &self.group_name
    }

    /// The topic (stream) name.
    pub(crate) fn topic(&self) -> (name: &String)
        ensures
            name@ == self@.topic_name,
    {
        &self.topic_name
    }

    /// The largest number of entries one read fetches.
    pub(crate) fn fetch_count(&self) -> (count: usize)
        ensures
            count == self@.num_fetch,
    {
        self.num_fetch
    }

    /// The longest time one read blocks, in milliseconds.
    pub(crate) fn block_millis(&self) -> (millis: usize)
        ensures
            millis == self@.block_time,
    {
        self.block_time
    }

    /// The idle time after which pending entries are claimed, in milliseconds.
    pub(crate) fn claim_idle_millis(&self) -> (millis: usize)
        ensures
            millis == self@.auto_claim,
    {
        self.auto_claim
    }
}

} // verus!
