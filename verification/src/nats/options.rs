use crate::format::Format;
use crate::traits::SubOptTrait;
use vstd::prelude::*;

verus! {

/// What the adapter sets and reads of a JetStream stream's configuration.
#[derive(Debug, Clone)]
pub struct StreamConfig {
    /// Name of the stream.
    pub name: String,
    /// Subjects that the stream takes in.
    pub subjects: Vec<String>,
}

/// What the adapter sets and reads of a pull consumer's configuration.
#[derive(Debug, Clone)]
pub struct PullConfig {
    /// Name of the consumer.
    pub name: Option<String>,
    /// Name under which the server keeps the consumer's position.
    pub durable_name: Option<String>,
}

/// What an [`AckSubOptions`] holds.
pub struct AckSubOptionsView {
    pub stream_name: Seq<char>,
    pub subjects: Seq<Seq<char>>,
    pub consumer_name: Option<Seq<char>>,
    pub durable_name: Option<Seq<char>>,
    pub auto_ack: bool,
    pub format: Format,
}

/// Options of a subscription that acknowledges: the stream and the pull
/// consumer it reads through, its format, and whether it acknowledges by
/// itself.
#[derive(Debug, Clone)]
pub struct AckSubOptions {
    stream_cfg: StreamConfig,
    pull_cfg: PullConfig,
    auto_ack: bool,
    format: Format,
}

/// The characters of the text, if there is one.
pub open spec fn text_of(text: Option<String>) -> Option<Seq<char>> {
    match text {
        Some(text) => Some(text@),
        None => None,
    }
}

/// The characters of each text.
pub open spec fn texts_of(texts: Seq<String>) -> Seq<Seq<char>> {
    texts.map_values(|text: String| text@)
}

impl View for AckSubOptions {
    type V = AckSubOptionsView;

    closed spec fn view(&self) -> AckSubOptionsView {
        AckSubOptionsView {
            stream_name: self.stream_cfg.name@,
            subjects: texts_of(self.stream_cfg.subjects@),
            consumer_name: text_of(self.pull_cfg.name),
            durable_name: text_of(self.pull_cfg.durable_name),
            auto_ack: self.auto_ack,
            format: self.format,
        }
    }
}

impl AckSubOptions {
    /// Options for the stream `name`, read through a consumer of the same
    /// name, with automatic acknowledgment. The stream takes in no subject
    /// yet, and the consumer is not durable yet.
    pub fn new(format: Format, name: String) -> (options: Self)
        ensures
            options@ == (AckSubOptionsView {
                stream_name: name@,
                subjects: Seq::empty(),
                consumer_name: Some(name@),
                durable_name: None,
                auto_ack: true,
                format,
            }),
    {
        let options = AckSubOptions {
            stream_cfg: StreamConfig { name: name.clone(), subjects: Vec::new() },
            pull_cfg: PullConfig { name: Some(name), durable_name: None },
            auto_ack: true,
            format,
        };
        assert(options@.subjects =~= Seq::empty());
        options
    }

    /// Sets whether deliveries are acknowledged before they are handed on.
    pub fn auto_ack(self, auto_ack: bool) -> (options: Self)
        ensures
            options@ == (AckSubOptionsView { auto_ack, ..self@ }),
    {
        let mut options = self;
        options.auto_ack = auto_ack;
        options
    }

    /// Sets the name of the stream.
    pub fn name(self, name: String) -> (options: Self)
        ensures
            options@ == (AckSubOptionsView { stream_name: name@, ..self@ }),
    {
        let mut options = self;
        options.stream_cfg.name = name;
        options
    }

    /// Sets the subjects that the stream takes in.
    pub fn subjects(self, subjects: Vec<String>) -> (options: Self)
        ensures
            options@ == (AckSubOptionsView { subjects: texts_of(subjects@), ..self@ }),
    {
        let mut options = self;
        options.stream_cfg.subjects = subjects;
        options
    }

    /// Makes the consumer durable, under the given name.
    pub fn durable_name(self, durable_name: String) -> (options: Self)
        ensures
            options@ == (AckSubOptionsView { durable_name: Some(durable_name@), ..self@ }),
    {
        let mut options = self;
        options.pull_cfg.durable_name = Some(durable_name);
        options
    }

    /// Sets the format of the payloads.
    pub fn format(self, format: Format) -> (options: Self)
        ensures
            options@ == (AckSubOptionsView { format, ..self@ }),
    {
        let mut options = self;
        options.format = format;
        options
    }

    /// Replaces the stream's configuration.
    pub fn stream_config(self, stream_cfg: StreamConfig) -> (options: Self)
        ensures
            options@ == (AckSubOptionsView {
                stream_name: stream_cfg.name@,
                subjects: texts_of(stream_cfg.subjects@),
                ..self@
            }),
    {
        let mut options = self;
        options.stream_cfg = stream_cfg;
        options
    }

    /// Replaces the pull consumer's configuration.
    pub fn pull_config(self, pull_cfg: PullConfig) -> (options: Self)
        ensures
            options@ == (AckSubOptionsView {
                consumer_name: text_of(pull_cfg.name),
                durable_name: text_of(pull_cfg.durable_name),
                ..self@
            }),
    {
        let mut options = self;
        options.pull_cfg = pull_cfg;
        options
    }

    /// A copy of the stream's configuration.
    pub fn stream(&self) -> (cfg: StreamConfig)
        ensures
            cfg.name@ == self@.stream_name,
            texts_of(cfg.subjects@) == self@.subjects,
    {
        StreamConfig {
            name: self.stream_cfg.name.clone(),
            subjects: copy_texts(&self.stream_cfg.subjects),
        }
    }

    /// A copy of the pull consumer's configuration.
    pub fn consumer(&self) -> (cfg: PullConfig)
        ensures
            text_of(cfg.name) == self@.consumer_name,
            text_of(cfg.durable_name) == self@.durable_name,
    {
        PullConfig {
            name: copy_text(&self.pull_cfg.name),
            durable_name: copy_text(&self.pull_cfg.durable_name),
        }
    }
}

impl SubOptTrait for AckSubOptions {
    fn get_auto_ack(&self) -> (on: bool)
        ensures
            on == self@.auto_ack,
    {
        self.auto_ack
    }

    fn get_format(&self) -> (format: Format)
        ensures
            format == self@.format,
    {
        self.format
    }
}

/// A copy of the text, if there is one.
pub(crate) fn copy_text(text: &Option<String>) -> (copy: Option<String>)
    ensures
        text_of(copy) == text_of(*text),
{
    match text {
        Some(text) => Some(text.clone()),
        None => None,
    }
}

/// A copy of each text, in the same order.
pub(crate) fn copy_texts(texts: &Vec<String>) -> (copy: Vec<String>)
    ensures
        texts_of(copy@) == texts_of(texts@),
{
    let mut copy: Vec<String> = Vec::new();
    let mut at: usize = 0;
    while at < texts.len()
        invariant
            at <= texts.len(),
            copy@.len() == at,
            forall|i: int| 0 <= i < at ==> copy@[i]@ == texts@[i]@,
        decreases texts.len() - at,
    {
        copy.push(texts[at].clone());
        at += 1;
    }
    assert(texts_of(copy@) =~= texts_of(texts@));
    copy
}

} // verus!
