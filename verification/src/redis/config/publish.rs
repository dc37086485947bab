use vstd::prelude::*;

verus! {

/// What a [`PublisherConfig`] holds.
pub struct PublisherConfigView {
    /// Name of the consumer group created with the stream; `None` stands for
    /// the name of the stream itself.
    pub group_name: Option<Seq<char>>,
    /// Length to which the stream is trimmed, approximately.
    pub stream_length: usize,
}

/// Settings of a Redis stream publisher.
#[derive(Clone, Debug)]
pub struct PublisherConfig {
    group_name: Option<String>,
    stream_length: usize,
}

/// Stream length kept when none is set.
pub const MAX_STREAM_LENGTH_DEFAULT: usize = 500_000;

impl View for PublisherConfig {
    type V = PublisherConfigView;

    closed spec fn view(&self) -> PublisherConfigView {
        PublisherConfigView {
            group_name: match self.group_name {
                Some(name) => Some(name@),
                None => None,
            },
            stream_length: self.stream_length,
        }
    }
}

impl PublisherConfig {
    /// The default settings: the group is named after the stream, and the
    /// stream keeps up to 500,000 entries.
    pub fn new() -> (cfg: Self)
        ensures
            cfg@ == (PublisherConfigView {
                group_name: None,
                stream_length: MAX_STREAM_LENGTH_DEFAULT,
            }),
    {
        PublisherConfig { group_name: None, stream_length: MAX_STREAM_LENGTH_DEFAULT }
    }

    /// Sets the name of the consumer group that is created with the stream.
    pub fn group_name(self, group_name: String) -> (cfg: Self)
        ensures
            cfg@ == (PublisherConfigView { group_name: Some(group_name@), ..self@ }),
    {
        let mut cfg = self;
        cfg.group_name = Some(group_name);
        cfg
    }

    /// Sets the length to which the stream is trimmed.
    pub fn stream_length(self, length: usize) -> (cfg: Self)
        ensures
            cfg@ == (PublisherConfigView { stream_length: length, ..self@ }),
    {
        let mut cfg = self;
        cfg.stream_length = length;
        cfg
    }

    /// The group name, where one was set.
    pub(crate) fn group(&self) -> (name: &Option<String>)
        ensures
            name is Some == self@.group_name is Some,
            name matches Some(n) ==> self@.group_name == Some(n@),
    {
        &self.group_name
    }

    /// The length to which the stream is trimmed.
    pub(crate) fn max_length(&self) -> (length: usize)
        ensures
            length == self@.stream_length,
    {
        self.stream_length
    }
}

} // verus!
