//! JetStream backend: a durable stream read through a durable pull consumer.

pub mod errors;
pub mod options;
pub mod sub_fetcher;

pub use self::errors::NatsSubFetcherError;
pub use self::options::AckSubOptions;
pub use self::sub_fetcher::SubFetcher;
