//! Connection settings for the two external services and the logger.
//!
//! The values are plain data; reading them from the configuration file and
//! the environment happens outside the library.

use vstd::prelude::*;

verus! {

/// Connection settings of the event-log database.
pub struct EventStore {
    pub url: String,
}

/// Connection settings of the search index.
pub struct MeiliSearch {
    pub url: String,
    pub api_key: String,
}

/// Log verbosity, lowest to highest severity.
#[derive(Clone, Copy, Debug, PartialEq, Eq, Structural)]
pub enum Level {
    TRACE,
    DEBUG,
    INFO,
    WARN,
    ERROR,
}

/// Logger settings.
pub struct Logger {
    pub level: Level,
}

/// The whole service configuration.
pub struct DelyConfig {
    pub eventstore: EventStore,
    pub meilisearch: MeiliSearch,
    pub logger: Logger,
}

} // verus!
