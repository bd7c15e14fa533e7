//! Initialising the database pool.
//!
//! Opening the pool is the host's work. What is decided here is the order of
//! events around it: the connection string must be configured before a
//! connection is attempted, one failed attempt is final, and the pool is ready
//! only once the database has accepted the connection.

use vstd::prelude::*;

verus! {

/// Why the pool could not be initialised. Either condition is fatal to startup.
#[derive(Debug, Clone, Copy, PartialEq, Eq, Structural)]
pub enum StartupError {
    /// The connection string is absent from the configuration.
    ConfigurationMissing,
    /// The pool could not be established with the configured connection string.
    ConnectionError,
}

impl StartupError {
    /// The diagnostic that accompanies the error when the process gives up.
    pub open spec fn diagnostic(self) -> Seq<char> {
        match self {
            StartupError::ConfigurationMissing => "DATABASE_URL must be set in .env"@,
            StartupError::ConnectionError => "Failed to connect to DB"@,
        }
    }

    /// The diagnostic text for this error.
    pub fn message(&self) -> (text: String)
        ensures
            text@ == self.diagnostic(),
    {
        match self {
            StartupError::ConfigurationMissing => "DATABASE_URL must be set in .env".to_owned(),
            StartupError::ConnectionError => "Failed to connect to DB".to_owned(),
        }
    }
}

/// The process configuration, read once at startup and passed down.
#[derive(Debug, Clone, PartialEq, Eq)]
pub struct Config {
    /// The database connection string, if one is configured.
    pub database_url: Option<String>,
}

/// The mathematical value of a [`Config`].
pub struct ConfigView {
    pub database_url: Option<Seq<char>>,
}

impl View for Config {
    type V = ConfigView;

    open spec fn view(&self) -> ConfigView {
        ConfigView {
            database_url: match self.database_url {
                Some(url) => Some(url@),
                None => None,
            },
        }
    }
}

/// How far the initialisation of the pool has come.
#[derive(Debug, Clone, PartialEq, Eq)]
pub enum PoolState {
    /// The configuration has not been read yet.
    Unconfigured,
    /// A connection string is known and the pool is being opened with it.
    Connecting { database_url: String },
    /// The pool holds its initial connections and can be shared.
    Ready,
    /// Initialisation was abandoned.
    Failed { error: StartupError },
}

/// The mathematical value of a [`PoolState`].
pub enum PoolStateView {
    Unconfigured,
    Connecting { database_url: Seq<char> },
    Ready,
    Failed { error: StartupError },
}

impl View for PoolState {
    type V = PoolStateView;

    open spec fn view(&self) -> PoolStateView {
        match self {
            PoolState::Unconfigured => PoolStateView::Unconfigured,
            PoolState::Connecting { database_url } => PoolStateView::Connecting {
                database_url: database_url@,
            },
            PoolState::Ready => PoolStateView::Ready,
            PoolState::Failed { error } => PoolStateView::Failed { error: *error },
        }
    }
}

/// What the host reports back after doing what it was asked to do.
#[derive(Debug, Clone, PartialEq, Eq)]
pub enum PoolEvent {
    /// The configuration was read.
    Configured { config: Config },
    /// The database accepted the connection string.
    Connected,
    /// The attempt to open the pool failed.
    Refused,
}

/// The mathematical value of a [`PoolEvent`].
pub enum PoolEventView {
    Configured { config: ConfigView },
    Connected,
    Refused,
}

impl View for PoolEvent {
    type V = PoolEventView;

    open spec fn view(&self) -> PoolEventView {
        match self {
            PoolEvent::Configured { config } => PoolEventView::Configured { config: config@ },
            PoolEvent::Connected => PoolEventView::Connected,
            PoolEvent::Refused => PoolEventView::Refused,
        }
    }
}

/// The state that follows `state` when `event` is reported.
///
/// Reading the configuration leads to a connection attempt if it holds a
/// connection string and to `ConfigurationMissing` if it does not. The outcome
/// of the attempt leads to `Ready` or to `ConnectionError`. An event that does
/// not answer what the state is waiting for changes nothing; in particular
/// `Ready` and `Failed` are final.
pub open spec fn pool_step(state: PoolStateView, event: PoolEventView) -> PoolStateView {
    match (state, event) {
        (PoolStateView::Unconfigured, PoolEventView::Configured { config }) => {
            match config.database_url {
                Some(database_url) => PoolStateView::Connecting { database_url },
                None => PoolStateView::Failed { error: StartupError::ConfigurationMissing },
            }
        },
        (PoolStateView::Connecting { .. }, PoolEventView::Connected) => PoolStateView::Ready,
        (PoolStateView::Connecting { .. }, PoolEventView::Refused) => PoolStateView::Failed {
            error: StartupError::ConnectionError,
        },
        (state, _) => state,
    }
}

/// Advances the initialisation of the pool by one reported event.
pub fn init_db(state: PoolState, event: PoolEvent) -> (next: PoolState)
    ensures
        next@ == pool_step(state@, event@),
{
    match state {
        PoolState::Unconfigured => match event {
            PoolEvent::Configured { config } => match config.database_url {
                Some(database_url) => PoolState::Connecting { database_url },
                None => PoolState::Failed { error: StartupError::ConfigurationMissing },
            },
            _ => PoolState::Unconfigured,
        },
        PoolState::Connecting { database_url } => match event {
            PoolEvent::Connected => PoolState::Ready,
            PoolEvent::Refused => PoolState::Failed { error: StartupError::ConnectionError },
            _ => PoolState::Connecting { database_url },
        },
        PoolState::Ready => PoolState::Ready,
        PoolState::Failed { error } => PoolState::Failed { error },
    }
}

} // verus!
