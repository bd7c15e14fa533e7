//! The startup sequence of the process.
//!
//! The host runs a loop: it asks what to do next, does it, and reports what
//! happened to [`init_db`](crate::model::db::init_db). The sequence is: load
//! the configuration, open the pool, then bind the listener and serve. Any
//! failure on the way ends in an abort, and the listener is bound only once
//! the pool is ready.

use crate::model::db::{
    pool_step, ConfigView, PoolEventView, PoolState, PoolStateView, StartupError,
};
use vstd::prelude::*;

verus! {

/// What the host is to do next.
#[derive(Debug, Clone, PartialEq, Eq)]
pub enum Action {
    /// Read the configuration; the connection string is the value of `variable`
    /// in the process environment.
    LoadConfiguration { variable: String },
    /// Open the pool with this connection string. One attempt, no retry.
    Connect { database_url: String },
    /// Bind the listener and serve requests, sharing the pool with every handler.
    Listen { host: String, port: u16 },
    /// Terminate the process with the error's diagnostic, without binding.
    Abort { error: StartupError },
}

/// The mathematical value of an [`Action`].
pub enum ActionView {
    LoadConfiguration { variable: Seq<char> },
    Connect { database_url: Seq<char> },
    Listen { host: Seq<char>, port: u16 },
    Abort { error: StartupError },
}

impl View for Action {
    type V = ActionView;

    open spec fn view(&self) -> ActionView {
        match self {
            Action::LoadConfiguration { variable } => ActionView::LoadConfiguration {
                variable: variable@,
            },
            Action::Connect { database_url } => ActionView::Connect { database_url: database_url@ },
            Action::Listen { host, port } => ActionView::Listen { host: host@, port: *port },
            Action::Abort { error } => ActionView::Abort { error: *error },
        }
    }
}

/// The environment variable that holds the connection string.
pub open spec fn database_url_variable() -> Seq<char> {
    "DATABASE_URL"@
}

/// The address the listener binds to: loopback.
pub open spec fn listen_host() -> Seq<char> {
    "127.0.0.1"@
}

/// The TCP port the listener binds to.
pub const LISTEN_PORT: u16 = 8080;

/// The action that each state calls for.
pub open spec fn action_for(state: PoolStateView) -> ActionView {
    match state {
        PoolStateView::Unconfigured => ActionView::LoadConfiguration {
            variable: database_url_variable(),
        },
        PoolStateView::Connecting { database_url } => ActionView::Connect { database_url },
        PoolStateView::Ready => ActionView::Listen { host: listen_host(), port: LISTEN_PORT },
        PoolStateView::Failed { error } => ActionView::Abort { error },
    }
}

/// Tells the host what to do in `state`.
pub fn next_action(state: &PoolState) -> (action: Action)
    ensures
        action@ == action_for(state@),
{
    match state {
        PoolState::Unconfigured => Action::LoadConfiguration {
            variable: "DATABASE_URL".to_owned(),
        },
        PoolState::Connecting { database_url } => Action::Connect {
            database_url: database_url.clone(),
        },
        PoolState::Ready => Action::Listen { host: "127.0.0.1".to_owned(), port: LISTEN_PORT },
        PoolState::Failed { error } => Action::Abort { error: *error },
    }
}

/// The state reached from `state` after the host has reported `events` in order.
pub open spec fn run(state: PoolStateView, events: Seq<PoolEventView>) -> PoolStateView
    decreases events.len(),
{
    if events.len() == 0 {
        state
    } else {
        run(pool_step(state, events[0]), events.drop_first())
    }
}

/// The state after the first `n` of `events`, counted from the very start of
/// the process.
pub open spec fn state_after(events: Seq<PoolEventView>, n: int) -> PoolStateView {
    run(PoolStateView::Unconfigured, events.take(n))
}

/// A failure is final: whatever is reported afterwards, the state stays as it is.
pub proof fn lemma_failed_is_final(error: StartupError, events: Seq<PoolEventView>)
    ensures
        run(PoolStateView::Failed { error }, events) == (PoolStateView::Failed { error }),
    decreases events.len(),
{
    if events.len() > 0 {
        lemma_failed_is_final(error, events.drop_first());
    }
}

/// A configuration that omits the connection string makes startup fail before
/// any listener is bound: from the moment it is read the host is told to abort
/// with `ConfigurationMissing`, and at no moment is it told to listen, whatever
/// else is reported later.
pub proof fn lemma_missing_configuration_aborts(config: ConfigView, later: Seq<PoolEventView>)
    requires
        config.database_url is None,
    ensures
        ({
            let events = seq![PoolEventView::Configured { config }] + later;
            &&& forall|n: int|
                1 <= n <= events.len() ==> #[trigger] state_after(events, n) == (
                PoolStateView::Failed { error: StartupError::ConfigurationMissing })
            &&& forall|n: int|
                0 <= n <= events.len() ==> !(action_for(#[trigger] state_after(events, n))
                    is Listen)
        }),
{
    let events = seq![PoolEventView::Configured { config }] + later;
    let failed = PoolStateView::Failed { error: StartupError::ConfigurationMissing };
    assert forall|n: int| 1 <= n <= events.len() implies #[trigger] state_after(events, n)
        == failed by {
        lemma_failed_is_final(StartupError::ConfigurationMissing, events.take(n).drop_first());
    }
}

/// With a connection string configured and the database reachable, startup
/// succeeds: the host is asked to read the configuration, then to connect with
/// exactly that string, and then to bind the listener on the loopback address,
/// port 8080.
pub proof fn lemma_reachable_database_listens(database_url: Seq<char>)
    ensures
        ({
            let config = ConfigView { database_url: Some(database_url) };
            let events = seq![PoolEventView::Configured { config }, PoolEventView::Connected];
            &&& action_for(state_after(events, 0)) == (ActionView::LoadConfiguration {
                variable: database_url_variable(),
            })
            &&& action_for(state_after(events, 1)) == (ActionView::Connect { database_url })
            &&& state_after(events, 2) == PoolStateView::Ready
            &&& action_for(state_after(events, 2)) == (ActionView::Listen {
                host: listen_host(),
                port: 8080,
            })
        }),
{
    let config = ConfigView { database_url: Some(database_url) };
    let events = seq![PoolEventView::Configured { config }, PoolEventView::Connected];
    let connecting = PoolStateView::Connecting { database_url };
    assert(run(connecting, events.take(1).drop_first()) == connecting);
    let rest = events.take(2).drop_first();
    assert(run(PoolStateView::Ready, rest.drop_first()) == PoolStateView::Ready);
    assert(run(connecting, rest) == PoolStateView::Ready);
}

/// A single failed attempt to open the pool aborts startup: from then on the
/// host is told to abort with `ConnectionError`, and at no moment is it told
/// to listen, whatever else is reported later.
pub proof fn lemma_refused_connection_aborts(database_url: Seq<char>, later: Seq<PoolEventView>)
    ensures
        ({
            let config = ConfigView { database_url: Some(database_url) };
            let events = seq![PoolEventView::Configured { config }, PoolEventView::Refused]
                + later;
            &&& forall|n: int|
                2 <= n <= events.len() ==> #[trigger] state_after(events, n) == (
                PoolStateView::Failed { error: StartupError::ConnectionError })
            &&& forall|n: int|
                0 <= n <= events.len() ==> !(action_for(#[trigger] state_after(events, n))
                    is Listen)
        }),
{
    let config = ConfigView { database_url: Some(database_url) };
    let events = seq![PoolEventView::Configured { config }, PoolEventView::Refused] + later;
    let connecting = PoolStateView::Connecting { database_url };
    let failed = PoolStateView::Failed { error: StartupError::ConnectionError };
    assert forall|n: int| 2 <= n <= events.len() implies #[trigger] state_after(events, n)
        == failed by {
        let rest = events.take(n).drop_first();
        lemma_failed_is_final(StartupError::ConnectionError, rest.drop_first());
        assert(run(connecting, rest) == failed);
    }
    assert(run(connecting, events.take(1).drop_first()) == connecting);
}

/// In `events`, the configuration read at position `i` holds a connection
/// string and the database accepts the connection at the later position `j`.
pub open spec fn configured_then_connected(events: Seq<PoolEventView>, i: int, j: int) -> bool {
    &&& 0 <= i < j < events.len()
    &&& events[i] matches PoolEventView::Configured { config } && config.database_url is Some
    &&& events[j] == PoolEventView::Connected
}

/// Finds the accepted connection behind a pool that became ready while connecting.
proof fn connected_position(database_url: Seq<char>, events: Seq<PoolEventView>) -> (j: int)
    requires
        run(PoolStateView::Connecting { database_url }, events) == PoolStateView::Ready,
    ensures
        0 <= j < events.len(),
        events[j] == PoolEventView::Connected,
    decreases events.len(),
{
    let connecting = PoolStateView::Connecting { database_url };
    if events.len() == 0 {
        0
    } else {
        match pool_step(connecting, events[0]) {
            PoolStateView::Ready => 0,
            PoolStateView::Failed { error } => {
                lemma_failed_is_final(error, events.drop_first());
                0
            },
            _ => connected_position(database_url, events.drop_first()) + 1,
        }
    }
}

/// Finds the configuration and the accepted connection behind a ready pool.
proof fn ready_positions(events: Seq<PoolEventView>) -> (at: (int, int))
    requires
        run(PoolStateView::Unconfigured, events) == PoolStateView::Ready,
    ensures
        configured_then_connected(events, at.0, at.1),
    decreases events.len(),
{
    if events.len() == 0 {
        (0, 0)
    } else {
        match pool_step(PoolStateView::Unconfigured, events[0]) {
            PoolStateView::Connecting { database_url } => {
                let j = connected_position(database_url, events.drop_first());
                (0, j + 1)
            },
            PoolStateView::Failed { error } => {
                lemma_failed_is_final(error, events.drop_first());
                (0, 0)
            },
            _ => {
                let at = ready_positions(events.drop_first());
                (at.0 + 1, at.1 + 1)
            },
        }
    }
}

/// The process never serves without a working pool: if the host is told to
/// listen after `events`, then among them a configuration with a connection
/// string was read and, later, the database accepted the connection.
pub proof fn lemma_listen_needs_pool(events: Seq<PoolEventView>)
    requires
        action_for(run(PoolStateView::Unconfigured, events)) is Listen,
    ensures
        exists|i: int, j: int| configured_then_connected(events, i, j),
{
    ready_positions(events);
}

} // verus!
