//! The life of the server, from an open socket to its return value.
//!
//! The caller owns the socket, the timers and the signals. It performs each
//! [`Command`] and reports what happened as an [`Event`]; [`Lifecycle::step`]
//! decides what comes next.

use vstd::prelude::*;
use crate::compression::CompressionPredicate;
use crate::cors::{build_cors, policy_of, texts, usable};
use crate::pipeline::{Header, Pipeline};
use crate::tls_config::TlsConfig;

verus! {

/// What the server is configured with.
#[derive(Clone, Debug, PartialEq, Eq)]
pub struct RestConfig {
    /// The TLS configuration, where connections are to be wrapped in TLS.
    pub tls: Option<TlsConfig>,
    /// The origins that cross-origin requests may come from.
    pub cors_allow_origins: Vec<String>,
    /// The headers to set on every response.
    pub extra_headers: Vec<Header>,
    /// The size above which responses are compressed, where compression is
    /// wanted.
    pub minimum_compression_size: Option<usize>,
}

/// How accepted connections are read.
#[derive(Clone, Copy, Debug, PartialEq, Eq, Structural)]
pub enum Transport {
    /// Bytes as they arrive.
    Plain,
    /// Bytes inside a TLS session.
    Tls,
}

/// Where the server stands. `E` is the caller's error value.
#[derive(Debug, PartialEq, Eq)]
pub enum Phase<E> {
    /// The listener is being prepared.
    OpeningListener,
    /// The TLS configuration is being loaded.
    ConfiguringTls,
    /// Connections are served while the shutdown signal is awaited. `race`
    /// holds the result of whichever of the two ended first, `ready` whether
    /// the readiness signal has fired.
    Running { race: Option<Result<(), E>>, ready: bool },
    /// The result has been returned.
    Finished,
}

/// What the caller does next.
#[derive(Debug, PartialEq, Eq)]
pub enum Command<E> {
    /// Read the listener's address and take up accepting on it.
    OpenListener,
    /// Load the certificate chain and the key, and build the TLS
    /// configuration.
    LoadTlsConfig,
    /// Serve connections over the given transport, wait for the shutdown
    /// signal, and fire the readiness signal, all three at once.
    Run(Transport),
    /// Keep waiting for the events that have not come yet.
    Continue,
    /// Stop, and return this.
    Return(Result<(), E>),
}

/// What the caller observed.
#[derive(Debug, PartialEq, Eq)]
pub enum Event<E> {
    /// The listener was prepared, or could not be.
    ListenerOpened(Result<(), E>),
    /// The TLS configuration was built, or refused.
    TlsConfigLoaded(Result<(), E>),
    /// The shutdown signal fired.
    ShutdownSignalled,
    /// The serve loop ended by itself.
    ServeEnded(Result<(), E>),
    /// The readiness signal was delivered.
    ReadinessTriggered,
}

/// The server's state: whether it was configured for TLS, and its phase.
#[derive(Debug, PartialEq, Eq)]
pub struct Lifecycle<E> {
    pub tls: bool,
    pub phase: Phase<E>,
}

/// The state and the command that follow `state` on `event`.
///
/// Failing to open the listener or to configure TLS ends the server with that
/// failure before anything is served. Of the serve loop and the shutdown
/// signal the first to end decides the result: success for the signal, the
/// loop's own result otherwise. The result is returned once the readiness
/// signal has been delivered as well. An event that the phase does not wait
/// for changes nothing.
pub open spec fn transition<E>(state: Lifecycle<E>, event: Event<E>) -> (Lifecycle<E>, Command<E>) {
    match (state.phase, event) {
        (Phase::OpeningListener, Event::ListenerOpened(Ok(_))) => if state.tls {
            (Lifecycle { tls: state.tls, phase: Phase::ConfiguringTls }, Command::LoadTlsConfig)
        } else {
            (
                Lifecycle { tls: state.tls, phase: Phase::Running { race: None, ready: false } },
                Command::Run(Transport::Plain),
            )
        },
        (Phase::OpeningListener, Event::ListenerOpened(Err(e))) => (
            Lifecycle { tls: state.tls, phase: Phase::Finished },
            Command::Return(Err(e)),
        ),
        (Phase::ConfiguringTls, Event::TlsConfigLoaded(Ok(_))) => (
            Lifecycle { tls: state.tls, phase: Phase::Running { race: None, ready: false } },
            Command::Run(Transport::Tls),
        ),
        (Phase::ConfiguringTls, Event::TlsConfigLoaded(Err(e))) => (
            Lifecycle { tls: state.tls, phase: Phase::Finished },
            Command::Return(Err(e)),
        ),
        (Phase::Running { race: None, ready }, Event::ShutdownSignalled) => settle(
            state.tls,
            Ok(()),
            ready,
        ),
        (Phase::Running { race: None, ready }, Event::ServeEnded(result)) => settle(
            state.tls,
            result,
            ready,
        ),
        (Phase::Running { race: None, ready: false }, Event::ReadinessTriggered) => (
            Lifecycle { tls: state.tls, phase: Phase::Running { race: None, ready: true } },
            Command::Continue,
        ),
        (Phase::Running { race: Some(result), ready: false }, Event::ReadinessTriggered) => (
            Lifecycle { tls: state.tls, phase: Phase::Finished },
            Command::Return(result),
        ),
        _ => (state, Command::Continue),
    }
}

/// What follows once the race between the serve loop and the shutdown signal
/// is decided with `result`.
pub open spec fn settle<E>(tls: bool, result: Result<(), E>, ready: bool) -> (Lifecycle<E>, Command<E>) {
    if ready {
        (Lifecycle { tls, phase: Phase::Finished }, Command::Return(result))
    } else {
        (
            Lifecycle { tls, phase: Phase::Running { race: Some(result), ready: false } },
            Command::Continue,
        )
    }
}

/// Prepares the server: builds the layers around the routes from the
/// configuration, and says what to do first.
///
/// Nothing has failed yet and nothing is served yet: the first command is to
/// open the listener.
pub fn start_rest_server<E>(rest_config: RestConfig) -> (started: (Pipeline, Lifecycle<E>, Command<E>))
    requires
        usable(texts(rest_config.cors_allow_origins@)),
    ensures
        started.0.extra_headers == rest_config.extra_headers,
        started.0.compression.minimum() == rest_config.minimum_compression_size,
        started.0.cors@ == policy_of(texts(rest_config.cors_allow_origins@)),
        started.1 == (Lifecycle::<E> { tls: rest_config.tls is Some, phase: Phase::OpeningListener }),
        started.2 == Command::<E>::OpenListener,
{
    let cors = build_cors(rest_config.cors_allow_origins.as_slice());
    let compression = CompressionPredicate::from_env(rest_config.minimum_compression_size);
    let pipeline = Pipeline { extra_headers: rest_config.extra_headers, compression, cors };
    let tls = rest_config.tls.is_some();
    (pipeline, Lifecycle { tls, phase: Phase::OpeningListener }, Command::OpenListener)
}

impl<E> Lifecycle<E> {
    /// Takes in one event.
    pub fn step(self, event: Event<E>) -> (next: (Lifecycle<E>, Command<E>))
        ensures
            next == transition(self, event),
    {
        let tls = self.tls;
        match (self.phase, event) {
            (Phase::OpeningListener, Event::ListenerOpened(opened)) => match opened {
                Ok(_) => if tls {
                    (Lifecycle { tls, phase: Phase::ConfiguringTls }, Command::LoadTlsConfig)
                } else {
                    (
                        Lifecycle { tls, phase: Phase::Running { race: None, ready: false } },
                        Command::Run(Transport::Plain),
                    )
                },
                Err(e) => (Lifecycle { tls, phase: Phase::Finished }, Command::Return(Err(e))),
            },
            (Phase::ConfiguringTls, Event::TlsConfigLoaded(loaded)) => match loaded {
                Ok(_) => (
                    Lifecycle { tls, phase: Phase::Running { race: None, ready: false } },
                    Command::Run(Transport::Tls),
                ),
                Err(e) => (Lifecycle { tls, phase: Phase::Finished }, Command::Return(Err(e))),
            },
            (Phase::Running { race: None, ready }, Event::ShutdownSignalled) => Self::decide(
                tls,
                Ok(()),
                ready,
            ),
            (Phase::Running { race: None, ready }, Event::ServeEnded(result)) => Self::decide(
                tls,
                result,
                ready,
            ),
            (Phase::Running { race: None, ready: false }, Event::ReadinessTriggered) => (
                Lifecycle { tls, phase: Phase::Running { race: None, ready: true } },
                Command::Continue,
            ),
            (Phase::Running { race: Some(result), ready: false }, Event::ReadinessTriggered) => (
                Lifecycle { tls, phase: Phase::Finished },
                Command::Return(result),
            ),
            (phase, _) => (Lifecycle { tls, phase }, Command::Continue),
        }
    }

    fn decide(tls: bool, result: Result<(), E>, ready: bool) -> (next: (Lifecycle<E>, Command<E>))
        ensures
            next == settle(tls, result, ready),
    {
        if ready {
            (Lifecycle { tls, phase: Phase::Finished }, Command::Return(result))
        } else {
            (
                Lifecycle { tls, phase: Phase::Running { race: Some(result), ready: false } },
                Command::Continue,
            )
        }
    }

    /// Whether the result has been returned.
    pub fn is_finished(&self) -> (done: bool)
        ensures
            done == (self.phase is Finished),
    {
        match self.phase {
            Phase::Finished => true,
            _ => false,
        }
    }
}

/// What an event says of the race between the serve loop and the shutdown
/// signal, if it ends it.
pub open spec fn race_result<E>(event: Event<E>) -> Option<Result<(), E>> {
    match event {
        Event::ShutdownSignalled => Some(Ok(())),
        Event::ServeEnded(result) => Some(result),
        _ => None,
    }
}

/// A server that has returned stays as it is, whatever is reported to it.
pub proof fn lemma_finished_is_final<E>(state: Lifecycle<E>, event: Event<E>)
    requires
        state.phase is Finished,
    ensures
        transition(state, event) == (state, Command::<E>::Continue),
{
}

/// A failure to open the listener or to configure TLS is returned at once:
/// nothing is served after it.
pub proof fn lemma_startup_failure_is_returned<E>(state: Lifecycle<E>, error: E)
    ensures
        state.phase is OpeningListener ==> transition(state, Event::ListenerOpened(Err(error)))
            == (Lifecycle::<E> { tls: state.tls, phase: Phase::Finished }, Command::Return(Err(error))),
        state.phase is ConfiguringTls ==> transition(state, Event::TlsConfigLoaded(Err(error)))
            == (Lifecycle::<E> { tls: state.tls, phase: Phase::Finished }, Command::Return(Err(error))),
{
}

/// The transport that is served is TLS exactly when the configuration asked
/// for it, and serving starts only from a prepared listener and, for TLS, a
/// loaded configuration.
pub proof fn lemma_transport_follows_configuration<E>(state: Lifecycle<E>, event: Event<E>)
    ensures
        match transition(state, event).1 {
            Command::Run(Transport::Plain) => !state.tls && state.phase is OpeningListener
                && event matches Event::ListenerOpened(Ok(_)),
            Command::Run(Transport::Tls) => state.phase is ConfiguringTls
                && event matches Event::TlsConfigLoaded(Ok(_)),
            _ => true,
        },
{
}

/// Once the serve loop or the shutdown signal has ended the race, the other
/// one no longer counts.
pub proof fn lemma_first_to_end_wins<E>(state: Lifecycle<E>, event: Event<E>)
    requires
        state.phase matches Phase::Running { race: Some(_), .. },
        race_result(event) is Some,
    ensures
        transition(state, event) == (state, Command::<E>::Continue),
{
}

/// A running server returns what ended the race, success for the shutdown
/// signal and the serve loop's own result otherwise, and it does so after the
/// readiness signal too has been delivered, whichever of the two comes first.
pub proof fn lemma_result_is_race_result<E>(tls: bool, event: Event<E>)
    requires
        race_result(event) is Some,
    ensures
        ({
            let running = Lifecycle::<E> { tls, phase: Phase::Running { race: None, ready: false } };
            let finished = Lifecycle::<E> { tls, phase: Phase::Finished };
            let returned = Command::Return(race_result(event)->0);
            &&& transition(running, event).1 == Command::<E>::Continue
            &&& transition(transition(running, event).0, Event::ReadinessTriggered) == (
                finished,
                returned,
            )
            &&& transition(running, Event::ReadinessTriggered).1 == Command::<E>::Continue
            &&& transition(transition(running, Event::ReadinessTriggered).0, event) == (
                finished,
                returned,
            )
        }),
{
}

} // verus!
