//! One source of connections, with or without TLS.
//!
//! The server loop is written once. Whether connections are wrapped in TLS
//! is decided when the source is built, and every accepted connection says
//! of itself which of the two it is.

use vstd::prelude::*;
use std::sync::Arc;
use crate::tls_config::{alpn_preference, checked_setup, config_alpn, make_rustls_config};
use crate::tls_config::{FileRead, IoError, TlsConfig};
use crate::tls_stream::{State, TlsStream};

verus! {

/// What asking a listener for its next connection gave.
#[derive(Debug, PartialEq, Eq)]
pub enum Accepted<C, E> {
    /// No connection is waiting yet.
    Pending,
    /// The listener is closed: no connection will come.
    Closed,
    /// A connection.
    Connection(C),
    /// Accepting failed.
    Failed(E),
}

/// One of two things that are used alike: the TLS one on the left, the plain
/// one on the right.
#[derive(Debug, PartialEq, Eq)]
pub enum EitherIncoming<L, R> {
    Left(L),
    Right(R),
}

/// A listener whose connections are wrapped in TLS, with the configuration
/// that all of them share.
pub struct TlsAcceptor<I> {
    config: Arc<rustls::ServerConfig>,
    incoming: I,
}

/// An accepted connection that will speak TLS: the raw connection, the
/// shared configuration for its handshake, and its protocol state.
pub struct TlsConnection<S> {
    pub socket: S,
    pub config: Arc<rustls::ServerConfig>,
    pub stream: TlsStream,
}

/// What is needed to configure TLS: the configuration and what its two
/// files gave.
pub struct TlsSetup {
    pub config: TlsConfig,
    pub cert_file: FileRead,
    pub key_file: FileRead,
}

impl<I> TlsAcceptor<I> {
    /// The listener inside.
    pub closed spec fn incoming(&self) -> I {
        self.incoming
    }

    /// The configuration that the connections share.
    pub closed spec fn config(&self) -> Arc<rustls::ServerConfig> {
        self.config
    }

    /// A TLS listener on top of `incoming`.
    pub fn new(config: Arc<rustls::ServerConfig>, incoming: I) -> (acceptor: TlsAcceptor<I>)
        ensures
            acceptor.incoming() == incoming,
            acceptor.config() == config,
    {
        TlsAcceptor { config, incoming }
    }

    /// The listener inside, for the caller to ask for the next connection.
    pub fn listener(&mut self) -> (incoming: &mut I)
        ensures
            *incoming == old(self).incoming(),
            final(self).incoming() == *final(incoming),
            final(self).config() == old(self).config(),
    {
        &mut self.incoming
    }

    /// Wraps what the listener inside gave: a raw connection becomes a TLS
    /// connection whose handshake has not begun, and everything else is
    /// handed on as it is.
    pub fn poll_accept<S, E>(&self, polled: Accepted<S, E>) -> (wrapped: Accepted<TlsConnection<S>, E>)
        ensures
            match polled {
                Accepted::Pending => wrapped is Pending,
                Accepted::Closed => wrapped is Closed,
                Accepted::Connection(socket) => wrapped matches Accepted::Connection(connection)
                    && connection.socket == socket && connection.config == self.config()
                    && connection.stream.state() == State::Handshaking,
                Accepted::Failed(error) => wrapped == Accepted::<TlsConnection<S>, E>::Failed(error),
            },
    {
        match polled {
            Accepted::Pending => Accepted::Pending,
            Accepted::Closed => Accepted::Closed,
            Accepted::Connection(socket) => Accepted::Connection(
                TlsConnection { socket, config: self.config.clone(), stream: TlsStream::new() },
            ),
            Accepted::Failed(error) => Accepted::Failed(error),
        }
    }
}

impl<L, R> EitherIncoming<L, R> {
    /// A view of whichever of the two is held.
    pub fn as_ref(&self) -> (held: EitherIncoming<&L, &R>)
        ensures
            match *self {
                EitherIncoming::Left(left) => held == EitherIncoming::<&L, &R>::Left(&left),
                EitherIncoming::Right(right) => held == EitherIncoming::<&L, &R>::Right(&right),
            },
    {
        match self {
            EitherIncoming::Left(left) => EitherIncoming::Left(left),
            EitherIncoming::Right(right) => EitherIncoming::Right(right),
        }
    }
}

/// What the source of connections gives, whichever listener was asked: a
/// connection keeps the side it came from, everything else is handed on as it
/// is.
pub fn poll_accept<L, R, E>(polled: EitherIncoming<Accepted<L, E>, Accepted<R, E>>) -> (accepted:
    Accepted<EitherIncoming<L, R>, E>)
    ensures
        accepted == match polled {
            EitherIncoming::Left(Accepted::Pending) | EitherIncoming::Right(Accepted::Pending) => Accepted::Pending,
            EitherIncoming::Left(Accepted::Closed) | EitherIncoming::Right(Accepted::Closed) => Accepted::Closed,
            EitherIncoming::Left(Accepted::Connection(left)) => Accepted::Connection(
                EitherIncoming::Left(left),
            ),
            EitherIncoming::Right(Accepted::Connection(right)) => Accepted::Connection(
                EitherIncoming::Right(right),
            ),
            EitherIncoming::Left(Accepted::Failed(error)) | EitherIncoming::Right(
                Accepted::Failed(error),
            ) => Accepted::Failed(error),
        },
{
    match polled {
        EitherIncoming::Left(left) => match left {
            Accepted::Pending => Accepted::Pending,
            Accepted::Closed => Accepted::Closed,
            Accepted::Connection(connection) => Accepted::Connection(EitherIncoming::Left(connection)),
            Accepted::Failed(error) => Accepted::Failed(error),
        },
        EitherIncoming::Right(right) => match right {
            Accepted::Pending => Accepted::Pending,
            Accepted::Closed => Accepted::Closed,
            Accepted::Connection(connection) => Accepted::Connection(EitherIncoming::Right(connection)),
            Accepted::Failed(error) => Accepted::Failed(error),
        },
    }
}

/// Builds the source of connections on top of a listener: plain where no TLS
/// is configured, and wrapped in TLS where it is.
///
/// A TLS setup that [`checked_setup`] refuses is refused here with the same
/// text, before any connection is accepted; so is one whose key the TLS
/// library refuses.
pub fn connection_source<I>(tls: Option<TlsSetup>, incoming: I) -> (source: Result<
    EitherIncoming<TlsAcceptor<I>, I>,
    IoError,
>)
    ensures
        match tls {
            None => source == Ok::<EitherIncoming<TlsAcceptor<I>, I>, IoError>(
                EitherIncoming::Right(incoming),
            ),
            Some(setup) => {
                &&& source matches Ok(made) ==> made matches EitherIncoming::Left(acceptor)
                    && acceptor.incoming() == incoming && config_alpn(*acceptor.config())
                    == alpn_preference()
                &&& checked_setup(setup.config, setup.cert_file, setup.key_file) matches Err(text)
                    ==> source matches Err(failure) && failure.message@ == text
                &&& setup.config.validate_client ==> source is Err
            },
        },
{
    match tls {
        None => Ok(EitherIncoming::Right(incoming)),
        Some(setup) => match make_rustls_config(&setup.config, setup.cert_file, setup.key_file) {
            Ok(config) => Ok(EitherIncoming::Left(TlsAcceptor::new(config, incoming))),
            Err(failure) => Err(failure),
        },
    }
}

} // verus!
