//! Categorised errors of the transport layer.

use vstd::prelude::*;

verus! {

/// The category of a failure.
#[derive(Clone, Copy, Debug, PartialEq, Eq, Structural)]
pub enum ErrorKind {
    /// Resolution, binding, connecting, or establishing encryption failed.
    Connection,
    /// The caller asked for something the handle's state does not allow.
    Client,
    /// Certificate data could not be extracted from an encrypted session.
    Tls,
}

/// What caused a failure.
#[derive(Clone, Debug)]
pub enum Cause {
    /// Resolution produced no address to dial.
    Unresolved,
    /// The operation needs an encrypted connection.
    NotEncrypted,
    /// The domain is not a valid name to present to the server.
    InvalidDnsName,
    /// An underlying failure, described by its own text.
    Failure(String),
}

/// An error with its category and cause.
#[derive(Clone, Debug)]
pub struct TransportError {
    pub kind: ErrorKind,
    pub cause: Cause,
}

impl TransportError {
    /// A connection error with the given cause.
    pub fn connection(cause: Cause) -> (e: TransportError)
        ensures
            e == (TransportError { kind: ErrorKind::Connection, cause }),
    {
        TransportError { kind: ErrorKind::Connection, cause }
    }

    /// A usage error of the calling layer.
    pub fn client(cause: Cause) -> (e: TransportError)
        ensures
            e == (TransportError { kind: ErrorKind::Client, cause }),
    {
        TransportError { kind: ErrorKind::Client, cause }
    }

    /// An error while reading certificate data.
    pub fn tls(cause: Cause) -> (e: TransportError)
        ensures
            e == (TransportError { kind: ErrorKind::Tls, cause }),
    {
        TransportError { kind: ErrorKind::Tls, cause }
    }

    /// Whether this is a connection error.
    pub fn is_connection(&self) -> (r: bool)
        ensures
            r == (self.kind == ErrorKind::Connection),
    {
        self.kind == ErrorKind::Connection
    }

    /// Whether this is a usage error.
    pub fn is_client(&self) -> (r: bool)
        ensures
            r == (self.kind == ErrorKind::Client),
    {
        self.kind == ErrorKind::Client
    }
}

} // verus!
