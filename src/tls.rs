//! Setting up the rustls client state for an upgrade: the domain must be a
//! valid server name, and the client connection is built from the shared
//! configuration. The handshake itself runs over the socket, outside.

use std::sync::Arc;
use vstd::prelude::*;
use crate::error::{Cause, ErrorKind, TransportError};

verus! {

#[verifier::external_type_specification]
#[verifier::external_body]
pub struct ExClientConfig(rustls::ClientConfig);

#[verifier::external_type_specification]
#[verifier::external_body]
pub struct ExClientConnection(rustls::ClientConnection);

#[verifier::external_type_specification]
#[verifier::external_body]
pub struct ExServerName(rustls::ServerName);

#[verifier::external_type_specification]
#[verifier::external_body]
pub struct ExInvalidDnsNameError(rustls::client::InvalidDnsNameError);

#[verifier::external_type_specification]
#[verifier::external_body]
pub struct ExRustlsError(rustls::Error);

/// Whether rustls accepts `domain` as the name of a server: a valid DNS
/// name, or else an IP address literal.
pub uninterp spec fn is_server_name(domain: Seq<char>) -> bool;

/// Relies on `rustls::ServerName::try_from(&str)`, which succeeds exactly
/// when the text is a valid DNS name or an IP address literal.
#[verifier::external_body]
fn server_name(domain: &str) -> (r: Result<rustls::ServerName, rustls::client::InvalidDnsNameError>)
    ensures
        r is Ok <==> is_server_name(domain@),
{
    rustls::ServerName::try_from(domain)
}

/// Relies on `rustls::ClientConnection::new`, which builds the client state
/// for `name` from a share of `config`; it does no I/O.
#[verifier::external_body]
fn new_client_connection(config: &Arc<rustls::ClientConfig>, name: rustls::ServerName) -> (r:
    Result<rustls::ClientConnection, rustls::Error>) {
    rustls::ClientConnection::new(Arc::clone(config), name)
}

/// Relies on the `Display` impl of `rustls::Error` for its text.
#[verifier::external_body]
fn rustls_error_text(e: &rustls::Error) -> (r: String) {
    e.to_string()
}

/// Builds the rustls client state for a connection to `domain`. A domain
/// that is not a valid server name is a connection error with cause
/// `InvalidDnsName`; otherwise the client state is built, or its failure is
/// a connection error carrying rustls's description.
pub fn rustls_connection(domain: &str, config: &Arc<rustls::ClientConfig>) -> (r: Result<
    rustls::ClientConnection,
    TransportError,
>)
    ensures
        r is Err ==> r->Err_0.kind == ErrorKind::Connection,
        !is_server_name(domain@) <==> (r is Err && r->Err_0.cause is InvalidDnsName),
        is_server_name(domain@) && r is Err ==> r->Err_0.cause is Failure,
{
    let name = match server_name(domain) {
        Ok(name) => name,
        Err(_) => {
            return Err(TransportError::connection(Cause::InvalidDnsName));
        },
    };
    match new_client_connection(config, name) {
        Ok(conn) => Ok(conn),
        Err(e) => Err(TransportError::connection(Cause::Failure(rustls_error_text(&e)))),
    }
}

} // verus!
