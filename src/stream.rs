//! The network stream handle: exactly one of a plain transport or an
//! encrypted one per backend, with an in-place upgrade from plain to
//! encrypted that never leaves the handle empty.
//!
//! The handle is generic over the transports it owns: `P` is the plain
//! socket, `N` and `R` the two encryption backends' streams over it.

use vstd::prelude::*;
use crate::error::{Cause, TransportError, ErrorKind};

verus! {

/// The transport a handle owns.
pub enum InnerNetworkStream<P, N, R> {
    /// Plain stream.
    Tcp(P),
    /// Stream encrypted by the native backend.
    NativeTls(N),
    /// Stream encrypted by the rustls backend.
    RustlsTls(R),
    /// Transient tag held only while an upgrade moves the plain stream out;
    /// never seen outside of it.
    Empty,
}

/// What an encryption handshake produces.
pub enum Encrypted<N, R> {
    NativeTls(N),
    RustlsTls(R),
}

/// The transport that an encrypted stream becomes in the handle.
pub open spec fn encrypted_inner<P, N, R>(e: Encrypted<N, R>) -> InnerNetworkStream<P, N, R> {
    match e {
        Encrypted::NativeTls(n) => InnerNetworkStream::NativeTls(n),
        Encrypted::RustlsTls(r) => InnerNetworkStream::RustlsTls(r),
    }
}

/// The usage error for asking an unencrypted handle for certificate data.
pub open spec fn not_encrypted_error() -> TransportError {
    TransportError { kind: ErrorKind::Client, cause: Cause::NotEncrypted }
}

/// A network stream: one owned transport, plain or encrypted.
pub struct NetworkStream<P, N, R> {
    inner: InnerNetworkStream<P, N, R>,
}

impl<P, N, R> NetworkStream<P, N, R> {
    /// The transport the handle owns.
    pub closed spec fn transport(&self) -> InnerNetworkStream<P, N, R> {
        self.inner
    }

    /// The handle holds a transport, never the transient tag.
    pub open spec fn wf(&self) -> bool {
        !(self.transport() is Empty)
    }

    /// Whether the owned transport is encrypted.
    pub open spec fn encrypted(&self) -> bool {
        self.transport() is NativeTls || self.transport() is RustlsTls
    }

    /// A handle over a freshly connected plain stream.
    pub fn new(plain: P) -> (s: Self)
        ensures
            s.wf(),
            s.transport() == InnerNetworkStream::<P, N, R>::Tcp(plain),
            !s.encrypted(),
    {
        NetworkStream { inner: InnerNetworkStream::Tcp(plain) }
    }

    /// A handle over an already encrypted stream.
    pub fn from_encrypted(stream: Encrypted<N, R>) -> (s: Self)
        ensures
            s.wf(),
            s.transport() == encrypted_inner::<P, N, R>(stream),
            s.encrypted(),
    {
        match stream {
            Encrypted::NativeTls(n) => NetworkStream { inner: InnerNetworkStream::NativeTls(n) },
            Encrypted::RustlsTls(r) => NetworkStream { inner: InnerNetworkStream::RustlsTls(r) },
        }
    }

    /// Whether the handle's transport is encrypted by any backend.
    pub fn is_encrypted(&self) -> (r: bool)
        requires
            self.wf(),
        ensures
            r == self.encrypted(),
    {
        match self.inner {
            InnerNetworkStream::Tcp(_) => false,
            InnerNetworkStream::NativeTls(_) => true,
            InnerNetworkStream::RustlsTls(_) => true,
            InnerNetworkStream::Empty => false,
        }
    }

    /// The owned transport, for the operations that act on it.
    pub fn inner(&self) -> (r: &InnerNetworkStream<P, N, R>)
        ensures
            *r == self.transport(),
    {
        &self.inner
    }

    /// The owned transport, mutably, for reading and writing.
    pub fn inner_mut(&mut self) -> (r: &mut InnerNetworkStream<P, N, R>)
        ensures
            *r == old(self).transport(),
            final(self).transport() == *final(r),
    {
        &mut self.inner
    }

    /// The DER encoding of the peer's first certificate, read from the
    /// encrypted transport by the backend's own reader. A plain handle gives
    /// a usage error, never a connection or certificate error, and no reader
    /// is called.
    pub fn peer_certificate<F, G>(&self, native: F, rustls: G) -> (r: Result<Vec<u8>, TransportError>) where
        F: FnOnce(&N) -> Result<Vec<u8>, TransportError>,
        G: FnOnce(&R) -> Result<Vec<u8>, TransportError>,

        requires
            self.wf(),
            forall|n: &N| #[trigger] native.requires((n,)),
            forall|t: &R| #[trigger] rustls.requires((t,)),
        ensures
            self.transport() is Tcp ==> r == Err::<Vec<u8>, TransportError>(not_encrypted_error()),
            self.transport() is NativeTls ==> native.ensures((&self.transport()->NativeTls_0,), r),
            self.transport() is RustlsTls ==> rustls.ensures((&self.transport()->RustlsTls_0,), r),
    {
        match &self.inner {
            InnerNetworkStream::NativeTls(n) => native(n),
            InnerNetworkStream::RustlsTls(t) => rustls(t),
            _ => Err(TransportError::client(Cause::NotEncrypted)),
        }
    }

    /// Upgrades a plain handle in place: the plain stream is handed to
    /// `handshake`, and the encrypted stream it returns replaces it. When
    /// the handshake fails it hands the plain stream back, and the handle
    /// keeps it. An already encrypted handle is left as it is, and
    /// `handshake` is not called.
    pub fn upgrade_tls<F>(&mut self, handshake: F) -> (r: Result<(), TransportError>) where
        F: FnOnce(P) -> Result<Encrypted<N, R>, (P, TransportError)>,

        requires
            old(self).wf(),
            forall|p: P| #[trigger] handshake.requires((p,)),
        ensures
            final(self).wf(),
            old(self).encrypted() ==> r is Ok && final(self).transport() == old(self).transport(),
            r is Ok ==> final(self).encrypted(),
            !old(self).encrypted() && r is Err ==> !final(self).encrypted(),
            old(self).transport() is Tcp ==> {
                let p = old(self).transport()->Tcp_0;
                match r {
                    Ok(_) => exists|e: Encrypted<N, R>|
                        #[trigger] handshake.ensures((p,), Ok(e)) && final(self).transport()
                            == encrypted_inner::<P, N, R>(e),
                    Err(err) => exists|q: P|
                        #[trigger] handshake.ensures((p,), Err((q, err)))
                            && final(self).transport() == InnerNetworkStream::<P, N, R>::Tcp(q),
                }
            },
    {
        if let InnerNetworkStream::Tcp(_) = &self.inner {
            let mut taken = InnerNetworkStream::Empty;
            std::mem::swap(&mut self.inner, &mut taken);
            match taken {
                InnerNetworkStream::Tcp(plain) => match handshake(plain) {
                    Ok(Encrypted::NativeTls(n)) => {
                        self.inner = InnerNetworkStream::NativeTls(n);
                        Ok(())
                    },
                    Ok(Encrypted::RustlsTls(t)) => {
                        self.inner = InnerNetworkStream::RustlsTls(t);
                        Ok(())
                    },
                    Err((plain, err)) => {
                        self.inner = InnerNetworkStream::Tcp(plain);
                        Err(err)
                    },
                },
                other => {
                    self.inner = other;
                    Ok(())
                },
            }
        } else {
            Ok(())
        }
    }
}

/// A handle made over a plain stream is not encrypted; once an upgrade has
/// put an encrypted stream in its place it is, and it still holds a
/// transport.
pub proof fn lemma_plain_then_encrypted<P, N, R>(
    plain: NetworkStream<P, N, R>,
    upgraded: NetworkStream<P, N, R>,
    e: Encrypted<N, R>,
)
    requires
        plain.transport() is Tcp,
        upgraded.transport() == encrypted_inner::<P, N, R>(e),
    ensures
        plain.wf() && !plain.encrypted(),
        upgraded.wf() && upgraded.encrypted(),
{
}

} // verus!
