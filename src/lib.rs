//! Transport layer of a mail client: candidate filtering, local binding
//! policy, a connection dialer, and a network stream handle that can be
//! upgraded in place from plain to encrypted.

pub mod addr;
pub mod dial;
pub mod error;
pub mod stream;
pub mod tls;
