//! Error reporting and random bytes for a binding over the native OpenSSL
//! library.
//!
//! The backend keeps a per-thread queue of error records. The code that calls
//! into the backend pops that queue and hands each popped entry to
//! [`error::ErrorStack::absorb`]; it replays a stack by executing the
//! requests that [`error::ErrorStack::put_requests`] plans. Everything that
//! decides what a record holds, how it is replayed and how it reads as text
//! is verified here.
pub mod error;
pub mod rand;
pub mod text;
