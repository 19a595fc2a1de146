//! Local-network peer discovery: a verified node registry with a broadcast
//! notification channel, and the announce/confirm protocol logic around it.
//!
//! The sockets, the HTTP confirmation call and the timed sleeps live outside
//! this crate; the decisions they act on are computed and proved here.

pub mod codec;
pub mod decimal;
pub mod peer;
pub mod protocol;
pub mod registry;
