//! A verified client-server session core: a typed packet container protocol,
//! validated login data, the client connection state machine, and the
//! server-side connection registry. Transport I/O and the host runtime's
//! scheduling live outside this crate; every decision they depend on is a
//! function in here, with a contract.

pub mod client;
pub mod dispatch;
pub mod login;
pub mod packet;
pub mod server;
