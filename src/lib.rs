//! A wallet-connect bridge: clients send encrypted payment commands over a
//! relay, and this library decides what each one does. It holds the spend
//! quota ledger, the command model and its batch fan-out, the dispatcher's
//! answers, and the session controller's state machine with the set of
//! commands in flight.
pub mod codec;
pub mod command;
pub mod config;
pub mod dispatch;
pub mod encoding;
pub mod quota;
pub mod response;
pub mod session;
