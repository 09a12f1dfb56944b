//! A bridge between a host application and a secure-messaging session.
//!
//! The library holds the decisions of the bridge: the flat record handed to the
//! host, the normalizer that turns one incoming content unit into at most one
//! message record, the per-command outcomes, and the consumer state machine that
//! runs commands one at a time against a session's store.
pub mod record;
pub mod content;
pub mod normalize;
pub mod receive;
pub mod command;
pub mod consumer;
