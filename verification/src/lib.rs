//! Core of an SMTP mail transfer system: a durable outbound mail queue
//! (modelled storage, retry policy, and the delivery state machine), the
//! SMTP wire-format command types with their parsers, and the framing
//! arithmetic of the sandboxed configuration ABI.

pub mod abi;
pub mod engine;
pub mod helo;
pub mod noop;
pub mod parse_helpers;
pub mod policy;
pub mod queue;
pub mod rcpt;
pub mod storage;
