//! Core logic of a local peer-session service: the per-connection session
//! state machine with its heartbeat and error decisions, and the host
//! enumeration behind a subnet scan.

pub mod text;
pub mod selection;
pub mod protocol;
pub mod session;
pub mod scan;
