//! Client side of a TCP/HTTP tunnel: the control-session handshake, the
//! dispatcher that turns announcements of inbound connections into relay
//! sessions, each relay session's pairing steps, and the duplex byte copy with
//! an optional mirror tap.
//!
//! Every decision is made here, as a state machine whose transitions are
//! stated in contracts; the sockets, the task runtime and the console are
//! driven by the caller, who performs each returned action and feeds back what
//! happened.
pub mod client;
pub mod frame;
pub mod handshake;
pub mod relay;
pub mod session;
