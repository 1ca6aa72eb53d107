//! A transport-agnostic JSON-RPC 2.0 core: the wire objects, the pending-call
//! registry, the timer wheel and the decisions of client and server sessions.
pub mod timerwheel;
pub mod callback;
pub mod timer;
pub mod json;
pub mod object;
pub mod client;
pub mod server;
