//! Core of a queue-token echo benchmark: a packet builder, a latency
//! recorder, a pending-token set, a completion dispatcher, the echo
//! server / ping-pong client state machines, the run configuration, and
//! closed-loop and open-loop runs of the paired machines over an ideal
//! in-memory substrate.
//!
//! The asynchronous socket substrate itself (socket, bind, listen, accept,
//! connect, push, pop, blocking wait) is an external collaborator: an
//! embedding runtime performs those operations and feeds every completion
//! back into the state machines defined here.

pub mod client;
pub mod config;
pub mod dispatch;
pub mod latency;
pub mod outcome;
pub mod packet;
pub mod pending;
pub mod server;
pub mod sim;
