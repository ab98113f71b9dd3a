//! A bridge that lets any thread hand messages to a single-threaded update loop.
//!
//! Producers hold a cloneable [`CrossbeamEventSender`] and enqueue without blocking.
//! Once per tick the loop drains the matching [`CrossbeamEventReceiver`] and forwards
//! every message, in arrival order, to its own dispatch mechanism.
pub mod channel;
pub mod drain;
pub mod model;
pub mod sender;

pub use channel::{RecvFailure, SendFailure};
pub use drain::{CrossbeamEventReceiver, DrainReport};
pub use sender::{new_channel, send_policy, CrossbeamEventSender, QueueFull, SendStatus};
