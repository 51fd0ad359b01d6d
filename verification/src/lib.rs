//! Unix domain sockets for an event loop that watches file descriptors.
//!
//! The library holds every decision that such a socket takes: which address a
//! path becomes, which system calls a connection makes and what each reply
//! means, when a task has to wait, and which tasks an event wakes. It performs
//! none of the calls itself. Each operation that needs one is a function from
//! an event to an action; the caller performs the action and hands back what
//! came of it as the next event.

pub mod address;
pub mod condition;
pub mod connect;
pub mod error;
pub mod gio;
pub mod listener;
pub mod outside;
pub mod platform;
pub mod socket;
pub mod source;
pub mod state;
pub mod stream;

pub use connect::UnixStreamConnect;
pub use listener::UnixListener;
pub use stream::UnixStream;
