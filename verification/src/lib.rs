//! Verified core of a small request/response messaging framework.
//!
//! The library holds the parts of the framework that decide and compute:
//! the wire framing of messages, the table of requests that wait for an
//! answer, the byte layout and key handling of the adapters that turn
//! messages into bytes, and the events a server hands to its user.
//! Sockets, tasks and channels live in the application around it.

pub mod bytes;
pub mod error;
pub mod frame;
pub mod req_map;
pub mod crypto;
pub mod adapter;
pub mod encrypted;
pub mod event;

use vstd::prelude::*;

verus! {

/// Values that may be moved and shared between the tasks of the framework.
pub trait SendSync: Send + Sync + 'static {}

impl<T> SendSync for T where T: Send + Sync + 'static {}

} // verus!
pub mod rsa_keys;
