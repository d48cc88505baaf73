//! What an adapter exchanges with the connection: the messages it is
//! given to send and what it makes of the bytes it receives.
use vstd::prelude::*;
use crate::error::Error;

verus! {

/// A message handed to an adapter for sending.
#[derive(Debug)]
pub enum Outbound {
    /// The message that opens (client) or answers (server) a key exchange.
    Handshake,
    /// Any other message, already serialized.
    Data(Vec<u8>),
}

/// What an adapter makes of the bytes of one received frame.
#[derive(Debug)]
pub enum Inbound {
    /// The peer's part of a key exchange.
    Handshake,
    /// A message, still serialized.
    Data(Vec<u8>),
}

/// The model of a decoding outcome: the error text is left out.
pub enum Received {
    Handshake,
    Data(Seq<u8>),
    Failed,
}

/// The model of what `decode` returned.
pub open spec fn received(r: Result<Inbound, Error>) -> Received {
    match r {
        Ok(Inbound::Handshake) => Received::Handshake,
        Ok(Inbound::Data(p)) => Received::Data(p@),
        Err(_) => Received::Failed,
    }
}

/// A message type that carries the two messages of the key exchange of the
/// encrypted adapters. Implemented by the user's message type.
pub trait EncryptionTarget: Sized {
    /// The message a client sends to open the key exchange.
    fn request() -> Self;

    /// The message a server answers the key exchange with.
    fn response() -> Self;

    /// Whether this is the message that opens the key exchange.
    fn is_request(&self) -> bool;

    /// Whether this is the message that answers the key exchange.
    fn is_response(&self) -> bool;
}

/// The adapter that sends serialized messages as they are.
pub struct SimpleAdapter;

impl SimpleAdapter {
    /// A new simple adapter.
    pub fn new() -> (a: Self) {
        SimpleAdapter
    }

    /// Another simple adapter, for a new connection.
    pub fn cloned(&self) -> (a: Self) {
        SimpleAdapter
    }

    /// The bytes that carry a serialized message: the message itself.
    pub fn encode(&self, data: Vec<u8>) -> (out: Vec<u8>)
        ensures
            out@ == data@,
    {
        data
    }

    /// The serialized message in the bytes of a frame: all of them.
    pub fn decode(&self, bytes: &[u8]) -> (data: Vec<u8>)
        ensures
            data@ == bytes@,
    {
        crate::bytes::copy_range(bytes, 0, bytes.len())
    }
}

impl Default for SimpleAdapter {
    fn default() -> (a: Self) {
        SimpleAdapter::new()
    }
}

} // verus!
