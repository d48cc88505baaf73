//! What a server hands to its user: connections opening and closing, and
//! messages, each with the address of its client and, for a message, the
//! way back to it.
use vstd::prelude::*;

verus! {

/// Something that happened on a server.
#[derive(Debug)]
pub enum Event<M> {
    /// A client connected.
    Connected,
    /// A client's connection ended.
    Disconnected,
    /// A client sent a message.
    Message(M),
}

/// An event of a server, with the address `A` of the client it concerns
/// and, for a message, the request id and the channel `S` that carry a
/// reply back to that client.
#[derive(Debug)]
pub struct ServerEvent<M, A, S> {
    event: Event<M>,
    addr: A,
    sender: Option<(u16, S)>,
}

impl<M, A, S> ServerEvent<M, A, S> {
    /// Exactly the message events carry a way to reply.
    #[verifier::type_invariant]
    spec fn inv(&self) -> bool {
        self.sender is Some <==> self.event is Message
    }

    /// The event.
    pub closed spec fn kind(&self) -> Event<M> {
        self.event
    }

    /// The address of the client.
    pub closed spec fn origin(&self) -> A {
        self.addr
    }

    /// The request id and channel of a reply, for a message.
    pub closed spec fn reply_slot(&self) -> Option<(u16, S)> {
        self.sender
    }

    /// A client at `addr` connected.
    pub fn connected(addr: A) -> (e: Self)
        ensures
            e.kind() is Connected,
            e.origin() == addr,
            e.reply_slot() is None,
    {
        ServerEvent { event: Event::Connected, addr, sender: None }
    }

    /// The connection of the client at `addr` ended.
    pub fn disconnected(addr: A) -> (e: Self)
        ensures
            e.kind() is Disconnected,
            e.origin() == addr,
            e.reply_slot() is None,
    {
        ServerEvent { event: Event::Disconnected, addr, sender: None }
    }

    /// The client at `addr` sent `msg` under `req_id`; a reply goes into `chn`.
    pub fn message(addr: A, req_id: u16, chn: S, msg: M) -> (e: Self)
        ensures
            e.kind() == Event::Message(msg),
            e.origin() == addr,
            e.reply_slot() == Some((req_id, chn)),
    {
        ServerEvent { event: Event::Message(msg), addr, sender: Some((req_id, chn)) }
    }

    /// The address of the client.
    pub fn addr(&self) -> (a: A)
        where
            A: Copy,
        ensures
            a == self.origin(),
    {
        self.addr
    }

    /// The address of the client and the event.
    pub fn into_addr_event(self) -> (r: (A, Event<M>))
        ensures
            r == (self.origin(), self.kind()),
    {
        (self.addr, self.event)
    }

    /// Whether a client connected.
    pub fn is_connected(&self) -> (b: bool)
        ensures
            b == self.kind() is Connected,
    {
        match &self.event {
            Event::Connected => true,
            _ => false,
        }
    }

    /// Whether a client sent a message.
    pub fn is_message(&self) -> (b: bool)
        ensures
            b == self.kind() is Message,
    {
        match &self.event {
            Event::Message(_) => true,
            _ => false,
        }
    }

    /// The event.
    pub fn event(&self) -> (e: &Event<M>)
        ensures
            *e == self.kind(),
    {
        &self.event
    }

    /// The event, giving up the rest.
    pub fn into_event(self) -> (e: Event<M>)
        ensures
            e == self.kind(),
    {
        self.event
    }

    /// The request id and channel a reply to this event goes through:
    /// present exactly for a message.
    pub fn into_reply_slot(self) -> (r: Option<(u16, S)>)
        ensures
            r == self.reply_slot(),
            r is Some <==> self.kind() is Message,
    {
        proof { use_type_invariant(&self); }
        self.sender
    }
}

} // verus!
