//! The table of requests that wait for their answer.
//!
//! Each request draws the next id from a 16-bit counter that wraps
//! around; the id is refused when a request with the same id still
//! waits. An answer that arrives under an id hands back the waiter that
//! was stored for it and frees the id.
use vstd::prelude::*;
use std::collections::HashMap;
use crate::error::Error;

verus! {

broadcast use vstd::std_specs::hash::group_hash_axioms;

/// The id that follows `id` on the wrapping 16-bit counter.
pub open spec fn next_after(id: u16) -> u16 {
    if id == u16::MAX {
        0
    } else {
        (id + 1) as u16
    }
}

/// The table of pending requests. `W` is whatever the caller keeps to
/// deliver the answer (for instance the sending half of a channel).
pub struct RequestMap<W> {
    current: u16,
    map: HashMap<u16, W>,
}

impl<W> RequestMap<W> {
    /// The id the next request will draw.
    pub closed spec fn next_id(&self) -> u16 {
        self.current
    }

    /// The waiters of the pending requests, by id.
    pub closed spec fn pending(&self) -> Map<u16, W> {
        self.map@
    }

    /// An empty table whose first id is 0.
    pub fn new() -> (m: Self)
        ensures
            m.next_id() == 0,
            m.pending() == Map::<u16, W>::empty(),
    {
        RequestMap { current: 0, map: HashMap::new() }
    }

    /// Draws the next id for a request whose answer goes to `waiter`.
    ///
    /// The counter moves on in any case. When the drawn id still belongs
    /// to a pending request, the request is refused with
    /// `Error::IdCollision` and the table keeps its requests; otherwise
    /// `waiter` is stored under the id and the id is returned.
    pub fn push(&mut self, waiter: W) -> (res: Result<u16, Error>)
        ensures
            final(self).next_id() == next_after(old(self).next_id()),
            final(self).next_id() as int == (old(self).next_id() as int + 1) % 0x1_0000,
            old(self).pending().contains_key(old(self).next_id()) ==> {
                &&& res matches Err(e) && e is IdCollision
                &&& final(self).pending() == old(self).pending()
            },
            !old(self).pending().contains_key(old(self).next_id()) ==> {
                &&& res == Ok::<u16, Error>(old(self).next_id())
                &&& final(self).pending() == old(self).pending().insert(old(self).next_id(), waiter)
            },
    {
        let this = self.current;
        self.current = if this == u16::MAX { 0 } else { this + 1 };
        if self.map.contains_key(&this) {
            Err(Error::IdCollision)
        } else {
            self.map.insert(this, waiter);
            Ok(this)
        }
    }

    /// Takes the waiter of the request with id `id` out of the table, if
    /// one is pending; the id is then free again.
    pub fn notify(&mut self, id: u16) -> (res: Option<W>)
        ensures
            final(self).next_id() == old(self).next_id(),
            final(self).pending() == old(self).pending().remove(id),
            res == (if old(self).pending().contains_key(id) {
                Some(old(self).pending()[id])
            } else {
                None::<W>
            }),
    {
        self.map.remove(&id)
    }
}

/// A request that was accepted is answered exactly once: notifying its id
/// hands back its waiter and leaves the other pending requests as they were.
pub proof fn lemma_push_then_notify<W>(pending: Map<u16, W>, id: u16, waiter: W)
    requires
        !pending.contains_key(id),
    ensures
        pending.insert(id, waiter).contains_key(id),
        pending.insert(id, waiter)[id] == waiter,
        pending.insert(id, waiter).remove(id) == pending,
{
    assert(pending.insert(id, waiter).remove(id) =~= pending);
}

/// Notifying an id that no request holds changes nothing.
pub proof fn lemma_notify_unknown<W>(pending: Map<u16, W>, id: u16)
    requires
        !pending.contains_key(id),
    ensures
        pending.remove(id) == pending,
{
    assert(pending.remove(id) =~= pending);
}

/// Ids are drawn in turn: a run of `k` draws from `start`, with
/// `k <= 65536`, never draws the same id twice.
pub open spec fn draw(start: u16, k: nat) -> u16
    decreases k,
{
    if k == 0 {
        start
    } else {
        next_after(draw(start, (k - 1) as nat))
    }
}

/// The `k`-th draw after `start` is `start + k` modulo 65536.
pub proof fn lemma_draw_value(start: u16, k: nat)
    ensures
        draw(start, k) as int == (start as int + k) % 0x1_0000,
    decreases k,
{
    if k > 0 {
        lemma_draw_value(start, (k - 1) as nat);
    }
}

/// Within 65536 consecutive draws no id comes up twice.
pub proof fn lemma_draws_distinct(start: u16, i: nat, j: nat)
    requires
        i < j < 0x1_0000,
    ensures
        draw(start, i) != draw(start, j),
{
    lemma_draw_value(start, i);
    lemma_draw_value(start, j);
}

} // verus!
