//! The event queue bridge: a fixed-capacity double buffer.
//!
//! The owning side appends events to the *write* buffer; the consuming side
//! swaps the buffers and reads the retired one. A push that would exceed the
//! capacity is refused and changes nothing, so the owning side can wait for
//! the consumer to swap and then retry — backpressure instead of dropping or
//! growing without bound.
//!
//! All transitions are written through the two model functions
//! [`spec_push_many`] and [`spec_swap`], and the queue's laws are proved of
//! those functions below.

use vstd::prelude::*;
use crate::event::Event;
use crate::util::FixedVec;

verus! {

/// What a push does to the write buffer: appends the whole batch if it fits
/// within `cap`, otherwise leaves the buffer unchanged.
pub open spec fn spec_push_many(w: Seq<Event>, items: Seq<Event>, cap: nat) -> Seq<Event> {
    if w.len() + items.len() <= cap {
        w + items
    } else {
        w
    }
}

/// What a swap does to the pair (write buffer, read buffer): the write buffer
/// retires to the read side and a cleared buffer becomes the write target.
pub open spec fn spec_swap(w: Seq<Event>, r: Seq<Event>) -> (Seq<Event>, Seq<Event>) {
    (Seq::<Event>::empty(), w)
}

/// Two fixed-capacity event sequences and a selector saying which one is the
/// current write target; the other is the read target exposed to the consumer.
pub struct EventBuffer<const N: usize> {
    primary: FixedVec<Event, N>,
    secondary: FixedVec<Event, N>,
    write_primary: bool,
}

impl<const N: usize> EventBuffer<N> {
    /// Both halves respect the capacity.
    pub closed spec fn wf(&self) -> bool {
        self.primary.wf() && self.secondary.wf()
    }

    /// The contents of the current write target.
    pub closed spec fn write_seq(&self) -> Seq<Event> {
        if self.write_primary {
            self.primary@
        } else {
            self.secondary@
        }
    }

    /// The contents of the current read target.
    pub closed spec fn read_seq(&self) -> Seq<Event> {
        if self.write_primary {
            self.secondary@
        } else {
            self.primary@
        }
    }

    /// Creates an empty queue.
    pub fn new() -> (r: Self)
        ensures
            r.wf(),
            r.write_seq() == Seq::<Event>::empty(),
            r.read_seq() == Seq::<Event>::empty(),
    {
        EventBuffer { primary: FixedVec::new(), secondary: FixedVec::new(), write_primary: true }
    }

    /// Appends one event to the write buffer if there is room. The read
    /// buffer is never touched, so a batch already polled cannot change.
    pub fn push_event(&mut self, event: &Event) -> (r: bool)
        requires
            old(self).wf(),
        ensures
            final(self).wf(),
            final(self).write_seq() == spec_push_many(
                old(self).write_seq(),
                seq![*event],
                N as nat,
            ),
            final(self).read_seq() == old(self).read_seq(),
            r == (old(self).write_seq().len() + 1 <= N),
    {
        proof {
            assert(old(self).write_seq().push(*event) =~= old(self).write_seq() + seq![*event]);
        }
        if self.write_primary {
            self.primary.push(event)
        } else {
            self.secondary.push(event)
        }
    }

    /// Appends a whole batch to the write buffer if it all fits, else appends
    /// nothing. The read buffer is never touched.
    pub fn push_events(&mut self, items: &[Event]) -> (r: bool)
        requires
            old(self).wf(),
        ensures
            final(self).wf(),
            final(self).write_seq() == spec_push_many(
                old(self).write_seq(),
                items@,
                N as nat,
            ),
            final(self).read_seq() == old(self).read_seq(),
            r == (old(self).write_seq().len() + items@.len() <= N),
    {
        if self.write_primary {
            self.primary.push_many(items)
        } else {
            self.secondary.push_many(items)
        }
    }

    /// Retires the write buffer to the read side: clears the old read buffer,
    /// makes it the new write target, and exposes the batch accumulated since
    /// the previous swap through [`EventBuffer::events`].
    pub fn swap_events(&mut self)
        requires
            old(self).wf(),
        ensures
            final(self).wf(),
            final(self).write_seq() == spec_swap(
                old(self).write_seq(),
                old(self).read_seq(),
            ).0,
            final(self).read_seq() == spec_swap(
                old(self).write_seq(),
                old(self).read_seq(),
            ).1,
    {
        if self.write_primary {
            self.secondary.clear();
        } else {
            self.primary.clear();
        }
        self.write_primary = !self.write_primary;
    }

    /// Borrows the batch retired by the most recent swap.
    pub fn events(&self) -> (r: &[Event])
        ensures
            r@ == self.read_seq(),
    {
        if self.write_primary {
            self.secondary.slice()
        } else {
            self.primary.slice()
        }
    }
}

/// Law: a swap with no intervening pushes exposes an empty batch, so polling
/// twice in a row returns nothing the second time.
pub proof fn law_poll_idempotent(w: Seq<Event>, r: Seq<Event>)
    ensures
        ({
            let (w1, r1) = spec_swap(w, r);
            let (w2, r2) = spec_swap(w1, r1);
            r2 =~= Seq::<Event>::empty()
        }),
{
}

/// Law: events pushed before a swap appear in that swap's batch in push
/// order — `a` strictly before `b`, and nothing pushed afterwards between or
/// around them.
pub proof fn law_push_order(w: Seq<Event>, r: Seq<Event>, a: Event, b: Event, cap: nat)
    requires
        w.len() + 2 <= cap,
    ensures
        ({
            let w1 = spec_push_many(w, seq![a], cap);
            let w2 = spec_push_many(w1, seq![b], cap);
            let batch = spec_swap(w2, r).1;
            batch =~= w + seq![a, b] && batch[w.len() as int] == a && batch[
                w.len() as int + 1
            ] == b
        }),
{
    let w1 = spec_push_many(w, seq![a], cap);
    let w2 = spec_push_many(w1, seq![b], cap);
    assert(w2 =~= w + seq![a, b]);
}

/// Law: with the write buffer full, one more push is refused and drops
/// nothing; after a single swap the retried push succeeds, and the two polled
/// batches together carry all `cap + 1` events in push order.
pub proof fn law_backpressure(w: Seq<Event>, r: Seq<Event>, e: Event, cap: nat)
    requires
        w.len() == cap,
        cap >= 1,
    ensures
        spec_push_many(w, seq![e], cap) == w,
        ({
            let (w1, batch1) = spec_swap(w, r);
            let w2 = spec_push_many(w1, seq![e], cap);
            let (w3, batch2) = spec_swap(w2, batch1);
            batch1 + batch2 =~= w.push(e)
        }),
{
    let (w1, batch1) = spec_swap(w, r);
    let w2 = spec_push_many(w1, seq![e], cap);
    assert(w2 =~= seq![e]);
}

/// Law: no event crosses between batches. A poll's batch holds exactly the
/// events pushed before that swap; events pushed afterwards land in the
/// other buffer and come out, all of them and nothing else, with the next
/// swap.
pub proof fn law_no_cross_buffer_aliasing(
    w: Seq<Event>,
    r: Seq<Event>,
    later: Seq<Event>,
    cap: nat,
)
    requires
        later.len() <= cap,
    ensures
        ({
            let (w1, batch) = spec_swap(w, r);
            let w2 = spec_push_many(w1, later, cap);
            let (w3, next_batch) = spec_swap(w2, batch);
            batch == w && next_batch == later
        }),
{
    let (w1, batch) = spec_swap(w, r);
    assert(spec_push_many(w1, later, cap) =~= later);
}

} // verus!
