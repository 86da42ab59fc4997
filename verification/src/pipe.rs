use vstd::prelude::*;
use crate::bus_link::bus_add_rx;
use crate::bus_link::bus_broadcast;
use crate::bus_link::bus_capacity;
use crate::bus_link::bus_history;
use crate::bus_link::bus_new;
use crate::bus_link::bus_recv;
use crate::bus_link::bus_try_broadcast;
use crate::bus_link::receiver_taken;

verus! {

/// The broadcast side of the fan-out pipeline. It owns the bounded bus; every
/// block handed to `broadcast_block` is delivered, in order, to every `Tap`
/// registered before broadcasting began.
pub struct Pipe {
    bus: bus::Bus<Vec<u8>>,
    started: bool,
}

impl Pipe {
    /// The blocks broadcast so far, in broadcast order.
    pub closed spec fn history(&self) -> Seq<Seq<u8>> {
        bus_history(self.bus)
    }

    /// The per-receiver capacity, in blocks, the pipe was created with.
    pub closed spec fn capacity(&self) -> nat {
        bus_capacity(self.bus)
    }

    /// Whether any block has been broadcast yet. Receivers must be registered
    /// while this is still false, or they would miss the leading blocks.
    pub closed spec fn started(&self) -> bool {
        self.started
    }

    pub open spec fn wf(&self) -> bool {
        &&& self.capacity() >= 1
        &&& (!self.started() ==> self.history() == Seq::<Seq<u8>>::empty())
    }

    /// A fresh pipe that lets every receiver lag the producer by up to
    /// `capacity` blocks before the producer is made to wait.
    pub fn new(capacity: usize) -> (p: Pipe)
        requires
            capacity >= 1,
        ensures
            p.wf(),
            !p.started(),
            p.history() == Seq::<Seq<u8>>::empty(),
            p.capacity() == capacity as nat,
    {
        Pipe { bus: bus_new(capacity), started: false }
    }

    pub fn is_started(&self) -> (s: bool)
        ensures
            s == self.started(),
    {
        self.started
    }

    /// Attach one receiver. Allowed only before the first broadcast, so that
    /// the new tap observes the stream from its very beginning.
    pub fn register(&mut self) -> (t: Tap)
        requires
            old(self).wf(),
            !old(self).started(),
        ensures
            final(self).wf(),
            !final(self).started(),
            final(self).history() == old(self).history(),
            final(self).capacity() == old(self).capacity(),
            t.taken() == Seq::<Seq<u8>>::empty(),
    {
        let rx = bus_add_rx(&mut self.bus);
        Tap { rx }
    }

    /// Broadcast one block to every registered tap, waiting while any tap
    /// still has `capacity` blocks pending.
    pub fn broadcast_block(&mut self, block: Vec<u8>)
        requires
            old(self).wf(),
        ensures
            final(self).wf(),
            final(self).started(),
            final(self).history() == old(self).history().push(block@),
            final(self).capacity() == old(self).capacity(),
    {
        bus_broadcast(&mut self.bus, block);
        self.started = true;
    }

    /// Broadcast one block if every registered tap has room for it; hand the
    /// block back unsent when the slowest tap's pending queue is still full.
    pub fn try_broadcast_block(&mut self, block: Vec<u8>) -> (r: Option<Vec<u8>>)
        requires
            old(self).wf(),
        ensures
            final(self).wf(),
            final(self).capacity() == old(self).capacity(),
            r is None ==> final(self).history() == old(self).history().push(block@)
                && final(self).started(),
            r is Some ==> final(self).history() == old(self).history() && r->0 == block
                && final(self).started() == old(self).started(),
    {
        match bus_try_broadcast(&mut self.bus, block) {
            Result::Ok(()) => {
                self.started = true;
                None
            },
            Result::Err(v) => Some(v),
        }
    }
}

/// One registered receiver of a pipe: yields the broadcast blocks in
/// broadcast order and then reports the end of the stream.
pub struct Tap {
    rx: bus::BusReader<Vec<u8>>,
}

impl Tap {
    /// The blocks this tap has taken so far, in arrival order.
    pub closed spec fn taken(&self) -> Seq<Seq<u8>> {
        receiver_taken(self.rx)
    }

    /// The next block of the stream, or `None` once the pipe was dropped and
    /// every outstanding block was taken; waits while the stream is still
    /// open but no block is pending yet.
    pub fn next_block(&mut self) -> (block: Option<Vec<u8>>)
        ensures
            block is Some ==> final(self).taken() == old(self).taken().push(block->0@),
            block is None ==> final(self).taken() == old(self).taken(),
    {
        bus_recv(&mut self.rx)
    }
}

} // verus!
