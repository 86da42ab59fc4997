use vstd::prelude::*;

verus! {

#[verifier::external_type_specification]
#[verifier::external_body]
#[verifier::reject_recursive_types(T)]
pub struct ExBus<T>(bus::Bus<T>);

#[verifier::external_type_specification]
#[verifier::external_body]
#[verifier::reject_recursive_types(T)]
pub struct ExBusReader<T>(bus::BusReader<T>);

/// The blocks broadcast on this bus so far, in broadcast order.
pub uninterp spec fn bus_history(b: bus::Bus<Vec<u8>>) -> Seq<Seq<u8>>;

/// The per-receiver capacity, in blocks, that this bus was created with.
pub uninterp spec fn bus_capacity(b: bus::Bus<Vec<u8>>) -> nat;

/// The blocks this receiver has taken off its bus so far, in arrival order.
pub uninterp spec fn receiver_taken(r: bus::BusReader<Vec<u8>>) -> Seq<Seq<u8>>;

/// Relies on bus::Bus::new: allocates a broadcast bus whose ring buffer lets
/// every receiver lag the producer by up to `capacity` blocks. Nothing has
/// been broadcast on a fresh bus.
#[verifier::external_body]
pub(crate) fn bus_new(capacity: usize) -> (b: bus::Bus<Vec<u8>>)
    requires
        capacity >= 1,
    ensures
        bus_history(b) == Seq::<Seq<u8>>::empty(),
        bus_capacity(b) == capacity as nat,
{
    bus::Bus::new(capacity)
}

/// Relies on bus::Bus::add_rx: attaches a new consumer that will observe all
/// future broadcasts on this bus; it has consumed nothing yet, and attaching
/// it broadcasts nothing.
#[verifier::external_body]
pub(crate) fn bus_add_rx(b: &mut bus::Bus<Vec<u8>>) -> (r: bus::BusReader<Vec<u8>>)
    ensures
        bus_history(*final(b)) == bus_history(*old(b)),
        bus_capacity(*final(b)) == bus_capacity(*old(b)),
        receiver_taken(r) == Seq::<Seq<u8>>::empty(),
{
    b.add_rx()
}

/// Relies on bus::Bus::broadcast: appends one block to the stream every
/// attached receiver observes, blocking the calling thread until the slowest
/// receiver's pending queue has room (backpressure).
#[verifier::external_body]
pub(crate) fn bus_broadcast(b: &mut bus::Bus<Vec<u8>>, block: Vec<u8>)
    ensures
        bus_history(*final(b)) == bus_history(*old(b)).push(block@),
        bus_capacity(*final(b)) == bus_capacity(*old(b)),
{
    b.broadcast(block)
}

/// Relies on bus::Bus::try_broadcast: like broadcast, but never blocks; when
/// some attached receiver still has a full pending queue the block is handed
/// back unsent instead.
#[verifier::external_body]
pub(crate) fn bus_try_broadcast(b: &mut bus::Bus<Vec<u8>>, block: Vec<u8>) -> (r: Result<
    (),
    Vec<u8>,
>)
    ensures
        r is Ok ==> bus_history(*final(b)) == bus_history(*old(b)).push(block@),
        r is Err ==> bus_history(*final(b)) == bus_history(*old(b)) && r->Err_0 == block,
        bus_capacity(*final(b)) == bus_capacity(*old(b)),
{
    b.try_broadcast(block)
}

/// Relies on bus::BusReader::recv: blocks until the next not-yet-taken block
/// of the bus's stream arrives and returns it, or returns `None` once the bus
/// has been dropped and every outstanding block has been taken.
#[verifier::external_body]
pub(crate) fn bus_recv(r: &mut bus::BusReader<Vec<u8>>) -> (block: Option<Vec<u8>>)
    ensures
        block is Some ==> receiver_taken(*final(r)) == receiver_taken(*old(r)).push(
            block->0@,
        ),
        block is None ==> receiver_taken(*final(r)) == receiver_taken(*old(r)),
{
    match r.recv() {
        Ok(v) => Some(v),
        Err(_) => None,
    }
}

} // verus!
