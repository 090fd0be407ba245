//! The bounded single-producer/single-consumer queue primitive, taken as a
//! given building block from the `rtrb` crate. The other endpoint of each
//! queue lives on another thread, so nothing can be promised about which
//! value a pop yields or when a push finds room; the server's logic is
//! verified for every outcome of these calls.

use vstd::prelude::*;

verus! {

/// The sending endpoint of an `rtrb` ring buffer.
#[verifier::external_type_specification]
#[verifier::external_body]
#[verifier::reject_recursive_types(T)]
pub struct ExProducer<T>(rtrb::Producer<T>);

/// The receiving endpoint of an `rtrb` ring buffer.
#[verifier::external_type_specification]
#[verifier::external_body]
#[verifier::reject_recursive_types(T)]
pub struct ExConsumer<T>(rtrb::Consumer<T>);

/// Relies on rtrb::Consumer::pop: moves the next element out of the queue,
/// or reports that the queue was momentarily empty. Which element (if any)
/// arrives depends on the producer thread, so nothing is promised of it.
#[verifier::external_body]
pub(crate) fn queue_pop<T>(c: &mut rtrb::Consumer<T>) -> (r: Option<T>) {
    c.pop().ok()
}

/// Relies on rtrb::Producer::push: moves `value` into the queue, or, when
/// the queue was full, hands the very same value back.
#[verifier::external_body]
pub(crate) fn queue_push<T>(p: &mut rtrb::Producer<T>, value: T) -> (r: Option<T>)
    ensures
        r matches Some(v) ==> v == value,
{
    match p.push(value) {
        Ok(()) => None,
        Err(rtrb::PushError::Full(v)) => Some(v),
    }
}

/// Relies on rtrb::Producer::is_full: whether the queue had no free slot at
/// the moment of the call. The consumer thread may free a slot at any time,
/// so the answer is only a snapshot and nothing is promised of it.
#[verifier::external_body]
pub(crate) fn queue_is_full<T>(p: &rtrb::Producer<T>) -> bool {
    p.is_full()
}

} // verus!
