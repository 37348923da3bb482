//! Trusted declarations for the real request plumbing: the flume channel
//! that carries token chunks from the worker thread to the stream
//! adapter, and the parking_lot read-write lock around the shared abort
//! flag.
//!
//! Both ends of the channel and the flag are shared across threads and
//! mutated through shared references, so nothing about their contents
//! can be tracked here; the verified model of their behaviour is
//! `channel::Channel` and `stream::CancellationSignal`, and the verified
//! logic takes the values observed from these handles as arguments.

use vstd::prelude::*;

verus! {

#[verifier::external_type_specification]
#[verifier::external_body]
#[verifier::reject_recursive_types(T)]
pub struct ExSender<T>(flume::Sender<T>);

#[verifier::external_type_specification]
#[verifier::external_body]
#[verifier::reject_recursive_types(T)]
pub struct ExReceiver<T>(flume::Receiver<T>);

#[verifier::external_type_specification]
#[verifier::external_body]
pub struct ExRawRwLock(parking_lot::RawRwLock);

#[verifier::external_type_specification]
#[verifier::external_body]
#[verifier::reject_recursive_types(R)]
#[verifier::reject_recursive_types(T)]
pub struct ExRwLock<R, T: ?Sized>(lock_api::RwLock<R, T>);

/// Relies on flume::unbounded: creates the connected transmitting and
/// receiving ends of one empty first-in-first-out queue of token chunks.
#[verifier::external_body]
pub(crate) fn new_token_channel() -> (flume::Sender<Vec<u8>>, flume::Receiver<Vec<u8>>) {
    flume::unbounded()
}

/// Relies on parking_lot::RwLock::new (lock_api::RwLock::new): creates
/// the request's shared abort flag, initially false.
#[verifier::external_body]
pub(crate) fn new_abort_flag() -> parking_lot::RwLock<bool> {
    parking_lot::RwLock::new(false)
}

} // verus!
