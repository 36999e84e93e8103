//! Trusted declarations for the std bounded channel pair the adapter and the
//! VM execution thread communicate over.
//!
//! Verification sees the sender and receiver as opaque values and assumes
//! nothing about what a receive yields: every value a channel could hand
//! back is handled by the verified state machine that consumes it.

use vstd::prelude::*;
use std::sync::mpsc::{Receiver, SyncSender};

verus! {

/// Declares `std::sync::mpsc::SyncSender` so it can stand in fields and
/// signatures; its values are opaque to verification.
#[verifier::external_type_specification]
#[verifier::external_body]
#[verifier::reject_recursive_types(T)]
pub struct ExSyncSender<T>(SyncSender<T>);

/// Declares `std::sync::mpsc::Receiver` so it can stand in fields and
/// signatures; its values are opaque to verification.
#[verifier::external_type_specification]
#[verifier::external_body]
#[verifier::reject_recursive_types(T)]
pub struct ExReceiver<T>(Receiver<T>);

/// Relies on `std::sync::mpsc::sync_channel`: returns a connected
/// sender/receiver pair of the given capacity. Capacity zero makes a
/// rendezvous channel: every send blocks until the receiver takes the value.
#[verifier::external_body]
pub(crate) fn sync_channel_pair<T>(bound: usize) -> (SyncSender<T>, Receiver<T>) {
    std::sync::mpsc::sync_channel(bound)
}

/// Relies on `SyncSender::send`: blocks until the receiver accepts the
/// value, and fails only once the receiving half has disconnected. Nothing
/// is assumed about which outcome occurs.
#[verifier::external_body]
pub(crate) fn channel_send<T>(tx: &SyncSender<T>, value: T) -> (r: Result<(), ()>) {
    match tx.send(value) {
        Ok(()) => Ok(()),
        Err(_) => Err(()),
    }
}

/// Relies on `Receiver::recv`: blocks until a value arrives, and fails only
/// once the sending half has disconnected and the channel is drained.
/// Nothing is assumed about which value arrives.
#[verifier::external_body]
pub(crate) fn channel_recv<T>(rx: &Receiver<T>) -> (r: Result<T, ()>) {
    match rx.recv() {
        Ok(v) => Ok(v),
        Err(_) => Err(()),
    }
}

/// Relies on `Receiver::try_recv`: never blocks; yields a ready value,
/// `None` when the channel is empty, or failure once the sending half has
/// disconnected. Nothing is assumed about which outcome occurs.
#[verifier::external_body]
pub(crate) fn channel_try_recv<T>(rx: &Receiver<T>) -> (r: Result<Option<T>, ()>) {
    match rx.try_recv() {
        Ok(v) => Ok(Some(v)),
        Err(std::sync::mpsc::TryRecvError::Empty) => Ok(None),
        Err(std::sync::mpsc::TryRecvError::Disconnected) => Err(()),
    }
}

} // verus!
