use vstd::prelude::*;

verus! {

/// std's asynchronous channel sending handle, declared so that values can be
/// routed through verified code; the handle itself is opaque to the verifier.
#[verifier::external_type_specification]
#[verifier::external_body]
#[verifier::reject_recursive_types(T)]
pub struct ExSender<T>(std::sync::mpsc::Sender<T>);

/// std's bounded channel sending handle, used as a reply route: it returns
/// exactly one result to the one worker waiting on the paired receiver.
#[verifier::external_type_specification]
#[verifier::external_body]
#[verifier::reject_recursive_types(T)]
pub struct ExSyncSender<T>(std::sync::mpsc::SyncSender<T>);

/// std's channel receiving handle.
#[verifier::external_type_specification]
#[verifier::external_body]
#[verifier::reject_recursive_types(T)]
pub struct ExReceiver<T>(std::sync::mpsc::Receiver<T>);

/// Relies on std::sync::mpsc::Receiver::recv: blocks for the next queued
/// value, or returns nothing once every sending handle is gone. What arrives
/// depends on other threads, so nothing is promised of the value.
#[verifier::external_body]
pub(crate) fn ch_recv<T>(rx: &std::sync::mpsc::Receiver<T>) -> Option<T> {
    rx.recv().ok()
}

/// Relies on std::sync::mpsc::Receiver::try_recv: takes one queued value
/// without blocking, or returns nothing.
#[verifier::external_body]
pub(crate) fn ch_try_recv<T>(rx: &std::sync::mpsc::Receiver<T>) -> Option<T> {
    rx.try_recv().ok()
}

/// Relies on std::sync::mpsc::Sender::send: queues the value; false where the
/// receiving side is gone and the value was dropped instead.
#[verifier::external_body]
pub(crate) fn ch_send<T>(tx: &std::sync::mpsc::Sender<T>, t: T) -> bool {
    tx.send(t).is_ok()
}

/// Relies on std::sync::mpsc::SyncSender::send: queues the value, blocking
/// while the channel's buffer is full; false where the receiving side is gone
/// and the value was dropped instead.
#[verifier::external_body]
pub(crate) fn ch_send_sync<T>(tx: &std::sync::mpsc::SyncSender<T>, t: T) -> bool {
    tx.send(t).is_ok()
}

} // verus!
