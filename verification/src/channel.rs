//! Trusted declarations for the bounded channels of `crossbeam_channel`,
//! the only shared structures in the pipeline.
//!
//! The channels move owned values between threads; nothing is stated here
//! about which value an operation delivers or whether a queue has room, since
//! that depends on what other threads do. Everything the pipeline relies on
//! about the values themselves (a buffer's fixed length) is a type invariant
//! of the message type and so holds of whatever a receive returns.

use vstd::prelude::*;

verus! {

/// The sending half of a channel (`crossbeam_channel::Sender`).
#[verifier::external_type_specification]
#[verifier::external_body]
#[verifier::reject_recursive_types(T)]
pub struct ExSender<T>(crossbeam_channel::Sender<T>);

/// The receiving half of a channel (`crossbeam_channel::Receiver`).
#[verifier::external_type_specification]
#[verifier::external_body]
#[verifier::reject_recursive_types(T)]
pub struct ExReceiver<T>(crossbeam_channel::Receiver<T>);

/// The error of a blocking send: the channel is disconnected. It hands the
/// unsent message back.
#[verifier::external_type_specification]
#[verifier::external_body]
#[verifier::reject_recursive_types(T)]
pub struct ExSendError<T>(crossbeam_channel::SendError<T>);

/// The error of a non-blocking send: the channel is full or disconnected.
#[verifier::external_type_specification]
#[verifier::external_body]
#[verifier::reject_recursive_types(T)]
pub struct ExTrySendError<T>(crossbeam_channel::TrySendError<T>);

/// The error of a blocking receive: the channel is empty and disconnected.
#[verifier::external_type_specification]
#[verifier::external_body]
pub struct ExRecvError(crossbeam_channel::RecvError);

/// The error of a non-blocking receive: the channel is empty or disconnected.
#[verifier::external_type_specification]
#[verifier::external_body]
pub struct ExTryRecvError(crossbeam_channel::TryRecvError);

/// Relies on `crossbeam_channel::bounded`: creates a channel that holds at
/// most `cap` messages in flight; the capacity bound is what turns a slow
/// consumer into backpressure on the producers. It panics on capacities near
/// the address-space limit (its index arithmetic overflows), which the
/// precondition keeps out of reach.
pub assume_specification<T>[ crossbeam_channel::bounded::<T> ](cap: usize) -> (r: (
    crossbeam_channel::Sender<T>,
    crossbeam_channel::Receiver<T>,
))
    requires
        cap < usize::MAX / 4,
;

/// Relies on `crossbeam_channel::Sender::send`: blocks until the message is
/// queued, or returns it in the error when all receivers are gone.
pub assume_specification<T>[ crossbeam_channel::Sender::<T>::send ](
    s: &crossbeam_channel::Sender<T>,
    msg: T,
) -> (r: Result<(), crossbeam_channel::SendError<T>>);

/// Relies on `crossbeam_channel::Sender::try_send`: queues the message only
/// when there is room right now, and never blocks.
pub assume_specification<T>[ crossbeam_channel::Sender::<T>::try_send ](
    s: &crossbeam_channel::Sender<T>,
    msg: T,
) -> (r: Result<(), crossbeam_channel::TrySendError<T>>);

/// Relies on `crossbeam_channel::Receiver::recv`: blocks until a message
/// arrives, or fails when the channel is empty and all senders are gone.
pub assume_specification<T>[ crossbeam_channel::Receiver::<T>::recv ](
    r: &crossbeam_channel::Receiver<T>,
) -> (res: Result<T, crossbeam_channel::RecvError>);

/// Relies on `crossbeam_channel::Receiver::try_recv`: takes a message only
/// when one is already queued, and never blocks.
pub assume_specification<T>[ crossbeam_channel::Receiver::<T>::try_recv ](
    r: &crossbeam_channel::Receiver<T>,
) -> (res: Result<T, crossbeam_channel::TryRecvError>);

/// Relies on `Clone for crossbeam_channel::Sender`: another handle to the
/// same channel, for handing to a new worker.
pub assume_specification<T>[ <crossbeam_channel::Sender<T> as Clone>::clone ](
    s: &crossbeam_channel::Sender<T>,
) -> (r: crossbeam_channel::Sender<T>);

/// Relies on `Clone for crossbeam_channel::Receiver`: another handle to the
/// same channel, for handing to a new worker.
pub assume_specification<T>[ <crossbeam_channel::Receiver<T> as Clone>::clone ](
    r: &crossbeam_channel::Receiver<T>,
) -> (res: crossbeam_channel::Receiver<T>);

} // verus!
