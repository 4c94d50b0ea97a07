//! The crossbeam channels that connect the relay to its peers.
//!
//! What a channel does depends on the threads at its other end, so the
//! contracts here promise nothing about whether a send or a receive succeeds.
use vstd::prelude::*;

verus! {

#[verifier::external_type_specification]
#[verifier::external_body]
#[verifier::reject_recursive_types(T)]
pub struct ExSender<T>(crossbeam_channel::Sender<T>);

#[verifier::external_type_specification]
#[verifier::external_body]
#[verifier::reject_recursive_types(T)]
pub struct ExReceiver<T>(crossbeam_channel::Receiver<T>);

#[verifier::external_type_specification]
#[verifier::external_body]
#[verifier::reject_recursive_types(T)]
pub struct ExSendError<T>(crossbeam_channel::SendError<T>);

#[verifier::external_type_specification]
#[verifier::external_body]
pub struct ExRecvError(crossbeam_channel::RecvError);

#[verifier::external_type_specification]
pub struct ExTryRecvError(crossbeam_channel::TryRecvError);

/// Relies on `crossbeam_channel::Sender::send`: it hands the message to the
/// channel, blocking while a bounded channel is full, and fails once every
/// receiver is gone.
pub assume_specification<T>[ crossbeam_channel::Sender::<T>::send ](
    s: &crossbeam_channel::Sender<T>,
    msg: T,
) -> Result<(), crossbeam_channel::SendError<T>>;

/// Relies on `crossbeam_channel::Receiver::try_recv`: the next message if one
/// is waiting, without blocking.
pub assume_specification<T>[ crossbeam_channel::Receiver::<T>::try_recv ](
    r: &crossbeam_channel::Receiver<T>,
) -> Result<T, crossbeam_channel::TryRecvError>;

/// Relies on the `Display` impl of `crossbeam_channel::SendError`, which
/// writes one fixed sentence.
#[verifier::external_body]
pub(crate) fn send_error_text(e: &crossbeam_channel::SendError<String>) -> (r: String)
    ensures
        r@ == "sending on a disconnected channel"@,
{
    e.to_string()
}

} // verus!
