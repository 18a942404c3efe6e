use vstd::prelude::*;

verus! {

/// The sending half of a one-shot channel; a query holds one while a fetch is outstanding.
#[verifier::external_type_specification]
#[verifier::external_body]
#[verifier::reject_recursive_types(T)]
pub struct ExSender<T>(futures_channel::oneshot::Sender<T>);

/// The receiving half, raced against the fetch by whoever runs it.
#[verifier::external_type_specification]
#[verifier::external_body]
#[verifier::reject_recursive_types(T)]
pub struct ExReceiver<T>(futures_channel::oneshot::Receiver<T>);

/// The error a receiver yields when its sender went away without sending. Nothing here
/// uses it, but declaring `Receiver` needs it: its `Future` impl yields this type.
#[verifier::external_type_specification]
#[verifier::external_body]
pub struct ExCanceled(futures_channel::oneshot::Canceled);

/// Relies on futures_channel::oneshot::channel: it makes a fresh connected pair and
/// does not fail.
pub assume_specification<T>[ futures_channel::oneshot::channel::<T> ]() -> (
    futures_channel::oneshot::Sender<T>,
    futures_channel::oneshot::Receiver<T>,
);

/// Relies on futures_channel::oneshot::Sender::send: it consumes the sender and reports
/// whether the receiver was still there, which depends on the other task.
pub assume_specification<T>[ futures_channel::oneshot::Sender::<T>::send ](
    sender: futures_channel::oneshot::Sender<T>,
    t: T,
) -> Result<(), T>;

} // verus!
