//! The two channels of `tokio::sync::mpsc` that join the session record to
//! the timer process, as far as the session record uses them: a send and a
//! receive that never wait.
//!
//! Nothing here is proved.  The other end of each channel lives in another
//! task, so what a call returns is not for this side to say, and the contracts
//! promise nothing about it.

use tokio::sync::mpsc::error::TryRecvError;
use tokio::sync::mpsc::error::TrySendError;
use tokio::sync::mpsc::Receiver;
use tokio::sync::mpsc::Sender;
use vstd::prelude::*;

verus! {

/// `tokio::sync::mpsc::Sender`, the sending half of a bounded channel.
#[verifier::external_type_specification]
#[verifier::external_body]
#[verifier::reject_recursive_types(T)]
pub struct ExSender<T>(Sender<T>);

/// `tokio::sync::mpsc::Receiver`, the receiving half of a bounded channel.
#[verifier::external_type_specification]
#[verifier::external_body]
#[verifier::reject_recursive_types(T)]
pub struct ExReceiver<T>(Receiver<T>);

/// `tokio::sync::mpsc::error::TrySendError`: the channel is full, or its
/// receiving half is gone.
#[verifier::external_type_specification]
#[verifier::external_body]
#[verifier::reject_recursive_types(T)]
pub struct ExTrySendError<T>(TrySendError<T>);

/// `tokio::sync::mpsc::error::TryRecvError`: the channel is empty, or its
/// sending half is gone.
#[verifier::external_type_specification]
#[verifier::external_body]
pub struct ExTryRecvError(TryRecvError);

/// `Sender::try_send` queues the message if the channel has room and fails at
/// once if not.  Nothing is claimed of the outcome.
pub assume_specification<T>[ Sender::<T>::try_send ](channel: &Sender<T>, message: T) -> (sent:
    Result<(), TrySendError<T>>);

/// `Receiver::try_recv` takes the oldest queued message if there is one and
/// fails at once if not.  Nothing is claimed of the outcome.
pub assume_specification<T>[ Receiver::<T>::try_recv ](channel: &mut Receiver<T>) -> (received:
    Result<T, TryRecvError>);

} // verus!
