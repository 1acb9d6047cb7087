//! Declarations of the outside types that the library carries, and the
//! trusted wrappers through which it calls the outside crates.
use vstd::prelude::*;
use duckdb::Error as DbError;

verus! {

/// A live DuckDB connection; opaque to the library, which only carries it.
#[verifier::external_type_specification]
#[verifier::external_body]
pub struct ExConnection(duckdb::Connection);

/// An error reported by DuckDB; carried through unchanged.
#[verifier::external_type_specification]
#[verifier::external_body]
pub struct ExDuckdbError(DbError);

/// The sending end of a crossbeam channel.
#[verifier::external_type_specification]
#[verifier::external_body]
#[verifier::reject_recursive_types(T)]
pub struct ExQueueSender<T>(crossbeam_channel::Sender<T>);

/// The receiving end of a crossbeam channel.
#[verifier::external_type_specification]
#[verifier::external_body]
#[verifier::reject_recursive_types(T)]
pub struct ExQueueReceiver<T>(crossbeam_channel::Receiver<T>);

/// The error of a send on a crossbeam channel whose receivers are all gone.
#[verifier::external_type_specification]
#[verifier::external_body]
#[verifier::reject_recursive_types(T)]
pub struct ExSendError<T>(crossbeam_channel::SendError<T>);

/// The error of a receive on a crossbeam channel that is empty and disconnected.
#[verifier::external_type_specification]
#[verifier::external_body]
pub struct ExRecvError(crossbeam_channel::RecvError);

/// The sending half of a futures one-shot channel.
#[verifier::external_type_specification]
#[verifier::external_body]
#[verifier::reject_recursive_types(T)]
pub struct ExOneshotSender<T>(futures_channel::oneshot::Sender<T>);

/// The error of a one-shot receiver whose sender was dropped without a value.
#[verifier::external_type_specification]
#[verifier::external_body]
pub struct ExCanceled(futures_channel::oneshot::Canceled);

/// Relies on crossbeam_channel::unbounded: a fresh channel with no bound.
pub assume_specification<T>[ crossbeam_channel::unbounded::<T> ]() -> (crossbeam_channel::Sender<T>, crossbeam_channel::Receiver<T>);

/// Relies on crossbeam_channel::bounded, which panics only where the capacity
/// is too large to allocate: a single slot never is.
pub assume_specification<T>[ crossbeam_channel::bounded::<T> ](cap: usize) -> (crossbeam_channel::Sender<T>, crossbeam_channel::Receiver<T>)
    requires
        cap == 1,
;

/// Relies on crossbeam_channel::Sender::send: it queues the message, or fails
/// when every receiver is gone. Which of the two happens depends on the other
/// threads, so nothing is promised.
pub assume_specification<T>[ crossbeam_channel::Sender::<T>::send ](tx: &crossbeam_channel::Sender<T>, msg: T) -> Result<(), crossbeam_channel::SendError<T>>;

/// Relies on crossbeam_channel::Receiver::recv: it blocks until a message
/// comes, or fails once the channel is empty and every sender is gone.
pub assume_specification<T>[ crossbeam_channel::Receiver::<T>::recv ](rx: &crossbeam_channel::Receiver<T>) -> Result<T, crossbeam_channel::RecvError>;

/// Relies on futures_channel::oneshot::Sender::send: it completes the
/// one-shot, or hands the value back when the receiver is gone.
pub assume_specification<T>[ futures_channel::oneshot::Sender::<T>::send ](tx: futures_channel::oneshot::Sender<T>, t: T) -> Result<(), T>;

/// Relies on duckdb::Connection::close: on failure it hands the connection
/// back together with DuckDB's error, so that it stays usable.
pub assume_specification[ duckdb::Connection::close ](conn: duckdb::Connection) -> Result<(), (duckdb::Connection, DbError)>;

/// Relies on the Clone impl of crossbeam_channel::Sender: another sender on
/// the same channel.
pub assume_specification<T>[ <crossbeam_channel::Sender<T> as Clone>::clone ](tx: &crossbeam_channel::Sender<T>) -> crossbeam_channel::Sender<T>;

/// Relies on the Clone impl of std::sync::Arc: another pointer to the same
/// value.
#[verifier::external_body]
pub(crate) fn share<T>(a: &std::sync::Arc<T>) -> (r: std::sync::Arc<T>)
    ensures
        r == *a,
{
    std::sync::Arc::clone(a)
}

} // verus!
