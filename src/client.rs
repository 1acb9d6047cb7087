//! The client: a cloneable handle that turns calls into commands on its
//! worker's queue and waits for their outcome.
use vstd::prelude::*;
use duckdb::Connection;
use duckdb::Error as DbError;
use crate::command::{Command, ReadJob, Reply, WriteJob};
use crate::error::Error;

verus! {

/// The target that opens an in-memory database, used where no path is given.
pub const IN_MEMORY: &'static str = ":memory:";

/// The outcome of a call, from the answer that came back for it: `None` when
/// no answer came, because the command could not be queued or the worker
/// dropped it unanswered.
pub open spec fn call_settlement<T>(answer: Option<Result<T, DbError>>) -> Result<T, Error> {
    match answer {
        None => Err(Error::Closed),
        Some(Ok(v)) => Ok(v),
        Some(Err(e)) => Err(Error::Duckdb(e)),
    }
}

/// The outcome of a close, from the answer that came back for it. A worker
/// that could not be reached, or that went away without answering, is
/// already closed: that counts as success. A failed close gives DuckDB's
/// error.
pub open spec fn close_settlement(answer: Option<Result<(), DbError>>) -> Result<(), Error> {
    match answer {
        None => Ok(()),
        Some(Ok(())) => Ok(()),
        Some(Err(e)) => Err(Error::Duckdb(e)),
    }
}

/// Settles a call: no answer means that the worker is gone (`Closed`); an
/// answer is the operation's own outcome, with DuckDB's error wrapped.
pub fn settle_call<T>(answer: Option<Result<T, DbError>>) -> (r: Result<T, Error>)
    ensures
        r == call_settlement(answer),
{
    match answer {
        None => Err(Error::Closed),
        Some(Ok(v)) => Ok(v),
        Some(Err(e)) => Err(Error::Duckdb(e)),
    }
}

/// Settles a close: no answer means that the worker is already gone, which is
/// success; an answer is success, or DuckDB's error wrapped.
pub fn settle_close(answer: Option<Result<(), DbError>>) -> (r: Result<(), Error>)
    ensures
        r == close_settlement(answer),
{
    match answer {
        None => Ok(()),
        Some(Ok(())) => Ok(()),
        Some(Err(e)) => Err(Error::Duckdb(e)),
    }
}

/// Once a worker is gone, a call through any client of it fails with
/// `Closed`, every time: its command can be neither queued nor answered.
pub proof fn call_without_worker_is_closed<T>(answer: Option<Result<T, DbError>>)
    requires
        answer is None,
    ensures
        call_settlement(answer) == Err::<T, Error>(Error::Closed),
{
}

/// Closing a worker that is already gone succeeds: with nobody left to
/// answer, the close counts as done, so a second close is no error.
pub proof fn close_without_worker_succeeds(answer: Option<Result<(), DbError>>)
    requires
        answer is None,
    ensures
        close_settlement(answer) == Ok::<(), Error>(()),
{
}

/// A close never fails with `Closed`, whatever came back: it succeeds, or
/// fails with the error of DuckDB's close.
pub proof fn close_is_never_closed(answer: Option<Result<(), DbError>>)
    ensures
        close_settlement(answer) is Ok || close_settlement(answer)->Err_0 is Duckdb,
{
}

/// A handle to one worker. Clones share the worker: closing through one of
/// them closes it for all.
#[derive(Clone)]
pub struct Client {
    conn_tx: crossbeam_channel::Sender<Command>,
}

impl Client {
    /// A client together with the receiving end of its queue, which the
    /// worker's loop is to drain.
    pub fn with_queue() -> (r: (Client, crossbeam_channel::Receiver<Command>)) {
        let (conn_tx, conn_rx) = crossbeam_channel::unbounded();
        (Client { conn_tx }, conn_rx)
    }

    /// Queues `cmd`; false when the worker's queue has no receiver any more.
    fn enqueue(&self, cmd: Command) -> (sent: bool) {
        match self.conn_tx.send(cmd) {
            Ok(()) => true,
            Err(_) => false,
        }
    }

    /// Waits for the answer on a single-slot channel: `None` when its sender
    /// was dropped unanswered.
    fn wait<T>(rx: crossbeam_channel::Receiver<T>) -> (answer: Option<T>) {
        match rx.recv() {
            Ok(a) => Some(a),
            Err(_) => None,
        }
    }

    /// Queues a read-only operation whose outcome goes to `reply`, a one-shot
    /// that the caller awaits. Fails with `Closed` when the worker is gone, in
    /// which case `reply` is dropped.
    pub fn submit<F, T>(&self, func: F, reply: futures_channel::oneshot::Sender<Result<T, DbError>>) -> (r: Result<(), Error>)
        where
            F: FnOnce(&Connection) -> Result<T, DbError> + Send + 'static,
            T: Send + 'static,
        requires
            forall|c: &Connection| func.requires((c,)),
        ensures
            r is Err ==> r == Err::<(), Error>(Error::Closed),
    {
        let job = ReadJob::new(func, Reply::Async(reply));
        if self.enqueue(Command::Invoke(Box::new(job))) {
            Ok(())
        } else {
            Err(Error::Closed)
        }
    }

    /// Like `submit`, for an operation that may change the connection.
    pub fn submit_mut<F, T>(&self, func: F, reply: futures_channel::oneshot::Sender<Result<T, DbError>>) -> (r: Result<(), Error>)
        where
            F: FnOnce(&mut Connection) -> Result<T, DbError> + Send + 'static,
            T: Send + 'static,
        requires
            forall|c: &mut Connection| func.requires((c,)),
        ensures
            r is Err ==> r == Err::<(), Error>(Error::Closed),
    {
        let job = WriteJob::new(func, Reply::Async(reply));
        if self.enqueue(Command::Invoke(Box::new(job))) {
            Ok(())
        } else {
            Err(Error::Closed)
        }
    }

    /// Queues a shutdown whose answer goes to `reply`, a one-shot that the
    /// caller awaits. False when the worker is already gone.
    pub fn submit_close(&self, reply: futures_channel::oneshot::Sender<Result<(), DbError>>) -> (sent: bool) {
        self.enqueue(Command::Shutdown(Reply::Async(reply)))
    }

    /// Runs `func` on the connection and blocks the current thread until its
    /// outcome comes back. Fails with `Closed` when the worker is gone.
    pub fn conn_blocking<F, T>(&self, func: F) -> (r: Result<T, Error>)
        where
            F: FnOnce(&Connection) -> Result<T, DbError> + Send + 'static,
            T: Send + 'static,
        requires
            forall|c: &Connection| func.requires((c,)),
        ensures
            r is Err ==> r->Err_0 is Closed || r->Err_0 is Duckdb,
    {
        let (tx, rx) = crossbeam_channel::bounded(1);
        let job = ReadJob::new(func, Reply::Blocking(tx));
        let answer = if self.enqueue(Command::Invoke(Box::new(job))) {
            Self::wait(rx)
        } else {
            None
        };
        settle_call(answer)
    }

    /// Runs `func` with mutable access to the connection and blocks the
    /// current thread until its outcome comes back. Fails with `Closed` when
    /// the worker is gone.
    pub fn conn_mut_blocking<F, T>(&self, func: F) -> (r: Result<T, Error>)
        where
            F: FnOnce(&mut Connection) -> Result<T, DbError> + Send + 'static,
            T: Send + 'static,
        requires
            forall|c: &mut Connection| func.requires((c,)),
        ensures
            r is Err ==> r->Err_0 is Closed || r->Err_0 is Duckdb,
    {
        let (tx, rx) = crossbeam_channel::bounded(1);
        let job = WriteJob::new(func, Reply::Blocking(tx));
        let answer = if self.enqueue(Command::Invoke(Box::new(job))) {
            Self::wait(rx)
        } else {
            None
        };
        settle_call(answer)
    }

    /// Closes the connection and blocks the current thread until that is
    /// done. A worker that is already gone counts as closed.
    pub fn close_blocking(&self) -> (r: Result<(), Error>)
        ensures
            r is Ok || r->Err_0 is Duckdb,
    {
        let (tx, rx) = crossbeam_channel::bounded(1);
        let answer = if self.enqueue(Command::Shutdown(Reply::Blocking(tx))) {
            Self::wait(rx)
        } else {
            None
        };
        settle_close(answer)
    }
}

} // verus!
