//! The commands that a worker takes from its queue.
use vstd::prelude::*;
use duckdb::Connection;
use duckdb::Error as DbError;

verus! {

/// Where the outcome of one command goes: a single-slot channel that a
/// blocked thread waits on, or a one-shot that a task awaits.
#[verifier::reject_recursive_types(T)]
pub enum Reply<T> {
    Blocking(crossbeam_channel::Sender<T>),
    Async(futures_channel::oneshot::Sender<T>),
}

impl<T> Reply<T> {
    /// Hands `value` to whoever waits for it. Nobody may be waiting any more:
    /// the value is then dropped, and that is not an error.
    pub fn deliver(self, value: T) {
        match self {
            Reply::Blocking(tx) => {
                let _ = tx.send(value);
            },
            Reply::Async(tx) => {
                let _ = tx.send(value);
            },
        }
    }
}

/// A caller's operation together with the channel for its outcome, with its
/// types erased so that operations of any result type share one queue.
pub trait Job: Send {
    /// Runs the operation on the worker's connection and delivers its outcome.
    fn run(self: Box<Self>, conn: &mut Connection);
}

/// An operation that reads through a shared borrow of the connection.
#[verifier::reject_recursive_types(T)]
pub struct ReadJob<F, T> where F: FnOnce(&Connection) -> Result<T, DbError> {
    func: F,
    reply: Reply<Result<T, DbError>>,
}

impl<F, T> ReadJob<F, T> where F: FnOnce(&Connection) -> Result<T, DbError> {
    #[verifier::type_invariant]
    spec fn callable(&self) -> bool {
        forall|c: &Connection| self.func.requires((c,))
    }

    /// The operation to run.
    pub closed spec fn func(&self) -> F {
        self.func
    }

    /// Where the operation's outcome goes.
    pub closed spec fn reply(&self) -> Reply<Result<T, DbError>> {
        self.reply
    }

    pub fn new(func: F, reply: Reply<Result<T, DbError>>) -> (r: Self)
        requires
            forall|c: &Connection| func.requires((c,)),
        ensures
            r.func() == func,
            r.reply() == reply,
    {
        ReadJob { func, reply }
    }
}

impl<F, T> Job for ReadJob<F, T> where
    F: FnOnce(&Connection) -> Result<T, DbError> + Send,
    T: Send,
 {
    fn run(self: Box<Self>, conn: &mut Connection) {
        let job = *self;
        proof {
            use_type_invariant(&job);
        }
        let ReadJob { func, reply } = job;
        let outcome = func(&*conn);
        reply.deliver(outcome);
    }
}

/// An operation that may change the connection, through a mutable borrow.
#[verifier::reject_recursive_types(T)]
pub struct WriteJob<F, T> where F: FnOnce(&mut Connection) -> Result<T, DbError> {
    func: F,
    reply: Reply<Result<T, DbError>>,
}

impl<F, T> WriteJob<F, T> where F: FnOnce(&mut Connection) -> Result<T, DbError> {
    #[verifier::type_invariant]
    spec fn callable(&self) -> bool {
        forall|c: &mut Connection| self.func.requires((c,))
    }

    /// The operation to run.
    pub closed spec fn func(&self) -> F {
        self.func
    }

    /// Where the operation's outcome goes.
    pub closed spec fn reply(&self) -> Reply<Result<T, DbError>> {
        self.reply
    }

    pub fn new(func: F, reply: Reply<Result<T, DbError>>) -> (r: Self)
        requires
            forall|c: &mut Connection| func.requires((c,)),
        ensures
            r.func() == func,
            r.reply() == reply,
    {
        WriteJob { func, reply }
    }
}

impl<F, T> Job for WriteJob<F, T> where
    F: FnOnce(&mut Connection) -> Result<T, DbError> + Send,
    T: Send,
 {
    fn run(self: Box<Self>, conn: &mut Connection) {
        let job = *self;
        proof {
            use_type_invariant(&job);
        }
        let WriteJob { func, reply } = job;
        let outcome = func(conn);
        reply.deliver(outcome);
    }
}

/// A unit of work in a worker's queue.
pub enum Command {
    /// Run an operation on the connection and deliver its outcome.
    Invoke(Box<dyn Job>),
    /// Close the connection and stop the worker, delivering how that went.
    Shutdown(Reply<Result<(), DbError>>),
}

} // verus!
