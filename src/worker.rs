//! The worker: the sole owner of one connection, which runs the commands of
//! its queue one at a time, in the order in which they were queued.
use vstd::prelude::*;
use duckdb::Connection;
use duckdb::Error as DbError;
use crate::command::Command;

verus! {

/// What the loop that feeds a worker does after a command.
pub enum Flow {
    /// Wait for the next command.
    Continue,
    /// The connection is closed: stop, and let the queue go.
    Stop,
}

/// The state of a worker. While it serves, it holds its connection; once a
/// close has succeeded, it holds none and takes no further command.
pub struct Worker {
    conn: Option<Connection>,
}

/// How the attempt to close a connection is settled: the connection that the
/// worker keeps serving with, if any, the answer for the closer, and whether
/// the worker goes on.
pub open spec fn close_attempt_settlement(
    outcome: Result<(), (Connection, DbError)>,
) -> (Option<Connection>, Result<(), DbError>, Flow) {
    match outcome {
        Ok(()) => (None, Ok(()), Flow::Stop),
        Err((conn, e)) => (Some(conn), Err(e), Flow::Continue),
    }
}

/// Settles the outcome of a close: a closed connection ends the service with
/// success; a failed close reinstates the connection and hands DuckDB's error
/// on to the closer, and the worker serves on.
pub fn settle_close_attempt(
    outcome: Result<(), (Connection, DbError)>,
) -> (r: (Option<Connection>, Result<(), DbError>, Flow))
    ensures
        r == close_attempt_settlement(outcome),
        r.2 is Stop <==> outcome is Ok,
        r.0 is Some <==> r.2 is Continue,
{
    match outcome {
        Ok(()) => (None, Ok(()), Flow::Stop),
        Err((conn, e)) => (Some(conn), Err(e), Flow::Continue),
    }
}

impl Worker {
    /// Whether the worker still holds its connection and takes commands.
    pub closed spec fn is_serving(&self) -> bool {
        self.conn is Some
    }

    /// A worker that serves with `conn`.
    pub fn new(conn: Connection) -> (w: Worker)
        ensures
            w.is_serving(),
    {
        Worker { conn: Some(conn) }
    }

    /// Carries out one command. An operation runs on the connection and its
    /// outcome, success or failure, goes to its caller; the worker serves on.
    /// A shutdown closes the connection: on success the worker stops; on
    /// failure it keeps the connection that the close handed back and serves
    /// on. Either way the closer is told how it went.
    pub fn handle(&mut self, cmd: Command) -> (flow: Flow)
        requires
            old(self).is_serving(),
        ensures
            flow is Stop <==> !final(self).is_serving(),
            cmd is Invoke ==> flow is Continue,
            flow is Stop ==> cmd is Shutdown,
    {
        match cmd {
            Command::Invoke(job) => {
                match &mut self.conn {
                    Some(conn) => job.run(conn),
                    None => {},
                }
                Flow::Continue
            },
            Command::Shutdown(reply) => {
                let conn = self.conn.take().unwrap();
                let (kept, answer, flow) = settle_close_attempt(conn.close());
                self.conn = kept;
                reply.deliver(answer);
                flow
            },
        }
    }
}

} // verus!
