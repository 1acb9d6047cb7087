//! Access to a DuckDB connection from many threads and tasks at once.
//!
//! A connection is owned by one worker, which runs on a thread of its own and
//! carries out the commands of its queue one at a time, in queue order.
//! [`Client`]s are cloneable handles that queue commands and wait for their
//! outcome; a [`Pool`] is a fixed set of clients that take calls by turns.

pub mod client;
pub mod command;
pub mod error;
mod foreign;
pub mod pool;
pub mod worker;

pub use client::{settle_call, settle_close, Client, IN_MEMORY};
pub use command::{Command, Job, ReadJob, Reply, WriteJob};
pub use duckdb;
pub use duckdb::{Config, Connection};
pub use error::Error;
pub use pool::{first_failure, gather_clients, member_index, resolve_num_conns, Pool};
pub use worker::{settle_close_attempt, Flow, Worker};
