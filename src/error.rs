//! The error type of the library.
use vstd::prelude::*;
use duckdb::Error as DbError;
use vstd::string::{to_string_from_display_ensures, StringExecFns};

verus! {

/// Every error that the library reports.
#[derive(Debug)]
#[non_exhaustive]
pub enum Error {
    /// The connection's worker is gone: a command could not be queued, or
    /// no answer came back for it.
    Closed,
    /// A setting read back after it was applied holds another value.
    PragmaUpdate { name: &'static str, exp: &'static str, got: String },
    /// An error of DuckDB, passed through unchanged.
    Duckdb(DbError),
}

/// The text that describes a pragma whose value is not the one asked for.
pub open spec fn pragma_text(name: Seq<char>, exp: Seq<char>, got: Seq<char>) -> Seq<char> {
    "updating pragma "@ + name + ": expected '"@ + exp + "', got '"@ + got + "'"@
}

impl Error {
    /// A description of the error for people.
    pub fn message(&self) -> (r: String)
        ensures
            self is Closed ==> r@ == "connection to sqlite database closed"@,
            self is PragmaUpdate ==> r@ == pragma_text(
                self->PragmaUpdate_name@,
                self->PragmaUpdate_exp@,
                self->PragmaUpdate_got@,
            ),
            self is Duckdb ==> to_string_from_display_ensures::<DbError>(&self->Duckdb_0, r),
    {
        match self {
            Error::Closed => String::from_str("connection to sqlite database closed"),
            Error::PragmaUpdate { name, exp, got } => {
                let mut text = String::from_str("updating pragma ");
                text.append(name);
                text.append(": expected '");
                text.append(exp);
                text.append("', got '");
                text.append(got.as_str());
                text.append("'");
                text
            },
            Error::Duckdb(e) => e.to_string(),
        }
    }
}

impl From<DbError> for Error {
    fn from(value: DbError) -> (r: Self)
        ensures
            r == Error::Duckdb(value),
    {
        Error::Duckdb(value)
    }
}

impl vstd::std_specs::convert::FromSpecImpl<DbError> for Error {
    open spec fn obeys_from_spec() -> bool {
        true
    }

    open spec fn from_spec(v: DbError) -> Error {
        Error::Duckdb(v)
    }
}

impl<T> From<crossbeam_channel::SendError<T>> for Error {
    fn from(value: crossbeam_channel::SendError<T>) -> (r: Self)
        ensures
            r is Closed,
    {
        Error::Closed
    }
}

impl<T> vstd::std_specs::convert::FromSpecImpl<crossbeam_channel::SendError<T>> for Error {
    open spec fn obeys_from_spec() -> bool {
        true
    }

    open spec fn from_spec(v: crossbeam_channel::SendError<T>) -> Error {
        Error::Closed
    }
}

impl From<crossbeam_channel::RecvError> for Error {
    fn from(value: crossbeam_channel::RecvError) -> (r: Self)
        ensures
            r is Closed,
    {
        Error::Closed
    }
}

impl vstd::std_specs::convert::FromSpecImpl<crossbeam_channel::RecvError> for Error {
    open spec fn obeys_from_spec() -> bool {
        true
    }

    open spec fn from_spec(v: crossbeam_channel::RecvError) -> Error {
        Error::Closed
    }
}

impl From<futures_channel::oneshot::Canceled> for Error {
    fn from(value: futures_channel::oneshot::Canceled) -> (r: Self)
        ensures
            r is Closed,
    {
        Error::Closed
    }
}

impl vstd::std_specs::convert::FromSpecImpl<futures_channel::oneshot::Canceled> for Error {
    open spec fn obeys_from_spec() -> bool {
        true
    }

    open spec fn from_spec(v: futures_channel::oneshot::Canceled) -> Error {
        Error::Closed
    }
}

} // verus!
