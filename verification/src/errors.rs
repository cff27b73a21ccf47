//! Errors of the migration engine.

use vstd::prelude::*;

verus! {

/// An error raised while reconciling the schema. Every variant is fatal to
/// the startup sequence: the serving layer must not start if migration fails.
#[derive(Debug)]
pub enum MigrationError {
    /// The store (or the connection to it) is unreachable.
    ConnectionError { message: String },
    /// A statement inside a migration's body was rejected; carries the
    /// migration's version and name.
    StatementError { version: i32, name: String, message: String },
    /// The transaction failed to commit after its statements succeeded.
    CommitError { version: i32, name: String, message: String },
}

/// The ghost classification of a [`MigrationError`]: its variant together
/// with the structured fields, without the free-form message text.
pub enum ErrorKind {
    Connection,
    Statement { version: int, name: Seq<char> },
    Commit { version: int, name: Seq<char> },
}

/// Maps an error to its ghost classification.
pub open spec fn kind_of(e: MigrationError) -> ErrorKind {
    match e {
        MigrationError::ConnectionError { .. } => ErrorKind::Connection,
        MigrationError::StatementError { version, name, .. } => ErrorKind::Statement {
            version: version as int,
            name: name@,
        },
        MigrationError::CommitError { version, name, .. } => ErrorKind::Commit {
            version: version as int,
            name: name@,
        },
    }
}

} // verus!
