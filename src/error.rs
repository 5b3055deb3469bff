//! The four kinds of failure that every component reports.
use vstd::prelude::*;
use vstd::string::StringExecFns;

verus! {

/// A failure, classified by kind, with a human-readable message.
#[derive(Debug)]
pub enum MigratorError {
    /// The transport could not reach a database or the remote service.
    Connection(String),
    /// Credentials or authorization were refused.
    Permission(String),
    /// Malformed input, an unexpected response shape or a protocol violation.
    Validation(String),
    /// A domain-level failure of the migration itself.
    Migration(String),
}

impl MigratorError {
    /// The message carried by the error, whatever its kind.
    pub open spec fn detail(&self) -> Seq<char> {
        match self {
            MigratorError::Connection(m) => m@,
            MigratorError::Permission(m) => m@,
            MigratorError::Validation(m) => m@,
            MigratorError::Migration(m) => m@,
        }
    }

    /// The label that precedes the message when the error is shown.
    pub open spec fn label(&self) -> Seq<char> {
        match self {
            MigratorError::Connection(_) => "Connection error: "@,
            MigratorError::Permission(_) => "Permission error: "@,
            MigratorError::Validation(_) => "Validation error: "@,
            MigratorError::Migration(_) => "Migration error: "@,
        }
    }

    /// The error as shown to a user: its label, then its message.
    pub fn message(&self) -> (r: String)
        ensures
            r@ == self.label() + self.detail(),
    {
        let (label, m) = match self {
            MigratorError::Connection(m) => ("Connection error: ", m),
            MigratorError::Permission(m) => ("Permission error: ", m),
            MigratorError::Validation(m) => ("Validation error: ", m),
            MigratorError::Migration(m) => ("Migration error: ", m),
        };
        let mut r = String::from_str(label);
        r.append(m.as_str());
        r
    }
}

} // verus!
