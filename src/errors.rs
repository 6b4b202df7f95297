//! Error taxonomy of the startup sequence.
use vstd::prelude::*;

verus! {

/// A failure while importing one reference dataset.
#[derive(Debug, PartialEq, Eq)]
pub enum DataImportError {
    /// The dataset's source could not be opened or read.
    IOError(String),
    /// A malformed record, a missing header or column, or a field that does
    /// not decode to its column's type.
    CSVError(String),
    /// A field that holds an encoded value (a JSON document or list) that
    /// does not decode.
    SerdeError(String),
    /// The database rejected a row for a reason other than the conflict on
    /// its key, which is ignored.
    DieselError(String),
    /// Any other failure, with a message.
    CustomError(String),
}

/// A failure of the migrate-then-import sequence. Every one ends the run.
#[derive(Debug, PartialEq, Eq)]
pub enum MigrationError {
    /// The database could not be reached or refused the session.
    ConnectionError(String),
    /// A statement failed, such as the advisory lock request.
    QueryError(String),
    /// A migration script failed.
    MigrationError(String),
    /// The connection target is not configured.
    EnvVarError(String),
    /// The data import failed.
    DataImportError(DataImportError),
    /// Any other failure, with a message.
    BoxedError(String),
}

/// The diagnostic text of an error: the kind of failure, then its detail.
pub open spec fn message_of(e: MigrationError) -> Seq<char> {
    match e {
        MigrationError::ConnectionError(m) => "Connection error: "@ + m@,
        MigrationError::QueryError(m) => "Query error: "@ + m@,
        MigrationError::MigrationError(m) => "Migration error: "@ + m@,
        MigrationError::EnvVarError(m) => "Environment variable error: "@ + m@,
        MigrationError::DataImportError(d) => match d {
            DataImportError::IOError(m) => "Data import error: IO error: "@ + m@,
            DataImportError::CSVError(m) => "Data import error: CSV error: "@ + m@,
            DataImportError::SerdeError(m) => "Data import error: JSON error: "@ + m@,
            DataImportError::DieselError(m) => "Data import error: Diesel error: "@ + m@,
            DataImportError::CustomError(m) => "Data import error: Custom error: "@ + m@,
        },
        MigrationError::BoxedError(m) => "Unexpected error: "@ + m@,
    }
}

impl MigrationError {
    /// The error's diagnostic text.
    pub fn message(&self) -> (r: String)
        ensures
            r@ == message_of(*self),
    {
        match self {
            MigrationError::ConnectionError(m) => String::from_str("Connection error: ").concat(m.as_str()),
            MigrationError::QueryError(m) => String::from_str("Query error: ").concat(m.as_str()),
            MigrationError::MigrationError(m) => String::from_str("Migration error: ").concat(m.as_str()),
            MigrationError::EnvVarError(m) => String::from_str("Environment variable error: ").concat(m.as_str()),
            MigrationError::DataImportError(d) => match d {
                DataImportError::IOError(m) => String::from_str("Data import error: IO error: ").concat(m.as_str()),
                DataImportError::CSVError(m) => String::from_str("Data import error: CSV error: ").concat(m.as_str()),
                DataImportError::SerdeError(m) => String::from_str("Data import error: JSON error: ").concat(m.as_str()),
                DataImportError::DieselError(m) => String::from_str("Data import error: Diesel error: ").concat(m.as_str()),
                DataImportError::CustomError(m) => String::from_str("Data import error: Custom error: ").concat(m.as_str()),
            },
            MigrationError::BoxedError(m) => String::from_str("Unexpected error: ").concat(m.as_str()),
        }
    }
}

} // verus!
