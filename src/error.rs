use vstd::prelude::*;

verus! {

/// Why a request could not be answered with the records.
#[derive(Clone, Copy, Debug, PartialEq, Eq, Structural)]
pub enum RequestError {
    /// No pooled connection became idle within the configured wait.
    PoolTimeout,
    /// The pool could not create or validate a connection.
    PoolManagerError,
    /// The data source failed to run the query.
    QueryError,
    /// A result row lacked a column or held one of the wrong type.
    RowMappingError,
    /// The records could not be written as JSON.
    SerializationError,
}

/// The HTTP status that answers a failed request.
pub open spec fn error_status(e: RequestError) -> u16 {
    match e {
        RequestError::PoolTimeout => 503,
        RequestError::PoolManagerError => 503,
        _ => 500,
    }
}

/// A short description of a failure, sent as the body of its error response.
pub open spec fn error_text(e: RequestError) -> Seq<char> {
    match e {
        RequestError::PoolTimeout => "timed out waiting for a database connection"@,
        RequestError::PoolManagerError => "could not connect to the database"@,
        RequestError::QueryError => "the query failed"@,
        RequestError::RowMappingError => "a row did not match the user record"@,
        RequestError::SerializationError => "the records could not be serialized"@,
    }
}

impl RequestError {
    /// The HTTP status that answers this failure.
    pub fn status(&self) -> (r: u16)
        ensures
            r == error_status(*self),
    {
        match self {
            RequestError::PoolTimeout => 503,
            RequestError::PoolManagerError => 503,
            _ => 500,
        }
    }

    /// A short description of this failure.
    pub fn describe(&self) -> (r: String)
        ensures
            r@ == error_text(*self),
    {
        match self {
            RequestError::PoolTimeout => String::from_str(
                "timed out waiting for a database connection",
            ),
            RequestError::PoolManagerError => String::from_str(
                "could not connect to the database",
            ),
            RequestError::QueryError => String::from_str("the query failed"),
            RequestError::RowMappingError => String::from_str(
                "a row did not match the user record",
            ),
            RequestError::SerializationError => String::from_str(
                "the records could not be serialized",
            ),
        }
    }
}

} // verus!
