//! The failures this library reports.

use vstd::prelude::*;
use vstd::string::StringExecFns;

verus! {

/// `redis::RedisError`, the driver's error type. Nothing is claimed of what
/// it holds: its values are carried through unopened.
#[verifier::external_type_specification]
#[verifier::external_body]
pub struct ExRedisError(redis::RedisError);

/// Message of the failure to learn the database count or to claim a database.
pub const NO_FREE_DATABASE: &'static str = "Not possible to select a free database.";

/// Message of a refused selection.
pub const NO_NAMESPACE: &'static str = "Not possible to set a namespace.";

/// Why an operation failed.
#[derive(Debug, PartialEq)]
pub enum DbError {
    /// The driver failed: the store was unreachable, the connection dropped,
    /// or the store rejected a command. The driver's error is kept as it came.
    RedisErr(redis::RedisError),
    /// A failure that this library diagnosed itself, with its message.
    CustomErr(String),
}

impl DbError {
    /// The text shown to a user for this failure.
    pub open spec fn message_text(&self) -> Seq<char> {
        match self {
            DbError::RedisErr(_) => "Redis Error"@,
            DbError::CustomErr(e) => "Error: String Message "@ + e@,
        }
    }

    /// Renders the failure for a user. The driver's own text is not included.
    pub fn message(&self) -> (r: String)
        ensures
            r@ == self.message_text(),
    {
        match self {
            DbError::RedisErr(_) => String::from_str("Redis Error"),
            DbError::CustomErr(e) => String::from_str("Error: String Message ").concat(e.as_str()),
        }
    }

    /// A failure diagnosed by the library, with the given message.
    pub fn custom(message: &str) -> (r: DbError)
        ensures
            r matches DbError::CustomErr(m) && m@ == message@,
    {
        DbError::CustomErr(String::from_str(message))
    }
}

impl From<redis::RedisError> for DbError {
    fn from(err: redis::RedisError) -> (r: DbError) {
        DbError::RedisErr(err)
    }
}

impl vstd::std_specs::convert::FromSpecImpl<redis::RedisError> for DbError {
    open spec fn obeys_from_spec() -> bool {
        true
    }

    open spec fn from_spec(err: redis::RedisError) -> DbError {
        DbError::RedisErr(err)
    }
}

} // verus!
