//! Errors of the photo database.

use vstd::prelude::*;

verus! {

#[derive(Debug)]
pub enum DatabaseError {
    NotFound(String),
    Operation(String),
}

impl DatabaseError {
    pub open spec fn spec_status_code(&self) -> u16 {
        match self {
            DatabaseError::NotFound(_) => 404,
            DatabaseError::Operation(_) => 500,
        }
    }

    pub open spec fn spec_message(&self) -> Seq<char> {
        match self {
            DatabaseError::NotFound(m) => "record not found: "@ + m@,
            DatabaseError::Operation(m) => m@,
        }
    }

    /// The HTTP status code that this error is answered with.
    pub fn status_code(&self) -> (code: u16)
        ensures
            code == self.spec_status_code(),
    {
        match self {
            DatabaseError::NotFound(_) => 404,
            DatabaseError::Operation(_) => 500,
        }
    }

    /// The human-readable text of this error.
    pub fn message(&self) -> (msg: String)
        ensures
            msg@ == self.spec_message(),
    {
        match self {
            DatabaseError::NotFound(m) => {
                let mut msg = String::from_str("record not found: ");
                msg.append(m.as_str());
                msg
            },
            DatabaseError::Operation(m) => m.clone(),
        }
    }
}

} // verus!
