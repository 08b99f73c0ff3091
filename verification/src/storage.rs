//! Where the JPEG bytes of photos are kept.

use vstd::prelude::*;

pub mod in_memory;

verus! {

/// Errors of a storage backend.
#[derive(Debug)]
pub enum StorageError {
    NotFound(String),
    Operation(String),
}

impl StorageError {
    pub open spec fn spec_status_code(&self) -> u16 {
        match self {
            StorageError::NotFound(_) => 404,
            StorageError::Operation(_) => 500,
        }
    }

    pub open spec fn spec_message(&self) -> Seq<char> {
        match self {
            StorageError::NotFound(m) => "File not found: "@ + m@,
            StorageError::Operation(m) => m@,
        }
    }

    /// The HTTP status code that this error is answered with.
    pub fn status_code(&self) -> (code: u16)
        ensures
            code == self.spec_status_code(),
    {
        match self {
            StorageError::NotFound(_) => 404,
            StorageError::Operation(_) => 500,
        }
    }

    /// The human-readable text of this error.
    pub fn message(&self) -> (msg: String)
        ensures
            msg@ == self.spec_message(),
    {
        match self {
            StorageError::NotFound(m) => {
                let mut msg = String::from_str("File not found: ");
                msg.append(m.as_str());
                msg
            },
            StorageError::Operation(m) => m.clone(),
        }
    }
}

/// How a backend answers a read of an id whose read failed: a missing
/// object is `NotFound` naming the id, any other failure an `Operation`
/// error carrying the backend's message.
pub fn read_failure(not_found: bool, id_text: String, detail: String) -> (e: StorageError)
    ensures
        not_found ==> e == StorageError::NotFound(id_text),
        !not_found ==> e == StorageError::Operation(detail),
{
    if not_found {
        StorageError::NotFound(id_text)
    } else {
        StorageError::Operation(detail)
    }
}

} // verus!
