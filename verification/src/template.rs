//! Errors of the HTML template renderer.

use vstd::prelude::*;

pub mod tera;

verus! {

#[derive(Debug)]
pub enum TemplateError {
    NotFound(String),
    Operation(String),
}

impl TemplateError {
    pub open spec fn spec_status_code(&self) -> u16 {
        match self {
            TemplateError::NotFound(_) => 404,
            TemplateError::Operation(_) => 500,
        }
    }

    pub open spec fn spec_message(&self) -> Seq<char> {
        match self {
            TemplateError::NotFound(m) => "template not found: "@ + m@,
            TemplateError::Operation(_) =>
                "A failure was encountered while trying to render the template."@,
        }
    }

    /// The HTTP status code that this error is answered with.
    pub fn status_code(&self) -> (code: u16)
        ensures
            code == self.spec_status_code(),
    {
        match self {
            TemplateError::NotFound(_) => 404,
            TemplateError::Operation(_) => 500,
        }
    }

    /// The human-readable text of this error.
    pub fn message(&self) -> (msg: String)
        ensures
            msg@ == self.spec_message(),
    {
        match self {
            TemplateError::NotFound(m) => {
                let mut msg = String::from_str("template not found: ");
                msg.append(m.as_str());
                msg
            },
            TemplateError::Operation(_) => String::from_str(
                "A failure was encountered while trying to render the template.",
            ),
        }
    }
}

} // verus!
