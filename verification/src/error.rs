use crate::response::ApiResponse;
use vstd::prelude::*;

verus! {

/// Errors that the JSON API reports to its callers.
#[derive(Debug)]
pub enum ApiError {
    BadRequest(String),
    Internal(String),
    NotFound(String),
}

impl ApiError {
    /// The HTTP status code that this error is answered with.
    pub open spec fn spec_status_code(&self) -> u16 {
        match self {
            ApiError::BadRequest(_) => 400,
            ApiError::Internal(_) => 500,
            ApiError::NotFound(_) => 404,
        }
    }

    /// The human-readable text of this error.
    pub open spec fn spec_message(&self) -> Seq<char> {
        match self {
            ApiError::BadRequest(m) => "Bad request: "@ + m@,
            ApiError::Internal(m) => "Internal server error: "@ + m@,
            ApiError::NotFound(m) => "Resource not found: "@ + m@,
        }
    }

    pub fn status_code(&self) -> (code: u16)
        ensures
            code == self.spec_status_code(),
    {
        match self {
            ApiError::BadRequest(_) => 400,
            ApiError::Internal(_) => 500,
            ApiError::NotFound(_) => 404,
        }
    }

    pub fn message(&self) -> (msg: String)
        ensures
            msg@ == self.spec_message(),
    {
        let (mut msg, detail) = match self {
            ApiError::BadRequest(m) => (String::from_str("Bad request: "), m),
            ApiError::Internal(m) => (String::from_str("Internal server error: "), m),
            ApiError::NotFound(m) => (String::from_str("Resource not found: "), m),
        };
        msg.append(detail.as_str());
        msg
    }

    /// The JSON body that this error is answered with: a failed response
    /// that carries the error's text.
    pub fn error_body(&self) -> (body: ApiResponse<()>)
        ensures
            !body.success,
            body.data is None,
            body.error matches Some(m) && m@ == self.spec_message(),
    {
        let user_message = self.message();
        ApiResponse::<()>::error(user_message.as_str())
    }
}

/// The text of the causes of an error, each on a line of its own after
/// `Caused by:` and a tab.
pub open spec fn causes_text(causes: Seq<Seq<char>>) -> Seq<char>
    decreases causes.len(),
{
    if causes.len() == 0 {
        Seq::empty()
    } else {
        causes_text(causes.drop_last()) + "Caused by:\n\t"@ + causes.last() + "\n"@
    }
}

/// An error's text, a blank line, then the chain of its causes.
pub open spec fn error_chain_text(message: Seq<char>, causes: Seq<Seq<char>>) -> Seq<char> {
    message + "\n\n"@ + causes_text(causes)
}

pub open spec fn string_views(v: Seq<String>) -> Seq<Seq<char>> {
    v.map_values(|s: String| s@)
}

/// Writes an error together with the chain of its causes (outermost
/// first), so that a log shows why it happened.
pub fn error_chain_fmt(message: &str, causes: &Vec<String>) -> (text: String)
    ensures
        text@ == error_chain_text(message@, string_views(causes@)),
{
    let mut text = String::from_str(message);
    text.append("\n\n");
    let n = causes.len();
    let mut i: usize = 0;
    while i < n
        invariant
            n == causes.len(),
            i <= n,
            text@ == error_chain_text(message@, string_views(causes@).take(i as int)),
        decreases n - i,
    {
        let ghost before = text@;
        text.append("Caused by:\n\t");
        text.append(causes[i].as_str());
        text.append("\n");
        assert(string_views(causes@).take(i + 1).drop_last() =~= string_views(causes@).take(
            i as int,
        ));
        assert(text@ =~= error_chain_text(message@, string_views(causes@).take(i + 1)));
        i = i + 1;
    }
    assert(string_views(causes@).take(n as int) =~= string_views(causes@));
    text
}

} // verus!
