//! Session-based authentication for the admin routes.

use vstd::prelude::*;

verus! {

/// The credentials posted by the login form.
#[derive(Debug)]
pub struct LoginForm {
    pub username: String,
    pub password: String,
}

/// The query of the login page: `error` is present after a failed login.
#[derive(Debug)]
pub struct LoginQuery {
    pub error: Option<String>,
}

impl LoginQuery {
    /// The login page shows its error notice.
    pub fn has_error(&self) -> (b: bool)
        ensures
            b == self.error is Some,
    {
        self.error.is_some()
    }
}

/// The posted credentials are the admin's.
pub fn credentials_match(form: &LoginForm, admin_username: &String, admin_password: &String) -> (b:
    bool)
    ensures
        b == (form.username@ == admin_username@ && form.password@ == admin_password@),
{
    form.username == *admin_username && form.password == *admin_password
}

pub open spec fn login_redirect(logged_in: bool) -> Seq<char> {
    if logged_in {
        "/gallery"@
    } else {
        "/login?error=1"@
    }
}

/// Where a login attempt is redirected: the gallery once the identity is
/// attached, else back to the login page with its error notice.
pub fn login_redirect_location(logged_in: bool) -> (location: String)
    ensures
        location@ == login_redirect(logged_in),
{
    if logged_in {
        String::from_str("/gallery")
    } else {
        String::from_str("/login?error=1")
    }
}

} // verus!
