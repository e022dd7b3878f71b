//! Authentication of a request by the e-mail address that a trusted proxy
//! attached to it.

use vstd::prelude::*;
use vstd::string::*;
use crate::errors::{Errors, Status, StatusCode};

verus! {

/// Looks users up by e-mail address.
pub trait UserStore {
    /// The id of the user with the address, or `None` where no user has it.
    /// A failure of the lookup itself is reported as text.
    fn get_user_id_by_email(&self, email: &str) -> Result<Option<i64>, String>;
}

/// What the authentication of a request comes to, given what the lookup of
/// its e-mail address returned: the id of the user; a refusal where no user
/// has the address; an internal failure, with the reason after `DB error: `,
/// where the lookup failed.
pub open spec fn lookup_outcome(lookup: Result<Option<i64>, String>, r: Result<i64, Status>) -> bool {
    match lookup {
        Ok(Some(user_id)) => r == Ok::<i64, Status>(user_id),
        Ok(None) => r.is_err() && r.unwrap_err().code == StatusCode::PermissionDenied
            && r.unwrap_err().message@ == "No user found for provided email"@,
        Err(reason) => r.is_err() && r.unwrap_err().code == StatusCode::Internal
            && r.unwrap_err().message@ == "DB error: "@ + reason@,
    }
}

/// Decides a request from what the lookup of its e-mail address returned.
pub fn decide_lookup(lookup: Result<Option<i64>, String>) -> (r: Result<i64, Status>)
    ensures
        lookup_outcome(lookup, r),
{
    match lookup {
        Ok(Some(user_id)) => Ok(user_id),
        Ok(None) => Err(
            Errors::permission_denied(String::from_str("No user found for provided email")),
        ),
        Err(reason) => {
            let mut message: String = String::from_str("DB error: ");
            message.append(reason.as_str());
            Err(Errors::internal(message))
        },
    }
}

/// What a request without a readable e-mail header is answered with.
pub fn missing_email() -> (s: Status)
    ensures
        s.code == StatusCode::Unauthenticated,
        s.message@ == "Missing or invalid email header"@,
{
    Errors::unauthenticated(String::from_str("Missing or invalid email header"))
}

/// Wraps a service and lets a request through only where its e-mail
/// address belongs to a user.
pub struct AuthMiddleware<S, D: UserStore> {
    pub inner: S,
    pub db: D,
}

impl<S, D: UserStore> AuthMiddleware<S, D> {
    /// Wraps `inner`, looking users up in `db`.
    pub fn new(inner: S, db: D) -> (m: Self)
        ensures
            m.inner == inner,
            m.db == db,
    {
        AuthMiddleware { inner, db }
    }

    /// Authenticates a request by the e-mail address in its header. A
    /// request without a readable address is unauthenticated. Otherwise the
    /// address is looked up, and the result of the lookup decides.
    pub fn authenticate(&self, email: Option<&str>) -> (r: Result<i64, Status>)
        ensures
            email.is_none() ==> r.is_err() && r.unwrap_err().code == StatusCode::Unauthenticated
                && r.unwrap_err().message@ == "Missing or invalid email header"@,
            email.is_some() ==> exists|lookup: Result<Option<i64>, String>|
                lookup_outcome(lookup, r),
    {
        match email {
            None => Err(missing_email()),
            Some(address) => decide_lookup(self.db.get_user_id_by_email(address)),
        }
    }
}

/// Builds the middleware for a service.
pub struct AuthLayer<D: UserStore> {
    pub db: D,
}

impl<D: UserStore> AuthLayer<D> {
    /// A layer that looks users up in `db`.
    pub fn new(db: D) -> (l: Self)
        ensures
            l.db == db,
    {
        AuthLayer { db }
    }

    /// Wraps a service.
    pub fn layer<S>(self, inner: S) -> (m: AuthMiddleware<S, D>)
        ensures
            m.inner == inner,
            m.db == self.db,
    {
        AuthMiddleware::new(inner, self.db)
    }
}

} // verus!
