//! The error taxonomy of the server core.

use vstd::prelude::*;

verus! {

/// Every failure a caller of the auth service or the post endpoints can see.
///
/// Wrong username and wrong password both surface as `InvalidCredentials`, so
/// a client cannot probe which usernames exist. An unpublished post read by a
/// non-admin surfaces as `NotFound`, not `Forbidden`, so its existence does
/// not leak.
#[derive(Clone, Copy, Debug, PartialEq, Eq, Structural)]
pub enum ServerError {
    /// Unknown username or wrong password at login.
    InvalidCredentials,
    /// The username already exists at registration.
    UsernameTaken,
    /// The password at registration is shorter than the server-side minimum.
    PasswordTooShort,
    /// The caller is not an admin but asked for an admin-gated mutation.
    Forbidden,
    /// The requested resource is absent, or hidden from this caller.
    NotFound,
    /// The store could not complete the write (for example, its id space is
    /// exhausted) or the password hasher failed.
    StorageError,
}

impl ServerError {
    /// A short description, in place of a `Display` implementation.
    pub fn message(&self) -> (r: &'static str)
        ensures
            r@ == (match *self {
                ServerError::InvalidCredentials => "Invalid username or password"@,
                ServerError::UsernameTaken => "Username already exists"@,
                ServerError::PasswordTooShort => "Password is too short"@,
                ServerError::Forbidden => "Forbidden"@,
                ServerError::NotFound => "Not found"@,
                ServerError::StorageError => "Storage error"@,
            }),
    {
        match self {
            ServerError::InvalidCredentials => "Invalid username or password",
            ServerError::UsernameTaken => "Username already exists",
            ServerError::PasswordTooShort => "Password is too short",
            ServerError::Forbidden => "Forbidden",
            ServerError::NotFound => "Not found",
            ServerError::StorageError => "Storage error",
        }
    }
}

} // verus!
