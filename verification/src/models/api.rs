//! The failures a request can end in, and what the client is told.

use vstd::prelude::*;

verus! {

/// The kinds of failure, by who is at fault and what the caller may learn.
#[derive(Clone, Copy, Debug, PartialEq, Eq, Structural)]
pub enum ErrorKind {
    /// The request itself is at fault; the caller is told why.
    ClientInput,
    /// The caller is not authenticated; every cause reads the same.
    AuthenticationFailure,
    /// The stored data contradict themselves; the caller sees a server error.
    DataIntegrity,
    /// The storage did not do what it was asked; the caller sees a server error.
    StorageFailure,
    /// The server could not act on the request for a reason of no other kind;
    /// the caller sees a server error.
    ServerFault,
}

/// Every failure a request can end in.
#[derive(Clone, Copy, Debug, PartialEq, Eq, Structural)]
pub enum ApiError {
    /// Registration with a password of fewer than eight bytes.
    PasswordTooShort,
    /// Registration with a password of more than sixty-four bytes.
    PasswordTooLong,
    /// Logout without a session cookie. The request names no session to end;
    /// it is answered as a fault of the server, with status 500, and never as a
    /// logout that succeeded.
    SessionCookieMissing,
    /// Login with an unknown email or a wrong password.
    LoginFailed,
    /// A request to a guarded route without a valid session.
    Unauthorized,
    /// Login of a user that has no stored credential.
    CredentialMissing,
    /// Login of a user whose stored hash cannot be used.
    CredentialCorrupt,
    /// Login while the user directory could not be read.
    LoginStorage,
    /// Registration that could not be stored.
    UserNotStored,
    /// A listing of users that could not be read.
    UsersNotRead,
}

/// The body sent with a failure.
#[derive(Debug)]
pub struct ErrorMessage {
    pub message: String,
}

/// The kind of each failure.
pub open spec fn kind_of(error: ApiError) -> ErrorKind {
    match error {
        ApiError::PasswordTooShort => ErrorKind::ClientInput,
        ApiError::PasswordTooLong => ErrorKind::ClientInput,
        ApiError::SessionCookieMissing => ErrorKind::ServerFault,
        ApiError::LoginFailed => ErrorKind::AuthenticationFailure,
        ApiError::Unauthorized => ErrorKind::AuthenticationFailure,
        ApiError::CredentialMissing => ErrorKind::DataIntegrity,
        ApiError::CredentialCorrupt => ErrorKind::DataIntegrity,
        ApiError::LoginStorage => ErrorKind::StorageFailure,
        ApiError::UserNotStored => ErrorKind::StorageFailure,
        ApiError::UsersNotRead => ErrorKind::StorageFailure,
    }
}

/// The HTTP status of each kind of failure.
pub open spec fn status_of(kind: ErrorKind) -> u16 {
    match kind {
        ErrorKind::ClientInput => 400,
        ErrorKind::AuthenticationFailure => 401,
        ErrorKind::DataIntegrity => 500,
        ErrorKind::StorageFailure => 500,
        ErrorKind::ServerFault => 500,
    }
}

/// The message sent with each failure. It names the request that failed and,
/// for a fault of the caller, the rule that was broken; it never tells a
/// fault of the stored data from a fault of the storage.
pub open spec fn message_of(error: ApiError) -> Seq<char> {
    match error {
        ApiError::PasswordTooShort => "Password must be at least 8 characters long"@,
        ApiError::PasswordTooLong => "Password must be at most 64 characters long"@,
        ApiError::SessionCookieMissing => "Error logging out"@,
        ApiError::LoginFailed => "Error logging in"@,
        ApiError::Unauthorized => "Unauthorized"@,
        ApiError::CredentialMissing => "Error logging in"@,
        ApiError::CredentialCorrupt => "Error logging in"@,
        ApiError::LoginStorage => "Error logging in"@,
        ApiError::UserNotStored => "Error inserting user"@,
        ApiError::UsersNotRead => "Error reading users"@,
    }
}

impl ApiError {
    /// The kind of this failure.
    pub fn kind(&self) -> (kind: ErrorKind)
        ensures
            kind == kind_of(*self),
    {
        match self {
            ApiError::PasswordTooShort => ErrorKind::ClientInput,
            ApiError::PasswordTooLong => ErrorKind::ClientInput,
            ApiError::SessionCookieMissing => ErrorKind::ServerFault,
            ApiError::LoginFailed => ErrorKind::AuthenticationFailure,
            ApiError::Unauthorized => ErrorKind::AuthenticationFailure,
            ApiError::CredentialMissing => ErrorKind::DataIntegrity,
            ApiError::CredentialCorrupt => ErrorKind::DataIntegrity,
            ApiError::LoginStorage => ErrorKind::StorageFailure,
            ApiError::UserNotStored => ErrorKind::StorageFailure,
            ApiError::UsersNotRead => ErrorKind::StorageFailure,
        }
    }

    /// The HTTP status to answer with.
    pub fn status(&self) -> (status: u16)
        ensures
            status == status_of(kind_of(*self)),
    {
        match self.kind() {
            ErrorKind::ClientInput => 400,
            ErrorKind::AuthenticationFailure => 401,
            ErrorKind::DataIntegrity => 500,
            ErrorKind::StorageFailure => 500,
        ErrorKind::ServerFault => 500,
        }
    }

    /// The body to answer with.
    pub fn message(&self) -> (body: ErrorMessage)
        ensures
            body.message@ == message_of(*self),
    {
        let text = match self {
            ApiError::PasswordTooShort => "Password must be at least 8 characters long",
            ApiError::PasswordTooLong => "Password must be at most 64 characters long",
            ApiError::SessionCookieMissing => "Error logging out",
            ApiError::LoginFailed => "Error logging in",
            ApiError::Unauthorized => "Unauthorized",
            ApiError::CredentialMissing => "Error logging in",
            ApiError::CredentialCorrupt => "Error logging in",
            ApiError::LoginStorage => "Error logging in",
            ApiError::UserNotStored => "Error inserting user",
            ApiError::UsersNotRead => "Error reading users",
        };
        ErrorMessage { message: text.to_owned() }
    }
}

} // verus!
