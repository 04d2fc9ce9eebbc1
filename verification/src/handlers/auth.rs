//! Login, logout, and the making of a new user's rows.

use crate::credentials::{
    hash_password, is_credential_for, password_len, rejects, verdict, verify_password,
};
use crate::middlewares::session::{session_token, token_in};
use crate::models::api::{kind_of, message_of, status_of, ApiError, ErrorKind};
use crate::models::session::{
    is_fresh_session, is_session_id, new_session_id, Session, SessionManager, SESSION_COOKIE,
};
use crate::models::user::{LoginUser, User};
use crate::statements::{password_insert_text, user_insert_text, user_statements};
use crate::trusted::clock::{rfc2822, rfc2822_text, MAX_RFC2822_MILLIS};
use crate::trusted::ident::{is_ulid_text, new_ulid};
use crate::trusted::password::MAX_HASHED_LEN;
use vstd::prelude::*;

verus! {

/// What the user directory answered for the email of a login. The directory
/// matches emails without regard to case.
#[derive(Debug)]
pub enum AccountLookup {
    /// The directory could not be read.
    Failed,
    /// No user has the email.
    NoUser,
    /// A user has the email, but no credential is stored for that user.
    NoCredential { user_id: String, name: String },
    /// A user has the email, and `hash` is the stored hash of that user.
    Found { user_id: String, name: String, hash: String },
}

/// What an answer of the user directory is, as mathematics.
pub enum AccountView {
    Failed,
    NoUser,
    NoCredential { user_id: Seq<char>, name: Seq<char> },
    Found { user_id: Seq<char>, name: Seq<char>, hash: Seq<char> },
}

impl View for AccountLookup {
    type V = AccountView;

    open spec fn view(&self) -> AccountView {
        match self {
            AccountLookup::Failed => AccountView::Failed,
            AccountLookup::NoUser => AccountView::NoUser,
            AccountLookup::NoCredential { user_id, name } => AccountView::NoCredential {
                user_id: user_id@,
                name: name@,
            },
            AccountLookup::Found { user_id, name, hash } => AccountView::Found {
                user_id: user_id@,
                name: name@,
                hash: hash@,
            },
        }
    }
}

/// The answer of a directory that holds the user `user_id`, called `name`,
/// with the stored hash `hash`.
pub open spec fn found_account(
    user_id: Seq<char>,
    name: Seq<char>,
    hash: Seq<char>,
) -> AccountView {
    AccountView::Found { user_id, name, hash }
}

/// The answer of a directory that holds the user `user_id`, called `name`,
/// and no credential of that user.
pub open spec fn account_without_credential(user_id: Seq<char>, name: Seq<char>) -> AccountView {
    AccountView::NoCredential { user_id, name }
}

/// The user that a login was let in for. Only `authenticate` makes one, so
/// that whoever holds one has passed the password check: a session of a login
/// is started from it and from nothing else.
#[derive(Debug)]
pub struct AccountOwner {
    user_id: String,
    name: String,
}

impl AccountOwner {
    /// The id of the user, as text.
    pub closed spec fn id_text(&self) -> Seq<char> {
        self.user_id@
    }

    /// The name of the user, as text.
    pub closed spec fn name_text(&self) -> Seq<char> {
        self.name@
    }

    /// The id of the user.
    pub fn user_id(&self) -> (id: &String)
        ensures
            id@ == self.id_text(),
    {
        &self.user_id
    }

    /// The name of the user.
    pub fn name(&self) -> (name: &String)
        ensures
            name@ == self.name_text(),
    {
        &self.name
    }
}

/// A login that succeeded: the session that was created, and the user.
#[derive(Debug)]
pub struct Login {
    pub session: Session,
    pub user: User,
}

/// Why a login with `password` is refused on the directory's answer
/// `account`, or `None` where it is not refused. An unknown email and a wrong
/// password are refused alike.
pub open spec fn login_refusal(account: AccountView, password: Seq<char>) -> Option<ApiError> {
    match account {
        AccountView::Failed => Some(ApiError::LoginStorage),
        AccountView::NoUser => Some(ApiError::LoginFailed),
        AccountView::NoCredential { .. } => Some(ApiError::CredentialMissing),
        AccountView::Found { hash, .. } => match verdict(password, hash) {
            Some(true) => None,
            Some(false) => Some(ApiError::LoginFailed),
            None => Some(ApiError::CredentialCorrupt),
        },
    }
}

/// Whether the two statements store a user `name`, `email` under the
/// well-formed id `id`, with a credential for `password`.
pub open spec fn stores_user(
    user_insert: Seq<char>,
    password_insert: Seq<char>,
    id: Seq<char>,
    name: Seq<char>,
    email: Seq<char>,
    password: Seq<char>,
) -> bool {
    &&& is_ulid_text(id)
    &&& user_insert == user_insert_text(id, name, email)
    &&& exists|salt: Seq<char>, hash: Seq<char>|
        {
            &&& is_credential_for(hash, salt, password)
            &&& password_insert == #[trigger] password_insert_text(id, salt, hash)
        }
}

/// The value of the `Set-Cookie` header for a session with the id `id` that
/// expires at `expires`.
pub open spec fn set_cookie_text(id: Seq<char>, expires: int) -> Seq<char> {
    SESSION_COOKIE@ + "="@ + id + "; Expires="@ + rfc2822_text(expires)
}

/// Decides whether a login with `password` is let in on the directory's
/// answer `account`, and for which user.
pub fn authenticate(
    password: &str,
    account: AccountLookup,
) -> (decision: Result<AccountOwner, ApiError>)
    ensures
        match decision {
            Ok(owner) => {
                &&& login_refusal(account@, password@).is_none()
                &&& account@ is Found
                &&& owner.id_text() == account@->Found_user_id
                &&& owner.name_text() == account@->Found_name
            },
            Err(refusal) => login_refusal(account@, password@) == Some(refusal),
        },
{
    match account {
        AccountLookup::Failed => Err(ApiError::LoginStorage),
        AccountLookup::NoUser => Err(ApiError::LoginFailed),
        AccountLookup::NoCredential { user_id: _, name: _ } => Err(ApiError::CredentialMissing),
        AccountLookup::Found { user_id, name, hash } => {
            match verify_password(password, hash.as_str()) {
                Ok(true) => Ok(AccountOwner { user_id, name }),
                Ok(false) => Err(ApiError::LoginFailed),
                Err(fault) => Err(fault),
            }
        },
    }
}

/// Creates the session of a login that was let in under the session id `id`,
/// and answers with the session and the user: the owner of the account, with
/// the email as it was typed at login. It takes the owner that `authenticate`
/// made, so that no session of a login is created before the password was
/// checked. The id is one that `new_session_id` drew.
pub fn start_session_under(
    sessions: &mut SessionManager,
    owner: AccountOwner,
    email: String,
    id: String,
) -> (login: Login)
    ensures
        login.user.id@ == owner.id_text(),
        login.user.name@ == owner.name_text(),
        login.user.email@ == email@,
        login.session.id@ == id@,
        login.session.user_id@ == owner.id_text(),
        is_session_id(id@) ==> is_fresh_session(login.session@, owner.id_text()),
        final(sessions).holds_added(old(sessions), login.session@),
{
    let session = sessions.add_session_under(id, owner.user_id.clone());
    Login { session, user: User { id: owner.user_id, name: owner.name, email } }
}

/// Creates the session of a login that was let in, under a fresh session id,
/// and answers as `start_session_under` does.
pub fn start_session(
    sessions: &mut SessionManager,
    owner: AccountOwner,
    email: String,
) -> (login: Login)
    ensures
        login.user.id@ == owner.id_text(),
        login.user.name@ == owner.name_text(),
        login.user.email@ == email@,
        is_fresh_session(login.session@, owner.id_text()),
        final(sessions).holds_added(old(sessions), login.session@),
{
    let id = new_session_id();
    start_session_under(sessions, owner, email, id)
}

/// Logs a user in: checks the password against the directory's answer, and
/// only then creates a session for the user.
///
/// A login is refused exactly where `login_refusal` says, with that failure,
/// and then the store is left untouched. A login that is let in returns the
/// user as the directory knows it, with the email as it was typed, and a
/// session of that user, freshly made and added to the store.
pub fn login_user(
    sessions: &mut SessionManager,
    payload: LoginUser,
    account: AccountLookup,
) -> (outcome: Result<Login, ApiError>)
    ensures
        match outcome {
            Ok(login) => {
                &&& login_refusal(account@, payload.password@).is_none()
                &&& account@ is Found
                &&& login.user.id@ == account@->Found_user_id
                &&& login.user.name@ == account@->Found_name
                &&& login.user.email@ == payload.email@
                &&& is_fresh_session(login.session@, account@->Found_user_id)
                &&& final(sessions).holds_added(old(sessions), login.session@)
            },
            Err(refusal) => login_refusal(account@, payload.password@) == Some(refusal)
                && *final(sessions) == *old(sessions),
        },
{
    match authenticate(payload.password.as_str(), account) {
        Ok(owner) => Ok(start_session(sessions, owner, payload.email)),
        Err(refusal) => Err(refusal),
    }
}

/// Ends the session that `token` names. Without a token nothing is done and
/// the request fails; with one, the session is deleted whether or not it was
/// still there, and the request succeeds.
pub fn end_session(
    sessions: &mut SessionManager,
    token: Option<String>,
) -> (outcome: Result<(), ApiError>)
    ensures
        match token {
            Some(id) => outcome.is_ok() && final(sessions).holds_deleted(old(sessions), id@),
            None => outcome matches Err(fault) && fault == ApiError::SessionCookieMissing
                && *final(sessions) == *old(sessions),
        },
{
    match token {
        Some(id) => {
            sessions.delete_session(&id);
            Ok(())
        },
        None => Err(ApiError::SessionCookieMissing),
    }
}

/// Logs out: reads the session token from the request's `Cookie` headers and
/// ends that session.
pub fn logout(
    sessions: &mut SessionManager,
    cookie_headers: &Vec<String>,
) -> (outcome: Result<(), ApiError>)
    ensures
        match token_in(cookie_headers.deep_view()) {
            Some(id) => outcome.is_ok() && final(sessions).holds_deleted(old(sessions), id),
            None => outcome matches Err(fault) && fault == ApiError::SessionCookieMissing
                && *final(sessions) == *old(sessions),
        },
{
    let token = session_token(cookie_headers);
    end_session(sessions, token)
}

/// The value of the `Set-Cookie` header that hands `session` to the client.
/// The session must expire before the year 10000, the last that the date
/// format can show.
pub fn session_cookie(session: &Session) -> (header: String)
    requires
        0 <= session.expires <= MAX_RFC2822_MILLIS,
    ensures
        header@ == set_cookie_text(session.id@, session.expires as int),
{
    let mut header = SESSION_COOKIE.to_owned();
    header.append("=");
    header.append(session.id.as_str());
    header.append("; Expires=");
    let date = rfc2822(session.expires);
    header.append(date.as_str());
    header
}

/// Makes the rows of a new user: draws an id, hashes the password under a
/// fresh salt, and returns the statement that inserts the user, the statement
/// that inserts the credential, and the id. The password may have at most
/// `MAX_HASHED_LEN` bytes.
///
/// The id and the salt come from outside. Whatever they are, the statements
/// are those of `user_statements` for them, and the stored hash admits the
/// password.
pub fn add_user(
    name: &String,
    password: &String,
    email: &String,
) -> (rows: (String, String, String))
    requires
        password_len(password@) <= MAX_HASHED_LEN,
    ensures
        stores_user(rows.0@, rows.1@, rows.2@, name@, email@, password@),
{
    let id = new_ulid();
    let (salt, hash) = hash_password(password.as_str());
    let (user_insert, password_insert) = user_statements(
        id.as_str(),
        name.as_str(),
        email.as_str(),
        salt.as_str(),
        hash.as_str(),
    );
    (user_insert, password_insert, id)
}

/// A user whose credential row was made at registration with `password` is
/// let in at login with the same password.
pub proof fn lemma_registered_user_is_let_in(
    user_id: Seq<char>,
    name: Seq<char>,
    salt: Seq<char>,
    hash: Seq<char>,
    password: Seq<char>,
)
    requires
        is_credential_for(hash, salt, password),
    ensures
        login_refusal(found_account(user_id, name, hash), password).is_none(),
{
}

/// A login with a wrong password and a login with an unknown email are
/// refused with the same failure, an authentication failure.
pub proof fn lemma_unknown_email_reads_as_wrong_password(
    user_id: Seq<char>,
    name: Seq<char>,
    hash: Seq<char>,
    wrong_password: Seq<char>,
    any_password: Seq<char>,
)
    requires
        rejects(hash, wrong_password),
    ensures
        login_refusal(found_account(user_id, name, hash), wrong_password) == Some(
            ApiError::LoginFailed,
        ),
        login_refusal(AccountView::NoUser, any_password) == Some(ApiError::LoginFailed),
        kind_of(ApiError::LoginFailed) == ErrorKind::AuthenticationFailure,
{
}

/// A login of a user without a credential fails as a fault of the stored data,
/// never as an authentication failure.
pub proof fn lemma_missing_credential_is_a_data_fault(
    user_id: Seq<char>,
    name: Seq<char>,
    password: Seq<char>,
)
    ensures
        login_refusal(account_without_credential(user_id, name), password) matches Some(fault)
            && kind_of(fault) == ErrorKind::DataIntegrity,
{
}

/// A logout without a session cookie ends in a failure of its own, which is
/// answered as a server error with the message of a logout that failed.
pub proof fn lemma_logout_without_cookie_is_a_server_error()
    ensures
        status_of(kind_of(ApiError::SessionCookieMissing)) == 500,
        message_of(ApiError::SessionCookieMissing) == "Error logging out"@,
{
}

} // verus!
