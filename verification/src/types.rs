//! Account records and the sign-up / login rules.
//!
//! The storage layer itself lives outside the crate; what is verified here
//! is every decision the account endpoints make on plain values: which login
//! method a request names, and which sign-up requests are rejected.

use vstd::prelude::*;

verus! {

#[derive(Debug, Clone)]
pub struct User {
    pub id: Option<i32>,
    pub email: String,
    pub username: String,
    pub password: String,
    /// Creation time as a Unix timestamp; filled by the store when absent.
    pub creation_date: Option<i64>,
    pub uuid: Option<String>,
    pub authority: Option<String>,
}

#[derive(Debug, Clone)]
pub struct Player {
    pub id: Option<i32>,
    pub uuid: String,
    pub games_played: Option<i32>,
}

#[derive(Debug, Clone)]
pub struct LoginDetails {
    pub email: Option<String>,
    pub username: Option<String>,
    pub password: String,
}

/// A login method, constructed with the actual value for email or username.
#[derive(Debug, Clone)]
pub enum LoginMethod {
    Email(String),
    Username(String),
}

#[derive(Debug, Clone)]
pub struct UserRecord {
    pub email: String,
    pub password: String,
    pub username: String,
    pub uuid: String,
    pub authority: String,
}

/// A user record with the password withheld.
#[derive(Debug, Clone)]
pub struct PublicUserRecord {
    pub email: String,
    pub username: String,
    pub uuid: String,
    pub authority: String,
}

impl From<UserRecord> for PublicUserRecord {
    fn from(user_record: UserRecord) -> (r: PublicUserRecord) {
        PublicUserRecord {
            email: user_record.email,
            username: user_record.username,
            uuid: user_record.uuid,
            authority: user_record.authority,
        }
    }
}

impl vstd::std_specs::convert::FromSpecImpl<UserRecord> for PublicUserRecord {
    open spec fn obeys_from_spec() -> bool {
        true
    }

    open spec fn from_spec(user_record: UserRecord) -> PublicUserRecord {
        PublicUserRecord {
            email: user_record.email,
            username: user_record.username,
            uuid: user_record.uuid,
            authority: user_record.authority,
        }
    }
}

#[derive(Debug, Clone)]
pub enum SignupError {
    UsernameUnavailable,
    InvalidEmail,
    InvalidUsername,
    InvalidPassword,
    PasswordHashingError(String),
    Catchall(String),
    SqlError(String),
}

impl SignupError {
    /// The HTTP status code each sign-up failure answers with.
    pub fn status_code(&self) -> (r: u16)
        ensures
            (self matches SignupError::InvalidPassword) ==> r == 422,
            (self matches SignupError::InvalidUsername) ==> r == 422,
            (self matches SignupError::InvalidEmail) ==> r == 422,
            (self matches SignupError::UsernameUnavailable) ==> r == 409,
            (self matches SignupError::Catchall(_)) ==> r == 500,
            (self matches SignupError::SqlError(_)) ==> r == 500,
            (self matches SignupError::PasswordHashingError(_)) ==> r == 500,
    {
        match self {
            SignupError::InvalidPassword | SignupError::InvalidUsername
                | SignupError::InvalidEmail => 422,
            SignupError::UsernameUnavailable => 409,
            SignupError::Catchall(_) | SignupError::SqlError(_)
                | SignupError::PasswordHashingError(_) => 500,
        }
    }
}

#[derive(Debug, Clone)]
pub enum LoginError {
    MissingCredentials,
    UserDoesntExist,
    InvalidPassword,
    PasswordHashingError(String),
    Catchall(String),
    Unhandled,
    InvalidInputSentByUser(String),
    SqlError(String),
}

impl LoginError {
    /// The HTTP status code each login failure answers with.
    pub fn status_code(&self) -> (r: u16)
        ensures
            (self matches LoginError::InvalidPassword) ==> r == 401,
            (self matches LoginError::InvalidInputSentByUser(_)) ==> r == 401,
            (self matches LoginError::UserDoesntExist) ==> r == 401,
            (self matches LoginError::MissingCredentials) ==> r == 401,
            (self matches LoginError::Unhandled) ==> r == 500,
            (self matches LoginError::Catchall(_)) ==> r == 500,
            (self matches LoginError::SqlError(_)) ==> r == 500,
            (self matches LoginError::PasswordHashingError(_)) ==> r == 500,
    {
        match self {
            LoginError::InvalidPassword | LoginError::InvalidInputSentByUser(_)
                | LoginError::UserDoesntExist | LoginError::MissingCredentials => 401,
            LoginError::Unhandled | LoginError::Catchall(_) | LoginError::SqlError(_)
                | LoginError::PasswordHashingError(_) => 500,
        }
    }
}

/// Which credential a login request names: the email wins over the username,
/// and a request naming neither is refused.
pub fn login_method(details: &LoginDetails) -> (r: Result<LoginMethod, LoginError>)
    ensures
        details.email matches Some(e) ==> (r matches Ok(m) && m matches LoginMethod::Email(x) && x
            == e),
        details.username matches Some(u) ==> (details.email is None ==> (r matches Ok(m)
            && m matches LoginMethod::Username(x) && x == u)),
        details.email is None && details.username is None ==> r == Err::<LoginMethod, LoginError>(
            LoginError::MissingCredentials,
        ),
{
    match (&details.email, &details.username) {
        (Some(email), _) => Ok(LoginMethod::Email(email.clone())),
        (None, Some(username)) => Ok(LoginMethod::Username(username.clone())),
        (None, None) => Err(LoginError::MissingCredentials),
    }
}

/// Whether `email_address` accepts the string as an email address; the
/// verdict depends on the characters alone.
pub uninterp spec fn email_valid(s: Seq<char>) -> bool;

/// Relies on `email_address::EmailAddress::is_valid`: whether the address
/// parses is a pure function of the string.
#[verifier::external_body]
fn is_valid_email(s: &str) -> (r: bool)
    ensures
        r == email_valid(s@),
{
    email_address::EmailAddress::is_valid(s)
}

/// The sign-up validation rules, in the order the account endpoint applies
/// them: a malformed email, then an empty username, then an empty password
/// each refuse the request.
pub fn validate_new_user(user: &User) -> (r: Result<(), SignupError>)
    ensures
        !email_valid(user.email@) ==> r == Err::<(), SignupError>(SignupError::InvalidEmail),
        email_valid(user.email@) && user.username@.len() == 0 ==> r == Err::<(), SignupError>(
            SignupError::InvalidUsername,
        ),
        email_valid(user.email@) && user.username@.len() > 0 && user.password@.len() == 0 ==> r
            == Err::<(), SignupError>(SignupError::InvalidPassword),
        email_valid(user.email@) && user.username@.len() > 0 && user.password@.len() > 0 ==> r
            is Ok,
{
    if !is_valid_email(user.email.as_str()) {
        Err(SignupError::InvalidEmail)
    } else if user.username.as_str().is_empty() {
        Err(SignupError::InvalidUsername)
    } else if user.password.as_str().is_empty() {
        Err(SignupError::InvalidPassword)
    } else {
        Ok(())
    }
}

} // verus!
