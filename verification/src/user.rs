//! Users, and the rules by which one is admitted.

use crate::auth::{RegisterRequest, UserInfo};
use crate::ids::UserId;
use crate::message::Timestamp;
use vstd::prelude::*;

verus! {

#[derive(Debug, Clone, Copy, PartialEq, Eq, Structural)]
pub enum OnlineStatus {
    Online,
    Offline,
}

/// A user as the store holds it. `password` is the bcrypt hash of the
/// password, never the password.
#[derive(Debug, PartialEq, Eq)]
pub struct User {
    pub id: UserId,
    pub full_name: String,
    pub username: String,
    pub email: String,
    pub password: String,
    pub status: OnlineStatus,
    pub created_at: Timestamp,
    pub updated_at: Timestamp,
}

/// What it takes to create a user.
#[derive(Debug, PartialEq, Eq)]
pub struct CreateUser {
    pub full_name: String,
    pub username: String,
    pub email: String,
    pub password: String,
    pub status: OnlineStatus,
}

/// A stored password hash could not be read as one.
#[derive(Debug, Clone, Copy, PartialEq, Eq, Structural)]
pub struct MalformedHash;

/// Why a registration is turned down.
#[derive(Debug, Clone, Copy, PartialEq, Eq, Structural)]
pub enum RegistrationError {
    /// The password and its confirmation differ.
    PasswordMismatch,
    EmailTaken,
    UsernameTaken,
}

/// The errors of the `bcrypt` crate.
#[verifier::external_type_specification]
#[verifier::external_body]
pub struct ExBcryptError(bcrypt::BcryptError);

/// What `bcrypt::verify` makes of a password and a hash: whether the hash is
/// one of the password, or `None` where the hash cannot be read.
pub uninterp spec fn bcrypt_verdict(password: Seq<char>, hash: Seq<char>) -> Option<bool>;

/// Calls `bcrypt::verify`.
///
/// Trusted: the outcome is a function of the two texts alone. The crate
/// splits the hash into cost, salt and digest, hashes the password anew with
/// that cost and salt, and compares the digests; it draws on nothing else.
#[verifier::external_body]
fn bcrypt_verify(password: &str, hash: &str) -> (outcome: Result<bool, bcrypt::BcryptError>)
    ensures
        match outcome {
            Ok(matches) => bcrypt_verdict(password@, hash@) == Some(matches),
            Err(_) => bcrypt_verdict(password@, hash@) is None,
        },
{
    bcrypt::verify(password, hash)
}

/// Whom a sign-in with `password` admits, where the store found `found`
/// under the name that was given: the user, where there is one and the
/// stored hash is one of the password. A hash that cannot be read admits
/// nobody.
pub open spec fn admitted(found: Option<User>, password: Seq<char>) -> Option<User> {
    match found {
        Some(user) => if bcrypt_verdict(password, user.password@) == Some(true) {
            Some(user)
        } else {
            None
        },
        None => None,
    }
}

/// Why a registration is turned down, if it is. The first failing check
/// decides: the passwords, then the email, then the user name.
pub open spec fn registration_verdict(
    password: Seq<char>,
    confirm_password: Seq<char>,
    email_taken: bool,
    username_taken: bool,
) -> Result<(), RegistrationError> {
    if password != confirm_password {
        Err(RegistrationError::PasswordMismatch)
    } else if email_taken {
        Err(RegistrationError::EmailTaken)
    } else if username_taken {
        Err(RegistrationError::UsernameTaken)
    } else {
        Ok(())
    }
}

impl CreateUser {
    /// The user that a registration asks for. A new user starts offline.
    pub fn from_request(request: RegisterRequest) -> (user: Self)
        ensures
            user.full_name == request.full_name,
            user.username == request.username,
            user.email == request.email,
            user.password == request.password,
            user.status == OnlineStatus::Offline,
    {
        CreateUser {
            full_name: request.full_name,
            username: request.username,
            email: request.email,
            password: request.password,
            status: OnlineStatus::Offline,
        }
    }
}

impl User {
    /// What others may see of the user: everything but the password hash,
    /// the status and the times.
    pub fn info(&self) -> (info: UserInfo)
        ensures
            info.id == self.id,
            info.full_name == self.full_name,
            info.username == self.username,
            info.email == self.email,
    {
        UserInfo {
            id: self.id,
            full_name: self.full_name.clone(),
            username: self.username.clone(),
            email: self.email.clone(),
        }
    }

    /// Whether the stored hash is one of `password`.
    pub fn verify_password(&self, password: &str) -> (outcome: Result<bool, MalformedHash>)
        ensures
            match outcome {
                Ok(matches) => bcrypt_verdict(password@, self.password@) == Some(matches),
                Err(_) => bcrypt_verdict(password@, self.password@) is None,
            },
    {
        match bcrypt_verify(password, self.password.as_str()) {
            Ok(matches) => Ok(matches),
            Err(_) => Err(MalformedHash),
        }
    }

    /// Decides a sign-in: `found` is what the store holds under the name
    /// that was given.
    pub fn authenticate(found: Option<User>, password: &str) -> (user: Option<User>)
        ensures
            user == admitted(found, password@),
    {
        match found {
            Some(user) => {
                let matches = match user.verify_password(password) {
                    Ok(matches) => matches,
                    Err(_) => false,
                };
                if matches {
                    Some(user)
                } else {
                    None
                }
            },
            None => None,
        }
    }
}

/// Decides a registration from the two passwords and from what the store
/// said of the email and of the user name.
pub fn check_registration(
    password: &str,
    confirm_password: &str,
    email_taken: bool,
    username_taken: bool,
) -> (verdict: Result<(), RegistrationError>)
    ensures
        verdict == registration_verdict(password@, confirm_password@, email_taken, username_taken),
{
    if password.to_string() != confirm_password.to_string() {
        Err(RegistrationError::PasswordMismatch)
    } else if email_taken {
        Err(RegistrationError::EmailTaken)
    } else if username_taken {
        Err(RegistrationError::UsernameTaken)
    } else {
        Ok(())
    }
}

} // verus!
