//! Users: who they are, what is asked of a new one, and the service that
//! hands them out.

use vstd::prelude::*;
use vstd::string::*;
use crate::error::AppError;
use crate::text::{contains_char, decimal, decimal_string};

verus! {

/// A calendar date of the crate `chrono`. The library carries dates through
/// and never looks inside one.
#[verifier::external_type_specification]
#[verifier::external_body]
pub struct ExNaiveDate(chrono::NaiveDate);

/// `<chrono::NaiveDate as Clone>::clone`: a date is a plain value that can
/// be copied, and its clone is the date itself.
pub assume_specification[ <chrono::NaiveDate as Clone>::clone ](date: &chrono::NaiveDate) -> (copy:
    chrono::NaiveDate)
    ensures
        copy == *date,
;

/// How many bytes `text` takes in UTF-8.
pub open spec fn byte_len(text: Seq<char>) -> nat {
    vstd::utf8::encode_utf8(text).len()
}

/// Who an anonymous user is: a hospital, a user of it, the day that user
/// started, and a department.
#[derive(Debug, Clone, PartialEq, Eq, Hash)]
pub struct AnonymousUserIdentifier {
    pub hospital_code: String,
    pub user_id: String,
    pub user_start_date: chrono::NaiveDate,
    pub department_code: String,
}

impl AnonymousUserIdentifier {
    /// What is wrong with the identifier, if anything: the first of its
    /// three codes that is empty.
    pub open spec fn validation_error(self) -> Option<Seq<char>> {
        if self.hospital_code@.len() == 0 {
            Some("Hospital code cannot be empty"@)
        } else if self.user_id@.len() == 0 {
            Some("User ID cannot be empty"@)
        } else if self.department_code@.len() == 0 {
            Some("Department code cannot be empty"@)
        } else {
            None
        }
    }

    /// Checks that none of the three codes is empty.
    pub fn validate(&self) -> (verdict: Result<(), String>)
        ensures
            match verdict {
                Ok(_) => self.validation_error() is None,
                Err(reason) => self.validation_error() == Some(reason@),
            },
    {
        if self.hospital_code.as_str().is_empty() {
            return Err("Hospital code cannot be empty".to_owned());
        }
        if self.user_id.as_str().is_empty() {
            return Err("User ID cannot be empty".to_owned());
        }
        if self.department_code.as_str().is_empty() {
            return Err("Department code cannot be empty".to_owned());
        }
        Ok(())
    }
}

/// A user who has proved who they are.
#[derive(Debug, Clone, PartialEq, Eq)]
pub struct VerifiedUser {
    pub id: u64,
    pub username: String,
    pub email: String,
}

/// A user: verified, or anonymous.
#[derive(Debug, Clone, PartialEq, Eq)]
pub enum UserIdentity {
    Verified(VerifiedUser),
    Anonymous(AnonymousUserIdentifier),
}

impl UserIdentity {
    /// Whether the user is verified.
    pub fn is_verified(&self) -> (yes: bool)
        ensures
            yes == (self is Verified),
    {
        match self {
            UserIdentity::Verified(_) => true,
            UserIdentity::Anonymous(_) => false,
        }
    }

    /// Whether the user is anonymous.
    pub fn is_anonymous(&self) -> (yes: bool)
        ensures
            yes == (self is Anonymous),
    {
        match self {
            UserIdentity::Verified(_) => false,
            UserIdentity::Anonymous(_) => true,
        }
    }

    /// The verified user, if the user is one.
    pub fn as_verified(&self) -> (user: Option<&VerifiedUser>)
        ensures
            match user {
                Some(user) => *self == UserIdentity::Verified(*user),
                None => self is Anonymous,
            },
    {
        match self {
            UserIdentity::Verified(user) => Some(user),
            UserIdentity::Anonymous(_) => None,
        }
    }

    /// The identifier of the anonymous user, if the user is one.
    pub fn as_anonymous(&self) -> (identifier: Option<&AnonymousUserIdentifier>)
        ensures
            match identifier {
                Some(identifier) => *self == UserIdentity::Anonymous(*identifier),
                None => self is Verified,
            },
    {
        match self {
            UserIdentity::Anonymous(identifier) => Some(identifier),
            UserIdentity::Verified(_) => None,
        }
    }
}

/// A user as the user service hands them out.
#[derive(Debug, Clone, PartialEq, Eq)]
pub struct User {
    pub id: u64,
    pub username: String,
    pub email: String,
}

/// What is asked for when a user is to be made.
#[derive(Debug, Clone, PartialEq, Eq)]
pub struct CreateUserRequest {
    pub username: String,
    pub email: String,
}

/// What is wrong with a name and an address for a new user, if anything:
/// the first of a name that is empty, a name of fewer than three bytes, and
/// an address without `@`.
pub open spec fn name_and_email_error(username: Seq<char>, email: Seq<char>) -> Option<Seq<char>> {
    if username.len() == 0 {
        Some("Username cannot be empty"@)
    } else if byte_len(username) < 3 {
        Some("Username must be at least 3 characters"@)
    } else if !email.contains('@') {
        Some("Invalid email format"@)
    } else {
        None
    }
}

impl CreateUserRequest {
    /// What is wrong with the request, if anything.
    pub open spec fn validation_error(self) -> Option<Seq<char>> {
        name_and_email_error(self.username@, self.email@)
    }

    /// Checks the name and the address.
    pub fn validate(&self) -> (verdict: Result<(), String>)
        ensures
            match verdict {
                Ok(_) => self.validation_error() is None,
                Err(reason) => self.validation_error() == Some(reason@),
            },
    {
        if self.username.as_str().is_empty() {
            return Err("Username cannot be empty".to_owned());
        }
        if self.username.as_str().as_bytes().len() < 3 {
            return Err("Username must be at least 3 characters".to_owned());
        }
        if !contains_char(self.email.as_str(), '@') {
            return Err("Invalid email format".to_owned());
        }
        Ok(())
    }
}

/// How many users a listing is asked for.
#[derive(Debug, Clone, Copy, PartialEq, Eq)]
pub struct ListUsersQuery {
    pub limit: Option<usize>,
}

/// The most users that one listing holds.
pub const MAX_LISTED_USERS: usize = 100;

/// The users that a listing holds where no number is asked for.
pub const DEFAULT_LISTED_USERS: usize = 10;

/// The greatest identifier under which a user is found.
pub const LAST_USER_ID: u64 = 100;

/// The name of the user with the identifier `id`.
pub open spec fn user_name(id: u64) -> Seq<char> {
    "user"@ + decimal(id as nat)
}

/// The address of the user with the identifier `id`.
pub open spec fn user_email(id: u64) -> Seq<char> {
    "user"@ + decimal(id as nat) + "@example.com"@
}

/// Whether `user` is the user with the identifier `id`.
pub open spec fn is_user(user: User, id: u64) -> bool {
    &&& user.id == id
    &&& user.username@ == user_name(id)
    &&& user.email@ == user_email(id)
}

/// How many users a listing holds that is asked for `limit` of them.
pub open spec fn listed(limit: Option<usize>) -> nat {
    let asked = match limit {
        Some(n) => n,
        None => DEFAULT_LISTED_USERS,
    };
    if asked <= MAX_LISTED_USERS {
        asked as nat
    } else {
        MAX_LISTED_USERS as nat
    }
}

fn user_with_id(id: u64) -> (user: User)
    ensures
        is_user(user, id),
{
    let number = decimal_string(id);
    User {
        id,
        username: "user".to_owned().concat(number.as_str()),
        email: "user".to_owned().concat(number.as_str()).concat("@example.com"),
    }
}

/// The service that makes users and hands them out. It numbers the users it
/// makes, from one upward.
#[derive(Debug)]
pub struct UserService {
    next_id: u64,
}

impl UserService {
    /// The identifier that the next user gets.
    pub closed spec fn next_id(&self) -> u64 {
        self.next_id
    }

    /// A service that has made no user yet.
    pub fn new() -> (service: Self)
        ensures
            service.next_id() == 1,
    {
        UserService { next_id: 1 }
    }

    /// Makes a user of the name and address asked for. A request that is
    /// not in order is turned down as a bad request, and no identifier is
    /// used up.
    pub fn create_user(&mut self, request: CreateUserRequest) -> (made: Result<User, AppError>)
        ensures
            match made {
                Ok(user) => {
                    &&& request.validation_error() is None
                    &&& user.id == old(self).next_id()
                    &&& user.username == request.username
                    &&& user.email == request.email
                    &&& final(self).next_id() == if old(self).next_id() == u64::MAX {
                        0
                    } else {
                        (old(self).next_id() + 1) as u64
                    }
                },
                Err(error) => {
                    &&& error matches AppError::BadRequest(reason)
                    &&& request.validation_error() == Some(reason@)
                    &&& final(self).next_id() == old(self).next_id()
                },
            },
    {
        match request.validate() {
            Err(reason) => {
                return Err(AppError::BadRequest(reason));
            },
            Ok(_) => {},
        }
        let id = self.next_id;
        self.next_id = if id == u64::MAX {
            0
        } else {
            id + 1
        };
        Ok(User { id, username: request.username, email: request.email })
    }

    /// The user with the identifier `id`. Zero is no identifier, and above
    /// `LAST_USER_ID` no user is found.
    pub fn get_user(&self, id: u64) -> (found: Result<User, AppError>)
        ensures
            match found {
                Ok(user) => 0 < id <= LAST_USER_ID && is_user(user, id),
                Err(AppError::BadRequest(reason)) => id == 0 && reason@ == "Invalid user ID"@,
                Err(AppError::NotFound(reason)) => id > LAST_USER_ID && reason@ == "User "@
                    + decimal(id as nat) + " not found"@,
                Err(_) => false,
            },
    {
        if id == 0 {
            return Err(AppError::BadRequest("Invalid user ID".to_owned()));
        }
        if id > LAST_USER_ID {
            let reason = "User ".to_owned().concat(decimal_string(id).as_str()).concat(
                " not found",
            );
            return Err(AppError::NotFound(reason));
        }
        Ok(user_with_id(id))
    }

    /// The first users, as many as `limit` asks for: ten where it asks for
    /// nothing, and never more than `MAX_LISTED_USERS`.
    pub fn list_users(&self, limit: Option<usize>) -> (users: Result<Vec<User>, AppError>)
        ensures
            users matches Ok(list) && list@.len() == listed(limit) && forall|i: int|
                0 <= i < list@.len() ==> is_user(#[trigger] list@[i], (i + 1) as u64),
    {
        let asked = match limit {
            Some(n) => n,
            None => DEFAULT_LISTED_USERS,
        };
        let count = if asked <= MAX_LISTED_USERS {
            asked
        } else {
            MAX_LISTED_USERS
        };
        let mut list: Vec<User> = Vec::new();
        let mut i: usize = 0;
        while i < count
            invariant
                i <= count <= MAX_LISTED_USERS,
                list@.len() == i,
                forall|j: int| 0 <= j < i ==> is_user(#[trigger] list@[j], (j + 1) as u64),
            decreases count - i,
        {
            list.push(user_with_id((i + 1) as u64));
            i += 1;
        }
        Ok(list)
    }
}

impl Default for UserService {
    fn default() -> (service: Self)
        ensures
            service.next_id() == 1,
    {
        UserService::new()
    }
}

} // verus!
