//! Authentication: what a token claims, what is asked of a login and of a
//! registration, and the rules by which the service lets users in.
//!
//! Tokens are signed and read elsewhere. This module says what goes into a
//! token and what to make of what came out of one.

use vstd::prelude::*;
use vstd::string::*;
use crate::clock::unix_timestamp;
use crate::error::AppError;
use crate::text::{decimal, decimal_string, parse_decimal, parsed_decimal, strip_prefix};
use crate::users::{byte_len, name_and_email_error, AnonymousUserIdentifier, UserIdentity, VerifiedUser};

verus! {

/// How long the token of a verified user is good for, in seconds: a day.
pub const VERIFIED_TOKEN_SECS: i64 = 86400;

/// How long the token of an anonymous user is good for, in seconds: half a day.
pub const ANONYMOUS_TOKEN_SECS: i64 = 43200;

/// The second at which a token runs out that is issued at `now` and good
/// for `lifetime` seconds. It never lies beyond the last second there is.
pub open spec fn expiry(now: i64, lifetime: i64) -> i64 {
    if now + lifetime > i64::MAX {
        i64::MAX
    } else if now + lifetime < i64::MIN {
        i64::MIN
    } else {
        (now + lifetime) as i64
    }
}

fn expires(now: i64, lifetime: i64) -> (end: i64)
    ensures
        end == expiry(now, lifetime),
{
    match now.checked_add(lifetime) {
        Some(end) => end,
        None => if lifetime > 0 {
            i64::MAX
        } else {
            i64::MIN
        },
    }
}

/// What the token of a verified user claims.
#[derive(Debug, Clone, PartialEq, Eq)]
pub struct VerifiedUserClaims {
    /// The identifier of the user, in base ten.
    pub sub: String,
    pub username: String,
    pub email: String,
    /// The second at which the token runs out.
    pub exp: usize,
    /// The second at which the token was issued.
    pub iat: usize,
}

impl VerifiedUserClaims {
    /// Whether the claims are those of `user`, issued at `now`.
    pub open spec fn is_for(self, user: VerifiedUser, now: i64) -> bool {
        &&& self.sub@ == decimal(user.id as nat)
        &&& self.username@ == user.username@
        &&& self.email@ == user.email@
        &&& self.iat == now as usize
        &&& self.exp == expiry(now, VERIFIED_TOKEN_SECS) as usize
    }

    /// The claims of `user`, issued at `now`, in seconds since 1970.
    pub fn issued_at(user: &VerifiedUser, now: i64) -> (claims: Self)
        ensures
            claims.is_for(*user, now),
    {
        VerifiedUserClaims {
            sub: decimal_string(user.id),
            username: user.username.clone(),
            email: user.email.clone(),
            iat: #[verifier::truncate]
            (now as usize),
            exp: #[verifier::truncate]
            (expires(now, VERIFIED_TOKEN_SECS) as usize),
        }
    }

    /// The claims of `user`, issued at the time that the clock tells.
    pub fn new(user: &VerifiedUser) -> (claims: Self)
        ensures
            exists|now: i64| #[trigger] claims.is_for(*user, now),
    {
        let now = unix_timestamp();
        VerifiedUserClaims::issued_at(user, now)
    }
}

/// What the token of an anonymous user claims.
#[derive(Debug, Clone, PartialEq, Eq)]
pub struct AnonymousUserClaims {
    pub hospital_code: String,
    pub user_id: String,
    pub user_start_date: chrono::NaiveDate,
    pub department_code: String,
    /// The second at which the token runs out.
    pub exp: usize,
    /// The second at which the token was issued.
    pub iat: usize,
}

impl AnonymousUserClaims {
    /// Whether the claims name the user that `identifier` names.
    pub open spec fn names(self, identifier: AnonymousUserIdentifier) -> bool {
        &&& self.hospital_code@ == identifier.hospital_code@
        &&& self.user_id@ == identifier.user_id@
        &&& self.user_start_date == identifier.user_start_date
        &&& self.department_code@ == identifier.department_code@
    }

    /// Whether the claims are those of the user that `identifier` names,
    /// issued at `now`.
    pub open spec fn is_for(self, identifier: AnonymousUserIdentifier, now: i64) -> bool {
        &&& self.names(identifier)
        &&& self.iat == now as usize
        &&& self.exp == expiry(now, ANONYMOUS_TOKEN_SECS) as usize
    }

    /// The claims of the user that `identifier` names, issued at `now`, in
    /// seconds since 1970.
    pub fn issued_at(identifier: &AnonymousUserIdentifier, now: i64) -> (claims: Self)
        ensures
            claims.is_for(*identifier, now),
    {
        AnonymousUserClaims {
            hospital_code: identifier.hospital_code.clone(),
            user_id: identifier.user_id.clone(),
            user_start_date: identifier.user_start_date.clone(),
            department_code: identifier.department_code.clone(),
            iat: #[verifier::truncate]
            (now as usize),
            exp: #[verifier::truncate]
            (expires(now, ANONYMOUS_TOKEN_SECS) as usize),
        }
    }

    /// The claims of the user that `identifier` names, issued at the time
    /// that the clock tells.
    pub fn new(identifier: &AnonymousUserIdentifier) -> (claims: Self)
        ensures
            exists|now: i64| #[trigger] claims.is_for(*identifier, now),
    {
        let now = unix_timestamp();
        AnonymousUserClaims::issued_at(identifier, now)
    }

    /// The identifier of the user that the claims name.
    pub fn to_identifier(&self) -> (identifier: AnonymousUserIdentifier)
        ensures
            self.names(identifier),
    {
        AnonymousUserIdentifier {
            hospital_code: self.hospital_code.clone(),
            user_id: self.user_id.clone(),
            user_start_date: self.user_start_date.clone(),
            department_code: self.department_code.clone(),
        }
    }
}

/// What a token claims: a verified user, or an anonymous one.
#[derive(Debug, Clone, PartialEq, Eq)]
pub enum TokenClaims {
    Verified(VerifiedUserClaims),
    Anonymous(AnonymousUserClaims),
}

/// The identifier that the subject of a token writes: the number that it
/// writes in base ten, and zero where it writes none.
pub open spec fn subject_id(sub: Seq<char>) -> u64 {
    match parsed_decimal(sub, u64::MAX as nat) {
        Some(id) => id as u64,
        None => 0,
    }
}

impl TokenClaims {
    /// The second at which the token runs out.
    pub fn exp(&self) -> (end: usize)
        ensures
            end == match *self {
                TokenClaims::Verified(claims) => claims.exp,
                TokenClaims::Anonymous(claims) => claims.exp,
            },
    {
        match self {
            TokenClaims::Verified(claims) => claims.exp,
            TokenClaims::Anonymous(claims) => claims.exp,
        }
    }

    /// Whether `identity` is the user that the token speaks of: the verified
    /// user whose identifier the subject writes, or the anonymous user that
    /// the claims name.
    pub open spec fn speaks_of(self, identity: UserIdentity) -> bool {
        match self {
            TokenClaims::Verified(claims) => {
                &&& identity matches UserIdentity::Verified(user)
                &&& user.id == subject_id(claims.sub@)
                &&& user.username@ == claims.username@
                &&& user.email@ == claims.email@
            },
            TokenClaims::Anonymous(claims) => {
                &&& identity matches UserIdentity::Anonymous(identifier)
                &&& claims.names(identifier)
            },
        }
    }

    /// The user that the token speaks of.
    pub fn to_user_identity(&self) -> (identity: UserIdentity)
        ensures
            self.speaks_of(identity),
    {
        match self {
            TokenClaims::Verified(claims) => {
                let id = match parse_decimal(claims.sub.as_str(), u64::MAX) {
                    Some(id) => id,
                    None => 0,
                };
                UserIdentity::Verified(
                    VerifiedUser {
                        id,
                        username: claims.username.clone(),
                        email: claims.email.clone(),
                    },
                )
            },
            TokenClaims::Anonymous(claims) => UserIdentity::Anonymous(claims.to_identifier()),
        }
    }
}

/// A token and the scheme under which it is presented.
#[derive(Debug, Clone, PartialEq, Eq)]
pub struct AuthToken {
    pub token: String,
    pub token_type: String,
}

impl AuthToken {
    /// A bearer token.
    pub fn bearer(token: String) -> (auth: Self)
        ensures
            auth.token == token,
            auth.token_type@ == "Bearer"@,
    {
        AuthToken { token, token_type: "Bearer".to_owned() }
    }
}

/// What a user logs in with.
#[derive(Debug, Clone, PartialEq, Eq)]
pub struct LoginRequest {
    pub username: String,
    pub password: String,
}

impl LoginRequest {
    /// What is wrong with the login, if anything: the first of a name and a
    /// password that is empty.
    pub open spec fn validation_error(self) -> Option<Seq<char>> {
        if self.username@.len() == 0 {
            Some("Username cannot be empty"@)
        } else if self.password@.len() == 0 {
            Some("Password cannot be empty"@)
        } else {
            None
        }
    }

    /// Checks that neither the name nor the password is empty.
    pub fn validate(&self) -> (verdict: Result<(), String>)
        ensures
            match verdict {
                Ok(_) => self.validation_error() is None,
                Err(reason) => self.validation_error() == Some(reason@),
            },
    {
        if self.username.as_str().is_empty() {
            return Err("Username cannot be empty".to_owned());
        }
        if self.password.as_str().is_empty() {
            return Err("Password cannot be empty".to_owned());
        }
        Ok(())
    }
}

/// What a user registers with.
#[derive(Debug, Clone, PartialEq, Eq)]
pub struct RegisterRequest {
    pub username: String,
    pub email: String,
    pub password: String,
}

impl RegisterRequest {
    /// What is wrong with the registration, if anything: what is wrong with
    /// the name and the address, or else a password of fewer than eight bytes.
    pub open spec fn validation_error(self) -> Option<Seq<char>> {
        match name_and_email_error(self.username@, self.email@) {
            Some(reason) => Some(reason),
            None => if byte_len(self.password@) < 8 {
                Some("Password must be at least 8 characters"@)
            } else {
                None
            },
        }
    }

    /// Checks the name, the address and the password.
    pub fn validate(&self) -> (verdict: Result<(), String>)
        ensures
            match verdict {
                Ok(_) => self.validation_error() is None,
                Err(reason) => self.validation_error() == Some(reason@),
            },
    {
        if self.username.as_str().is_empty() {
            return Err("Username cannot be empty".to_owned());
        }
        if self.username.as_str().as_bytes().len() < 3 {
            return Err("Username must be at least 3 characters".to_owned());
        }
        if !crate::text::contains_char(self.email.as_str(), '@') {
            return Err("Invalid email format".to_owned());
        }
        if self.password.as_str().as_bytes().len() < 8 {
            return Err("Password must be at least 8 characters".to_owned());
        }
        Ok(())
    }
}

/// The service that registers users and lets them in. It numbers the users
/// it registers, from one upward.
#[derive(Debug)]
pub struct AuthService {
    jwt_secret: String,
    user_id_counter: u64,
}

/// The user that a login under `username` is taken for.
pub open spec fn is_login_user(user: VerifiedUser, username: Seq<char>) -> bool {
    &&& user.id == 1
    &&& user.username@ == username
    &&& user.email@ == username + "@example.com"@
}

impl AuthService {
    /// The secret with which tokens are signed.
    pub closed spec fn spec_secret(&self) -> Seq<char> {
        self.jwt_secret@
    }

    /// The identifier that the next registered user gets.
    pub closed spec fn next_id(&self) -> u64 {
        self.user_id_counter
    }

    /// A service that signs with `jwt_secret` and has registered no user yet.
    pub fn new(jwt_secret: String) -> (service: Self)
        ensures
            service.spec_secret() == jwt_secret@,
            service.next_id() == 1,
    {
        AuthService { jwt_secret, user_id_counter: 1 }
    }

    /// The secret with which tokens are signed.
    pub fn secret(&self) -> (secret: &str)
        ensures
            secret@ == self.spec_secret(),
    {
        self.jwt_secret.as_str()
    }

    /// Registers a user. A registration that is not in order is turned down
    /// as a bad request, and no identifier is used up.
    pub fn register(&mut self, request: RegisterRequest) -> (registered: Result<
        VerifiedUser,
        AppError,
    >)
        ensures
            final(self).spec_secret() == old(self).spec_secret(),
            match registered {
                Ok(user) => {
                    &&& request.validation_error() is None
                    &&& user.id == old(self).next_id()
                    &&& user.username == request.username
                    &&& user.email == request.email
                    &&& final(self).next_id() == if old(self).next_id() == u64::MAX {
                        0
                    } else {
                        (old(self).next_id() + 1) as u64
                    }
                },
                Err(error) => {
                    &&& error matches AppError::BadRequest(reason)
                    &&& request.validation_error() == Some(reason@)
                    &&& final(self).next_id() == old(self).next_id()
                },
            },
    {
        match request.validate() {
            Err(reason) => {
                return Err(AppError::BadRequest(reason));
            },
            Ok(_) => {},
        }
        let id = self.user_id_counter;
        self.user_id_counter = if id == u64::MAX {
            0
        } else {
            id + 1
        };
        Ok(VerifiedUser { id, username: request.username, email: request.email })
    }

    /// Checks a login and says whom it lets in. A login that is not in
    /// order is turned down as a bad request.
    pub fn login(&self, request: LoginRequest) -> (admitted: Result<VerifiedUser, AppError>)
        ensures
            match admitted {
                Ok(user) => request.validation_error() is None && is_login_user(
                    user,
                    request.username@,
                ),
                Err(error) => error matches AppError::BadRequest(reason)
                    && request.validation_error() == Some(reason@),
            },
    {
        match request.validate() {
            Err(reason) => {
                return Err(AppError::BadRequest(reason));
            },
            Ok(_) => {},
        }
        let email = request.username.clone().concat("@example.com");
        Ok(VerifiedUser { id: 1, username: request.username, email })
    }

    /// What the token of `user` has to claim when it is issued at `now`.
    pub fn verified_user_claims(&self, user: &VerifiedUser, now: i64) -> (claims: TokenClaims)
        ensures
            claims matches TokenClaims::Verified(inner) && inner.is_for(*user, now),
    {
        TokenClaims::Verified(VerifiedUserClaims::issued_at(user, now))
    }

    /// What the token of the anonymous user `identifier` has to claim when
    /// it is issued at `now`. An identifier that is not in order is turned
    /// down as a bad request.
    pub fn anonymous_user_claims(&self, identifier: &AnonymousUserIdentifier, now: i64) -> (claims:
        Result<TokenClaims, AppError>)
        ensures
            match claims {
                Ok(claims) => {
                    &&& identifier.validation_error() is None
                    &&& claims matches TokenClaims::Anonymous(inner)
                    &&& inner.is_for(*identifier, now)
                },
                Err(error) => error matches AppError::BadRequest(reason)
                    && identifier.validation_error() == Some(reason@),
            },
    {
        match identifier.validate() {
            Err(reason) => {
                return Err(AppError::BadRequest(reason));
            },
            Ok(_) => {},
        }
        Ok(TokenClaims::Anonymous(AnonymousUserClaims::issued_at(identifier, now)))
    }

    /// What to make of the signing of a token: the token, or, where the
    /// signing failed with `complaint`, an internal error that says so.
    pub fn generated_token(signed: Result<String, String>) -> (token: Result<String, AppError>)
        ensures
            match signed {
                Ok(text) => token == Ok::<String, AppError>(text),
                Err(complaint) => token matches Err(AppError::InternalError(reason)) && reason@
                    == "Failed to generate token: "@ + complaint@,
            },
    {
        match signed {
            Ok(text) => Ok(text),
            Err(complaint) => Err(
                AppError::InternalError(
                    "Failed to generate token: ".to_owned().concat(complaint.as_str()),
                ),
            ),
        }
    }

    /// What to make of the reading of a token: the user that its claims
    /// speak of, or, where the reading failed with `complaint`, the refusal
    /// that says so.
    pub fn verify_token(decoded: Result<TokenClaims, String>) -> (identity: Result<
        UserIdentity,
        AppError,
    >)
        ensures
            match decoded {
                Ok(claims) => identity matches Ok(user) && claims.speaks_of(user),
                Err(complaint) => identity matches Err(AppError::Unauthorized(reason)) && reason@
                    == "Invalid token: "@ + complaint@,
            },
    {
        match decoded {
            Ok(claims) => Ok(claims.to_user_identity()),
            Err(complaint) => Err(
                AppError::Unauthorized("Invalid token: ".to_owned().concat(complaint.as_str())),
            ),
        }
    }
}

/// The token in an `Authorization` header: what follows the word `Bearer`
/// and one blank. A header that begins otherwise is refused.
pub fn bearer_token(header: &str) -> (token: Result<&str, AppError>)
    ensures
        match token {
            Ok(token) => "Bearer "@.is_prefix_of(header@) && token@ == header@.skip(7),
            Err(error) => {
                &&& !"Bearer "@.is_prefix_of(header@)
                &&& error matches AppError::Unauthorized(reason)
                &&& reason@ == "Invalid authorization header"@
            },
        },
{
    proof {
        reveal_strlit("Bearer ");
    }
    match strip_prefix(header, "Bearer ") {
        Some(token) => Ok(token),
        None => Err(AppError::Unauthorized("Invalid authorization header".to_owned())),
    }
}

/// What a client is told where it is not let in because of `error`.
pub fn authentication_failure(error: &AppError) -> (message: String)
    ensures
        message@ == "Authentication failed: "@ + (error.label() + error.detail()),
{
    "Authentication failed: ".to_owned().concat(error.to_string().as_str())
}

} // verus!
