//! Registration: checking a sign-up request, storing the account with a
//! hashed password, and answering with an access token.
use vstd::prelude::*;
use vstd::utf8::encode_utf8;
use crate::auth::jwt::{create_access_token, issued_token};
use crate::clock::LATEST_SECOND;
use crate::error::AppError;
use crate::ids::{new_id, uuid_nibble};
use crate::models::user::{shown, User, UserResponse};
use crate::text::{contains_char, lowercase, to_lowercase, trim, trimmed};

verus! {

/// The body of a sign-up request.
#[derive(Debug, Clone, PartialEq, Eq)]
pub struct RegisterRequest {
    pub name: String,
    pub email: String,
    pub password: String,
}

/// The answer to a successful sign-up: an access token and the new account.
#[derive(Debug, Clone, PartialEq, Eq)]
pub struct AuthResponse {
    pub token: String,
    pub user: UserResponse,
}

/// A checked sign-up: the email as it is looked up and stored (lower case)
/// and the name as it is stored (trimmed).
#[derive(Debug, Clone, PartialEq, Eq)]
pub struct NewAccount {
    pub email: String,
    pub name: String,
}

/// The row that registration inserts.
#[derive(Debug, Clone, PartialEq, Eq)]
pub struct UserInsert {
    pub id: u128,
    pub email: String,
    pub name: String,
    pub password_hash: String,
}

/// The error type of `bcrypt`, carried through unopened.
#[verifier::external_type_specification]
#[verifier::external_body]
pub struct ExBcryptError(bcrypt::BcryptError);

/// Whether `bcrypt::verify(password, hash)` returns `Ok(true)`: the hash
/// is a bcrypt hash of the password (of its first 72 bytes in UTF-8).
pub uninterp spec fn bcrypt_verifies(password: Seq<char>, hash: Seq<char>) -> bool;

/// Hashes a password with `bcrypt::hash` at `bcrypt::DEFAULT_COST` (12).
/// Trusted: a hash that comes back is the 60-character modular-crypt text
/// `$2b$12$` followed by 22 characters of salt and 31 of digest (the
/// crate's `HashParts::format`), and `bcrypt::verify` accepts the password
/// against it (`_verify` re-hashes the password with the salt and cost read
/// from the hash, truncating as `hash` does, and compares). The salt is
/// random, so nothing more is said of it. The call fails only when the
/// system's random source does.
#[verifier::external_body]
fn bcrypt_hash(password: &str) -> (r: Result<String, bcrypt::BcryptError>)
    ensures
        r matches Ok(h) ==> h@.len() == 60 && h@.take(7) == "$2b$12$"@,
        r matches Ok(h) ==> bcrypt_verifies(password@, h@),
{
    bcrypt::hash(password, bcrypt::DEFAULT_COST)
}

/// Why a sign-up request is refused, if it is: the name must not be blank,
/// the email must not be blank and must hold an `@` (both after trimming),
/// and the password must be at least 8 bytes long (in UTF-8).
pub open spec fn registration_problem(body: RegisterRequest) -> Option<Seq<char>> {
    if trimmed(body.name@).len() == 0 {
        Some("Name cannot be empty"@)
    } else if trimmed(body.email@).len() == 0 || !trimmed(body.email@).contains('@') {
        Some("Provide a valid email address"@)
    } else if (encode_utf8(body.password@).len() as usize) < 8 {
        Some("password must be at least 8 character long."@)
    } else {
        None
    }
}

/// Checks a sign-up request: refused with `BadRequest` as
/// `registration_problem` says, else the lower-cased email and the trimmed
/// name.
pub fn validate_registration(body: &RegisterRequest) -> (r: Result<NewAccount, AppError>)
    ensures
        match registration_problem(*body) {
            Some(problem) => r matches Err(AppError::BadRequest(m)) && m@ == problem,
            None => r matches Ok(a) && a.email@ == lowercase(body.email@) && a.name@ == trimmed(
                body.name@,
            ),
        },
        trimmed(body.name@).len() > 0 && trimmed(body.email@).len() > 0 && trimmed(
            body.email@,
        ).contains('@') && 8 <= encode_utf8(body.password@).len() <= usize::MAX ==> r is Ok,
        r is Ok ==> trimmed(body.name@).len() > 0 && trimmed(body.email@).len() > 0 && trimmed(
            body.email@,
        ).contains('@') && (encode_utf8(body.password@).len() as usize) >= 8,
{
    let name = trim(body.name.as_str());
    if name.unicode_len() == 0 {
        return Err(AppError::BadRequest(String::from_str("Name cannot be empty")));
    }
    let email = trim(body.email.as_str());
    if email.unicode_len() == 0 || !contains_char(email, '@') {
        return Err(AppError::BadRequest(String::from_str("Provide a valid email address")));
    }
    if body.password.as_str().len() < 8 {
        return Err(
            AppError::BadRequest(String::from_str("password must be at least 8 character long.")),
        );
    }
    Ok(NewAccount { email: to_lowercase(body.email.as_str()), name: String::from_str(name) })
}

/// Whether the email is free, given the identifier of the account that
/// already holds it, if any: taken is a `Conflict`.
pub fn check_email_free(existing: Option<u128>) -> (r: Result<(), AppError>)
    ensures
        existing is None ==> r is Ok,
        existing is Some ==> (r matches Err(AppError::Conflict(m)) && m@
            == "An account with this email address already exists"@),
{
    match existing {
        Some(_) => Err(
            AppError::Conflict(String::from_str("An account with this email address already exists")),
        ),
        None => Ok(()),
    }
}

/// The row to insert for a checked account, given its new identifier and
/// the outcome of hashing its password: a failed hash is `Internal`.
pub fn account_insert(account: NewAccount, id: u128, hashed: Result<String, bcrypt::BcryptError>) -> (r:
    Result<UserInsert, AppError>)
    ensures
        match hashed {
            Ok(h) => r matches Ok(row) && row.id == id && row.email == account.email && row.name
                == account.name && row.password_hash == h,
            Err(_) => r == Err::<UserInsert, AppError>(AppError::Internal),
        },
{
    match hashed {
        Ok(password_hash) => Ok(
            UserInsert { id, email: account.email, name: account.name, password_hash },
        ),
        Err(_) => Err(AppError::Internal),
    }
}

/// The row to insert for a checked account: a fresh identifier, the
/// account's email and name, and a bcrypt hash that `bcrypt::verify`
/// accepts for the password. A failed hash is `Internal`.
pub fn prepare_account(account: NewAccount, password: &str) -> (r: Result<UserInsert, AppError>)
    ensures
        r matches Ok(row) ==> (row.email == account.email && row.name == account.name
            && row.password_hash@.len() == 60 && row.password_hash@.take(7) == "$2b$12$"@
            && bcrypt_verifies(password@, row.password_hash@)
            && uuid_nibble(row.id, 12) == 4 && 8 <= uuid_nibble(row.id, 16) <= 11),
        r is Err ==> r == Err::<UserInsert, AppError>(AppError::Internal),
{
    let hashed = bcrypt_hash(password);
    let id = new_id();
    account_insert(account, id, hashed)
}

/// The answer to a sign-up once the account is stored, given the outcome
/// of issuing its token: a failed token is `Internal`.
pub fn auth_response(user: User, token: Result<String, jsonwebtoken::errors::Error>) -> (r: Result<
    AuthResponse,
    AppError,
>)
    ensures
        match token {
            Ok(t) => r matches Ok(resp) && resp.token == t && resp.user == shown(user),
            Err(_) => r == Err::<AuthResponse, AppError>(AppError::Internal),
        },
{
    match token {
        Ok(token) => Ok(AuthResponse { token, user: UserResponse::from(user) }),
        Err(_) => Err(AppError::Internal),
    }
}

/// The answer to a sign-up once the account is stored: an access token for
/// the account, signed with `secret`, and what may be shown of the account.
pub fn complete_registration(user: User, secret: &str) -> (r: Result<AuthResponse, AppError>)
    ensures
        r matches Ok(resp) ==> (resp.user == shown(user) && exists|iat: i64|
            0 <= iat <= LATEST_SECOND && #[trigger] issued_token(
                resp.token@,
                user.id,
                user.email@,
                secret@,
                iat,
            )),
        r is Ok,
{
    let token = create_access_token(user.id, user.email.as_str(), secret);
    auth_response(user, token)
}

/// A sign-up is refused exactly when the name is blank, the email is blank
/// or lacks an `@`, or the password is shorter than 8 bytes in UTF-8:
/// nothing else about the password (spaces, characters) matters.
pub proof fn registration_refused_only_for_the_three_checks(body: RegisterRequest)
    requires
        encode_utf8(body.password@).len() <= usize::MAX,
    ensures
        registration_problem(body) is None <==> (trimmed(body.name@).len() > 0 && trimmed(
            body.email@,
        ).len() > 0 && trimmed(body.email@).contains('@') && encode_utf8(body.password@).len() >= 8),
{
}

} // verus!
