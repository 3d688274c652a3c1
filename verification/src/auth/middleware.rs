//! Who is calling: the user named by the bearer token of a request.
use vstd::prelude::*;
use crate::auth::jwt::{hs256_claims, issued_token, signed_with, verify_token, Claims, TokenError};
use crate::error::AppError;
use crate::ids::{parse_uuid, uuid_parsed};
use crate::text::strip_prefix;

verus! {

/// The authenticated caller of a request.
#[derive(Debug, Clone, PartialEq, Eq)]
pub struct AuthUser {
    pub user_id: u128,
    pub email: String,
}

/// The token of an `Authorization` header value of the form `Bearer <token>`.
pub open spec fn bearer_part(header: Seq<char>) -> Option<Seq<char>> {
    if "Bearer "@.is_prefix_of(header) {
        Some(header.skip("Bearer "@.len() as int))
    } else {
        None
    }
}

/// The caller that an `Authorization` header value names when its bearer
/// token carries a valid signature for `secret`: the token's `sub` claim
/// read as an identifier, and its `email` claim.
pub open spec fn named_caller(header: Seq<char>, secret: Seq<char>, user: AuthUser) -> bool {
    match bearer_part(header) {
        Some(token) => signed_with(token, secret) && match hs256_claims(token, secret) {
            Some((sub, email, _exp, _iat)) => uuid_parsed(sub) == Some(user.user_id) && user.email@
                == email,
            None => false,
        },
        None => false,
    }
}

/// The token carried by an `Authorization` header value, if the value is
/// `Bearer ` followed by it.
pub fn bearer_token(header: Option<&str>) -> (r: Option<&str>)
    ensures
        r matches Some(t) ==> header matches Some(h) && bearer_part(h@) == Some(t@),
        r is None ==> header is None || bearer_part(header->0@) is None,
{
    match header {
        Some(h) => strip_prefix(h, "Bearer "),
        None => None,
    }
}

/// The caller named by verified claims: their `sub` claim read as an
/// identifier, and their email. Any failure is `Unauthorized`.
pub fn caller_from_claims(verified: Result<Claims, TokenError>) -> (r: Result<AuthUser, AppError>)
    ensures
        match verified {
            Ok(c) => match uuid_parsed(c.sub@) {
                Some(id) => r matches Ok(u) && u.user_id == id && u.email == c.email,
                None => r == Err::<AuthUser, AppError>(AppError::Unauthorized),
            },
            Err(_) => r == Err::<AuthUser, AppError>(AppError::Unauthorized),
        },
{
    match verified {
        Ok(claims) => match parse_uuid(claims.sub.as_str()) {
            Some(user_id) => Ok(AuthUser { user_id, email: claims.email }),
            None => Err(AppError::Unauthorized),
        },
        Err(_) => Err(AppError::Unauthorized),
    }
}

/// The caller of a request, from the value of its `Authorization` header
/// (`None` when the header is absent or not visible ASCII) and the server's
/// signing secret. Every refusal is `Unauthorized`.
pub fn authenticate(header: Option<&str>, secret: &str) -> (r: Result<AuthUser, AppError>)
    ensures
        r matches Ok(u) ==> header matches Some(h) && named_caller(h@, secret@, u),
        r is Err ==> r == Err::<AuthUser, AppError>(AppError::Unauthorized),
        header is None ==> r is Err,
        header matches Some(h) && bearer_part(h@) is None ==> r is Err,
{
    match bearer_token(header) {
        Some(token) => caller_from_claims(verify_token(token, secret)),
        None => Err(AppError::Unauthorized),
    }
}

/// A bearer token without a valid signature for the secret names no caller,
/// so `authenticate` refuses it.
pub proof fn unsigned_tokens_name_nobody(token: Seq<char>, secret: Seq<char>, user: AuthUser)
    requires
        !signed_with(token, secret),
    ensures
        !named_caller("Bearer "@ + token, secret, user),
{
    reveal_strlit("Bearer ");
    assert("Bearer "@.is_prefix_of("Bearer "@ + token));
    assert(("Bearer "@ + token).skip(7) =~= token);
}

/// A token issued for a user, presented as `Bearer <token>` with the secret
/// it was signed with, names exactly that user (identifier and email)
/// whenever it is accepted.
pub proof fn issued_token_names_its_user(
    token: Seq<char>,
    user_id: u128,
    email: Seq<char>,
    secret: Seq<char>,
    iat: i64,
    user: AuthUser,
)
    requires
        issued_token(token, user_id, email, secret, iat),
        named_caller("Bearer "@ + token, secret, user),
    ensures
        user.user_id == user_id,
        user.email@ == email,
{
    reveal_strlit("Bearer ");
    assert("Bearer "@.is_prefix_of("Bearer "@ + token));
    assert(("Bearer "@ + token).skip(7) =~= token);
}

} // verus!
