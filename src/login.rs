//! The sign-in flow: verify the assertion, resolve the local user, issue a
//! session token for it.
use vstd::prelude::*;
use vstd::string::*;
use crate::decimal::{decimal, decimal_string};
use crate::dto::ApiError;
use crate::jwt::{hs256_token_of, JwtService};
use crate::telegram::{ITelegramService, TelegramAuthData, TelegramService};
use crate::users::{CreateUserDto, IUserRepository};

verus! {

/// What a successful sign-in hands back.
pub struct AuthResponse {
    pub token: String,
    pub user_id: i64,
    /// Expiry of the token, as a Unix timestamp.
    pub expires_at: i64,
}

fn text_or_empty(v: &Option<String>) -> (r: String)
    ensures
        v is Some ==> r@ == v->Some_0@,
        v is None ==> r@.len() == 0,
{
    match v {
        Some(t) => t.clone(),
        None => String::new(),
    }
}

/// The user record a verified assertion asks for.
pub fn create_user_dto(a: &TelegramAuthData) -> (r: CreateUserDto)
    ensures
        r.telegram_id == a.id,
        r.first_name@ == a.first_name@,
        a.username is Some ==> r.username@ == a.username->Some_0@,
        a.last_name is Some ==> r.last_name@ == a.last_name->Some_0@,
        a.username is None ==> r.username@.len() == 0,
        a.last_name is None ==> r.last_name@.len() == 0,
        r.email is None,
        r.password is None,
{
    CreateUserDto {
        username: text_or_empty(&a.username),
        email: None,
        first_name: a.first_name.clone(),
        last_name: text_or_empty(&a.last_name),
        password: None,
        telegram_id: a.id,
    }
}

/// Issues the session for the user a sign-in resolved to, or reports why none
/// could be had: `user` is the local id found or created, or the repository's
/// failure message.
pub fn finish_sign_in(issuer: &JwtService, a: &TelegramAuthData, user: Result<i64, String>, now: i64) -> (r:
    Result<AuthResponse, ApiError>)
    requires
        i64::MIN <= now + issuer.ttl <= i64::MAX,
    ensures
        user is Err ==> r is Err && r->Err_0 == ApiError::Interal(user->Err_0),
        user is Ok ==> r is Ok && r->Ok_0.user_id == user->Ok_0 && r->Ok_0.expires_at == now
            + issuer.ttl && r->Ok_0.token@ == hs256_token_of(
            issuer.secret@,
            decimal(user->Ok_0 as int),
            a.id,
            now,
            r->Ok_0.expires_at,
        ),
{
    match user {
        Err(msg) => Err(ApiError::Interal(msg)),
        Ok(user_id) => {
            let subject = decimal_string(user_id);
            let (token, expires_at) = issuer.generate_token(subject.as_str(), a.id, now);
            Ok(AuthResponse { token, user_id, expires_at })
        },
    }
}

/// The session a successful sign-in of user `user_id` owes.
pub open spec fn session_for(issuer: JwtService, a: TelegramAuthData, user_id: i64, now: i64, r: Result<AuthResponse, ApiError>) -> bool {
    r is Ok && r->Ok_0.user_id == user_id && r->Ok_0.expires_at == now + issuer.ttl
        && r->Ok_0.token@ == hs256_token_of(issuer.secret@, decimal(user_id as int), a.id, now, r->Ok_0.expires_at)
}

/// Signs in with assertion `a` at time `now`. A rejected assertion gives the
/// matching error and changes nothing. An accepted one finds the user stored
/// for the provider id, or creates it when there is none, and returns a token
/// whose subject is the local id in decimal.
pub fn sign_in<R: IUserRepository>(
    verifier: &TelegramService,
    issuer: &JwtService,
    users: &mut R,
    a: &TelegramAuthData,
    now: i64,
) -> (r: Result<AuthResponse, ApiError>)
    requires
        i64::MIN <= now + issuer.ttl <= i64::MAX,
    ensures
        verifier.auth_outcome(*a, now) is Err ==> r is Err && ApiError::is_verification_error(
            verifier.auth_outcome(*a, now)->Err_0,
            r->Err_0,
        ) && *final(users) == *old(users),
        verifier.auth_outcome(*a, now) is Ok && old(users).lookup(a.id) is Some ==> session_for(
            *issuer,
            *a,
            old(users).lookup(a.id)->Some_0,
            now,
            r,
        ) && *final(users) == *old(users),
        verifier.auth_outcome(*a, now) is Ok && old(users).lookup(a.id) is None ==> (r is Err
            && r->Err_0 is Interal) || (session_for(*issuer, *a, r->Ok_0.user_id, now, r) && final(users).lookup(a.id)
            == Some(r->Ok_0.user_id)),
{
    match verifier.verify_auth(a, now) {
        Err(e) => Err(ApiError::from_verification(e)),
        Ok(()) => {
            match users.find_user(a.id) {
                Some(user_id) => finish_sign_in(issuer, a, Ok(user_id), now),
                None => {
                    let dto = create_user_dto(a);
                    let created = users.create_user(&dto);
                    finish_sign_in(issuer, a, created, now)
                },
            }
        },
    }
}

} // verus!
