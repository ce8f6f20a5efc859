//! The decision cores of the account endpoints.
//!
//! The caller performs the store lookups and hands their results in as
//! plain values; these functions decide what the endpoint returns.
//! Login deliberately reports one error for "no such phone" and "wrong
//! password", so the response does not reveal which check failed.

use vstd::prelude::*;

use crate::config::Config;
use crate::errors::AuthError;
use crate::models::LoginResponse;
use crate::models::NewUser;
use crate::models::User;
use crate::password::hash_password;
use crate::password::password_matches;
use crate::password::verify_password;
use crate::roles::spec_role_tag;
use crate::token::SESSION_TTL_SECS;
use crate::token::decoded_claims_of;
use crate::token::issue_session_token;
use crate::token::spec_session_token;
use crate::identity::uuid_str_of;

verus! {

/// Finishes a registration once the password digest is derived: refuses a
/// phone that is already registered, and otherwise builds the record to
/// insert, with the digest in place of the submitted plaintext.
pub fn complete_registration(payload: &NewUser, phone_exists: bool, digest: String) -> (r: Result<
    NewUser,
    AuthError,
>)
    ensures
        phone_exists ==> (r matches Err(e) && e == AuthError::Conflict),
        !phone_exists ==> (r matches Ok(record) && record.name@ == payload.name@ && record.phone@
            == payload.phone@ && record.role@ == payload.role@ && record.password_hash@
            == digest@),
{
    if phone_exists {
        Err(AuthError::Conflict)
    } else {
        Ok(
            NewUser {
                name: payload.name.clone(),
                phone: payload.phone.clone(),
                password_hash: digest,
                role: payload.role.clone(),
            },
        )
    }
}

/// The registration decision. `payload.password_hash` carries the
/// submitted plaintext on entry; `phone_exists` is the caller's store
/// lookup. An empty phone is refused outright; then the plaintext is
/// hashed (a hashing fault surfaces as `Internal`); then a duplicate phone
/// is refused; otherwise the record to insert is returned, its digest
/// verifying against the submitted password.
pub fn register_user(payload: &NewUser, phone_exists: bool) -> (r: Result<NewUser, AuthError>)
    ensures
        payload.phone@.len() == 0 <==> (r matches Err(e) && e == AuthError::MalformedInput),
        payload.phone@.len() > 0 && phone_exists ==> (r matches Err(e) && (e == AuthError::Conflict
            || e == AuthError::Internal)),
        payload.phone@.len() > 0 && !phone_exists ==> r is Ok || (r matches Err(e) && e
            == AuthError::Internal),
        r matches Ok(record) ==> !phone_exists && record.name@ == payload.name@ && record.phone@
            == payload.phone@ && record.role@ == payload.role@ && password_matches(
            record.password_hash@,
            payload.password_hash@,
        ),
{
    if payload.phone.as_str().is_empty() {
        return Err(AuthError::MalformedInput);
    }
    let digest = match hash_password(payload.password_hash.as_str()) {
        Ok(digest) => digest,
        Err(_) => {
            return Err(AuthError::Internal);
        },
    };
    complete_registration(payload, phone_exists, digest)
}

/// The login decision. `user` is the caller's lookup of the submitted
/// phone. An unknown phone and a wrong password yield the same error; a
/// verified password always yields a session token issued at `now` for the
/// user's subject and role, together with that identity.
pub fn login_user(user: Option<&User>, password: &str, config: &Config, now: u64) -> (r: Result<
    LoginResponse,
    AuthError,
>)
    requires
        now + SESSION_TTL_SECS <= u64::MAX,
    ensures
        user is None ==> (r matches Err(e) && e == AuthError::Unauthenticated),
        user matches Some(u) && !password_matches(u.password_hash@, password@) ==> (r matches Err(e)
            && e == AuthError::Unauthenticated),
        user matches Some(u) && password_matches(u.password_hash@, password@) ==> r is Ok,
        r matches Ok(resp) ==> user matches Some(u) && password_matches(
            u.password_hash@,
            password@,
        ) && resp.token@ == spec_session_token(u.id, u.role, now, config.secret_key@)
            && decoded_claims_of(resp.token@, config.secret_key@) == Some(
            (
                uuid_str_of(u.id),
                (now + SESSION_TTL_SECS) as u64,
                spec_role_tag(u.role),
                None::<Seq<char>>,
            ),
        ) && resp.user_id == u.id && resp.role@ == spec_role_tag(u.role),
{
    let user = match user {
        Some(u) => u,
        None => {
            return Err(AuthError::Unauthenticated);
        },
    };
    if !verify_password(user.password_hash.as_str(), password) {
        return Err(AuthError::Unauthenticated);
    }
    let token = match issue_session_token(user, now, config) {
        Ok(token) => token,
        Err(_) => unreached(),
    };
    Ok(LoginResponse { token, user_id: user.id, role: user.role.tag() })
}

/// The record the `me` endpoint returns: the caller looks the
/// authenticated subject up and hands the result in; a vanished account is
/// a terminal not-found.
pub fn me_record(user: Option<&User>) -> (r: Result<&User, AuthError>)
    ensures
        user matches Some(u) ==> (r matches Ok(record) && record == u),
        user is None ==> (r matches Err(e) && e == AuthError::NotFound),
{
    match user {
        Some(u) => Ok(u),
        None => Err(AuthError::NotFound),
    }
}

} // verus!
