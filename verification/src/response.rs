//! Response values handed back to callers: a status/message pair and the
//! public projection of a user record (never the password).

use vstd::prelude::*;
use crate::models::{AuthUser, UserModel};

verus! {

/// A machine-readable status plus a human-readable message.
#[derive(Debug)]
pub struct GenericResponse {
    pub status: String,
    pub message: String,
}

impl GenericResponse {
    /// A success response carrying `message`.
    pub fn ok(message: &str) -> (r: Self)
        ensures
            r.status@ == "success"@,
            r.message@ == message@,
    {
        GenericResponse { status: String::from_str("success"), message: String::from_str(message) }
    }

    /// An error response carrying `message`.
    pub fn error(message: &str) -> (r: Self)
        ensures
            r.status@ == "error"@,
            r.message@ == message@,
    {
        GenericResponse { status: String::from_str("error"), message: String::from_str(message) }
    }
}

/// The public projection of a user record: everything but the password.
#[allow(non_snake_case)]
pub struct UserData {
    pub id: String,
    pub email: String,
    pub name: String,
    pub otp_enabled: bool,
    pub otp_verified: bool,
    pub otp_base32: Option<String>,
    pub otp_auth_url: Option<String>,
    pub createdAt: u64,
    pub updatedAt: u64,
}

/// Whether a projection shows exactly the public fields of a record model.
pub open spec fn reflects_user(d: UserData, m: UserModel) -> bool {
    &&& d.id@ == m.id
    &&& d.email@ == m.email
    &&& d.name@ == m.name
    &&& d.otp_enabled == m.otp_enabled
    &&& d.otp_verified == m.otp_verified
    &&& (match d.otp_base32 {
        Some(s) => m.otp_base32 == Some(s@),
        None => m.otp_base32 is None,
    })
    &&& (match d.otp_auth_url {
        Some(u) => m.otp_auth_url == Some(u@),
        None => m.otp_auth_url is None,
    })
    &&& d.createdAt == m.created_at
    &&& d.updatedAt == m.updated_at
}

/// The public projection of a user record, taken from a borrowed record.
pub fn user_to_response(user: &AuthUser) -> (r: UserData)
    ensures
        reflects_user(r, user@),
{
    let copy = user.duplicate();
    UserData {
        id: copy.id,
        email: copy.email,
        name: copy.name,
        otp_enabled: copy.otp_enabled,
        otp_verified: copy.otp_verified,
        otp_base32: copy.otp_base32,
        otp_auth_url: copy.otp_auth_url,
        createdAt: copy.created_at,
        updatedAt: copy.updated_at,
    }
}

impl From<AuthUser> for UserData {
    /// The public projection of an owned record.
    fn from(user: AuthUser) -> (r: UserData) {
        UserData {
            id: user.id,
            email: user.email,
            name: user.name,
            otp_enabled: user.otp_enabled,
            otp_verified: user.otp_verified,
            otp_base32: user.otp_base32,
            otp_auth_url: user.otp_auth_url,
            createdAt: user.created_at,
            updatedAt: user.updated_at,
        }
    }
}

impl vstd::std_specs::convert::FromSpecImpl<AuthUser> for UserData {
    open spec fn obeys_from_spec() -> bool {
        true
    }

    open spec fn from_spec(user: AuthUser) -> UserData {
        UserData {
            id: user.id,
            email: user.email,
            name: user.name,
            otp_enabled: user.otp_enabled,
            otp_verified: user.otp_verified,
            otp_base32: user.otp_base32,
            otp_auth_url: user.otp_auth_url,
            createdAt: user.created_at,
            updatedAt: user.updated_at,
        }
    }
}

/// A status wrapper around the public user projection.
pub struct UserResponse {
    pub status: String,
    pub user: UserData,
}

} // verus!
