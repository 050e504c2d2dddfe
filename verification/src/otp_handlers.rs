//! The per-user OTP workflow: generate, verify, validate and disable, plus
//! registration and login. Each handler loads the user through the
//! repository contract, decides on plain values, and persists the new
//! record; what each one does to the stored state is stated over the
//! repository model.

use vstd::prelude::*;
use crate::db::{
    idx_with_email, idx_with_id, lemma_field_lookup_is_id, lemma_idx_update_same_keys,
    lemma_idx_with_id, RegisterError, Repo,
};
use crate::models::{
    lower_of, lowercase, registered_user, with_disabled, with_generated, with_verified, AuthUser,
    GenerateOTPSchema, UserLoginSchema, UserModel, UserRegisterSchema, VerifyOTPSchema,
};
use crate::response::{reflects_user, user_to_response, GenericResponse, UserData, UserResponse};
use crate::totp::{
    build_otp_auth_url, decoded_secret, generate_secret, is_fresh_secret, is_six_digit_code,
    totp_accepts, uri_of, usable_secret, verify_code, OtpError,
};

verus! {

/// The issuer name spliced into every provisioning URI.
pub open spec fn spec_issuer() -> Seq<char> {
    "PSAR"@
}

/// Repository state after a secret was issued for the user with this id.
pub open spec fn generate_transition(
    users: Seq<UserModel>,
    id: Seq<char>,
    secret: Seq<char>,
    uri: Seq<char>,
    now: u64,
) -> Seq<UserModel> {
    let i = idx_with_id(users, id);
    if i < 0 {
        users
    } else {
        users.update(i, with_generated(users[i], secret, uri, now))
    }
}

/// Repository state after a successful code verification for this id.
pub open spec fn verify_transition(users: Seq<UserModel>, id: Seq<char>, now: u64) -> Seq<
    UserModel,
> {
    let i = idx_with_id(users, id);
    if i < 0 {
        users
    } else {
        users.update(i, with_verified(users[i], now))
    }
}

/// Repository state after OTP was disabled for this id.
pub open spec fn disable_transition(users: Seq<UserModel>, id: Seq<char>, now: u64) -> Seq<
    UserModel,
> {
    let i = idx_with_id(users, id);
    if i < 0 {
        users
    } else {
        users.update(i, with_disabled(users[i], now))
    }
}

/// Outcome of a secret-issuance request.
pub enum GenerateOtpOutcome {
    /// The secret and its provisioning URI, also stored on the record.
    Generated { otp_base32: String, otp_auth_url: String },
    /// No record carries the requested id.
    NotFound,
    /// The entropy source could not be read; nothing was stored.
    EntropyFailure,
}

/// Outcome of a code-verification request.
pub enum VerifyOtpOutcome {
    /// The code matched: the record is now enabled and verified.
    Verified { user: UserData },
    /// The code is malformed or does not match any accepted step.
    InvalidToken,
    /// No record carries the requested id.
    NotFound,
    /// No secret was ever generated for the record.
    OtpMissing,
    /// The stored secret is not usable base32.
    SecretCorrupt,
}

/// Outcome of a read-only code validation.
pub enum ValidateOtpOutcome {
    /// The code matched an accepted step.
    Valid,
    /// The record is not OTP-enabled.
    NotEnabled,
    /// The code is malformed or does not match any accepted step.
    InvalidToken,
    /// No record carries the requested id.
    NotFound,
    /// The record has no stored secret or one that is not usable base32.
    Internal,
}

/// Outcome of a disable request.
pub enum DisableOtpOutcome {
    /// OTP state was cleared; the record as stored afterwards.
    Disabled { user: UserData },
    /// No record carries the requested id.
    NotFound,
}


/// Decision of the generate workflow on one fetched record: a fresh secret
/// and provisioning URI, and the updated record to persist; fails only
/// when the entropy source cannot be read.
pub fn generate_otp_step(user: AuthUser, email: &str, now: u64) -> (r: Result<
    (String, String, AuthUser),
    OtpError,
>)
    ensures
        match r {
            Ok((otp_base32, otp_auth_url, updated)) => {
                &&& is_fresh_secret(otp_base32@)
                &&& otp_base32@.len() == 32
                &&& usable_secret(otp_base32@)
                &&& otp_auth_url@ == uri_of(spec_issuer(), email@, otp_base32@)
                &&& updated@ == with_generated(user@, otp_base32@, otp_auth_url@, now)
            },
            Err(e) => e == OtpError::EntropySourceUnavailable,
        },
{
    let secret = match generate_secret() {
        Ok(s) => s,
        Err(e) => {
            return Err(e);
        },
    };
    let url = build_otp_auth_url("PSAR", email, secret.as_str());
    let mut updated = user;
    updated.set_otp_secret(secret.clone(), url.clone(), now);
    Ok((secret, url, updated))
}

/// Decision of the verify workflow on one fetched record: the outcome and,
/// exactly on a match, the enabled and verified record to persist.
pub fn verify_otp_step(user: AuthUser, token: &str, now: u64) -> (r: (
    VerifyOtpOutcome,
    Option<AuthUser>,
))
    requires
        now + 30 <= u64::MAX,
    ensures
        ({
            let m = user@;
            match r.0 {
                VerifyOtpOutcome::NotFound => false,
                VerifyOtpOutcome::OtpMissing => m.otp_base32 is None && r.1 is None,
                VerifyOtpOutcome::SecretCorrupt => {
                    &&& m.otp_base32 matches Some(s) && !usable_secret(s)
                    &&& is_six_digit_code(token@)
                    &&& r.1 is None
                },
                VerifyOtpOutcome::InvalidToken => {
                    &&& m.otp_base32 matches Some(s) && (!is_six_digit_code(token@)
                        || (usable_secret(s) && !totp_accepts(decoded_secret(s), token@, now)))
                    &&& r.1 is None
                },
                VerifyOtpOutcome::Verified { user: shown } => {
                    &&& m.otp_base32 matches Some(s) && usable_secret(s) && totp_accepts(
                        decoded_secret(s),
                        token@,
                        now,
                    )
                    &&& is_six_digit_code(token@)
                    &&& (r.1 matches Some(updated) && updated@ == with_verified(m, now))
                    &&& reflects_user(shown, with_verified(m, now))
                },
            }
        }),
{
    let secret = match &user.otp_base32 {
        Some(s) => s.clone(),
        None => {
            return (VerifyOtpOutcome::OtpMissing, None);
        },
    };
    match verify_code(secret.as_str(), token, now) {
        Err(OtpError::MalformedToken) => (VerifyOtpOutcome::InvalidToken, None),
        Err(OtpError::InvalidSecretEncoding) => (VerifyOtpOutcome::SecretCorrupt, None),
        Err(OtpError::EntropySourceUnavailable) => (VerifyOtpOutcome::SecretCorrupt, None),
        Ok(false) => (VerifyOtpOutcome::InvalidToken, None),
        Ok(true) => {
            let mut updated = user;
            updated.set_otp_verified(now);
            let shown = user_to_response(&updated);
            (VerifyOtpOutcome::Verified { user: shown }, Some(updated))
        },
    }
}

/// Decision of the read-only validate workflow on one fetched record;
/// nothing is ever persisted.
pub fn validate_otp_step(user: &AuthUser, token: &str, now: u64) -> (r: ValidateOtpOutcome)
    requires
        now + 30 <= u64::MAX,
    ensures
        ({
            let m = user@;
            match r {
                ValidateOtpOutcome::NotFound => false,
                ValidateOtpOutcome::NotEnabled => !m.otp_enabled,
                ValidateOtpOutcome::Internal => {
                    &&& m.otp_enabled
                    &&& (m.otp_base32 is None || (m.otp_base32 matches Some(s)
                        && is_six_digit_code(token@) && !usable_secret(s)))
                },
                ValidateOtpOutcome::InvalidToken => {
                    &&& m.otp_enabled
                    &&& m.otp_base32 matches Some(s) && (!is_six_digit_code(token@)
                        || (usable_secret(s) && !totp_accepts(decoded_secret(s), token@, now)))
                },
                ValidateOtpOutcome::Valid => {
                    &&& m.otp_enabled
                    &&& m.otp_base32 matches Some(s) && usable_secret(s) && totp_accepts(
                        decoded_secret(s),
                        token@,
                        now,
                    )
                    &&& is_six_digit_code(token@)
                },
            }
        }),
{
    if !user.otp_enabled {
        return ValidateOtpOutcome::NotEnabled;
    }
    let secret = match &user.otp_base32 {
        Some(s) => s.clone(),
        None => {
            return ValidateOtpOutcome::Internal;
        },
    };
    match verify_code(secret.as_str(), token, now) {
        Err(OtpError::MalformedToken) => ValidateOtpOutcome::InvalidToken,
        Err(OtpError::InvalidSecretEncoding) => ValidateOtpOutcome::Internal,
        Err(OtpError::EntropySourceUnavailable) => ValidateOtpOutcome::Internal,
        Ok(false) => ValidateOtpOutcome::InvalidToken,
        Ok(true) => ValidateOtpOutcome::Valid,
    }
}

/// Decision of the disable workflow on one fetched record: the cleared
/// record to persist and its public projection.
pub fn disable_otp_step(user: AuthUser, now: u64) -> (r: (UserData, AuthUser))
    ensures
        r.1@ == with_disabled(user@, now),
        reflects_user(r.0, with_disabled(user@, now)),
{
    let mut updated = user;
    updated.clear_otp(now);
    let shown = user_to_response(&updated);
    (shown, updated)
}

/// Issues a fresh secret for the user: stores the secret and its
/// provisioning URI on the record (overwriting any prior pair, leaving the
/// flags untouched) and returns both to the caller.
pub fn generate_otp_handler_inner<R: Repo>(repo: &mut R, body: &GenerateOTPSchema, now: u64) -> (r:
    GenerateOtpOutcome)
    requires
        old(repo).inv(),
    ensures
        final(repo).inv(),
        ({
            let users0 = old(repo).users();
            let i = idx_with_id(users0, body.user_id@);
            match r {
                GenerateOtpOutcome::Generated { otp_base32, otp_auth_url } => {
                    &&& i >= 0
                    &&& is_fresh_secret(otp_base32@)
                    &&& otp_base32@.len() == 32
                    &&& usable_secret(otp_base32@)
                    &&& otp_auth_url@ == uri_of(spec_issuer(), body.email@, otp_base32@)
                    &&& final(repo).users() == generate_transition(
                        users0,
                        body.user_id@,
                        otp_base32@,
                        otp_auth_url@,
                        now,
                    )
                },
                GenerateOtpOutcome::NotFound => i == -1 && final(repo).users() == users0,
                GenerateOtpOutcome::EntropyFailure => i >= 0 && final(repo).users() == users0,
            }
        }),
{
    proof {
        lemma_idx_with_id(old(repo).users(), body.user_id@);
        lemma_field_lookup_is_id(old(repo).users(), body.user_id@);
    }
    let found = repo.find_user_by_custom_field("user_id", body.user_id.as_str());
    let user = match found {
        Some(u) => u,
        None => {
            return GenerateOtpOutcome::NotFound;
        },
    };
    let (secret, url, updated) = match generate_otp_step(user, body.email.as_str(), now) {
        Ok(parts) => parts,
        Err(_) => {
            return GenerateOtpOutcome::EntropyFailure;
        },
    };
    proof {
        repo.inv_ok();
    }
    repo.update_user(updated);
    GenerateOtpOutcome::Generated { otp_base32: secret, otp_auth_url: url }
}

/// Verifies a submitted code against the user's stored secret at time
/// `now`; on a match the record becomes enabled and verified.
pub fn verify_otp_handler_inner<R: Repo>(repo: &mut R, body: &VerifyOTPSchema, now: u64) -> (r:
    VerifyOtpOutcome)
    requires
        old(repo).inv(),
        now + 30 <= u64::MAX,
    ensures
        final(repo).inv(),
        ({
            let users0 = old(repo).users();
            let i = idx_with_id(users0, body.user_id@);
            match r {
                VerifyOtpOutcome::NotFound => i == -1 && final(repo).users() == users0,
                VerifyOtpOutcome::OtpMissing => {
                    &&& i >= 0
                    &&& users0[i].otp_base32 is None
                    &&& final(repo).users() == users0
                },
                VerifyOtpOutcome::SecretCorrupt => {
                    &&& i >= 0
                    &&& users0[i].otp_base32 matches Some(s) && !usable_secret(s)
                    &&& is_six_digit_code(body.token@)
                    &&& final(repo).users() == users0
                },
                VerifyOtpOutcome::InvalidToken => {
                    &&& i >= 0
                    &&& users0[i].otp_base32 matches Some(s) && (!is_six_digit_code(body.token@)
                        || (usable_secret(s) && !totp_accepts(
                            decoded_secret(s),
                            body.token@,
                            now,
                        )))
                    &&& final(repo).users() == users0
                },
                VerifyOtpOutcome::Verified { user } => {
                    &&& i >= 0
                    &&& users0[i].otp_base32 matches Some(s) && usable_secret(s) && totp_accepts(
                        decoded_secret(s),
                        body.token@,
                        now,
                    )
                    &&& is_six_digit_code(body.token@)
                    &&& final(repo).users() == verify_transition(users0, body.user_id@, now)
                    &&& reflects_user(user, with_verified(users0[i], now))
                },
            }
        }),
{
    proof {
        lemma_idx_with_id(old(repo).users(), body.user_id@);
        lemma_field_lookup_is_id(old(repo).users(), body.user_id@);
    }
    let found = repo.find_user_by_custom_field("user_id", body.user_id.as_str());
    let user = match found {
        Some(u) => u,
        None => {
            return VerifyOtpOutcome::NotFound;
        },
    };
    let (outcome, persist) = verify_otp_step(user, body.token.as_str(), now);
    match persist {
        Some(updated) => {
            proof {
                repo.inv_ok();
            }
            repo.update_user(updated);
        },
        None => {},
    }
    outcome
}

/// Read-only validation of a submitted code: same matching logic as
/// verification, but the record must already be enabled, and nothing is
/// ever written back.
pub fn validate_otp_handler_inner<R: Repo>(repo: &mut R, body: &VerifyOTPSchema, now: u64) -> (r:
    ValidateOtpOutcome)
    requires
        old(repo).inv(),
        now + 30 <= u64::MAX,
    ensures
        final(repo).inv(),
        final(repo).users() == old(repo).users(),
        ({
            let users0 = old(repo).users();
            let i = idx_with_id(users0, body.user_id@);
            match r {
                ValidateOtpOutcome::NotFound => i == -1,
                ValidateOtpOutcome::NotEnabled => i >= 0 && !users0[i].otp_enabled,
                ValidateOtpOutcome::Internal => {
                    &&& i >= 0
                    &&& users0[i].otp_enabled
                    &&& (users0[i].otp_base32 is None || (users0[i].otp_base32 matches Some(s)
                        && is_six_digit_code(body.token@) && !usable_secret(s)))
                },
                ValidateOtpOutcome::InvalidToken => {
                    &&& i >= 0
                    &&& users0[i].otp_enabled
                    &&& users0[i].otp_base32 matches Some(s) && (!is_six_digit_code(body.token@)
                        || (usable_secret(s) && !totp_accepts(
                            decoded_secret(s),
                            body.token@,
                            now,
                        )))
                },
                ValidateOtpOutcome::Valid => {
                    &&& i >= 0
                    &&& users0[i].otp_enabled
                    &&& users0[i].otp_base32 matches Some(s) && usable_secret(s) && totp_accepts(
                        decoded_secret(s),
                        body.token@,
                        now,
                    )
                    &&& is_six_digit_code(body.token@)
                },
            }
        }),
{
    proof {
        lemma_field_lookup_is_id(old(repo).users(), body.user_id@);
    }
    let found = repo.find_user_by_custom_field("user_id", body.user_id.as_str());
    let user = match found {
        Some(u) => u,
        None => {
            return ValidateOtpOutcome::NotFound;
        },
    };
    validate_otp_step(&user, body.token.as_str(), now)
}

/// Clears the user's whole OTP state in one update; disabling a user that
/// has nothing enabled leaves the same cleared state.
pub fn disable_otp_handler_inner<R: Repo>(repo: &mut R, user_id: &str, now: u64) -> (r:
    DisableOtpOutcome)
    requires
        old(repo).inv(),
    ensures
        final(repo).inv(),
        final(repo).users() == disable_transition(old(repo).users(), user_id@, now),
        ({
            let users0 = old(repo).users();
            let i = idx_with_id(users0, user_id@);
            match r {
                DisableOtpOutcome::NotFound => i == -1,
                DisableOtpOutcome::Disabled { user } => i >= 0 && reflects_user(
                    user,
                    with_disabled(users0[i], now),
                ),
            }
        }),
{
    proof {
        lemma_idx_with_id(old(repo).users(), user_id@);
        lemma_field_lookup_is_id(old(repo).users(), user_id@);
    }
    let found = repo.find_user_by_custom_field("user_id", user_id);
    let user = match found {
        Some(u) => u,
        None => {
            return DisableOtpOutcome::NotFound;
        },
    };
    let (shown, updated) = disable_otp_step(user, now);
    proof {
        repo.inv_ok();
    }
    repo.update_user(updated);
    DisableOtpOutcome::Disabled { user: shown }
}

/// The conflict text a refused registration carries, naming the email
/// spelling the caller submitted.
pub open spec fn email_conflict_message(email: Seq<char>) -> Seq<char> {
    "user with email "@ + email + " already exists"@
}

/// Registers a new user at time `now`; refused as a conflict, with a
/// message naming the submitted email, exactly when a record already holds
/// the case-normalized email. Success acknowledges with "user registered".
pub fn register_user_handler_inner<R: Repo>(
    repo: &mut R,
    body: UserRegisterSchema,
    now: u64,
) -> (r: Result<GenericResponse, GenericResponse>)
    requires
        old(repo).inv(),
    ensures
        final(repo).inv(),
        ({
            let e = lower_of(body.email@);
            let i = idx_with_email(old(repo).users(), e);
            match r {
                Ok(resp) => {
                    &&& i == -1
                    &&& resp.status@ == "success"@
                    &&& resp.message@ == "user registered"@
                    &&& final(repo).users().len() == old(repo).users().len() + 1
                    &&& final(repo).users().drop_last() == old(repo).users()
                    &&& (exists|id: Seq<char>|
                        #![auto]
                        id.len() == 36 && registered_user(
                            final(repo).users().last(),
                            id,
                            e,
                            body.name@,
                            body.password@,
                            now,
                        ))
                },
                Err(resp) => {
                    &&& i >= 0
                    &&& resp.status@ == "error"@
                    &&& resp.message@ == email_conflict_message(body.email@)
                    &&& final(repo).users() == old(repo).users()
                },
            }
        }),
{
    let raw_email = body.email.clone();
    match repo.register_user_by_email(body, now) {
        Ok(resp) => Ok(resp),
        Err(RegisterError::AlreadyExists) => {
            let mut msg = String::new();
            msg.append("user with email ");
            msg.append(raw_email.as_str());
            msg.append(" already exists");
            proof {
                assert(msg@ =~= email_conflict_message(body.email@));
            }
            Err(GenericResponse::error(msg.as_str()))
        },
    }
}

/// Fetches the record stored under the case-normalized email and returns
/// its public projection; the password is not inspected here.
pub fn login_user_handler_inner<R: Repo>(repo: &mut R, body: &UserLoginSchema) -> (r: Option<
    UserResponse,
>)
    requires
        old(repo).inv(),
    ensures
        final(repo).inv(),
        final(repo).users() == old(repo).users(),
        ({
            let i = idx_with_email(old(repo).users(), lower_of(body.email@));
            match r {
                Some(resp) => {
                    &&& i >= 0
                    &&& resp.status@ == "success"@
                    &&& reflects_user(resp.user, old(repo).users()[i])
                },
                None => i == -1,
            }
        }),
{
    let lowered = lowercase(body.email.as_str());
    match repo.find_user_by_email(lowered.as_str()) {
        Some(u) => {
            let shown = user_to_response(&u);
            Some(UserResponse { status: String::from_str("success"), user: shown })
        },
        None => None,
    }
}

/// Disabling is idempotent on the stored state: a second disable for the
/// same user, at any time, leaves exactly the state a single disable at
/// that time would leave.
pub proof fn lemma_disable_transition_idempotent(
    users: Seq<UserModel>,
    id: Seq<char>,
    t1: u64,
    t2: u64,
)
    ensures
        disable_transition(disable_transition(users, id, t1), id, t2) == disable_transition(
            users,
            id,
            t2,
        ),
{
    let i = idx_with_id(users, id);
    lemma_idx_with_id(users, id);
    if i >= 0 {
        let d1 = with_disabled(users[i], t1);
        lemma_idx_update_same_keys(users, i, d1, d1.email, id);
        let s1 = users.update(i, d1);
        assert(s1.update(i, with_disabled(d1, t2)) =~= users.update(
            i,
            with_disabled(users[i], t2),
        ));
    }
}

/// After a generate and a verify the record is enabled and verified and
/// still holds the issued secret and URI; after a disable both flags are
/// false and both OTP fields are gone.
pub proof fn lemma_generate_verify_disable(
    users: Seq<UserModel>,
    id: Seq<char>,
    secret: Seq<char>,
    uri: Seq<char>,
    t1: u64,
    t2: u64,
    t3: u64,
)
    requires
        idx_with_id(users, id) >= 0,
    ensures
        ({
            let i = idx_with_id(users, id);
            let s2 = verify_transition(
                generate_transition(users, id, secret, uri, t1),
                id,
                t2,
            );
            let s3 = disable_transition(s2, id, t3);
            &&& s2[i].otp_enabled && s2[i].otp_verified
            &&& s2[i].otp_base32 == Some(secret) && s2[i].otp_auth_url == Some(uri)
            &&& !s3[i].otp_enabled && !s3[i].otp_verified
            &&& s3[i].otp_base32 is None && s3[i].otp_auth_url is None
        }),
{
    let i = idx_with_id(users, id);
    lemma_idx_with_id(users, id);
    let g = with_generated(users[i], secret, uri, t1);
    lemma_idx_update_same_keys(users, i, g, g.email, id);
    let s1 = users.update(i, g);
    let v = with_verified(s1[i], t2);
    lemma_idx_update_same_keys(s1, i, v, v.email, id);
    let s2 = s1.update(i, v);
    let d = with_disabled(s2[i], t3);
    lemma_idx_update_same_keys(s2, i, d, d.email, id);
}

} // verus!
