//! The user-credential data model shared by all storage back ends, its
//! invariants, and the per-record state transitions of the OTP workflow.

use vstd::prelude::*;

verus! {

/// The mathematical model of one stored user record.
pub ghost struct UserModel {
    pub id: Seq<char>,
    pub email: Seq<char>,
    pub name: Seq<char>,
    pub password: Option<Seq<char>>,
    pub otp_enabled: bool,
    pub otp_verified: bool,
    pub otp_base32: Option<Seq<char>>,
    pub otp_auth_url: Option<Seq<char>>,
    pub created_at: u64,
    pub updated_at: u64,
}

impl UserModel {
    /// Record invariant: the secret and its provisioning URI are both
    /// present or both absent; a verified record is enabled; an enabled
    /// record holds a secret; the update time never precedes creation.
    pub open spec fn wf(self) -> bool {
        &&& (self.otp_base32 is Some <==> self.otp_auth_url is Some)
        &&& (self.otp_verified ==> self.otp_enabled)
        &&& (self.otp_enabled ==> self.otp_base32 is Some)
        &&& self.updated_at >= self.created_at
    }
}

/// One user record, keyed by `id`, with `email` unique across records.
pub struct AuthUser {
    pub id: String,
    pub email: String,
    pub name: String,
    pub password: Option<String>,
    pub otp_enabled: bool,
    pub otp_verified: bool,
    pub otp_base32: Option<String>,
    pub otp_auth_url: Option<String>,
    pub created_at: u64,
    pub updated_at: u64,
}

impl View for AuthUser {
    type V = UserModel;

    open spec fn view(&self) -> UserModel {
        UserModel {
            id: self.id@,
            email: self.email@,
            name: self.name@,
            password: match self.password {
                Some(p) => Some(p@),
                None => None,
            },
            otp_enabled: self.otp_enabled,
            otp_verified: self.otp_verified,
            otp_base32: match self.otp_base32 {
                Some(s) => Some(s@),
                None => None,
            },
            otp_auth_url: match self.otp_auth_url {
                Some(u) => Some(u@),
                None => None,
            },
            created_at: self.created_at,
            updated_at: self.updated_at,
        }
    }
}

/// The update time a mutation at `now` stamps on a record: `now`, clamped so
/// that it never precedes the record's creation time.
pub open spec fn refreshed_at(u: UserModel, now: u64) -> u64 {
    if now >= u.created_at {
        now
    } else {
        u.created_at
    }
}

/// A record right after registration at `now`: no OTP state yet.
pub open spec fn registered_user(
    m: UserModel,
    id: Seq<char>,
    email: Seq<char>,
    name: Seq<char>,
    password: Seq<char>,
    now: u64,
) -> bool {
    m == (UserModel {
        id: id,
        email: email,
        name: name,
        password: Some(password),
        otp_enabled: false,
        otp_verified: false,
        otp_base32: None,
        otp_auth_url: None,
        created_at: now,
        updated_at: now,
    })
}

/// Effect of issuing a new secret: the secret and URI are overwritten, the
/// enabled/verified flags are untouched, and the update time is refreshed.
pub open spec fn with_generated(
    u: UserModel,
    secret: Seq<char>,
    uri: Seq<char>,
    now: u64,
) -> UserModel {
    UserModel {
        otp_base32: Some(secret),
        otp_auth_url: Some(uri),
        updated_at: refreshed_at(u, now),
        ..u
    }
}

/// Effect of a successful code verification: the record becomes enabled and
/// verified, keeping its secret; the update time is refreshed.
pub open spec fn with_verified(u: UserModel, now: u64) -> UserModel {
    UserModel { otp_enabled: true, otp_verified: true, updated_at: refreshed_at(u, now), ..u }
}

/// Effect of disabling OTP: both flags cleared and both OTP fields dropped
/// in one update; the update time is refreshed.
pub open spec fn with_disabled(u: UserModel, now: u64) -> UserModel {
    UserModel {
        otp_enabled: false,
        otp_verified: false,
        otp_base32: None,
        otp_auth_url: None,
        updated_at: refreshed_at(u, now),
        ..u
    }
}

impl AuthUser {
    /// A field-by-field copy; unlike a derived clone its contract states
    /// that the model is preserved.
    pub fn duplicate(&self) -> (r: AuthUser)
        ensures
            r@ == self@,
    {
        AuthUser {
            id: self.id.clone(),
            email: self.email.clone(),
            name: self.name.clone(),
            password: match &self.password {
                Some(p) => Some(p.clone()),
                None => None,
            },
            otp_enabled: self.otp_enabled,
            otp_verified: self.otp_verified,
            otp_base32: match &self.otp_base32 {
                Some(s) => Some(s.clone()),
                None => None,
            },
            otp_auth_url: match &self.otp_auth_url {
                Some(u) => Some(u.clone()),
                None => None,
            },
            created_at: self.created_at,
            updated_at: self.updated_at,
        }
    }

    fn refresh_updated_at(&mut self, now: u64)
        ensures
            final(self)@ == (UserModel { updated_at: refreshed_at(old(self)@, now), ..old(self)@ }),
    {
        if now >= self.created_at {
            self.updated_at = now;
        } else {
            self.updated_at = self.created_at;
        }
    }

    /// Stores a newly issued secret and provisioning URI on the record.
    pub fn set_otp_secret(&mut self, secret_b32: String, auth_url: String, now: u64)
        ensures
            final(self)@ == with_generated(old(self)@, secret_b32@, auth_url@, now),
    {
        self.otp_base32 = Some(secret_b32);
        self.otp_auth_url = Some(auth_url);
        self.refresh_updated_at(now);
    }

    /// Marks the record enabled and verified after a successful check.
    pub fn set_otp_verified(&mut self, now: u64)
        ensures
            final(self)@ == with_verified(old(self)@, now),
    {
        self.otp_enabled = true;
        self.otp_verified = true;
        self.refresh_updated_at(now);
    }

    /// Clears the whole OTP state of the record in one update.
    pub fn clear_otp(&mut self, now: u64)
        ensures
            final(self)@ == with_disabled(old(self)@, now),
    {
        self.otp_enabled = false;
        self.otp_verified = false;
        self.otp_base32 = None;
        self.otp_auth_url = None;
        self.refresh_updated_at(now);
    }
}

/// What str::to_lowercase returns: a function of the characters alone.
pub uninterp spec fn lower_of(s: Seq<char>) -> Seq<char>;

/// Relies on str::to_lowercase: the case-normalized form under which every
/// email is stored and looked up.
#[verifier::external_body]
pub fn lowercase(s: &str) -> (r: String)
    ensures
        r@ == lower_of(s@),
{
    s.to_lowercase()
}

/// Body of a registration request.
pub struct UserRegisterSchema {
    pub name: String,
    pub email: String,
    pub password: String,
}

/// Body of a login request.
pub struct UserLoginSchema {
    pub email: String,
    pub password: String,
}

/// Body of a secret-issuance request.
pub struct GenerateOTPSchema {
    pub email: String,
    pub user_id: String,
}

/// Body of a code-verification or validation request.
pub struct VerifyOTPSchema {
    pub user_id: String,
    pub token: String,
}

/// Body of a disable request.
pub struct DisableOTPSchema {
    pub user_id: String,
}

/// Each OTP transition keeps a record well formed; a successful verify
/// needs the secret it confirms to be present.
pub proof fn lemma_transitions_preserve_wf(
    u: UserModel,
    secret: Seq<char>,
    uri: Seq<char>,
    now: u64,
)
    requires
        u.wf(),
    ensures
        with_generated(u, secret, uri, now).wf(),
        u.otp_base32 is Some ==> with_verified(u, now).wf(),
        with_disabled(u, now).wf(),
{
}

/// Disabling is idempotent on a record: a second disable, at any later (or
/// earlier) time, yields the same record as a single disable at that time.
pub proof fn lemma_disable_idempotent(u: UserModel, t1: u64, t2: u64)
    ensures
        with_disabled(with_disabled(u, t1), t2) == with_disabled(u, t2),
{
}

} // verus!
