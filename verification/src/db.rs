//! The repository contract every storage back end satisfies, and the
//! verified in-memory back end. A repository is a sequence of user records
//! with unique, case-normalized emails; lookups by id return the first
//! match, as the storage drivers do.

use vstd::prelude::*;
use crate::models::{lower_of, lowercase, registered_user, AuthUser, UserModel, UserRegisterSchema};
use crate::response::GenericResponse;
use crate::totp::eq_constant_time;

verus! {

/// Registration refusal: a record with that email already exists.
#[derive(Clone, Copy, Debug, PartialEq, Eq, Structural)]
pub enum RegisterError {
    AlreadyExists,
}

/// The models of a stored sequence of records.
pub open spec fn models_of(records: Seq<AuthUser>) -> Seq<UserModel> {
    records.map_values(|u: AuthUser| u@)
}

/// Index of the first record with this email, or -1 if none.
pub open spec fn idx_with_email(users: Seq<UserModel>, email: Seq<char>) -> int
    decreases users.len(),
{
    if users.len() == 0 {
        -1
    } else if users[0].email == email {
        0
    } else {
        let rest = idx_with_email(users.drop_first(), email);
        if rest < 0 {
            -1
        } else {
            rest + 1
        }
    }
}

/// Index of the first record with this id, or -1 if none.
pub open spec fn idx_with_id(users: Seq<UserModel>, id: Seq<char>) -> int
    decreases users.len(),
{
    if users.len() == 0 {
        -1
    } else if users[0].id == id {
        0
    } else {
        let rest = idx_with_id(users.drop_first(), id);
        if rest < 0 {
            -1
        } else {
            rest + 1
        }
    }
}

/// What the first-match index means: in range, a hit with no earlier hit,
/// or -1 and no hit at all.
pub proof fn lemma_idx_with_email(users: Seq<UserModel>, email: Seq<char>)
    ensures
        ({
            let i = idx_with_email(users, email);
            &&& -1 <= i < users.len()
            &&& i >= 0 ==> users[i].email == email && (forall|j: int|
                0 <= j < i ==> (#[trigger] users[j]).email != email)
            &&& i == -1 ==> (forall|j: int|
                0 <= j < users.len() ==> (#[trigger] users[j]).email != email)
        }),
    decreases users.len(),
{
    if users.len() != 0 && users[0].email != email {
        lemma_idx_with_email(users.drop_first(), email);
        assert(forall|j: int|
            1 <= j < users.len() ==> #[trigger] users[j] == users.drop_first()[j - 1]);
    }
}

/// The id counterpart of the first-match characterization.
pub proof fn lemma_idx_with_id(users: Seq<UserModel>, id: Seq<char>)
    ensures
        ({
            let i = idx_with_id(users, id);
            &&& -1 <= i < users.len()
            &&& i >= 0 ==> users[i].id == id && (forall|j: int|
                0 <= j < i ==> (#[trigger] users[j]).id != id)
            &&& i == -1 ==> (forall|j: int|
                0 <= j < users.len() ==> (#[trigger] users[j]).id != id)
        }),
    decreases users.len(),
{
    if users.len() != 0 && users[0].id != id {
        lemma_idx_with_id(users.drop_first(), id);
        assert(forall|j: int|
            1 <= j < users.len() ==> #[trigger] users[j] == users.drop_first()[j - 1]);
    }
}

/// The scalar string field of a record a field name selects: "user_id" or
/// "id" select the id, and the other names their like-named field. An
/// unknown name selects nothing.
pub open spec fn field_value(m: UserModel, field: Seq<char>) -> Option<Seq<char>> {
    if field == "user_id"@ || field == "id"@ {
        Some(m.id)
    } else if field == "email"@ {
        Some(m.email)
    } else if field == "name"@ {
        Some(m.name)
    } else if field == "password"@ {
        m.password
    } else if field == "otp_base32"@ {
        m.otp_base32
    } else if field == "otp_auth_url"@ {
        m.otp_auth_url
    } else {
        None
    }
}

/// Index of the first record whose named field holds this value, or -1.
pub open spec fn idx_with_field(users: Seq<UserModel>, field: Seq<char>, value: Seq<char>) -> int
    decreases users.len(),
{
    if users.len() == 0 {
        -1
    } else if field_value(users[0], field) == Some(value) {
        0
    } else {
        let rest = idx_with_field(users.drop_first(), field, value);
        if rest < 0 {
            -1
        } else {
            rest + 1
        }
    }
}

/// The field counterpart of the first-match characterization.
pub proof fn lemma_idx_with_field(users: Seq<UserModel>, field: Seq<char>, value: Seq<char>)
    ensures
        ({
            let i = idx_with_field(users, field, value);
            &&& -1 <= i < users.len()
            &&& i >= 0 ==> field_value(users[i], field) == Some(value) && (forall|j: int|
                0 <= j < i ==> field_value(#[trigger] users[j], field) != Some(value))
            &&& i == -1 ==> (forall|j: int|
                0 <= j < users.len() ==> field_value(#[trigger] users[j], field) != Some(value))
        }),
    decreases users.len(),
{
    if users.len() != 0 && field_value(users[0], field) != Some(value) {
        lemma_idx_with_field(users.drop_first(), field, value);
        assert(forall|j: int|
            1 <= j < users.len() ==> #[trigger] users[j] == users.drop_first()[j - 1]);
    }
}

/// Looking a field named "user_id" up is exactly the first-match id lookup.
pub proof fn lemma_field_lookup_is_id(users: Seq<UserModel>, value: Seq<char>)
    ensures
        idx_with_field(users, "user_id"@, value) == idx_with_id(users, value),
    decreases users.len(),
{
    if users.len() != 0 && users[0].id != value {
        lemma_field_lookup_is_id(users.drop_first(), value);
    }
}

/// Looking a field named "email" up is exactly the first-match email
/// lookup.
pub proof fn lemma_field_lookup_is_email(users: Seq<UserModel>, value: Seq<char>)
    ensures
        idx_with_field(users, "email"@, value) == idx_with_email(users, value),
    decreases users.len(),
{
    reveal_strlit("email");
    reveal_strlit("user_id");
    reveal_strlit("id");
    assert("email"@.len() == 5 && "user_id"@.len() == 7 && "id"@.len() == 2);
    if users.len() != 0 && users[0].email != value {
        lemma_field_lookup_is_email(users.drop_first(), value);
    }
}

/// Replacing one record with one of the same id and email moves no
/// first-match index, for any key.
pub proof fn lemma_idx_update_same_keys(
    users: Seq<UserModel>,
    i: int,
    u: UserModel,
    email: Seq<char>,
    id: Seq<char>,
)
    requires
        0 <= i < users.len(),
        u.email == users[i].email,
        u.id == users[i].id,
    ensures
        idx_with_email(users.update(i, u), email) == idx_with_email(users, email),
        idx_with_id(users.update(i, u), id) == idx_with_id(users, id),
    decreases users.len(),
{
    let updated = users.update(i, u);
    if i == 0 {
        assert(updated.drop_first() =~= users.drop_first());
    } else {
        assert(updated.drop_first() =~= users.drop_first().update(i - 1, u));
        lemma_idx_update_same_keys(users.drop_first(), i - 1, u, email, id);
    }
}

/// Repository invariant: every record is well formed and no two records
/// share an email.
pub open spec fn repo_ok(users: Seq<UserModel>) -> bool {
    &&& (forall|i: int| 0 <= i < users.len() ==> (#[trigger] users[i]).wf())
    &&& (forall|i: int, j: int|
        0 <= i < j < users.len() ==> (#[trigger] users[i]).email != (#[trigger] users[j]).email)
}

/// The capability set every storage back end offers the workflow. Lookups
/// leave the stored records as they are; registration enforces the unique,
/// case-normalized email at this boundary; an update replaces the first
/// record carrying the id, keeping its email. Every method takes the back
/// end exclusively (&mut), so one writer at a time is a property of the
/// types; callers that share a back end serialize around it with a lock.
pub trait Repo: Sized {
    /// The stored records, as their models.
    spec fn users(&self) -> Seq<UserModel>;

    /// The back end's invariant.
    spec fn inv(&self) -> bool;

    /// The invariant subsumes the shared repository invariant.
    proof fn inv_ok(&self)
        requires
            self.inv(),
        ensures
            repo_ok(self.users()),
    ;

    /// Looks a record up under exactly the given email.
    fn find_user_by_email(&mut self, email: &str) -> (r: Option<AuthUser>)
        requires
            old(self).inv(),
        ensures
            final(self).inv(),
            final(self).users() == old(self).users(),
            ({
                let i = idx_with_email(final(self).users(), email@);
                match r {
                    Some(u) => i >= 0 && u@ == final(self).users()[i],
                    None => i == -1,
                }
            }),
    ;

    /// Looks the first record with the given id up.
    fn find_user_by_id(&mut self, id: &str) -> (r: Option<AuthUser>)
        requires
            old(self).inv(),
        ensures
            final(self).inv(),
            final(self).users() == old(self).users(),
            ({
                let i = idx_with_id(final(self).users(), id@);
                match r {
                    Some(u) => i >= 0 && u@ == final(self).users()[i],
                    None => i == -1,
                }
            }),
    ;

    /// Looks the first record up whose named scalar field holds `value`:
    /// "user_id" and "id" select the id, "email", "name", "password",
    /// "otp_base32" and "otp_auth_url" their like-named field; any other
    /// field name matches nothing.
    fn find_user_by_custom_field(&mut self, field_name: &str, value: &str) -> (r: Option<
        AuthUser,
    >)
        requires
            old(self).inv(),
        ensures
            final(self).inv(),
            final(self).users() == old(self).users(),
            ({
                let i = idx_with_field(final(self).users(), field_name@, value@);
                match r {
                    Some(u) => i >= 0 && u@ == final(self).users()[i],
                    None => i == -1,
                }
            }),
    ;

    /// Registers a new user at time `now`: succeeds, appending one record
    /// with the case-normalized email, no OTP state and a fresh 36-character
    /// id, exactly when no record holds that normalized email yet. The
    /// success acknowledgement carries the fixed message "user registered".
    fn register_user_by_email(&mut self, user: UserRegisterSchema, now: u64) -> (r: Result<
        GenericResponse,
        RegisterError,
    >)
        requires
            old(self).inv(),
        ensures
            final(self).inv(),
            ({
                let e = lower_of(user.email@);
                let i = idx_with_email(old(self).users(), e);
                match r {
                    Ok(resp) => {
                        &&& i == -1
                        &&& final(self).users().len() == old(self).users().len() + 1
                        &&& final(self).users().drop_last() == old(self).users()
                        &&& (exists|id: Seq<char>|
                            #![auto]
                            id.len() == 36 && registered_user(
                                final(self).users().last(),
                                id,
                                e,
                                user.name@,
                                user.password@,
                                now,
                            ))
                        &&& resp.status@ == "success"@
                        &&& resp.message@ == "user registered"@
                    },
                    Err(err) => {
                        &&& err == RegisterError::AlreadyExists
                        &&& i >= 0
                        &&& final(self).users() == old(self).users()
                    },
                }
            }),
    ;

    /// Replaces the first record carrying `user`'s id with `user`, which
    /// must be well formed and keep that record's email; reports whether a
    /// record was found.
    fn update_user(&mut self, user: AuthUser) -> (r: bool)
        requires
            old(self).inv(),
            user@.wf(),
            ({
                let i = idx_with_id(old(self).users(), user.id@);
                i >= 0 ==> old(self).users()[i].email == user.email@
            }),
        ensures
            final(self).inv(),
            ({
                let i = idx_with_id(old(self).users(), user.id@);
                if i >= 0 {
                    r && final(self).users() == old(self).users().update(i, user@)
                } else {
                    !r && final(self).users() == old(self).users()
                }
            }),
    ;
}

/// Relies on uuid::Uuid::new_v4 and its hyphenated text form: a fresh
/// random identifier, 36 characters long. Nothing else is assumed of it;
/// in particular, not that it differs from any stored id. new_v4 aborts
/// the process when the OS entropy source cannot be read, as the id
/// source always did here.
#[verifier::external_body]
fn fresh_uuid() -> (r: String)
    ensures
        r@.len() == 36,
{
    uuid::Uuid::new_v4().to_string()
}

/// Builds the record registration stores: a fresh id, the case-normalized
/// email, the password kept opaque, no OTP state, and both timestamps at
/// `now`. Every storage back end persists exactly this shape.
pub fn create_user_record(user: UserRegisterSchema, now: u64) -> (r: AuthUser)
    ensures
        registered_user(r@, r.id@, lower_of(user.email@), user.name@, user.password@, now),
        r.id@.len() == 36,
        r@.wf(),
{
    let lowered = lowercase(user.email.as_str());
    let id = fresh_uuid();
    AuthUser {
        id: id,
        email: lowered,
        name: user.name,
        password: Some(user.password),
        otp_enabled: false,
        otp_verified: false,
        otp_base32: None,
        otp_auth_url: None,
        created_at: now,
        updated_at: now,
    }
}

/// Position of the first stored record carrying this email, if any.
fn position_by_email(records: &Vec<AuthUser>, email: &str) -> (r: Option<usize>)
    ensures
        ({
            let i = idx_with_email(models_of(records@), email@);
            match r {
                Some(k) => i == k && k < records@.len(),
                None => i == -1,
            }
        }),
{
    let n = records.len();
    let mut k: usize = 0;
    while k < n
        invariant
            n == records.len(),
            0 <= k <= n,
            forall|j: int| 0 <= j < k ==> (#[trigger] models_of(records@)[j]).email != email@,
        decreases n - k,
    {
        if eq_constant_time(records[k].email.as_str(), email) {
            proof {
                lemma_idx_with_email(models_of(records@), email@);
                assert(models_of(records@)[k as int].email == email@);
            }
            return Some(k);
        }
        proof {
            assert(models_of(records@)[k as int].email != email@);
        }
        k = k + 1;
    }
    proof {
        lemma_idx_with_email(models_of(records@), email@);
    }
    None
}

/// Position of the first stored record carrying this id, if any.
fn position_by_id(records: &Vec<AuthUser>, id: &str) -> (r: Option<usize>)
    ensures
        ({
            let i = idx_with_id(models_of(records@), id@);
            match r {
                Some(k) => i == k && k < records@.len(),
                None => i == -1,
            }
        }),
{
    let n = records.len();
    let mut k: usize = 0;
    while k < n
        invariant
            n == records.len(),
            0 <= k <= n,
            forall|j: int| 0 <= j < k ==> (#[trigger] models_of(records@)[j]).id != id@,
        decreases n - k,
    {
        if eq_constant_time(records[k].id.as_str(), id) {
            proof {
                lemma_idx_with_id(models_of(records@), id@);
                assert(models_of(records@)[k as int].id == id@);
            }
            return Some(k);
        }
        proof {
            assert(models_of(records@)[k as int].id != id@);
        }
        k = k + 1;
    }
    proof {
        lemma_idx_with_id(models_of(records@), id@);
    }
    None
}

/// Whether the record's field named `field_name` holds exactly `value`.
fn field_matches(u: &AuthUser, field_name: &str, value: &str) -> (r: bool)
    ensures
        r == (field_value(u@, field_name@) == Some(value@)),
{
    proof {
        reveal_strlit("user_id");
        reveal_strlit("id");
        reveal_strlit("email");
        reveal_strlit("name");
        reveal_strlit("password");
        reveal_strlit("otp_base32");
        reveal_strlit("otp_auth_url");
        assert("user_id"@.len() == 7 && "id"@.len() == 2 && "email"@.len() == 5);
        assert("name"@.len() == 4 && "password"@.len() == 8);
        assert("otp_base32"@.len() == 10 && "otp_auth_url"@.len() == 12);
    }
    if eq_constant_time(field_name, "user_id") || eq_constant_time(field_name, "id") {
        eq_constant_time(u.id.as_str(), value)
    } else if eq_constant_time(field_name, "email") {
        eq_constant_time(u.email.as_str(), value)
    } else if eq_constant_time(field_name, "name") {
        eq_constant_time(u.name.as_str(), value)
    } else if eq_constant_time(field_name, "password") {
        match &u.password {
            Some(p) => eq_constant_time(p.as_str(), value),
            None => false,
        }
    } else if eq_constant_time(field_name, "otp_base32") {
        match &u.otp_base32 {
            Some(b) => eq_constant_time(b.as_str(), value),
            None => false,
        }
    } else if eq_constant_time(field_name, "otp_auth_url") {
        match &u.otp_auth_url {
            Some(a) => eq_constant_time(a.as_str(), value),
            None => false,
        }
    } else {
        false
    }
}

/// Position of the first stored record whose named field holds `value`.
fn position_by_field(records: &Vec<AuthUser>, field_name: &str, value: &str) -> (r: Option<usize>)
    ensures
        ({
            let i = idx_with_field(models_of(records@), field_name@, value@);
            match r {
                Some(k) => i == k && k < records@.len(),
                None => i == -1,
            }
        }),
{
    let n = records.len();
    let mut k: usize = 0;
    while k < n
        invariant
            n == records.len(),
            0 <= k <= n,
            forall|j: int|
                0 <= j < k ==> field_value(#[trigger] models_of(records@)[j], field_name@)
                    != Some(value@),
        decreases n - k,
    {
        if field_matches(&records[k], field_name, value) {
            proof {
                lemma_idx_with_field(models_of(records@), field_name@, value@);
                assert(field_value(models_of(records@)[k as int], field_name@) == Some(value@));
            }
            return Some(k);
        }
        proof {
            assert(field_value(models_of(records@)[k as int], field_name@) != Some(value@));
        }
        k = k + 1;
    }
    proof {
        lemma_idx_with_field(models_of(records@), field_name@, value@);
    }
    None
}

/// The in-memory storage back end: a plain vector of records, with the
/// repository invariant carried as its only state.
pub struct MemoryRepo {
    records: Vec<AuthUser>,
}

impl MemoryRepo {
    /// An empty repository.
    pub fn new() -> (r: Self)
        ensures
            r.inv(),
            r.users() == Seq::<UserModel>::empty(),
    {
        let r = MemoryRepo { records: Vec::new() };
        proof {
            assert(r.users() =~= Seq::<UserModel>::empty());
        }
        r
    }
}

impl Repo for MemoryRepo {
    closed spec fn users(&self) -> Seq<UserModel> {
        models_of(self.records@)
    }

    closed spec fn inv(&self) -> bool {
        repo_ok(self.users())
    }

    proof fn inv_ok(&self) {
    }

    fn find_user_by_email(&mut self, email: &str) -> (r: Option<AuthUser>) {
        match position_by_email(&self.records, email) {
            Some(k) => Some(self.records[k].duplicate()),
            None => None,
        }
    }

    fn find_user_by_id(&mut self, id: &str) -> (r: Option<AuthUser>) {
        match position_by_id(&self.records, id) {
            Some(k) => Some(self.records[k].duplicate()),
            None => None,
        }
    }

    fn find_user_by_custom_field(&mut self, field_name: &str, value: &str) -> (r: Option<
        AuthUser,
    >) {
        match position_by_field(&self.records, field_name, value) {
            Some(k) => Some(self.records[k].duplicate()),
            None => None,
        }
    }

    fn register_user_by_email(&mut self, user: UserRegisterSchema, now: u64) -> (r: Result<
        GenericResponse,
        RegisterError,
    >) {
        let lowered = lowercase(user.email.as_str());
        match position_by_email(&self.records, lowered.as_str()) {
            Some(_) => Err(RegisterError::AlreadyExists),
            None => {
                proof {
                    lemma_idx_with_email(models_of(self.records@), lowered@);
                }
                let record = create_user_record(user, now);
                let ghost gid = record.id@;
                let ghost rm = record@;
                let ghost before = models_of(self.records@);
                self.records.push(record);
                proof {
                    assert(models_of(self.records@) =~= before.push(rm));
                    assert(models_of(self.records@).drop_last() =~= before);
                    assert(gid.len() == 36 && registered_user(
                        models_of(self.records@).last(),
                        gid,
                        lower_of(user.email@),
                        user.name@,
                        user.password@,
                        now,
                    ));
                }
                Ok(GenericResponse::ok("user registered"))
            },
        }
    }

    fn update_user(&mut self, user: AuthUser) -> (r: bool) {
        match position_by_id(&self.records, user.id.as_str()) {
            Some(k) => {
                let ghost um = user@;
                let ghost before = models_of(self.records@);
                self.records.set(k, user);
                proof {
                    assert(models_of(self.records@) =~= before.update(k as int, um));
                    assert(forall|j: int|
                        0 <= j < before.len() ==> (#[trigger] models_of(self.records@)[j]).email
                            == before[j].email);
                }
                true
            },
            None => false,
        }
    }
}

/// Case normalization at registration: once a record is stored under the
/// normalized form of one spelling, a registration attempt under any other
/// spelling with the same normalized form finds it, and is therefore
/// refused as a conflict by the registration contract.
pub proof fn lemma_register_case_normalized(
    users: Seq<UserModel>,
    e1: Seq<char>,
    e2: Seq<char>,
    m: UserModel,
)
    requires
        lower_of(e1) == lower_of(e2),
        idx_with_email(users, lower_of(e1)) == -1,
        m.email == lower_of(e1),
    ensures
        idx_with_email(users.push(m), lower_of(e2)) >= 0,
{
    lemma_idx_with_email(users.push(m), lower_of(e2));
    if idx_with_email(users.push(m), lower_of(e2)) == -1 {
        assert(users.push(m)[users.len() as int].email == lower_of(e2));
    }
}

} // verus!
