use vstd::prelude::*;

use crate::error::AppError;
use crate::hasher::digest_of;
use crate::hasher::hash_password;
use crate::hasher::verifies;
use crate::hasher::verify_password;
use crate::hasher::MAX_PASSWORD_CHARS;
use crate::user::SqlUser;
use crate::user::User;

verus! {

/// Registration policy: username and password must each have at least this
/// many characters.
pub const MIN_CREDENTIAL_CHARS: usize = 2;

/// Whether some record in `users` carries `name`.
pub open spec fn spec_has_user(users: Seq<SqlUser>, name: Seq<char>) -> bool {
    exists|i: int| 0 <= i < users.len() && users[i].username@ == name
}

/// The index of the record carrying `name`; unique when usernames are unique.
pub open spec fn spec_user_index(users: Seq<SqlUser>, name: Seq<char>) -> int {
    choose|i: int| 0 <= i < users.len() && users[i].username@ == name
}

/// The record carrying `name`.
pub open spec fn spec_stored(users: Seq<SqlUser>, name: Seq<char>) -> SqlUser {
    users[spec_user_index(users, name)]
}

/// The store's integrity: usernames are unique (the store enforces this as a
/// relational store would, with a unique key on the username column), and the
/// record at index `i` holds id `i + 1`, as rows of an autoincrement table.
pub open spec fn spec_users_wf(users: Seq<SqlUser>) -> bool {
    &&& forall|i: int, j: int|
        0 <= i < j < users.len() ==> users[i].username@ != users[j].username@
    &&& forall|i: int| 0 <= i < users.len() ==> #[trigger] users[i].id == i + 1
}

/// The store cannot assign a fresh row id beyond the id type's range.
pub open spec fn spec_store_full(users: Seq<SqlUser>) -> bool {
    users.len() >= 0x7fff_ffff_ffff_ffff
}

/// What holds of a user accepted by `authenticate`: a record with that
/// username is stored, the password verifies against its stored hash, and
/// the user carries the record's id, username, and the digest embedded in
/// the stored hash as its session auth hash.
pub open spec fn spec_auth_accepts(
    users: Seq<SqlUser>,
    name: Seq<char>,
    password: Seq<char>,
    u: User,
) -> bool {
    &&& spec_has_user(users, name)
    &&& {
        let rec = spec_stored(users, name);
        &&& u.id == rec.id
        &&& u.username@ == rec.username@
        &&& digest_of(rec.pass_hash@) == Some(u.session_auth_hash@)
        &&& verifies(password, rec.pass_hash@)
    }
}

/// When `authenticate` reports `None`: the username is unknown, or the
/// password does not verify against an intact stored hash. The two cases are
/// indistinguishable to the caller, so a caller cannot probe which usernames
/// exist.
pub open spec fn spec_auth_rejects(users: Seq<SqlUser>, name: Seq<char>, password: Seq<char>) -> bool {
    ||| !spec_has_user(users, name)
    ||| (digest_of(spec_stored(users, name).pass_hash@) is Some && !verifies(
        password,
        spec_stored(users, name).pass_hash@,
    ))
}

/// When `authenticate` and `get_user` fail with an internal error: a record
/// with that username is stored but its hash is corrupt, so no digest can be
/// derived from it.
pub open spec fn spec_auth_corrupt(users: Seq<SqlUser>, name: Seq<char>) -> bool {
    spec_has_user(users, name) && digest_of(spec_stored(users, name).pass_hash@) is None
}

/// What holds of a user fetched by `get_user`: the stored record under that
/// username, converted, with the session auth hash derived from the stored
/// hash exactly as the authentication path derives it.
pub open spec fn spec_fetched(users: Seq<SqlUser>, name: Seq<char>, u: User) -> bool {
    &&& spec_has_user(users, name)
    &&& {
        let rec = spec_stored(users, name);
        &&& u.id == rec.id
        &&& u.username@ == rec.username@
        &&& digest_of(rec.pass_hash@) == Some(u.session_auth_hash@)
    }
}

/// What a successful registration did to the store: the username was free, a
/// single record was appended carrying it and the next row id, the password
/// verifies against the new record's hash, and the returned user carries the
/// digest embedded in that hash.
pub open spec fn spec_registered(
    old_users: Seq<SqlUser>,
    new_users: Seq<SqlUser>,
    name: Seq<char>,
    password: Seq<char>,
    u: User,
) -> bool {
    &&& !spec_has_user(old_users, name)
    &&& new_users.len() == old_users.len() + 1
    &&& {
        let rec = new_users.last();
        &&& new_users == old_users.push(rec)
        &&& rec.username@ == name
        &&& rec.id == u.id
        &&& u.id == old_users.len() + 1
        &&& u.username@ == name
        &&& digest_of(rec.pass_hash@) == Some(u.session_auth_hash@)
        &&& verifies(password, rec.pass_hash@)
    }
}

/// The authentication decision over the result of a store lookup. This is
/// the part of `authenticate` that is independent of where the record came
/// from, so a backend over any credential store can fetch the row for the
/// username and let this function decide.
pub fn authenticate_record(record: Option<SqlUser>, password: &str) -> (r: Result<
    Option<User>,
    AppError,
>)
    ensures
        match r {
            Ok(Some(u)) => record matches Some(rec) && u.id == rec.id && u.username@
                == rec.username@ && digest_of(rec.pass_hash@) == Some(u.session_auth_hash@)
                && verifies(password@, rec.pass_hash@),
            Ok(None) => record is None || (record matches Some(rec) && digest_of(rec.pass_hash@)
                is Some && !verifies(password@, rec.pass_hash@)),
            Err(e) => record matches Some(rec) && digest_of(rec.pass_hash@) is None
                && e matches AppError::Internal(_),
        },
{
    match record {
        None => Ok(None),
        Some(rec) => {
            let pass_hash = rec.pass_hash.clone();
            match rec.to_user() {
                Err(e) => Err(e),
                Ok(u) => {
                    if verify_password(password, pass_hash.as_str()) {
                        Ok(Some(u))
                    } else {
                        Ok(None)
                    }
                },
            }
        },
    }
}

/// The availability decision behind the registration form's username check:
/// a name can be registered when no stored record holds it and it is not the
/// banned placeholder name.
pub fn check_username(name: &String, taken: bool) -> (r: bool)
    ensures
        r == (!taken && name@ != "asdf"@),
{
    let banned = String::from_str("asdf");
    !taken && !(*name == banned)
}

/// An authentication backend over an in-memory credential table, enforcing
/// what a relational store enforces with a unique index on the username
/// column: exactly one credential record per username.
#[derive(Clone, Debug)]
pub struct MemoryBackend {
    /// The credential records, one per registered user.
    pub users: Vec<SqlUser>,
}

impl MemoryBackend {
    /// The store's integrity invariant; constructors establish it and every
    /// operation preserves it.
    pub open spec fn wf(self) -> bool {
        spec_users_wf(self.users@)
    }

    /// Create a backend with no registered users.
    pub fn new() -> (r: MemoryBackend)
        ensures
            r.wf(),
            r.users@.len() == 0,
    {
        MemoryBackend { users: Vec::new() }
    }

    /// Find the index of the record carrying `name`, if any.
    fn find_index(&self, name: &String) -> (r: Option<usize>)
        ensures
            match r {
                Some(i) => 0 <= i < self.users@.len() && self.users@[i as int].username@ == name@,
                None => !spec_has_user(self.users@, name@),
            },
    {
        let mut i: usize = 0;
        while i < self.users.len()
            invariant
                i <= self.users@.len(),
                forall|j: int| 0 <= j < i ==> self.users@[j].username@ != name@,
            decreases self.users@.len() - i,
        {
            if self.users[i].username == *name {
                return Some(i);
            }
            i = i + 1;
        }
        None
    }

    /// Insert a new user. Success only if the user does not already exist and
    /// the data meets the length policy; the returned user is already
    /// authenticated. A policy violation is an `Invalid` error; a duplicate
    /// username is surfaced as the store-level conflict it would be in a
    /// relational store, an `Internal` error, and leaves the store unchanged.
    pub fn add_user(&mut self, username: String, password: String) -> (r: Result<
        Option<User>,
        AppError,
    >)
        requires
            old(self).wf(),
            password@.len() <= MAX_PASSWORD_CHARS,
        ensures
            final(self).wf(),
            match r {
                Ok(Some(u)) => username@.len() >= MIN_CREDENTIAL_CHARS && password@.len()
                    >= MIN_CREDENTIAL_CHARS && spec_registered(
                    old(self).users@,
                    final(self).users@,
                    username@,
                    password@,
                    u,
                ),
                Ok(None) => false,
                Err(e) => final(self).users@ == old(self).users@ && match e {
                    AppError::Invalid(_) => username@.len() < MIN_CREDENTIAL_CHARS || password@.len()
                        < MIN_CREDENTIAL_CHARS,
                    AppError::Internal(_) => username@.len() >= MIN_CREDENTIAL_CHARS
                        && password@.len() >= MIN_CREDENTIAL_CHARS && (spec_has_user(
                        old(self).users@,
                        username@,
                    ) || spec_store_full(old(self).users@)),
                    AppError::NotFound => false,
                },
            },
    {
        if username.unicode_len() < MIN_CREDENTIAL_CHARS || password.unicode_len()
            < MIN_CREDENTIAL_CHARS {
            return Err(
                AppError::Invalid(
                    String::from_str("Username and password have to be at least 2 characters each!"),
                ),
            );
        }
        if self.find_index(&username).is_some() {
            return Err(
                AppError::Internal(String::from_str("Error inserting user: username is taken")),
            );
        }
        if self.users.len() as u64 >= 0x7fff_ffff_ffff_ffffu64 {
            return Err(
                AppError::Internal(String::from_str("Error inserting user: store is full")),
            );
        }
        let hashed = match hash_password(password.as_str()) {
            Ok(h) => h,
            Err(e) => {
                return Err(e);
            },
        };
        let id: i64 = (self.users.len() as u64 + 1) as i64;
        let rec = SqlUser { id, username: username.clone(), pass_hash: hashed.encoded };
        self.users.push(rec);
        Ok(Some(User { id, username, session_auth_hash: hashed.digest }))
    }

    /// Look up the user by credentials: fetch the record under the username
    /// and decide. An unknown username and a wrong password both yield
    /// `Ok(None)`, so the result does not betray which usernames exist; only
    /// a corrupt stored hash is an error. A miss does skip hash verification,
    /// so the two outcomes may differ in timing: an accepted, documented
    /// weakness of this backend.
    pub fn authenticate(&self, creds: (String, String)) -> (r: Result<Option<User>, AppError>)
        requires
            self.wf(),
        ensures
            match r {
                Ok(Some(u)) => spec_auth_accepts(self.users@, creds.0@, creds.1@, u),
                Ok(None) => spec_auth_rejects(self.users@, creds.0@, creds.1@),
                Err(e) => spec_auth_corrupt(self.users@, creds.0@) && e matches AppError::Internal(
                    _,
                ),
            },
    {
        let (username, password) = creds;
        let record = match self.find_index(&username) {
            None => None,
            Some(i) => {
                proof {
                    self.lemma_index_is_stored(i as int, username@);
                }
                Some(
                    SqlUser {
                        id: self.users[i].id,
                        username: self.users[i].username.clone(),
                        pass_hash: self.users[i].pass_hash.clone(),
                    },
                )
            },
        };
        authenticate_record(record, password.as_str())
    }

    /// Return `Some(user)` if a record is stored under this id, deriving the
    /// session auth hash exactly as the authentication path derives it, and
    /// `None` otherwise; only a corrupt stored hash is an error.
    pub fn get_user(&self, user_id: &String) -> (r: Result<Option<User>, AppError>)
        requires
            self.wf(),
        ensures
            match r {
                Ok(Some(u)) => spec_fetched(self.users@, user_id@, u),
                Ok(None) => !spec_has_user(self.users@, user_id@),
                Err(e) => spec_auth_corrupt(self.users@, user_id@) && e matches AppError::Internal(
                    _,
                ),
            },
    {
        match self.find_index(user_id) {
            None => Ok(None),
            Some(i) => {
                proof {
                    self.lemma_index_is_stored(i as int, user_id@);
                }
                let rec = SqlUser {
                    id: self.users[i].id,
                    username: self.users[i].username.clone(),
                    pass_hash: self.users[i].pass_hash.clone(),
                };
                match rec.to_user() {
                    Ok(u) => Ok(Some(u)),
                    Err(e) => Err(e),
                }
            },
        }
    }

    /// A record index that carries `name` is the index `spec_stored` speaks
    /// of: in a store with unique usernames the lookup is unambiguous.
    proof fn lemma_index_is_stored(self, i: int, name: Seq<char>)
        requires
            self.wf(),
            0 <= i < self.users@.len(),
            self.users@[i].username@ == name,
        ensures
            spec_has_user(self.users@, name),
            spec_user_index(self.users@, name) == i,
            spec_stored(self.users@, name) == self.users@[i],
    {
        assert(spec_has_user(self.users@, name));
        let k = spec_user_index(self.users@, name);
        assert(0 <= k < self.users@.len() && self.users@[k].username@ == name);
        if k != i {
            assert(self.users@[k].username@ != self.users@[i].username@);
        }
    }
}

/// Registering a user and then authenticating with the same credentials
/// accepts: the rejection and corruption outcomes are impossible against the
/// new store, and every user the new store can accept under that username and
/// password carries the registered username and the registered session auth
/// hash. Together with `authenticate`'s postcondition this forces the result
/// `Ok(Some(u2))` with `u2.username == name`.
pub proof fn lemma_register_then_authenticate(
    old_users: Seq<SqlUser>,
    new_users: Seq<SqlUser>,
    name: Seq<char>,
    password: Seq<char>,
    u: User,
)
    requires
        spec_registered(old_users, new_users, name, password, u),
    ensures
        spec_auth_accepts(new_users, name, password, u),
        !spec_auth_rejects(new_users, name, password),
        !spec_auth_corrupt(new_users, name),
        forall|u2: User|
            spec_auth_accepts(new_users, name, password, u2) ==> u2.username@ == name
                && u2.session_auth_hash@ == u.session_auth_hash@,
{
    let last = old_users.len() as int;
    assert(new_users[last].username@ == name);
    assert(spec_has_user(new_users, name));
    let k = spec_user_index(new_users, name);
    assert(0 <= k < new_users.len() && new_users[k].username@ == name);
    if k != last {
        assert(old_users[k] == new_users[k]);
        assert(spec_has_user(old_users, name));
    }
    assert(spec_stored(new_users, name) == new_users.last());
}

/// Authenticating a registered user with a password that does not verify
/// against the intact stored hash rejects: the result is `None`, never an
/// error, and no user at all can be accepted under that password.
pub proof fn lemma_wrong_password_rejected(
    users: Seq<SqlUser>,
    name: Seq<char>,
    password: Seq<char>,
)
    requires
        spec_has_user(users, name),
        digest_of(spec_stored(users, name).pass_hash@) is Some,
        !verifies(password, spec_stored(users, name).pass_hash@),
    ensures
        spec_auth_rejects(users, name, password),
        !spec_auth_corrupt(users, name),
        forall|u: User| !spec_auth_accepts(users, name, password, u),
{
}

/// Authenticating an unknown username rejects exactly as a wrong password
/// does: the result is `None`, never an error, and no user can be accepted.
/// The caller cannot tell this outcome from a wrong password.
pub proof fn lemma_unknown_user_rejected(users: Seq<SqlUser>, name: Seq<char>, password: Seq<char>)
    requires
        !spec_has_user(users, name),
    ensures
        spec_auth_rejects(users, name, password),
        !spec_auth_corrupt(users, name),
        forall|u: User| !spec_auth_accepts(users, name, password, u),
{
}

/// Fetching the same unchanged user twice yields identical results: the
/// session auth hash is a pure function of the stored record, so two
/// `get_user` results for one store and id agree on id, username and session
/// auth hash.
pub proof fn lemma_get_user_stable(users: Seq<SqlUser>, name: Seq<char>, u1: User, u2: User)
    requires
        spec_fetched(users, name, u1),
        spec_fetched(users, name, u2),
    ensures
        u1.id == u2.id,
        u1.username@ == u2.username@,
        u1.session_auth_hash@ == u2.session_auth_hash@,
{
}

/// The authentication path and the fetch path derive the same identity: a
/// user accepted by `authenticate` and a user fetched by `get_user` for the
/// same store and username carry the same id, username and session auth
/// hash. The session layer's invalidation check relies on this equality.
pub proof fn lemma_session_hash_consistent(
    users: Seq<SqlUser>,
    name: Seq<char>,
    password: Seq<char>,
    u1: User,
    u2: User,
)
    requires
        spec_auth_accepts(users, name, password, u1),
        spec_fetched(users, name, u2),
    ensures
        u1.id == u2.id,
        u1.username@ == u2.username@,
        u1.session_auth_hash@ == u2.session_auth_hash@,
{
}

/// A username registers once: after a successful registration the record is
/// present, so no later registration of the same name can succeed, whatever
/// password it brings. Together with `add_user`'s postcondition this forces
/// the second call to return the store-level conflict, an `Internal` error,
/// leaving the store unchanged.
pub proof fn lemma_duplicate_registration_fails(
    old_users: Seq<SqlUser>,
    new_users: Seq<SqlUser>,
    name: Seq<char>,
    password: Seq<char>,
    u: User,
)
    requires
        spec_registered(old_users, new_users, name, password, u),
    ensures
        spec_has_user(new_users, name),
        forall|newer: Seq<SqlUser>, password2: Seq<char>, u2: User|
            !spec_registered(new_users, newer, name, password2, u2),
{
    let last = old_users.len() as int;
    assert(new_users[last].username@ == name);
    assert(spec_has_user(new_users, name));
}

} // verus!
