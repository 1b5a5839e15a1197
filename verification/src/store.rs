//! Identity store: the durable account records keyed by email, and the
//! store-level operations the authentication and recovery services rely on.

use vstd::prelude::*;

verus! {

use crate::errors::AuthError;

/// The durable identity record. `password_hash` is absent for accounts that
/// only ever authenticated through a third party; `google_id` is absent for
/// password-only accounts; the reset pair is present only during an active
/// recovery window.
pub struct User {
    pub id: String,
    pub name: String,
    pub email: String,
    pub password_hash: Option<String>,
    pub google_id: Option<String>,
    pub reset_token: Option<String>,
    pub reset_token_expiry: Option<i64>,
}

/// The mathematical image of a `User`.
pub struct UserView {
    pub id: Seq<char>,
    pub name: Seq<char>,
    pub email: Seq<char>,
    pub password_hash: Option<Seq<char>>,
    pub google_id: Option<Seq<char>>,
    pub reset_token: Option<Seq<char>>,
    pub reset_token_expiry: Option<i64>,
}

impl View for User {
    type V = UserView;

    open spec fn view(&self) -> UserView {
        UserView {
            id: self.id@,
            name: self.name@,
            email: self.email@,
            password_hash: match self.password_hash {
                Option::Some(h) => Option::Some(h@),
                Option::None => Option::None,
            },
            google_id: match self.google_id {
                Option::Some(g) => Option::Some(g@),
                Option::None => Option::None,
            },
            reset_token: match self.reset_token {
                Option::Some(t) => Option::Some(t@),
                Option::None => Option::None,
            },
            reset_token_expiry: self.reset_token_expiry,
        }
    }
}

/// The public projection of an identity record: the credential fields are
/// stripped before a record is shown to a caller.
pub struct PublicUser {
    pub id: String,
    pub name: String,
    pub email: String,
}

impl From<User> for PublicUser {
    fn from(user: User) -> (r: PublicUser) {
        PublicUser { id: user.id, name: user.name, email: user.email }
    }
}

impl vstd::std_specs::convert::FromSpecImpl<User> for PublicUser {
    open spec fn obeys_from_spec() -> bool {
        true
    }

    open spec fn from_spec(user: User) -> PublicUser {
        PublicUser { id: user.id, name: user.name, email: user.email }
    }
}

/// Whether `p` is the public projection of the record `u`.
pub open spec fn is_public_of(p: PublicUser, u: UserView) -> bool {
    p.id@ == u.id && p.name@ == u.name && p.email@ == u.email
}

/// A fully onboarded record carries at least one credential: a password hash
/// or a linked third-party identity.
pub open spec fn user_onboarded(u: UserView) -> bool {
    u.password_hash is Some || u.google_id is Some
}

/// What must hold between any two distinct records of a well-formed store:
/// emails and ids never repeat, and a third-party subject or an active reset
/// token belongs to at most one record.
pub open spec fn distinct_records(a: UserView, b: UserView) -> bool {
    &&& a.email != b.email
    &&& a.id != b.id
    &&& (a.google_id is Some ==> a.google_id != b.google_id)
    &&& (a.reset_token is Some ==> a.reset_token != b.reset_token)
}

/// Well-formedness of the store contents.
pub open spec fn store_wf(s: Seq<UserView>) -> bool {
    &&& forall|i: int, j: int|
        #![trigger s[i], s[j]]
        0 <= i < s.len() && 0 <= j < s.len() && i != j ==> distinct_records(s[i], s[j])
    &&& forall|i: int| 0 <= i < s.len() ==> user_onboarded(#[trigger] s[i])
}

/// Some record holds this email.
pub open spec fn has_email(s: Seq<UserView>, email: Seq<char>) -> bool {
    exists|i: int| 0 <= i < s.len() && (#[trigger] s[i]).email == email
}

/// Some record holds this id.
pub open spec fn has_id(s: Seq<UserView>, id: Seq<char>) -> bool {
    exists|i: int| 0 <= i < s.len() && (#[trigger] s[i]).id == id
}

/// Some record is linked to this third-party subject.
pub open spec fn has_google_id(s: Seq<UserView>, gid: Seq<char>) -> bool {
    exists|i: int| 0 <= i < s.len() && (#[trigger] s[i]).google_id == Some(gid)
}

/// Some record carries this reset token.
pub open spec fn has_reset_token(s: Seq<UserView>, token: Seq<char>) -> bool {
    exists|i: int| 0 <= i < s.len() && (#[trigger] s[i]).reset_token == Some(token)
}

/// Relies on uuid's `Uuid::new_v4` and its hyphenated `Display` form: a fresh
/// random opaque identifier of 36 characters; nothing else is promised of it.
#[verifier::external_body]
pub(crate) fn fresh_opaque_string() -> (r: String)
    ensures
        r@.len() == 36,
{
    uuid::Uuid::new_v4().to_string()
}

fn clone_opt_string(o: &Option<String>) -> (r: Option<String>)
    ensures
        r == *o,
{
    match o {
        Some(s) => Some(s.clone()),
        None => None,
    }
}

proof fn lemma_wf_after_push(s: Seq<UserView>, u: UserView)
    requires
        store_wf(s),
        user_onboarded(u),
        !has_email(s, u.email),
        !has_id(s, u.id),
        u.google_id is Some ==> !has_google_id(s, u.google_id->0),
        u.reset_token is Some ==> !has_reset_token(s, u.reset_token->0),
    ensures
        store_wf(s.push(u)),
{
    let s1 = s.push(u);
    assert forall|i: int, j: int|
        #![trigger s1[i], s1[j]]
        0 <= i < s1.len() && 0 <= j < s1.len() && i != j implies distinct_records(s1[i], s1[j]) by {
        if i < s.len() && j < s.len() {
            assert(distinct_records(s[i], s[j]));
        } else if i == s.len() {
            assert(s1[j] == s[j]);
            assert(s1[i] == u);
        } else {
            assert(s1[i] == s[i]);
            assert(s1[j] == u);
        }
    }
    assert forall|i: int| 0 <= i < s1.len() implies user_onboarded(s1[i]) by {
        if i < s.len() {
            assert(user_onboarded(s[i]));
        }
    }
}

proof fn lemma_wf_after_update(s: Seq<UserView>, j: int, u: UserView)
    requires
        store_wf(s),
        0 <= j < s.len(),
        u.email == s[j].email,
        u.id == s[j].id,
        user_onboarded(u),
        u.google_id is Some ==> u.google_id == s[j].google_id || !has_google_id(s, u.google_id->0),
        u.reset_token is Some ==> u.reset_token == s[j].reset_token || !has_reset_token(s, u.reset_token->0),
    ensures
        store_wf(s.update(j, u)),
{
    let s1 = s.update(j, u);
    assert forall|i: int, k: int|
        #![trigger s1[i], s1[k]]
        0 <= i < s1.len() && 0 <= k < s1.len() && i != k implies distinct_records(s1[i], s1[k]) by {
        assert(distinct_records(s[i], s[k]));
        if i == j {
            assert(s1[i] == u && s1[k] == s[k]);
        } else if k == j {
            assert(s1[i] == s[i] && s1[k] == u);
        }
    }
    assert forall|i: int| 0 <= i < s1.len() implies user_onboarded(s1[i]) by {
        if i != j {
            assert(user_onboarded(s[i]));
        }
    }
}

/// The identity store. Backed by a single growable sequence of records; all
/// operations preserve `store_wf`.
pub struct UserStore {
    users: Vec<User>,
}

impl View for UserStore {
    type V = Seq<UserView>;

    closed spec fn view(&self) -> Seq<UserView> {
        self.users@.map_values(|u: User| u@)
    }
}

impl UserStore {
    pub open spec fn wf(&self) -> bool {
        store_wf(self@)
    }

    /// An empty store.
    pub fn new() -> (s: UserStore)
        ensures
            s@ =~= Seq::<UserView>::empty(),
            s.wf(),
    {
        UserStore { users: Vec::new() }
    }

    pub fn len(&self) -> (n: usize)
        ensures
            n == self@.len(),
    {
        self.users.len()
    }

    /// A copy of the record at index `i`.
    pub fn user_at(&self, i: usize) -> (u: User)
        requires
            i < self@.len(),
        ensures
            u@ == self@[i as int],
    {
        let r = &self.users[i];
        User {
            id: r.id.clone(),
            name: r.name.clone(),
            email: r.email.clone(),
            password_hash: clone_opt_string(&r.password_hash),
            google_id: clone_opt_string(&r.google_id),
            reset_token: clone_opt_string(&r.reset_token),
            reset_token_expiry: r.reset_token_expiry,
        }
    }

    /// Looks a record up by its email, the store's natural key.
    pub fn find_by_email(&self, email: &str) -> (r: Option<usize>)
        ensures
            r matches Some(i) ==> i < self@.len() && self@[i as int].email == email@,
            r is Some <==> has_email(self@, email@),
    {
        let key: String = email.to_owned();
        let n = self.users.len();
        let mut i: usize = 0;
        while i < n
            invariant
                n == self@.len(),
                i <= n,
                key@ == email@,
                forall|j: int| 0 <= j < i ==> (#[trigger] self@[j]).email != email@,
            decreases n - i,
        {
            if self.users[i].email == key {
                return Some(i);
            }
            i += 1;
        }
        None
    }

    fn find_by_id(&self, id: &str) -> (r: Option<usize>)
        ensures
            r matches Some(i) ==> i < self@.len() && self@[i as int].id == id@,
            r is Some <==> has_id(self@, id@),
    {
        let key: String = id.to_owned();
        let n = self.users.len();
        let mut i: usize = 0;
        while i < n
            invariant
                n == self@.len(),
                i <= n,
                key@ == id@,
                forall|j: int| 0 <= j < i ==> (#[trigger] self@[j]).id != id@,
            decreases n - i,
        {
            if self.users[i].id == key {
                return Some(i);
            }
            i += 1;
        }
        None
    }

    /// Looks a record up by its linked third-party subject identifier.
    pub fn find_by_google_id(&self, gid: &str) -> (r: Option<usize>)
        ensures
            r matches Some(i) ==> i < self@.len() && self@[i as int].google_id == Some(gid@),
            r is Some <==> has_google_id(self@, gid@),
    {
        let key: String = gid.to_owned();
        let n = self.users.len();
        let mut i: usize = 0;
        while i < n
            invariant
                n == self@.len(),
                i <= n,
                key@ == gid@,
                forall|j: int| 0 <= j < i ==> (#[trigger] self@[j]).google_id != Some(gid@),
            decreases n - i,
        {
            match &self.users[i].google_id {
                Some(g) => {
                    if *g == key {
                        return Some(i);
                    }
                },
                None => {},
            }
            i += 1;
        }
        None
    }

    /// Looks a record up by its active reset token.
    pub fn find_by_reset_token(&self, token: &str) -> (r: Option<usize>)
        ensures
            r matches Some(i) ==> i < self@.len() && self@[i as int].reset_token == Some(token@),
            r is Some <==> has_reset_token(self@, token@),
    {
        let key: String = token.to_owned();
        let n = self.users.len();
        let mut i: usize = 0;
        while i < n
            invariant
                n == self@.len(),
                i <= n,
                key@ == token@,
                forall|j: int| 0 <= j < i ==> (#[trigger] self@[j]).reset_token != Some(token@),
            decreases n - i,
        {
            match &self.users[i].reset_token {
                Some(t) => {
                    if *t == key {
                        return Some(i);
                    }
                },
                None => {},
            }
            i += 1;
        }
        None
    }

    /// Commits a new record. A duplicate email is the caller-visible conflict;
    /// a clash on any other unique field (which only a freak collision of
    /// freshly drawn identifiers could produce) is an internal failure.
    pub fn insert(&mut self, user: User) -> (r: Result<(), AuthError>)
        requires
            old(self).wf(),
            user@.password_hash is Some || user@.google_id is Some,
        ensures
            final(self).wf(),
            r is Err ==> final(self)@ == old(self)@,
            r is Ok ==> final(self)@ =~= old(self)@.push(user@),
            has_email(old(self)@, user@.email) ==> r == Err::<(), AuthError>(AuthError::ConflictError),
            !has_email(old(self)@, user@.email) && r is Err ==> r == Err::<(), AuthError>(
                AuthError::InternalError,
            ),
            !has_email(old(self)@, user@.email) && !has_id(old(self)@, user@.id) && (
            user@.google_id matches Some(g) ==> !has_google_id(old(self)@, g)) && (
            user@.reset_token matches Some(t) ==> !has_reset_token(old(self)@, t)) ==> r is Ok,
    {
        if self.find_by_email(user.email.as_str()).is_some() {
            return Err(AuthError::ConflictError);
        }
        if self.find_by_id(user.id.as_str()).is_some() {
            return Err(AuthError::InternalError);
        }
        match &user.google_id {
            Some(g) => {
                if self.find_by_google_id(g.as_str()).is_some() {
                    return Err(AuthError::InternalError);
                }
            },
            None => {},
        }
        match &user.reset_token {
            Some(t) => {
                if self.find_by_reset_token(t.as_str()).is_some() {
                    return Err(AuthError::InternalError);
                }
            },
            None => {},
        }
        proof {
            lemma_wf_after_push(self@, user@);
        }
        self.users.push(user);
        proof {
            assert(self@ =~= old(self)@.push(user@));
        }
        Ok(())
    }

    /// Links a third-party subject identifier to the record at `i`.
    pub fn set_google_id(&mut self, i: usize, gid: String)
        requires
            old(self).wf(),
            i < old(self)@.len(),
            !has_google_id(old(self)@, gid@),
        ensures
            final(self).wf(),
            final(self)@ =~= old(self)@.update(
                i as int,
                UserView { google_id: Some(gid@), ..old(self)@[i as int] },
            ),
    {
        let ghost target = UserView { google_id: Some(gid@), ..self@[i as int] };
        proof {
            lemma_wf_after_update(self@, i as int, target);
        }
        let r = self.user_at(i);
        let updated = User {
            google_id: Some(gid),
            id: r.id,
            name: r.name,
            email: r.email,
            password_hash: r.password_hash,
            reset_token: r.reset_token,
            reset_token_expiry: r.reset_token_expiry,
        };
        let ghost uv = updated@;
        self.users.set(i, updated);
        proof {
            assert(uv == target);
            assert(self@ =~= old(self)@.update(i as int, target));
        }
    }

    /// Opens a recovery window on the record at `i`: stores the reset token
    /// and its expiry timestamp (epoch milliseconds).
    pub fn update_reset_token(&mut self, i: usize, token: String, expiry: i64)
        requires
            old(self).wf(),
            i < old(self)@.len(),
            !has_reset_token(old(self)@, token@),
        ensures
            final(self).wf(),
            final(self)@ =~= old(self)@.update(
                i as int,
                UserView {
                    reset_token: Some(token@),
                    reset_token_expiry: Some(expiry),
                    ..old(self)@[i as int]
                },
            ),
    {
        let ghost target = UserView {
            reset_token: Some(token@),
            reset_token_expiry: Some(expiry),
            ..self@[i as int]
        };
        proof {
            lemma_wf_after_update(self@, i as int, target);
        }
        let r = self.user_at(i);
        let updated = User {
            reset_token: Some(token),
            reset_token_expiry: Some(expiry),
            id: r.id,
            name: r.name,
            email: r.email,
            password_hash: r.password_hash,
            google_id: r.google_id,
        };
        let ghost uv = updated@;
        self.users.set(i, updated);
        proof {
            assert(uv == target);
            assert(self@ =~= old(self)@.update(i as int, target));
        }
    }

    /// Closes a recovery window on the record at `i`: replaces the password
    /// credential and clears the reset pair, as one store operation.
    pub fn replace_password_and_clear_reset(&mut self, i: usize, hash: String)
        requires
            old(self).wf(),
            i < old(self)@.len(),
        ensures
            final(self).wf(),
            final(self)@ =~= old(self)@.update(
                i as int,
                UserView {
                    password_hash: Some(hash@),
                    reset_token: None,
                    reset_token_expiry: None,
                    ..old(self)@[i as int]
                },
            ),
    {
        let ghost target = UserView {
            password_hash: Some(hash@),
            reset_token: None,
            reset_token_expiry: None,
            ..self@[i as int]
        };
        proof {
            lemma_wf_after_update(self@, i as int, target);
        }
        let r = self.user_at(i);
        let updated = User {
            password_hash: Some(hash),
            reset_token: None,
            reset_token_expiry: None,
            id: r.id,
            name: r.name,
            email: r.email,
            google_id: r.google_id,
        };
        let ghost uv = updated@;
        self.users.set(i, updated);
        proof {
            assert(uv == target);
            assert(self@ =~= old(self)@.update(i as int, target));
        }
    }
}

/// Law: once a record with some email is committed, the store answers lookups
/// for that email; a second signup for it must therefore conflict.
pub proof fn lemma_email_taken_after_push(s: Seq<UserView>, u: UserView)
    ensures
        has_email(s.push(u), u.email),
{
    let s1 = s.push(u);
    assert(s1[s.len() as int].email == u.email);
}

/// Law: a consumed reset token is single-use. If the one record carrying a
/// token (the store being well-formed) is overwritten with a record that
/// carries none, no record of the new store carries that token, so a second
/// completion attempt with it finds nothing.
pub proof fn lemma_reset_token_single_use(s: Seq<UserView>, j: int, u: UserView, token: Seq<char>)
    ensures
        store_wf(s) && 0 <= j < s.len() && s[j].reset_token == Some(token) && u.reset_token is None
            ==> !has_reset_token(s.update(j, u), token),
{
    if store_wf(s) && 0 <= j < s.len() && s[j].reset_token == Some(token)
        && u.reset_token is None {
        let s1 = s.update(j, u);
        assert forall|i: int| 0 <= i < s1.len() implies (#[trigger] s1[i]).reset_token != Some(
            token,
        ) by {
            if i != j {
                assert(distinct_records(s[i], s[j]));
            }
        }
    }
}

} // verus!

