//! The user directory: local user records, keyed by a generated id and by a
//! lower-cased email, and the upsert that a login performs.
use vstd::prelude::*;
use crate::provider::GoogleUserResult;
use crate::upsert::{UpsertAction, UpsertFlow};

verus! {

/// What `str::to_lowercase` gives for `s`.
pub uninterp spec fn lower_of(s: Seq<char>) -> Seq<char>;

/// Relies on `str::to_lowercase`: the result depends on the characters alone.
#[verifier::external_body]
fn lowercase(s: &str) -> (r: String)
    ensures
        r@ == lower_of(s@),
{
    s.to_lowercase()
}

/// Relies on `uuid::Uuid::new_v4` and its `Display`, the hyphenated form of
/// 36 characters.
#[verifier::external_body]
fn new_v4_text() -> (r: String)
    ensures
        r@.len() == 36,
{
    uuid::Uuid::new_v4().to_string()
}

/// The form in which an email is stored and looked up.
pub fn normalize_email(email: &str) -> (r: String)
    ensures
        r@ == lower_of(email@),
{
    lowercase(email)
}

/// A new random record id.
pub fn generate_id() -> (r: String)
    ensures
        r@.len() == 36,
{
    new_v4_text()
}

/// A stored user. Times are seconds since the Unix epoch.
pub struct User {
    pub id: String,
    pub google_id: String,
    pub email: String,
    pub user_name: String,
    pub verified: Option<bool>,
    pub provider: String,
    pub photo: String,
    pub created_at: Option<u64>,
    pub updated_at: Option<u64>,
}

pub struct UserView {
    pub id: Seq<char>,
    pub google_id: Seq<char>,
    pub email: Seq<char>,
    pub user_name: Seq<char>,
    pub verified: Option<bool>,
    pub provider: Seq<char>,
    pub photo: Seq<char>,
    pub created_at: Option<u64>,
    pub updated_at: Option<u64>,
}

impl View for User {
    type V = UserView;

    open spec fn view(&self) -> UserView {
        UserView {
            id: self.id@,
            google_id: self.google_id@,
            email: self.email@,
            user_name: self.user_name@,
            verified: self.verified,
            provider: self.provider@,
            photo: self.photo@,
            created_at: self.created_at,
            updated_at: self.updated_at,
        }
    }
}

impl User {
    pub fn cloned(&self) -> (r: User)
        ensures
            r@ == self@,
    {
        User {
            id: self.id.clone(),
            google_id: self.google_id.clone(),
            email: self.email.clone(),
            user_name: self.user_name.clone(),
            verified: self.verified,
            provider: self.provider.clone(),
            photo: self.photo.clone(),
            created_at: self.created_at,
            updated_at: self.updated_at,
        }
    }
}

/// A record to insert; its id is generated on insertion.
pub struct UserData {
    pub id: Option<String>,
    pub google_id: String,
    pub email: String,
    pub user_name: String,
    pub verified: bool,
    pub provider: String,
    pub photo: String,
}

/// New values for the record with id `id`; its update time is set on writing.
pub struct UpdateUserData {
    pub id: String,
    pub google_id: String,
    pub email: String,
    pub user_name: String,
    pub verified: bool,
    pub provider: String,
    pub photo: String,
    pub updated_at: Option<u64>,
}

#[derive(Debug, PartialEq, Eq, Structural, Clone, Copy)]
pub enum DirectoryError {
    /// No record matches.
    NotFound,
    /// An update of a record that was just found touched no row.
    UpdateFailed,
    /// The store refused or failed the write.
    StoreFailed,
    /// An insert met a record that already holds its email.
    DuplicateEmail,
}

pub open spec fn has_email(s: Seq<UserView>, e: Seq<char>) -> bool {
    exists|i: int| 0 <= i < s.len() && s[i].email == e
}

pub open spec fn has_id(s: Seq<UserView>, id: Seq<char>) -> bool {
    exists|i: int| 0 <= i < s.len() && s[i].id == id
}

pub open spec fn email_index(s: Seq<UserView>, e: Seq<char>) -> int {
    choose|i: int| 0 <= i < s.len() && s[i].email == e
}

pub open spec fn id_index(s: Seq<UserView>, id: Seq<char>) -> int {
    choose|i: int| 0 <= i < s.len() && s[i].id == id
}

/// No two records share an id or an email.
pub open spec fn unique_keys(s: Seq<UserView>) -> bool {
    forall|i: int, j: int|
        0 <= i < s.len() && 0 <= j < s.len() && i != j ==> s[i].id != s[j].id && s[i].email != s[j].email
}

/// Some record other than the one with id `id` has email `e`.
pub open spec fn email_taken_elsewhere(s: Seq<UserView>, e: Seq<char>, id: Seq<char>) -> bool {
    exists|i: int| 0 <= i < s.len() && s[i].email == e && s[i].id != id
}

/// The record that inserting `data` under `id` at `now` stores.
pub open spec fn inserted_record(id: Seq<char>, data: UserData, now: u64) -> UserView {
    UserView {
        id,
        google_id: data.google_id@,
        email: data.email@,
        user_name: data.user_name@,
        verified: Some(data.verified),
        provider: data.provider@,
        photo: data.photo@,
        created_at: Some(now),
        updated_at: Some(now),
    }
}

/// The update time written at `now` over a record last updated at `prev`:
/// `now` when it is later, else one second past `prev`, so that update times
/// strictly increase (they stop at the largest stamp).
pub open spec fn next_stamp(prev: Option<u64>, now: u64) -> u64 {
    match prev {
        Some(u0) => if now > u0 {
            now
        } else if u0 < u64::MAX {
            (u0 + 1) as u64
        } else {
            u0
        },
        None => now,
    }
}

/// A stamp, if any, below `bound`.
pub open spec fn stamp_below(stamp: Option<u64>, bound: int) -> bool {
    match stamp {
        Some(u) => u < bound,
        None => true,
    }
}

/// The update time to write at `now` over a record last updated at `prev`.
pub fn stamp_after(prev: Option<u64>, now: u64) -> (r: u64)
    ensures
        r == next_stamp(prev, now),
        r >= now,
        prev matches Some(u0) ==> (u0 < u64::MAX ==> r > u0),
{
    match prev {
        Some(u0) => if now > u0 {
            now
        } else if u0 < u64::MAX {
            u0 + 1
        } else {
            u0
        },
        None => now,
    }
}

/// The record `old` after writing `data` to it at `now`.
pub open spec fn updated_record(old: UserView, data: UpdateUserData, now: u64) -> UserView {
    UserView {
        id: old.id,
        google_id: data.google_id@,
        email: data.email@,
        user_name: data.user_name@,
        verified: Some(data.verified),
        provider: data.provider@,
        photo: data.photo@,
        created_at: old.created_at,
        updated_at: Some(next_stamp(old.updated_at, now)),
    }
}

/// The provider-sourced fields of `ident` for the record with id `id`.
pub open spec fn identity_update_spec(id: Seq<char>, ident: GoogleUserResult) -> (Seq<char>, Seq<char>, Seq<char>, Seq<char>, bool, Seq<char>, Seq<char>) {
    (id, ident.id@, lower_of(ident.email@), ident.name@, ident.verified_email, "Google"@, ident.picture@)
}

pub open spec fn update_data_view(d: UpdateUserData) -> (Seq<char>, Seq<char>, Seq<char>, Seq<char>, bool, Seq<char>, Seq<char>) {
    (d.id@, d.google_id@, d.email@, d.user_name@, d.verified, d.provider@, d.photo@)
}

pub open spec fn insert_data_view(d: UserData) -> (Seq<char>, Seq<char>, Seq<char>, bool, Seq<char>, Seq<char>) {
    (d.google_id@, d.email@, d.user_name@, d.verified, d.provider@, d.photo@)
}

pub open spec fn identity_insert_spec(ident: GoogleUserResult) -> (Seq<char>, Seq<char>, Seq<char>, bool, Seq<char>, Seq<char>) {
    (ident.id@, lower_of(ident.email@), ident.name@, ident.verified_email, "Google"@, ident.picture@)
}

/// The record that a login of `ident` at `now` leaves for a person not yet
/// stored, under the new id `id`.
pub open spec fn new_user_record(id: Seq<char>, ident: GoogleUserResult, now: u64) -> UserView {
    UserView {
        id,
        google_id: ident.id@,
        email: lower_of(ident.email@),
        user_name: ident.name@,
        verified: Some(ident.verified_email),
        provider: "Google"@,
        photo: ident.picture@,
        created_at: Some(now),
        updated_at: Some(now),
    }
}

/// The stored record `old` refreshed from a login of `ident` at `now`.
pub open spec fn refreshed_record(old: UserView, ident: GoogleUserResult, now: u64) -> UserView {
    UserView {
        id: old.id,
        google_id: ident.id@,
        email: lower_of(ident.email@),
        user_name: ident.name@,
        verified: Some(ident.verified_email),
        provider: "Google"@,
        photo: ident.picture@,
        created_at: old.created_at,
        updated_at: Some(next_stamp(old.updated_at, now)),
    }
}

/// The records after a login of `ident` at `now`: the record with its
/// lower-cased email is refreshed, or, when there is none, a new record with id
/// `id` is added.
pub open spec fn upserted(s: Seq<UserView>, ident: GoogleUserResult, id: Seq<char>, now: u64) -> Seq<UserView> {
    let e = lower_of(ident.email@);
    if has_email(s, e) {
        let i = email_index(s, e);
        s.update(i, refreshed_record(s[i], ident, now))
    } else {
        s.push(new_user_record(id, ident, now))
    }
}

/// The update that a login of `ident` writes to the record with id `id`,
/// stamped `stamp`.
pub fn update_for_identity(id: &String, ident: &GoogleUserResult, stamp: u64) -> (r: UpdateUserData)
    ensures
        update_data_view(r) == identity_update_spec(id@, *ident),
        r.updated_at == Some(stamp),
{
    UpdateUserData {
        id: id.clone(),
        google_id: ident.id.clone(),
        email: normalize_email(ident.email.as_str()),
        user_name: ident.name.clone(),
        verified: ident.verified_email,
        provider: "Google".to_owned(),
        photo: ident.picture.clone(),
        updated_at: Some(stamp),
    }
}

/// The record that a first login of `ident` inserts.
pub fn insert_for_identity(ident: &GoogleUserResult) -> (r: UserData)
    ensures
        insert_data_view(r) == identity_insert_spec(*ident),
        r.id is None,
{
    UserData {
        id: None,
        google_id: ident.id.clone(),
        email: normalize_email(ident.email.as_str()),
        user_name: ident.name.clone(),
        verified: ident.verified_email,
        provider: "Google".to_owned(),
        photo: ident.picture.clone(),
    }
}

/// Maps the row count of an update or a delete of a record that should exist:
/// no row touched is an `UpdateFailed`.
pub fn rows_outcome(rows: Result<usize, DirectoryError>) -> (r: Result<usize, DirectoryError>)
    ensures
        rows == Ok::<usize, DirectoryError>(0) ==> r == Err::<usize, DirectoryError>(DirectoryError::UpdateFailed),
        rows matches Ok(n) && n > 0 ==> r == rows,
        rows is Err ==> r == rows,
{
    match rows {
        Ok(n) => if n == 0 {
            Err(DirectoryError::UpdateFailed)
        } else {
            Ok(n)
        },
        Err(e) => Err(e),
    }
}

/// An in-memory store of user records, with the store's uniqueness of ids and
/// of emails.
pub struct UserDirectory {
    users: Vec<User>,
}

impl View for UserDirectory {
    type V = Seq<UserView>;

    closed spec fn view(&self) -> Seq<UserView> {
        self.users@.map_values(|u: User| u@)
    }
}

impl UserDirectory {
    pub open spec fn wf(&self) -> bool {
        unique_keys(self@)
    }

    pub fn new() -> (r: UserDirectory)
        ensures
            r@ == Seq::<UserView>::empty(),
            r.wf(),
    {
        let r = UserDirectory { users: Vec::new() };
        assert(r@ =~= Seq::<UserView>::empty());
        r
    }

    pub fn len(&self) -> (r: usize)
        ensures
            r == self@.len(),
    {
        self.users.len()
    }

    fn position_of_email(&self, email: &String) -> (r: Option<usize>)
        ensures
            r matches Some(i) ==> i < self@.len() && self@[i as int].email == email@,
            r is None ==> !has_email(self@, email@),
    {
        let mut i: usize = 0;
        while i < self.users.len()
            invariant
                i <= self.users@.len(),
                forall|k: int| 0 <= k < i ==> self@[k].email != email@,
            decreases self.users@.len() - i,
        {
            if self.users[i].email == *email {
                return Some(i);
            }
            i = i + 1;
        }
        None
    }

    fn position_of_id(&self, id: &String) -> (r: Option<usize>)
        ensures
            r matches Some(i) ==> i < self@.len() && self@[i as int].id == id@,
            r is None ==> !has_id(self@, id@),
    {
        let mut i: usize = 0;
        while i < self.users.len()
            invariant
                i <= self.users@.len(),
                forall|k: int| 0 <= k < i ==> self@[k].id != id@,
            decreases self.users@.len() - i,
        {
            if self.users[i].id == *id {
                return Some(i);
            }
            i = i + 1;
        }
        None
    }

    /// The record stored under the lower-cased form of `email`.
    pub fn get_users_by_email(&self, email: &str) -> (r: Result<User, DirectoryError>)
        requires
            self.wf(),
        ensures
            has_email(self@, lower_of(email@)) ==> r is Ok && r->Ok_0@ == self@[email_index(self@, lower_of(email@))],
            !has_email(self@, lower_of(email@)) ==> r == Err::<User, DirectoryError>(DirectoryError::NotFound),
    {
        let e = normalize_email(email);
        match self.position_of_email(&e) {
            Some(i) => {
                proof { lemma_email_index_unique(self@, e@, i as int); }
                Ok(self.users[i].cloned())
            },
            None => Err(DirectoryError::NotFound),
        }
    }

    /// The record with id `id`.
    pub fn get_users_by_id(&self, id: &str) -> (r: Result<User, DirectoryError>)
        requires
            self.wf(),
        ensures
            has_id(self@, id@) ==> r is Ok && r->Ok_0@ == self@[id_index(self@, id@)],
            !has_id(self@, id@) ==> r == Err::<User, DirectoryError>(DirectoryError::NotFound),
    {
        let key = id.to_owned();
        match self.position_of_id(&key) {
            Some(i) => {
                proof { lemma_id_index_unique(self@, key@, i as int); }
                Ok(self.users[i].cloned())
            },
            None => Err(DirectoryError::NotFound),
        }
    }

    /// The id and email of every record, in store order.
    pub fn get_users(&self) -> (r: Vec<(String, String)>)
        ensures
            r@.len() == self@.len(),
            forall|i: int| 0 <= i < r@.len() ==> r@[i].0@ == self@[i].id && r@[i].1@ == self@[i].email,
    {
        let mut out: Vec<(String, String)> = Vec::new();
        let mut i: usize = 0;
        while i < self.users.len()
            invariant
                i <= self.users@.len(),
                out@.len() == i,
                forall|k: int| 0 <= k < i ==> out@[k].0@ == self@[k].id && out@[k].1@ == self@[k].email,
            decreases self.users@.len() - i,
        {
            out.push((self.users[i].id.clone(), self.users[i].email.clone()));
            i = i + 1;
        }
        out
    }

    /// Every record, in store order.
    pub fn get_users_load(&self) -> (r: Vec<User>)
        ensures
            r@.len() == self@.len(),
            forall|i: int| 0 <= i < r@.len() ==> r@[i]@ == self@[i],
    {
        let mut out: Vec<User> = Vec::new();
        let mut i: usize = 0;
        while i < self.users.len()
            invariant
                i <= self.users@.len(),
                out@.len() == i,
                forall|k: int| 0 <= k < i ==> out@[k]@ == self@[k],
            decreases self.users@.len() - i,
        {
            out.push(self.users[i].cloned());
            i = i + 1;
        }
        out
    }

    /// Inserts `data` under `id` at time `now`. The store refuses an email
    /// already held (`DuplicateEmail`) and an id already used (`StoreFailed`).
    pub fn insert_with_id(&mut self, id: String, data: UserData, now: u64) -> (r: Result<String, DirectoryError>)
        requires
            old(self).wf(),
        ensures
            final(self).wf(),
            r is Err <==> (has_id(old(self)@, id@) || has_email(old(self)@, data.email@)),
            r matches Ok(x) ==> x@ == id@ && final(self)@ == old(self)@.push(inserted_record(id@, data, now)),
            r is Err ==> final(self)@ == old(self)@,
            has_email(old(self)@, data.email@) ==> r == Err::<String, DirectoryError>(DirectoryError::DuplicateEmail),
            !has_email(old(self)@, data.email@) && has_id(old(self)@, id@)
                ==> r == Err::<String, DirectoryError>(DirectoryError::StoreFailed),
    {
        if self.position_of_email(&data.email).is_some() {
            return Err(DirectoryError::DuplicateEmail);
        }
        if self.position_of_id(&id).is_some() {
            return Err(DirectoryError::StoreFailed);
        }
        let record = User {
            id: id.clone(),
            google_id: data.google_id,
            email: data.email,
            user_name: data.user_name,
            verified: Some(data.verified),
            provider: data.provider,
            photo: data.photo,
            created_at: Some(now),
            updated_at: Some(now),
        };
        assert(record@ == inserted_record(id@, data, now));
        self.users.push(record);
        assert(self@ =~= old(self)@.push(inserted_record(id@, data, now)));
        Ok(id)
    }

    /// Inserts `data` under a newly generated id at time `now` and returns that id.
    pub fn create_users(&mut self, data: UserData, now: u64) -> (r: Result<String, DirectoryError>)
        requires
            old(self).wf(),
        ensures
            final(self).wf(),
            r matches Ok(id) ==> id@.len() == 36 && !has_id(old(self)@, id@) && !has_email(old(self)@, data.email@)
                && final(self)@ == old(self)@.push(inserted_record(id@, data, now)),
            has_email(old(self)@, data.email@) ==> r == Err::<String, DirectoryError>(DirectoryError::DuplicateEmail),
            r is Err ==> final(self)@ == old(self)@,
            r matches Err(e) ==> (e == DirectoryError::DuplicateEmail && has_email(old(self)@, data.email@))
                || (e == DirectoryError::StoreFailed && !has_email(old(self)@, data.email@)
                    && exists|k: Seq<char>| k.len() == 36 && has_id(old(self)@, k)),
    {
        let id = generate_id();
        self.insert_with_id(id, data, now)
    }

    /// Writes `data` over the record with id `data.id` at time `now`; the count
    /// of records touched comes back. The record's update time moves to
    /// `next_stamp` of its last one, so it strictly increases (short of the
    /// largest stamp); `data.updated_at` is not read. The store refuses an email
    /// that another record holds.
    pub fn update_users(&mut self, data: UpdateUserData, now: u64) -> (r: Result<usize, DirectoryError>)
        requires
            old(self).wf(),
        ensures
            final(self).wf(),
            !has_id(old(self)@, data.id@) ==> r == Ok::<usize, DirectoryError>(0) && final(self)@ == old(self)@,
            has_id(old(self)@, data.id@) && email_taken_elsewhere(old(self)@, data.email@, data.id@)
                ==> r == Err::<usize, DirectoryError>(DirectoryError::StoreFailed) && final(self)@ == old(self)@,
            has_id(old(self)@, data.id@) && !email_taken_elsewhere(old(self)@, data.email@, data.id@)
                ==> r == Ok::<usize, DirectoryError>(1) && final(self)@ == old(self)@.update(
                    id_index(old(self)@, data.id@),
                    updated_record(old(self)@[id_index(old(self)@, data.id@)], data, now),
                ),
            r == Ok::<usize, DirectoryError>(1) ==> ({
                let i = id_index(old(self)@, data.id@);
                old(self)@[i].updated_at matches Some(u0) ==> (u0 < u64::MAX ==>
                    (final(self)@[i].updated_at matches Some(u1) && u1 > u0))
            }),
    {
        let i = match self.position_of_id(&data.id) {
            Some(i) => i,
            None => return Ok(0),
        };
        proof { lemma_id_index_unique(self@, data.id@, i as int); }
        match self.position_of_email(&data.email) {
            Some(j) => {
                if j != i {
                    return Err(DirectoryError::StoreFailed);
                }
            },
            None => {},
        }
        assert(!email_taken_elsewhere(self@, data.email@, data.id@)) by {
            if email_taken_elsewhere(self@, data.email@, data.id@) {
                let k = choose|k: int| 0 <= k < self@.len() && self@[k].email == data.email@ && self@[k].id != data.id@;
                assert(k != i);
            }
        }
        let ghost before = self@;
        let created_at = self.users[i].created_at;
        let stamp = stamp_after(self.users[i].updated_at, now);
        let record = User {
            id: data.id,
            google_id: data.google_id,
            email: data.email,
            user_name: data.user_name,
            verified: Some(data.verified),
            provider: data.provider,
            photo: data.photo,
            created_at,
            updated_at: Some(stamp),
        };
        assert(record@ == updated_record(before[i as int], data, now));
        self.users.set(i, record);
        assert(self@ =~= before.update(i as int, updated_record(before[i as int], data, now)));
        proof { lemma_update_keeps_unique(before, i as int, updated_record(before[i as int], data, now)); }
        Ok(1)
    }

    /// Removes the record with id `id`; the count of records removed comes back.
    pub fn delete_users_by_id(&mut self, id: &str) -> (r: Result<usize, DirectoryError>)
        requires
            old(self).wf(),
        ensures
            final(self).wf(),
            !has_id(old(self)@, id@) ==> r == Ok::<usize, DirectoryError>(0) && final(self)@ == old(self)@,
            has_id(old(self)@, id@) ==> r == Ok::<usize, DirectoryError>(1)
                && final(self)@ == old(self)@.remove(id_index(old(self)@, id@)),
    {
        let key = id.to_owned();
        match self.position_of_id(&key) {
            Some(i) => {
                proof { lemma_id_index_unique(self@, key@, i as int); }
                let ghost before = self@;
                self.users.remove(i);
                assert(self@ =~= before.remove(i as int));
                assert(unique_keys(self@)) by {
                    assert forall|a: int, b: int|
                        0 <= a < self@.len() && 0 <= b < self@.len() && a != b implies
                        self@[a].id != self@[b].id && self@[a].email != self@[b].email by {
                        let a0 = if a < i { a } else { a + 1 };
                        let b0 = if b < i { b } else { b + 1 };
                        assert(self@[a] == before[a0] && self@[b] == before[b0]);
                    }
                }
                Ok(1)
            },
            None => Ok(0),
        }
    }

    /// Records a login of `ident` at time `now`, by the steps of `UpsertFlow`:
    /// refreshes every provider-sourced field of the record with the lower-cased
    /// email, or inserts a new record under a new id. The id of the record comes
    /// back.
    pub fn upsert(&mut self, ident: GoogleUserResult, now: u64) -> (r: Result<String, DirectoryError>)
        requires
            old(self).wf(),
        ensures
            final(self).wf(),
            has_email(old(self)@, lower_of(ident.email@)) ==> r is Ok
                && r->Ok_0@ == old(self)@[email_index(old(self)@, lower_of(ident.email@))].id,
            r matches Ok(id) ==> final(self)@ == upserted(old(self)@, ident, id@, now),
            r matches Ok(id) ==> (!has_email(old(self)@, lower_of(ident.email@)) ==> !has_id(old(self)@, id@)),
            r matches Err(e) ==> e == DirectoryError::StoreFailed && final(self)@ == old(self)@
                && !has_email(old(self)@, lower_of(ident.email@))
                && exists|k: Seq<char>| k.len() == 36 && has_id(old(self)@, k),
    {
        let ghost before = self@;
        let (mut flow, _lookup) = UpsertFlow::start(ident, now);
        let found = self.get_users_by_email(flow.identity.email.as_str());
        match flow.on_lookup(found) {
            UpsertAction::Update(data) => {
                proof {
                    let e = lower_of(ident.email@);
                    let i = email_index(before, e);
                    lemma_id_index_unique(before, data.id@, i);
                    if email_taken_elsewhere(before, data.email@, data.id@) {
                        let k = choose|k: int| 0 <= k < before.len() && before[k].email == data.email@ && before[k].id != data.id@;
                        assert(k != i);
                    }
                }
                let rows = self.update_users(data, now);
                assert(self@ =~= upserted(before, ident, data.id@, now));
                match flow.on_updated(rows) {
                    UpsertAction::Finish(r) => r,
                    _ => Err(DirectoryError::StoreFailed),
                }
            },
            UpsertAction::Insert(data) => {
                let inserted = self.create_users(data, now);
                proof {
                    if inserted is Ok {
                        assert(inserted_record(inserted->Ok_0@, data, now) == new_user_record(inserted->Ok_0@, ident, now));
                    }
                }
                match flow.on_inserted(inserted) {
                    UpsertAction::Finish(r) => r,
                    _ => Err(DirectoryError::StoreFailed),
                }
            },
            UpsertAction::Finish(r) => r,
            UpsertAction::Lookup { .. } => Err(DirectoryError::StoreFailed),
        }
    }
}

proof fn lemma_email_index_unique(s: Seq<UserView>, e: Seq<char>, i: int)
    requires
        unique_keys(s),
        0 <= i < s.len(),
        s[i].email == e,
    ensures
        has_email(s, e),
        email_index(s, e) == i,
{
    assert(has_email(s, e));
}

proof fn lemma_id_index_unique(s: Seq<UserView>, id: Seq<char>, i: int)
    requires
        unique_keys(s),
        0 <= i < s.len(),
        s[i].id == id,
    ensures
        has_id(s, id),
        id_index(s, id) == i,
{
    assert(has_id(s, id));
}

/// Replacing record `i` by one that keeps its id, and whose email no other record
/// holds, keeps ids and emails unique.
proof fn lemma_update_keeps_unique(s: Seq<UserView>, i: int, v: UserView)
    requires
        unique_keys(s),
        0 <= i < s.len(),
        v.id == s[i].id,
        forall|k: int| 0 <= k < s.len() && k != i ==> s[k].email != v.email,
    ensures
        unique_keys(s.update(i, v)),
{
}

/// A login keeps ids and emails unique, and afterwards exactly one record holds
/// its lower-cased email: the refreshed record, or the new one.
proof fn lemma_upserted_record(s: Seq<UserView>, ident: GoogleUserResult, id: Seq<char>, now: u64)
    requires
        unique_keys(s),
        !has_email(s, lower_of(ident.email@)) ==> !has_id(s, id),
    ensures
        unique_keys(upserted(s, ident, id, now)),
        has_email(upserted(s, ident, id, now), lower_of(ident.email@)),
        has_email(s, lower_of(ident.email@)) ==> upserted(s, ident, id, now).len() == s.len()
            && email_index(upserted(s, ident, id, now), lower_of(ident.email@)) == email_index(s, lower_of(ident.email@))
            && upserted(s, ident, id, now)[email_index(s, lower_of(ident.email@))]
                == refreshed_record(s[email_index(s, lower_of(ident.email@))], ident, now),
        !has_email(s, lower_of(ident.email@)) ==> upserted(s, ident, id, now).len() == s.len() + 1
            && email_index(upserted(s, ident, id, now), lower_of(ident.email@)) == s.len()
            && upserted(s, ident, id, now)[s.len() as int] == new_user_record(id, ident, now),
{
    let e = lower_of(ident.email@);
    let t = upserted(s, ident, id, now);
    if has_email(s, e) {
        let i = email_index(s, e);
        lemma_update_keeps_unique(s, i, refreshed_record(s[i], ident, now));
        lemma_email_index_unique(t, e, i);
    } else {
        let n = s.len() as int;
        assert(unique_keys(t)) by {
            assert forall|a: int, b: int| 0 <= a < t.len() && 0 <= b < t.len() && a != b implies
                t[a].id != t[b].id && t[a].email != t[b].email by {
                if a == n {
                    assert(t[b] == s[b]);
                } else if b == n {
                    assert(t[a] == s[a]);
                }
            }
        }
        lemma_email_index_unique(t, e, n);
    }
}

/// A login whose lower-cased email no record holds, given an id that no record
/// uses, adds exactly one record: it has that id and that email, and every
/// earlier record is left as it was.
pub proof fn lemma_upsert_new_email_adds_one_record(s: Seq<UserView>, ident: GoogleUserResult, id: Seq<char>, now: u64)
    requires
        unique_keys(s),
        !has_email(s, lower_of(ident.email@)),
        !has_id(s, id),
    ensures
        upserted(s, ident, id, now).len() == s.len() + 1,
        upserted(s, ident, id, now).subrange(0, s.len() as int) == s,
        upserted(s, ident, id, now)[s.len() as int].id == id,
        upserted(s, ident, id, now)[s.len() as int].email == lower_of(ident.email@),
        unique_keys(upserted(s, ident, id, now)),
{
    lemma_upserted_record(s, ident, id, now);
    assert(upserted(s, ident, id, now).subrange(0, s.len() as int) =~= s);
}

/// Two logins with the same lower-cased email leave exactly one record for
/// that email. It keeps its id, carries the display name of the second login,
/// and its update time strictly increases from the first login to the second,
/// reaching at least the second login's time. Excluded are update times at the
/// top of the range, where no later stamp exists: a first login at the largest
/// time, or a stored stamp within one second of the largest.
pub proof fn lemma_upsert_twice_keeps_one_record(
    s: Seq<UserView>,
    first: GoogleUserResult,
    second: GoogleUserResult,
    id1: Seq<char>,
    id2: Seq<char>,
    t1: u64,
    t2: u64,
)
    requires
        unique_keys(s),
        lower_of(first.email@) == lower_of(second.email@),
        !has_email(s, lower_of(first.email@)) ==> !has_id(s, id1),
        t1 < u64::MAX,
        has_email(s, lower_of(first.email@)) ==> stamp_below(s[email_index(s, lower_of(first.email@))].updated_at, u64::MAX - 1),
    ensures
        ({
            let e = lower_of(first.email@);
            let s1 = upserted(s, first, id1, t1);
            let s2 = upserted(s1, second, id2, t2);
            &&& has_email(s2, e)
            &&& forall|i: int, j: int| 0 <= i < s2.len() && 0 <= j < s2.len() && s2[i].email == e && s2[j].email == e ==> i == j
            &&& s2.len() == s1.len()
            &&& s2[email_index(s2, e)].id == s1[email_index(s1, e)].id
            &&& s2[email_index(s2, e)].user_name == second.name@
            &&& s1[email_index(s1, e)].updated_at matches Some(u1)
            &&& s2[email_index(s2, e)].updated_at matches Some(u2)
            &&& u2 > u1
            &&& u2 >= t2
        }),
{
    let e = lower_of(first.email@);
    let s1 = upserted(s, first, id1, t1);
    lemma_upserted_record(s, first, id1, t1);
    lemma_upserted_record(s1, second, id2, t2);
}

} // verus!
