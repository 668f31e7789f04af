//! The User entity and its repository.

use vstd::prelude::*;
use crate::db::Db;
use crate::id::Id;
use crate::message::{Message, MessageFilter, selected, views};
use crate::timestamp::Timestamp;
use crate::StoreError;

verus! {

/// A user. `id` and the timestamps are absent until the row is persisted.
pub struct User {
    pub id: Option<Id>,
    pub display_name: String,
    pub username: String,
    pub password_hash: String,
    pub created_at: Option<Timestamp>,
    pub updated_at: Option<Timestamp>,
}

/// A user's fields as plain values.
pub struct UserView {
    pub id: Option<Id>,
    pub display_name: Seq<char>,
    pub username: Seq<char>,
    pub password_hash: Seq<char>,
    pub created_at: Option<Timestamp>,
    pub updated_at: Option<Timestamp>,
}

impl View for User {
    type V = UserView;

    open spec fn view(&self) -> UserView {
        UserView {
            id: self.id,
            display_name: self.display_name@,
            username: self.username@,
            password_hash: self.password_hash@,
            created_at: self.created_at,
            updated_at: self.updated_at,
        }
    }
}

pub open spec fn user_views(v: Seq<User>) -> Seq<UserView> {
    v.map_values(|u: User| u@)
}

/// Every row is persisted (id and timestamps present) and no two rows share an id.
pub open spec fn user_rows_wf(rows: Seq<UserView>) -> bool {
    &&& forall|i: int|
        0 <= i < rows.len() ==> {
            &&& (#[trigger] rows[i]).id is Some
            &&& rows[i].created_at is Some
            &&& rows[i].updated_at is Some
        }
    &&& forall|i: int, j: int|
        0 <= i < rows.len() && 0 <= j < rows.len() && i != j ==> (#[trigger] rows[i]).id != (
        #[trigger] rows[j]).id
}

pub open spec fn has_user(rows: Seq<UserView>, id: Id) -> bool {
    exists|i: int| 0 <= i < rows.len() && (#[trigger] rows[i]).id == Some(id)
}

/// `u` is the row of `rows` whose id is `id`.
pub open spec fn is_user_row(rows: Seq<UserView>, id: Id, u: UserView) -> bool {
    exists|i: int| 0 <= i < rows.len() && (#[trigger] rows[i]).id == Some(id) && rows[i] == u
}

/// The row that inserting `u` under `id` at time `now` adds.
pub open spec fn inserted_user(u: UserView, id: Id, now: Timestamp) -> UserView {
    UserView { id: Some(id), created_at: Some(now), updated_at: Some(now), ..u }
}

/// Finds the position of the user row with the given id.
fn find_user(db: &Db, id: Id) -> (r: Option<usize>)
    requires
        db.wf(),
    ensures
        r is None <==> !has_user(db.user_rows(), id),
        r matches Some(i) ==> i < db.user_rows().len() && db.user_rows()[i as int].id == Some(id),
{
    let n = db.user_count();
    let mut i: usize = 0;
    while i < n
        invariant
            n == db.user_rows().len(),
            i <= n,
            forall|k: int| 0 <= k < i ==> (#[trigger] db.user_rows()[k]).id != Some(id),
        decreases n - i,
    {
        if db.user_at(i).id == Some(id) {
            return Some(i);
        }
        i += 1;
    }
    None
}

impl User {
    /// An unpersisted user: no id, no timestamps.
    pub fn new(display_name: &str, username: &str, password_hash: &str) -> (r: User)
        ensures
            r.id is None,
            r.display_name@ == display_name@,
            r.username@ == username@,
            r.password_hash@ == password_hash@,
            r.created_at is None,
            r.updated_at is None,
    {
        User {
            id: None,
            display_name: display_name.to_owned(),
            username: username.to_owned(),
            password_hash: password_hash.to_owned(),
            created_at: None,
            updated_at: None,
        }
    }

    pub(crate) fn duplicate(&self) -> (r: User)
        ensures
            r@ == self@,
    {
        User {
            id: self.id,
            display_name: self.display_name.clone(),
            username: self.username.clone(),
            password_hash: self.password_hash.clone(),
            created_at: self.created_at,
            updated_at: self.updated_at,
        }
    }

    /// Persists this user under `id` at time `now` and returns the stored
    /// row; fails with `Constraint` when a user with that id already exists.
    pub fn insert_as(&self, db: &mut Db, id: Id, now: Timestamp) -> (r: Result<User, StoreError>)
        requires
            old(db).wf(),
        ensures
            final(db).wf(),
            final(db).message_rows() == old(db).message_rows(),
            r is Ok <==> !has_user(old(db).user_rows(), id),
            r matches Ok(u) ==> u@ == inserted_user(self@, id, now) && final(db).user_rows()
                == old(db).user_rows().push(u@),
            r matches Err(e) ==> e == StoreError::Constraint && *final(db) == *old(db),
    {
        if find_user(db, id).is_some() {
            return Err(StoreError::Constraint);
        }
        let row = User {
            id: Some(id),
            display_name: self.display_name.clone(),
            username: self.username.clone(),
            password_hash: self.password_hash.clone(),
            created_at: Some(now),
            updated_at: Some(now),
        };
        let out = row.duplicate();
        db.push_user(row);
        proof {
            lemma_get_user_after_insert(old(db).user_rows(), out@);
        }
        Ok(out)
    }

    /// Persists this user under a fresh identifier at the current time.
    pub fn insert(&self, db: &mut Db) -> (r: Result<User, StoreError>)
        requires
            old(db).wf(),
        ensures
            final(db).wf(),
            final(db).message_rows() == old(db).message_rows(),
            old(db).user_rows().len() == 0 ==> r is Ok,
            r matches Ok(u) ==> u.id matches Some(id) && !has_user(old(db).user_rows(), id) && (
            u@ == inserted_user(self@, id, u.created_at->0)) && final(db).user_rows()
                == old(db).user_rows().push(u@),
            r matches Err(e) ==> e == StoreError::Constraint && *final(db) == *old(db),
    {
        self.insert_as(db, Id::generate(), Timestamp::now())
    }

    /// The user stored under `id`; `NotFound` when there is none.
    pub fn get(id: &Id, db: &Db) -> (r: Result<User, StoreError>)
        requires
            db.wf(),
        ensures
            r is Ok <==> has_user(db.user_rows(), *id),
            r matches Ok(u) ==> is_user_row(db.user_rows(), *id, u@),
            r matches Err(e) ==> e == StoreError::NotFound,
    {
        match find_user(db, *id) {
            Some(i) => Ok(db.user_at(i).duplicate()),
            None => Err(StoreError::NotFound),
        }
    }

    pub fn id(&self) -> (r: Option<Id>)
        ensures
            r == self.id,
    {
        self.id
    }

    pub fn display_name(&self) -> (r: &str)
        ensures
            r@ == self.display_name@,
    {
        self.display_name.as_str()
    }

    pub fn username(&self) -> (r: &str)
        ensures
            r@ == self.username@,
    {
        self.username.as_str()
    }

    /// The threads this user started: the root messages they authored, in
    /// store order. `None` for an unpersisted user.
    pub fn messages(&self, db: &Db) -> (r: Option<Vec<Message>>)
        requires
            db.wf(),
        ensures
            self.id is None ==> r is None,
            self.id matches Some(uid) ==> r matches Some(v) && views(v@) == selected(
                db.message_rows(),
                MessageFilter::RootsBy(uid),
            ),
    {
        match self.id {
            None => None,
            Some(uid) => Some(Message::get_for_user(&uid, db)),
        }
    }

    pub fn created_at(&self) -> (r: Option<Timestamp>)
        ensures
            r == self.created_at,
    {
        self.created_at
    }

    pub fn updated_at(&self) -> (r: Option<Timestamp>)
        ensures
            r == self.updated_at,
    {
        self.updated_at
    }
}

/// After an insert, the new id finds exactly the inserted user row.
pub proof fn lemma_get_user_after_insert(rows: Seq<UserView>, u: UserView)
    requires
        user_rows_wf(rows),
        u.id is Some,
        u.created_at is Some,
        u.updated_at is Some,
        !has_user(rows, u.id->0),
    ensures
        user_rows_wf(rows.push(u)),
        is_user_row(rows.push(u), u.id->0, u),
        forall|v: UserView| is_user_row(rows.push(u), u.id->0, v) ==> v == u,
{
    let nrows = rows.push(u);
    assert(nrows[rows.len() as int] == u);
    assert forall|i: int, j: int|
        0 <= i < nrows.len() && 0 <= j < nrows.len() && i != j implies (#[trigger] nrows[i]).id != (
        #[trigger] nrows[j]).id by {
        if i < rows.len() {
            assert(nrows[i] == rows[i]);
        }
        if j < rows.len() {
            assert(nrows[j] == rows[j]);
        }
    }
    assert forall|i: int| 0 <= i < nrows.len() implies (#[trigger] nrows[i]).id is Some
        && nrows[i].created_at is Some && nrows[i].updated_at is Some by {
        if i < rows.len() {
            assert(nrows[i] == rows[i]);
        }
    }
    assert forall|v: UserView| is_user_row(nrows, u.id->0, v) implies v == u by {
        let i = choose|i: int| 0 <= i < nrows.len() && (#[trigger] nrows[i]).id == Some(u.id->0)
            && nrows[i] == v;
        if i < rows.len() {
            assert(nrows[i] == rows[i]);
        }
    }
}

} // verus!
