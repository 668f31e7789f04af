//! The Message entity, its repository, and its thread-aware queries.

use vstd::prelude::*;
use crate::db::Db;
use crate::id::Id;
use crate::timestamp::Timestamp;
use crate::StoreError;

verus! {

/// A message. `parent_message_id` is `None` for a root message and names
/// the replied-to message otherwise. `id` and the timestamps are absent
/// until the row is persisted.
pub struct Message {
    pub id: Option<Id>,
    pub user_id: Id,
    pub content: String,
    pub parent_message_id: Option<Id>,
    pub created_at: Option<Timestamp>,
    pub updated_at: Option<Timestamp>,
}

/// A message's fields as plain values.
pub struct MessageView {
    pub id: Option<Id>,
    pub user_id: Id,
    pub content: Seq<char>,
    pub parent_message_id: Option<Id>,
    pub created_at: Option<Timestamp>,
    pub updated_at: Option<Timestamp>,
}

impl View for Message {
    type V = MessageView;

    open spec fn view(&self) -> MessageView {
        MessageView {
            id: self.id,
            user_id: self.user_id,
            content: self.content@,
            parent_message_id: self.parent_message_id,
            created_at: self.created_at,
            updated_at: self.updated_at,
        }
    }
}

pub open spec fn views(v: Seq<Message>) -> Seq<MessageView> {
    v.map_values(|m: Message| m@)
}

/// Every row is persisted (id and timestamps present) and no two rows share an id.
pub open spec fn message_rows_wf(rows: Seq<MessageView>) -> bool {
    &&& forall|i: int|
        0 <= i < rows.len() ==> {
            &&& (#[trigger] rows[i]).id is Some
            &&& rows[i].created_at is Some
            &&& rows[i].updated_at is Some
        }
    &&& forall|i: int, j: int|
        0 <= i < rows.len() && 0 <= j < rows.len() && i != j ==> (#[trigger] rows[i]).id != (
        #[trigger] rows[j]).id
}

pub open spec fn has_message(rows: Seq<MessageView>, id: Id) -> bool {
    exists|i: int| 0 <= i < rows.len() && (#[trigger] rows[i]).id == Some(id)
}

/// `m` is the row of `rows` whose id is `id`.
pub open spec fn is_message_row(rows: Seq<MessageView>, id: Id, m: MessageView) -> bool {
    exists|i: int| 0 <= i < rows.len() && (#[trigger] rows[i]).id == Some(id) && rows[i] == m
}

/// The row that inserting `m` under `id` at time `now` adds.
pub open spec fn inserted_message(m: MessageView, id: Id, now: Timestamp) -> MessageView {
    MessageView { id: Some(id), created_at: Some(now), updated_at: Some(now), ..m }
}

/// A row condition of the message queries.
pub enum MessageFilter {
    /// Replies to the given message.
    ChildrenOf(Id),
    /// Messages created within `[after, before]`, by `user_id` where given.
    Range { user_id: Option<Id>, after: Timestamp, before: Timestamp },
    /// Root messages authored by the given user.
    RootsBy(Id),
}

impl MessageFilter {
    pub open spec fn admits(self, m: MessageView) -> bool {
        match self {
            MessageFilter::ChildrenOf(p) => m.parent_message_id == Some(p),
            MessageFilter::Range { user_id, after, before } => {
                &&& m.created_at matches Some(t) && after.unix_nanos <= t.unix_nanos
                    && t.unix_nanos <= before.unix_nanos
                &&& (user_id matches Some(u) ==> m.user_id == u)
            },
            MessageFilter::RootsBy(u) => m.user_id == u && m.parent_message_id is None,
        }
    }

    pub open spec fn admits_fn(self) -> spec_fn(MessageView) -> bool {
        |m: MessageView| self.admits(m)
    }

    fn test(&self, m: &Message) -> (r: bool)
        ensures
            r == self.admits(m@),
    {
        match self {
            MessageFilter::ChildrenOf(p) => m.parent_message_id == Some(*p),
            MessageFilter::Range { user_id, after, before } => {
                let in_range = match m.created_at {
                    Some(t) => t.within(*after, *before),
                    None => false,
                };
                let by_user = match user_id {
                    Some(u) => m.user_id == *u,
                    None => true,
                };
                in_range && by_user
            },
            MessageFilter::RootsBy(u) => m.user_id == *u && m.parent_message_id.is_none(),
        }
    }
}

/// The rows that `f` admits, in store order.
pub open spec fn selected(rows: Seq<MessageView>, f: MessageFilter) -> Seq<MessageView> {
    rows.filter(f.admits_fn())
}

/// Finds the position of the message row with the given id.
fn find_message(db: &Db, id: Id) -> (r: Option<usize>)
    requires
        db.wf(),
    ensures
        r is None <==> !has_message(db.message_rows(), id),
        r matches Some(i) ==> i < db.message_rows().len() && db.message_rows()[i as int].id == Some(
            id,
        ),
{
    let n = db.message_count();
    let mut i: usize = 0;
    while i < n
        invariant
            n == db.message_rows().len(),
            i <= n,
            forall|k: int| 0 <= k < i ==> (#[trigger] db.message_rows()[k]).id != Some(id),
        decreases n - i,
    {
        if db.message_at(i).id == Some(id) {
            return Some(i);
        }
        i += 1;
    }
    None
}

/// The messages that `f` admits, in store order.
fn select(db: &Db, f: &MessageFilter) -> (r: Vec<Message>)
    ensures
        views(r@) == selected(db.message_rows(), *f),
{
    let ghost rows = db.message_rows();
    let n = db.message_count();
    let mut out: Vec<Message> = Vec::new();
    let mut i: usize = 0;
    while i < n
        invariant
            rows == db.message_rows(),
            n == rows.len(),
            i <= n,
            views(out@) == selected(rows.take(i as int), *f),
        decreases n - i,
    {
        let m = db.message_at(i);
        let ghost before = out@;
        if f.test(m) {
            out.push(m.duplicate());
            proof {
                assert(views(out@) =~= views(before).push(m@));
            }
        }
        proof {
            let s = rows.take(i + 1);
            reveal(Seq::filter);
            assert(s.drop_last() =~= rows.take(i as int));
            assert(s.last() == m@);
            assert(selected(s, *f) == if f.admits(m@) {
                selected(rows.take(i as int), *f).push(m@)
            } else {
                selected(rows.take(i as int), *f)
            });
        }
        i += 1;
    }
    proof {
        assert(rows.take(n as int) =~= rows);
    }
    out
}

impl Message {
    /// An unpersisted message: no id, no timestamps.
    pub fn new(user_id: Id, content: &str, parent_message_id: Option<Id>) -> (r: Message)
        ensures
            r.id is None,
            r.user_id == user_id,
            r.content@ == content@,
            r.parent_message_id == parent_message_id,
            r.created_at is None,
            r.updated_at is None,
    {
        Message {
            id: None,
            user_id,
            content: content.to_owned(),
            parent_message_id,
            created_at: None,
            updated_at: None,
        }
    }

    pub(crate) fn duplicate(&self) -> (r: Message)
        ensures
            r@ == self@,
    {
        Message {
            id: self.id,
            user_id: self.user_id,
            content: self.content.clone(),
            parent_message_id: self.parent_message_id,
            created_at: self.created_at,
            updated_at: self.updated_at,
        }
    }

    /// Persists this message under `id` at time `now` and returns the stored
    /// row; fails with `Constraint` when a message with that id exists.
    pub fn insert_as(&self, db: &mut Db, id: Id, now: Timestamp) -> (r: Result<Message, StoreError>)
        requires
            old(db).wf(),
        ensures
            final(db).wf(),
            final(db).user_rows() == old(db).user_rows(),
            r is Ok <==> !has_message(old(db).message_rows(), id),
            r matches Ok(m) ==> m@ == inserted_message(self@, id, now) && final(db).message_rows()
                == old(db).message_rows().push(m@),
            r matches Err(e) ==> e == StoreError::Constraint && *final(db) == *old(db),
    {
        if find_message(db, id).is_some() {
            return Err(StoreError::Constraint);
        }
        let row = Message {
            id: Some(id),
            user_id: self.user_id,
            content: self.content.clone(),
            parent_message_id: self.parent_message_id,
            created_at: Some(now),
            updated_at: Some(now),
        };
        let out = row.duplicate();
        db.push_message(row);
        proof {
            lemma_get_after_insert(old(db).message_rows(), out@);
        }
        Ok(out)
    }

    /// Persists this message under a fresh identifier at the current time.
    pub fn insert(&self, db: &mut Db) -> (r: Result<Message, StoreError>)
        requires
            old(db).wf(),
        ensures
            final(db).wf(),
            final(db).user_rows() == old(db).user_rows(),
            old(db).message_rows().len() == 0 ==> r is Ok,
            r matches Ok(m) ==> m.id matches Some(id) && !has_message(old(db).message_rows(), id)
                && m@ == inserted_message(self@, id, m.created_at->0) && final(db).message_rows()
                == old(db).message_rows().push(m@),
            r matches Err(e) ==> e == StoreError::Constraint && *final(db) == *old(db),
    {
        self.insert_as(db, Id::generate(), Timestamp::now())
    }

    /// Replaces the content of the message stored under `id` and returns the
    /// updated row; `NotFound` when there is none.
    pub fn update(id: &Id, new_content: String, db: &mut Db) -> (r: Result<Message, StoreError>)
        requires
            old(db).wf(),
        ensures
            final(db).wf(),
            final(db).user_rows() == old(db).user_rows(),
            r is Ok <==> has_message(old(db).message_rows(), *id),
            r matches Ok(m) ==> exists|i: int|
                0 <= i < old(db).message_rows().len() && (#[trigger] old(db).message_rows()[i]).id
                    == Some(*id) && m@ == (MessageView {
                    content: new_content@,
                    ..old(db).message_rows()[i]
                }) && final(db).message_rows() == old(db).message_rows().update(i, m@),
            r matches Err(e) ==> e == StoreError::NotFound && *final(db) == *old(db),
    {
        match find_message(db, *id) {
            None => Err(StoreError::NotFound),
            Some(i) => {
                let cur = db.message_at(i);
                let row = Message {
                    id: cur.id,
                    user_id: cur.user_id,
                    content: new_content,
                    parent_message_id: cur.parent_message_id,
                    created_at: cur.created_at,
                    updated_at: cur.updated_at,
                };
                let out = row.duplicate();
                db.replace_message(i, row);
                proof {
                    let rows = old(db).message_rows();
                    let nrows = final(db).message_rows();
                    assert forall|a: int| 0 <= a < nrows.len() implies (#[trigger] nrows[a]).id
                        == rows[a].id && nrows[a].created_at == rows[a].created_at
                        && nrows[a].updated_at == rows[a].updated_at by {}
                    assert forall|a: int, b: int|
                        0 <= a < nrows.len() && 0 <= b < nrows.len() && a != b implies (
                        #[trigger] nrows[a]).id != (#[trigger] nrows[b]).id by {
                        assert(rows[a].id != rows[b].id);
                    }
                }
                Ok(out)
            },
        }
    }

    /// The message stored under `id`; `NotFound` when there is none.
    pub fn get(id: &Id, db: &Db) -> (r: Result<Message, StoreError>)
        requires
            db.wf(),
        ensures
            r is Ok <==> has_message(db.message_rows(), *id),
            r matches Ok(m) ==> is_message_row(db.message_rows(), *id, m@),
            r matches Err(e) ==> e == StoreError::NotFound,
    {
        match find_message(db, *id) {
            Some(i) => Ok(db.message_at(i).duplicate()),
            None => Err(StoreError::NotFound),
        }
    }

    /// The messages created within `[after, before]` (both ends included),
    /// only those by `user_id` where one is given; possibly empty.
    pub fn get_by_time_range(
        user_id: Option<&Id>,
        time_range: (Timestamp, Timestamp),
        db: &Db,
    ) -> (r: Vec<Message>)
        ensures
            views(r@) == selected(
                db.message_rows(),
                MessageFilter::Range {
                    user_id: match user_id {
                        Some(u) => Some(*u),
                        None => None,
                    },
                    after: time_range.0,
                    before: time_range.1,
                },
            ),
    {
        let u = match user_id {
            Some(u) => Some(*u),
            None => None,
        };
        let (after, before) = time_range;
        select(db, &MessageFilter::Range { user_id: u, after, before })
    }

    /// The root messages authored by `user_id`; possibly empty.
    pub fn get_for_user(user_id: &Id, db: &Db) -> (r: Vec<Message>)
        ensures
            views(r@) == selected(db.message_rows(), MessageFilter::RootsBy(*user_id)),
    {
        select(db, &MessageFilter::RootsBy(*user_id))
    }

    /// The replies to the message `parent_id`; possibly empty.
    pub fn get_children(parent_id: &Id, db: &Db) -> (r: Vec<Message>)
        ensures
            views(r@) == selected(db.message_rows(), MessageFilter::ChildrenOf(*parent_id)),
    {
        select(db, &MessageFilter::ChildrenOf(*parent_id))
    }

    /// Removes the message stored under `id` and returns its last contents;
    /// `NotFound` when there is none. Its replies are left as they are.
    pub fn delete(id: Id, db: &mut Db) -> (r: Result<Message, StoreError>)
        requires
            old(db).wf(),
        ensures
            final(db).wf(),
            final(db).user_rows() == old(db).user_rows(),
            r is Ok <==> has_message(old(db).message_rows(), id),
            r matches Ok(m) ==> exists|i: int|
                0 <= i < old(db).message_rows().len() && (#[trigger] old(db).message_rows()[i]).id
                    == Some(id) && m@ == old(db).message_rows()[i] && final(db).message_rows()
                    == old(db).message_rows().remove(i),
            r matches Err(e) ==> e == StoreError::NotFound && *final(db) == *old(db),
    {
        match find_message(db, id) {
            None => Err(StoreError::NotFound),
            Some(i) => {
                let r = db.remove_message(i);
                proof {
                    lemma_delete_orphans(old(db).message_rows(), i as int);
                }
                Ok(r)
            },
        }
    }

    pub fn id(&self) -> (r: Option<Id>)
        ensures
            r == self.id,
    {
        self.id
    }

    pub fn user_id(&self) -> (r: Id)
        ensures
            r == self.user_id,
    {
        self.user_id
    }

    pub fn content(&self) -> (r: &str)
        ensures
            r@ == self.content@,
    {
        self.content.as_str()
    }

    pub fn parent_message_id(&self) -> (r: Option<Id>)
        ensures
            r == self.parent_message_id,
    {
        self.parent_message_id
    }

    /// Whether the message replies to another one.
    pub fn is_reply(&self) -> (r: bool)
        ensures
            r == (self.parent_message_id is Some),
    {
        self.parent_message_id.is_some()
    }

    /// The message this one replies to; `None` for a root message or when
    /// the parent is no longer stored.
    pub fn parent_message(&self, db: &Db) -> (r: Option<Message>)
        requires
            db.wf(),
        ensures
            self.parent_message_id is None ==> r is None,
            self.parent_message_id matches Some(p) ==> (r is Some <==> has_message(
                db.message_rows(),
                p,
            )) && (r matches Some(m) ==> is_message_row(db.message_rows(), p, m@)),
    {
        match self.parent_message_id {
            None => None,
            Some(p) => Message::get(&p, db).ok(),
        }
    }

    /// The replies to this message; empty for an unpersisted message.
    pub fn replies(&self, db: &Db) -> (r: Vec<Message>)
        ensures
            self.id is None ==> r@.len() == 0,
            self.id matches Some(id) ==> views(r@) == selected(
                db.message_rows(),
                MessageFilter::ChildrenOf(id),
            ),
    {
        match self.id {
            None => Vec::new(),
            Some(id) => Message::get_children(&id, db),
        }
    }

    pub fn created_at(&self) -> (r: Option<Timestamp>)
        ensures
            r == self.created_at,
    {
        self.created_at
    }

    pub fn updated_at(&self) -> (r: Option<Timestamp>)
        ensures
            r == self.updated_at,
    {
        self.updated_at
    }
}

/// The rows of `rows` authored by `u`, in order.
pub open spec fn authored_by(rows: Seq<MessageView>, u: Id) -> Seq<MessageView> {
    rows.filter(|m: MessageView| m.user_id == u)
}

/// A query selects exactly the rows it admits: a row is in the result if
/// and only if it is stored and admitted, and the result is empty when no
/// stored row is admitted.
pub proof fn lemma_selected_members(rows: Seq<MessageView>, f: MessageFilter)
    ensures
        forall|m: MessageView| #[trigger]
            selected(rows, f).contains(m) <==> rows.contains(m) && f.admits(m),
        (forall|i: int| 0 <= i < rows.len() ==> !f.admits(#[trigger] rows[i])) ==> selected(
            rows,
            f,
        ).len() == 0,
{
    let pred = f.admits_fn();
    assert forall|m: MessageView| #[trigger]
        selected(rows, f).contains(m) <==> rows.contains(m) && f.admits(m) by {
        if selected(rows, f).contains(m) {
            rows.lemma_filter_contains_rev(pred, m);
            let j = choose|j: int| 0 <= j < rows.filter(pred).len() && rows.filter(pred)[j] == m;
            rows.lemma_filter_pred(pred, j);
        }
        if rows.contains(m) && f.admits(m) {
            let i = choose|i: int| 0 <= i < rows.len() && rows[i] == m;
            rows.lemma_filter_contains(pred, i);
        }
    }
    if forall|i: int| 0 <= i < rows.len() ==> !f.admits(#[trigger] rows[i]) {
        if selected(rows, f).len() > 0 {
            let m = selected(rows, f)[0];
            assert(selected(rows, f).contains(m));
        }
    }
}

/// After an insert, the new id finds exactly the inserted row.
pub proof fn lemma_get_after_insert(rows: Seq<MessageView>, m: MessageView)
    requires
        message_rows_wf(rows),
        m.id is Some,
        m.created_at is Some,
        m.updated_at is Some,
        !has_message(rows, m.id->0),
    ensures
        message_rows_wf(rows.push(m)),
        is_message_row(rows.push(m), m.id->0, m),
        forall|v: MessageView| is_message_row(rows.push(m), m.id->0, v) ==> v == m,
{
    let nrows = rows.push(m);
    assert(nrows[rows.len() as int] == m);
    assert forall|i: int, j: int|
        0 <= i < nrows.len() && 0 <= j < nrows.len() && i != j implies (#[trigger] nrows[i]).id != (
        #[trigger] nrows[j]).id by {
        if i < rows.len() {
            assert(nrows[i] == rows[i]);
        }
        if j < rows.len() {
            assert(nrows[j] == rows[j]);
        }
    }
    assert forall|i: int| 0 <= i < nrows.len() implies (#[trigger] nrows[i]).id is Some
        && nrows[i].created_at is Some && nrows[i].updated_at is Some by {
        if i < rows.len() {
            assert(nrows[i] == rows[i]);
        }
    }
    assert forall|v: MessageView| is_message_row(nrows, m.id->0, v) implies v == m by {
        let i = choose|i: int| 0 <= i < nrows.len() && (#[trigger] nrows[i]).id == Some(m.id->0)
            && nrows[i] == v;
        if i < rows.len() {
            assert(nrows[i] == rows[i]);
        }
    }
}

/// Inserting a reply to `p` adds it at the end of the replies of `p`;
/// inserting any other message leaves them as they were.
pub proof fn lemma_children_after_insert(rows: Seq<MessageView>, m: MessageView, p: Id)
    ensures
        selected(rows.push(m), MessageFilter::ChildrenOf(p)) == if m.parent_message_id == Some(p) {
            selected(rows, MessageFilter::ChildrenOf(p)).push(m)
        } else {
            selected(rows, MessageFilter::ChildrenOf(p))
        },
{
    reveal(Seq::filter);
    assert(rows.push(m).drop_last() =~= rows);
}

/// Deleting a message makes its id unknown to later lookups and leaves
/// every other row, its replies included, stored and unchanged.
pub proof fn lemma_delete_orphans(rows: Seq<MessageView>, i: int)
    requires
        message_rows_wf(rows),
        0 <= i < rows.len(),
    ensures
        message_rows_wf(rows.remove(i)),
        !has_message(rows.remove(i), rows[i].id->0),
        forall|j: int|
            0 <= j < rows.len() && j != i ==> rows.remove(i).contains(#[trigger] rows[j])
                && has_message(rows.remove(i), rows[j].id->0) && is_message_row(
                rows.remove(i),
                rows[j].id->0,
                rows[j],
            ),
{
    let nrows = rows.remove(i);
    assert forall|a: int| 0 <= a < nrows.len() implies #[trigger] nrows[a] == if a < i {
        rows[a]
    } else {
        rows[a + 1]
    } by {}
    assert forall|a: int, b: int|
        0 <= a < nrows.len() && 0 <= b < nrows.len() && a != b implies (#[trigger] nrows[a]).id != (
        #[trigger] nrows[b]).id by {
        let a2 = if a < i { a } else { a + 1 };
        let b2 = if b < i { b } else { b + 1 };
        assert(rows[a2].id != rows[b2].id);
    }
    if has_message(nrows, rows[i].id->0) {
        let a = choose|a: int| 0 <= a < nrows.len() && (#[trigger] nrows[a]).id == Some(rows[i].id->0);
        let a2 = if a < i { a } else { a + 1 };
        assert(rows[a2].id == rows[i].id);
    }
    assert forall|j: int| 0 <= j < rows.len() && j != i implies nrows.contains(#[trigger] rows[j])
        && has_message(nrows, rows[j].id->0) && is_message_row(nrows, rows[j].id->0, rows[j]) by {
        let a = if j < i { j } else { j - 1 };
        assert(nrows[a] == rows[j]);
    }
}

/// The time-range query for one user gives the rows of the unfiltered
/// query that the user authored, in the same order.
pub proof fn lemma_range_by_user(rows: Seq<MessageView>, u: Id, after: Timestamp, before: Timestamp)
    ensures
        selected(rows, MessageFilter::Range { user_id: Some(u), after, before }) == authored_by(
            selected(rows, MessageFilter::Range { user_id: None, after, before }),
            u,
        ),
    decreases rows.len(),
{
    reveal(Seq::filter);
    if rows.len() > 0 {
        lemma_range_by_user(rows.drop_last(), u, after, before);
        let all = selected(rows.drop_last(), MessageFilter::Range { user_id: None, after, before });
        assert(all.push(rows.last()).drop_last() =~= all);
    }
}

} // verus!
