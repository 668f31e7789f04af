//! The query and mutation roots. Each operation makes one repository call
//! and reports any failure as an absent result.

use vstd::prelude::*;
use crate::db::Db;
use crate::id::Id;
use crate::message::{Message, MessageFilter, MessageView, has_message, inserted_message, is_message_row, selected, views};
use crate::password_util::{PasswordUtil, password_len_ok};
use crate::timestamp::Timestamp;
use crate::user::{User, UserView, has_user, inserted_user, is_user_row};

verus! {

/// The input of `create_user`.
pub struct InputUser {
    pub display_name: String,
    pub username: String,
    pub password: String,
}

/// The input of `create_message`.
pub struct InputMessage {
    pub user_id: Id,
    pub content: String,
    pub parent_message_id: Option<Id>,
}

/// The input of `update_message`.
pub struct UpdateMessage {
    pub id: Id,
    pub content: String,
}

/// The read root.
#[derive(Clone, Copy, Debug)]
pub struct Query;

impl Query {
    /// The user stored under `id`, if any.
    pub fn user(database: &Db, id: Id) -> (r: Option<User>)
        requires
            database.wf(),
        ensures
            r is Some <==> has_user(database.user_rows(), id),
            r matches Some(u) ==> is_user_row(database.user_rows(), id, u@),
    {
        User::get(&id, database).ok()
    }

    /// The message stored under `id`, if any.
    pub fn message(database: &Db, id: Id) -> (r: Option<Message>)
        requires
            database.wf(),
        ensures
            r is Some <==> has_message(database.message_rows(), id),
            r matches Some(m) ==> is_message_row(database.message_rows(), id, m@),
    {
        Message::get(&id, database).ok()
    }

    /// The messages created within `[after, before]`, only those by
    /// `user_id` where one is given.
    pub fn messages(database: &Db, user_id: Option<Id>, after: Timestamp, before: Timestamp) -> (r:
        Vec<Message>)
        ensures
            views(r@) == selected(
                database.message_rows(),
                MessageFilter::Range { user_id, after, before },
            ),
    {
        Message::get_by_time_range(user_id.as_ref(), (after, before), database)
    }
}

/// The write root. It owns the credential hasher for its lifetime.
pub struct Mutate {
    password_util: PasswordUtil,
}

/// The unpersisted user that `create_user` stores for `input` under `hash`.
pub open spec fn new_user_view(input: &InputUser, hash: Seq<char>) -> UserView {
    UserView {
        id: None,
        display_name: input.display_name@,
        username: input.username@,
        password_hash: hash,
        created_at: None,
        updated_at: None,
    }
}

/// The unpersisted message that `create_message` stores for `input`.
pub open spec fn new_message_view(input: &InputMessage) -> MessageView {
    MessageView {
        id: None,
        user_id: input.user_id,
        content: input.content@,
        parent_message_id: input.parent_message_id,
        created_at: None,
        updated_at: None,
    }
}

impl Mutate {
    /// A write root with a fresh hasher.
    pub fn new() -> (r: Mutate)
        ensures
            r.hasher().wf(),
    {
        Mutate { password_util: PasswordUtil::new() }
    }

    /// The hasher that `create_user` uses.
    pub closed spec fn hasher(&self) -> PasswordUtil {
        self.password_util
    }

    /// Hashes the password and stores a new user; `None` when hashing or
    /// the insert fails, the store then unchanged.
    pub fn create_user(&self, database: &mut Db, input_user: InputUser) -> (r: Option<User>)
        requires
            old(database).wf(),
        ensures
            final(database).wf(),
            final(database).message_rows() == old(database).message_rows(),
            self.hasher().spec_hash(input_user.password@) is None ==> r is None,
            self.hasher().spec_hash(input_user.password@) is Some && old(database).user_rows().len()
                == 0 ==> r is Some,
            self.hasher().wf() && password_len_ok(input_user.password@) && old(
                database,
            ).user_rows().len() == 0 ==> r is Some,
            r matches Some(u) ==> u.id matches Some(id) && !has_user(old(database).user_rows(), id)
                && u@ == inserted_user(
                new_user_view(&input_user, self.hasher().spec_hash(input_user.password@)->0),
                id,
                u.created_at->0,
            ) && final(database).user_rows() == old(database).user_rows().push(u@),
            r is None ==> *final(database) == *old(database),
    {
        let password_hash = match self.password_util.hash(input_user.password.clone()) {
            Some(h) => h,
            None => return None,
        };
        let new_user = User::new(
            input_user.display_name.as_str(),
            input_user.username.as_str(),
            password_hash.as_str(),
        );
        new_user.insert(database).ok()
    }

    /// Stores a new message; `None` when the insert fails, the store then
    /// unchanged.
    pub fn create_message(&self, database: &mut Db, input_message: InputMessage) -> (r: Option<
        Message,
    >)
        requires
            old(database).wf(),
        ensures
            final(database).wf(),
            final(database).user_rows() == old(database).user_rows(),
            old(database).message_rows().len() == 0 ==> r is Some,
            r matches Some(m) ==> m.id matches Some(id) && !has_message(
                old(database).message_rows(),
                id,
            ) && m@ == inserted_message(new_message_view(&input_message), id, m.created_at->0)
                && final(database).message_rows() == old(database).message_rows().push(m@),
            r is None ==> *final(database) == *old(database),
    {
        let new_message = Message::new(
            input_message.user_id,
            input_message.content.as_str(),
            input_message.parent_message_id,
        );
        new_message.insert(database).ok()
    }

    /// Replaces the content of the message `input_message.id`; `None` when
    /// there is no such message.
    pub fn update_message(&self, database: &mut Db, input_message: UpdateMessage) -> (r: Option<
        Message,
    >)
        requires
            old(database).wf(),
        ensures
            final(database).wf(),
            final(database).user_rows() == old(database).user_rows(),
            r is Some <==> has_message(old(database).message_rows(), input_message.id),
            r matches Some(m) ==> exists|i: int|
                0 <= i < old(database).message_rows().len() && (#[trigger] old(
                    database,
                ).message_rows()[i]).id == Some(input_message.id) && m@ == (MessageView {
                    content: input_message.content@,
                    ..old(database).message_rows()[i]
                }) && final(database).message_rows() == old(database).message_rows().update(
                    i,
                    m@,
                ),
            r is None ==> *final(database) == *old(database),
    {
        Message::update(&input_message.id, input_message.content, database).ok()
    }

    /// Removes the message `id` and returns its last contents; `None` when
    /// there is no such message.
    pub fn delete_message(database: &mut Db, id: Id) -> (r: Option<Message>)
        requires
            old(database).wf(),
        ensures
            final(database).wf(),
            final(database).user_rows() == old(database).user_rows(),
            r is Some <==> has_message(old(database).message_rows(), id),
            r matches Some(m) ==> exists|i: int|
                0 <= i < old(database).message_rows().len() && (#[trigger] old(
                    database,
                ).message_rows()[i]).id == Some(id) && m@ == old(database).message_rows()[i]
                    && final(database).message_rows() == old(database).message_rows().remove(i),
            r is None ==> *final(database) == *old(database),
    {
        Message::delete(id, database).ok()
    }
}

/// The two roots served together.
pub struct Schema {
    pub query: Query,
    pub mutation: Mutate,
}

/// The roots with a freshly constructed hasher.
pub fn create_schema() -> (r: Schema)
    ensures
        r.mutation.hasher().wf(),
{
    Schema { query: Query, mutation: Mutate::new() }
}

} // verus!
