//! The relational store: a users table and a messages table, each a
//! sequence of rows in insertion order.

use vstd::prelude::*;
use crate::message::{Message, MessageView, message_rows_wf, views};
use crate::user::{User, UserView, user_rows_wf, user_views};

verus! {

/// The store. Its tables are only reached through the repositories.
pub struct Db {
    users: Vec<User>,
    messages: Vec<Message>,
}

impl Db {
    /// The rows of the messages table.
    pub closed spec fn message_rows(&self) -> Seq<MessageView> {
        views(self.messages@)
    }

    /// The rows of the users table.
    pub closed spec fn user_rows(&self) -> Seq<UserView> {
        user_views(self.users@)
    }

    /// Every row carries an id and server timestamps; ids are unique per table.
    pub open spec fn wf(&self) -> bool {
        message_rows_wf(self.message_rows()) && user_rows_wf(self.user_rows())
    }

    /// An empty store.
    pub fn new() -> (r: Db)
        ensures
            r.wf(),
            r.message_rows() == Seq::<MessageView>::empty(),
            r.user_rows() == Seq::<UserView>::empty(),
    {
        let r = Db { users: Vec::new(), messages: Vec::new() };
        proof {
            assert(r.message_rows() =~= Seq::<MessageView>::empty());
            assert(r.user_rows() =~= Seq::<UserView>::empty());
        }
        r
    }

    pub(crate) fn message_count(&self) -> (r: usize)
        ensures
            r == self.message_rows().len(),
    {
        self.messages.len()
    }

    pub(crate) fn message_at(&self, i: usize) -> (r: &Message)
        requires
            i < self.message_rows().len(),
        ensures
            r@ == self.message_rows()[i as int],
    {
        &self.messages[i]
    }

    pub(crate) fn push_message(&mut self, m: Message)
        ensures
            final(self).message_rows() == old(self).message_rows().push(m@),
            final(self).user_rows() == old(self).user_rows(),
    {
        self.messages.push(m);
        proof {
            assert(final(self).message_rows() =~= old(self).message_rows().push(m@));
        }
    }

    pub(crate) fn replace_message(&mut self, i: usize, m: Message)
        requires
            i < old(self).message_rows().len(),
        ensures
            final(self).message_rows() == old(self).message_rows().update(i as int, m@),
            final(self).user_rows() == old(self).user_rows(),
    {
        self.messages.set(i, m);
        proof {
            assert(final(self).message_rows() =~= old(self).message_rows().update(i as int, m@));
        }
    }

    pub(crate) fn remove_message(&mut self, i: usize) -> (r: Message)
        requires
            i < old(self).message_rows().len(),
        ensures
            r@ == old(self).message_rows()[i as int],
            final(self).message_rows() == old(self).message_rows().remove(i as int),
            final(self).user_rows() == old(self).user_rows(),
    {
        let r = self.messages.remove(i);
        proof {
            assert(final(self).message_rows() =~= old(self).message_rows().remove(i as int));
        }
        r
    }

    pub(crate) fn user_count(&self) -> (r: usize)
        ensures
            r == self.user_rows().len(),
    {
        self.users.len()
    }

    pub(crate) fn user_at(&self, i: usize) -> (r: &User)
        requires
            i < self.user_rows().len(),
        ensures
            r@ == self.user_rows()[i as int],
    {
        &self.users[i]
    }

    pub(crate) fn push_user(&mut self, u: User)
        ensures
            final(self).user_rows() == old(self).user_rows().push(u@),
            final(self).message_rows() == old(self).message_rows(),
    {
        self.users.push(u);
        proof {
            assert(final(self).user_rows() =~= old(self).user_rows().push(u@));
        }
    }
}

} // verus!
