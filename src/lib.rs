//! A message board: users post messages that may reply to other messages,
//! forming threads. The library holds the identity codec, the credential
//! hasher, the user and message repositories over a relational store, and
//! the query and mutation roots that compose them.

pub mod db;
pub mod id;
pub mod message;
pub mod password_util;
pub mod schema;
pub mod timestamp;
pub mod user;

use vstd::prelude::*;

verus! {

/// A failed store operation.
#[derive(Clone, Copy, Debug, PartialEq, Eq, Structural)]
pub enum StoreError {
    /// No row has the requested id.
    NotFound,
    /// The row would break a table constraint (a duplicate id).
    Constraint,
}

} // verus!
