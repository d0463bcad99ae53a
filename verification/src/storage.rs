//! The pure half of the storage boundary: the values that an insert sends to
//! the store, and what the store's reply means for the caller.
//!
//! The insert itself is the caller's: it sends the row once and hands the
//! reply back. Nothing here retries.

use crate::action::{lemma_parse_name, Action};
use crate::organisation::{InsertableRolePermission, InsertableRolePermissionView};
use vstd::prelude::*;

verus! {

/// The column values of one new row of the permission table. The store
/// assigns the identifier and the time stamps.
#[derive(Debug, Clone, PartialEq, Eq)]
pub struct NewRolePermissionRow {
    pub role_id: i32,
    pub directory_id: i32,
    pub name: String,
    pub actions: Vec<Option<String>>,
}

/// The mathematical content of a [`NewRolePermissionRow`].
pub struct NewRolePermissionRowView {
    pub role_id: int,
    pub directory_id: int,
    pub name: Seq<char>,
    pub actions: Seq<Option<Seq<char>>>,
}

impl View for NewRolePermissionRow {
    type V = NewRolePermissionRowView;

    open spec fn view(&self) -> NewRolePermissionRowView {
        NewRolePermissionRowView {
            role_id: self.role_id as int,
            directory_id: self.directory_id as int,
            name: self.name@,
            actions: self.actions.deep_view(),
        }
    }
}

/// A submission that did not yield a stored record.
#[derive(Debug, Clone, PartialEq, Eq)]
pub enum StorageError {
    /// The store could not perform the insert. The text is the store's own
    /// account of the cause, kept as given and not interpreted.
    Rejected(String),
    /// The store reported success with an identifier below 1.
    InvalidIdentifier(i32),
}

/// The stored form of a list of actions: one filled slot for each action, in
/// the same order, holding the action's canonical name.
pub open spec fn stored_actions(actions: Seq<Action>) -> Seq<Option<Seq<char>>> {
    Seq::new(actions.len(), |i: int| Some(actions[i].name()))
}

impl InsertableRolePermissionView {
    /// The row under which the record is stored.
    pub open spec fn row(self) -> NewRolePermissionRowView {
        NewRolePermissionRowView {
            role_id: self.role_id,
            directory_id: self.directory_id,
            name: self.name,
            actions: stored_actions(self.actions),
        }
    }
}

/// Encodes a list of actions for the `actions` column.
///
/// Duplicates stay and the order is kept; no slot is left empty.
pub fn encode_actions(actions: &Vec<Action>) -> (slots: Vec<Option<String>>)
    ensures
        slots.deep_view() == stored_actions(actions@),
{
    let mut slots: Vec<Option<String>> = Vec::new();
    let mut i: usize = 0;
    while i < actions.len()
        invariant
            i <= actions.len(),
            slots@.len() == i,
            forall|j: int|
                0 <= j < i ==> (#[trigger] slots@[j]).deep_view() == Some(actions@[j].name()),
        decreases actions.len() - i,
    {
        slots.push(Some(actions[i].as_string()));
        i = i + 1;
    }
    assert(slots.deep_view() =~= stored_actions(actions@));
    slots
}

/// What is written can be read back: no slot of an encoded list is empty,
/// and each slot decodes to the action at its place.
pub proof fn lemma_stored_actions_decode(actions: Seq<Action>, i: int)
    requires
        0 <= i < actions.len(),
    ensures
        stored_actions(actions).len() == actions.len(),
        stored_actions(actions)[i] == Some(actions[i].name()),
        Action::parse(stored_actions(actions)[i]->0) == Some(actions[i]),
{
    lemma_parse_name(actions[i]);
}

/// Builds the row that stores a validated record.
///
/// Only a valid record may reach the store: check it with
/// [`create`](crate::organisation::create) first.
pub fn insert_row(new_role_permission: InsertableRolePermission) -> (row: NewRolePermissionRow)
    requires
        new_role_permission@.is_valid(),
    ensures
        row@ == new_role_permission@.row(),
{
    let actions = encode_actions(&new_role_permission.actions);
    NewRolePermissionRow {
        role_id: new_role_permission.role_id,
        directory_id: new_role_permission.directory_id,
        name: new_role_permission.name,
        actions,
    }
}

/// What one insert attempt comes to, given the store's reply: the assigned
/// identifier, or the failure.
pub open spec fn submission(reply: Result<i32, String>) -> Result<i32, StorageError> {
    match reply {
        Ok(id) => if id >= 1 {
            Ok(id)
        } else {
            Err(StorageError::InvalidIdentifier(id))
        },
        Err(cause) => Err(StorageError::Rejected(cause)),
    }
}

/// Concludes the one insert attempt of a submission.
///
/// `reply` is what the store answered: the identifier it assigned, or its
/// account of why it did not insert. The result is handed to the caller as
/// it is; a failure is final.
pub fn db_create(reply: Result<i32, String>) -> (submitted: Result<i32, StorageError>)
    ensures
        submitted == submission(reply),
        submitted matches Ok(id) ==> id >= 1 && reply == Ok::<i32, String>(id),
        reply is Err ==> submitted is Err,
{
    match reply {
        Ok(id) => {
            if id >= 1 {
                Ok(id)
            } else {
                Err(StorageError::InvalidIdentifier(id))
            }
        },
        Err(cause) => Err(StorageError::Rejected(cause)),
    }
}

/// A submission succeeds only with a positive identifier, the one that the
/// store assigned; a failure of the store yields no identifier.
pub proof fn lemma_submission_outcomes(reply: Result<i32, String>)
    ensures
        submission(reply) matches Ok(id) ==> id >= 1 && reply == Ok::<i32, String>(id),
        reply matches Ok(id) ==> (id >= 1 ==> submission(reply) == Ok::<i32, StorageError>(id)),
        reply is Err ==> submission(reply) is Err,
{
}

} // verus!
