//! The permission record in its three shapes, and the rules a new record
//! must meet before it may be stored.

use crate::action::Action;
use vstd::prelude::*;

verus! {

/// A permission record as it is read back from storage.
///
/// The action slots are kept as stored, one for one: a slot may be empty and a
/// text need not name an action.
#[derive(Debug, Clone, PartialEq, Eq)]
pub struct RolePermission {
    pub id: i32,
    pub role_id: i32,
    pub directory_id: i32,
    pub name: String,
    pub actions: Vec<Option<String>>,
}

/// The mathematical content of a [`RolePermission`].
pub struct RolePermissionView {
    pub id: int,
    pub role_id: int,
    pub directory_id: int,
    pub name: Seq<char>,
    pub actions: Seq<Option<Seq<char>>>,
}

impl View for RolePermission {
    type V = RolePermissionView;

    open spec fn view(&self) -> RolePermissionView {
        RolePermissionView {
            id: self.id as int,
            role_id: self.role_id as int,
            directory_id: self.directory_id as int,
            name: self.name@,
            actions: self.actions.deep_view(),
        }
    }
}

/// The part of a permission record that an update may replace.
#[derive(Debug, Clone, PartialEq, Eq)]
pub struct ModifiableRolePermission {
    pub name: String,
    pub actions: Vec<Action>,
}

/// The mathematical content of a [`ModifiableRolePermission`].
pub struct ModifiableRolePermissionView {
    pub name: Seq<char>,
    pub actions: Seq<Action>,
}

impl View for ModifiableRolePermission {
    type V = ModifiableRolePermissionView;

    open spec fn view(&self) -> ModifiableRolePermissionView {
        ModifiableRolePermissionView { name: self.name@, actions: self.actions@ }
    }
}

/// A new permission record, not yet stored: role `role_id` may perform
/// `actions`, under the label `name`, on directory `directory_id`.
#[derive(Debug, Clone, PartialEq, Eq)]
pub struct InsertableRolePermission {
    pub role_id: i32,
    pub directory_id: i32,
    pub name: String,
    pub actions: Vec<Action>,
}

/// The mathematical content of an [`InsertableRolePermission`].
pub struct InsertableRolePermissionView {
    pub role_id: int,
    pub directory_id: int,
    pub name: Seq<char>,
    pub actions: Seq<Action>,
}

impl View for InsertableRolePermission {
    type V = InsertableRolePermissionView;

    open spec fn view(&self) -> InsertableRolePermissionView {
        InsertableRolePermissionView {
            role_id: self.role_id as int,
            directory_id: self.directory_id as int,
            name: self.name@,
            actions: self.actions@,
        }
    }
}

/// The rule that a new permission record breaks.
#[derive(Debug, Clone, Copy, PartialEq, Eq, Structural)]
pub enum ValidationError {
    /// The name holds no character.
    EmptyName,
    /// No action is granted.
    NoActions,
    /// The role identifier is below 1.
    InvalidRoleId,
}

impl ValidationError {
    /// The text that goes with the rule. A missing name and a missing action
    /// list share one text.
    pub open spec fn text(self) -> Seq<char> {
        match self {
            ValidationError::EmptyName => "Invalid role_permission"@,
            ValidationError::NoActions => "Invalid role_permission"@,
            ValidationError::InvalidRoleId => "Invalid id"@,
        }
    }

    /// A short text that says what went wrong.
    pub fn message(&self) -> (text: String)
        ensures
            text@ == self.text(),
    {
        match self {
            ValidationError::EmptyName => "Invalid role_permission".to_owned(),
            ValidationError::NoActions => "Invalid role_permission".to_owned(),
            ValidationError::InvalidRoleId => "Invalid id".to_owned(),
        }
    }
}

impl InsertableRolePermissionView {
    /// A record is valid when it has a name of at least one character, grants
    /// at least one action and refers to a role by a positive identifier.
    ///
    /// A name of blanks only counts as a name, and the directory identifier
    /// is not bounded.
    pub open spec fn is_valid(self) -> bool {
        &&& self.name.len() > 0
        &&& self.actions.len() > 0
        &&& self.role_id >= 1
    }

    /// The first rule that the record breaks, the rules taken in the order
    /// name, actions, role identifier.
    pub open spec fn violation(self) -> Option<ValidationError> {
        if self.name.len() == 0 {
            Some(ValidationError::EmptyName)
        } else if self.actions.len() == 0 {
            Some(ValidationError::NoActions)
        } else if self.role_id < 1 {
            Some(ValidationError::InvalidRoleId)
        } else {
            None
        }
    }
}

/// What validation makes of a candidate: the candidate itself where it is
/// valid, else the first rule it breaks.
pub open spec fn validated(candidate: InsertableRolePermission) -> Result<
    InsertableRolePermission,
    ValidationError,
> {
    match candidate@.violation() {
        None => Ok(candidate),
        Some(rule) => Err(rule),
    }
}

/// Checks a new permission record against the rules.
///
/// A valid record comes back as it was given: nothing is trimmed, reordered
/// or deduplicated. An invalid one is refused with the first rule it breaks.
pub fn create(role_permission: InsertableRolePermission) -> (checked: Result<
    InsertableRolePermission,
    ValidationError,
>)
    ensures
        checked == validated(role_permission),
        checked is Ok <==> role_permission@.is_valid(),
{
    if role_permission.name.as_str().is_empty() {
        return Err(ValidationError::EmptyName);
    }
    if role_permission.actions.is_empty() {
        return Err(ValidationError::NoActions);
    }
    if role_permission.role_id < 1 {
        return Err(ValidationError::InvalidRoleId);
    }
    Ok(role_permission)
}

/// A record is accepted exactly when it is valid, and then as it was given.
pub proof fn lemma_validated_iff_valid(candidate: InsertableRolePermission)
    ensures
        validated(candidate) is Ok <==> candidate@.is_valid(),
        validated(candidate) is Ok ==> validated(candidate)->Ok_0 == candidate,
        validated(candidate) matches Err(rule) ==> candidate@.violation() == Some(rule),
{
}

/// Validation keeps no state: two validations of one valid candidate give
/// equal results, each of them the candidate itself, and validating what was
/// accepted gives that result again.
pub proof fn lemma_validation_idempotent(
    candidate: InsertableRolePermission,
    first: Result<InsertableRolePermission, ValidationError>,
    second: Result<InsertableRolePermission, ValidationError>,
)
    requires
        candidate@.is_valid(),
        first == validated(candidate),
        second == validated(candidate),
    ensures
        first == second,
        first == Ok::<InsertableRolePermission, ValidationError>(candidate),
        validated(first->Ok_0) == first,
{
}

} // verus!
