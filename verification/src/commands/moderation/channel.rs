//! Locking and hiding channels.
//!
//! Each command names its target by an optional role and an optional
//! user: the role wins, and with neither the command is for everyone.

use vstd::prelude::*;
use crate::overwrite::{
    first_index, reconcile, reconciled, Operation, OverwriteKind, PermissionOverwrite,
    Reconciled, ToggleTarget,
};

pub use crate::commands::moderation::user::ban;

verus! {

/// What a channel command with these arguments asks for.
pub open spec fn toggle_spec(
    overwrites: Seq<PermissionOverwrite>,
    role: Option<u64>,
    user: Option<u64>,
    everyone_role: u64,
    operation: Operation,
    state: Option<bool>,
    r: Reconciled,
) -> bool {
    let target = ToggleTarget::spec_resolve(role, user);
    &&& r.overwrite@ == reconciled(overwrites, target, everyone_role, operation, state)
    &&& r.overwrite.kind == target.spec_kind(everyone_role)
    &&& r.should_replace_existing == (first_index(overwrites, r.overwrite.kind) is Some)
    &&& role matches Some(id) ==> r.overwrite.kind == OverwriteKind::Role(id)
}

fn toggle(
    overwrites: &Vec<PermissionOverwrite>,
    role: Option<u64>,
    user: Option<u64>,
    everyone_role: u64,
    operation: Operation,
    state: Option<bool>,
) -> (r: Reconciled)
    ensures
        toggle_spec(overwrites@, role, user, everyone_role, operation, state, r),
{
    reconcile(overwrites, ToggleTarget::resolve(role, user), everyone_role, operation, state)
}

/// Stops the target from posting in the channel and its threads.
pub fn lock(
    overwrites: &Vec<PermissionOverwrite>,
    role: Option<u64>,
    user: Option<u64>,
    everyone_role: u64,
) -> (r: Reconciled)
    ensures
        toggle_spec(overwrites@, role, user, everyone_role, Operation::Lock, None, r),
{
    toggle(overwrites, role, user, everyone_role, Operation::Lock, None)
}

/// Lets the target post in the channel and its threads again. With
/// `state` false the target is merely no longer stopped; with true, or
/// with none, it is allowed expressly.
pub fn unlock(
    overwrites: &Vec<PermissionOverwrite>,
    role: Option<u64>,
    user: Option<u64>,
    everyone_role: u64,
    state: Option<bool>,
) -> (r: Reconciled)
    ensures
        toggle_spec(overwrites@, role, user, everyone_role, Operation::Unlock, state, r),
{
    toggle(overwrites, role, user, everyone_role, Operation::Unlock, state)
}

/// Hides the channel from the target.
pub fn viewlock(
    overwrites: &Vec<PermissionOverwrite>,
    role: Option<u64>,
    user: Option<u64>,
    everyone_role: u64,
) -> (r: Reconciled)
    ensures
        toggle_spec(overwrites@, role, user, everyone_role, Operation::ViewLock, None, r),
{
    toggle(overwrites, role, user, everyone_role, Operation::ViewLock, None)
}

/// Shows the channel to the target again. With `state` false the channel
/// is merely no longer hidden; with true, or with none, the target is
/// allowed to see it expressly.
pub fn unviewlock(
    overwrites: &Vec<PermissionOverwrite>,
    role: Option<u64>,
    user: Option<u64>,
    everyone_role: u64,
    state: Option<bool>,
) -> (r: Reconciled)
    ensures
        toggle_spec(overwrites@, role, user, everyone_role, Operation::UnviewLock, state, r),
{
    toggle(overwrites, role, user, everyone_role, Operation::UnviewLock, state)
}

} // verus!
