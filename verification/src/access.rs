//! Who may change whose profile: the checks that the profile routes make
//! once they know the acting user, the target and both their groups.
use vstd::prelude::*;
use crate::model::DatabaseError;
use crate::permissions::{is_helper, is_manager, FinePermission};
use crate::text::{chars_eq, chars_of};

verus! {

/// The group that marks a user as banned, whether or not it exists.
pub const BANNED_USER_GROUP: i32 = -1;

/// Whether the path parameter `target` names the user with id `id` and name
/// `username`.
pub fn names_user(id: &str, username: &str, target: &str) -> (r: bool)
    ensures
        r == (target@ == id@ || target@ == username@),
{
    let t = chars_of(target);
    let i = chars_of(id);
    if chars_eq(t.as_slice(), i.as_slice()) {
        return true;
    }
    let u = chars_of(username);
    chars_eq(t.as_slice(), u.as_slice())
}

/// Whether a user of group `actor` may manage a user of group `target`:
/// only a manager may, and not another manager.
pub open spec fn manages(actor: u32, target: u32) -> bool {
    is_manager(actor) && !is_manager(target)
}

/// A change that only managers make to other users (tier, group, coins,
/// tokens): refused with `NotAllowed` unless the actor's group is a manager
/// group and the target's is not.
pub fn check_manager_edit(actor: FinePermission, target: FinePermission) -> (r: Result<(), DatabaseError>)
    ensures
        r is Ok <==> manages(actor.bits, target.bits),
        r matches Err(e) ==> e == DatabaseError::NotAllowed,
{
    if !actor.check_manager() {
        return Err(DatabaseError::NotAllowed);
    }
    if target.check_manager() {
        return Err(DatabaseError::NotAllowed);
    }
    Ok(())
}

/// Authorises a manager to edit or add another user's sessions: a
/// user may not do so to themselves this way, and otherwise the actor must
/// manage the target.
pub fn check_session_management(is_self: bool, actor: FinePermission, target: FinePermission) -> (r: Result<
    (),
    DatabaseError,
>)
    ensures
        r is Ok <==> (!is_self && manages(actor.bits, target.bits)),
        r matches Err(e) ==> e == DatabaseError::NotAllowed,
{
    if is_self {
        return Err(DatabaseError::NotAllowed);
    }
    check_manager_edit(actor, target)
}

/// Whether a user may change a profile (its password, name or metadata, or
/// delete it): their own, or as a manager a non-manager's; never while in
/// the banned group.
pub open spec fn may_edit_profile(is_self: bool, actor: u32, target: u32, actor_group_id: i32) -> bool {
    (is_self || manages(actor, target)) && actor_group_id != BANNED_USER_GROUP
}

/// Authorises a change to a profile. `is_self` says whether the
/// profile is the actor's own; `target` is the profile's group, which is
/// not read when it is. On success, whether the change is made with a
/// manager's authority (over someone else's profile).
pub fn check_profile_edit(is_self: bool, actor: FinePermission, target: FinePermission, actor_group_id: i32) -> (r:
    Result<bool, DatabaseError>)
    ensures
        r is Ok <==> may_edit_profile(is_self, actor.bits, target.bits, actor_group_id),
        r matches Ok(m) ==> m == !is_self,
        r matches Err(e) ==> e == DatabaseError::NotAllowed,
{
    let mut as_manager = false;
    if !is_self {
        if let Err(e) = check_manager_edit(actor, target) {
            return Err(e);
        }
        as_manager = true;
    }
    if actor_group_id == BANNED_USER_GROUP {
        return Err(DatabaseError::NotAllowed);
    }
    Ok(as_manager)
}

/// Whether a user of group `actor` may change the badges or labels of a
/// user of group `target`: helpers may, but only managers may change a
/// helper's.
pub open spec fn may_edit_marks(actor: u32, target: u32) -> bool {
    is_helper(actor) && !(is_helper(target) && !is_manager(actor))
}

/// Authorises staff to change a user's badges or labels.
pub fn check_staff_edit(actor: FinePermission, target: FinePermission) -> (r: Result<(), DatabaseError>)
    ensures
        r is Ok <==> may_edit_marks(actor.bits, target.bits),
        r matches Err(e) ==> e == DatabaseError::NotAllowed,
{
    if !actor.check_helper() {
        return Err(DatabaseError::NotAllowed);
    }
    if target.check_helper() && !actor.check_manager() {
        return Err(DatabaseError::NotAllowed);
    }
    Ok(())
}

/// Management runs one way: where a user may manage another, the other may
/// not manage them back; and whoever may manage a user may also change that
/// user's badges and labels.
pub proof fn law_management_is_one_way(a: u32, b: u32)
    ensures
        manages(a, b) ==> !manages(b, a),
        manages(a, b) ==> may_edit_marks(a, b),
{
}

} // verus!
