//! Fine-grained permissions built using bitwise operations.
use vstd::prelude::*;

verus! {

pub const DEFAULT: u32 = 1;
pub const ADMINISTRATOR: u32 = 2;
pub const MANAGE_RESPONSES: u32 = 4;
pub const MANAGE_COMMENTS: u32 = 8;
pub const MANAGE_QUESTIONS: u32 = 16;
pub const MANAGE_CHATS: u32 = 32;
pub const MANAGE_MESSAGES: u32 = 64;
pub const MANAGE_MAILS: u32 = 128;
pub const MANAGE_NOTIFICATIONS: u32 = 256;
pub const MANAGE_CIRCLES: u32 = 512;
pub const BAN_IP: u32 = 1024;
pub const UNBAN_IP: u32 = 2048;
pub const APPROVE_MARKETPLACE_ITEMS: u32 = 4096;
pub const VIEW_PROFILE_MANAGE: u32 = 8192;
pub const VIEW_AUDIT_LOG: u32 = 16384;
pub const VIEW_REPORTS: u32 = 32768;
pub const MANAGE_PROFILE_GROUP: u32 = 65536;
pub const MANAGE_PROFILE_TIER: u32 = 131072;
pub const MANAGE_PROFILE_SETTINGS: u32 = 262144;
pub const MANAGE_GROUP_PERMISSIONS: u32 = 524288;
pub const PROMOTE_USERS: u32 = 1048576;
pub const EDIT_USER: u32 = 2097152;
pub const ECON_MASTER: u32 = 4194304;
pub const DELETE_USER: u32 = 8388608;
pub const CREATE_LABEL: u32 = 16777216;
pub const MANAGE_WARNINGS: u32 = 33554432;
pub const MANAGE_REACTIONS: u32 = 67108864;
pub const EXPORT_DATA: u32 = 134217728;
pub const MANAGE_LABELS: u32 = 268435456;

/// A set of permissions, one bit per permission. Every bit pattern is a
/// valid value (unknown bits are kept).
#[derive(Clone, Copy, Debug, PartialEq, Eq, Structural)]
pub struct FinePermission {
    pub bits: u32,
}

/// Whether the permission set `has` grants `wanted`: administrators are
/// granted everything, everyone else needs every bit of `wanted`.
pub open spec fn grants(has: u32, wanted: u32) -> bool {
    (has & ADMINISTRATOR) == ADMINISTRATOR || (has & wanted) == wanted
}

/// The "helper" requirement: managing questions, responses, comments and
/// warnings, and viewing reports and the audit log.
pub open spec fn is_helper(has: u32) -> bool {
    &&& grants(has, MANAGE_QUESTIONS)
    &&& grants(has, MANAGE_RESPONSES)
    &&& grants(has, MANAGE_COMMENTS)
    &&& grants(has, MANAGE_WARNINGS)
    &&& grants(has, VIEW_REPORTS)
    &&& grants(has, VIEW_AUDIT_LOG)
}

/// The "manager" requirement: helper, plus deleting users, banning and
/// unbanning IPs and viewing the profile management page.
pub open spec fn is_manager(has: u32) -> bool {
    &&& is_helper(has)
    &&& grants(has, DELETE_USER)
    &&& grants(has, BAN_IP)
    &&& grants(has, UNBAN_IP)
    &&& grants(has, VIEW_PROFILE_MANAGE)
}

impl FinePermission {
    /// The permission set holding exactly `bits`.
    pub fn from_bits_retain(bits: u32) -> (r: FinePermission)
        ensures
            r.bits == bits,
    {
        FinePermission { bits }
    }

    /// The raw bits of the set.
    pub fn bits(&self) -> (r: u32)
        ensures
            r == self.bits,
    {
        self.bits
    }

    /// Join two [`FinePermission`]s into a single set.
    pub fn join(lhs: FinePermission, rhs: FinePermission) -> (r: FinePermission)
        ensures
            r.bits == lhs.bits | rhs.bits,
    {
        FinePermission { bits: lhs.bits | rhs.bits }
    }

    /// Check if this set grants the given permission.
    pub fn check(self, permission: FinePermission) -> (r: bool)
        ensures
            r == grants(self.bits, permission.bits),
    {
        if (self.bits & ADMINISTRATOR) == ADMINISTRATOR {
            return true;
        }
        (self.bits & permission.bits) == permission.bits
    }

    /// Check if this set qualifies as "Helper" status.
    pub fn check_helper(self) -> (r: bool)
        ensures
            r == is_helper(self.bits),
    {
        self.check(FinePermission { bits: MANAGE_QUESTIONS })
            && self.check(FinePermission { bits: MANAGE_RESPONSES })
            && self.check(FinePermission { bits: MANAGE_COMMENTS })
            && self.check(FinePermission { bits: MANAGE_WARNINGS })
            && self.check(FinePermission { bits: VIEW_REPORTS })
            && self.check(FinePermission { bits: VIEW_AUDIT_LOG })
    }

    /// Check if this set qualifies as "Manager" status.
    pub fn check_manager(self) -> (r: bool)
        ensures
            r == is_manager(self.bits),
    {
        self.check_helper()
            && self.check(FinePermission { bits: DELETE_USER })
            && self.check(FinePermission { bits: BAN_IP })
            && self.check(FinePermission { bits: UNBAN_IP })
            && self.check(FinePermission { bits: VIEW_PROFILE_MANAGE })
    }
}

impl Default for FinePermission {
    fn default() -> (r: FinePermission)
        ensures
            r.bits == DEFAULT,
    {
        FinePermission { bits: DEFAULT }
    }
}

/// Every permission set grants itself.
pub proof fn law_check_reflexive(a: u32)
    ensures
        grants(a, a),
{
    assert((a & a) == a) by (bit_vector);
}

/// An administrator is granted every permission.
pub proof fn law_administrator_grants_all(a: u32, p: u32)
    requires
        (a & ADMINISTRATOR) == ADMINISTRATOR,
    ensures
        grants(a, p),
{
}

/// A joined set grants everything either side grants.
pub proof fn law_join_keeps_grants(a: u32, b: u32, p: u32)
    requires
        grants(a, p),
    ensures
        grants(a | b, p),
        grants(b | a, p),
{
    assert(((a & 2u32) == 2u32 || (a & p) == p) ==> (((a | b) & 2u32) == 2u32 || ((a | b) & p) == p))
        by (bit_vector);
    assert(((a & 2u32) == 2u32 || (a & p) == p) ==> (((b | a) & 2u32) == 2u32 || ((b | a) & p) == p))
        by (bit_vector);
}

/// A joined set grants both of its parts.
pub proof fn law_join_grants_parts(a: u32, b: u32)
    ensures
        grants(a | b, a),
        grants(a | b, b),
{
    assert(((a | b) & a) == a && ((a | b) & b) == b) by (bit_vector);
}

/// Joining is commutative and associative.
pub proof fn law_join_commutative_associative(a: u32, b: u32, c: u32)
    ensures
        a | b == b | a,
        (a | b) | c == a | (b | c),
{
    assert(a | b == b | a && (a | b) | c == a | (b | c)) by (bit_vector);
}

/// Granting is transitive: if `a` grants `b` and `b` grants `c`, then `a`
/// grants `c`.
pub proof fn law_check_transitive(a: u32, b: u32, c: u32)
    requires
        grants(a, b),
        grants(b, c),
    ensures
        grants(a, c),
{
    assert((((a & 2u32) == 2u32 || (a & b) == b) && ((b & 2u32) == 2u32 || (b & c) == c))
        ==> ((a & 2u32) == 2u32 || (a & c) == c)) by (bit_vector);
}

/// Every manager is a helper.
pub proof fn law_manager_is_helper(a: u32)
    requires
        is_manager(a),
    ensures
        is_helper(a),
{
}

} // verus!
