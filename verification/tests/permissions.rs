use rainbeam_core::permissions::{
    FinePermission, ADMINISTRATOR, BAN_IP, DEFAULT, DELETE_USER, ECON_MASTER, MANAGE_COMMENTS,
    MANAGE_QUESTIONS, MANAGE_RESPONSES, MANAGE_WARNINGS, UNBAN_IP, VIEW_AUDIT_LOG, VIEW_PROFILE_MANAGE,
    VIEW_REPORTS,
};

fn helper_bits() -> u32 {
    MANAGE_QUESTIONS | MANAGE_RESPONSES | MANAGE_COMMENTS | MANAGE_WARNINGS | VIEW_REPORTS | VIEW_AUDIT_LOG
}

fn manager_bits() -> u32 {
    helper_bits() | DELETE_USER | BAN_IP | UNBAN_IP | VIEW_PROFILE_MANAGE
}

#[test]
fn administrator_is_granted_everything() {
    let admin = FinePermission::from_bits_retain(ADMINISTRATOR);
    assert!(admin.check(FinePermission::from_bits_retain(DELETE_USER)));
    assert!(admin.check(FinePermission::from_bits_retain(ECON_MASTER | BAN_IP)));
    assert!(admin.check_helper());
    assert!(admin.check_manager());
}

#[test]
fn check_needs_every_bit() {
    let p = FinePermission::from_bits_retain(MANAGE_QUESTIONS);
    assert!(p.check(FinePermission::from_bits_retain(MANAGE_QUESTIONS)));
    assert!(!p.check(FinePermission::from_bits_retain(MANAGE_QUESTIONS | MANAGE_RESPONSES)));
    assert!(!p.check(FinePermission::from_bits_retain(DELETE_USER)));
}

#[test]
fn check_is_reflexive() {
    for bits in [0u32, DEFAULT, helper_bits(), manager_bits(), 0xdead_beef] {
        let p = FinePermission::from_bits_retain(bits);
        assert!(p.check(p));
    }
}

#[test]
fn join_grants_both_parts() {
    let a = FinePermission::from_bits_retain(MANAGE_QUESTIONS);
    let b = FinePermission::from_bits_retain(BAN_IP);
    let j = FinePermission::join(a, b);
    assert_eq!(j.bits(), MANAGE_QUESTIONS | BAN_IP);
    assert!(j.check(a));
    assert!(j.check(b));
    assert_eq!(FinePermission::join(b, a).bits(), j.bits());
}

#[test]
fn helper_and_manager_requirements() {
    let helper = FinePermission::from_bits_retain(helper_bits());
    assert!(helper.check_helper());
    assert!(!helper.check_manager());
    let manager = FinePermission::from_bits_retain(manager_bits());
    assert!(manager.check_helper());
    assert!(manager.check_manager());
    let almost = FinePermission::from_bits_retain(manager_bits() & !UNBAN_IP);
    assert!(!almost.check_manager());
    assert!(!FinePermission::default().check_helper());
}

#[test]
fn default_permission_is_the_default_bit() {
    assert_eq!(FinePermission::default().bits(), DEFAULT);
    assert_eq!(DEFAULT, 1);
    assert_eq!(ADMINISTRATOR, 2);
}
