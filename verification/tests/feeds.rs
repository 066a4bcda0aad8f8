use rainbeam_core::database::{relationship_notification, RelationshipNotice};
use rainbeam_core::model::{DatabaseError, RelationshipStatus, TokenContext};
use rainbeam_core::permissions::{
    FinePermission, BAN_IP, DEFAULT, DELETE_USER, MANAGE_COMMENTS, MANAGE_QUESTIONS, MANAGE_RESPONSES,
    MANAGE_WARNINGS, UNBAN_IP, VIEW_AUDIT_LOG, VIEW_PROFILE_MANAGE, VIEW_REPORTS,
};
use rainbeam_core::profile_view::{author_relationships, check_inbox_view, check_outbox_view};
use rainbeam_core::text::trim_str;
use rainbeam_core::tokens::prune_token_lists;

fn helper_bits() -> u32 {
    MANAGE_QUESTIONS | MANAGE_RESPONSES | MANAGE_COMMENTS | MANAGE_WARNINGS | VIEW_REPORTS | VIEW_AUDIT_LOG
}

fn manager() -> FinePermission {
    FinePermission::from_bits_retain(helper_bits() | DELETE_USER | BAN_IP | UNBAN_IP | VIEW_PROFILE_MANAGE)
}

fn strings(v: &[&str]) -> Vec<String> {
    v.iter().map(|s| s.to_string()).collect()
}

#[test]
fn friend_request_notification() {
    let n = relationship_notification(RelationshipNotice::FriendRequest, "id1", "alice", "id2", "bob").unwrap();
    assert_eq!(n.title, "[@alice](/+u/id1) has sent you a friend request!");
    assert_eq!(n.content, "alice wants to be your friend.");
    assert_eq!(n.address, "/@id1/relationship/friend_accept");
    assert_eq!(n.recipient, "id2");
}

#[test]
fn accepted_request_notification() {
    let n = relationship_notification(RelationshipNotice::RequestAccepted, "id1", "alice", "id2", "bob").unwrap();
    assert_eq!(n.title, "Your friend request has been accepted!");
    assert_eq!(n.content, "[@bob](/@bob) has accepted your friend request.");
    assert_eq!(n.address, "");
    assert_eq!(n.recipient, "id1");
}

#[test]
fn silent_relationship_changes_send_nothing() {
    assert!(relationship_notification(RelationshipNotice::Silent, "id1", "alice", "id2", "bob").is_none());
}

#[test]
fn inbox_is_for_managers() {
    assert_eq!(check_inbox_view(manager()), Ok(()));
    assert_eq!(check_inbox_view(FinePermission::from_bits_retain(helper_bits())), Err(DatabaseError::NotAllowed));
    assert_eq!(check_inbox_view(FinePermission::from_bits_retain(DEFAULT)), Err(DatabaseError::NotAllowed));
}

#[test]
fn outbox_is_for_managers_and_the_owner() {
    let user = FinePermission::from_bits_retain(DEFAULT);
    assert_eq!(check_outbox_view(manager(), "a", "b"), Ok(()));
    assert_eq!(check_outbox_view(user, "b", "b"), Ok(()));
    assert_eq!(check_outbox_view(user, "a", "b"), Err(DatabaseError::NotAllowed));
}

#[test]
fn feed_relationships_for_a_viewer() {
    let authors = strings(&["x", "me", "x", "y"]);
    let stored = vec![
        RelationshipStatus::Blocked,
        RelationshipStatus::Unknown,
        RelationshipStatus::Friends,
        RelationshipStatus::Pending,
    ];
    let r = author_relationships(&Some("me".to_string()), false, &authors, &stored);
    assert_eq!(
        r,
        vec![
            ("x".to_string(), RelationshipStatus::Blocked),
            ("me".to_string(), RelationshipStatus::Friends),
            ("y".to_string(), RelationshipStatus::Pending),
        ]
    );
}

#[test]
fn feed_relationships_for_staff_and_strangers() {
    let authors = strings(&["x", "y"]);
    let stored = vec![RelationshipStatus::Blocked, RelationshipStatus::Pending];
    let staff = author_relationships(&Some("me".to_string()), true, &authors, &stored);
    assert_eq!(
        staff,
        vec![("x".to_string(), RelationshipStatus::Friends), ("y".to_string(), RelationshipStatus::Friends)]
    );
    let nobody = author_relationships(&None, false, &authors, &stored);
    assert_eq!(
        nobody,
        vec![("x".to_string(), RelationshipStatus::Unknown), ("y".to_string(), RelationshipStatus::Unknown)]
    );
    assert!(author_relationships(&None, false, &Vec::new(), &Vec::new()).is_empty());
}

#[test]
fn pruned_entries_stay_beside_their_tokens() {
    let tokens = strings(&["t0", "t1", "t2", "t3", "t4"]);
    let kept = strings(&["t1", "t2", "t4"]);
    let mut ips = strings(&["i0", "i1", "i2", "i3", "i4"]);
    let mut contexts: Vec<TokenContext> = (0..5).map(|t| TokenContext::new_at(t)).collect();
    prune_token_lists(&tokens, &kept, &mut ips, &mut contexts);
    assert_eq!(ips, strings(&["i1", "i2", "i4"]));
    assert_eq!(contexts.iter().map(|c| c.timestamp).collect::<Vec<_>>(), vec![1, 2, 4]);
}

#[test]
fn trimming_white_space() {
    assert_eq!(trim_str("  a b \t\n"), "a b");
    assert_eq!(trim_str("\u{2000}x\u{205F}"), "x");
    assert_eq!(trim_str("\u{200B}x"), "\u{200B}x");
    assert_eq!(trim_str(" \u{3000} "), "");
    assert_eq!(trim_str(""), "");
}
