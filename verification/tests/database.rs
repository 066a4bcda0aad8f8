use rainbeam_core::database::{
    plan_profile_deletion, question_mark_placeholders, DeletionKind,
    audit_notice, validate_new_label,
    check_may_follow, check_new_profile, check_username, check_username_change, is_allowed_custom_key,
    is_banned_username, is_digit, may_act_on, may_delete_profile, plan_follow_toggle, plan_relationship,
    plan_transaction, request_relationship, requested_username, sanitize_metadata, stored_username,
    validate_item_create, validate_item_edit, validate_username, FollowPlan, RelationshipNotice,
    RelationshipRequest, RelationshipWrite,
};
use rainbeam_core::model::{DatabaseError, ItemCreate, ItemEdit, ItemType, ProfileMetadata, RelationshipStatus};
use rainbeam_core::permissions::{FinePermission, ADMINISTRATOR, CREATE_LABEL, DEFAULT, DELETE_USER, ECON_MASTER};

fn metadata_with(pairs: &[(&str, &str)]) -> ProfileMetadata {
    let mut m = ProfileMetadata::from_email("e@x.y".to_string());
    for (k, v) in pairs {
        m.kv.insert(k.to_string(), v.to_string());
    }
    m
}

#[test]
fn custom_keys_and_reserved_names() {
    assert!(is_allowed_custom_key("sparkler:biography"));
    assert!(is_allowed_custom_key("rainbeam:do_not_send_global_questions_to_friends"));
    assert!(!is_allowed_custom_key("sparkler:layout"));
    assert!(!is_allowed_custom_key(""));
    assert!(is_banned_username("admin"));
    assert!(is_banned_username(".well-known"));
    assert!(!is_banned_username("Admin"));
}

#[test]
fn metadata_is_sanitised() {
    let m = metadata_with(&[("sparkler:biography", "hi"), ("evil", &"x".repeat(5000))]);
    let clean = sanitize_metadata(m).expect("accepted");
    assert_eq!(clean.kv.len(), 1);
    assert_eq!(clean.kv.get("sparkler:biography"), Some(&"hi".to_string()));
    assert_eq!(clean.email, "e@x.y");
    let long = metadata_with(&[("sparkler:biography", &"x".repeat(4097))]);
    assert_eq!(sanitize_metadata(long).err(), Some(DatabaseError::TooLong));
    let css = metadata_with(&[("sparkler:custom_css", &"x".repeat(8000))]);
    assert!(sanitize_metadata(css).is_ok());
}

#[test]
fn usernames() {
    assert_eq!(validate_username("ok_user"), Ok(()));
    assert_eq!(validate_username("bad!name.x-y"), Ok(()));
    assert_eq!(validate_username("héllo"), Ok(()));
    assert_eq!(validate_username("a b"), Err(DatabaseError::ValueError));
    assert_eq!(validate_username("semi;colon"), Err(DatabaseError::ValueError));
    assert_eq!(validate_username("x"), Err(DatabaseError::ValueError));
    assert_eq!(validate_username(&"a".repeat(501)), Err(DatabaseError::ValueError));
    assert_eq!(validate_username(&"a".repeat(500)), Ok(()));
    assert_eq!(validate_username("admin"), Err(DatabaseError::ValueError));
}

#[test]
fn username_checks_given_the_search() {
    assert_eq!(check_username("fine", Some(false)), Ok(()));
    assert_eq!(check_username("fine", Some(true)), Err(DatabaseError::ValueError));
    assert_eq!(check_username("fine", None), Err(DatabaseError::ValueError));
    assert_eq!(check_username("system", Some(false)), Err(DatabaseError::ValueError));
}

#[test]
fn new_profiles() {
    assert_eq!(requested_username("  bob \n"), "bob");
    assert_eq!(stored_username("BoB"), "bob");
    assert_eq!(check_new_profile(false, true, false, "bob"), Err(DatabaseError::NotAllowed));
    assert_eq!(check_new_profile(true, false, false, "bob"), Err(DatabaseError::NotAllowed));
    assert_eq!(check_new_profile(true, true, true, "bob"), Err(DatabaseError::MustBeUnique));
    assert_eq!(check_new_profile(true, true, false, "b b"), Err(DatabaseError::ValueError));
    assert_eq!(check_new_profile(true, true, false, "bob"), Ok(()));
}

#[test]
fn renames() {
    assert_eq!(check_username_change(true, "bob", true), Err(DatabaseError::MustBeUnique));
    assert_eq!(check_username_change(false, "inbox", true), Err(DatabaseError::ValueError));
    assert_eq!(check_username_change(false, "bob", false), Err(DatabaseError::NotAllowed));
    assert_eq!(check_username_change(false, "bob", true), Ok(()));
}

#[test]
fn digits() {
    assert!(is_digit("123"));
    assert!(!is_digit("12a"));
    assert!(is_digit(""));
    assert!(is_digit("٣½"));
    assert!(!is_digit("-1"));
}

#[test]
fn acting_on_owned_things() {
    let user = FinePermission::from_bits_retain(DEFAULT);
    let econ = FinePermission::from_bits_retain(ECON_MASTER);
    assert!(may_act_on("a", "a", user, econ));
    assert!(!may_act_on("a", "b", user, econ));
    assert!(may_act_on("a", "b", econ, econ));
    assert!(may_act_on("a", "b", FinePermission::from_bits_retain(ADMINISTRATOR), econ));
    assert_eq!(may_delete_profile(user), Ok(()));
    assert_eq!(may_delete_profile(FinePermission::from_bits_retain(DELETE_USER)), Err(DatabaseError::NotAllowed));
}

fn item(content: &str, name: &str, description: &str, cost: i32) -> ItemCreate {
    ItemCreate {
        name: name.to_string(),
        description: description.to_string(),
        content: content.to_string(),
        cost,
        item_type: ItemType::Text,
    }
}

#[test]
fn new_items() {
    assert_eq!(validate_item_create(&item("body", "name", "", 5)), Ok(()));
    assert_eq!(validate_item_create(&item("body", "name", "", -1)), Ok(()));
    assert_eq!(validate_item_create(&item(&"c".repeat(16385), "name", "", 5)), Err(DatabaseError::TooLong));
    assert_eq!(validate_item_create(&item("c", "name", "", 5)), Err(DatabaseError::ValueError));
    assert_eq!(validate_item_create(&item("body", &"n".repeat(129), "", 5)), Err(DatabaseError::TooLong));
    assert_eq!(validate_item_create(&item("body", "n", "", 5)), Err(DatabaseError::ValueError));
    assert_eq!(validate_item_create(&item("body", "name", &"d".repeat(8193), 5)), Err(DatabaseError::TooLong));
    assert_eq!(validate_item_create(&item("body", "name", "", -2)), Err(DatabaseError::NotAllowed));
}

#[test]
fn item_edits() {
    let user = FinePermission::from_bits_retain(DEFAULT);
    let edit = ItemEdit { name: "name".to_string(), description: String::new(), cost: 3 };
    assert_eq!(validate_item_edit(&edit, "me", "me", user), Ok(()));
    assert_eq!(validate_item_edit(&edit, "me", "you", user), Err(DatabaseError::NotAllowed));
    assert_eq!(validate_item_edit(&edit, "me", "you", FinePermission::from_bits_retain(ECON_MASTER)), Ok(()));
    let bad = ItemEdit { name: "n".to_string(), description: String::new(), cost: 3 };
    assert_eq!(validate_item_edit(&bad, "me", "me", user), Err(DatabaseError::ValueError));
    let cheap = ItemEdit { name: "name".to_string(), description: String::new(), cost: -5 };
    assert_eq!(validate_item_edit(&cheap, "me", "me", user), Err(DatabaseError::NotAllowed));
}

fn steps(
    current: RelationshipStatus,
    stored: (&str, &str),
    req: (&str, &str),
    status: RelationshipStatus,
) -> (Vec<(RelationshipWrite, String, String, RelationshipStatus)>, i8, RelationshipNotice) {
    let p = plan_relationship(current, stored.0, stored.1, req.0, req.1, status, false, false, false).expect("planned");
    (p.steps.into_iter().map(|s| (s.write, s.one, s.two, s.status)).collect(), p.friends_delta, p.notice)
}

#[test]
fn relationship_plans() {
    let (s, d, n) = steps(RelationshipStatus::Unknown, ("a", "b"), ("a", "b"), RelationshipStatus::Pending);
    assert_eq!(s, vec![(RelationshipWrite::Insert, "a".to_string(), "b".to_string(), RelationshipStatus::Pending)]);
    assert_eq!((d, n), (0, RelationshipNotice::FriendRequest));

    let (s, d, n) = steps(RelationshipStatus::Pending, ("a", "b"), ("b", "a"), RelationshipStatus::Friends);
    assert_eq!(s, vec![(RelationshipWrite::Update, "a".to_string(), "b".to_string(), RelationshipStatus::Friends)]);
    assert_eq!((d, n), (1, RelationshipNotice::RequestAccepted));

    let (s, d, n) = steps(RelationshipStatus::Friends, ("a", "b"), ("b", "a"), RelationshipStatus::Unknown);
    assert_eq!(s, vec![(RelationshipWrite::Delete, "a".to_string(), "b".to_string(), RelationshipStatus::Unknown)]);
    assert_eq!((d, n), (-1, RelationshipNotice::Silent));

    let (s, d, _) = steps(RelationshipStatus::Friends, ("a", "b"), ("b", "a"), RelationshipStatus::Blocked);
    assert_eq!(
        s,
        vec![
            (RelationshipWrite::Delete, "a".to_string(), "b".to_string(), RelationshipStatus::Unknown),
            (RelationshipWrite::Insert, "b".to_string(), "a".to_string(), RelationshipStatus::Blocked),
        ]
    );
    assert_eq!(d, -1);

    let (s, d, _) = steps(RelationshipStatus::Friends, ("a", "b"), ("a", "b"), RelationshipStatus::Blocked);
    assert_eq!(s, vec![(RelationshipWrite::Update, "a".to_string(), "b".to_string(), RelationshipStatus::Blocked)]);
    assert_eq!(d, -1);

    let (s, d, n) = steps(RelationshipStatus::Friends, ("a", "b"), ("a", "b"), RelationshipStatus::Friends);
    assert!(s.is_empty());
    assert_eq!((d, n), (0, RelationshipNotice::Silent));
}

#[test]
fn limited_friend_requests() {
    let refused = plan_relationship(RelationshipStatus::Unknown, "a", "b", "a", "b", RelationshipStatus::Pending, true, false, false);
    assert_eq!(refused.err(), Some(DatabaseError::NotAllowed));
    let allowed = plan_relationship(RelationshipStatus::Unknown, "a", "b", "a", "b", RelationshipStatus::Pending, true, true, true).expect("planned");
    assert_eq!(allowed.notice, RelationshipNotice::Silent);
    assert_eq!(allowed.steps.len(), 1);
}

#[test]
fn relationship_requests() {
    assert_eq!(request_relationship(RelationshipRequest::Friend, RelationshipStatus::Unknown, "", "me"), Ok(RelationshipStatus::Pending));
    assert_eq!(request_relationship(RelationshipRequest::Friend, RelationshipStatus::Pending, "me", "me"), Ok(RelationshipStatus::Pending));
    assert_eq!(request_relationship(RelationshipRequest::Friend, RelationshipStatus::Pending, "them", "me"), Ok(RelationshipStatus::Friends));
    assert_eq!(request_relationship(RelationshipRequest::Friend, RelationshipStatus::Friends, "me", "me"), Ok(RelationshipStatus::Unknown));
    assert_eq!(request_relationship(RelationshipRequest::Block, RelationshipStatus::Friends, "them", "me"), Ok(RelationshipStatus::Blocked));
    assert_eq!(request_relationship(RelationshipRequest::Remove, RelationshipStatus::Blocked, "me", "me"), Ok(RelationshipStatus::Unknown));
    assert_eq!(request_relationship(RelationshipRequest::Remove, RelationshipStatus::Blocked, "them", "me"), Err(DatabaseError::NotAllowed));
    assert_eq!(request_relationship(RelationshipRequest::Friend, RelationshipStatus::Blocked, "them", "me"), Err(DatabaseError::NotAllowed));
    assert_eq!(check_may_follow(RelationshipStatus::Blocked), Err(DatabaseError::NotAllowed));
    assert_eq!(check_may_follow(RelationshipStatus::Friends), Ok(()));
}

#[test]
fn follow_toggles() {
    assert_eq!(plan_follow_toggle("a", "b", false), Ok(FollowPlan::Follow));
    assert_eq!(plan_follow_toggle("a", "b", true), Ok(FollowPlan::Unfollow));
    assert_eq!(plan_follow_toggle("a", "a", false), Err(DatabaseError::Other));
}

#[test]
fn transactions() {
    let p = plan_transaction("a", 100, "b", 10, -30).expect("affordable");
    assert_eq!((p.customer_coins, p.merchant_coins, p.notify_customer), (70, 40, true));
    assert_eq!(p.customer_coins + p.merchant_coins, 110);
    assert_eq!(plan_transaction("a", 100, "b", 10, -200).err(), Some(DatabaseError::TooExpensive));
    let same = plan_transaction("a", 100, "a", 100, -30).expect("affordable");
    assert_eq!((same.customer_coins, same.merchant_coins, same.notify_customer), (100, 100, false));
    let system = plan_transaction("a", 100, "0", 0, -30).expect("affordable");
    assert!(!system.notify_customer);
    let gift = plan_transaction("a", 100, "b", 10, 5).expect("gift");
    assert_eq!((gift.customer_coins, gift.merchant_coins), (105, 15));
    let exact = plan_transaction("a", 30, "b", 0, -30).expect("affordable");
    assert_eq!(exact.customer_coins, 0);
}

#[test]
fn audit_log_entries() {
    let n = audit_notice("42", "Banned an IP: 1.2.3.4");
    assert_eq!(n.title, "[42](/+u/42)");
    assert_eq!(n.content, "Banned an IP: 1.2.3.4");
    assert_eq!(n.address, "/+u/42");
    assert_eq!(n.recipient, "*(audit)");
}

#[test]
fn new_labels() {
    let maker = FinePermission::from_bits_retain(CREATE_LABEL);
    let user = FinePermission::from_bits_retain(DEFAULT);
    assert_eq!(validate_new_label(user, "good"), Err(DatabaseError::NotAllowed));
    assert_eq!(validate_new_label(maker, "good"), Ok(()));
    assert_eq!(validate_new_label(maker, "g"), Err(DatabaseError::Other));
    assert_eq!(validate_new_label(maker, &"g".repeat(33)), Err(DatabaseError::Other));
    assert_eq!(validate_new_label(maker, &"g".repeat(32)), Ok(()));
}

#[test]
fn placeholder_styles() {
    assert!(question_mark_placeholders("sqlite"));
    assert!(question_mark_placeholders("mysql"));
    assert!(!question_mark_placeholders("postgres"));
}

#[test]
fn deleting_a_profile() {
    let steps = plan_profile_deletion("42", "bob", true, false);
    assert_eq!(steps.len(), 20);
    assert_eq!(steps[0].kind, DeletionKind::Execute);
    assert_eq!(steps[0].text, "DELETE FROM \"xprofiles\" WHERE \"id\" = ?");
    assert_eq!(steps[0].binds, vec!["42".to_string()]);
    assert_eq!(steps[3].binds, vec!["42".to_string(), "42".to_string()]);
    assert_eq!(steps[7].text, "DELETE FROM \"xresponses\" WHERE \"question\" LIKE ?");
    assert_eq!(steps[7].binds, vec!["%\"author\":\"42\"%".to_string()]);
    assert_eq!(steps[8].kind, DeletionKind::ForgetCache);
    assert_eq!(steps[8].text, "rbeam.app.response_count:42");
    assert_eq!(steps[16].text, "rbeam.auth.profile:bob");
    assert!(steps[19].binds.is_empty());
    let pg = plan_profile_deletion("42", "bob", false, true);
    assert_eq!(pg.len(), 22);
    assert_eq!(pg[3].text, "DELETE FROM \"xfollows\" WHERE \"user\" = $1 OR \"following\" = $2");
    assert_eq!(pg[20].kind, DeletionKind::RemoveUpload);
    assert_eq!(pg[20].text, "avatars/42.avif");
    assert_eq!(pg[21].text, "banners/42.avif");
}
