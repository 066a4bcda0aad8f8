use rainbeam_core::circles::{clean_metadata_raw as clean_circle_metadata, CircleMetadata};
use rainbeam_core::kv::StringMap;
use rainbeam_core::model::ProfileMetadata;
use rainbeam_core::model::{DatabaseError, ItemStatus, ItemType};
use rainbeam_core::pages::{
    check_item_visible, check_mail_visible, check_theme_item, mailbox_owner, clean_metadata_raw, clean_metadata_short_raw, color_escape,
    item_status_notice, plan_market_listing, purchase_amount, remove_tags, restore_entities, MarketListing,
    MarketQuery,
};
use rainbeam_core::permissions::{
    FinePermission, BAN_IP, DEFAULT, DELETE_USER, MANAGE_COMMENTS, MANAGE_QUESTIONS, MANAGE_RESPONSES,
    MANAGE_WARNINGS, UNBAN_IP, VIEW_AUDIT_LOG, VIEW_PROFILE_MANAGE, VIEW_REPORTS,
};

fn metadata_with(pairs: &[(&str, &str)]) -> ProfileMetadata {
    let mut m = ProfileMetadata::from_email("e@x.y".to_string());
    for (k, v) in pairs {
        m.kv.insert(k.to_string(), v.to_string());
    }
    m
}

#[test]
fn scripts_are_dropped_with_their_content() {
    assert_eq!(remove_tags("<script>alert(1)</script>hi"), "hi");
}

#[test]
fn removed_tags_keep_their_text() {
    assert_eq!(remove_tags("<b>bold</b> <img src=x> <p>para</p>"), "<b>bold</b>  para");
}

#[test]
fn escaped_characters_come_back() {
    assert_eq!(remove_tags("a < b & c"), "a < b & c");
}

#[test]
fn entities_are_restored_in_order() {
    assert_eq!(restore_entities("&lt;x&gt; &amp;amp; </script>"), "<x> &amp; </not-script");
    assert_eq!(restore_entities("plain"), "plain");
}

#[test]
fn colors_are_escaped() {
    let c = "red; }<b>".to_string();
    assert_eq!(color_escape(&&&c), "red <b%gt;");
    let u = "url('x')".to_string();
    assert_eq!(color_escape(&&&u), "url('/api/v0/util/ext/image?img=x')");
}

#[test]
fn metadata_values_are_cleaned() {
    let m = metadata_with(&[
        ("a", "<style>x</style>"),
        ("b", "url(\"http://i\")"),
        ("c", "url(https://a)"),
    ]);
    let clean = clean_metadata_raw(&m);
    assert_eq!(clean.email, "e@x.y");
    assert!(clean.policy_consent);
    assert_eq!(clean.kv.get("a"), Some(&"&lt;style&gt;x&lt;/style&gt;".to_string()));
    assert_eq!(clean.kv.get("b"), Some(&"url(\"/api/v0/util/ext/image?img=http://i\")".to_string()));
    assert_eq!(clean.kv.get("c"), Some(&"url(/api/v0/util/ext/image?img=https://a)".to_string()));
    assert_eq!(clean.kv.len(), 3);
}

#[test]
fn short_metadata_cleaning_keeps_urls() {
    let m = metadata_with(&[("b", "url(\"http://i\")"), ("d", "1 > 0")]);
    let clean = clean_metadata_short_raw(&m);
    assert_eq!(clean.kv.get("b"), Some(&"url(\"http://i\")".to_string()));
    assert_eq!(clean.kv.get("d"), Some(&"1 &gt; 0".to_string()));
}

#[test]
fn circle_metadata_is_cleaned() {
    let mut kv = StringMap::new();
    kv.insert("about".to_string(), "<b>hi</b>".to_string());
    let clean = clean_circle_metadata(&CircleMetadata { kv });
    assert_eq!(clean.kv.get("about"), Some(&"&lt;b&gt;hi&lt;/b&gt;".to_string()));
}

fn helper_bits() -> u32 {
    MANAGE_QUESTIONS | MANAGE_RESPONSES | MANAGE_COMMENTS | MANAGE_WARNINGS | VIEW_REPORTS | VIEW_AUDIT_LOG
}

fn query(status: ItemStatus, creator: &str, item_type: Option<ItemType>) -> MarketQuery {
    MarketQuery { page: 0, q: String::new(), status, creator: creator.to_string(), item_type }
}

#[test]
fn market_listings() {
    let user = FinePermission::from_bits_retain(DEFAULT);
    let helper = FinePermission::from_bits_retain(helper_bits());
    let manager = FinePermission::from_bits_retain(helper_bits() | DELETE_USER | BAN_IP | UNBAN_IP | VIEW_PROFILE_MANAGE);
    assert_eq!(plan_market_listing("me", user, &query(ItemStatus::Approved, "", None)), Ok(MarketListing::ByStatus));
    assert_eq!(plan_market_listing("me", user, &query(ItemStatus::Featured, "", None)), Ok(MarketListing::ByStatus));
    assert_eq!(plan_market_listing("me", user, &query(ItemStatus::Pending, "", None)), Err(DatabaseError::NotAllowed));
    assert_eq!(plan_market_listing("me", helper, &query(ItemStatus::Pending, "", None)), Err(DatabaseError::NotAllowed));
    assert_eq!(plan_market_listing("me", manager, &query(ItemStatus::Pending, "", None)), Ok(MarketListing::ByStatus));
    assert_eq!(plan_market_listing("me", user, &query(ItemStatus::Approved, "me", None)), Ok(MarketListing::ByCreator));
    assert_eq!(
        plan_market_listing("me", user, &query(ItemStatus::Approved, "me", Some(ItemType::UserTheme))),
        Ok(MarketListing::ByCreatorAndType)
    );
    assert_eq!(plan_market_listing("me", user, &query(ItemStatus::Approved, "you", None)), Err(DatabaseError::NotAllowed));
    assert_eq!(plan_market_listing("me", helper, &query(ItemStatus::Approved, "you", None)), Ok(MarketListing::ByCreator));
}

#[test]
fn item_pages() {
    assert_eq!(check_item_visible("me", false, ItemStatus::Pending, "you"), Err(DatabaseError::NotAllowed));
    assert_eq!(check_item_visible("me", false, ItemStatus::Pending, "me"), Ok(()));
    assert_eq!(check_item_visible("me", true, ItemStatus::Rejected, "you"), Ok(()));
    assert_eq!(check_item_visible("me", false, ItemStatus::Featured, "you"), Ok(()));
    assert_eq!(check_theme_item(ItemType::UserTheme), Ok(()));
    assert_eq!(check_theme_item(ItemType::Text), Err(DatabaseError::ValueError));
    assert_eq!(purchase_amount(25), -25);
    assert_eq!(purchase_amount(-1), 1);
    let (title, content, address) = item_status_notice(ItemStatus::Featured, "42");
    assert_eq!(title, "Item status updated!");
    assert_eq!(content, "An item you created has been updated to the status of \"Featured\"");
    assert_eq!(address, "/market/item/42");
}

#[test]
fn mailboxes() {
    assert_eq!(mailbox_owner("me", "", false), Ok(("me".to_string(), false)));
    assert_eq!(mailbox_owner("me", "me", false), Ok(("me".to_string(), false)));
    assert_eq!(mailbox_owner("me", "you", false), Err(DatabaseError::NotAllowed));
    assert_eq!(mailbox_owner("me", "you", true), Ok(("you".to_string(), true)));
    let recipients = vec!["a".to_string(), "b".to_string()];
    assert_eq!(check_mail_visible("b", "c", &recipients, false), Ok(()));
    assert_eq!(check_mail_visible("c", "c", &recipients, false), Ok(()));
    assert_eq!(check_mail_visible("d", "c", &recipients, false), Err(DatabaseError::NotAllowed));
    assert_eq!(check_mail_visible("d", "c", &recipients, true), Ok(()));
}
