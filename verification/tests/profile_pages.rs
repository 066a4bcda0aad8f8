use rainbeam_core::blog::{may_change_post, validate_new_post, DatabaseError as BlogError};
use rainbeam_core::model::{DatabaseError, ProfileMetadata, RelationshipStatus};
use rainbeam_core::profile_view::{
    check_not_blocked, check_social_visible, contains_str, keeps_pinned, pinned_ids, profile_page_flags, split_char,
    viewer_relationship,
};

fn metadata_with(pairs: &[(&str, &str)]) -> ProfileMetadata {
    let mut m = ProfileMetadata::from_email("e@x.y".to_string());
    for (k, v) in pairs {
        m.kv.insert(k.to_string(), v.to_string());
    }
    m
}

#[test]
fn page_flags() {
    let m = metadata_with(&[
        ("sparkler:layout", "{\"json\":\"x.json\"}"),
        ("sparkler:lock_profile", "true"),
        ("sparkler:disallow_anonymous", "false"),
        ("sparkler:private_social", "true"),
    ]);
    let other = profile_page_flags(&m, false);
    assert_eq!(other.layout, "{\"json\":\"x.json\"}");
    assert!(other.lock_profile);
    assert!(!other.disallow_anonymous);
    assert!(!other.require_account);
    assert!(other.hide_social);
    let own = profile_page_flags(&m, true);
    assert!(!own.hide_social);
    let empty = profile_page_flags(&ProfileMetadata::default(), false);
    assert_eq!(empty.layout, "");
    assert!(!empty.lock_profile && !empty.hide_social);
}

#[test]
fn relationship_shown_to_the_viewer() {
    assert_eq!(viewer_relationship(true, Some(RelationshipStatus::Blocked)), RelationshipStatus::Friends);
    assert_eq!(viewer_relationship(false, Some(RelationshipStatus::Pending)), RelationshipStatus::Pending);
    assert_eq!(viewer_relationship(false, None), RelationshipStatus::Unknown);
    assert_eq!(check_not_blocked(RelationshipStatus::Blocked, false), Err(DatabaseError::NotFound));
    assert_eq!(check_not_blocked(RelationshipStatus::Blocked, true), Ok(()));
    assert_eq!(check_not_blocked(RelationshipStatus::Friends, false), Ok(()));
}

#[test]
fn splitting() {
    assert_eq!(split_char("a,b,,c", ','), vec!["a", "b", "", "c"]);
    assert_eq!(split_char("abc", ','), vec!["abc"]);
    assert_eq!(split_char("", ','), vec![""]);
    assert_eq!(split_char("x,", ','), vec!["x", ""]);
}

#[test]
fn pinned_responses() {
    assert_eq!(pinned_ids(&metadata_with(&[("sparkler:pinned", "1,2")])), Some(vec!["1".to_string(), "2".to_string()]));
    assert_eq!(pinned_ids(&metadata_with(&[("sparkler:pinned", "")])), None);
    assert_eq!(pinned_ids(&ProfileMetadata::default()), None);
    assert!(keeps_pinned("11,22", "me", "me", "22"));
    assert!(!keeps_pinned("11,22", "me", "you", "22"));
    assert!(!keeps_pinned("11,22", "me", "me", "33"));
    // the id is looked for anywhere in the setting
    assert!(keeps_pinned("11,22", "me", "me", "1,2"));
    assert!(contains_str("abc", ""));
    assert!(contains_str("abc", "abc"));
    assert!(!contains_str("ab", "abc"));
}

#[test]
fn blog_posts() {
    assert_eq!(validate_new_post(true, 0, "ok"), Err(BlogError::InvalidNameUnique));
    assert_eq!(validate_new_post(false, -1, "ok"), Err(BlogError::NotAllowed));
    assert_eq!(validate_new_post(false, 0, "x"), Err(BlogError::ContentTooLong));
    assert_eq!(validate_new_post(false, 0, &"s".repeat(33)), Err(BlogError::ContentTooLong));
    assert_eq!(validate_new_post(false, 0, "my-post"), Ok(()));
    assert_eq!(may_change_post("a", 0, "a"), Ok(()));
    assert_eq!(may_change_post("a", 0, "b"), Err(BlogError::NotAllowed));
    assert_eq!(may_change_post("a", -1, "a"), Err(BlogError::NotAllowed));
    assert_eq!(BlogError::NotFound.to_string(), "Nothing with this path exists or you do not have access to it!");
    assert_eq!(BlogError::Other.to_string(), "An unspecified error has occured");
}

#[test]
fn private_social_lists() {
    let private = metadata_with(&[("sparkler:private_social", "true")]);
    assert_eq!(check_social_visible(&private, false), Err(DatabaseError::NotAllowed));
    assert_eq!(check_social_visible(&private, true), Ok(()));
    let public = metadata_with(&[("sparkler:private_social", "yes")]);
    assert_eq!(check_social_visible(&public, false), Ok(()));
}
