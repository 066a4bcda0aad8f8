use rainbeam_core::kv::StringMap;
use rainbeam_core::layout::ComponentName;
use rainbeam_core::model::{
    permission_in, DatabaseError, Group, ItemStatus, ItemType, Profile, ProfileMetadata, RelationshipStatus,
    TokenContext, TokenPermission,
};
use rainbeam_core::permissions::DEFAULT;

fn metadata_with(pairs: &[(&str, &str)]) -> ProfileMetadata {
    let mut m = ProfileMetadata::from_email("me@example.com".to_string());
    for (k, v) in pairs {
        m.kv.insert(k.to_string(), v.to_string());
    }
    m
}

#[test]
fn token_context_permissions() {
    let all = TokenContext::new_at(7);
    assert!(all.can_do(TokenPermission::Moderator));
    assert_eq!(all.timestamp, 7);
    assert_eq!(all.app_name(), "");

    let limited = TokenContext {
        app: Some("drawing app".to_string()),
        permissions: Some(vec![TokenPermission::ManageAssets, TokenPermission::SendMail]),
        timestamp: 1,
    };
    assert!(limited.can_do(TokenPermission::SendMail));
    assert!(!limited.can_do(TokenPermission::GenerateTokens));
    assert_eq!(limited.app_name(), "drawing app");

    let copy = limited.duplicate();
    assert_eq!(copy.app, Some("drawing app".to_string()));
    assert_eq!(copy.permissions, Some(vec![TokenPermission::ManageAssets, TokenPermission::SendMail]));
    assert_eq!(copy.timestamp, 1);
}

#[test]
fn permission_lookup() {
    let ps = vec![TokenPermission::ManageProfile];
    assert!(permission_in(&ps, TokenPermission::ManageProfile));
    assert!(!permission_in(&ps, TokenPermission::ManageAccount));
    assert!(!permission_in(&Vec::new(), TokenPermission::ManageAccount));
}

#[test]
fn metadata_lookups() {
    let m = metadata_with(&[("sparkler:lock_profile", "true"), ("sparkler:biography", ""), ("x", "TRUE")]);
    assert!(m.key_exists("sparkler:lock_profile"));
    assert!(!m.key_exists("sparkler:biography"));
    assert!(!m.key_exists("missing"));
    assert!(m.is_true("sparkler:lock_profile"));
    assert!(!m.is_true("x"));
    assert!(!m.is_true("sparkler:biography"));
    assert_eq!(m.soft_get("x"), "TRUE");
    assert_eq!(m.soft_get("sparkler:biography"), "");
    assert_eq!(m.soft_get("missing"), "");
}

#[test]
fn metadata_length_limits() {
    let ok = metadata_with(&[("a", &"x".repeat(4096)), ("sparkler:custom_css", &"y".repeat(8192))]);
    assert!(ok.check());
    let long = metadata_with(&[("a", &"x".repeat(4097))]);
    assert!(!long.check());
    let css = metadata_with(&[("sparkler:custom_css", &"y".repeat(4097))]);
    assert!(css.check());
    let css_long = metadata_with(&[("sparkler:custom_css", &"y".repeat(8193))]);
    assert!(!css_long.check());
    // bytes are counted, not characters
    let wide = metadata_with(&[("a", &"é".repeat(2049))]);
    assert!(!wide.check());
    assert!(ProfileMetadata::default().check());
}

#[test]
fn anonymous_tags() {
    assert_eq!(
        Profile::anonymous_tag("anonymous#abc"),
        (true, "abc".to_string(), "anonymous".to_string(), "anonymous#abc".to_string())
    );
    assert_eq!(
        Profile::anonymous_tag("anonymous"),
        (true, "unknown".to_string(), "anonymous".to_string(), "anonymous".to_string())
    );
    assert_eq!(
        Profile::anonymous_tag("anonymous#a#b"),
        (true, "a".to_string(), "anonymous".to_string(), "anonymous#a#b".to_string())
    );
    assert_eq!(Profile::anonymous_tag("bob"), (false, String::new(), String::new(), "bob".to_string()));
    assert_eq!(
        Profile::anonymous_tag("anonymouse"),
        (false, String::new(), String::new(), "anonymouse".to_string())
    );
}

#[test]
fn anonymous_tag_round_trips_a_tag() {
    for tag in ["", "7f3a", "with space"] {
        let name = format!("anonymous#{tag}");
        let (anon, t, user, input) = Profile::anonymous_tag(&name);
        assert!(anon);
        assert_eq!(t, tag);
        assert_eq!(user, "anonymous");
        assert_eq!(input, name);
    }
}

#[test]
fn built_in_profiles() {
    let g = Profile::global();
    assert_eq!(g.id, "@");
    assert_eq!(g.username, "@");
    assert_eq!(g.group, 0);
    assert!(g.tokens.is_empty());
    let s = Profile::system();
    assert_eq!(s.id, "0");
    assert_eq!(s.username, "system");
    let a = Profile::anonymous("tag1".to_string());
    assert_eq!(a.id, "tag1");
    assert_eq!(a.username, "anonymous");
    assert_eq!(a.layout.component, ComponentName::Empty);
    assert!(a.metadata.policy_consent);
}

#[test]
fn cleaning_a_profile_forgets_secrets() {
    let mut p = Profile::system();
    p.password = "hash".to_string();
    p.salt = "salt".to_string();
    p.tokens = vec!["t1".to_string()];
    p.ips = vec!["1.2.3.4".to_string()];
    p.token_context = vec![TokenContext::new_at(3)];
    p.metadata = metadata_with(&[("sparkler:biography", "hi")]);
    p.coins = 12;
    p.labels = vec!["l".to_string()];
    p.clean();
    assert!(p.password.is_empty());
    assert!(p.salt.is_empty());
    assert!(p.tokens.is_empty());
    assert!(p.ips.is_empty());
    assert!(p.token_context.is_empty());
    assert!(p.metadata.email.is_empty());
    assert!(!p.metadata.key_exists("sparkler:biography"));
    assert_eq!(p.coins, 12);
    assert_eq!(p.labels, vec!["l".to_string()]);
    assert_eq!(p.username, "system");
}

#[test]
fn token_context_by_hash() {
    let mut p = Profile::system();
    p.tokens = vec!["a".to_string(), "b".to_string(), "c".to_string()];
    p.token_context = vec![
        TokenContext::new_at(10),
        TokenContext { app: Some("app".to_string()), permissions: Some(vec![]), timestamp: 20 },
    ];
    let b = p.token_context_from_hashed("b", 99);
    assert_eq!(b.app, Some("app".to_string()));
    assert_eq!(b.permissions, Some(vec![]));
    assert_eq!(b.timestamp, 20);
    let c = p.token_context_from_hashed("c", 99);
    assert_eq!(c.app, None);
    assert_eq!(c.permissions, None);
    assert_eq!(c.timestamp, 99);
    let z = p.token_context_from_hashed("z", 5);
    assert_eq!(z.timestamp, 5);
    assert!(z.permissions.is_none());
}

#[test]
fn error_messages_and_codes() {
    assert_eq!(DatabaseError::TooExpensive.to_string(), "You cannot afford to do this. (TooExpensive)");
    assert_eq!(DatabaseError::MustBeUnique.to_string(), "One of the given values must be unique. (MustBeUnique)");
    assert_eq!(
        DatabaseError::OutOfScope.to_string(),
        "Cannot generate tokens with permissions the provided token doesn't have. (OutOfScope)"
    );
    assert_eq!(DatabaseError::NotAllowed.to_string(), "You are not allowed to access this resource. (NotAllowed)");
    assert_eq!(DatabaseError::ValueError.to_string(), "One of the field values given is invalid. (ValueError)");
    assert_eq!(DatabaseError::NotFound.to_string(), "No asset with this ID could be found. (NotFound)");
    assert_eq!(DatabaseError::TooLong.to_string(), "Given data is too long. (TooLong)");
    assert_eq!(DatabaseError::Other.to_string(), "An unspecified error has occured");
    assert_eq!(DatabaseError::NotAllowed.status_code(), 401);
    assert_eq!(DatabaseError::NotFound.status_code(), 404);
    assert_eq!(DatabaseError::TooLong.status_code(), 500);
    assert_eq!(DatabaseError::Other.status_code(), 500);
}

#[test]
fn enum_names_and_defaults() {
    assert_eq!(ItemType::Text.to_string(), "Text");
    assert_eq!(ItemType::UserTheme.to_string(), "UserTheme");
    assert_eq!(ItemType::default(), ItemType::Text);
    assert_eq!(ItemStatus::Rejected.to_string(), "Rejected");
    assert_eq!(ItemStatus::Pending.to_string(), "Pending");
    assert_eq!(ItemStatus::Approved.to_string(), "Approved");
    assert_eq!(ItemStatus::Featured.to_string(), "Featured");
    assert_eq!(ItemStatus::default(), ItemStatus::Approved);
    assert_eq!(RelationshipStatus::default(), RelationshipStatus::Unknown);
    let g = Group::default();
    assert_eq!(g.name, "default");
    assert_eq!(g.id, 0);
    assert_eq!(g.permissions.bits(), DEFAULT);
}

#[test]
fn string_map_keeps_one_value_per_key() {
    let mut m = StringMap::new();
    m.insert("a".to_string(), "1".to_string());
    m.insert("b".to_string(), "2".to_string());
    m.insert("a".to_string(), "3".to_string());
    assert_eq!(m.len(), 2);
    assert_eq!(m.get("a"), Some(&"3".to_string()));
    m.remove("a");
    assert_eq!(m.get("a"), None);
    assert_eq!(m.len(), 1);
    let d = m.duplicate();
    assert_eq!(d.get("b"), Some(&"2".to_string()));
}
