use rainbeam_core::blog::{lang_choice, LangChoice};
use rainbeam_core::database::{coins_after_update, profile_lookup, requested_username, ProfileLookup};
use rainbeam_core::layout::LayoutCache;
use rainbeam_core::model::DatabaseError;
use rainbeam_core::permissions::{
    FinePermission, DEFAULT, MANAGE_COMMENTS, MANAGE_QUESTIONS, MANAGE_RESPONSES, MANAGE_WARNINGS, VIEW_AUDIT_LOG,
    VIEW_REPORTS,
};
use rainbeam_core::profile_view::moderation_group;

#[test]
fn lookup_of_special_profiles() {
    assert_eq!(profile_lookup("@"), ProfileLookup::Global);
    assert_eq!(profile_lookup("ANSWERED:@"), ProfileLookup::Global);
    assert_eq!(profile_lookup("0"), ProfileLookup::System);
    assert_eq!(profile_lookup("system"), ProfileLookup::System);
}

#[test]
fn lookup_of_anonymous_names() {
    assert_eq!(profile_lookup("anonymous"), ProfileLookup::Anonymous("anonymous".to_string()));
    assert_eq!(profile_lookup("#"), ProfileLookup::Anonymous("#".to_string()));
    assert_eq!(
        profile_lookup("ANSWERED:anonymous#abc"),
        ProfileLookup::Anonymous("anonymous#abc".to_string())
    );
}

#[test]
fn lookup_by_username_or_id() {
    assert_eq!(profile_lookup("alice"), ProfileLookup::ByUsername("alice".to_string()));
    assert_eq!(profile_lookup("alice%circle"), ProfileLookup::ByUsername("alice".to_string()));
    assert_eq!(profile_lookup("12345"), ProfileLookup::ByUsername("12345".to_string()));
    assert_eq!(
        profile_lookup("123456789012345678"),
        ProfileLookup::ById("123456789012345678".to_string())
    );
    assert_eq!(
        profile_lookup("123456789012345678%c"),
        ProfileLookup::ById("123456789012345678".to_string())
    );
    let long_name = "a".repeat(33);
    assert_eq!(profile_lookup(&long_name), ProfileLookup::ById(long_name.clone()));
    assert_eq!(profile_lookup("abcdefghijklmnopqrstu"), ProfileLookup::ByUsername("abcdefghijklmnopqrstu".to_string()));
}

#[test]
fn lookup_removes_every_answered_mark() {
    assert_eq!(profile_lookup("ANSWERED:aANSWERED:b"), ProfileLookup::ByUsername("ab".to_string()));
    assert_eq!(profile_lookup("x:ANSWERED:"), ProfileLookup::ByUsername("x:ANSWERED:".to_string()));
}

#[test]
fn coin_updates_add_to_the_balance() {
    assert_eq!(coins_after_update(10, 5), 15);
    assert_eq!(coins_after_update(10, -15), -5);
    assert_eq!(coins_after_update(0, 0), 0);
}

#[test]
fn language_file_choice() {
    assert_eq!(lang_choice("", true), LangChoice::Default);
    assert_eq!(lang_choice("aa-BB", false), LangChoice::Testing);
    assert_eq!(lang_choice("net.rainbeam.langs.testing:aa-BB", true), LangChoice::Testing);
    assert_eq!(lang_choice("net.rainbeam.langs:de-DE", true), LangChoice::Requested);
    assert_eq!(lang_choice("net.rainbeam.langs:xx-XX", false), LangChoice::Default);
}

fn helper() -> FinePermission {
    FinePermission::from_bits_retain(
        MANAGE_QUESTIONS | MANAGE_RESPONSES | MANAGE_COMMENTS | MANAGE_WARNINGS | VIEW_REPORTS | VIEW_AUDIT_LOG,
    )
}

#[test]
fn moderation_page_is_for_helpers() {
    assert_eq!(moderation_group(FinePermission::from_bits_retain(DEFAULT), 0), Err(DatabaseError::NotAllowed));
    assert_eq!(moderation_group(helper(), 0), Ok(0));
    assert_eq!(moderation_group(helper(), 3), Ok(3));
}

#[test]
fn moderation_page_shows_banned_profiles_apart() {
    assert_eq!(moderation_group(helper(), -1), Ok(-2));
}

#[test]
fn layout_cache_keeps_files_that_were_read() {
    let mut cache = LayoutCache::new();
    assert_eq!(cache.lookup("a.json"), None);
    assert_eq!(cache.remember("a.json", Some("{}".to_string())), Some("{}".to_string()));
    assert_eq!(cache.lookup("a.json"), Some("{}".to_string()));
    assert_eq!(cache.lookup("b.json"), None);
}

#[test]
fn layout_cache_skips_unreadable_files() {
    let mut cache = LayoutCache::new();
    assert_eq!(cache.remember("missing.json", None), None);
    assert_eq!(cache.lookup("missing.json"), None);
    cache.remember("x.json", Some("one".to_string()));
    cache.remember("x.json", Some("two".to_string()));
    assert_eq!(cache.lookup("x.json"), Some("two".to_string()));
}

#[test]
fn requested_usernames_are_trimmed_of_unicode_space() {
    assert_eq!(requested_username("\u{3000} bob\u{85}"), "bob");
    assert_eq!(requested_username("\u{A0}\u{2028}"), "");
}

#[test]
fn answered_mark_does_not_change_the_profile() {
    for id in ["alice%c", "@", "system", "anonymous#t", "123456789012345678"] {
        assert_eq!(profile_lookup(&format!("ANSWERED:{id}")), profile_lookup(id));
    }
}
