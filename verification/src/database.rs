//! Account rules of the database layer: which usernames and metadata are
//! accepted, who may act on what, and what relationship, follow and coin
//! updates a request leads to.
use vstd::prelude::*;
use crate::kv::{entries_map, keys_distinct, lemma_prefix_step, pairs_view, StringMap};
use crate::model::{
    before_char, kv_lengths_ok, split_once_char, DatabaseError, ItemCreate, ItemEdit, NotificationCreate, ProfileMetadata,
    RelationshipStatus,
};
use crate::permissions::{grants, FinePermission};
use crate::text::{byte_len, chars_eq, chars_of, has_prefix, push_str, replace_all, replace_str, starts_with, string_of, strings_view, strs_view, lowercase_str, lowercased, trim_str, trimmed, utf8_len};

verus! {

/// Custom keys allowed to be used as metadata options.
pub open spec fn allowed_custom_keys() -> Seq<Seq<char>> {
    seq![
        "sparkler:display_name"@,
        "sparkler:status_note"@,
        "sparkler:status_emoji"@,
        "sparkler:limited_friend_requests"@,
        "sparkler:limited_chats"@,
        "sparkler:private_profile"@,
        "sparkler:allow_drawings"@,
        "sparkler:biography"@,
        "sparkler:sidebar"@,
        "sparkler:avatar_url"@,
        "sparkler:banner_url"@,
        "sparkler:banner_fit"@,
        "sparkler:website_theme"@,
        "sparkler:allow_profile_themes"@,
        "sparkler:motivational_header"@,
        "sparkler:warning"@,
        "sparkler:anonymous_username"@,
        "sparkler:anonymous_avatar"@,
        "sparkler:pinned"@,
        "sparkler:profile_theme"@,
        "sparkler:desktop_tl_logo"@,
        "sparkler:custom_css"@,
        "sparkler:color_surface"@,
        "sparkler:color_lowered"@,
        "sparkler:color_super_lowered"@,
        "sparkler:color_raised"@,
        "sparkler:color_super_raised"@,
        "sparkler:color_text"@,
        "sparkler:color_text_raised"@,
        "sparkler:color_text_lowered"@,
        "sparkler:color_link"@,
        "sparkler:color_primary"@,
        "sparkler:color_primary_lowered"@,
        "sparkler:color_primary_raised"@,
        "sparkler:color_text_primary"@,
        "sparkler:color_shadow"@,
        "sparkler:lock_profile"@,
        "sparkler:disallow_anonymous"@,
        "sparkler:disallow_anonymous_comments"@,
        "sparkler:require_account"@,
        "sparkler:private_social"@,
        "sparkler:filter"@,
        "rainbeam:verify_url"@,
        "rainbeam:verify_code"@,
        "rainbeam:market_theme_template"@,
        "rainbeam:nsfw_profile"@,
        "rainbeam:share_hashtag"@,
        "rainbeam:authenticated_only"@,
        "rainbeam:force_default_layout"@,
        "rainbeam:disallow_response_comments"@,
        "rainbeam:view_password"@,
        "rainbeam:do_not_send_global_questions_to_inbox"@,
        "rainbeam:do_not_clear_inbox_count_on_view"@,
        "rainbeam:do_not_send_global_questions_to_friends"@
    ]
}

/// Whether `k` is one of the custom keys allowed in metadata.
pub fn is_allowed_custom_key(k: &str) -> (r: bool)
    ensures
        r == allowed_custom_keys().contains(k@),
{
    let keys: [&str; 54] = [
        "sparkler:display_name",
        "sparkler:status_note",
        "sparkler:status_emoji",
        "sparkler:limited_friend_requests",
        "sparkler:limited_chats",
        "sparkler:private_profile",
        "sparkler:allow_drawings",
        "sparkler:biography",
        "sparkler:sidebar",
        "sparkler:avatar_url",
        "sparkler:banner_url",
        "sparkler:banner_fit",
        "sparkler:website_theme",
        "sparkler:allow_profile_themes",
        "sparkler:motivational_header",
        "sparkler:warning",
        "sparkler:anonymous_username",
        "sparkler:anonymous_avatar",
        "sparkler:pinned",
        "sparkler:profile_theme",
        "sparkler:desktop_tl_logo",
        "sparkler:custom_css",
        "sparkler:color_surface",
        "sparkler:color_lowered",
        "sparkler:color_super_lowered",
        "sparkler:color_raised",
        "sparkler:color_super_raised",
        "sparkler:color_text",
        "sparkler:color_text_raised",
        "sparkler:color_text_lowered",
        "sparkler:color_link",
        "sparkler:color_primary",
        "sparkler:color_primary_lowered",
        "sparkler:color_primary_raised",
        "sparkler:color_text_primary",
        "sparkler:color_shadow",
        "sparkler:lock_profile",
        "sparkler:disallow_anonymous",
        "sparkler:disallow_anonymous_comments",
        "sparkler:require_account",
        "sparkler:private_social",
        "sparkler:filter",
        "rainbeam:verify_url",
        "rainbeam:verify_code",
        "rainbeam:market_theme_template",
        "rainbeam:nsfw_profile",
        "rainbeam:share_hashtag",
        "rainbeam:authenticated_only",
        "rainbeam:force_default_layout",
        "rainbeam:disallow_response_comments",
        "rainbeam:view_password",
        "rainbeam:do_not_send_global_questions_to_inbox",
        "rainbeam:do_not_clear_inbox_count_on_view",
        "rainbeam:do_not_send_global_questions_to_friends"
    ];
    proof {
        assert(strs_view(keys@) =~= allowed_custom_keys());
    }
    let kc = chars_of(k);
    let mut i: usize = 0;
    while i < 54
        invariant
            kc@ == k@,
            strs_view(keys@) == allowed_custom_keys(),
            i <= 54,
            forall|j: int| 0 <= j < i ==> allowed_custom_keys()[j] != k@,
        decreases 54 - i,
    {
        let c = chars_of(keys[i]);
        assert(allowed_custom_keys()[i as int] == keys@[i as int]@);
        if chars_eq(c.as_slice(), kc.as_slice()) {
            assert(allowed_custom_keys()[i as int] == k@);
            return true;
        }
        i = i + 1;
    }
    false
}

/// The usernames that cannot be registered.
pub open spec fn banned_usernames() -> Seq<Seq<char>> {
    seq![
        "admin"@,
        "account"@,
        "anonymous"@,
        "login"@,
        "sign_up"@,
        "settings"@,
        "api"@,
        "intents"@,
        "circles"@,
        "chats"@,
        "sites"@,
        "responses"@,
        "questions"@,
        "comments"@,
        "response"@,
        "question"@,
        "comment"@,
        "pages"@,
        "inbox"@,
        "system"@,
        "market"@,
        ".well-known"@,
        "static"@
    ]
}

/// Whether `u` is one of the usernames that cannot be registered.
pub fn is_banned_username(u: &str) -> (r: bool)
    ensures
        r == banned_usernames().contains(u@),
{
    let names: [&str; 23] = [
        "admin",
        "account",
        "anonymous",
        "login",
        "sign_up",
        "settings",
        "api",
        "intents",
        "circles",
        "chats",
        "sites",
        "responses",
        "questions",
        "comments",
        "response",
        "question",
        "comment",
        "pages",
        "inbox",
        "system",
        "market",
        ".well-known",
        "static"
    ];
    proof {
        assert(strs_view(names@) =~= banned_usernames());
    }
    let uc = chars_of(u);
    let mut i: usize = 0;
    while i < 23
        invariant
            uc@ == u@,
            strs_view(names@) == banned_usernames(),
            i <= 23,
            forall|j: int| 0 <= j < i ==> banned_usernames()[j] != u@,
        decreases 23 - i,
    {
        let c = chars_of(names[i]);
        assert(banned_usernames()[i as int] == names@[i as int]@);
        if chars_eq(c.as_slice(), uc.as_slice()) {
            assert(banned_usernames()[i as int] == u@);
            return true;
        }
        i = i + 1;
    }
    false
}


/// `m` restricted to the allowed custom keys.
pub open spec fn allowed_part(m: Map<Seq<char>, Seq<char>>) -> Map<Seq<char>, Seq<char>> {
    m.restrict(Set::new(|k: Seq<char>| allowed_custom_keys().contains(k)))
}

/// The metadata that a profile update stores: the given metadata with
/// every key that is not an allowed custom key dropped; refused with
/// `TooLong` where a remaining value is longer than its key allows.
pub fn sanitize_metadata(metadata: ProfileMetadata) -> (r: Result<ProfileMetadata, DatabaseError>)
    ensures
        r is Err <==> !kv_lengths_ok(allowed_part(metadata.kv@)),
        r matches Err(e) ==> e == DatabaseError::TooLong,
        r matches Ok(m) ==> m.kv@ == allowed_part(metadata.kv@) && m.email == metadata.email
            && m.policy_consent == metadata.policy_consent,
{
    let mut kv = StringMap::new();
    let entries = metadata.kv.entries();
    let ghost p = metadata.kv.pairs();
    let ghost allowed = Set::new(|k: Seq<char>| allowed_custom_keys().contains(k));
    let mut i: usize = 0;
    assert(entries_map(p.subrange(0, 0)) =~= Map::<Seq<char>, Seq<char>>::empty());
    assert(Map::<Seq<char>, Seq<char>>::empty().restrict(allowed) =~= Map::<Seq<char>, Seq<char>>::empty());
    while i < entries.len()
        invariant
            pairs_view(entries@) == p,
            keys_distinct(p),
            metadata.kv@ == entries_map(p),
            allowed == Set::new(|k: Seq<char>| allowed_custom_keys().contains(k)),
            i <= entries.len(),
            kv@ == entries_map(p.subrange(0, i as int)).restrict(allowed),
        decreases entries.len() - i,
    {
        proof {
            lemma_prefix_step(p, i as int);
        }
        assert(p[i as int].0 == entries@[i as int].0@ && p[i as int].1 == entries@[i as int].1@);
        if is_allowed_custom_key(entries[i].0.as_str()) {
            kv.insert(entries[i].0.clone(), entries[i].1.clone());
            assert(kv@ =~= entries_map(p.subrange(0, i + 1)).restrict(allowed));
        } else {
            assert(kv@ =~= entries_map(p.subrange(0, i + 1)).restrict(allowed));
        }
        i = i + 1;
    }
    assert(p.subrange(0, i as int) =~= p);
    let out = ProfileMetadata { email: metadata.email, policy_consent: metadata.policy_consent, kv };
    if !out.check() {
        return Err(DatabaseError::TooLong);
    }
    Ok(out)
}

/// Every custom key that profiles may set is kept by a metadata update:
/// each of them is an allowed key, so the value stored under it in the
/// given metadata is the value that [`sanitize_metadata`] keeps (the
/// display name among them).
pub proof fn law_custom_keys_are_kept(m: Map<Seq<char>, Seq<char>>)
    ensures
        allowed_custom_keys().contains("sparkler:display_name"@),
        allowed_custom_keys().contains("sparkler:status_note"@),
        allowed_custom_keys().contains("sparkler:status_emoji"@),
        allowed_custom_keys().contains("sparkler:limited_friend_requests"@),
        allowed_custom_keys().contains("sparkler:limited_chats"@),
        allowed_custom_keys().contains("sparkler:private_profile"@),
        allowed_custom_keys().contains("sparkler:allow_drawings"@),
        allowed_custom_keys().contains("sparkler:biography"@),
        allowed_custom_keys().contains("sparkler:sidebar"@),
        allowed_custom_keys().contains("sparkler:avatar_url"@),
        allowed_custom_keys().contains("sparkler:banner_url"@),
        allowed_custom_keys().contains("sparkler:banner_fit"@),
        allowed_custom_keys().contains("sparkler:website_theme"@),
        allowed_custom_keys().contains("sparkler:allow_profile_themes"@),
        allowed_custom_keys().contains("sparkler:motivational_header"@),
        allowed_custom_keys().contains("sparkler:warning"@),
        allowed_custom_keys().contains("sparkler:anonymous_username"@),
        allowed_custom_keys().contains("sparkler:anonymous_avatar"@),
        allowed_custom_keys().contains("sparkler:pinned"@),
        allowed_custom_keys().contains("sparkler:profile_theme"@),
        allowed_custom_keys().contains("sparkler:desktop_tl_logo"@),
        allowed_custom_keys().contains("sparkler:custom_css"@),
        allowed_custom_keys().contains("sparkler:color_surface"@),
        allowed_custom_keys().contains("sparkler:color_lowered"@),
        allowed_custom_keys().contains("sparkler:color_super_lowered"@),
        allowed_custom_keys().contains("sparkler:color_raised"@),
        allowed_custom_keys().contains("sparkler:color_super_raised"@),
        allowed_custom_keys().contains("sparkler:color_text"@),
        allowed_custom_keys().contains("sparkler:color_text_raised"@),
        allowed_custom_keys().contains("sparkler:color_text_lowered"@),
        allowed_custom_keys().contains("sparkler:color_link"@),
        allowed_custom_keys().contains("sparkler:color_primary"@),
        allowed_custom_keys().contains("sparkler:color_primary_lowered"@),
        allowed_custom_keys().contains("sparkler:color_primary_raised"@),
        allowed_custom_keys().contains("sparkler:color_text_primary"@),
        allowed_custom_keys().contains("sparkler:color_shadow"@),
        allowed_custom_keys().contains("sparkler:lock_profile"@),
        allowed_custom_keys().contains("sparkler:disallow_anonymous"@),
        allowed_custom_keys().contains("sparkler:disallow_anonymous_comments"@),
        allowed_custom_keys().contains("sparkler:require_account"@),
        allowed_custom_keys().contains("sparkler:private_social"@),
        allowed_custom_keys().contains("sparkler:filter"@),
        allowed_custom_keys().contains("rainbeam:verify_url"@),
        allowed_custom_keys().contains("rainbeam:verify_code"@),
        allowed_custom_keys().contains("rainbeam:market_theme_template"@),
        allowed_custom_keys().contains("rainbeam:nsfw_profile"@),
        allowed_custom_keys().contains("rainbeam:share_hashtag"@),
        allowed_custom_keys().contains("rainbeam:authenticated_only"@),
        allowed_custom_keys().contains("rainbeam:force_default_layout"@),
        allowed_custom_keys().contains("rainbeam:disallow_response_comments"@),
        allowed_custom_keys().contains("rainbeam:view_password"@),
        allowed_custom_keys().contains("rainbeam:do_not_send_global_questions_to_inbox"@),
        allowed_custom_keys().contains("rainbeam:do_not_clear_inbox_count_on_view"@),
        allowed_custom_keys().contains("rainbeam:do_not_send_global_questions_to_friends"@),
        m.dom().contains("sparkler:display_name"@) ==> allowed_part(m).dom().contains("sparkler:display_name"@)
            && allowed_part(m)["sparkler:display_name"@] == m["sparkler:display_name"@],
        forall|k: Seq<char>| #[trigger] allowed_part(m).dom().contains(k) ==> m.dom().contains(k) && allowed_part(m)[k] == m[k],
{
    assert(allowed_custom_keys()[0] == "sparkler:display_name"@);
    assert(allowed_custom_keys()[1] == "sparkler:status_note"@);
    assert(allowed_custom_keys()[2] == "sparkler:status_emoji"@);
    assert(allowed_custom_keys()[3] == "sparkler:limited_friend_requests"@);
    assert(allowed_custom_keys()[4] == "sparkler:limited_chats"@);
    assert(allowed_custom_keys()[5] == "sparkler:private_profile"@);
    assert(allowed_custom_keys()[6] == "sparkler:allow_drawings"@);
    assert(allowed_custom_keys()[7] == "sparkler:biography"@);
    assert(allowed_custom_keys()[8] == "sparkler:sidebar"@);
    assert(allowed_custom_keys()[9] == "sparkler:avatar_url"@);
    assert(allowed_custom_keys()[10] == "sparkler:banner_url"@);
    assert(allowed_custom_keys()[11] == "sparkler:banner_fit"@);
    assert(allowed_custom_keys()[12] == "sparkler:website_theme"@);
    assert(allowed_custom_keys()[13] == "sparkler:allow_profile_themes"@);
    assert(allowed_custom_keys()[14] == "sparkler:motivational_header"@);
    assert(allowed_custom_keys()[15] == "sparkler:warning"@);
    assert(allowed_custom_keys()[16] == "sparkler:anonymous_username"@);
    assert(allowed_custom_keys()[17] == "sparkler:anonymous_avatar"@);
    assert(allowed_custom_keys()[18] == "sparkler:pinned"@);
    assert(allowed_custom_keys()[19] == "sparkler:profile_theme"@);
    assert(allowed_custom_keys()[20] == "sparkler:desktop_tl_logo"@);
    assert(allowed_custom_keys()[21] == "sparkler:custom_css"@);
    assert(allowed_custom_keys()[22] == "sparkler:color_surface"@);
    assert(allowed_custom_keys()[23] == "sparkler:color_lowered"@);
    assert(allowed_custom_keys()[24] == "sparkler:color_super_lowered"@);
    assert(allowed_custom_keys()[25] == "sparkler:color_raised"@);
    assert(allowed_custom_keys()[26] == "sparkler:color_super_raised"@);
    assert(allowed_custom_keys()[27] == "sparkler:color_text"@);
    assert(allowed_custom_keys()[28] == "sparkler:color_text_raised"@);
    assert(allowed_custom_keys()[29] == "sparkler:color_text_lowered"@);
    assert(allowed_custom_keys()[30] == "sparkler:color_link"@);
    assert(allowed_custom_keys()[31] == "sparkler:color_primary"@);
    assert(allowed_custom_keys()[32] == "sparkler:color_primary_lowered"@);
    assert(allowed_custom_keys()[33] == "sparkler:color_primary_raised"@);
    assert(allowed_custom_keys()[34] == "sparkler:color_text_primary"@);
    assert(allowed_custom_keys()[35] == "sparkler:color_shadow"@);
    assert(allowed_custom_keys()[36] == "sparkler:lock_profile"@);
    assert(allowed_custom_keys()[37] == "sparkler:disallow_anonymous"@);
    assert(allowed_custom_keys()[38] == "sparkler:disallow_anonymous_comments"@);
    assert(allowed_custom_keys()[39] == "sparkler:require_account"@);
    assert(allowed_custom_keys()[40] == "sparkler:private_social"@);
    assert(allowed_custom_keys()[41] == "sparkler:filter"@);
    assert(allowed_custom_keys()[42] == "rainbeam:verify_url"@);
    assert(allowed_custom_keys()[43] == "rainbeam:verify_code"@);
    assert(allowed_custom_keys()[44] == "rainbeam:market_theme_template"@);
    assert(allowed_custom_keys()[45] == "rainbeam:nsfw_profile"@);
    assert(allowed_custom_keys()[46] == "rainbeam:share_hashtag"@);
    assert(allowed_custom_keys()[47] == "rainbeam:authenticated_only"@);
    assert(allowed_custom_keys()[48] == "rainbeam:force_default_layout"@);
    assert(allowed_custom_keys()[49] == "rainbeam:disallow_response_comments"@);
    assert(allowed_custom_keys()[50] == "rainbeam:view_password"@);
    assert(allowed_custom_keys()[51] == "rainbeam:do_not_send_global_questions_to_inbox"@);
    assert(allowed_custom_keys()[52] == "rainbeam:do_not_clear_inbox_count_on_view"@);
    assert(allowed_custom_keys()[53] == "rainbeam:do_not_send_global_questions_to_friends"@);
}

/// The reserved names cannot be registered, whatever the search for
/// forbidden characters answers: each of them is refused by
/// [`validate_username`] and [`check_username`] (`anonymous` and `system`
/// among them, which the profile lookup keeps for the anonymous and system
/// profiles).
pub proof fn law_reserved_names_are_refused(forbidden: Option<bool>)
    ensures
        !username_ok_given("admin"@, forbidden),
        !username_ok_given("account"@, forbidden),
        !username_ok_given("anonymous"@, forbidden),
        !username_ok_given("login"@, forbidden),
        !username_ok_given("sign_up"@, forbidden),
        !username_ok_given("settings"@, forbidden),
        !username_ok_given("api"@, forbidden),
        !username_ok_given("intents"@, forbidden),
        !username_ok_given("circles"@, forbidden),
        !username_ok_given("chats"@, forbidden),
        !username_ok_given("sites"@, forbidden),
        !username_ok_given("responses"@, forbidden),
        !username_ok_given("questions"@, forbidden),
        !username_ok_given("comments"@, forbidden),
        !username_ok_given("response"@, forbidden),
        !username_ok_given("question"@, forbidden),
        !username_ok_given("comment"@, forbidden),
        !username_ok_given("pages"@, forbidden),
        !username_ok_given("inbox"@, forbidden),
        !username_ok_given("system"@, forbidden),
        !username_ok_given("market"@, forbidden),
        !username_ok_given(".well-known"@, forbidden),
        !username_ok_given("static"@, forbidden),
        !username_ok("admin"@),
        !username_ok("account"@),
        !username_ok("anonymous"@),
        !username_ok("login"@),
        !username_ok("sign_up"@),
        !username_ok("settings"@),
        !username_ok("api"@),
        !username_ok("intents"@),
        !username_ok("circles"@),
        !username_ok("chats"@),
        !username_ok("sites"@),
        !username_ok("responses"@),
        !username_ok("questions"@),
        !username_ok("comments"@),
        !username_ok("response"@),
        !username_ok("question"@),
        !username_ok("comment"@),
        !username_ok("pages"@),
        !username_ok("inbox"@),
        !username_ok("system"@),
        !username_ok("market"@),
        !username_ok(".well-known"@),
        !username_ok("static"@),
{
    assert(banned_usernames()[0] == "admin"@);
    assert(banned_usernames()[1] == "account"@);
    assert(banned_usernames()[2] == "anonymous"@);
    assert(banned_usernames()[3] == "login"@);
    assert(banned_usernames()[4] == "sign_up"@);
    assert(banned_usernames()[5] == "settings"@);
    assert(banned_usernames()[6] == "api"@);
    assert(banned_usernames()[7] == "intents"@);
    assert(banned_usernames()[8] == "circles"@);
    assert(banned_usernames()[9] == "chats"@);
    assert(banned_usernames()[10] == "sites"@);
    assert(banned_usernames()[11] == "responses"@);
    assert(banned_usernames()[12] == "questions"@);
    assert(banned_usernames()[13] == "comments"@);
    assert(banned_usernames()[14] == "response"@);
    assert(banned_usernames()[15] == "question"@);
    assert(banned_usernames()[16] == "comment"@);
    assert(banned_usernames()[17] == "pages"@);
    assert(banned_usernames()[18] == "inbox"@);
    assert(banned_usernames()[19] == "system"@);
    assert(banned_usernames()[20] == "market"@);
    assert(banned_usernames()[21] == ".well-known"@);
    assert(banned_usernames()[22] == "static"@);
}

/// Whether the regular expression `pattern`, compiled in multi-line mode,
/// finds a match in `haystack`; `None` where `pattern` does not compile.
pub uninterp spec fn regex_finds(pattern: Seq<char>, haystack: Seq<char>) -> Option<bool>;

/// Compiles `pattern` with `regex::RegexBuilder` in multi-line mode and
/// reports whether `captures` finds a match in `haystack`. The result is
/// named, not stated: it is what the regex engine makes of these arguments.
#[verifier::external_body]
fn regex_search(pattern: &str, haystack: &str) -> (r: Option<bool>)
    ensures
        r == regex_finds(pattern@, haystack@),
{
    match regex::RegexBuilder::new(pattern).multi_line(true).build() {
        Ok(re) => Some(re.captures(haystack).is_some()),
        Err(_) => None,
    }
}

/// The characters a username may not hold: anything but word characters,
/// `_`, `-`, `.` and `!`.
pub open spec fn username_pattern() -> Seq<char> {
    "[^\\w_\\-\\.!]+"@
}

/// Whether `username` may be registered: no forbidden character, between 2
/// and 500 bytes long, and not a reserved name.
pub open spec fn username_ok(username: Seq<char>) -> bool {
    username_ok_given(username, regex_finds(username_pattern(), username))
}

/// Whether `username` may be registered, given what the search for
/// forbidden characters answered (`Some(true)`: one was found; `None`: the
/// pattern could not be compiled).
pub open spec fn username_ok_given(username: Seq<char>, forbidden: Option<bool>) -> bool {
    &&& forbidden == Some(false)
    &&& 2 <= utf8_len(username) <= 500
    &&& !banned_usernames().contains(username)
}

/// The rest of [`validate_username`] once the search for forbidden
/// characters has answered `forbidden`: refused with `ValueError` unless
/// none was found, the name is 2 to 500 bytes long and it is not reserved.
pub fn check_username(username: &str, forbidden: Option<bool>) -> (r: Result<(), DatabaseError>)
    ensures
        r is Ok <==> username_ok_given(username@, forbidden),
        r matches Err(e) ==> e == DatabaseError::ValueError,
{
    match forbidden {
        Some(false) => {},
        _ => return Err(DatabaseError::ValueError),
    }
    let len = crate::text::byte_len(username);
    if len < 2 || len > 500 {
        return Err(DatabaseError::ValueError);
    }
    if is_banned_username(username) {
        return Err(DatabaseError::ValueError);
    }
    Ok(())
}

/// Validate a username.
pub fn validate_username(username: &str) -> (r: Result<(), DatabaseError>)
    ensures
        r is Ok <==> username_ok(username@),
        r matches Err(e) ==> e == DatabaseError::ValueError,
{
    let forbidden = regex_search("[^\\w_\\-\\.!]+", username);
    check_username(username, forbidden)
}

/// A requested profile name as it is checked: without surrounding white
/// space.
pub fn requested_username(raw: &str) -> (r: String)
    ensures
        r@ == trimmed(raw@),
{
    trim_str(raw)
}

/// The name a profile is stored under: the lower-case form of `name`.
pub fn stored_username(name: &str) -> (r: String)
    ensures
        r@ == lowercased(name@),
{
    lowercase_str(name)
}

/// The first check a new profile fails, in the order the service makes
/// them: registration must be open, the captcha answered, the name free,
/// and the name valid (given what the search for forbidden characters in
/// it answered).
pub open spec fn new_profile_error(
    registration_enabled: bool,
    captcha_ok: bool,
    name_taken: bool,
    name: Seq<char>,
    forbidden: Option<bool>,
) -> Option<DatabaseError> {
    if !registration_enabled {
        Some(DatabaseError::NotAllowed)
    } else if !captcha_ok {
        Some(DatabaseError::NotAllowed)
    } else if name_taken {
        Some(DatabaseError::MustBeUnique)
    } else if !username_ok_given(name, forbidden) {
        Some(DatabaseError::ValueError)
    } else {
        None
    }
}

/// The checks before a profile named `username` (already trimmed) is
/// created; `name_taken` says whether a profile of that name exists and
/// `captcha_ok` whether the captcha was answered.
pub fn check_new_profile(registration_enabled: bool, captcha_ok: bool, name_taken: bool, username: &str) -> (r:
    Result<(), DatabaseError>)
    ensures
        r == match new_profile_error(registration_enabled, captcha_ok, name_taken, username@,
            regex_finds(username_pattern(), username@)) {
            Some(e) => Err::<(), DatabaseError>(e),
            None => Ok(()),
        },
{
    if !registration_enabled {
        return Err(DatabaseError::NotAllowed);
    }
    if !captcha_ok {
        return Err(DatabaseError::NotAllowed);
    }
    if name_taken {
        return Err(DatabaseError::MustBeUnique);
    }
    if let Err(e) = validate_username(username) {
        return Err(e);
    }
    Ok(())
}

/// The first check a change of name fails: the new name must be free and
/// valid, and the given password right.
pub open spec fn username_change_error(name_taken: bool, name: Seq<char>, forbidden: Option<bool>, password_ok: bool)
    -> Option<DatabaseError> {
    if name_taken {
        Some(DatabaseError::MustBeUnique)
    } else if !username_ok_given(name, forbidden) {
        Some(DatabaseError::ValueError)
    } else if !password_ok {
        Some(DatabaseError::NotAllowed)
    } else {
        None
    }
}

/// The checks before a profile is renamed to `new_name` (already in its
/// stored, lower-case form); `name_taken` says whether a profile of that
/// name exists and `password_ok` whether the password given matches.
pub fn check_username_change(name_taken: bool, new_name: &str, password_ok: bool) -> (r: Result<(), DatabaseError>)
    ensures
        r == match username_change_error(name_taken, new_name@, regex_finds(username_pattern(), new_name@),
            password_ok) {
            Some(e) => Err::<(), DatabaseError>(e),
            None => Ok(()),
        },
{
    if name_taken {
        return Err(DatabaseError::MustBeUnique);
    }
    if let Err(e) = validate_username(new_name) {
        return Err(e);
    }
    if !password_ok {
        return Err(DatabaseError::NotAllowed);
    }
    Ok(())
}

/// Whether `c` is numeric in the sense of `char::is_numeric`: its Unicode
/// general category is one of the number categories.
pub uninterp spec fn is_numeric_char(c: char) -> bool;

/// `char::is_numeric`. The result is named: it follows the Unicode tables.
/// The one fact stated is the documented one that the ASCII digits are
/// numeric.
#[verifier::external_body]
fn char_is_numeric(c: char) -> (r: bool)
    ensures
        r == is_numeric_char(c),
        '0' <= c <= '9' ==> r,
{
    c.is_numeric()
}

/// Whether every character of `input` is numeric.
pub fn is_digit(input: &str) -> (r: bool)
    ensures
        r == (forall|i: int| 0 <= i < input@.len() ==> is_numeric_char(#[trigger] input@[i])),
{
    let cs = chars_of(input);
    let mut i: usize = 0;
    while i < cs.len()
        invariant
            cs@ == input@,
            i <= cs.len(),
            forall|j: int| 0 <= j < i ==> is_numeric_char(#[trigger] cs@[j]),
        decreases cs.len() - i,
    {
        if !char_is_numeric(cs[i]) {
            return false;
        }
        i = i + 1;
    }
    true
}

/// What a profile id asks for, before any lookup is made.
#[derive(Clone, Copy, Debug, PartialEq, Eq, Structural)]
pub enum LookupKind {
    /// The global profile, `@`.
    Global,
    /// The system profile, `0` or `system`.
    System,
    /// An anonymous profile, named by the whole id.
    Anonymous,
    /// A profile found by its username.
    ByUsername,
    /// A profile found by its id.
    ById,
}

/// The profile that a raw id names, and the name to look it up by.
#[derive(Clone, Debug, PartialEq, Eq)]
pub enum ProfileLookup {
    /// The global profile.
    Global,
    /// The system profile.
    System,
    /// An anonymous profile; the field is the anonymous name.
    Anonymous(String),
    /// A profile found by its username.
    ByUsername(String),
    /// A profile found by its id.
    ById(String),
}

/// The kind of a lookup and the name that it carries (empty for the global
/// and system profiles).
pub open spec fn lookup_view(l: ProfileLookup) -> (LookupKind, Seq<char>) {
    match l {
        ProfileLookup::Global => (LookupKind::Global, Seq::empty()),
        ProfileLookup::System => (LookupKind::System, Seq::empty()),
        ProfileLookup::Anonymous(s) => (LookupKind::Anonymous, s@),
        ProfileLookup::ByUsername(s) => (LookupKind::ByUsername, s@),
        ProfileLookup::ById(s) => (LookupKind::ById, s@),
    }
}

/// An id without the `ANSWERED:` mark that answered questions carry: where
/// the id starts with it, every occurrence of it is removed.
pub open spec fn unanswered(id: Seq<char>) -> Seq<char> {
    if has_prefix(id, "ANSWERED:"@) {
        replace_all(id, "ANSWERED:"@, Seq::empty())
    } else {
        id
    }
}

/// Whether every character of `s` is numeric.
pub open spec fn all_numeric(s: Seq<char>) -> bool {
    forall|i: int| 0 <= i < s.len() ==> is_numeric_char(#[trigger] s[i])
}

/// Whether a name without its circle tag is looked up as a username: at
/// most 32 bytes, and either not all numeric or under 18 bytes (ids are
/// longer runs of digits).
pub open spec fn looks_like_username(name: Seq<char>) -> bool {
    utf8_len(name) <= 32 && (!all_numeric(name) || utf8_len(name) < 18)
}

/// What the raw profile id `id` asks for.
pub open spec fn lookup_for(id: Seq<char>) -> (LookupKind, Seq<char>) {
    let a = unanswered(id);
    if a == "@"@ {
        (LookupKind::Global, Seq::empty())
    } else if has_prefix(a, "anonymous#"@) || a == "anonymous"@ || a == "#"@ {
        (LookupKind::Anonymous, a)
    } else if a == "0"@ || a == "system"@ {
        (LookupKind::System, Seq::empty())
    } else {
        let name = before_char(a, '%');
        if looks_like_username(name) {
            (LookupKind::ByUsername, name)
        } else {
            (LookupKind::ById, name)
        }
    }
}

fn str_is(s: &[char], lit: &str) -> (r: bool)
    ensures
        r == (s@ == lit@),
{
    let l = chars_of(lit);
    chars_eq(s, &l)
}

/// Which profile the raw id `id` names: the global profile (`@`), the system
/// profile (`0`, `system`), an anonymous one (`anonymous`, `anonymous#tag`,
/// `#`), or one to look up by username or by id. An `ANSWERED:` mark is
/// removed first, and a circle tag (from the first `%` on) is dropped before
/// the username or id lookup.
pub fn profile_lookup(id: &str) -> (r: ProfileLookup)
    ensures
        lookup_view(r) == lookup_for(id@),
{
    let idv = chars_of(id);
    let mark = chars_of("ANSWERED:");
    let a: Vec<char> = if starts_with(&idv, &mark) {
        proof {
            reveal_strlit("ANSWERED:");
            reveal_strlit("");
        }
        let removed = replace_str(id, "ANSWERED:", "");
        assert(""@ =~= Seq::<char>::empty());
        assert(removed@ == unanswered(id@));
        chars_of(removed.as_str())
    } else {
        idv
    };
    let anon = chars_of("anonymous#");
    if str_is(&a, "@") {
        ProfileLookup::Global
    } else if starts_with(&a, &anon) || str_is(&a, "anonymous") || str_is(&a, "#") {
        ProfileLookup::Anonymous(string_of(&a))
    } else if str_is(&a, "0") || str_is(&a, "system") {
        ProfileLookup::System
    } else {
        let (head, _) = split_once_char(&a, '%');
        let name = string_of(&head);
        let n = byte_len(name.as_str());
        let numeric = is_digit(name.as_str());
        if n <= 32 && (!numeric || n < 18) {
            ProfileLookup::ByUsername(name)
        } else {
            ProfileLookup::ById(name)
        }
    }
}

proof fn lemma_replace_absent(s: Seq<char>, pat: Seq<char>)
    requires
        pat.len() > 0,
        forall|i: int| 0 <= i && i + pat.len() <= s.len() ==> #[trigger] s.subrange(i, i + pat.len()) != pat,
    ensures
        replace_all(s, pat, Seq::empty()) == s,
    decreases s.len(),
{
    if s.len() >= pat.len() {
        assert(s.subrange(0int, 0int + pat.len()) != pat);
        let t = s.subrange(1, s.len() as int);
        assert forall|i: int| 0 <= i && i + pat.len() <= t.len() implies #[trigger] t.subrange(i, i + pat.len()) != pat by {
            assert(t.subrange(i, i + pat.len()) =~= s.subrange(i + 1, i + 1 + pat.len()));
        }
        lemma_replace_absent(t, pat);
        assert(seq![s[0]] + t =~= s);
    }
}

/// The `ANSWERED:` mark that the ids of answered questions carry does not
/// change which profile the id names (for an id that holds no other mark).
pub proof fn law_answered_mark_is_ignored(x: Seq<char>)
    requires
        forall|i: int| 0 <= i && i + 9 <= x.len() ==> #[trigger] x.subrange(i, i + 9) != "ANSWERED:"@,
    ensures
        lookup_for("ANSWERED:"@ + x) == lookup_for(x),
{
    reveal_strlit("ANSWERED:");
    let pat = "ANSWERED:"@;
    let s = pat + x;
    assert(s.subrange(0, 9) =~= pat);
    assert(s.subrange(9, s.len() as int) =~= x);
    assert(pat + Seq::<char>::empty() =~= pat);
    lemma_replace_absent(x, pat);
    assert(replace_all(s, pat, Seq::empty()) == Seq::<char>::empty() + replace_all(x, pat, Seq::empty()));
    assert(Seq::<char>::empty() + x =~= x);
    if x.len() >= 9 {
        assert(x.subrange(0int, 0int + 9) != pat);
    }
    assert(unanswered(s) == x);
    assert(unanswered(x) == x);
}

/// Whether `actor` may act on something that `owner` owns: the owner may,
/// and so may anyone whose group grants `needed`.
pub fn may_act_on(actor: &str, owner: &str, group: FinePermission, needed: FinePermission) -> (r: bool)
    ensures
        r == (actor@ == owner@ || grants(group.bits, needed.bits)),
{
    let a = chars_of(actor);
    let o = chars_of(owner);
    if chars_eq(a.as_slice(), o.as_slice()) {
        return true;
    }
    group.check(needed)
}

/// Whether a profile may be deleted by id: not where its group may itself
/// delete users.
pub fn may_delete_profile(target_group: FinePermission) -> (r: Result<(), DatabaseError>)
    ensures
        r is Ok <==> !grants(target_group.bits, crate::permissions::DELETE_USER),
        r matches Err(e) ==> e == DatabaseError::NotAllowed,
{
    if target_group.check(FinePermission { bits: crate::permissions::DELETE_USER }) {
        return Err(DatabaseError::NotAllowed);
    }
    Ok(())
}

/// The first rule a new marketplace item breaks, if any.
pub open spec fn item_create_error(content: nat, name: nat, description: nat, cost: i32) -> Option<DatabaseError> {
    if content > 16384 {
        Some(DatabaseError::TooLong)
    } else if content < 2 {
        Some(DatabaseError::ValueError)
    } else if name > 128 {
        Some(DatabaseError::TooLong)
    } else if name < 2 {
        Some(DatabaseError::ValueError)
    } else if description > 8192 {
        Some(DatabaseError::TooLong)
    } else if cost < 0 && cost != -1 {
        Some(DatabaseError::NotAllowed)
    } else {
        None
    }
}

/// Check the values of a new marketplace item: content of 2 to 16384
/// bytes, name of 2 to 128 bytes, description of at most 8192 bytes, and a
/// cost that is not negative unless it is -1 (off-sale).
pub fn validate_item_create(props: &ItemCreate) -> (r: Result<(), DatabaseError>)
    ensures
        r == match item_create_error(utf8_len(props.content@), utf8_len(props.name@),
            utf8_len(props.description@), props.cost) {
            Some(e) => Err::<(), DatabaseError>(e),
            None => Ok(()),
        },
{
    let content = crate::text::byte_len(props.content.as_str());
    let name = crate::text::byte_len(props.name.as_str());
    let description = crate::text::byte_len(props.description.as_str());
    if content > 16384 {
        return Err(DatabaseError::TooLong);
    }
    if content < 2 {
        return Err(DatabaseError::ValueError);
    }
    if name > 128 {
        return Err(DatabaseError::TooLong);
    }
    if name < 2 {
        return Err(DatabaseError::ValueError);
    }
    if description > 8192 {
        return Err(DatabaseError::TooLong);
    }
    if props.cost < 0 && props.cost != -1 {
        return Err(DatabaseError::NotAllowed);
    }
    Ok(())
}

/// The first rule an item edit breaks, if any.
pub open spec fn item_edit_error(name: nat, description: nat, cost: i32, is_creator: bool, econ_master: bool) -> Option<DatabaseError> {
    if name > 128 {
        Some(DatabaseError::TooLong)
    } else if name < 2 {
        Some(DatabaseError::ValueError)
    } else if description > 8192 {
        Some(DatabaseError::TooLong)
    } else if cost < 0 && cost != -1 {
        Some(DatabaseError::NotAllowed)
    } else if !is_creator && !econ_master {
        Some(DatabaseError::NotAllowed)
    } else {
        None
    }
}

/// The cost rule of a new item refuses exactly the negative costs other
/// than -1: for content, name and description within their limits, an item
/// is accepted at every cost of 0 or more (a free item too) and at -1 (off
/// sale), and refused with `NotAllowed` at every other negative cost.
pub proof fn law_item_cost_rule(content: nat, name: nat, description: nat, cost: i32)
    requires
        2 <= content <= 16384,
        2 <= name <= 128,
        description <= 8192,
    ensures
        cost >= 0 ==> item_create_error(content, name, description, cost) is None,
        cost == -1 ==> item_create_error(content, name, description, cost) is None,
        cost < -1 ==> item_create_error(content, name, description, cost) == Some(DatabaseError::NotAllowed),
{
}

/// Check an edit of a marketplace item by `editor` (whose group holds
/// `group`): name of 2 to 128 bytes, description of at most 8192 bytes, a
/// cost that is not negative unless -1, and an editor who created the item
/// or may manage the economy.
pub fn validate_item_edit(props: &ItemEdit, editor: &str, creator: &str, group: FinePermission) -> (r: Result<(), DatabaseError>)
    ensures
        r == match item_edit_error(utf8_len(props.name@), utf8_len(props.description@), props.cost,
            editor@ == creator@, grants(group.bits, crate::permissions::ECON_MASTER)) {
            Some(e) => Err::<(), DatabaseError>(e),
            None => Ok(()),
        },
{
    let name = crate::text::byte_len(props.name.as_str());
    let description = crate::text::byte_len(props.description.as_str());
    if name > 128 {
        return Err(DatabaseError::TooLong);
    }
    if name < 2 {
        return Err(DatabaseError::ValueError);
    }
    if description > 8192 {
        return Err(DatabaseError::TooLong);
    }
    if props.cost < 0 && props.cost != -1 {
        return Err(DatabaseError::NotAllowed);
    }
    if !may_act_on(editor, creator, group, FinePermission { bits: crate::permissions::ECON_MASTER }) {
        return Err(DatabaseError::NotAllowed);
    }
    Ok(())
}

/// A write to the relationships table.
#[derive(Clone, Copy, Debug, PartialEq, Eq, Structural)]
pub enum RelationshipWrite {
    /// Insert the row `(one, two, status)`.
    Insert,
    /// Set the status of the row `(one, two)`.
    Update,
    /// Delete the row `(one, two)`.
    Delete,
}

/// One write of a relationship change.
#[derive(Debug)]
pub struct RelationshipStep {
    pub write: RelationshipWrite,
    pub one: String,
    pub two: String,
    pub status: RelationshipStatus,
}

/// The notification a relationship change sends.
#[derive(Clone, Copy, Debug, PartialEq, Eq, Structural)]
pub enum RelationshipNotice {
    /// No notification.
    Silent,
    /// User two is told that user one sent a friend request.
    FriendRequest,
    /// User one is told that user two accepted the request.
    RequestAccepted,
}

/// What a relationship change does: the writes, in order; the change to the
/// friend counts of both users of the stored relationship; the notification.
#[derive(Debug)]
pub struct RelationshipPlan {
    pub steps: Vec<RelationshipStep>,
    pub friends_delta: i8,
    pub notice: RelationshipNotice,
}

/// The view of a relationship step.
pub open spec fn step_view(s: RelationshipStep) -> (RelationshipWrite, Seq<char>, Seq<char>, RelationshipStatus) {
    (s.write, s.one@, s.two@, s.status)
}

/// The writes of a relationship change, as the change decides them.
///
/// `current` is the stored status of the pair, `stored_one` and
/// `stored_two` the users of the stored row (the requested users where there
/// is none), `one` and `two` the users of the request, and `status` the
/// requested status.
pub open spec fn relationship_steps(
    current: RelationshipStatus,
    stored_one: Seq<char>,
    stored_two: Seq<char>,
    one: Seq<char>,
    two: Seq<char>,
    status: RelationshipStatus,
) -> Seq<(RelationshipWrite, Seq<char>, Seq<char>, RelationshipStatus)> {
    if current == status {
        Seq::empty()
    } else {
        match status {
            RelationshipStatus::Blocked => {
                if current != RelationshipStatus::Unknown && stored_one != one {
                    seq![
                        (RelationshipWrite::Delete, stored_one, stored_two, RelationshipStatus::Unknown),
                        (RelationshipWrite::Insert, one, two, status),
                    ]
                } else if current != RelationshipStatus::Unknown {
                    seq![(RelationshipWrite::Update, stored_one, stored_two, status)]
                } else {
                    seq![(RelationshipWrite::Insert, stored_one, stored_two, status)]
                }
            },
            RelationshipStatus::Pending => seq![(RelationshipWrite::Insert, stored_one, stored_two, status)],
            RelationshipStatus::Friends => seq![(RelationshipWrite::Update, stored_one, stored_two, status)],
            RelationshipStatus::Unknown => seq![
                (RelationshipWrite::Delete, stored_one, stored_two, RelationshipStatus::Unknown),
            ],
        }
    }
}

/// The change to both users' friend counts: one more when they become
/// friends, one less when a friendship ends by removal or by a block
/// (whichever user blocks).
pub open spec fn relationship_friends_delta(
    current: RelationshipStatus,
    stored_one: Seq<char>,
    one: Seq<char>,
    status: RelationshipStatus,
) -> int {
    if current == status {
        0
    } else if status == RelationshipStatus::Friends {
        1
    } else if current == RelationshipStatus::Friends && (status == RelationshipStatus::Unknown
        || status == RelationshipStatus::Blocked) {
        -1
    } else {
        0
    }
}

/// The notification of a relationship change.
pub open spec fn relationship_notice(current: RelationshipStatus, status: RelationshipStatus, quiet: bool) -> RelationshipNotice {
    if current == status || quiet {
        RelationshipNotice::Silent
    } else if status == RelationshipStatus::Pending {
        RelationshipNotice::FriendRequest
    } else if status == RelationshipStatus::Friends {
        RelationshipNotice::RequestAccepted
    } else {
        RelationshipNotice::Silent
    }
}

/// The title, text, address and recipient of the notification that
/// `notice` sends, where the stored relationship is of user one (`one_id`,
/// `one_name`) and user two (`two_id`, `two_name`); `None` for no
/// notification.
pub open spec fn notice_fields(
    notice: RelationshipNotice,
    one_id: Seq<char>,
    one_name: Seq<char>,
    two_id: Seq<char>,
    two_name: Seq<char>,
) -> Option<(Seq<char>, Seq<char>, Seq<char>, Seq<char>)> {
    match notice {
        RelationshipNotice::Silent => None,
        RelationshipNotice::FriendRequest => Some((
            "[@"@ + one_name + "](/+u/"@ + one_id + ") has sent you a friend request!"@,
            one_name + " wants to be your friend."@,
            "/@"@ + one_id + "/relationship/friend_accept"@,
            two_id,
        )),
        RelationshipNotice::RequestAccepted => Some((
            "Your friend request has been accepted!"@,
            "[@"@ + two_name + "](/@"@ + two_name + ") has accepted your friend request."@,
            Seq::empty(),
            one_id,
        )),
    }
}

/// The fields of a notification.
pub open spec fn notification_view(n: NotificationCreate) -> (Seq<char>, Seq<char>, Seq<char>, Seq<char>) {
    (n.title@, n.content@, n.address@, n.recipient@)
}

/// The notification that a relationship change sends (see
/// [`RelationshipPlan::notice`]): user two is told of a friend request from
/// user one, with a link to accept it; user one is told that user two
/// accepted their request.
pub fn relationship_notification(
    notice: RelationshipNotice,
    one_id: &str,
    one_name: &str,
    two_id: &str,
    two_name: &str,
) -> (r: Option<NotificationCreate>)
    ensures
        match r {
            Some(n) => notice_fields(notice, one_id@, one_name@, two_id@, two_name@) == Some(notification_view(n)),
            None => notice_fields(notice, one_id@, one_name@, two_id@, two_name@) is None,
        },
{
    match notice {
        RelationshipNotice::Silent => None,
        RelationshipNotice::FriendRequest => {
            let mut title: Vec<char> = Vec::new();
            push_str(&mut title, "[@");
            push_str(&mut title, one_name);
            push_str(&mut title, "](/+u/");
            push_str(&mut title, one_id);
            push_str(&mut title, ") has sent you a friend request!");
            let mut content: Vec<char> = Vec::new();
            push_str(&mut content, one_name);
            push_str(&mut content, " wants to be your friend.");
            let mut address: Vec<char> = Vec::new();
            push_str(&mut address, "/@");
            push_str(&mut address, one_id);
            push_str(&mut address, "/relationship/friend_accept");
            assert(Seq::<char>::empty() + "[@"@ =~= "[@"@);
            assert(Seq::<char>::empty() + one_name@ =~= one_name@);
            assert(Seq::<char>::empty() + "/@"@ =~= "/@"@);
            Some(NotificationCreate {
                title: string_of(title.as_slice()),
                content: string_of(content.as_slice()),
                address: string_of(address.as_slice()),
                recipient: two_id.to_owned(),
            })
        },
        RelationshipNotice::RequestAccepted => {
            let mut content: Vec<char> = Vec::new();
            push_str(&mut content, "[@");
            push_str(&mut content, two_name);
            push_str(&mut content, "](/@");
            push_str(&mut content, two_name);
            push_str(&mut content, ") has accepted your friend request.");
            assert(Seq::<char>::empty() + "[@"@ =~= "[@"@);
            let address = String::new();
            Some(NotificationCreate {
                title: "Your friend request has been accepted!".to_owned(),
                content: string_of(content.as_slice()),
                address,
                recipient: one_id.to_owned(),
            })
        },
    }
}

/// Whether a relationship change is refused: a friend request to a user
/// who limits friend requests and does not follow the sender.
pub open spec fn relationship_refused(
    current: RelationshipStatus,
    status: RelationshipStatus,
    two_limits_requests: bool,
    two_follows_one: bool,
) -> bool {
    current != status && status == RelationshipStatus::Pending && two_limits_requests && !two_follows_one
}

fn step(write: RelationshipWrite, one: &str, two: &str, status: RelationshipStatus) -> (r: RelationshipStep)
    ensures
        step_view(r) == (write, one@, two@, status),
{
    RelationshipStep { write, one: one.to_owned(), two: two.to_owned(), status }
}

/// Decide what setting the relationship of `one` and `two` to `status`
/// does. The stored relationship of the pair has status `current` and users
/// `stored_one`, `stored_two`; `two_limits_requests` tells whether the
/// stored user two limits friend requests to those they follow, and
/// `two_follows_one` whether they follow the stored user one;
/// `disable_notifications` silences the notification.
pub fn plan_relationship(
    current: RelationshipStatus,
    stored_one: &str,
    stored_two: &str,
    one: &str,
    two: &str,
    status: RelationshipStatus,
    two_limits_requests: bool,
    two_follows_one: bool,
    disable_notifications: bool,
) -> (r: Result<RelationshipPlan, DatabaseError>)
    ensures
        r is Err <==> relationship_refused(current, status, two_limits_requests, two_follows_one),
        r matches Err(e) ==> e == DatabaseError::NotAllowed,
        r matches Ok(p) ==> p.steps@.map_values(|s: RelationshipStep| step_view(s))
            == relationship_steps(current, stored_one@, stored_two@, one@, two@, status)
            && p.friends_delta == relationship_friends_delta(current, stored_one@, one@, status)
            && p.notice == relationship_notice(current, status, disable_notifications),
{
    let mut steps: Vec<RelationshipStep> = Vec::new();
    if current == status {
        assert(steps@.map_values(|s: RelationshipStep| step_view(s)) =~= Seq::empty());
        return Ok(RelationshipPlan { steps, friends_delta: 0, notice: RelationshipNotice::Silent });
    }
    let mut friends_delta: i8 = 0;
    let mut notice = RelationshipNotice::Silent;
    match status {
        RelationshipStatus::Blocked => {
            let so = chars_of(stored_one);
            let oc = chars_of(one);
            if current != RelationshipStatus::Unknown && !chars_eq(so.as_slice(), oc.as_slice()) {
                if current == RelationshipStatus::Friends {
                    friends_delta = -1;
                }
                steps.push(step(RelationshipWrite::Delete, stored_one, stored_two, RelationshipStatus::Unknown));
                steps.push(step(RelationshipWrite::Insert, one, two, status));
            } else if current != RelationshipStatus::Unknown {
                if current == RelationshipStatus::Friends {
                    friends_delta = -1;
                }
                steps.push(step(RelationshipWrite::Update, stored_one, stored_two, status));
            } else {
                steps.push(step(RelationshipWrite::Insert, stored_one, stored_two, status));
            }
        },
        RelationshipStatus::Pending => {
            if two_limits_requests && !two_follows_one {
                return Err(DatabaseError::NotAllowed);
            }
            steps.push(step(RelationshipWrite::Insert, stored_one, stored_two, status));
            if !disable_notifications {
                notice = RelationshipNotice::FriendRequest;
            }
        },
        RelationshipStatus::Friends => {
            steps.push(step(RelationshipWrite::Update, stored_one, stored_two, status));
            friends_delta = 1;
            if !disable_notifications {
                notice = RelationshipNotice::RequestAccepted;
            }
        },
        RelationshipStatus::Unknown => {
            steps.push(step(RelationshipWrite::Delete, stored_one, stored_two, RelationshipStatus::Unknown));
            if current == RelationshipStatus::Friends {
                friends_delta = -1;
            }
        },
    }
    assert(steps@.map_values(|s: RelationshipStep| step_view(s))
        =~= relationship_steps(current, stored_one@, stored_two@, one@, two@, status));
    Ok(RelationshipPlan { steps, friends_delta, notice })
}

/// A block makes the blocking user the first user of the row it leaves:
/// where the stored row is the pair's own (in either order, and `(one,
/// two)` where none is stored), blocking writes a last row `(one, two,
/// Blocked)`, by insertion or update; where no relationship was stored the
/// block is exactly the insertion of that row.
pub proof fn law_blocker_is_user_one(
    current: RelationshipStatus,
    stored_one: Seq<char>,
    stored_two: Seq<char>,
    one: Seq<char>,
    two: Seq<char>,
)
    requires
        current != RelationshipStatus::Blocked,
        (stored_one == one && stored_two == two) || (stored_one == two && stored_two == one),
        current == RelationshipStatus::Unknown ==> stored_one == one && stored_two == two,
    ensures
        ({
            let steps = relationship_steps(current, stored_one, stored_two, one, two, RelationshipStatus::Blocked);
            &&& steps.len() > 0
            &&& steps.last().1 == one
            &&& steps.last().2 == two
            &&& steps.last().3 == RelationshipStatus::Blocked
            &&& (steps.last().0 == RelationshipWrite::Insert || steps.last().0 == RelationshipWrite::Update)
        }),
        current == RelationshipStatus::Unknown ==> relationship_steps(
            current, stored_one, stored_two, one, two, RelationshipStatus::Blocked,
        ) == seq![(RelationshipWrite::Insert, one, two, RelationshipStatus::Blocked)],
{
}

/// Setting a relationship to the status it already has does nothing.
pub proof fn law_relationship_same_status_noop(
    s: RelationshipStatus,
    stored_one: Seq<char>,
    stored_two: Seq<char>,
    one: Seq<char>,
    two: Seq<char>,
    quiet: bool,
)
    ensures
        relationship_steps(s, stored_one, stored_two, one, two, s).len() == 0,
        relationship_friends_delta(s, stored_one, one, s) == 0,
        relationship_notice(s, s, quiet) == RelationshipNotice::Silent,
{
}

/// Becoming friends adds one friend to both users, and only becoming
/// friends does; a friend is taken away exactly where a friendship ends by
/// removal or by a block.
pub proof fn law_friend_counts_grow_only_on_friendship(
    current: RelationshipStatus,
    stored_one: Seq<char>,
    one: Seq<char>,
    status: RelationshipStatus,
)
    ensures
        relationship_friends_delta(current, stored_one, one, status) == 1 <==> (current != status && status
            == RelationshipStatus::Friends),
        relationship_friends_delta(current, stored_one, one, status) == -1 <==> (current
            == RelationshipStatus::Friends && (status == RelationshipStatus::Unknown || status
            == RelationshipStatus::Blocked)),
{
}

/// What a user asks of their relationship with another user.
#[derive(Clone, Copy, Debug, PartialEq, Eq, Structural)]
pub enum RelationshipRequest {
    /// Send, accept or withdraw a friend request (or end a friendship).
    Friend,
    /// Block the other user.
    Block,
    /// Remove the relationship.
    Remove,
}

/// The status a relationship request asks for, given the current status
/// and whether the actor is the user who set it: refused with `NotAllowed`
/// where the other user blocked the actor; a friend request sends a request
/// where there is no relationship, accepts a pending one sent by the other
/// user (a request the actor sent stays pending), and otherwise ends the
/// relationship.
pub open spec fn requested_status(req: RelationshipRequest, current: RelationshipStatus, actor_set_it: bool) -> Result<
    RelationshipStatus,
    DatabaseError,
> {
    if current == RelationshipStatus::Blocked && !actor_set_it {
        Err(DatabaseError::NotAllowed)
    } else {
        match req {
            RelationshipRequest::Friend => if current == RelationshipStatus::Unknown {
                Ok(RelationshipStatus::Pending)
            } else if current == RelationshipStatus::Pending {
                if actor_set_it {
                    Ok(RelationshipStatus::Pending)
                } else {
                    Ok(RelationshipStatus::Friends)
                }
            } else {
                Ok(RelationshipStatus::Unknown)
            },
            RelationshipRequest::Block => Ok(RelationshipStatus::Blocked),
            RelationshipRequest::Remove => Ok(RelationshipStatus::Unknown),
        }
    }
}

/// Decide the status that `actor`'s request sets, where the relationship
/// with the other user is `current` and was set by `setter`.
pub fn request_relationship(req: RelationshipRequest, current: RelationshipStatus, setter: &str, actor: &str) -> (r:
    Result<RelationshipStatus, DatabaseError>)
    ensures
        r == requested_status(req, current, setter@ == actor@),
{
    if current == RelationshipStatus::Blocked {
        let s = chars_of(setter);
        let a = chars_of(actor);
        if !chars_eq(s.as_slice(), a.as_slice()) {
            return Err(DatabaseError::NotAllowed);
        }
    }
    match req {
        RelationshipRequest::Friend => {
            if current == RelationshipStatus::Unknown {
                Ok(RelationshipStatus::Pending)
            } else if current == RelationshipStatus::Pending {
                let s = chars_of(setter);
                let a = chars_of(actor);
                if chars_eq(s.as_slice(), a.as_slice()) {
                    Ok(RelationshipStatus::Pending)
                } else {
                    Ok(RelationshipStatus::Friends)
                }
            } else {
                Ok(RelationshipStatus::Unknown)
            }
        },
        RelationshipRequest::Block => Ok(RelationshipStatus::Blocked),
        RelationshipRequest::Remove => Ok(RelationshipStatus::Unknown),
    }
}

/// A user may not follow someone who blocked them: refused with
/// `NotAllowed` where the other user's relationship with the actor is
/// `Blocked`.
pub fn check_may_follow(relationship: RelationshipStatus) -> (r: Result<(), DatabaseError>)
    ensures
        r is Err <==> relationship == RelationshipStatus::Blocked,
        r matches Err(e) ==> e == DatabaseError::NotAllowed,
{
    if relationship == RelationshipStatus::Blocked {
        return Err(DatabaseError::NotAllowed);
    }
    Ok(())
}

/// A pending friend request is accepted only by the user it was sent to:
/// no request of its sender makes the pair friends.
pub proof fn law_only_the_recipient_accepts(req: RelationshipRequest)
    ensures
        requested_status(req, RelationshipStatus::Pending, true) != Ok::<RelationshipStatus, DatabaseError>(
            RelationshipStatus::Friends,
        ),
{
}

/// A blocked user can change nothing about the relationship that blocks
/// them; the user who blocked can always lift or keep the block.
pub proof fn law_block_binds_the_blocked(req: RelationshipRequest)
    ensures
        requested_status(req, RelationshipStatus::Blocked, false) is Err,
        requested_status(req, RelationshipStatus::Blocked, true) is Ok,
{
}

/// What following or unfollowing does: remove the follow (and count one
/// follower less) where it exists, else add it (one more, and tell the
/// followed user).
#[derive(Clone, Copy, Debug, PartialEq, Eq, Structural)]
pub enum FollowPlan {
    Unfollow,
    Follow,
}

/// The toggle of a follow that exists (or not).
pub open spec fn follow_plan(follow_exists: bool) -> FollowPlan {
    if follow_exists { FollowPlan::Unfollow } else { FollowPlan::Follow }
}

/// Decide what toggling the follow of `user` on `following` does.
/// Following oneself is refused.
pub fn plan_follow_toggle(user: &str, following: &str, follow_exists: bool) -> (r: Result<FollowPlan, DatabaseError>)
    ensures
        r is Err <==> user@ == following@,
        r matches Err(e) ==> e == DatabaseError::Other,
        r matches Ok(p) ==> p == follow_plan(follow_exists),
{
    let u = chars_of(user);
    let f = chars_of(following);
    if chars_eq(u.as_slice(), f.as_slice()) {
        return Err(DatabaseError::Other);
    }
    if follow_exists {
        Ok(FollowPlan::Unfollow)
    } else {
        Ok(FollowPlan::Follow)
    }
}

/// The change to the follow counts of a planned toggle.
pub open spec fn follow_delta(p: FollowPlan) -> int {
    match p {
        FollowPlan::Unfollow => -1,
        FollowPlan::Follow => 1,
    }
}

/// Toggling a follow twice leaves the counts as they were: the second
/// toggle finds the opposite of what the first found.
pub proof fn law_follow_toggle_twice(exists_before: bool)
    ensures
        follow_delta(follow_plan(exists_before)) + follow_delta(follow_plan(!exists_before)) == 0,
{
}

/// The outcome of a coin transaction: the new balances and whether the
/// customer is told that the purchased data is available.
#[derive(Debug)]
pub struct TransactionPlan {
    pub customer_coins: i32,
    pub merchant_coins: i32,
    pub notify_customer: bool,
}

/// Whether a transaction's balance arithmetic stays within `i32`.
pub open spec fn transaction_fits(customer_coins: i32, merchant_coins: i32, amount: i32, same_user: bool) -> bool {
    &&& amount != i32::MIN
    &&& i32::MIN <= customer_coins + amount <= i32::MAX
    &&& same_user ==> i32::MIN <= customer_coins + amount + (if amount < 0 { -amount } else { amount as int }) <= i32::MAX
    &&& !same_user ==> i32::MIN <= merchant_coins + (if amount < 0 { -amount } else { amount as int }) <= i32::MAX
}

/// The balances of customer and merchant after a transaction: the
/// customer's changes by `amount`, the merchant's grows by its absolute
/// value; both apply to one balance where they are the same user.
pub open spec fn transaction_balances(customer_coins: int, merchant_coins: int, amount: int, same_user: bool) -> (int, int) {
    let abs = if amount < 0 { -amount } else { amount };
    if same_user {
        (customer_coins + amount + abs, customer_coins + amount + abs)
    } else {
        (customer_coins + amount, merchant_coins + abs)
    }
}

/// Decide a coin transaction of `amount` from `customer` to `merchant`:
/// refused (`TooExpensive`) where a negative amount would take the
/// customer below zero; otherwise the balances become
/// [`transaction_balances`], and the customer is told unless they bought
/// from themselves or from the system account `0`.
pub fn plan_transaction(
    customer: &str,
    customer_coins: i32,
    merchant: &str,
    merchant_coins: i32,
    amount: i32,
) -> (r: Result<TransactionPlan, DatabaseError>)
    requires
        transaction_fits(customer_coins, merchant_coins, amount, customer@ == merchant@),
    ensures
        r is Err <==> (amount < 0 && customer_coins + amount < 0),
        r matches Err(e) ==> e == DatabaseError::TooExpensive,
        r matches Ok(p) ==> (p.customer_coins as int, p.merchant_coins as int) == transaction_balances(
            customer_coins as int, merchant_coins as int, amount as int, customer@ == merchant@)
            && p.notify_customer == (customer@ != merchant@ && merchant@ != "0"@),
{
    if amount < 0 {
        if customer_coins + amount < 0 {
            return Err(DatabaseError::TooExpensive);
        }
    }
    let abs: i32 = if amount < 0 { -amount } else { amount };
    let c = chars_of(customer);
    let m = chars_of(merchant);
    let zero = chars_of("0");
    let same = chars_eq(c.as_slice(), m.as_slice());
    let new_customer = customer_coins + amount;
    let (customer_final, merchant_final) = if same {
        let both = new_customer + abs;
        (both, both)
    } else {
        (new_customer, merchant_coins + abs)
    };
    let system = chars_eq(m.as_slice(), zero.as_slice());
    Ok(TransactionPlan { customer_coins: customer_final, merchant_coins: merchant_final, notify_customer: !same && !system })
}

/// The balance that a coin update stores: the change is added to the
/// current balance, not put in its place.
pub fn coins_after_update(current: i32, change: i32) -> (r: i32)
    requires
        i32::MIN <= current + change <= i32::MAX,
    ensures
        r == current + change,
{
    current + change
}

/// A purchase between two users (a negative amount) moves coins from the
/// customer to the merchant without creating any, and never leaves the
/// customer below zero.
pub proof fn law_purchase_conserves_coins(c: int, m: int, amount: int)
    requires
        amount < 0,
        c + amount >= 0,
    ensures
        transaction_balances(c, m, amount, false).0 + transaction_balances(c, m, amount, false).1 == c + m,
        transaction_balances(c, m, amount, false).0 >= 0,
{
}

/// The notification that records `content` in the audit log in the name of
/// the user `actor_id`: titled and addressed with a link to that user, and
/// sent to all staff.
pub fn audit_notice(actor_id: &str, content: &str) -> (r: NotificationCreate)
    ensures
        r.title@ == "["@ + actor_id@ + "](/+u/"@ + actor_id@ + ")"@,
        r.content@ == content@,
        r.address@ == "/+u/"@ + actor_id@,
        r.recipient@ == "*(audit)"@,
{
    let mut title: Vec<char> = Vec::new();
    push_str(&mut title, "[");
    push_str(&mut title, actor_id);
    push_str(&mut title, "](/+u/");
    push_str(&mut title, actor_id);
    push_str(&mut title, ")");
    let mut address: Vec<char> = Vec::new();
    push_str(&mut address, "/+u/");
    push_str(&mut address, actor_id);
    NotificationCreate {
        title: string_of(title.as_slice()),
        content: content.to_owned(),
        address: string_of(address.as_slice()),
        recipient: "*(audit)".to_owned(),
    }
}

/// The checks before a label named `name` is created by a user whose group
/// grants `group`: `NotAllowed` without the permission to create labels,
/// then `Other` for a name shorter than 2 or longer than 32 bytes.
pub fn validate_new_label(group: FinePermission, name: &str) -> (r: Result<(), DatabaseError>)
    ensures
        !grants(group.bits, crate::permissions::CREATE_LABEL) ==> r == Err::<(), DatabaseError>(
            DatabaseError::NotAllowed,
        ),
        grants(group.bits, crate::permissions::CREATE_LABEL) ==> (r is Ok <==> 2 <= utf8_len(name@) <= 32),
        grants(group.bits, crate::permissions::CREATE_LABEL) && r is Err ==> r == Err::<(), DatabaseError>(
            DatabaseError::Other,
        ),
{
    if !group.check(FinePermission { bits: crate::permissions::CREATE_LABEL }) {
        return Err(DatabaseError::NotAllowed);
    }
    let len = crate::text::byte_len(name);
    if len < 2 || len > 32 {
        return Err(DatabaseError::Other);
    }
    Ok(())
}

/// Whether the database of type `db_type` writes its placeholders `?`
/// (SQLite and MySQL) rather than `$1`, `$2`, ... (PostgreSQL).
pub fn question_mark_placeholders(db_type: &str) -> (r: bool)
    ensures
        r == (db_type@ == "sqlite"@ || db_type@ == "mysql"@),
{
    let t = chars_of(db_type);
    let a = chars_of("sqlite");
    let b = chars_of("mysql");
    chars_eq(t.as_slice(), a.as_slice()) || chars_eq(t.as_slice(), b.as_slice())
}

/// The kind of a step of a profile's deletion.
#[derive(Clone, Copy, Debug, PartialEq, Eq, Structural)]
pub enum DeletionKind {
    /// Run the statement `text` with the values `binds`; a failure ends the
    /// deletion with `Other`.
    Execute,
    /// Forget the cached value under the key `text`.
    ForgetCache,
    /// Remove the upload at `text` (relative to the media directory) where
    /// it exists; a failure ends the deletion with `Other`.
    RemoveUpload,
}

/// One step of a profile's deletion.
#[derive(Debug)]
pub struct DeletionStep {
    pub kind: DeletionKind,
    pub text: String,
    pub binds: Vec<String>,
}

/// The view of a deletion step.
pub open spec fn deletion_view(s: DeletionStep) -> (DeletionKind, Seq<char>, Seq<Seq<char>>) {
    (s.kind, s.text@, strings_view(s.binds@))
}

/// A statement in the placeholder style of the database: `q` where it
/// writes `?`, else `d`.
pub open spec fn styled(qm: bool, q: Seq<char>, d: Seq<char>) -> Seq<char> {
    if qm { q } else { d }
}

/// What deleting the profile `id` (named `username`) does, step by step:
/// the profile, then everything it wrote or received (notifications,
/// warnings, follows, questions, responses, relationships, blocks,
/// transactions, items), forgetting the cached counts and profiles as it
/// goes, and finally its uploaded avatar and banner where uploads are kept.
pub open spec fn profile_deletion_steps(id: Seq<char>, username: Seq<char>, qm: bool, uploads_kept: bool) -> Seq<
    (DeletionKind, Seq<char>, Seq<Seq<char>>),
> {
    let main = seq![
        (DeletionKind::Execute, styled(qm, "DELETE FROM \"xprofiles\" WHERE \"id\" = ?"@,
            "DELETE FROM \"xprofiles\" WHERE \"id\" = $1"@), seq![id]),
        (DeletionKind::Execute, styled(qm, "DELETE FROM \"xnotifications\" WHERE \"recipient\" = ?"@,
            "DELETE FROM \"xnotifications\" WHERE \"recipient\" = $1"@), seq![id]),
        (DeletionKind::Execute, styled(qm, "DELETE FROM \"xwarnings\" WHERE \"recipient\" = ?"@,
            "DELETE FROM \"xwarnings\" WHERE \"recipient\" = $1"@), seq![id]),
        (DeletionKind::Execute, styled(qm, "DELETE FROM \"xfollows\" WHERE \"user\" = ? OR \"following\" = ?"@,
            "DELETE FROM \"xfollows\" WHERE \"user\" = $1 OR \"following\" = $2"@), seq![id, id]),
        (DeletionKind::Execute, styled(qm, "DELETE FROM \"xquestions\" WHERE \"recipient\" = ?"@,
            "DELETE FROM \"xquestions\" WHERE \"recipient\" = $1"@), seq![id]),
        (DeletionKind::Execute, styled(qm, "DELETE FROM \"xquestions\" WHERE \"author\" = ?"@,
            "DELETE FROM \"xquestions\" WHERE \"author\" = $1"@), seq![id]),
        (DeletionKind::Execute, styled(qm, "DELETE FROM \"xresponses\" WHERE \"author\" = ?"@,
            "DELETE FROM \"xresponses\" WHERE \"author\" = $1"@), seq![id]),
        (DeletionKind::Execute, styled(qm, "DELETE FROM \"xresponses\" WHERE \"question\" LIKE ?"@,
            "DELETE FROM \"xresponses\" WHERE \"question\" LIKE $1"@), seq!["%\"author\":\""@ + id + "\"%"@]),
        (DeletionKind::ForgetCache, "rbeam.app.response_count:"@ + id, Seq::empty()),
        (DeletionKind::ForgetCache, "rbeam.app.global_question_count:"@ + id, Seq::empty()),
        (DeletionKind::Execute, styled(qm, "DELETE FROM \"xrelationships\" WHERE \"one\" = ? OR \"two\" = ?"@,
            "DELETE FROM \"xrelationships\" WHERE \"one\" = $1 OR \"two\" = $2"@), seq![id, id]),
        (DeletionKind::ForgetCache, "rbeam.app.friends_count:"@ + id, Seq::empty()),
        (DeletionKind::Execute, styled(qm, "DELETE FROM \"xipblocks\" WHERE \"user\" = ?"@,
            "DELETE FROM \"xipblocks\" WHERE \"user\" = $1"@), seq![id]),
        (DeletionKind::Execute, styled(qm,
            "DELETE FROM \"xugc_transactions\" WHERE \"customer\" = ? OR \"merchant\" = ?"@,
            "DELETE FROM \"xugc_transactions\" WHERE \"customer\" = $1 OR \"merchant\" = $2"@), seq![id, id]),
        (DeletionKind::Execute, styled(qm, "DELETE FROM \"xugc_items\" WHERE \"creator\" = ?"@,
            "DELETE FROM \"xugc_items\" WHERE \"creator\" = $1"@), seq![id]),
        (DeletionKind::ForgetCache, "rbeam.auth.profile:"@ + id, Seq::empty()),
        (DeletionKind::ForgetCache, "rbeam.auth.profile:"@ + username, Seq::empty()),
        (DeletionKind::ForgetCache, "rbeam.auth.followers_count:"@ + id, Seq::empty()),
        (DeletionKind::ForgetCache, "rbeam.auth.following_count:"@ + id, Seq::empty()),
        (DeletionKind::ForgetCache, "rbeam.auth.notification_count:"@ + id, Seq::empty()),
    ];
    if uploads_kept {
        main + seq![
            (DeletionKind::RemoveUpload, "avatars/"@ + id + ".avif"@, Seq::empty()),
            (DeletionKind::RemoveUpload, "banners/"@ + id + ".avif"@, Seq::empty()),
        ]
    } else {
        main
    }
}

fn concat2(a: &str, b: &str) -> (r: String)
    ensures
        r@ == a@ + b@,
{
    let mut out: Vec<char> = Vec::new();
    push_str(&mut out, a);
    push_str(&mut out, b);
    string_of(out.as_slice())
}

fn concat3(a: &str, b: &str, c: &str) -> (r: String)
    ensures
        r@ == a@ + b@ + c@,
{
    let mut out: Vec<char> = Vec::new();
    push_str(&mut out, a);
    push_str(&mut out, b);
    push_str(&mut out, c);
    string_of(out.as_slice())
}

fn push_step(steps: &mut Vec<DeletionStep>, kind: DeletionKind, text: String, binds: Vec<String>)
    ensures
        final(steps)@.map_values(|s: DeletionStep| deletion_view(s)) == old(steps)@.map_values(
            |s: DeletionStep| deletion_view(s),
        ).push((kind, text@, strings_view(binds@))),
{
    let ghost before = steps@.map_values(|s: DeletionStep| deletion_view(s));
    steps.push(DeletionStep { kind, text, binds });
    assert(steps@.map_values(|s: DeletionStep| deletion_view(s)) =~= before.push(
        (kind, text@, strings_view(binds@)),
    ));
}

fn one_bind(a: &str) -> (r: Vec<String>)
    ensures
        strings_view(r@) == seq![a@],
{
    let mut v: Vec<String> = Vec::new();
    v.push(a.to_owned());
    assert(strings_view(v@) =~= seq![a@]);
    v
}

fn two_binds(a: &str) -> (r: Vec<String>)
    ensures
        strings_view(r@) == seq![a@, a@],
{
    let mut v: Vec<String> = Vec::new();
    v.push(a.to_owned());
    v.push(a.to_owned());
    assert(strings_view(v@) =~= seq![a@, a@]);
    v
}

fn no_binds() -> (r: Vec<String>)
    ensures
        strings_view(r@) == Seq::<Seq<char>>::empty(),
{
    let v: Vec<String> = Vec::new();
    assert(strings_view(v@) =~= Seq::<Seq<char>>::empty());
    v
}

fn styled_exec(qm: bool, q: &str, d: &str) -> (r: String)
    ensures
        r@ == styled(qm, q@, d@),
{
    if qm {
        q.to_owned()
    } else {
        d.to_owned()
    }
}

/// Plan the deletion of the profile `id` (named `username`) on a database
/// that writes `?` placeholders (`qm`) or not, keeping uploads or not.
pub fn plan_profile_deletion(id: &str, username: &str, qm: bool, uploads_kept: bool) -> (r: Vec<DeletionStep>)
    ensures
        r@.map_values(|s: DeletionStep| deletion_view(s)) == profile_deletion_steps(id@, username@, qm, uploads_kept),
{
    let mut steps: Vec<DeletionStep> = Vec::new();
    assert(steps@.map_values(|s: DeletionStep| deletion_view(s)) =~= Seq::empty());
    let t = styled_exec(qm, "DELETE FROM \"xprofiles\" WHERE \"id\" = ?", "DELETE FROM \"xprofiles\" WHERE \"id\" = $1");
    push_step(&mut steps, DeletionKind::Execute, t, one_bind(id));
    let t = styled_exec(qm, "DELETE FROM \"xnotifications\" WHERE \"recipient\" = ?",
        "DELETE FROM \"xnotifications\" WHERE \"recipient\" = $1");
    push_step(&mut steps, DeletionKind::Execute, t, one_bind(id));
    let t = styled_exec(qm, "DELETE FROM \"xwarnings\" WHERE \"recipient\" = ?",
        "DELETE FROM \"xwarnings\" WHERE \"recipient\" = $1");
    push_step(&mut steps, DeletionKind::Execute, t, one_bind(id));
    let t = styled_exec(qm, "DELETE FROM \"xfollows\" WHERE \"user\" = ? OR \"following\" = ?",
        "DELETE FROM \"xfollows\" WHERE \"user\" = $1 OR \"following\" = $2");
    push_step(&mut steps, DeletionKind::Execute, t, two_binds(id));
    let t = styled_exec(qm, "DELETE FROM \"xquestions\" WHERE \"recipient\" = ?",
        "DELETE FROM \"xquestions\" WHERE \"recipient\" = $1");
    push_step(&mut steps, DeletionKind::Execute, t, one_bind(id));
    let t = styled_exec(qm, "DELETE FROM \"xquestions\" WHERE \"author\" = ?",
        "DELETE FROM \"xquestions\" WHERE \"author\" = $1");
    push_step(&mut steps, DeletionKind::Execute, t, one_bind(id));
    let t = styled_exec(qm, "DELETE FROM \"xresponses\" WHERE \"author\" = ?",
        "DELETE FROM \"xresponses\" WHERE \"author\" = $1");
    push_step(&mut steps, DeletionKind::Execute, t, one_bind(id));
    let t = styled_exec(qm, "DELETE FROM \"xresponses\" WHERE \"question\" LIKE ?",
        "DELETE FROM \"xresponses\" WHERE \"question\" LIKE $1");
    let pattern = concat3("%\"author\":\"", id, "\"%");
    push_step(&mut steps, DeletionKind::Execute, t, one_bind(pattern.as_str()));
    push_step(&mut steps, DeletionKind::ForgetCache, concat2("rbeam.app.response_count:", id), no_binds());
    push_step(&mut steps, DeletionKind::ForgetCache, concat2("rbeam.app.global_question_count:", id), no_binds());
    let t = styled_exec(qm, "DELETE FROM \"xrelationships\" WHERE \"one\" = ? OR \"two\" = ?",
        "DELETE FROM \"xrelationships\" WHERE \"one\" = $1 OR \"two\" = $2");
    push_step(&mut steps, DeletionKind::Execute, t, two_binds(id));
    push_step(&mut steps, DeletionKind::ForgetCache, concat2("rbeam.app.friends_count:", id), no_binds());
    let t = styled_exec(qm, "DELETE FROM \"xipblocks\" WHERE \"user\" = ?",
        "DELETE FROM \"xipblocks\" WHERE \"user\" = $1");
    push_step(&mut steps, DeletionKind::Execute, t, one_bind(id));
    let t = styled_exec(qm, "DELETE FROM \"xugc_transactions\" WHERE \"customer\" = ? OR \"merchant\" = ?",
        "DELETE FROM \"xugc_transactions\" WHERE \"customer\" = $1 OR \"merchant\" = $2");
    push_step(&mut steps, DeletionKind::Execute, t, two_binds(id));
    let t = styled_exec(qm, "DELETE FROM \"xugc_items\" WHERE \"creator\" = ?",
        "DELETE FROM \"xugc_items\" WHERE \"creator\" = $1");
    push_step(&mut steps, DeletionKind::Execute, t, one_bind(id));
    push_step(&mut steps, DeletionKind::ForgetCache, concat2("rbeam.auth.profile:", id), no_binds());
    push_step(&mut steps, DeletionKind::ForgetCache, concat2("rbeam.auth.profile:", username), no_binds());
    push_step(&mut steps, DeletionKind::ForgetCache, concat2("rbeam.auth.followers_count:", id), no_binds());
    push_step(&mut steps, DeletionKind::ForgetCache, concat2("rbeam.auth.following_count:", id), no_binds());
    push_step(&mut steps, DeletionKind::ForgetCache, concat2("rbeam.auth.notification_count:", id), no_binds());
    if uploads_kept {
        push_step(&mut steps, DeletionKind::RemoveUpload, concat3("avatars/", id, ".avif"), no_binds());
        push_step(&mut steps, DeletionKind::RemoveUpload, concat3("banners/", id, ".avif"), no_binds());
    }
    assert(steps@.map_values(|s: DeletionStep| deletion_view(s)) =~= profile_deletion_steps(
        id@,
        username@,
        qm,
        uploads_kept,
    ));
    steps
}

} // verus!
