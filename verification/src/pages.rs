//! Logic of the page routes: query parameters and the cleaning of
//! user-written profile text before it is shown.
use vstd::prelude::*;
use crate::model::{DatabaseError, ItemStatus, ItemType, ProfileMetadata};
use crate::permissions::{is_helper, is_manager, FinePermission};
use crate::text::{chars_of, replace_all, replace_chars, string_of, strs_view};

verus! {

/// What `ammonia`'s default cleaner, with the tags `removed_tags` taken out
/// of its allowed set, makes of `input`.
pub uninterp spec fn ammonia_clean(removed_tags: Seq<Seq<char>>, input: Seq<char>) -> Seq<char>;

/// Runs `ammonia::Builder::default().rm_tags(removed_tags).clean(input)` and
/// renders the resulting document. The result is named, not stated: it is
/// whatever ammonia's sanitiser makes of these arguments.
#[verifier::external_body]
fn sanitize_html(removed_tags: &[&str], input: &str) -> (r: String)
    ensures
        r@ == ammonia_clean(strs_view(removed_tags@), input@),
{
    ammonia::Builder::default().rm_tags(removed_tags).clean(input).to_string()
}

/// The tags that profile text may not hold.
pub open spec fn removed_tags() -> Seq<Seq<char>> {
    seq!["img"@, "a"@, "span"@, "p"@, "h1"@, "h2"@, "h3"@, "h4"@, "h5"@, "h6"@]
}

/// `s` with the entities for `<`, `>` and `&` turned back into characters,
/// and closing script tags defused.
pub open spec fn entities_restored(s: Seq<char>) -> Seq<char> {
    replace_all(
        replace_all(replace_all(replace_all(s, "&lt;"@, "<"@), "&gt;"@, ">"@), "&amp;"@, "&"@),
        "</script>"@,
        "</not-script"@,
    )
}

/// Sanitised HTML with the entities for `<`, `>` and `&` turned back into
/// characters, and closing script tags defused.
pub open spec fn tags_removed(input: Seq<char>) -> Seq<char> {
    entities_restored(ammonia_clean(removed_tags(), input))
}

/// Image URLs in profile text go through the image proxy.
pub open spec fn proxied_urls(v: Seq<char>) -> Seq<char> {
    replace_all(
        replace_all(v, "url(\""@, "url(\"/api/v0/util/ext/image?img="@),
        "url(https://"@,
        "url(/api/v0/util/ext/image?img=https://"@,
    )
}

/// A metadata value with `<` and `>` escaped, image URLs proxied and style
/// tags dropped.
pub open spec fn cleaned_value(v: Seq<char>) -> Seq<char> {
    replace_all(
        replace_all(proxied_urls(replace_all(replace_all(v, "<"@, "&lt;"@), ">"@, "&gt;"@)), "<style>"@, ""@),
        "</style>"@,
        ""@,
    )
}

/// A metadata value with `<` and `>` escaped and style tags dropped.
pub open spec fn cleaned_value_short(v: Seq<char>) -> Seq<char> {
    replace_all(
        replace_all(replace_all(replace_all(v, "<"@, "&lt;"@), ">"@, "&gt;"@), "<style>"@, ""@),
        "</style>"@,
        ""@,
    )
}

/// A profile color with separators, braces and tags neutralised and image
/// URLs proxied, before tag removal.
pub open spec fn escaped_color(c: Seq<char>) -> Seq<char> {
    replace_all(
        replace_all(
            replace_all(
                replace_all(
                    replace_all(
                        replace_all(replace_all(replace_all(c, ";"@, ""@), "<"@, "&lt;"@), ">"@, "%gt;"@),
                        "}"@,
                        ""@,
                    ),
                    "{"@,
                    ""@,
                ),
                "url(\""@,
                "url(\"/api/v0/util/ext/image?img="@,
            ),
            "url('"@,
            "url('/api/v0/util/ext/image?img="@,
        ),
        "url(https://"@,
        "url(/api/v0/util/ext/image?img=https://"@,
    )
}

/// `s` with the literal `pat` replaced by `rep`.
pub(crate) fn replace_lit(s: &Vec<char>, pat: &str, rep: &str) -> (r: Vec<char>)
    requires
        pat@.len() > 0,
    ensures
        r@ == replace_all(s@, pat@, rep@),
{
    let p = chars_of(pat);
    let q = chars_of(rep);
    replace_chars(s.as_slice(), p.as_slice(), q.as_slice())
}

/// What follows the sanitiser in [`remove_tags`]: the entities for `<`, `>`
/// and `&` in `cleaned` turned back into characters, and closing script
/// tags defused.
pub fn restore_entities(cleaned: &str) -> (r: String)
    ensures
        r@ == entities_restored(cleaned@),
{
    proof {
        reveal_strlit("&lt;");
        reveal_strlit("&gt;");
        reveal_strlit("&amp;");
        reveal_strlit("</script>");
    }
    let s = chars_of(cleaned);
    let s = replace_lit(&s, "&lt;", "<");
    let s = replace_lit(&s, "&gt;", ">");
    let s = replace_lit(&s, "&amp;", "&");
    let s = replace_lit(&s, "</script>", "</not-script");
    string_of(s.as_slice())
}

/// Clean profile text: sanitise its HTML, then turn the entities for `<`,
/// `>` and `&` back into characters and defuse closing script tags.
pub fn remove_tags(input: &str) -> (r: String)
    ensures
        r@ == tags_removed(input@),
{
    let tags: [&str; 10] = ["img", "a", "span", "p", "h1", "h2", "h3", "h4", "h5", "h6"];
    proof {
        assert(strs_view(tags@) =~= removed_tags());
    }
    let cleaned = sanitize_html(tags.as_slice(), input);
    restore_entities(cleaned.as_str())
}

/// Escape profile colors.
pub fn color_escape(color: &&&String) -> (r: String)
    ensures
        r@ == tags_removed(escaped_color((***color)@)),
{
    proof {
        reveal_strlit(";");
        reveal_strlit("<");
        reveal_strlit(">");
        reveal_strlit("}");
        reveal_strlit("{");
        reveal_strlit("url(\"");
        reveal_strlit("url('");
        reveal_strlit("url(https://");
    }
    let s = chars_of((***color).as_str());
    let s = replace_lit(&s, ";", "");
    let s = replace_lit(&s, "<", "&lt;");
    let s = replace_lit(&s, ">", "%gt;");
    let s = replace_lit(&s, "}", "");
    let s = replace_lit(&s, "{", "");
    let s = replace_lit(&s, "url(\"", "url(\"/api/v0/util/ext/image?img=");
    let s = replace_lit(&s, "url('", "url('/api/v0/util/ext/image?img=");
    let s = replace_lit(&s, "url(https://", "url(/api/v0/util/ext/image?img=https://");
    let escaped = string_of(s.as_slice());
    remove_tags(escaped.as_str())
}

/// The cleaned form of one metadata value.
pub(crate) fn clean_value(v: &str) -> (r: String)
    ensures
        r@ == cleaned_value(v@),
{
    proof {
        reveal_strlit("<");
        reveal_strlit(">");
        reveal_strlit("url(\"");
        reveal_strlit("url(https://");
        reveal_strlit("<style>");
        reveal_strlit("</style>");
    }
    let s = chars_of(v);
    let s = replace_lit(&s, "<", "&lt;");
    let s = replace_lit(&s, ">", "&gt;");
    let s = replace_lit(&s, "url(\"", "url(\"/api/v0/util/ext/image?img=");
    let s = replace_lit(&s, "url(https://", "url(/api/v0/util/ext/image?img=https://");
    let s = replace_lit(&s, "<style>", "");
    let s = replace_lit(&s, "</style>", "");
    string_of(s.as_slice())
}

/// The short cleaned form of one metadata value.
fn clean_value_short(v: &str) -> (r: String)
    ensures
        r@ == cleaned_value_short(v@),
{
    proof {
        reveal_strlit("<");
        reveal_strlit(">");
        reveal_strlit("<style>");
        reveal_strlit("</style>");
    }
    let s = chars_of(v);
    let s = replace_lit(&s, "<", "&lt;");
    let s = replace_lit(&s, ">", "&gt;");
    let s = replace_lit(&s, "<style>", "");
    let s = replace_lit(&s, "</style>", "");
    string_of(s.as_slice())
}

/// Clean profile metadata: every extra value is cleaned, the rest is kept.
pub fn clean_metadata_raw(metadata: &ProfileMetadata) -> (r: ProfileMetadata)
    ensures
        r.email@ == metadata.email@,
        r.policy_consent == metadata.policy_consent,
        r.kv@ == metadata.kv@.map_values(|v: Seq<char>| cleaned_value(v)),
{
    let entries = metadata.kv.entries();
    let mut values: Vec<String> = Vec::new();
    let mut i: usize = 0;
    while i < entries.len()
        invariant
            crate::kv::pairs_view(entries@) == metadata.kv.pairs(),
            i <= entries.len(),
            values@.len() == i,
            forall|j: int| 0 <= j < i ==> #[trigger] values@[j]@ == cleaned_value(metadata.kv.pairs()[j].1),
        decreases entries.len() - i,
    {
        assert(metadata.kv.pairs()[i as int].1 == entries@[i as int].1@);
        values.push(clean_value(entries[i].1.as_str()));
        i = i + 1;
    }
    let kv = metadata.kv.with_values(values);
    proof {
        crate::kv::lemma_pointwise_values(metadata.kv.pairs(), kv.pairs(), |v: Seq<char>| cleaned_value(v));
    }
    ProfileMetadata { email: metadata.email.clone(), policy_consent: metadata.policy_consent, kv }
}

/// Clean profile metadata (short form): every extra value is cleaned, the
/// rest is kept.
pub fn clean_metadata_short_raw(metadata: &ProfileMetadata) -> (r: ProfileMetadata)
    ensures
        r.email@ == metadata.email@,
        r.policy_consent == metadata.policy_consent,
        r.kv@ == metadata.kv@.map_values(|v: Seq<char>| cleaned_value_short(v)),
{
    let entries = metadata.kv.entries();
    let mut values: Vec<String> = Vec::new();
    let mut i: usize = 0;
    while i < entries.len()
        invariant
            crate::kv::pairs_view(entries@) == metadata.kv.pairs(),
            i <= entries.len(),
            values@.len() == i,
            forall|j: int| 0 <= j < i ==> #[trigger] values@[j]@ == cleaned_value_short(metadata.kv.pairs()[j].1),
        decreases entries.len() - i,
    {
        assert(metadata.kv.pairs()[i as int].1 == entries@[i as int].1@);
        values.push(clean_value_short(entries[i].1.as_str()));
        i = i + 1;
    }
    let kv = metadata.kv.with_values(values);
    proof {
        crate::kv::lemma_pointwise_values(metadata.kv.pairs(), kv.pairs(), |v: Seq<char>| cleaned_value_short(v));
    }
    ProfileMetadata { email: metadata.email.clone(), policy_consent: metadata.policy_consent, kv }
}

/// A page of Markdown text.
#[derive(Debug)]
pub struct MarkdownTemplate {
    pub title: String,
    pub text: String,
}

#[derive(Debug)]
pub struct PaginatedQuery {
    pub page: i32,
}

#[derive(Debug)]
pub struct PaginatedCleanQuery {
    pub page: i32,
    pub clean: bool,
}

#[derive(Debug)]
pub struct NotificationsQuery {
    pub page: i32,
    pub profile: String,
}

#[derive(Debug)]
pub struct SearchQuery {
    pub page: i32,
    pub q: String,
    pub tag: String,
}

#[derive(Debug)]
pub struct MarketQuery {
    pub page: i32,
    pub q: String,
    pub status: ItemStatus,
    pub creator: String,
    pub item_type: Option<ItemType>,
}

#[derive(Debug)]
pub struct SearchHomeQuery {
    pub driver: i8,
}

#[derive(Debug)]
pub struct ProfileQuery {
    pub page: i32,
    pub tag: Option<String>,
    pub q: Option<String>,
}

#[derive(Debug)]
pub struct CleanProfileQuery {
    pub page: i32,
    pub tag: Option<String>,
    pub q: Option<String>,
    pub clean: bool,
}

#[derive(Debug)]
pub struct PartialResponseProps {
    pub id: String,
}

#[derive(Debug)]
pub struct PartialMailProps {
    pub id: String,
}

/// Whether items of status `s` are shown to everyone.
pub open spec fn is_public_status(s: ItemStatus) -> bool {
    s == ItemStatus::Approved || s == ItemStatus::Featured
}

/// An item page is refused (`NotAllowed`) to a viewer who is not staff,
/// did not create the item, and the item is not approved or featured.
pub fn check_item_visible(viewer: &str, viewer_is_helper: bool, status: ItemStatus, creator: &str) -> (r: Result<
    (),
    DatabaseError,
>)
    ensures
        r is Err <==> (!viewer_is_helper && !is_public_status(status) && viewer@ != creator@),
        r matches Err(e) ==> e == DatabaseError::NotAllowed,
{
    if viewer_is_helper || status == ItemStatus::Approved || status == ItemStatus::Featured {
        return Ok(());
    }
    let v = chars_of(viewer);
    let c = chars_of(creator);
    if crate::text::chars_eq(v.as_slice(), c.as_slice()) {
        return Ok(());
    }
    Err(DatabaseError::NotAllowed)
}

/// The theme playground only shows user themes (`ValueError` otherwise).
pub fn check_theme_item(item_type: ItemType) -> (r: Result<(), DatabaseError>)
    ensures
        r is Ok <==> item_type == ItemType::UserTheme,
        r matches Err(e) ==> e == DatabaseError::ValueError,
{
    if item_type != ItemType::UserTheme {
        return Err(DatabaseError::ValueError);
    }
    Ok(())
}

/// Which items the market page lists.
#[derive(Clone, Copy, Debug, PartialEq, Eq, Structural)]
pub enum MarketListing {
    /// The items of the queried status that match the search.
    ByStatus,
    /// The queried creator's items of the queried type.
    ByCreatorAndType,
    /// All the queried creator's items.
    ByCreator,
}

/// What the market page lists for a viewer, or why it refuses: only
/// managers see items that are not approved or featured, and only staff
/// list another user's items.
pub open spec fn market_listing(
    viewer: Seq<char>,
    is_helper: bool,
    is_manager: bool,
    status: ItemStatus,
    creator: Seq<char>,
    typed: bool,
) -> Result<MarketListing, DatabaseError> {
    if !is_public_status(status) && !is_manager {
        Err(DatabaseError::NotAllowed)
    } else if creator.len() == 0 {
        Ok(MarketListing::ByStatus)
    } else if creator != viewer && !is_helper {
        Err(DatabaseError::NotAllowed)
    } else if typed {
        Ok(MarketListing::ByCreatorAndType)
    } else {
        Ok(MarketListing::ByCreator)
    }
}

/// Decide what the market page lists for `viewer`, whose group grants
/// `group`.
pub fn plan_market_listing(viewer: &str, group: FinePermission, query: &MarketQuery) -> (r: Result<
    MarketListing,
    DatabaseError,
>)
    ensures
        r == market_listing(viewer@, is_helper(group.bits), is_manager(group.bits), query.status, query.creator@,
            query.item_type is Some),
{
    if query.status != ItemStatus::Approved && query.status != ItemStatus::Featured && !group.check_manager() {
        return Err(DatabaseError::NotAllowed);
    }
    if query.creator.as_str().is_empty() {
        return Ok(MarketListing::ByStatus);
    }
    let v = chars_of(viewer);
    let c = chars_of(query.creator.as_str());
    if !crate::text::chars_eq(v.as_slice(), c.as_slice()) && !group.check_helper() {
        return Err(DatabaseError::NotAllowed);
    }
    if query.item_type.is_some() {
        Ok(MarketListing::ByCreatorAndType)
    } else {
        Ok(MarketListing::ByCreator)
    }
}

/// What a purchase of an item of cost `cost` moves: the cost, taken from
/// the customer.
pub fn purchase_amount(cost: i32) -> (r: i32)
    requires
        cost != i32::MIN,
    ensures
        r == -cost,
{
    -cost
}

/// The notification sent to an item's creator when its status changes.
pub open spec fn status_notice(status: ItemStatus, item_id: Seq<char>) -> (Seq<char>, Seq<char>, Seq<char>) {
    (
        "Item status updated!"@,
        "An item you created has been updated to the status of \""@ + crate::model::item_status_name(status)
            + "\""@,
        "/market/item/"@ + item_id,
    )
}

/// The title, text and address of the notification sent to an item's
/// creator when its status becomes `status`.
pub fn item_status_notice(status: ItemStatus, item_id: &str) -> (r: (String, String, String))
    ensures
        (r.0@, r.1@, r.2@) == status_notice(status, item_id@),
{
    let mut content: Vec<char> = Vec::new();
    crate::text::push_str(&mut content, "An item you created has been updated to the status of \"");
    let name = status.to_string();
    crate::text::push_str(&mut content, name.as_str());
    crate::text::push_str(&mut content, "\"");
    let mut address: Vec<char> = Vec::new();
    crate::text::push_str(&mut address, "/market/item/");
    crate::text::push_str(&mut address, item_id);
    ("Item status updated!".to_owned(), string_of(content.as_slice()), string_of(address.as_slice()))
}

/// Whose mailbox a mail page shows: the requested profile where one other
/// than the viewer's own is asked for (staff only), else the viewer's own.
/// `Ok` carries the owner and whether it is another user's mailbox.
pub open spec fn mailbox_of(viewer: Seq<char>, requested: Seq<char>, is_helper: bool) -> Result<
    (Seq<char>, bool),
    DatabaseError,
> {
    let other = requested.len() > 0 && requested != viewer;
    if other && !is_helper {
        Err(DatabaseError::NotAllowed)
    } else if other {
        Ok((requested, true))
    } else {
        Ok((viewer, false))
    }
}

/// Decide whose mailbox the inbox or outbox page shows `viewer`, who asked
/// for `requested` (empty: their own).
pub fn mailbox_owner(viewer: &str, requested: &str, is_helper: bool) -> (r: Result<(String, bool), DatabaseError>)
    ensures
        match r {
            Ok((owner, other)) => mailbox_of(viewer@, requested@, is_helper) == Ok::<(Seq<char>, bool), DatabaseError>(
                (owner@, other),
            ),
            Err(e) => mailbox_of(viewer@, requested@, is_helper) == Err::<(Seq<char>, bool), DatabaseError>(e),
        },
{
    let v = chars_of(viewer);
    let q = chars_of(requested);
    let other = !requested.is_empty() && !crate::text::chars_eq(q.as_slice(), v.as_slice());
    if other && !is_helper {
        return Err(DatabaseError::NotAllowed);
    }
    if other {
        Ok((requested.to_owned(), true))
    } else {
        Ok((viewer.to_owned(), false))
    }
}

/// A letter is shown to managers, its author and its recipients; anyone
/// else is refused (`NotAllowed`).
pub fn check_mail_visible(viewer: &str, author: &str, recipients: &Vec<String>, is_manager: bool) -> (r: Result<
    (),
    DatabaseError,
>)
    ensures
        r is Ok <==> (is_manager || crate::text::strings_view(recipients@).contains(viewer@) || viewer@ == author@),
        r matches Err(e) ==> e == DatabaseError::NotAllowed,
{
    if is_manager {
        return Ok(());
    }
    let v = viewer.to_owned();
    if crate::text::contains_string(recipients, &v) {
        return Ok(());
    }
    let vc = chars_of(viewer);
    let ac = chars_of(author);
    if crate::text::chars_eq(vc.as_slice(), ac.as_slice()) {
        return Ok(());
    }
    Err(DatabaseError::NotAllowed)
}

} // verus!
