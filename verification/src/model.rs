//! Accounts and the records around them: profiles, tokens, metadata,
//! follows, notifications, relationships, mail and the marketplace.
use vstd::prelude::*;
use crate::kv::StringMap;
use crate::layout::{ComponentName, LayoutComponent};
use crate::permissions::{FinePermission, DEFAULT};
use crate::text::{chars_eq, chars_of, starts_with, string_of, has_prefix, utf8_len};

verus! {

/// Milliseconds since the Unix epoch, as the system clock reads it (0 when
/// the clock is set before the epoch). Nothing is stated of the result: it
/// rests on the machine's clock.
#[verifier::external_body]
pub(crate) fn unix_epoch_timestamp() -> u128 {
    std::time::SystemTime::now().duration_since(std::time::UNIX_EPOCH).map_or(0, |d| d.as_millis())
}

/// What a token may be used for.
#[derive(Clone, Copy, Debug, PartialEq, Eq, Structural)]
pub enum TokenPermission {
    /// Manage UGC (user-generated-content) uploaded by the user
    ManageAssets,
    /// Manage user metadata
    ManageProfile,
    /// Manage all user fields
    ManageAccount,
    /// Execute moderator actions
    Moderator,
    /// Generate tokens on behalf of the account
    ///
    /// Generated tokens cannot have any permissions the token used to generate it doesn't have
    GenerateTokens,
    /// Send mail to other users on behalf of the user
    SendMail,
}

/// Extra information about a login token.
#[derive(Debug)]
pub struct TokenContext {
    pub app: Option<String>,
    /// The permissions of the token; `None` grants everything.
    pub permissions: Option<Vec<TokenPermission>>,
    pub timestamp: u128,
}

/// Whether a token with `permissions` may do `p` (`None` allows all).
pub open spec fn token_allows(permissions: Option<Seq<TokenPermission>>, p: TokenPermission) -> bool {
    match permissions {
        Some(ps) => ps.contains(p),
        None => true,
    }
}

/// The view of an optional permission list.
pub open spec fn permissions_view(p: Option<Vec<TokenPermission>>) -> Option<Seq<TokenPermission>> {
    match p {
        Some(v) => Some(v@),
        None => None,
    }
}

/// Whether `p` occurs in `ps`.
pub fn permission_in(ps: &Vec<TokenPermission>, p: TokenPermission) -> (r: bool)
    ensures
        r == ps@.contains(p),
{
    let mut i: usize = 0;
    while i < ps.len()
        invariant
            i <= ps.len(),
            forall|j: int| 0 <= j < i ==> ps@[j] != p,
        decreases ps.len() - i,
    {
        if ps[i] == p {
            assert(ps@[i as int] == p);
            return true;
        }
        i = i + 1;
    }
    false
}

/// The view of an optional string.
pub open spec fn opt_str_view(s: Option<String>) -> Option<Seq<char>> {
    match s {
        Some(v) => Some(v@),
        None => None,
    }
}

impl View for TokenContext {
    type V = (Option<Seq<char>>, Option<Seq<TokenPermission>>, u128);

    open spec fn view(&self) -> (Option<Seq<char>>, Option<Seq<TokenPermission>>, u128) {
        (opt_str_view(self.app), permissions_view(self.permissions), self.timestamp)
    }
}

impl TokenContext {
    /// A context with no app and no permission limits, created at `timestamp`.
    pub fn new_at(timestamp: u128) -> (r: TokenContext)
        ensures
            r.app is None,
            r.permissions is None,
            r.timestamp == timestamp,
    {
        TokenContext { app: None, permissions: None, timestamp }
    }

    /// Get the value of the token's `app` field.
    ///
    /// Returns an empty string if the field value is `None`.
    pub fn app_name(&self) -> (r: String)
        ensures
            r@ == match self.app {
                Some(name) => name@,
                None => Seq::<char>::empty(),
            },
    {
        if let Some(ref name) = self.app {
            return name.clone();
        }
        String::new()
    }

    /// Check if the token has the given [`TokenPermission`].
    ///
    /// Returns `true` if the field value is `None`.
    pub fn can_do(&self, permission: TokenPermission) -> (r: bool)
        ensures
            r == token_allows(permissions_view(self.permissions), permission),
    {
        if let Some(ref permissions) = self.permissions {
            return permission_in(permissions, permission);
        }
        true
    }

    /// A copy of this context.
    pub fn duplicate(&self) -> (r: TokenContext)
        ensures
            r@ == self@,
    {
        TokenContext {
            app: match &self.app {
                Some(a) => Some(a.clone()),
                None => None,
            },
            permissions: match &self.permissions {
                Some(p) => {
                    let mut c: Vec<TokenPermission> = Vec::new();
                    let mut i: usize = 0;
                    while i < p.len()
                        invariant
                            i <= p.len(),
                            c@ == p@.subrange(0, i as int),
                        decreases p.len() - i,
                    {
                        c.push(p[i]);
                        i = i + 1;
                        assert(c@ =~= p@.subrange(0, i as int));
                    }
                    assert(c@ =~= p@);
                    Some(c)
                },
                None => None,
            },
            timestamp: self.timestamp,
        }
    }
}

impl Default for TokenContext {
    fn default() -> (r: TokenContext)
        ensures
            r.app is None,
            r.permissions is None,
    {
        TokenContext::new_at(unix_epoch_timestamp())
    }
}

/// Extra user information.
#[derive(Debug)]
pub struct ProfileMetadata {
    pub email: String,
    pub policy_consent: bool,
    /// Extra key-value pairs
    pub kv: StringMap,
}

/// Whether `kv` holds a non-empty value under `k`.
pub open spec fn kv_exists(kv: Map<Seq<char>, Seq<char>>, k: Seq<char>) -> bool {
    kv.dom().contains(k) && kv[k].len() > 0
}

/// What `soft_get` gives for `k`: the value where one exists, else the
/// empty string.
pub open spec fn soft_value(kv: Map<Seq<char>, Seq<char>>, k: Seq<char>) -> Seq<char> {
    if kv_exists(kv, k) { kv[k] } else { Seq::empty() }
}

/// Whether the value under `k` is "true".
pub open spec fn true_value(kv: Map<Seq<char>, Seq<char>>, k: Seq<char>) -> bool {
    kv_exists(kv, k) && kv[k] == "true"@
}

/// The key whose value may be twice as long as the others.
pub open spec fn custom_css_key() -> Seq<char> {
    "sparkler:custom_css"@
}

/// The longest value (in bytes) that metadata key `k` may hold: 8192 for
/// the custom CSS key, 4096 for every other key.
pub open spec fn value_limit(k: Seq<char>) -> nat {
    if k == custom_css_key() { 8192 } else { 4096 }
}

/// Whether every value of `m` is within its key's limit.
pub open spec fn kv_lengths_ok(m: Map<Seq<char>, Seq<char>>) -> bool {
    forall|k: Seq<char>| #[trigger] m.dom().contains(k) ==> utf8_len(m[k]) <= value_limit(k)
}

impl ProfileMetadata {
    /// Metadata holding the given email, with policy consent and no extra
    /// key-value pairs.
    pub fn from_email(email: String) -> (r: ProfileMetadata)
        ensures
            r.email == email,
            r.policy_consent,
            r.kv@ == Map::<Seq<char>, Seq<char>>::empty(),
    {
        ProfileMetadata { email, policy_consent: true, kv: StringMap::new() }
    }

    /// Check if a value exists in `kv` (and isn't empty).
    pub fn key_exists(&self, key: &str) -> (r: bool)
        ensures
            r == kv_exists(self.kv@, key@),
    {
        if let Some(value) = self.kv.get(key) {
            if value.as_str().is_empty() {
                return false;
            }
            return true;
        }
        false
    }

    /// Check if a value in `kv` is "true".
    pub fn is_true(&self, key: &str) -> (r: bool)
        ensures
            r == true_value(self.kv@, key@),
    {
        if !self.key_exists(key) {
            return false;
        }
        let v = self.kv.get(key).unwrap();
        let vc = chars_of(v.as_str());
        let t = chars_of("true");
        chars_eq(vc.as_slice(), t.as_slice())
    }

    /// Get a value from `kv`, returns an empty string if it doesn't exist.
    pub fn soft_get(&self, key: &str) -> (r: String)
        ensures
            r@ == soft_value(self.kv@, key@),
    {
        if !self.key_exists(key) {
            return String::new();
        }
        self.kv.get(key).unwrap().clone()
    }

    /// Check `kv` lengths.
    ///
    /// # Returns
    /// * `true`: ok
    /// * `false`: invalid
    pub fn check(&self) -> (r: bool)
        ensures
            r == kv_lengths_ok(self.kv@),
    {
        let entries = self.kv.entries();
        let ghost p = self.kv.pairs();
        let css = chars_of("sparkler:custom_css");
        let mut i: usize = 0;
        while i < entries.len()
            invariant
                css@ == custom_css_key(),
                crate::kv::pairs_view(entries@) == p,
                p == self.kv.pairs(),
                crate::kv::keys_distinct(p),
                self.kv@ == crate::kv::entries_map(p),
                i <= entries.len(),
                forall|j: int| 0 <= j < i ==> utf8_len(#[trigger] p[j].1) <= value_limit(p[j].0),
            decreases entries.len() - i,
        {
            proof {
                crate::kv::lemma_entry_in_map(p, i as int);
            }
            assert(p[i as int].0 == entries@[i as int].0@ && p[i as int].1 == entries@[i as int].1@);
            let kc = chars_of(entries[i].0.as_str());
            let len = crate::text::byte_len(entries[i].1.as_str());
            assert(len == utf8_len(p[i as int].1));
            let limit: usize = if chars_eq(kc.as_slice(), css.as_slice()) { 8192 } else { 4096 };
            if len > limit {
                assert(!kv_lengths_ok(self.kv@)) by {
                    assert(self.kv@.dom().contains(p[i as int].0));
                }
                return false;
            }
            i = i + 1;
        }
        assert forall|k: Seq<char>| #[trigger] self.kv@.dom().contains(k) implies
            utf8_len(self.kv@[k]) <= value_limit(k) by {
            crate::kv::lemma_map_key_entry(p, k);
            let j = choose|j: int| 0 <= j < p.len() && p[j].0 == k && self.kv@[k] == p[j].1;
            assert(utf8_len(p[j].1) <= value_limit(p[j].0));
        }
        true
    }
}

impl Default for ProfileMetadata {
    fn default() -> (r: ProfileMetadata)
        ensures
            r.email@.len() == 0,
            r.policy_consent,
            r.kv@ == Map::<Seq<char>, Seq<char>>::empty(),
    {
        ProfileMetadata { email: String::new(), policy_consent: true, kv: StringMap::new() }
    }
}

/// Basic user structure
#[derive(Debug)]
pub struct Profile {
    /// User ID
    pub id: String,
    /// User name
    pub username: String,
    /// Hashed user password
    pub password: String,
    /// User password salt
    pub salt: String,
    /// User login tokens
    pub tokens: Vec<String>,
    /// User IPs (these line up with the tokens in `tokens`)
    pub ips: Vec<String>,
    /// Extra information about tokens (these line up with the tokens in `tokens`)
    pub token_context: Vec<TokenContext>,
    /// Extra user information
    pub metadata: ProfileMetadata,
    /// User badges: `(text, background, text color)`
    pub badges: Vec<(String, String, String)>,
    /// User group
    pub group: i32,
    /// User join timestamp
    pub joined: u128,
    /// User tier for paid benefits
    pub tier: i32,
    /// The labels applied to the user
    pub labels: Vec<String>,
    /// User coin balance
    pub coins: i32,
    /// User links
    pub links: StringMap,
    /// User layout
    pub layout: LayoutComponent,
}

/// Whether `p` is a blank profile named `username` with id `id`, joined at
/// `joined`: no secrets, tokens, badges, labels, links or coins, group and
/// tier 0, default metadata and an empty layout.
pub open spec fn is_blank_profile(p: Profile, id: Seq<char>, username: Seq<char>, joined: u128) -> bool {
    &&& p.id@ == id
    &&& p.username@ == username
    &&& p.password@.len() == 0
    &&& p.salt@.len() == 0
    &&& p.tokens@.len() == 0
    &&& p.ips@.len() == 0
    &&& p.token_context@.len() == 0
    &&& p.metadata.email@.len() == 0
    &&& p.metadata.policy_consent
    &&& p.metadata.kv@ == Map::<Seq<char>, Seq<char>>::empty()
    &&& p.badges@.len() == 0
    &&& p.group == 0
    &&& p.joined == joined
    &&& p.tier == 0
    &&& p.labels@.len() == 0
    &&& p.coins == 0
    &&& p.links@ == Map::<Seq<char>, Seq<char>>::empty()
    &&& p.layout.json@.len() == 0
    &&& p.layout.component == ComponentName::Empty
    &&& p.layout.options@ == Map::<Seq<char>, Seq<char>>::empty()
    &&& p.layout.children@.len() == 0
}

/// The characters of `s` before its first `c` (all of `s` if it has none).
pub open spec fn before_char(s: Seq<char>, c: char) -> Seq<char>
    decreases s.len(),
{
    if s.len() == 0 {
        s
    } else if s[0] == c {
        Seq::empty()
    } else {
        seq![s[0]] + before_char(s.subrange(1, s.len() as int), c)
    }
}

/// The characters of `s` after its first `c`, if it has one.
pub open spec fn after_char(s: Seq<char>, c: char) -> Option<Seq<char>>
    decreases s.len(),
{
    if s.len() == 0 {
        None
    } else if s[0] == c {
        Some(s.subrange(1, s.len() as int))
    } else {
        after_char(s.subrange(1, s.len() as int), c)
    }
}

/// Whether `input` names an anonymous user: `anonymous`, or `anonymous#`
/// followed by a tag.
pub open spec fn is_anonymous_name(input: Seq<char>) -> bool {
    input == "anonymous"@ || has_prefix(input, "anonymous#"@)
}

/// The tag of an anonymous name: the part between the first and second `#`,
/// or `unknown` where there is no `#`.
pub open spec fn anonymous_tag_of(input: Seq<char>) -> Seq<char> {
    match after_char(input, '#') {
        Some(rest) => before_char(rest, '#'),
        None => "unknown"@,
    }
}

pub(crate) proof fn lemma_no_char(s: Seq<char>, c: char)
    requires
        forall|i: int| 0 <= i < s.len() ==> s[i] != c,
    ensures
        before_char(s, c) == s,
        after_char(s, c) is None,
    decreases s.len(),
{
    if s.len() > 0 {
        lemma_no_char(s.subrange(1, s.len() as int), c);
        assert(s =~= seq![s[0]] + s.subrange(1, s.len() as int));
    }
}

pub(crate) proof fn lemma_split_at_first(a: Seq<char>, b: Seq<char>, c: char)
    requires
        forall|i: int| 0 <= i < a.len() ==> a[i] != c,
    ensures
        before_char(a + seq![c] + b, c) == a,
        after_char(a + seq![c] + b, c) == Some(b),
    decreases a.len(),
{
    let s = a + seq![c] + b;
    if a.len() == 0 {
        assert(s[0] == c);
        assert(s.subrange(1, s.len() as int) =~= b);
    } else {
        let t = a.subrange(1, a.len() as int);
        lemma_split_at_first(t, b, c);
        assert(s.subrange(1, s.len() as int) =~= t + seq![c] + b);
        assert(s[0] == a[0]);
        assert(a =~= seq![a[0]] + t);
    }
}

/// The anonymous name `anonymous#{tag}`, for a tag without `#`, carries
/// that tag and the username `anonymous`.
pub proof fn law_anonymous_tag(tag: Seq<char>)
    requires
        forall|i: int| 0 <= i < tag.len() ==> tag[i] != '#',
    ensures
        is_anonymous_name("anonymous"@ + seq!['#'] + tag),
        anonymous_tag_of("anonymous"@ + seq!['#'] + tag) == tag,
        before_char("anonymous"@ + seq!['#'] + tag, '#') == "anonymous"@,
{
    reveal_strlit("anonymous");
    reveal_strlit("anonymous#");
    let a = "anonymous"@;
    let s = a + seq!['#'] + tag;
    assert forall|i: int| 0 <= i < a.len() implies a[i] != '#' by {}
    lemma_split_at_first(a, tag, '#');
    lemma_no_char(tag, '#');
    assert(s.subrange(0, 10) =~= "anonymous#"@);
}

/// Splits `s` at its first `c`: the part before it, and the part after it
/// if there is a `c`.
pub(crate) fn split_once_char(s: &[char], c: char) -> (r: (Vec<char>, Option<Vec<char>>))
    ensures
        r.0@ == before_char(s@, c),
        match r.1 {
            Some(v) => after_char(s@, c) == Some(v@),
            None => after_char(s@, c) is None,
        },
{
    let mut head: Vec<char> = Vec::new();
    let mut i: usize = 0;
    assert(s@.subrange(0, s.len() as int) =~= s@);
    while i < s.len()
        invariant
            i <= s.len(),
            forall|j: int| 0 <= j < i ==> s@[j] != c,
            head@ == s@.subrange(0, i as int),
            before_char(s@, c) == head@ + before_char(s@.subrange(i as int, s.len() as int), c),
            after_char(s@, c) == after_char(s@.subrange(i as int, s.len() as int), c),
        decreases s.len() - i,
    {
        let ghost t = s@.subrange(i as int, s.len() as int);
        assert(t.subrange(1, t.len() as int) =~= s@.subrange(i + 1, s.len() as int));
        if s[i] == c {
            let tail = crate::text::slice_from(s, i + 1);
            assert(head@ + Seq::<char>::empty() =~= head@);
            return (head, Some(tail));
        }
        head.push(s[i]);
        i = i + 1;
        assert(head@ =~= s@.subrange(0, i as int));
        assert(before_char(s@, c) =~= head@ + before_char(s@.subrange(i as int, s.len() as int), c));
    }
    assert(s@.subrange(s.len() as int, s.len() as int) =~= Seq::<char>::empty());
    assert(head@ + Seq::<char>::empty() =~= head@);
    (head, None)
}

impl Profile {
    /// A blank profile with the given id and username, joined at `joined`.
    fn blank(id: String, username: String, joined: u128) -> (r: Profile)
        ensures
            is_blank_profile(r, id@, username@, joined),
    {
        Profile {
            id,
            username,
            password: String::new(),
            salt: String::new(),
            tokens: Vec::new(),
            ips: Vec::new(),
            token_context: Vec::new(),
            metadata: ProfileMetadata::default(),
            badges: Vec::new(),
            group: 0,
            joined,
            tier: 0,
            labels: Vec::new(),
            coins: 0,
            links: StringMap::new(),
            layout: LayoutComponent::default(),
        }
    }

    /// Global user profile
    pub fn global() -> (r: Profile)
        ensures
            is_blank_profile(r, "@"@, "@"@, 0),
    {
        Profile::blank("@".to_owned(), "@".to_owned(), 0)
    }

    /// System profile
    pub fn system() -> (r: Profile)
        ensures
            is_blank_profile(r, "0"@, "system"@, 0),
    {
        Profile::blank("0".to_owned(), "system".to_owned(), 0)
    }

    /// Anonymous user profile
    pub fn anonymous(tag: String) -> (r: Profile)
        ensures
            is_blank_profile(r, tag@, "anonymous"@, 0),
    {
        Profile::blank(tag, "anonymous".to_owned(), 0)
    }

    /// Get the tag of an anonymous ID
    ///
    /// # Returns
    /// `(is anonymous, tag, username, input)`
    pub fn anonymous_tag(input: &str) -> (r: (bool, String, String, String))
        ensures
            r.0 == is_anonymous_name(input@),
            r.0 ==> r.1@ == anonymous_tag_of(input@) && r.2@ == before_char(input@, '#'),
            !r.0 ==> r.1@.len() == 0 && r.2@.len() == 0,
            r.3@ == input@,
    {
        let iv = chars_of(input);
        let anon = chars_of("anonymous");
        let anon_hash = chars_of("anonymous#");
        if !chars_eq(iv.as_slice(), anon.as_slice()) && !starts_with(iv.as_slice(), anon_hash.as_slice()) {
            return (false, String::new(), String::new(), input.to_owned());
        }
        let (head, rest) = split_once_char(iv.as_slice(), '#');
        let tag = match rest {
            Some(rest) => {
                let (t, _) = split_once_char(rest.as_slice(), '#');
                string_of(t.as_slice())
            },
            None => "unknown".to_owned(),
        };
        (true, tag, string_of(head.as_slice()), input.to_owned())
    }

    /// Clean profile information: forget IPs, tokens, token contexts, salt,
    /// password and metadata.
    pub fn clean(&mut self)
        ensures
            final(self).ips@.len() == 0,
            final(self).tokens@.len() == 0,
            final(self).token_context@.len() == 0,
            final(self).salt@.len() == 0,
            final(self).password@.len() == 0,
            final(self).metadata.email@.len() == 0,
            final(self).metadata.policy_consent,
            final(self).metadata.kv@ == Map::<Seq<char>, Seq<char>>::empty(),
            final(self).id == old(self).id,
            final(self).username == old(self).username,
            final(self).badges == old(self).badges,
            final(self).group == old(self).group,
            final(self).joined == old(self).joined,
            final(self).tier == old(self).tier,
            final(self).labels == old(self).labels,
            final(self).coins == old(self).coins,
            final(self).links == old(self).links,
            final(self).layout == old(self).layout,
    {
        self.ips = Vec::new();
        self.tokens = Vec::new();
        self.token_context = Vec::new();
        self.salt = String::new();
        self.password = String::new();
        self.metadata = ProfileMetadata::default();
    }

    /// The context of the token whose hash is `hashed`: the context stored
    /// beside its first occurrence, or a default context created at `now`
    /// when the token is unknown or has no stored context.
    pub fn token_context_from_hashed(&self, hashed: &str, now: u128) -> (r: TokenContext)
        ensures
            r@ == match first_match(self.tokens@, hashed@) {
                Some(i) => if i < self.token_context@.len() {
                    self.token_context@[i]@
                } else {
                    (None, None, now)
                },
                None => (None, None, now),
            },
    {
        let hc = chars_of(hashed);
        let mut i: usize = 0;
        assert(self.tokens@.subrange(0, self.tokens@.len() as int) =~= self.tokens@);
        while i < self.tokens.len()
            invariant
                hc@ == hashed@,
                i <= self.tokens.len(),
                first_match(self.tokens@, hashed@) == match first_match(
                    self.tokens@.subrange(i as int, self.tokens@.len() as int), hashed@) {
                    Some(k) => Some(k + i),
                    None => None,
                },
            decreases self.tokens.len() - i,
        {
            let ghost t = self.tokens@.subrange(i as int, self.tokens@.len() as int);
            assert(t.subrange(1, t.len() as int) =~= self.tokens@.subrange(i + 1, self.tokens@.len() as int));
            let tc = chars_of(self.tokens[i].as_str());
            if chars_eq(tc.as_slice(), hc.as_slice()) {
                if i < self.token_context.len() {
                    return self.token_context[i].duplicate();
                }
                return TokenContext::new_at(now);
            }
            i = i + 1;
        }
        TokenContext::new_at(now)
    }
}

/// The position of the first string of `s` that reads `h`.
pub open spec fn first_match(s: Seq<String>, h: Seq<char>) -> Option<int>
    decreases s.len(),
{
    if s.len() == 0 {
        None
    } else if s[0]@ == h {
        Some(0)
    } else {
        match first_match(s.subrange(1, s.len() as int), h) {
            Some(k) => Some(k + 1),
            None => None,
        }
    }
}

impl Default for Profile {
    fn default() -> (r: Profile)
        ensures
            is_blank_profile(r, Seq::<char>::empty(), Seq::<char>::empty(), r.joined),
    {
        Profile::blank(String::new(), String::new(), unix_epoch_timestamp())
    }
}

/// Basic follow structure
#[derive(Debug)]
pub struct UserFollow {
    /// The ID of the user following
    pub user: String,
    /// The ID of the user they are following
    pub following: String,
}

/// Basic notification structure
#[derive(Debug)]
pub struct Notification {
    pub title: String,
    pub content: String,
    /// Where the notification leads
    pub address: String,
    pub timestamp: u128,
    pub id: String,
    pub recipient: String,
}

/// Basic warning structure
#[derive(Debug)]
pub struct Warning {
    pub id: String,
    pub content: String,
    pub timestamp: u128,
    pub recipient: String,
    /// The moderator who warned the recipient
    pub moderator: Box<Profile>,
}

/// Basic IP ban
#[derive(Debug)]
pub struct IpBan {
    pub id: String,
    pub ip: String,
    pub reason: String,
    /// The user that banned this IP
    pub moderator: Box<Profile>,
    pub timestamp: u128,
}

/// The state of a user's relationship with another user
#[derive(Clone, Copy, Debug, PartialEq, Eq, Structural)]
pub enum RelationshipStatus {
    /// No relationship
    Unknown,
    /// User two is blocked from interacting with user one
    Blocked,
    /// User two is pending a friend request from user one
    Pending,
    /// User two is friends with user one
    Friends,
}

impl Default for RelationshipStatus {
    fn default() -> (r: RelationshipStatus)
        ensures
            r == RelationshipStatus::Unknown,
    {
        RelationshipStatus::Unknown
    }
}

/// A user's relationship with another user
///
/// If a relationship already exists, user two cannot attempt to create a
/// relationship with user one. The existing relation should be used.
#[derive(Debug)]
pub struct Relationship {
    pub one: Profile,
    pub two: Profile,
    pub status: RelationshipStatus,
    pub timestamp: u128,
}

/// An IP-based block
#[derive(Debug)]
pub struct IpBlock {
    pub id: String,
    pub ip: String,
    /// The user that blocked this IP
    pub user: String,
    /// The context of this block (question content, etc.)
    pub context: String,
    pub timestamp: u128,
}

/// Basic permission group
#[derive(Debug)]
pub struct Group {
    pub name: String,
    pub id: i32,
    pub permissions: FinePermission,
}

impl Default for Group {
    fn default() -> (r: Group)
        ensures
            r.name@ == "default"@,
            r.id == 0,
            r.permissions.bits == DEFAULT,
    {
        Group { name: "default".to_owned(), id: 0, permissions: FinePermission::default() }
    }
}

/// Mail state
#[derive(Clone, Copy, Debug, PartialEq, Eq, Structural)]
pub enum MailState {
    /// The mail has been sent, but has never been opened by the recipient
    Unread,
    /// The mail has been opened by the recipient at least once
    Read,
}

/// Basic mail structure
#[derive(Debug)]
pub struct Mail {
    pub title: String,
    pub content: String,
    pub timestamp: u128,
    pub id: String,
    pub state: MailState,
    pub author: String,
    /// The recipient(s) of the mail
    pub recipient: Vec<String>,
}

/// A label which describes a user
#[derive(Debug)]
pub struct UserLabel {
    /// The ID of the label (unique)
    pub id: String,
    pub name: String,
    pub timestamp: u128,
    /// The ID creator of the label
    pub creator: String,
}

/// A coin transaction between two users
#[derive(Debug)]
pub struct Transaction {
    pub id: String,
    pub amount: i32,
    /// The ID of the item purchased
    pub item: String,
    pub timestamp: u128,
    /// The ID of the customer (who bought the item)
    pub customer: String,
    /// The ID of the merchant (who sold the item)
    pub merchant: String,
}

/// A marketplace item type
#[derive(Clone, Copy, Debug, PartialEq, Eq, Structural)]
pub enum ItemType {
    Text,
    UserTheme,
}

impl Default for ItemType {
    fn default() -> (r: ItemType)
        ensures
            r == ItemType::Text,
    {
        ItemType::Text
    }
}

impl ItemType {
    /// The name of this item type.
    pub fn to_string(&self) -> (r: String)
        ensures
            r@ == match self {
                ItemType::Text => "Text"@,
                ItemType::UserTheme => "UserTheme"@,
            },
    {
        match self {
            ItemType::Text => "Text".to_owned(),
            ItemType::UserTheme => "UserTheme".to_owned(),
        }
    }
}

/// A marketplace item status
#[derive(Clone, Copy, Debug, PartialEq, Eq, Structural)]
pub enum ItemStatus {
    /// A site moderator looked at the item and rejected it
    Rejected,
    /// The item has not been approved by a site moderator
    Pending,
    /// The item has been approved by a site moderator
    Approved,
    /// The item has been featured by a site moderator
    Featured,
}

impl Default for ItemStatus {
    fn default() -> (r: ItemStatus)
        ensures
            r == ItemStatus::Approved,
    {
        ItemStatus::Approved
    }
}

/// The name of an item status.
pub open spec fn item_status_name(s: ItemStatus) -> Seq<char> {
    match s {
        ItemStatus::Rejected => "Rejected"@,
        ItemStatus::Pending => "Pending"@,
        ItemStatus::Approved => "Approved"@,
        ItemStatus::Featured => "Featured"@,
    }
}

impl ItemStatus {
    /// The name of this status.
    pub fn to_string(&self) -> (r: String)
        ensures
            r@ == item_status_name(*self),
    {
        match self {
            ItemStatus::Rejected => "Rejected".to_owned(),
            ItemStatus::Pending => "Pending".to_owned(),
            ItemStatus::Approved => "Approved".to_owned(),
            ItemStatus::Featured => "Featured".to_owned(),
        }
    }
}

/// A marketplace item (for [`Transaction`]s)
#[derive(Debug)]
pub struct Item {
    pub id: String,
    pub name: String,
    pub description: String,
    /// The number of user coins this item costs (0: free, -1: off-sale)
    pub cost: i32,
    pub content: String,
    pub item_type: ItemType,
    pub status: ItemStatus,
    pub timestamp: u128,
    /// The ID of the item creator
    pub creator: String,
}

/// Request to create a profile.
#[derive(Debug)]
pub struct ProfileCreate {
    pub username: String,
    pub password: String,
    pub policy_consent: bool,
    /// Captcha response token
    pub token: String,
}

/// Request to log in.
#[derive(Debug)]
pub struct ProfileLogin {
    pub username: String,
    pub password: String,
    /// Captcha response token
    pub token: String,
}

#[derive(Debug)]
pub struct SetProfileMetadata {
    pub metadata: ProfileMetadata,
}

#[derive(Debug)]
pub struct SetProfileBadges {
    pub badges: Vec<(String, String, String)>,
}

#[derive(Debug)]
pub struct SetProfileLabels {
    pub labels: Vec<String>,
}

#[derive(Debug)]
pub struct SetProfileLinks {
    pub links: StringMap,
}

#[derive(Debug)]
pub struct SetProfileLayout {
    pub layout: LayoutComponent,
}

#[derive(Debug)]
pub struct RenderLayout {
    pub layout: LayoutComponent,
}

#[derive(Debug)]
pub struct SetProfileGroup {
    pub group: i32,
}

#[derive(Debug)]
pub struct SetProfileTier {
    pub tier: i32,
}

#[derive(Debug)]
pub struct SetProfileCoins {
    pub coins: i32,
}

#[derive(Debug)]
pub struct SetProfilePassword {
    pub password: String,
    pub new_password: String,
}

#[derive(Debug)]
pub struct SetProfileUsername {
    pub password: String,
    pub new_name: String,
}

#[derive(Debug)]
pub struct NotificationCreate {
    pub title: String,
    pub content: String,
    pub address: String,
    pub recipient: String,
}

#[derive(Debug)]
pub struct WarningCreate {
    pub content: String,
    pub recipient: String,
}

#[derive(Debug)]
pub struct IpBanCreate {
    pub ip: String,
    pub reason: String,
}

#[derive(Debug)]
pub struct IpBlockCreate {
    pub ip: String,
    pub context: String,
}

#[derive(Debug)]
pub struct MailCreate {
    pub title: String,
    pub content: String,
    pub recipient: Vec<String>,
}

#[derive(Debug)]
pub struct SetMailState {
    pub state: MailState,
}

#[derive(Debug)]
pub struct TransactionCreate {
    pub merchant: String,
    pub item: String,
    pub amount: i32,
}

#[derive(Debug)]
pub struct ItemCreate {
    pub name: String,
    pub description: String,
    pub content: String,
    pub cost: i32,
    pub item_type: ItemType,
}

#[derive(Debug)]
pub struct ItemEdit {
    pub name: String,
    pub description: String,
    pub cost: i32,
}

#[derive(Debug)]
pub struct ItemEditContent {
    pub content: String,
}

#[derive(Debug)]
pub struct SetItemStatus {
    pub status: ItemStatus,
}

/// General API errors
#[derive(Clone, Copy, Debug, PartialEq, Eq, Structural)]
pub enum DatabaseError {
    TooExpensive,
    MustBeUnique,
    OutOfScope,
    NotAllowed,
    ValueError,
    NotFound,
    TooLong,
    Other,
}

/// The message shown for an error.
pub open spec fn error_message(e: DatabaseError) -> Seq<char> {
    match e {
        DatabaseError::TooExpensive => "You cannot afford to do this. (TooExpensive)"@,
        DatabaseError::MustBeUnique => "One of the given values must be unique. (MustBeUnique)"@,
        DatabaseError::OutOfScope =>
            "Cannot generate tokens with permissions the provided token doesn't have. (OutOfScope)"@,
        DatabaseError::NotAllowed => "You are not allowed to access this resource. (NotAllowed)"@,
        DatabaseError::ValueError => "One of the field values given is invalid. (ValueError)"@,
        DatabaseError::NotFound => "No asset with this ID could be found. (NotFound)"@,
        DatabaseError::TooLong => "Given data is too long. (TooLong)"@,
        DatabaseError::Other => "An unspecified error has occured"@,
    }
}

/// The HTTP status that an error is answered with.
pub open spec fn error_status(e: DatabaseError) -> u16 {
    match e {
        DatabaseError::NotAllowed => 401,
        DatabaseError::NotFound => 404,
        _ => 500,
    }
}

impl DatabaseError {
    /// The message shown for this error.
    pub fn to_string(&self) -> (r: String)
        ensures
            r@ == error_message(*self),
    {
        match self {
            DatabaseError::TooExpensive => "You cannot afford to do this. (TooExpensive)".to_owned(),
            DatabaseError::MustBeUnique => "One of the given values must be unique. (MustBeUnique)".to_owned(),
            DatabaseError::OutOfScope =>
                "Cannot generate tokens with permissions the provided token doesn't have. (OutOfScope)".to_owned(),
            DatabaseError::NotAllowed => "You are not allowed to access this resource. (NotAllowed)".to_owned(),
            DatabaseError::ValueError => "One of the field values given is invalid. (ValueError)".to_owned(),
            DatabaseError::NotFound => "No asset with this ID could be found. (NotFound)".to_owned(),
            DatabaseError::TooLong => "Given data is too long. (TooLong)".to_owned(),
            DatabaseError::Other => "An unspecified error has occured".to_owned(),
        }
    }

    /// The HTTP status code that this error is answered with.
    pub fn status_code(&self) -> (r: u16)
        ensures
            r == error_status(*self),
    {
        match self {
            DatabaseError::NotAllowed => 401,
            DatabaseError::NotFound => 404,
            _ => 500,
        }
    }
}

/// A value exists exactly when `soft_get` gives a non-empty string, and
/// then `soft_get` gives that value; a value that is "true" exists.
pub proof fn law_metadata_lookups(kv: Map<Seq<char>, Seq<char>>, k: Seq<char>)
    ensures
        kv_exists(kv, k) <==> soft_value(kv, k).len() > 0,
        kv_exists(kv, k) ==> soft_value(kv, k) == kv[k],
        true_value(kv, k) ==> kv_exists(kv, k) && soft_value(kv, k) == "true"@,
{
}

} // verus!
