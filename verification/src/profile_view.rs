//! What the profile pages decide before they render: the flags a profile's
//! metadata sets, the relationship shown to the viewer, whether a blocked
//! viewer is turned away, who sees the social lists, and which pinned
//! responses are shown.
use vstd::prelude::*;
use crate::model::{opt_str_view, DatabaseError, ProfileMetadata, RelationshipStatus};
use crate::permissions::{is_helper, is_manager, FinePermission};
use crate::text::{chars_eq, chars_of, matches_at, string_of, strings_view};

verus! {

/// Whether `kv` holds exactly "true" under `k` (a missing key reads as
/// "false").
pub open spec fn flag_set(kv: Map<Seq<char>, Seq<char>>, k: Seq<char>) -> bool {
    kv.dom().contains(k) && kv[k] == "true"@
}

/// The value `kv` holds under `k`, or the empty string.
pub open spec fn value_or_empty(kv: Map<Seq<char>, Seq<char>>, k: Seq<char>) -> Seq<char> {
    if kv.dom().contains(k) { kv[k] } else { Seq::empty() }
}

/// The settings of a profile that its pages are rendered with.
#[derive(Debug)]
pub struct ProfilePageFlags {
    /// The profile's layout setting (empty: the default layout)
    pub layout: String,
    pub lock_profile: bool,
    pub disallow_anonymous: bool,
    pub require_account: bool,
    /// Whether the social lists are hidden from this viewer
    pub hide_social: bool,
}

/// Whether `kv` holds exactly "true" under `k`.
fn flag(kv: &crate::kv::StringMap, k: &str) -> (r: bool)
    ensures
        r == flag_set(kv@, k@),
{
    proof {
        reveal_strlit("true");
    }
    match kv.get(k) {
        Some(v) => {
            let vc = chars_of(v.as_str());
            let t = chars_of("true");
            chars_eq(vc.as_slice(), t.as_slice())
        },
        None => false,
    }
}

/// The settings that a profile's metadata gives its pages; the social
/// lists are hidden only from viewers other than the profile's own user.
pub fn profile_page_flags(metadata: &ProfileMetadata, is_self: bool) -> (r: ProfilePageFlags)
    ensures
        r.layout@ == value_or_empty(metadata.kv@, "sparkler:layout"@),
        r.lock_profile == flag_set(metadata.kv@, "sparkler:lock_profile"@),
        r.disallow_anonymous == flag_set(metadata.kv@, "sparkler:disallow_anonymous"@),
        r.require_account == flag_set(metadata.kv@, "sparkler:require_account"@),
        r.hide_social == (flag_set(metadata.kv@, "sparkler:private_social"@) && !is_self),
{
    let layout = match metadata.kv.get("sparkler:layout") {
        Some(v) => v.clone(),
        None => String::new(),
    };
    ProfilePageFlags {
        layout,
        lock_profile: flag(&metadata.kv, "sparkler:lock_profile"),
        disallow_anonymous: flag(&metadata.kv, "sparkler:disallow_anonymous"),
        require_account: flag(&metadata.kv, "sparkler:require_account"),
        hide_social: flag(&metadata.kv, "sparkler:private_social") && !is_self,
    }
}

/// The follower, following and friend lists of a profile that keeps its
/// social lists private are refused (`NotAllowed`) to everyone but its own
/// user.
pub fn check_social_visible(metadata: &ProfileMetadata, is_self: bool) -> (r: Result<(), DatabaseError>)
    ensures
        r is Err <==> (!is_self && flag_set(metadata.kv@, "sparkler:private_social"@)),
        r matches Err(e) ==> e == DatabaseError::NotAllowed,
{
    if !is_self && flag(&metadata.kv, "sparkler:private_social") {
        return Err(DatabaseError::NotAllowed);
    }
    Ok(())
}

/// The relationship a profile page shows: `Friends` where the viewer sees
/// everything (the profile's own user, and on some pages staff); else the
/// stored relationship between the profile and the signed-in viewer, and
/// `Unknown` where nobody is signed in (`stored` is `None`).
pub open spec fn shown_relationship(sees_all: bool, stored: Option<RelationshipStatus>) -> RelationshipStatus {
    if sees_all {
        RelationshipStatus::Friends
    } else {
        match stored {
            Some(s) => s,
            None => RelationshipStatus::Unknown,
        }
    }
}

/// The relationship a profile page shows its viewer.
pub fn viewer_relationship(sees_all: bool, stored: Option<RelationshipStatus>) -> (r: RelationshipStatus)
    ensures
        r == shown_relationship(sees_all, stored),
{
    if sees_all {
        return RelationshipStatus::Friends;
    }
    match stored {
        Some(s) => s,
        None => RelationshipStatus::Unknown,
    }
}

/// A profile page is answered `NotFound` where the profile blocks the
/// viewer, unless the viewer is staff.
pub fn check_not_blocked(relationship: RelationshipStatus, is_helper: bool) -> (r: Result<(), DatabaseError>)
    ensures
        r is Err <==> (relationship == RelationshipStatus::Blocked && !is_helper),
        r matches Err(e) ==> e == DatabaseError::NotFound,
{
    if !is_helper && relationship == RelationshipStatus::Blocked {
        return Err(DatabaseError::NotFound);
    }
    Ok(())
}

/// The moderation page of a profile in group `group`, seen by a viewer
/// whose group grants `viewer`: only helpers may see it, and a banned
/// profile (group -1) is shown in group -2.
pub fn moderation_group(viewer: FinePermission, group: i32) -> (r: Result<i32, DatabaseError>)
    ensures
        r is Err <==> !is_helper(viewer.bits),
        r matches Err(e) ==> e == DatabaseError::NotAllowed,
        r matches Ok(g) ==> g == (if group == -1 { -2 } else { group as int }),
{
    if !viewer.check_helper() {
        return Err(DatabaseError::NotAllowed);
    }
    if group == -1 { Ok(-2) } else { Ok(group) }
}

/// The inbox page of a profile is for managers only; anyone else is
/// refused (`NotAllowed`).
pub fn check_inbox_view(viewer: FinePermission) -> (r: Result<(), DatabaseError>)
    ensures
        r is Ok <==> is_manager(viewer.bits),
        r matches Err(e) ==> e == DatabaseError::NotAllowed,
{
    if viewer.check_manager() {
        Ok(())
    } else {
        Err(DatabaseError::NotAllowed)
    }
}

/// The outbox page of the profile `profile_id` is for managers and for the
/// profile's own user (`viewer_id`); anyone else is refused (`NotAllowed`).
pub fn check_outbox_view(viewer: FinePermission, viewer_id: &str, profile_id: &str) -> (r: Result<(), DatabaseError>)
    ensures
        r is Ok <==> (is_manager(viewer.bits) || viewer_id@ == profile_id@),
        r matches Err(e) ==> e == DatabaseError::NotAllowed,
{
    if viewer.check_manager() {
        return Ok(());
    }
    let v = chars_of(viewer_id);
    let p = chars_of(profile_id);
    if chars_eq(v.as_slice(), p.as_slice()) {
        Ok(())
    } else {
        Err(DatabaseError::NotAllowed)
    }
}

/// The relationship a feed shows beside a response by `author`, where
/// `stored` is the stored relationship between the author and the signed-in
/// `viewer`: `Friends` for staff and for the viewer's own responses, the
/// stored relationship otherwise, and `Unknown` where nobody is signed in.
pub open spec fn author_status(
    viewer: Option<Seq<char>>,
    helper: bool,
    author: Seq<char>,
    stored: RelationshipStatus,
) -> RelationshipStatus {
    match viewer {
        Some(v) => shown_relationship(helper || v == author, Some(stored)),
        None => shown_relationship(false, None),
    }
}

/// Whether `a` is a key of the entries `out`.
pub open spec fn has_author(out: Seq<(String, RelationshipStatus)>, a: Seq<char>) -> bool {
    exists|k: int| 0 <= k < out.len() && out[k].0@ == a
}

fn key_index(out: &Vec<(String, RelationshipStatus)>, a: &String) -> (r: Option<usize>)
    ensures
        r matches Some(k) ==> k < out.len() && out@[k as int].0@ == a@,
        r is None ==> forall|k: int| 0 <= k < out.len() ==> out@[k].0@ != a@,
{
    let av = chars_of(a.as_str());
    let mut k: usize = 0;
    while k < out.len()
        invariant
            av@ == a@,
            k <= out.len(),
            forall|j: int| 0 <= j < k ==> out@[j].0@ != a@,
        decreases out.len() - k,
    {
        let kv = chars_of(out[k].0.as_str());
        if chars_eq(kv.as_slice(), av.as_slice()) {
            return Some(k);
        }
        k = k + 1;
    }
    None
}

/// The relationship of each author of a feed (the partial and embedded
/// profile feeds) to the signed-in `viewer`, where `authors[i]` wrote the
/// `i`-th response and `stored[i]` is the stored relationship between that
/// author and the viewer. Each author is a key once, every key is an
/// author, and its value is [`author_status`] of the author's first
/// response.
pub fn author_relationships(
    viewer: &Option<String>,
    helper: bool,
    authors: &Vec<String>,
    stored: &Vec<RelationshipStatus>,
) -> (r: Vec<(String, RelationshipStatus)>)
    requires
        stored.len() == authors.len(),
    ensures
        forall|a: int, b: int| 0 <= a < b < r.len() ==> r@[a].0@ != r@[b].0@,
        forall|i: int| 0 <= i < authors.len() ==> #[trigger] has_author(r@, authors@[i]@),
        forall|k: int| #![trigger r@[k]] 0 <= k < r.len() ==> exists|i: int|
            0 <= i < authors.len() && #[trigger] authors@[i]@ == r@[k].0@
            && (forall|j: int| 0 <= j < i ==> authors@[j]@ != r@[k].0@)
            && r@[k].1 == author_status(opt_str_view(*viewer), helper, authors@[i]@, stored@[i]),
{
    let mut out: Vec<(String, RelationshipStatus)> = Vec::new();
    let mut i: usize = 0;
    while i < authors.len()
        invariant
            stored.len() == authors.len(),
            i <= authors.len(),
            forall|a: int, b: int| 0 <= a < b < out.len() ==> out@[a].0@ != out@[b].0@,
            forall|i2: int| 0 <= i2 < i ==> #[trigger] has_author(out@, authors@[i2]@),
            forall|k: int| #![trigger out@[k]] 0 <= k < out.len() ==> exists|i2: int|
                0 <= i2 < i && #[trigger] authors@[i2]@ == out@[k].0@
                && (forall|j: int| 0 <= j < i2 ==> authors@[j]@ != out@[k].0@)
                && out@[k].1 == author_status(opt_str_view(*viewer), helper, authors@[i2]@, stored@[i2]),
        decreases authors.len() - i,
    {
        let a = &authors[i];
        match key_index(&out, a) {
            Some(k) => {
                assert(out@[k as int].0@ == authors@[i as int]@);
                assert(has_author(out@, authors@[i as int]@));
            },
            None => {
                let status = match viewer {
                    Some(v) => {
                        let vc = chars_of(v.as_str());
                        let ac = chars_of(a.as_str());
                        let own = chars_eq(vc.as_slice(), ac.as_slice());
                        viewer_relationship(helper || own, Some(stored[i]))
                    },
                    None => viewer_relationship(false, None),
                };
                let ghost old_out = out@;
                assert forall|j: int| 0 <= j < i implies authors@[j]@ != authors@[i as int]@ by {
                    if authors@[j]@ == authors@[i as int]@ {
                        assert(has_author(old_out, authors@[j]@));
                        let k = choose|k: int| 0 <= k < old_out.len() && old_out[k].0@ == authors@[j]@;
                        assert(old_out[k].0@ == a@);
                    }
                }
                out.push((a.clone(), status));
                assert(out@[old_out.len() as int].0@ == authors@[i as int]@);
                assert forall|i2: int| 0 <= i2 <= i implies #[trigger] has_author(out@, authors@[i2]@) by {
                    if i2 < i {
                        assert(has_author(old_out, authors@[i2]@));
                        let k = choose|k: int| 0 <= k < old_out.len() && old_out[k].0@ == authors@[i2]@;
                        assert(out@[k] == old_out[k]);
                    } else {
                        assert(out@[old_out.len() as int].0@ == authors@[i2]@);
                    }
                }
                assert forall|k: int| #![trigger out@[k]] 0 <= k < out.len() implies exists|i2: int|
                    0 <= i2 < i + 1 && #[trigger] authors@[i2]@ == out@[k].0@
                    && (forall|j: int| 0 <= j < i2 ==> authors@[j]@ != out@[k].0@)
                    && out@[k].1 == author_status(opt_str_view(*viewer), helper, authors@[i2]@, stored@[i2]) by {
                    if k < old_out.len() {
                        assert(out@[k] == old_out[k]);
                    } else {
                        assert(authors@[i as int]@ == out@[k].0@);
                    }
                }
            },
        }
        i = i + 1;
    }
    assert(i == authors.len());
    assert forall|k: int| #![trigger out@[k]] 0 <= k < out.len() implies exists|i2: int|
        0 <= i2 < authors.len() && #[trigger] authors@[i2]@ == out@[k].0@
        && (forall|j: int| 0 <= j < i2 ==> authors@[j]@ != out@[k].0@)
        && out@[k].1 == author_status(opt_str_view(*viewer), helper, authors@[i2]@, stored@[i2]) by {
        let i2 = choose|i2: int| 0 <= i2 < i && #[trigger] authors@[i2]@ == out@[k].0@
            && (forall|j: int| 0 <= j < i2 ==> authors@[j]@ != out@[k].0@)
            && out@[k].1 == author_status(opt_str_view(*viewer), helper, authors@[i2]@, stored@[i2]);
        assert(authors@[i2]@ == out@[k].0@);
    }
    out
}

/// The pieces of `s` between the separators `c`, with `cur` put before the
/// first piece.
pub open spec fn split_acc(s: Seq<char>, c: char, cur: Seq<char>) -> Seq<Seq<char>>
    decreases s.len(),
{
    if s.len() == 0 {
        seq![cur]
    } else if s[0] == c {
        seq![cur] + split_acc(s.drop_first(), c, Seq::empty())
    } else {
        split_acc(s.drop_first(), c, cur.push(s[0]))
    }
}

/// The pieces of `s` between the separators `c`, as `str::split` yields
/// them: empty pieces included, and one piece where `c` does not occur.
pub open spec fn split_on(s: Seq<char>, c: char) -> Seq<Seq<char>> {
    split_acc(s, c, Seq::empty())
}

/// The pieces of `s` between the separators `c`.
pub fn split_char(s: &str, c: char) -> (r: Vec<String>)
    ensures
        strings_view(r@) == split_on(s@, c),
{
    let cs = chars_of(s);
    let mut pieces: Vec<String> = Vec::new();
    let mut cur: Vec<char> = Vec::new();
    let mut i: usize = 0;
    assert(cs@.subrange(0, cs@.len() as int) =~= cs@);
    assert(strings_view(pieces@) =~= Seq::<Seq<char>>::empty());
    while i < cs.len()
        invariant
            cs@ == s@,
            i <= cs.len(),
            strings_view(pieces@) + split_acc(cs@.subrange(i as int, cs@.len() as int), c, cur@)
                == split_on(s@, c),
        decreases cs.len() - i,
    {
        let ghost rest = cs@.subrange(i as int, cs@.len() as int);
        assert(rest.drop_first() =~= cs@.subrange(i + 1, cs@.len() as int));
        let ghost before = strings_view(pieces@);
        let ghost old_cur = cur@;
        if cs[i] == c {
            let piece = string_of(cur.as_slice());
            pieces.push(piece);
            assert(strings_view(pieces@) =~= before.push(old_cur));
            cur = Vec::new();
            assert(cur@ =~= Seq::<char>::empty());
            let ghost tail = split_acc(cs@.subrange(i + 1, cs@.len() as int), c, cur@);
            assert(before.push(old_cur) + tail =~= before + (seq![old_cur] + tail));
        } else {
            cur.push(cs[i]);
            assert(cur@ =~= old_cur.push(cs@[i as int]));
        }
        i = i + 1;
    }
    let ghost before = strings_view(pieces@);
    pieces.push(string_of(cur.as_slice()));
    assert(strings_view(pieces@) =~= before.push(cur@));
    pieces
}

/// Whether `t` occurs in `s`.
pub open spec fn contains_sub(s: Seq<char>, t: Seq<char>) -> bool {
    exists|i: int| 0 <= i && i + t.len() <= s.len() && #[trigger] s.subrange(i, i + t.len()) == t
}

/// Whether `t` occurs in `s`.
pub fn contains_str(s: &str, t: &str) -> (r: bool)
    ensures
        r == contains_sub(s@, t@),
{
    let sc = chars_of(s);
    let tc = chars_of(t);
    if tc.len() > sc.len() {
        return false;
    }
    let last = sc.len() - tc.len();
    let mut i: usize = 0;
    while i < last
        invariant
            sc@ == s@,
            tc@ == t@,
            last == sc.len() - tc.len(),
            tc.len() <= sc.len(),
            i <= last,
            forall|j: int| 0 <= j < i ==> #[trigger] s@.subrange(j, j + t@.len()) != t@,
        decreases last - i,
    {
        if matches_at(sc.as_slice(), i, tc.as_slice()) {
            return true;
        }
        i = i + 1;
    }
    matches_at(sc.as_slice(), last, tc.as_slice())
}

/// The ids a profile pins: the pieces between the commas of its
/// `sparkler:pinned` setting, or `None` where that is missing or empty.
pub fn pinned_ids(metadata: &ProfileMetadata) -> (r: Option<Vec<String>>)
    ensures
        r is None <==> !crate::model::kv_exists(metadata.kv@, "sparkler:pinned"@),
        r matches Some(v) ==> strings_view(v@) == split_on(metadata.kv@["sparkler:pinned"@], ','),
{
    match metadata.kv.get("sparkler:pinned") {
        Some(p) => {
            if p.as_str().is_empty() {
                return None;
            }
            Some(split_char(p.as_str(), ','))
        },
        None => None,
    }
}

/// Whether a pinned response is shown: only one written by the profile's
/// own user, whose id occurs in the pinned setting.
pub fn keeps_pinned(pinned: &str, profile_id: &str, author_id: &str, response_id: &str) -> (r: bool)
    ensures
        r == (author_id@ == profile_id@ && contains_sub(pinned@, response_id@)),
{
    let a = chars_of(author_id);
    let p = chars_of(profile_id);
    if !chars_eq(a.as_slice(), p.as_slice()) {
        return false;
    }
    contains_str(pinned, response_id)
}

} // verus!
