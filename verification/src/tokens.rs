//! Session tokens: generating tokens on behalf of an account and editing
//! the list of an account's tokens.
use vstd::prelude::*;
use crate::model::{
    permission_in, permissions_view, token_allows, DatabaseError, TokenContext, TokenPermission,
};
use crate::text::{chars_eq, chars_of, contains_string, strings_view};

verus! {

/// Request to delete the current profile.
#[derive(Debug)]
pub struct DeleteProfile {
    pub password: String,
}

/// Request to replace the current profile's tokens.
#[derive(Debug)]
pub struct UpdateTokens {
    pub tokens: Vec<String>,
}

/// Query of the sign-in callback.
#[derive(Debug)]
pub struct CallbackQueryProps {
    /// This uid will need to be sent to the client as a token
    pub uid: String,
}

/// Whether a token with permissions `requested` may be generated by a token
/// with permissions `existing`: a generating token without a list may
/// grant anything; otherwise a requested list must hold only permissions of
/// the existing list, and a token without a list (which may do everything)
/// only comes from a token that holds every permission.
pub open spec fn scope_ok(existing: Option<Seq<TokenPermission>>, requested: Option<Seq<TokenPermission>>) -> bool {
    match existing {
        Some(e) => match requested {
            Some(r) => within(e, r),
            None => holds_every_permission(e),
        },
        None => true,
    }
}

/// Whether `e` holds every token permission.
pub open spec fn holds_every_permission(e: Seq<TokenPermission>) -> bool {
    forall|p: TokenPermission| #[trigger] e.contains(p)
}

/// Whether every permission of `r` is in `e`.
pub open spec fn within(e: Seq<TokenPermission>, r: Seq<TokenPermission>) -> bool {
    forall|k: int| 0 <= k < r.len() ==> e.contains(#[trigger] r[k])
}

/// Checks that a token with permissions `requested` does not ask for any
/// permission the generating token (with permissions `existing`) lacks
/// (see [`scope_ok`]).
pub fn check_token_scope(
    existing: &Option<Vec<TokenPermission>>,
    requested: &Option<Vec<TokenPermission>>,
) -> (r: Result<(), DatabaseError>)
    ensures
        r is Ok <==> scope_ok(permissions_view(*existing), permissions_view(*requested)),
        r matches Err(e) ==> e == DatabaseError::OutOfScope,
{
    if requested.is_none() {
        if let Some(ex) = existing {
            let all = permission_in(ex, TokenPermission::ManageAssets) && permission_in(ex,
                TokenPermission::ManageProfile) && permission_in(ex, TokenPermission::ManageAccount)
                && permission_in(ex, TokenPermission::Moderator) && permission_in(ex,
                TokenPermission::GenerateTokens) && permission_in(ex, TokenPermission::SendMail);
            if !all {
                return Err(DatabaseError::OutOfScope);
            }
            assert forall|p: TokenPermission| #[trigger] ex@.contains(p) by {
                match p {
                    TokenPermission::ManageAssets => {},
                    TokenPermission::ManageProfile => {},
                    TokenPermission::ManageAccount => {},
                    TokenPermission::Moderator => {},
                    TokenPermission::GenerateTokens => {},
                    TokenPermission::SendMail => {},
                }
            }
        }
    }
    if let Some(perms) = requested {
        if let Some(ex) = existing {
            let mut i: usize = 0;
            while i < perms.len()
                invariant
                    permissions_view(*existing) == Some(ex@),
                    permissions_view(*requested) == Some(perms@),
                    i <= perms.len(),
                    forall|k: int| 0 <= k < i ==> ex@.contains(#[trigger] perms@[k]),
                decreases perms.len() - i,
            {
                if !permission_in(ex, perms[i]) {
                    assert(!ex@.contains(perms@[i as int]));
                    assert(!scope_ok(Some(ex@), Some(perms@))) by {
                        let k = i as int;
                        assert(0 <= k < perms@.len());
                        assert(!ex@.contains(perms@[k]));
                    }
                    return Err(DatabaseError::OutOfScope);
                }
                i = i + 1;
            }
        }
    }
    Ok(())
}

/// The decision on a request to generate a token: refused (`NotAllowed`)
/// when the current token may not generate tokens or the requester's IP is
/// banned; refused (`OutOfScope`) when the new token asks for more than the
/// current one has; allowed otherwise.
pub fn check_generate_token(
    current: &TokenContext,
    ip_banned: bool,
    requested: &TokenContext,
) -> (r: Result<(), DatabaseError>)
    ensures
        !token_allows(permissions_view(current.permissions), TokenPermission::GenerateTokens)
            ==> r == Err::<(), DatabaseError>(DatabaseError::NotAllowed),
        token_allows(permissions_view(current.permissions), TokenPermission::GenerateTokens) && ip_banned
            ==> r == Err::<(), DatabaseError>(DatabaseError::NotAllowed),
        token_allows(permissions_view(current.permissions), TokenPermission::GenerateTokens) && !ip_banned
            ==> (r is Ok <==> scope_ok(permissions_view(current.permissions), permissions_view(requested.permissions)))
            && (r is Err ==> r == Err::<(), DatabaseError>(DatabaseError::OutOfScope)),
{
    if !current.can_do(TokenPermission::GenerateTokens) {
        return Err(DatabaseError::NotAllowed);
    }
    if ip_banned {
        return Err(DatabaseError::NotAllowed);
    }
    check_token_scope(&current.permissions, &requested.permissions)
}

/// A token generated within scope has no permission that the generating
/// token lacks, whether or not it was given a list.
pub proof fn law_generated_tokens_within_scope(
    existing: Option<Seq<TokenPermission>>,
    requested: Option<Seq<TokenPermission>>,
    p: TokenPermission,
)
    requires
        scope_ok(existing, requested),
        token_allows(requested, p),
    ensures
        token_allows(existing, p),
{
    if let Some(e) = existing {
        if let Some(r) = requested {
            let k = choose|k: int| 0 <= k < r.len() && r[k] == p;
            assert(e.contains(r[k]));
        } else {
            assert(e.contains(p));
        }
    }
}

/// The contexts after every token without one was given a default context
/// created at `now`.
pub open spec fn filled_contexts(
    contexts: Seq<(Option<Seq<char>>, Option<Seq<TokenPermission>>, u128)>,
    tokens_len: nat,
    now: u128,
) -> Seq<(Option<Seq<char>>, Option<Seq<TokenPermission>>, u128)> {
    if contexts.len() >= tokens_len {
        contexts
    } else {
        contexts + Seq::new((tokens_len - contexts.len()) as nat, |i: int| (None, None, now))
    }
}

/// After filling, every token has a context: the contexts that were there
/// stay, in order, and the list is at least as long as the token list.
pub proof fn law_every_token_gets_a_context(
    contexts: Seq<(Option<Seq<char>>, Option<Seq<TokenPermission>>, u128)>,
    tokens_len: nat,
    now: u128,
)
    ensures
        filled_contexts(contexts, tokens_len, now).len() >= tokens_len,
        filled_contexts(contexts, tokens_len, now).len() >= contexts.len(),
        filled_contexts(contexts, tokens_len, now).subrange(0, contexts.len() as int) == contexts,
{
    let f = filled_contexts(contexts, tokens_len, now);
    assert(f.subrange(0, contexts.len() as int) =~= contexts);
}

/// The views of a list of contexts.
pub open spec fn contexts_view(v: Seq<TokenContext>) -> Seq<(Option<Seq<char>>, Option<Seq<TokenPermission>>, u128)> {
    v.map_values(|c: TokenContext| c@)
}

/// For every token that doesn't have a context, insert a default context
/// created at `now`.
pub fn fill_token_contexts(tokens: &Vec<String>, contexts: &mut Vec<TokenContext>, now: u128)
    ensures
        contexts_view(final(contexts)@) == filled_contexts(contexts_view(old(contexts)@), tokens@.len(), now),
{
    let ghost start = contexts_view(contexts@);
    let mut i: usize = 0;
    while i < tokens.len()
        invariant
            i <= tokens.len(),
            start.len() >= i ==> contexts_view(contexts@) == start,
            start.len() < i ==> contexts_view(contexts@) == start + Seq::new((i - start.len()) as nat,
                |j: int| (None::<Seq<char>>, None::<Seq<TokenPermission>>, now)),
        decreases tokens.len() - i,
    {
        if i >= contexts.len() {
            let ghost before = contexts_view(contexts@);
            let ghost old_c = contexts@;
            let c = TokenContext::new_at(now);
            let ghost cv = c@;
            contexts.insert(i, c);
            assert(contexts@ =~= old_c.push(c));
            assert(contexts_view(contexts@) =~= before.push(cv));
            assert(contexts_view(contexts@) =~= start + Seq::new((i + 1 - start.len()) as nat,
                |j: int| (None::<Seq<char>>, None::<Seq<TokenPermission>>, now))) by {
                if start.len() >= i {
                    assert(before == start);
                }
            }
        }
        i = i + 1;
    }
    assert(contexts_view(contexts@) =~= filled_contexts(start, tokens@.len(), now));
}

/// The entries of `v` that line up with a kept token: entry `j` stays where
/// token `j` is in `kept`; entries of removed tokens, and entries past the
/// token list, go. The order is kept.
pub open spec fn kept_entries<A>(v: Seq<A>, tokens: Seq<Seq<char>>, kept: Seq<Seq<char>>) -> Seq<A>
    decreases v.len(),
{
    if v.len() == 0 {
        Seq::empty()
    } else {
        let rest = kept_entries(v.drop_last(), tokens, kept);
        let j = v.len() - 1;
        if j < tokens.len() && kept.contains(tokens[j]) {
            rest.push(v.last())
        } else {
            rest
        }
    }
}

/// Lists that line up with the tokens still line up with the kept tokens
/// after pruning: both keep one entry for each kept position.
pub proof fn law_pruned_lists_line_up<A, B>(v: Seq<A>, w: Seq<B>, tokens: Seq<Seq<char>>, kept: Seq<Seq<char>>)
    requires
        v.len() == w.len(),
    ensures
        kept_entries(v, tokens, kept).len() == kept_entries(w, tokens, kept).len(),
    decreases v.len(),
{
    if v.len() > 0 {
        law_pruned_lists_line_up(v.drop_last(), w.drop_last(), tokens, kept);
    }
}

/// Whether `idx` gives, in increasing order, a position in `tokens` of
/// each token of `kept`: `kept` is the subsequence of `tokens` at `idx`.
pub open spec fn kept_positions(tokens: Seq<Seq<char>>, kept: Seq<Seq<char>>, idx: Seq<int>) -> bool {
    &&& idx.len() == kept.len()
    &&& forall|j: int| 0 <= j < idx.len() ==> 0 <= #[trigger] idx[j] < tokens.len() && tokens[idx[j]] == kept[j]
    &&& forall|a: int, b: int| 0 <= a < b < idx.len() ==> idx[a] < idx[b]
}

proof fn lemma_kept_prefix<A>(v: Seq<A>, tokens: Seq<Seq<char>>, kept: Seq<Seq<char>>, idx: Seq<int>, n: int) -> (c: int)
    requires
        v.len() == tokens.len(),
        tokens.no_duplicates(),
        kept_positions(tokens, kept, idx),
        0 <= n <= v.len(),
    ensures
        0 <= c <= idx.len(),
        kept_entries(v.subrange(0, n), tokens, kept).len() == c,
        forall|j: int| 0 <= j < c ==> #[trigger] kept_entries(v.subrange(0, n), tokens, kept)[j] == v[idx[j]],
        c < idx.len() ==> idx[c] >= n,
        c > 0 ==> idx[c - 1] < n,
    decreases n,
{
    if n == 0 {
        assert(v.subrange(0, 0) =~= Seq::<A>::empty());
        0
    } else {
        let m = n - 1;
        let c0 = lemma_kept_prefix(v, tokens, kept, idx, m);
        let t = v.subrange(0, n);
        assert(t.drop_last() =~= v.subrange(0, m));
        assert(t.last() == v[m]);
        let rest = kept_entries(v.subrange(0, m), tokens, kept);
        if kept.contains(tokens[m]) {
            let j = choose|j: int| 0 <= j < kept.len() && kept[j] == tokens[m];
            assert(tokens[idx[j]] == tokens[m]);
            assert(idx[j] == m);
            if j < c0 {
                if j < c0 - 1 {
                    assert(idx[j] < idx[c0 - 1]);
                }
                assert(false);
            }
            if j > c0 {
                assert(idx[c0] < idx[j]);
                assert(false);
            }
            assert(kept_entries(t, tokens, kept) == rest.push(v[m]));
            if c0 + 1 < idx.len() {
                assert(idx[c0] < idx[c0 + 1]);
            }
            c0 + 1
        } else {
            if c0 < idx.len() && idx[c0] == m {
                assert(kept[c0] == tokens[m]);
                assert(kept.contains(tokens[m]));
            }
            assert(kept_entries(t, tokens, kept) == rest);
            c0
        }
    }
}

/// Pruning keeps the pairing: where the kept tokens are a subsequence of
/// tokens that occur once each (at the positions `idx`), and a list lines
/// up with the tokens, the pruned list holds one entry per kept token, and
/// its `j`-th entry is the one that stood beside kept token `j`. The tokens
/// themselves, pruned the same way, are the kept tokens.
pub proof fn law_pruned_entries_pair_with_kept_tokens<A>(
    v: Seq<A>,
    tokens: Seq<Seq<char>>,
    kept: Seq<Seq<char>>,
    idx: Seq<int>,
)
    requires
        v.len() == tokens.len(),
        tokens.no_duplicates(),
        kept_positions(tokens, kept, idx),
    ensures
        kept_entries(v, tokens, kept).len() == kept.len(),
        forall|j: int| 0 <= j < kept.len() ==> #[trigger] kept_entries(v, tokens, kept)[j] == v[idx[j]],
        kept_entries(tokens, tokens, kept) == kept,
{
    let c = lemma_kept_prefix(v, tokens, kept, idx, v.len() as int);
    assert(v.subrange(0, v.len() as int) =~= v);
    if c < idx.len() {
        assert(idx[c] < tokens.len());
    }
    let c2 = lemma_kept_prefix(tokens, tokens, kept, idx, tokens.len() as int);
    assert(tokens.subrange(0, tokens.len() as int) =~= tokens);
    if c2 < idx.len() {
        assert(idx[c2] < tokens.len());
    }
    assert(kept_entries(tokens, tokens, kept) =~= kept);
}

/// The addresses that line up with the kept tokens.
fn kept_ips(tokens: &Vec<String>, kept: &Vec<String>, ips: &Vec<String>) -> (r: Vec<String>)
    ensures
        r@ == kept_entries(ips@, strings_view(tokens@), strings_view(kept@)),
{
    let ghost tv = strings_view(tokens@);
    let ghost kv = strings_view(kept@);
    let mut out: Vec<String> = Vec::new();
    let mut i: usize = 0;
    assert(ips@.subrange(0, 0) =~= Seq::<String>::empty());
    while i < ips.len()
        invariant
            tv == strings_view(tokens@),
            kv == strings_view(kept@),
            i <= ips.len(),
            out@ == kept_entries(ips@.subrange(0, i as int), tv, kv),
        decreases ips.len() - i,
    {
        let ghost t = ips@.subrange(0, i + 1);
        assert(t.drop_last() =~= ips@.subrange(0, i as int));
        assert(t.last() == ips@[i as int]);
        if i < tokens.len() {
            assert(tv[i as int] == tokens@[i as int]@);
            if contains_string(kept, &tokens[i]) {
                out.push(ips[i].clone());
            }
        }
        i = i + 1;
    }
    assert(ips@.subrange(0, i as int) =~= ips@);
    out
}

/// The contexts that line up with the kept tokens.
fn kept_contexts(tokens: &Vec<String>, kept: &Vec<String>, contexts: &Vec<TokenContext>) -> (r: Vec<TokenContext>)
    ensures
        contexts_view(r@) == kept_entries(contexts_view(contexts@), strings_view(tokens@), strings_view(kept@)),
{
    let ghost tv = strings_view(tokens@);
    let ghost kv = strings_view(kept@);
    let ghost cv = contexts_view(contexts@);
    let mut out: Vec<TokenContext> = Vec::new();
    let mut i: usize = 0;
    assert(contexts_view(out@) =~= Seq::empty());
    assert(cv.subrange(0, 0) =~= Seq::empty());
    while i < contexts.len()
        invariant
            tv == strings_view(tokens@),
            kv == strings_view(kept@),
            cv == contexts_view(contexts@),
            i <= contexts.len(),
            contexts_view(out@) == kept_entries(cv.subrange(0, i as int), tv, kv),
        decreases contexts.len() - i,
    {
        let ghost t = cv.subrange(0, i + 1);
        assert(t.drop_last() =~= cv.subrange(0, i as int));
        assert(t.last() == contexts@[i as int]@);
        if i < tokens.len() {
            assert(tv[i as int] == tokens@[i as int]@);
            if contains_string(kept, &tokens[i]) {
                let ghost before = contexts_view(out@);
                let c = contexts[i].duplicate();
                out.push(c);
                assert(contexts_view(out@) =~= before.push(contexts@[i as int]@));
            }
        }
        i = i + 1;
    }
    assert(cv.subrange(0, i as int) =~= cv);
    out
}

/// Edits the lists that line up with an account's tokens when the tokens
/// are replaced by `kept`: the IPs and contexts keep exactly the entries
/// whose token is kept, in order.
pub fn prune_token_lists(
    tokens: &Vec<String>,
    kept: &Vec<String>,
    ips: &mut Vec<String>,
    contexts: &mut Vec<TokenContext>,
)
    ensures
        final(ips)@ == kept_entries(old(ips)@, strings_view(tokens@), strings_view(kept@)),
        contexts_view(final(contexts)@) == kept_entries(
            contexts_view(old(contexts)@),
            strings_view(tokens@),
            strings_view(kept@),
        ),
{
    let new_ips = kept_ips(tokens, kept, ips);
    let new_contexts = kept_contexts(tokens, kept, contexts);
    *ips = new_ips;
    *contexts = new_contexts;
}

} // verus!
