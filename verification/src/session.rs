//! Signing in and out: the checks of a sign-in, the session it adds to a
//! profile, the second factor, and the cookies the answers set.
use vstd::prelude::*;
use crate::model::{DatabaseError, Profile, TokenContext};
use crate::text::{contains_string, push_str, replace_all, replace_str, string_of, strings_view};

verus! {

/// The cookie that holds a session token for a year.
pub open spec fn session_cookie_text(token: Seq<char>) -> Seq<char> {
    "__Secure-Token="@ + token + "; SameSite=Lax; Secure; Path=/; HostOnly=true; HttpOnly=true; Max-Age=31536000"@
}

/// The `Set-Cookie` value that stores the session token `token`.
pub fn session_cookie(token: &str) -> (r: String)
    ensures
        r@ == session_cookie_text(token@),
{
    let mut out: Vec<char> = Vec::new();
    push_str(&mut out, "__Secure-Token=");
    push_str(&mut out, token);
    push_str(&mut out, "; SameSite=Lax; Secure; Path=/; HostOnly=true; HttpOnly=true; Max-Age=31536000");
    assert(out@ =~= session_cookie_text(token@));
    string_of(out.as_slice())
}

/// An answer that sets (or clears) a cookie: the header to send, its value
/// and the text of the answer.
#[derive(Debug)]
pub struct CookieAnswer {
    pub header: String,
    pub cookie: String,
    pub message: String,
}

/// The view of a cookie answer.
pub open spec fn answer_view(a: CookieAnswer) -> (Seq<char>, Seq<char>, Seq<char>) {
    (a.header@, a.cookie@, a.message@)
}

/// The answer to signing out: with a session, its cookie is expired; without
/// one, nothing is set and the sign-out is reported as failed.
pub open spec fn sign_out_answer(has_session: bool) -> (Seq<char>, Seq<char>, Seq<char>) {
    if has_session {
        (
            "Set-Cookie"@,
            "__Secure-Token=refresh; SameSite=Strict; Secure; Path=/; HostOnly=true; HttpOnly=true; Max-Age=0"@,
            "You have been signed out. You can now close this tab."@,
        )
    } else {
        ("Set-Cookie"@, Seq::empty(), "Failed to sign out of account."@)
    }
}

/// Sign out of the session the request carries, if any.
pub fn sign_out(has_session: bool) -> (r: CookieAnswer)
    ensures
        answer_view(r) == sign_out_answer(has_session),
{
    if has_session {
        return CookieAnswer {
            header: "Set-Cookie".to_owned(),
            cookie: "__Secure-Token=refresh; SameSite=Strict; Secure; Path=/; HostOnly=true; HttpOnly=true; Max-Age=0".to_owned(),
            message: "You have been signed out. You can now close this tab.".to_owned(),
        };
    }
    CookieAnswer {
        header: "Set-Cookie".to_owned(),
        cookie: String::new(),
        message: "Failed to sign out of account.".to_owned(),
    }
}

/// The answer to forgetting the anonymous question tag: only a signed-in
/// user may, and the expired tag cookie goes out under the `Set-Cookie2`
/// header.
pub open spec fn forget_tag_answer(has_session: bool) -> (Seq<char>, Seq<char>, Seq<char>) {
    if has_session {
        (
            "Set-Cookie2"@,
            "__Secure-Question-Tag=refresh; SameSite=Lax; Secure; Path=/; HostOnly=true; HttpOnly=true; Max-Age=0"@,
            "You have been signed out. You can now close this tab."@,
        )
    } else {
        ("Set-Cookie"@, Seq::empty(), "Failed to remove tag."@)
    }
}

/// Forget the anonymous question tag of a signed-in user.
pub fn forget_tag(has_session: bool) -> (r: CookieAnswer)
    ensures
        answer_view(r) == forget_tag_answer(has_session),
{
    if has_session {
        return CookieAnswer {
            header: "Set-Cookie2".to_owned(),
            cookie: "__Secure-Question-Tag=refresh; SameSite=Lax; Secure; Path=/; HostOnly=true; HttpOnly=true; Max-Age=0".to_owned(),
            message: "You have been signed out. You can now close this tab.".to_owned(),
        };
    }
    CookieAnswer {
        header: "Set-Cookie".to_owned(),
        cookie: String::new(),
        message: "Failed to remove tag.".to_owned(),
    }
}

/// The checks of a sign-in once the profile is found, in order: the
/// password must match, the address must not be banned, and the second
/// factor must be accepted; each failure is answered `NotAllowed`.
pub fn check_sign_in(password_ok: bool, ip_banned: bool, second_factor_ok: bool) -> (r: Result<(), DatabaseError>)
    ensures
        r is Ok <==> (password_ok && !ip_banned && second_factor_ok),
        r matches Err(e) ==> e == DatabaseError::NotAllowed,
{
    if !password_ok {
        return Err(DatabaseError::NotAllowed);
    }
    if ip_banned {
        return Err(DatabaseError::NotAllowed);
    }
    if !second_factor_ok {
        return Err(DatabaseError::NotAllowed);
    }
    Ok(())
}

/// Whether a profile's tokens, addresses and token contexts line up.
pub open spec fn sessions_aligned(p: Profile) -> bool {
    p.tokens@.len() == p.ips@.len() && p.ips@.len() == p.token_context@.len()
}

/// Add a session to a profile: its hashed token, the address it was opened
/// from and its context go at the end of the three lists, which stay lined
/// up; nothing else changes.
pub fn open_session(profile: &mut Profile, token_hashed: String, ip: String, context: TokenContext)
    ensures
        final(profile).tokens@ == old(profile).tokens@.push(token_hashed),
        final(profile).ips@ == old(profile).ips@.push(ip),
        final(profile).token_context@ == old(profile).token_context@.push(context),
        sessions_aligned(*old(profile)) ==> sessions_aligned(*final(profile)),
        final(profile).id == old(profile).id,
        final(profile).username == old(profile).username,
        final(profile).password == old(profile).password,
        final(profile).salt == old(profile).salt,
        final(profile).group == old(profile).group,
        final(profile).coins == old(profile).coins,
{
    profile.tokens.push(token_hashed);
    profile.ips.push(ip);
    profile.token_context.push(context);
}

/// Whether a second-factor code is accepted: always where the profile has
/// no second factor; else a non-empty code that is either the current code
/// (`current_code_ok`) or one of the recovery codes.
pub open spec fn second_factor_accepts(
    enabled: bool,
    code: Seq<char>,
    current_code_ok: bool,
    recovery_codes: Seq<Seq<char>>,
) -> bool {
    !enabled || (code.len() > 0 && (current_code_ok || recovery_codes.contains(code)))
}

/// Check a second-factor code.
pub fn check_second_factor(enabled: bool, code: &String, current_code_ok: bool, recovery_codes: &Vec<String>) -> (r:
    bool)
    ensures
        r == second_factor_accepts(enabled, code@, current_code_ok, strings_view(recovery_codes@)),
{
    if !enabled {
        return true;
    }
    if code.as_str().is_empty() {
        return false;
    }
    current_code_ok || contains_string(recovery_codes, code)
}

/// The issuer name of second-factor codes: the host without its scheme,
/// with `:` turned into `_`.
pub open spec fn issuer_of(host: Seq<char>) -> Seq<char> {
    replace_all(replace_all(replace_all(host, "http://"@, ""@), "https://"@, ""@), ":"@, "_"@)
}

/// The issuer name of second-factor codes for the site at `host`.
pub fn second_factor_issuer(host: &str) -> (r: String)
    ensures
        r@ == issuer_of(host@),
{
    proof {
        reveal_strlit("http://");
        reveal_strlit("https://");
        reveal_strlit(":");
    }
    let a = replace_str(host, "http://", "");
    let b = replace_str(a.as_str(), "https://", "");
    replace_str(b.as_str(), ":", "_")
}

} // verus!
