use rainbeam_core::access::{
    check_manager_edit, check_profile_edit, check_session_management, check_staff_edit, names_user,
};
use rainbeam_core::model::{DatabaseError, Profile, TokenContext, TokenPermission};
use rainbeam_core::permissions::{
    FinePermission, BAN_IP, DEFAULT, DELETE_USER, MANAGE_COMMENTS, MANAGE_QUESTIONS, MANAGE_RESPONSES,
    MANAGE_WARNINGS, UNBAN_IP, VIEW_AUDIT_LOG, VIEW_PROFILE_MANAGE, VIEW_REPORTS,
};
use rainbeam_core::session::{
    check_second_factor, check_sign_in, forget_tag, open_session, second_factor_issuer, session_cookie, sign_out,
};
use rainbeam_core::tokens::{
    check_generate_token, check_token_scope, fill_token_contexts, prune_token_lists,
};

fn user() -> FinePermission {
    FinePermission::from_bits_retain(DEFAULT)
}

fn helper() -> FinePermission {
    FinePermission::from_bits_retain(
        MANAGE_QUESTIONS | MANAGE_RESPONSES | MANAGE_COMMENTS | MANAGE_WARNINGS | VIEW_REPORTS | VIEW_AUDIT_LOG,
    )
}

fn manager() -> FinePermission {
    FinePermission::from_bits_retain(helper().bits() | DELETE_USER | BAN_IP | UNBAN_IP | VIEW_PROFILE_MANAGE)
}

fn strings(v: &[&str]) -> Vec<String> {
    v.iter().map(|s| s.to_string()).collect()
}

#[test]
fn who_may_manage_whom() {
    assert_eq!(check_manager_edit(manager(), user()), Ok(()));
    assert_eq!(check_manager_edit(manager(), helper()), Ok(()));
    assert_eq!(check_manager_edit(manager(), manager()), Err(DatabaseError::NotAllowed));
    assert_eq!(check_manager_edit(helper(), user()), Err(DatabaseError::NotAllowed));
    assert_eq!(check_session_management(true, manager(), user()), Err(DatabaseError::NotAllowed));
    assert_eq!(check_session_management(false, manager(), user()), Ok(()));
}

#[test]
fn profile_edits() {
    assert_eq!(check_profile_edit(true, user(), manager(), 0), Ok(false));
    assert_eq!(check_profile_edit(true, user(), user(), -1), Err(DatabaseError::NotAllowed));
    assert_eq!(check_profile_edit(false, user(), user(), 0), Err(DatabaseError::NotAllowed));
    assert_eq!(check_profile_edit(false, manager(), user(), 0), Ok(true));
    assert_eq!(check_profile_edit(false, manager(), manager(), 0), Err(DatabaseError::NotAllowed));
    assert!(names_user("id1", "bob", "bob"));
    assert!(names_user("id1", "bob", "id1"));
    assert!(!names_user("id1", "bob", "alice"));
}

#[test]
fn staff_marks() {
    assert_eq!(check_staff_edit(helper(), user()), Ok(()));
    assert_eq!(check_staff_edit(user(), user()), Err(DatabaseError::NotAllowed));
    assert_eq!(check_staff_edit(helper(), helper()), Err(DatabaseError::NotAllowed));
    assert_eq!(check_staff_edit(manager(), helper()), Ok(()));
}

#[test]
fn token_scopes() {
    let all: Option<Vec<TokenPermission>> = None;
    let some = Some(vec![TokenPermission::ManageAssets, TokenPermission::GenerateTokens]);
    assert_eq!(check_token_scope(&all, &Some(vec![TokenPermission::Moderator])), Ok(()));
    assert_eq!(check_token_scope(&some, &None), Err(DatabaseError::OutOfScope));
    let every = Some(vec![
        TokenPermission::ManageAssets,
        TokenPermission::ManageProfile,
        TokenPermission::ManageAccount,
        TokenPermission::Moderator,
        TokenPermission::GenerateTokens,
        TokenPermission::SendMail,
    ]);
    assert_eq!(check_token_scope(&every, &None), Ok(()));
    assert_eq!(check_token_scope(&some, &Some(vec![TokenPermission::ManageAssets])), Ok(()));
    assert_eq!(check_token_scope(&some, &Some(vec![TokenPermission::Moderator])), Err(DatabaseError::OutOfScope));
}

#[test]
fn generating_tokens() {
    let gen = TokenContext { app: None, permissions: Some(vec![TokenPermission::GenerateTokens]), timestamp: 0 };
    let no_gen = TokenContext { app: None, permissions: Some(vec![TokenPermission::SendMail]), timestamp: 0 };
    let wanted = TokenContext { app: None, permissions: Some(vec![TokenPermission::SendMail]), timestamp: 0 };
    assert_eq!(check_generate_token(&no_gen, false, &wanted), Err(DatabaseError::NotAllowed));
    assert_eq!(check_generate_token(&gen, true, &wanted), Err(DatabaseError::NotAllowed));
    assert_eq!(check_generate_token(&gen, false, &wanted), Err(DatabaseError::OutOfScope));
    let unlimited = TokenContext::new_at(0);
    assert_eq!(check_generate_token(&gen, false, &unlimited), Err(DatabaseError::OutOfScope));
    assert_eq!(check_generate_token(&TokenContext::new_at(0), false, &wanted), Ok(()));
}

#[test]
fn contexts_are_filled_for_every_token() {
    let tokens = strings(&["a", "b", "c"]);
    let mut contexts = vec![TokenContext::new_at(1)];
    fill_token_contexts(&tokens, &mut contexts, 9);
    assert_eq!(contexts.len(), 3);
    assert_eq!(contexts[0].timestamp, 1);
    assert_eq!(contexts[1].timestamp, 9);
    assert_eq!(contexts[2].timestamp, 9);
    let mut long = vec![TokenContext::new_at(1), TokenContext::new_at(2)];
    fill_token_contexts(&strings(&["a"]), &mut long, 9);
    assert_eq!(long.len(), 2);
}

#[test]
fn pruning_keeps_the_entries_of_kept_tokens() {
    let tokens = strings(&["t0", "t1", "t2", "t3"]);
    let kept = strings(&["t0", "t3"]);
    let mut ips = strings(&["i0", "i1", "i2", "i3"]);
    let mut contexts: Vec<TokenContext> = (0..4).map(|t| TokenContext::new_at(t)).collect();
    prune_token_lists(&tokens, &kept, &mut ips, &mut contexts);
    assert_eq!(ips, strings(&["i0", "i3"]));
    assert_eq!(contexts.iter().map(|c| c.timestamp).collect::<Vec<_>>(), vec![0, 3]);
}

#[test]
fn pruning_keeps_the_last_token_entry() {
    let tokens = strings(&["a", "b", "c"]);
    let kept = strings(&["c"]);
    let mut ips = strings(&["ia", "ib", "ic", "extra"]);
    let mut contexts = vec![TokenContext::new_at(0), TokenContext::new_at(1)];
    prune_token_lists(&tokens, &kept, &mut ips, &mut contexts);
    assert_eq!(ips, strings(&["ic"]));
    assert!(contexts.is_empty());
    let mut none: Vec<String> = Vec::new();
    let mut no_contexts: Vec<TokenContext> = Vec::new();
    prune_token_lists(&tokens, &Vec::new(), &mut none, &mut no_contexts);
    assert!(none.is_empty());
}

#[test]
fn cookies() {
    assert_eq!(
        session_cookie("abc"),
        "__Secure-Token=abc; SameSite=Lax; Secure; Path=/; HostOnly=true; HttpOnly=true; Max-Age=31536000"
    );
    let out = sign_out(true);
    assert_eq!(out.header, "Set-Cookie");
    assert_eq!(
        out.cookie,
        "__Secure-Token=refresh; SameSite=Strict; Secure; Path=/; HostOnly=true; HttpOnly=true; Max-Age=0"
    );
    assert_eq!(out.message, "You have been signed out. You can now close this tab.");
    let failed = sign_out(false);
    assert_eq!(failed.cookie, "");
    assert_eq!(failed.message, "Failed to sign out of account.");
    let tag = forget_tag(true);
    assert_eq!(tag.header, "Set-Cookie2");
    assert!(tag.cookie.starts_with("__Secure-Question-Tag=refresh;"));
    assert_eq!(forget_tag(false).message, "Failed to remove tag.");
}

#[test]
fn signing_in() {
    assert_eq!(check_sign_in(true, false, true), Ok(()));
    assert_eq!(check_sign_in(false, false, true), Err(DatabaseError::NotAllowed));
    assert_eq!(check_sign_in(true, true, true), Err(DatabaseError::NotAllowed));
    assert_eq!(check_sign_in(true, false, false), Err(DatabaseError::NotAllowed));
    let codes = strings(&["r1", "r2"]);
    assert!(check_second_factor(false, &String::new(), false, &codes));
    assert!(!check_second_factor(true, &String::new(), true, &codes));
    assert!(check_second_factor(true, &"123456".to_string(), true, &codes));
    assert!(check_second_factor(true, &"r2".to_string(), false, &codes));
    assert!(!check_second_factor(true, &"r3".to_string(), false, &codes));
    assert_eq!(second_factor_issuer("https://rainbeam.example:8080"), "rainbeam.example_8080");
    assert_eq!(second_factor_issuer("http://localhost"), "localhost");
}

#[test]
fn sessions_stay_lined_up() {
    let mut p = Profile::system();
    open_session(&mut p, "hash".to_string(), "1.2.3.4".to_string(), TokenContext::new_at(5));
    open_session(&mut p, "hash2".to_string(), String::new(), TokenContext::new_at(6));
    assert_eq!(p.tokens, strings(&["hash", "hash2"]));
    assert_eq!(p.ips, strings(&["1.2.3.4", ""]));
    assert_eq!(p.token_context.len(), 2);
    assert_eq!(p.token_context[1].timestamp, 6);
    assert_eq!(p.username, "system");
}
