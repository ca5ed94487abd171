use pick_play::flows::{
    add_user_outcome, check_robot, check_username, consume_signup_token, database_rejection,
    finish_check_form, finish_check_login, finish_check_user_created, finish_page_lookup,
    legacy_check_credentials, legacy_check_linked, legacy_check_login, login_destination,
    logout_outcome, oauth_failure, redirect_next, referer_destination, oauth_known_user_login, require_signup_cookie,
    require_signup_token, require_user, signup_account_name, signup_after_login,
    signup_check_created, signup_check_form, signup_check_user_free, visitor_only, OauthStage,
    Rejection,
};
use pick_play::forms::{FinishSignupForm, SignUpForm};
use pick_play::resp_err::ReplyBody;
use pick_play::status::StatusCode;

fn code(n: u16) -> StatusCode {
    StatusCode::from_u16(n).unwrap()
}

fn form(username: &str, password: &str, confirmation: &str) -> SignUpForm {
    SignUpForm {
        username: username.to_string(),
        password: password.to_string(),
        password_confirmation: confirmation.to_string(),
        turnstile_response: "token".to_string(),
    }
}

fn notice(r: Rejection) -> (StatusCode, String) {
    match r {
        Rejection::Notify(n) => (n.0, n.1),
        other => panic!("not a notification: {other:?}"),
    }
}

fn logged_notice(r: Rejection) -> (StatusCode, String, String) {
    match r {
        Rejection::NotifyLogged(n, reply) => (n.0, n.1, reply.log_line),
        other => panic!("not a logged notification: {other:?}"),
    }
}

fn error_text(r: Rejection) -> (StatusCode, String) {
    match r {
        Rejection::Error(e) => (e.status(), e.to_string()),
        other => panic!("not an error: {other:?}"),
    }
}

#[test]
fn usernames() {
    assert!(check_username("alice42"));
    assert!(check_username("Z"));
    assert!(!check_username(""));
    assert!(!check_username("al ice"));
    assert!(!check_username("al_ice"));
    assert!(!check_username("\u{e9}t\u{e9}"));
    assert!(!check_username("tab\t"));
}

#[test]
fn signup_form_checks() {
    assert!(signup_check_form(&form("bob", "pw", "pw"), true).is_ok());
    let (s, t) = notice(signup_check_form(&form("bob", "pw", "pw"), false).unwrap_err());
    assert_eq!((s, t.as_str()), (code(401), "You did not pass our check for robots"));
    let (s, t) = notice(signup_check_form(&form("bo b", "pw", "pw"), true).unwrap_err());
    assert_eq!((s, t.as_str()), (code(400), "Username is not allowed"));
    let (s, t) = notice(signup_check_form(&form("bob", "pw", "px"), true).unwrap_err());
    assert_eq!((s, t.as_str()), (code(409), "Password does not match confirmation"));
    assert!(check_robot(true).is_ok());
    assert!(check_robot(false).is_err());
}

#[test]
fn signup_later_steps() {
    assert!(signup_check_user_free(Ok(false)).is_ok());
    let (s, t) = notice(signup_check_user_free(Ok(true)).unwrap_err());
    assert_eq!((s, t.as_str()), (code(409), "Username already taken"));
    let (s, t, log) = logged_notice(signup_check_user_free(Err("down".to_string())).unwrap_err());
    assert_eq!(s, code(500));
    assert_eq!(t, "500 Internal Server Error");
    assert_eq!(log, "500 Internal Server Error\n  0: Database Error: down");
    assert_eq!(signup_account_name(&form("BoB", "p", "p")), "bob");
    assert!(signup_check_created(Ok(())).is_ok());
    assert!(signup_check_created(Err("x".to_string())).is_err());
    assert_eq!(signup_after_login(Ok(())).unwrap(), "/");
    let (s, t, log) = logged_notice(signup_after_login(Err("session".to_string())).unwrap_err());
    assert_eq!((s, t.as_str()), (code(500), "Could not log in"));
    assert_eq!(log, "Could not log in\n  0: session");
}

#[test]
fn finish_signup_steps() {
    let f = FinishSignupForm { username: "carol".to_string(), turnstile_response: "t".to_string() };
    assert!(finish_check_form(&f, true).is_ok());
    assert!(finish_check_form(&f, false).is_err());
    let bad = FinishSignupForm { username: "c-l".to_string(), turnstile_response: "t".to_string() };
    let (s, _) = notice(finish_check_form(&bad, true).unwrap_err());
    assert_eq!(s, code(400));
    assert!(matches!(require_signup_token(false), Err(Rejection::HxRedirect("/login"))));
    assert!(require_signup_token(true).is_ok());
    assert!(consume_signup_token(Ok(true)).is_ok());
    assert!(matches!(consume_signup_token(Ok(false)), Err(Rejection::HxRedirect("/login"))));
    assert!(matches!(consume_signup_token(Err("e".to_string())), Err(Rejection::NotifyLogged(..))));
    let (s, t) = notice(finish_check_user_created(Ok(false)).unwrap_err());
    assert_eq!((s, t.as_str()), (code(400), "Username already taken"));
    let (s, t) = error_text(finish_check_user_created(Err("dup".to_string())).unwrap_err());
    assert_eq!((s, t.as_str()), (code(500), "500 Internal Server Error\n  0: Database Error: dup"));
    let (s, t) = error_text(finish_check_login(Err("store".to_string())).unwrap_err());
    assert_eq!((s, t.as_str()), (code(500), "500 Internal Server Error\n  0: store"));
    let (_, t) = error_text(database_rejection("boom".to_string()));
    assert_eq!(t, "500 Internal Server Error\n  0: Database Error: boom");
    assert!(matches!(require_signup_cookie(false), Err(Rejection::Redirect("/login"))));
    assert!(matches!(finish_page_lookup(Ok(false)), Err(Rejection::Redirect("/login"))));
    assert!(finish_page_lookup(Ok(true)).is_ok());
}

#[test]
fn legacy_login_steps() {
    let (s, t) = notice(legacy_check_credentials(Ok(false)).unwrap_err());
    assert_eq!((s, t.as_str()), (code(401), "Invalid Username or Password"));
    assert!(legacy_check_credentials(Ok(true)).is_ok());
    assert!(matches!(legacy_check_credentials(Err("x".to_string())), Err(Rejection::Error(_))));
    assert!(matches!(legacy_check_linked(Err("x".to_string())), Err(Rejection::NotifyLogged(..))));
    let (s, t) = notice(legacy_check_login(Err("x".to_string())).unwrap_err());
    assert_eq!((s, t.as_str()), (code(408), "Our Fault! Please try again."));
    assert_eq!(login_destination(Some("/book/3/".to_string())), "/book/3/");
    assert_eq!(login_destination(None), "/");
}

#[test]
fn oauth_steps() {
    let e = oauth_failure(OauthStage::Token, "Timeout");
    assert_eq!(e.to_string(), "500 Internal Server Error\n  0: No way to get token: Timeout");
    let e = oauth_failure(OauthStage::Parse, "eof");
    assert_eq!(e.to_string(), "500 Internal Server Error\n  0: Json no go: eof");
    assert!(matches!(oauth_known_user_login(Ok(())), Rejection::Redirect("/")));
    let (_, t) = error_text(oauth_known_user_login(Err("store".to_string())));
    assert_eq!(t, "500 Internal Server Error\n  0: Could not log in via google oauth\n  1: store");
}

#[test]
fn logout_and_admin_steps() {
    assert_eq!(logout_outcome(Ok(())).unwrap(), "/login");
    let e = logout_outcome(Err("gone".to_string())).unwrap_err();
    assert_eq!(e.to_string(), "Logout unsuccessful\n  0: Could not log out user\n  1: gone");
    assert!(add_user_outcome(Ok(true)).is_ok());
    let e = add_user_outcome(Ok(false)).unwrap_err();
    assert_eq!(e.status(), code(400));
    let reply = e.into_response();
    assert!(matches!(reply.body, ReplyBody::Text(ref t) if t == "Could not find user to add"));
    let e = add_user_outcome(Err("db".to_string())).unwrap_err();
    assert_eq!(e.to_string(), "500 Internal Server Error\n  0: Database Error: db");
    let (s, t) = error_text(require_user(false).unwrap_err());
    assert_eq!((s, t.as_str()), (code(500), "500 Internal Server Error\n  0: No Backend User"));
    assert!(require_user(true).is_ok());
    assert!(matches!(visitor_only(true), Err(Rejection::Redirect("/"))));
    assert!(visitor_only(false).is_ok());
}

#[test]
fn login_destination_from_referer() {
    assert_eq!(referer_destination("http://localhost:3000/login?next=/book/3/"), "/book/3/");
    assert_eq!(referer_destination("/login?other=1&next=%2Fbook%2F4%2F"), "/book/4/");
    assert_eq!(referer_destination("http://localhost:3000/login"), "/");
    assert_eq!(referer_destination("http://localhost:3000/login?next=/a&next=/b"), "/");
    assert_eq!(referer_destination("not a uri"), "/");
    let pairs = vec![("a".to_string(), "1".to_string()), ("next".to_string(), "/x".to_string())];
    assert_eq!(redirect_next(&pairs), Some("/x".to_string()));
    assert_eq!(redirect_next(&vec![]), None);
}

#[test]
fn lowercase_and_whitespace() {
    assert_eq!(signup_account_name(&form("MiXeD9", "p", "p")), "mixed9");
    assert!(!check_username("a\u{3000}b"));
    assert!(!check_username("a\u{a0}"));
}
