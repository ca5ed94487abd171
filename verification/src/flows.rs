//! The decisions of the sign-up, login and logout handlers. Each handler
//! alternates outside work (the robot check, the database, the session) with
//! decisions; the functions here take what the outside work returned and
//! decide whether the handler goes on or what it answers.
use vstd::prelude::*;
use crate::status::StatusCode;
use crate::resp_err::{RespErr, RespErrView, Shown, ErrorReply, reply_matches, head_text};
use crate::app_error::{AppError, AppNotification};
use crate::forms::{SignUpForm, FinishSignupForm};
use vstd::std_specs::iter::IteratorSpec;

verus! {

broadcast use vstd::string::group_string_axioms;

/// Whether a character has the Unicode `White_Space` property.
pub open spec fn char_is_whitespace(c: char) -> bool {
    let n = c as u32;
    ||| 0x09 <= n <= 0x0d
    ||| n == 0x20
    ||| n == 0x85
    ||| n == 0xa0
    ||| n == 0x1680
    ||| 0x2000 <= n <= 0x200a
    ||| n == 0x2028
    ||| n == 0x2029
    ||| n == 0x202f
    ||| n == 0x205f
    ||| n == 0x3000
}

/// All characters of the text are ASCII.
pub open spec fn ascii_text(s: Seq<char>) -> bool {
    forall|i: int| 0 <= i < s.len() ==> (#[trigger] s[i] as u32) < 128
}

/// The ASCII lower case of a character: `A` to `Z` become `a` to `z`, any
/// other character stays.
pub open spec fn ascii_lower(c: char) -> char {
    if 65 <= (c as u32) <= 90 {
        ((c as u32) + 32) as char
    } else {
        c
    }
}

/// The text that `str::to_lowercase` returns for a text.
pub uninterp spec fn lowercase_text(s: Seq<char>) -> Seq<char>;

/// Whether the character has the Unicode `White_Space` property.
fn is_whitespace(c: char) -> (b: bool)
    ensures
        b == char_is_whitespace(c),
{
    let n = c as u32;
    (0x09 <= n && n <= 0x0d) || n == 0x20 || n == 0x85 || n == 0xa0 || n == 0x1680 || (0x2000 <= n
        && n <= 0x200a) || n == 0x2028 || n == 0x2029 || n == 0x202f || n == 0x205f || n == 0x3000
}

/// Calls `str::to_lowercase`; claims that the result is `lowercase_text` of
/// the argument, and that on an ASCII text it lowers `A` to `Z` and keeps
/// every other character.
#[verifier::external_body]
fn to_lowercase(s: &str) -> (r: String)
    ensures
        r@ == lowercase_text(s@),
        ascii_text(s@) ==> r@ == s@.map_values(|c: char| ascii_lower(c)),
{
    s.to_lowercase()
}

/// Whether the character is an ASCII digit or letter.
fn is_ascii_alphanumeric(c: char) -> (b: bool)
    ensures
        b == ascii_alphanumeric(c),
{
    let n = c as u32;
    (48 <= n && n <= 57) || (65 <= n && n <= 90) || (97 <= n && n <= 122)
}

/// The character is an ASCII digit or letter.
pub open spec fn ascii_alphanumeric(c: char) -> bool {
    48 <= (c as u32) <= 57 || 65 <= (c as u32) <= 90 || 97 <= (c as u32) <= 122
}

/// A character a username may hold: an ASCII digit or letter that is not
/// whitespace.
pub open spec fn username_char(c: char) -> bool {
    !(char_is_whitespace(c) || !ascii_alphanumeric(c))
}

/// A username is allowed when it is not empty and holds only ASCII digits
/// and letters.
pub open spec fn username_allowed(name: Seq<char>) -> bool {
    name.len() > 0 && forall|i: int| 0 <= i < name.len() ==> #[trigger] username_char(name[i])
}

/// A username is allowed exactly when it is not empty and each of its
/// characters is an ASCII digit (code points 48 to 57, `0` to `9`) or letter
/// (65 to 90, `A` to `Z`; 97 to 122, `a` to `z`); a dot, a dash, an
/// underscore, a space or any other character makes it refused.
pub proof fn law_username_ascii_alphanumeric(name: Seq<char>)
    ensures
        username_allowed(name) <==> (name.len() > 0 && forall|i: int|
            0 <= i < name.len() ==> {
                let n = #[trigger] name[i] as u32;
                48 <= n <= 57 || 65 <= n <= 90 || 97 <= n <= 122
            }),
        !username_allowed(name) <== exists|i: int|
            0 <= i < name.len() && (name[i] == '.' || name[i] == '-' || name[i] == '_' || name[i] == ' '),
{
    if username_allowed(name) {
        assert forall|i: int| 0 <= i < name.len() implies {
            let n = #[trigger] name[i] as u32;
            48 <= n <= 57 || 65 <= n <= 90 || 97 <= n <= 122
        } by {
            assert(username_char(name[i]));
        }
    }
    if exists|i: int|
        0 <= i < name.len() && (name[i] == '.' || name[i] == '-' || name[i] == '_' || name[i] == ' ') {
        let i = choose|i: int|
            0 <= i < name.len() && (name[i] == '.' || name[i] == '-' || name[i] == '_' || name[i] == ' ');
        assert(!username_char(name[i]));
    }
}

/// Whether a username is allowed (see [`username_allowed`]).
pub fn check_username(username: &str) -> (b: bool)
    ensures
        b == username_allowed(username@),
{
    proof {
        broadcast use vstd::string::group_string_axioms;
    }
    let mut chars = username.chars();
    let ghost all = username@;
    let mut any: bool = false;
    let ghost mut seen: int = 0;
    loop
        invariant
            0 <= seen <= all.len(),
            all == username@,
            chars.remaining() == all.skip(seen),
            chars.obeys_prophetic_iter_laws(),
            any == (seen > 0),
            forall|i: int| 0 <= i < seen ==> #[trigger] username_char(all[i]),
        decreases all.len() - seen,
    {
        match chars.next() {
            Some(c) => {
                proof {
                    assert(all.skip(seen)[0] == all[seen]);
                    assert(c == all[seen]);
                }
                if is_whitespace(c) || !is_ascii_alphanumeric(c) {
                    assert(!username_char(all[seen]));
                    return false;
                }
                proof {
                    assert(all.skip(seen).drop_first() =~= all.skip(seen + 1));
                    seen = seen + 1;
                }
                any = true;
            },
            None => {
                proof {
                    assert(all.skip(seen).len() == 0);
                }
                return any;
            },
        }
    }
}

/// How a handler stops short of success.
#[derive(Debug)]
pub enum Rejection {
    /// A redirect to the path.
    Redirect(&'static str),
    /// An `HX-Redirect` header to the path.
    HxRedirect(&'static str),
    /// A notification.
    Notify(AppNotification),
    /// A notification made from an error, with the error's reply, whose log
    /// line is logged.
    NotifyLogged(AppNotification, ErrorReply),
    /// An error reply, whose log line is logged.
    Error(RespErr),
}

/// The rejection is the notification `text` with `status`.
pub open spec fn is_notice(r: Rejection, status: u16, text: Seq<char>) -> bool {
    r matches Rejection::Notify(n) && n.0@ == status && n.1@ == text
}

/// The rejection is the notification made from an error with model `v`: it
/// shows what the user is shown of the error, and the reply carries the log.
pub open spec fn is_logged_notice(r: Rejection, v: RespErrView) -> bool {
    r matches Rejection::NotifyLogged(n, reply) && n.0@ == v.status && n.1@ == head_text(v)
        && reply_matches(reply, v)
}

/// The rejection is the error with model `v`.
pub open spec fn is_error(r: Rejection, v: RespErrView) -> bool {
    r matches Rejection::Error(e) && e@ == v && e.custom_response() is None
}

/// The model of the error for a failed database call with message `m`.
pub open spec fn database_error(m: Seq<char>) -> RespErrView {
    RespErrView { status: 500, log: seq!["Database Error: "@ + m], shown: Shown::Default }
}

/// The model of a 500 whose log holds `log`, oldest first.
pub open spec fn internal_error(log: Seq<Seq<char>>) -> RespErrView {
    RespErrView { status: 500, log, shown: Shown::Default }
}

/// The notification made from an error, with the error's reply for the log.
fn notify_error(e: RespErr) -> (r: Rejection)
    requires
        e.custom_response() is None,
    ensures
        is_logged_notice(r, e@),
{
    let n = AppNotification::from_resp_err(&e);
    Rejection::NotifyLogged(n, e.into_response())
}

/// The error of a failed database call.
pub fn database_failure(message: String) -> (e: RespErr)
    ensures
        e@ == database_error(message@),
        e.custom_response() is None,
{
    RespErr::from_app_error(AppError::Sqlx(message))
}

/// A 500 whose log holds the error message.
pub fn internal_failure(message: String) -> (e: RespErr)
    ensures
        e@ == internal_error(seq![message@]),
        e.custom_response() is None,
{
    let e = RespErr::new(StatusCode::new(500)).log_msg(message);
    assert(e@.log =~= seq![message@]);
    e
}

/// The robot check failed: 401.
pub open spec fn robot_notice(r: Rejection) -> bool {
    is_notice(r, 401, "You did not pass our check for robots"@)
}

/// The username is not allowed: 400.
pub open spec fn username_notice(r: Rejection) -> bool {
    is_notice(r, 400, "Username is not allowed"@)
}

fn robot_rejection() -> (r: Rejection)
    ensures
        robot_notice(r),
{
    proof {
        broadcast use vstd::string::group_string_axioms;
    }
    Rejection::Notify(AppNotification(StatusCode::new(401), "You did not pass our check for robots".to_string()))
}

fn username_rejection() -> (r: Rejection)
    ensures
        username_notice(r),
{
    proof {
        broadcast use vstd::string::group_string_axioms;
    }
    Rejection::Notify(AppNotification(StatusCode::new(400), "Username is not allowed".to_string()))
}

/// The robot check must have passed.
pub fn check_robot(turnstile_passed: bool) -> (r: Result<(), Rejection>)
    ensures
        r is Ok <==> turnstile_passed,
        r matches Err(x) ==> robot_notice(x),
{
    if turnstile_passed {
        Ok(())
    } else {
        Err(robot_rejection())
    }
}

/// The first checks of a sign-up: the robot check passed, the username is
/// allowed, and the password matches its confirmation (409 otherwise), in
/// that order.
pub fn signup_check_form(form: &SignUpForm, turnstile_passed: bool) -> (r: Result<(), Rejection>)
    ensures
        r is Ok <==> turnstile_passed && username_allowed(form.username@) && form.password@
            == form.password_confirmation@,
        !turnstile_passed ==> (r matches Err(x) && robot_notice(x)),
        turnstile_passed && !username_allowed(form.username@) ==> (r matches Err(x) && username_notice(x)),
        turnstile_passed && username_allowed(form.username@) && form.password@ != form.password_confirmation@
            ==> (r matches Err(x) && is_notice(x, 409, "Password does not match confirmation"@)),
{
    proof {
        broadcast use vstd::string::group_string_axioms;
    }
    if !turnstile_passed {
        return Err(robot_rejection());
    }
    if !check_username(form.username.as_str()) {
        return Err(username_rejection());
    }
    if !form.password.eq(&form.password_confirmation) {
        return Err(
            Rejection::Notify(
                AppNotification(StatusCode::new(409), "Password does not match confirmation".to_string()),
            ),
        );
    }
    Ok(())
}

/// The username must not be taken (409); a failed lookup is notified as a
/// database error.
pub fn signup_check_user_free(lookup: Result<bool, String>) -> (r: Result<(), Rejection>)
    ensures
        match lookup {
            Ok(false) => r is Ok,
            Ok(true) => r matches Err(x) && is_notice(x, 409, "Username already taken"@),
            Err(m) => r matches Err(x) && is_logged_notice(x, database_error(m@)),
        },
{
    proof {
        broadcast use vstd::string::group_string_axioms;
    }
    match lookup {
        Ok(false) => Ok(()),
        Ok(true) => Err(Rejection::Notify(AppNotification(StatusCode::new(409), "Username already taken".to_string()))),
        Err(m) => Err(notify_error(database_failure(m))),
    }
}

/// The name a new account is created with: the username in lower case.
pub fn signup_account_name(form: &SignUpForm) -> (name: String)
    ensures
        name@ == lowercase_text(form.username@),
{
    to_lowercase(form.username.as_str())
}

/// Creating the account must have succeeded; a failure is notified as a
/// database error.
pub fn signup_check_created(created: Result<(), String>) -> (r: Result<(), Rejection>)
    ensures
        match created {
            Ok(()) => r is Ok,
            Err(m) => r matches Err(x) && is_logged_notice(x, database_error(m@)),
        },
{
    match created {
        Ok(()) => Ok(()),
        Err(m) => Err(notify_error(database_failure(m))),
    }
}

/// After logging the new user in, the page goes home; a failed login is a
/// 500 that tells the user it could not log in.
pub fn signup_after_login(login: Result<(), String>) -> (r: Result<&'static str, Rejection>)
    ensures
        match login {
            Ok(()) => r matches Ok(path) && path@ == "/"@,
            Err(m) => r matches Err(x) && is_logged_notice(
                x,
                RespErrView { status: 500, log: seq![m@], shown: Shown::Custom("Could not log in"@) },
            ),
        },
{
    match login {
        Ok(()) => Ok("/"),
        Err(m) => {
            let e = internal_failure(m).user_msg("Could not log in");
            Err(notify_error(e))
        },
    }
}

/// The first checks of finishing a sign-up: the robot check passed and the
/// username is allowed.
pub fn finish_check_form(form: &FinishSignupForm, turnstile_passed: bool) -> (r: Result<(), Rejection>)
    ensures
        r is Ok <==> turnstile_passed && username_allowed(form.username@),
        !turnstile_passed ==> (r matches Err(x) && robot_notice(x)),
        turnstile_passed && !username_allowed(form.username@) ==> (r matches Err(x) && username_notice(x)),
{
    if !turnstile_passed {
        return Err(robot_rejection());
    }
    if !check_username(form.username.as_str()) {
        return Err(username_rejection());
    }
    Ok(())
}

/// The sign-up token cookie must be there; otherwise the page goes to the
/// login page.
pub fn require_signup_token(present: bool) -> (r: Result<(), Rejection>)
    ensures
        r is Ok <==> present,
        r matches Err(x) ==> x matches Rejection::HxRedirect(p) && p@ == "/login"@,
{
    if present {
        Ok(())
    } else {
        Err(Rejection::HxRedirect("/login"))
    }
}

/// A failed database call answers with the database error.
pub fn database_rejection(message: String) -> (r: Rejection)
    ensures
        is_error(r, database_error(message@)),
{
    Rejection::Error(database_failure(message))
}

/// Consuming the sign-up token must find it: a failed call is notified as a
/// database error, a missing token goes to the login page.
pub fn consume_signup_token(found: Result<bool, String>) -> (r: Result<(), Rejection>)
    ensures
        match found {
            Ok(true) => r is Ok,
            Ok(false) => r matches Err(x) && x matches Rejection::HxRedirect(p) && p@ == "/login"@,
            Err(m) => r matches Err(x) && is_logged_notice(x, database_error(m@)),
        },
{
    match found {
        Ok(true) => Ok(()),
        Ok(false) => Err(Rejection::HxRedirect("/login")),
        Err(m) => Err(notify_error(database_failure(m))),
    }
}

/// Creating the user of a finished sign-up must succeed: a taken username
/// is notified (400), a failed call answers with the database error.
pub fn finish_check_user_created(created: Result<bool, String>) -> (r: Result<(), Rejection>)
    ensures
        match created {
            Ok(true) => r is Ok,
            Ok(false) => r matches Err(x) && is_notice(x, 400, "Username already taken"@),
            Err(m) => r matches Err(x) && is_error(x, database_error(m@)),
        },
{
    proof {
        broadcast use vstd::string::group_string_axioms;
    }
    match created {
        Ok(true) => Ok(()),
        Ok(false) => Err(Rejection::Notify(AppNotification(StatusCode::new(400), "Username already taken".to_string()))),
        Err(m) => Err(database_rejection(m)),
    }
}

/// Logging the user in must succeed; a failure is a 500 with the failure in
/// the log.
pub fn finish_check_login(login: Result<(), String>) -> (r: Result<(), Rejection>)
    ensures
        match login {
            Ok(()) => r is Ok,
            Err(m) => r matches Err(x) && is_error(x, internal_error(seq![m@])),
        },
{
    match login {
        Ok(()) => Ok(()),
        Err(m) => Err(Rejection::Error(internal_failure(m))),
    }
}

/// The old username and password must be right: a failed check is a 500
/// with the failure in the log, wrong credentials are notified (401).
pub fn legacy_check_credentials(authenticated: Result<bool, String>) -> (r: Result<(), Rejection>)
    ensures
        match authenticated {
            Ok(true) => r is Ok,
            Ok(false) => r matches Err(x) && is_notice(x, 401, "Invalid Username or Password"@),
            Err(m) => r matches Err(x) && is_error(x, internal_error(seq![m@])),
        },
{
    proof {
        broadcast use vstd::string::group_string_axioms;
    }
    match authenticated {
        Ok(true) => Ok(()),
        Ok(false) => Err(
            Rejection::Notify(AppNotification(StatusCode::new(401), "Invalid Username or Password".to_string())),
        ),
        Err(m) => Err(Rejection::Error(internal_failure(m))),
    }
}

/// Linking the old account must succeed; a failure is notified as a
/// database error.
pub fn legacy_check_linked(linked: Result<(), String>) -> (r: Result<(), Rejection>)
    ensures
        match linked {
            Ok(()) => r is Ok,
            Err(m) => r matches Err(x) && is_logged_notice(x, database_error(m@)),
        },
{
    match linked {
        Ok(()) => Ok(()),
        Err(m) => Err(notify_error(database_failure(m))),
    }
}

/// Logging in with the old account must succeed; a failure is notified as a
/// timeout (408).
pub fn legacy_check_login(login: Result<(), String>) -> (r: Result<(), Rejection>)
    ensures
        match login {
            Ok(()) => r is Ok,
            Err(_) => r matches Err(x) && is_notice(x, 408, "Our Fault! Please try again."@),
        },
{
    proof {
        broadcast use vstd::string::group_string_axioms;
    }
    match login {
        Ok(()) => Ok(()),
        Err(_) => Err(
            Rejection::Notify(AppNotification(StatusCode::new(408), "Our Fault! Please try again.".to_string())),
        ),
    }
}

#[verifier::external_type_specification]
#[verifier::external_body]
pub struct ExUri(http::Uri);

/// A URI that `http` parsed, seen as the text it was parsed from.
pub struct ParsedUri {
    uri: http::Uri,
    text: Ghost<Seq<char>>,
}

impl View for ParsedUri {
    type V = Seq<char>;

    closed spec fn view(&self) -> Seq<char> {
        self.text@
    }
}

/// Whether `http::Uri`'s parser accepts the text.
pub uninterp spec fn uri_parses(s: Seq<char>) -> bool;

/// The `(key, value)` pairs that `axum`'s query extractor decodes from the
/// query of the URI parsed from `s`, or `None` where it fails.
pub uninterp spec fn uri_query_pairs_of(s: Seq<char>) -> Option<Seq<(Seq<char>, Seq<char>)>>;

/// Calls `str::parse::<http::Uri>`; claims that it succeeds exactly when
/// `uri_parses` holds of the text, and keeps the text as the view.
#[verifier::external_body]
fn parse_uri(text: &str) -> (r: Option<ParsedUri>)
    ensures
        r is Some == uri_parses(text@),
        r matches Some(u) ==> u@ == text@,
{
    match text.parse::<http::Uri>() {
        Ok(uri) => Some(ParsedUri { uri, text: Ghost(text@) }),
        Err(_) => None,
    }
}

/// The texts of the pairs.
pub open spec fn pair_texts(pairs: Seq<(String, String)>) -> Seq<(Seq<char>, Seq<char>)> {
    pairs.map_values(|p: (String, String)| (p.0@, p.1@))
}

/// Calls `axum::extract::Query::<Vec<(String, String)>>::try_from_uri`,
/// which decodes the query of the URI (an empty one where it has none) as
/// `application/x-www-form-urlencoded` pairs; claims that the result is
/// `uri_query_pairs_of` of the text the URI was parsed from.
#[verifier::external_body]
fn uri_query_pairs(uri: &ParsedUri) -> (r: Option<Vec<(String, String)>>)
    ensures
        match r {
            Some(v) => uri_query_pairs_of(uri@) == Some(pair_texts(v@)),
            None => uri_query_pairs_of(uri@) is None,
        },
{
    match axum::extract::Query::<Vec<(String, String)>>::try_from_uri(&uri.uri) {
        Ok(q) => Some(q.0),
        Err(_) => None,
    }
}

/// Pair `i` of the query has the key `next`.
pub open spec fn is_next_at(pairs: Seq<(Seq<char>, Seq<char>)>, i: int) -> bool {
    0 <= i < pairs.len() && pairs[i].0 == "next"@
}

/// Pair `i` is the only one with the key `next`.
pub open spec fn single_next(pairs: Seq<(Seq<char>, Seq<char>)>, i: int) -> bool {
    is_next_at(pairs, i) && forall|j: int| #[trigger] is_next_at(pairs, j) ==> j == i
}

/// The `next` parameter of a query, read as a record with one field `next`:
/// there when the key occurs exactly once (twice is an error, as is none);
/// other keys are ignored.
pub open spec fn next_of(pairs: Seq<(Seq<char>, Seq<char>)>) -> Option<Seq<char>> {
    if exists|i: int| single_next(pairs, i) {
        Some(pairs[choose|i: int| single_next(pairs, i)].1)
    } else {
        None
    }
}

/// The `next` parameter of the query of a referring page's address: `None`
/// where the address does not parse, its query does not decode, or the
/// query holds no single `next`.
pub open spec fn referer_next(referer: Seq<char>) -> Option<Seq<char>> {
    if uri_parses(referer) {
        match uri_query_pairs_of(referer) {
            Some(pairs) => next_of(pairs),
            None => None,
        }
    } else {
        None
    }
}

/// The `next` parameter of decoded query pairs (see [`next_of`]).
pub fn redirect_next(pairs: &Vec<(String, String)>) -> (r: Option<String>)
    ensures
        match r {
            Some(v) => next_of(pair_texts(pairs@)) == Some(v@),
            None => next_of(pair_texts(pairs@)) is None,
        },
{
    let ghost texts = pair_texts(pairs@);
    let next = "next".to_string();
    let mut found: Option<usize> = None;
    let mut j: usize = 0;
    while j < pairs.len()
        invariant
            j <= pairs@.len(),
            texts == pair_texts(pairs@),
            next@ == "next"@,
            match found {
                Some(i) => i < j && is_next_at(texts, i as int) && forall|k: int|
                    0 <= k < j && #[trigger] is_next_at(texts, k) ==> k == i,
                None => forall|k: int| 0 <= k < j ==> !#[trigger] is_next_at(texts, k),
            },
        decreases pairs@.len() - j,
    {
        assert(texts[j as int] == (pairs@[j as int].0@, pairs@[j as int].1@));
        if pairs[j].0.eq(&next) {
            match found {
                Some(i) => {
                    assert(is_next_at(texts, j as int));
                    assert forall|k: int| !single_next(texts, k) by {
                        if single_next(texts, k) {
                            assert(is_next_at(texts, i as int));
                        }
                    }
                    return None;
                },
                None => {
                    found = Some(j);
                },
            }
        }
        j += 1;
    }
    match found {
        Some(i) => {
            assert(single_next(texts, i as int));
            let ghost c = choose|k: int| single_next(texts, k);
            assert(c == i);
            assert(texts[i as int] == (pairs@[i as int].0@, pairs@[i as int].1@));
            Some(pairs[i].1.clone())
        },
        None => {
            assert forall|k: int| !single_next(texts, k) by {
                if single_next(texts, k) {
                    assert(is_next_at(texts, k));
                }
            }
            None
        },
    }
}

/// Where a login goes, read from the address of the referring page: the
/// `next` parameter of its query (see [`referer_next`]), home without one.
pub fn referer_destination(referer: &str) -> (path: String)
    ensures
        path@ == (match referer_next(referer@) {
            Some(n) => n,
            None => "/"@,
        }),
{
    let next = match parse_uri(referer) {
        Some(uri) => match uri_query_pairs(&uri) {
            Some(pairs) => redirect_next(&pairs),
            None => None,
        },
        None => None,
    };
    login_destination(next)
}

/// Where a login goes: the `next` query parameter of the referring page,
/// home without one.
pub fn login_destination(next: Option<String>) -> (path: String)
    ensures
        path@ == (match next {
            Some(n) => n@,
            None => "/"@,
        }),
{
    proof {
        broadcast use vstd::string::group_string_axioms;
    }
    match next {
        Some(n) => n,
        None => "/".to_string(),
    }
}

/// A stage of the Google login that can fail before the database is asked.
#[derive(Debug, Clone, Copy, PartialEq, Eq, Structural)]
pub enum OauthStage {
    /// The query of the redirect back from Google.
    Query,
    /// Exchanging the code for a token.
    Token,
    /// Asking Google for the profile.
    Fetch,
    /// Reading the profile's text.
    Read,
    /// Parsing the profile.
    Parse,
}

/// What the log says of a stage's failure, before the failure's details.
pub open spec fn oauth_stage_text(stage: OauthStage) -> Seq<char> {
    match stage {
        OauthStage::Query => "Query params in google oauth redirect: "@,
        OauthStage::Token => "No way to get token: "@,
        OauthStage::Fetch => "Can't get access token response: "@,
        OauthStage::Read => "Don't understand oauth token: "@,
        OauthStage::Parse => "Json no go: "@,
    }
}

/// A failed stage of the Google login is a 500 whose log names the stage
/// and gives the failure's details.
pub fn oauth_failure(stage: OauthStage, details: &str) -> (e: RespErr)
    ensures
        e@ == internal_error(seq![oauth_stage_text(stage) + details@]),
        e.custom_response() is None,
{
    proof {
        broadcast use vstd::string::group_string_axioms;
    }
    let mut text = match stage {
        OauthStage::Query => "Query params in google oauth redirect: ".to_string(),
        OauthStage::Token => "No way to get token: ".to_string(),
        OauthStage::Fetch => "Can't get access token response: ".to_string(),
        OauthStage::Read => "Don't understand oauth token: ".to_string(),
        OauthStage::Parse => "Json no go: ".to_string(),
    };
    text.append(details);
    internal_failure(text)
}

/// A known Google account is logged in and sent home (as the handler's
/// error value); a failed login is a 500 with the failure and
/// `Could not log in via google oauth` in the log.
pub fn oauth_known_user_login(login: Result<(), String>) -> (r: Rejection)
    ensures
        match login {
            Ok(()) => r matches Rejection::Redirect(p) && p@ == "/"@,
            Err(m) => is_error(r, internal_error(seq![m@, "Could not log in via google oauth"@])),
        },
{
    match login {
        Ok(()) => Rejection::Redirect("/"),
        Err(m) => {
            let e = internal_failure(m).log_msg("Could not log in via google oauth");
            assert(e@.log =~= seq![m@, "Could not log in via google oauth"@]);
            Rejection::Error(e)
        },
    }
}

/// Logging out goes to the login page; a failure is a 500 that tells the
/// user the logout failed and logs the failure and `Could not log out user`.
pub fn logout_outcome(logout: Result<(), String>) -> (r: Result<&'static str, RespErr>)
    ensures
        match logout {
            Ok(()) => r matches Ok(p) && p@ == "/login"@,
            Err(m) => r matches Err(e) && e@ == (RespErrView {
                status: 500,
                log: seq![m@, "Could not log out user"@],
                shown: Shown::Custom("Logout unsuccessful"@),
            }) && e.custom_response() is None,
        },
{
    match logout {
        Ok(()) => Ok("/login"),
        Err(m) => {
            let e = internal_failure(m).log_msg("Could not log out user").user_msg("Logout unsuccessful");
            assert(e@.log =~= seq![m@, "Could not log out user"@]);
            Err(e)
        },
    }
}

/// Adding a member must find the user: a failed call is the database error,
/// an unknown user is a 400 that tells the admin so.
pub fn add_user_outcome(added: Result<bool, String>) -> (r: Result<(), RespErr>)
    ensures
        match added {
            Ok(true) => r is Ok,
            Ok(false) => r matches Err(e) && e@ == (RespErrView {
                status: 400,
                log: Seq::empty(),
                shown: Shown::Custom("Could not find user to add"@),
            }) && e.custom_response() is None,
            Err(m) => r matches Err(e) && e@ == database_error(m@) && e.custom_response() is None,
        },
{
    match added {
        Ok(true) => Ok(()),
        Ok(false) => Err(RespErr::new(StatusCode::new(400)).user_msg("Could not find user to add")),
        Err(m) => Err(database_failure(m)),
    }
}


/// A page that needs the sign-up token cookie sends a visitor without one
/// to the login page.
pub fn require_signup_cookie(present: bool) -> (r: Result<(), Rejection>)
    ensures
        r is Ok <==> present,
        r matches Err(x) ==> x matches Rejection::Redirect(p) && p@ == "/login"@,
{
    if present {
        Ok(())
    } else {
        Err(Rejection::Redirect("/login"))
    }
}

/// The profile of a sign-up token must be found: a failed call answers with
/// the database error, a missing profile goes to the login page.
pub fn finish_page_lookup(found: Result<bool, String>) -> (r: Result<(), Rejection>)
    ensures
        match found {
            Ok(true) => r is Ok,
            Ok(false) => r matches Err(x) && x matches Rejection::Redirect(p) && p@ == "/login"@,
            Err(m) => r matches Err(x) && is_error(x, database_error(m@)),
        },
{
    match found {
        Ok(true) => Ok(()),
        Ok(false) => Err(Rejection::Redirect("/login")),
        Err(m) => Err(database_rejection(m)),
    }
}

/// A handler that needs the session's user answers a session without one
/// with a 500 that only the log explains.
pub fn require_user(present: bool) -> (r: Result<(), Rejection>)
    ensures
        r is Ok <==> present,
        r matches Err(x) ==> is_error(x, internal_error(seq!["No Backend User"@])),
{
    if present {
        Ok(())
    } else {
        let e = RespErr::from_app_error(AppError::BackendUser);
        Err(Rejection::Error(e))
    }
}

/// The login pages are for visitors: a logged-in user is sent home.
pub fn visitor_only(logged_in: bool) -> (r: Result<(), Rejection>)
    ensures
        r is Ok <==> !logged_in,
        r matches Err(x) ==> x matches Rejection::Redirect(p) && p@ == "/"@,
{
    if logged_in {
        Err(Rejection::Redirect("/"))
    } else {
        Ok(())
    }
}

} // verus!
