//! An error to be used as the error variant of a request handler: a status
//! code, the message shown to the user and a backtrace of log messages.
use vstd::prelude::*;
use std::borrow::Cow;
use axum_core::response::Response;
use crate::status::{StatusCode, status_code_display, digit_char, decimal_text};

verus! {

#[verifier::external_type_specification]
#[verifier::external_body]
#[verifier::reject_recursive_types(T)]
pub struct ExHttpResponse<T>(http::Response<T>);

#[verifier::external_type_specification]
#[verifier::external_body]
pub struct ExBody(axum_core::body::Body);

/// The decimal digit `d`, which is below ten, as a text.
fn digit_text(d: usize) -> (s: &'static str)
    requires
        d < 10,
    ensures
        s@ == seq![digit_char(d as nat)],
{
    proof {
        reveal_strlit("0");
        reveal_strlit("1");
        reveal_strlit("2");
        reveal_strlit("3");
        reveal_strlit("4");
        reveal_strlit("5");
        reveal_strlit("6");
        reveal_strlit("7");
        reveal_strlit("8");
        reveal_strlit("9");
    }
    match d {
        0 => "0",
        1 => "1",
        2 => "2",
        3 => "3",
        4 => "4",
        5 => "5",
        6 => "6",
        7 => "7",
        8 => "8",
        _ => "9",
    }
}

/// The decimal representation of `n`.
fn usize_text(n: usize) -> (s: String)
    ensures
        s@ == decimal_text(n as nat),
    decreases n,
{
    proof {
        broadcast use vstd::string::group_string_axioms;
    }
    if n < 10 {
        digit_text(n).to_string()
    } else {
        let mut s = usize_text(n / 10);
        s.append(digit_text(n % 10));
        s
    }
}

/// An error message.
#[derive(Debug)]
pub struct Message(pub Cow<'static, str>);

impl View for Message {
    type V = Seq<char>;

    open spec fn view(&self) -> Seq<char> {
        self.0@
    }
}

impl Message {
    /// The text of the message.
    pub fn as_str(&self) -> (s: &str)
        ensures
            s@ == self@,
    {
        match &self.0 {
            Cow::Borrowed(b) => b,
            Cow::Owned(o) => o.as_str(),
        }
    }
}

impl From<&'static str> for Message {
    fn from(value: &'static str) -> (m: Self)
        ensures
            m == Message(Cow::Borrowed(value)),
            m@ == value@,
    {
        Message(Cow::Borrowed(value))
    }
}

impl vstd::std_specs::convert::FromSpecImpl<&'static str> for Message {
    open spec fn obeys_from_spec() -> bool {
        true
    }

    open spec fn from_spec(v: &'static str) -> Self {
        Message(Cow::Borrowed(v))
    }
}

impl From<String> for Message {
    fn from(value: String) -> (m: Self)
        ensures
            m == Message(Cow::Owned(value)),
            m@ == value@,
    {
        Message(Cow::Owned(value))
    }
}

impl vstd::std_specs::convert::FromSpecImpl<String> for Message {
    open spec fn obeys_from_spec() -> bool {
        true
    }

    open spec fn from_spec(v: String) -> Self {
        Message(Cow::Owned(v))
    }
}

impl Message {
    /// The message that a closure gives: the closure is called once, and
    /// what it returns is converted into a message.
    pub fn from_fn<F, V>(f: F) -> (m: Self) where F: FnOnce() -> V, Message: From<V>
        requires
            call_requires(f, ()),
        ensures
            exists|v: V| #[trigger] call_ensures(f, (), v) && call_ensures(Message::from, (v,), m),
    {
        let v = f();
        Message::from(v)
    }
}

/// What the user is shown.
#[derive(Debug)]
enum ResponseKind {
    /// Shows a default message to the user.
    DefaultMessage,
    /// Shows a custom message to the user.
    CustomMessage(Message),
    /// A custom response.
    Response(Response),
}

/// What the user is shown, as the contracts see it.
pub enum Shown {
    /// The status code with its reason phrase.
    Default,
    /// A custom message.
    Custom(Seq<char>),
    /// A custom response.
    Response,
}

/// The model of a [`RespErr`]: its status, its log messages in the order they
/// were added, and what the user is shown.
pub struct RespErrView {
    pub status: u16,
    pub log: Seq<Seq<char>>,
    pub shown: Shown,
}

/// The error with a custom user message in place of what it showed before.
pub open spec fn with_user_message(v: RespErrView, message: Seq<char>) -> RespErrView {
    RespErrView { shown: Shown::Custom(message), ..v }
}

/// The error with one more log message, the newest.
pub open spec fn with_log_message(v: RespErrView, message: Seq<char>) -> RespErrView {
    RespErrView { log: v.log.push(message), ..v }
}

/// The first line of the rendered error: the status with its reason phrase,
/// the custom message, or nothing in front of a custom response.
pub open spec fn head_text(v: RespErrView) -> Seq<char> {
    match v.shown {
        Shown::Default => status_code_display(v.status),
        Shown::Custom(m) => m,
        Shown::Response => Seq::empty(),
    }
}

/// Line `index` of the backtrace.
pub open spec fn backtrace_line(index: nat, message: Seq<char>) -> Seq<char> {
    "\n  "@ + decimal_text(index) + ": "@ + message
}

/// The first `k` lines of the backtrace of `log`: line `i` holds the message
/// added `i` messages before the newest one.
pub open spec fn backtrace_lines(log: Seq<Seq<char>>, k: nat) -> Seq<char>
    decreases k,
{
    if k == 0 {
        Seq::empty()
    } else {
        let i = (k - 1) as nat;
        backtrace_lines(log, i) + backtrace_line(i, log[log.len() - 1 - i])
    }
}

/// The whole text of an error: the head and the backtrace, newest message first.
pub open spec fn rendered(v: RespErrView) -> Seq<char> {
    head_text(v) + backtrace_lines(v.log, v.log.len())
}

/// An error to be used as the error variant of a request handler.
#[derive(Debug)]
pub struct RespErr {
    pub status_code: StatusCode,
    log_messages: Vec<Message>,
    response_kind: ResponseKind,
}

impl View for RespErr {
    type V = RespErrView;

    closed spec fn view(&self) -> RespErrView {
        RespErrView {
            status: self.status_code@,
            log: self.log_messages@.map_values(|m: Message| m@),
            shown: match self.response_kind {
                ResponseKind::DefaultMessage => Shown::Default,
                ResponseKind::CustomMessage(m) => Shown::Custom(m@),
                ResponseKind::Response(_) => Shown::Response,
            },
        }
    }
}

impl RespErr {
    /// The custom response that the error carries, if any.
    pub closed spec fn custom_response(&self) -> Option<Response> {
        match self.response_kind {
            ResponseKind::Response(r) => Some(r),
            _ => None,
        }
    }

    /// The status code of the error.
    pub fn status(&self) -> (s: StatusCode)
        ensures
            s@ == self@.status,
    {
        self.status_code
    }

    /// Initialize with a status.
    pub fn new(status_code: StatusCode) -> (e: Self)
        ensures
            e@ == (RespErrView { status: status_code@, log: Seq::empty(), shown: Shown::Default }),
            e.custom_response() is None,
    {
        let e = RespErr {
            status_code,
            log_messages: Vec::new(),
            response_kind: ResponseKind::DefaultMessage,
        };
        assert(e@.log =~= Seq::<Seq<char>>::empty());
        e
    }

    /// Initialize with a status and a custom response shown to the user.
    pub fn with_response(status_code: StatusCode, response: Response) -> (e: Self)
        ensures
            e@ == (RespErrView { status: status_code@, log: Seq::empty(), shown: Shown::Response }),
            e.custom_response() == Some(response),
    {
        let e = RespErr {
            status_code,
            log_messages: Vec::new(),
            response_kind: ResponseKind::Response(response),
        };
        assert(e@.log =~= Seq::<Seq<char>>::empty());
        e
    }

    /// Add a custom user error message, in place of the one shown before.
    pub fn user_msg<M>(self, message: M) -> (e: Self) where Message: From<M>
        ensures
            exists|m: Message|
                #[trigger] call_ensures(Message::from, (message,), m) && e@ == with_user_message(self@, m@),
            e.custom_response() is None,
    {
        let m = Message::from(message);
        RespErr {
            status_code: self.status_code,
            log_messages: self.log_messages,
            response_kind: ResponseKind::CustomMessage(m),
        }
    }

    /// Add a custom user error message that a closure gives. The closure is
    /// called once.
    pub fn user_msg_with<F, V>(self, f: F) -> (e: Self) where F: FnOnce() -> V, Message: From<V>
        requires
            call_requires(f, ()),
        ensures
            exists|v: V, m: Message|
                #[trigger] call_ensures(f, (), v) && #[trigger] call_ensures(Message::from, (v,), m)
                    && e@ == with_user_message(self@, m@),
            e.custom_response() is None,
    {
        let m = Message::from_fn(f);
        RespErr {
            status_code: self.status_code,
            log_messages: self.log_messages,
            response_kind: ResponseKind::CustomMessage(m),
        }
    }

    /// The error with `m` added as the newest log message.
    fn push_log(self, m: Message) -> (e: Self)
        ensures
            e@ == with_log_message(self@, m@),
            e.custom_response() == self.custom_response(),
    {
        let ghost old_view = self@;
        let mut log_messages = self.log_messages;
        log_messages.push(m);
        let e = RespErr {
            status_code: self.status_code,
            log_messages,
            response_kind: self.response_kind,
        };
        assert(e@.log =~= old_view.log.push(m@));
        e
    }

    /// Add an error message to be shown in the log. It is not shown to the user.
    pub fn log_msg<M>(self, error: M) -> (e: Self) where Message: From<M>
        ensures
            exists|m: Message|
                #[trigger] call_ensures(Message::from, (error,), m) && e@ == with_log_message(self@, m@),
            e.custom_response() == self.custom_response(),
    {
        let m = Message::from(error);
        self.push_log(m)
    }

    /// Add a log message that a closure gives. The closure is called once.
    pub fn log_msg_with<F, V>(self, f: F) -> (e: Self) where F: FnOnce() -> V, Message: From<V>
        requires
            call_requires(f, ()),
        ensures
            exists|v: V, m: Message|
                #[trigger] call_ensures(f, (), v) && #[trigger] call_ensures(Message::from, (v,), m)
                    && e@ == with_log_message(self@, m@),
            e.custom_response() == self.custom_response(),
    {
        let m = Message::from_fn(f);
        self.push_log(m)
    }

    /// What the user is shown as text: the custom message, or else the status
    /// with its reason phrase (nothing in front of a custom response). The log
    /// messages are not part of it.
    pub fn shown_text(&self) -> (s: String)
        ensures
            s@ == head_text(self@),
    {
        proof {
            broadcast use vstd::string::group_string_axioms;
        }
        match &self.response_kind {
            ResponseKind::DefaultMessage => self.status_code.to_string(),
            ResponseKind::CustomMessage(message) => message.as_str().to_string(),
            ResponseKind::Response(_) => String::new(),
        }
    }

    /// The message shown first, then one line per log message, newest first.
    pub fn to_string(&self) -> (s: String)
        ensures
            s@ == rendered(self@),
    {
        let mut res = self.shown_text();
        proof {
            broadcast use vstd::string::group_string_axioms;
        }
        let n = self.log_messages.len();
        let ghost log = self@.log;
        let mut ind: usize = 0;
        while ind < n
            invariant
                ind <= n,
                n == self.log_messages@.len(),
                log == self@.log,
                log.len() == n,
                res@ == head_text(self@) + backtrace_lines(log, ind as nat),
            decreases n - ind,
        {
            let message = &self.log_messages[n - 1 - ind];
            assert(message@ == log[n - 1 - ind]);
            let number = usize_text(ind);
            res.append("\n  ");
            res.append(number.as_str());
            res.append(": ");
            res.append(message.as_str());
            assert(res@ =~= head_text(self@) + backtrace_lines(log, (ind + 1) as nat));
            ind += 1;
        }
        res
    }
}


/// What a handler sends for an error, and the line it logs.
#[derive(Debug)]
pub struct ErrorReply {
    /// The status of the response.
    pub status: StatusCode,
    /// The text that is logged, at the level the status code maps to.
    pub log_line: String,
    /// The body of the response.
    pub body: ReplyBody,
}

/// The body of an error response.
#[derive(Debug)]
pub enum ReplyBody {
    /// A text body.
    Text(String),
    /// A custom response, sent with the error's status.
    Response(Response),
}

/// The reply for an error with model `v`: its status, the rendered error as
/// the log line, and as body the status with its reason phrase, the custom
/// user message, or a custom response.
pub open spec fn reply_matches(r: ErrorReply, v: RespErrView) -> bool {
    &&& r.status@ == v.status
    &&& r.log_line@ == rendered(v)
    &&& match v.shown {
        Shown::Default => r.body matches ReplyBody::Text(t) && t@ == status_code_display(v.status),
        Shown::Custom(m) => r.body matches ReplyBody::Text(t) && t@ == m,
        Shown::Response => r.body is Response,
    }
}

impl ErrorReply {
    /// The status of the response.
    pub fn status(&self) -> (s: StatusCode)
        ensures
            s == self.status,
    {
        self.status
    }
}

impl RespErr {
    /// The reply for the error: its status, the rendered error as the log
    /// line, and as body the status with its reason phrase, the custom user
    /// message, or the custom response.
    pub fn into_response(self) -> (r: ErrorReply)
        ensures
            reply_matches(r, self@),
            self@.shown is Response ==> (r.body matches ReplyBody::Response(resp) && self.custom_response() == Some(resp)),
    {
        let log_line = self.to_string();
        let status = self.status_code;
        let body = match self.response_kind {
            ResponseKind::DefaultMessage => ReplyBody::Text(status.to_string()),
            ResponseKind::CustomMessage(message) => ReplyBody::Text(message.as_str().to_string()),
            ResponseKind::Response(r) => ReplyBody::Response(r),
        };
        proof {
            broadcast use vstd::string::group_string_axioms;
        }
        ErrorReply { status, log_line, body }
    }
}

/// Conversion to a `Result` with [`RespErr`] as the error.
pub trait RespErrCtx<T>: Sized {
    /// Convert by adding a status as a context.
    fn ctx(self, status_code: StatusCode) -> Result<T, RespErr>;
}

impl<T, E: std::fmt::Display> RespErrCtx<T> for Result<T, E> {
    /// The error is used as a log error message.
    fn ctx(self, status_code: StatusCode) -> (r: Result<T, RespErr>)
        ensures
            match self {
                Ok(t) => r == Ok::<T, RespErr>(t),
                Err(e) => r matches Err(x) && exists|text: String|
                    #[trigger] vstd::string::to_string_from_display_ensures::<E>(&e, text)
                        && x@ == (RespErrView {
                            status: status_code@,
                            log: seq![text@],
                            shown: Shown::Default,
                        }) && x.custom_response() is None,
            },
    {
        match self {
            Ok(t) => Ok(t),
            Err(e) => {
                let text = e.to_string();
                let x = RespErr::new(status_code).log_msg(text);
                assert(x@.log =~= seq![text@]);
                Err(x)
            },
        }
    }
}

impl<T> RespErrCtx<T> for Option<T> {
    fn ctx(self, status_code: StatusCode) -> (r: Result<T, RespErr>)
        ensures
            match self {
                Some(v) => r == Ok::<T, RespErr>(v),
                None => r matches Err(x) && x@ == (RespErrView {
                    status: status_code@,
                    log: Seq::empty(),
                    shown: Shown::Default,
                }) && x.custom_response() is None,
            },
    {
        match self {
            Some(v) => Ok(v),
            None => Err(RespErr::new(status_code)),
        }
    }
}

impl<T> RespErrCtx<T> for Response {
    /// The response is what the user is shown.
    fn ctx(self, status_code: StatusCode) -> (r: Result<T, RespErr>)
        ensures
            match r {
                Ok::<T, RespErr>(_) => false,
                Err(x) => x@ == (RespErrView {
                    status: status_code@,
                    log: Seq::empty(),
                    shown: Shown::Response,
                }) && x.custom_response() == Some(self),
            },
    {
        Err(RespErr::with_response(status_code, self))
    }
}

/// Addition of custom user and log error messages to a `Result<T, RespErr>`.
pub trait RespErrExt<T>: Sized {
    /// Add a custom user error message.
    fn user_msg<M>(self, message: M) -> Result<T, RespErr> where Message: From<M>;

    /// Add a log error message.
    fn log_msg<M>(self, error: M) -> Result<T, RespErr> where Message: From<M>;

    /// Add a custom user error message that a closure gives; the closure is
    /// called only if there is an error.
    fn user_msg_with<F, V>(self, f: F) -> Result<T, RespErr> where F: FnOnce() -> V, Message: From<V>
        requires
            call_requires(f, ()),
    ;

    /// Add a log error message that a closure gives; the closure is called
    /// only if there is an error.
    fn log_msg_with<F, V>(self, f: F) -> Result<T, RespErr> where F: FnOnce() -> V, Message: From<V>
        requires
            call_requires(f, ()),
    ;
}

impl<T> RespErrExt<T> for Result<T, RespErr> {
    fn user_msg<M>(self, message: M) -> (r: Result<T, RespErr>) where Message: From<M>
        ensures
            match self {
                Ok(t) => r == Ok::<T, RespErr>(t),
                Err(e) => r matches Err(x) && x.custom_response() is None && exists|m: Message|
                    #[trigger] call_ensures(Message::from, (message,), m)
                        && x@ == with_user_message(e@, m@),
            },
    {
        match self {
            Ok(t) => Ok(t),
            Err(e) => Err(e.user_msg(message)),
        }
    }

    fn log_msg<M>(self, error: M) -> (r: Result<T, RespErr>) where Message: From<M>
        ensures
            match self {
                Ok(t) => r == Ok::<T, RespErr>(t),
                Err(e) => r matches Err(x) && x.custom_response() == e.custom_response()
                    && exists|m: Message|
                    #[trigger] call_ensures(Message::from, (error,), m)
                        && x@ == with_log_message(e@, m@),
            },
    {
        match self {
            Ok(t) => Ok(t),
            Err(e) => Err(e.log_msg(error)),
        }
    }

    fn user_msg_with<F, V>(self, f: F) -> (r: Result<T, RespErr>) where F: FnOnce() -> V, Message: From<V>
        ensures
            match self {
                Ok(t) => r == Ok::<T, RespErr>(t),
                Err(e) => r matches Err(x) && x.custom_response() is None && exists|v: V, m: Message|
                    #[trigger] call_ensures(f, (), v) && #[trigger] call_ensures(Message::from, (v,), m)
                        && x@ == with_user_message(e@, m@),
            },
    {
        match self {
            Ok(t) => Ok(t),
            Err(e) => Err(e.user_msg_with(f)),
        }
    }

    fn log_msg_with<F, V>(self, f: F) -> (r: Result<T, RespErr>) where F: FnOnce() -> V, Message: From<V>
        ensures
            match self {
                Ok(t) => r == Ok::<T, RespErr>(t),
                Err(e) => r matches Err(x) && x.custom_response() == e.custom_response()
                    && exists|v: V, m: Message|
                    #[trigger] call_ensures(f, (), v) && #[trigger] call_ensures(Message::from, (v,), m)
                        && x@ == with_log_message(e@, m@),
            },
    {
        match self {
            Ok(t) => Ok(t),
            Err(e) => Err(e.log_msg_with(f)),
        }
    }
}


/// A second custom user message replaces the first.
pub proof fn law_user_msg_replaces(v: RespErrView, first: Seq<char>, second: Seq<char>)
    ensures
        with_user_message(with_user_message(v, first), second) == with_user_message(v, second),
{
}

/// Adding a user message and adding a log message commute.
pub proof fn law_user_msg_log_msg_commute(v: RespErrView, user: Seq<char>, log: Seq<char>)
    ensures
        with_user_message(with_log_message(v, log), user) == with_log_message(
            with_user_message(v, user),
            log,
        ),
{
}

/// The user message is shown first, and the backtrace is unchanged by it.
pub proof fn law_user_msg_heads_rendering(v: RespErrView, user: Seq<char>)
    ensures
        rendered(with_user_message(v, user)) == user + backtrace_lines(v.log, v.log.len()),
{
}

/// The first `k` lines never change when more lines are rendered.
proof fn lemma_backtrace_prefix(log: Seq<Seq<char>>, j: nat, k: nat)
    requires
        j <= k,
    ensures
        backtrace_lines(log, j).len() <= backtrace_lines(log, k).len(),
        backtrace_lines(log, k).take(backtrace_lines(log, j).len() as int) == backtrace_lines(log, j),
    decreases k,
{
    if j < k {
        lemma_backtrace_prefix(log, j, (k - 1) as nat);
        let a = backtrace_lines(log, (k - 1) as nat);
        let b = backtrace_line((k - 1) as nat, log[log.len() - 1 - (k - 1)]);
        assert((a + b).take(backtrace_lines(log, j).len() as int) =~= a.take(
            backtrace_lines(log, j).len() as int,
        ));
    } else {
        assert(backtrace_lines(log, k).take(backtrace_lines(log, k).len() as int) =~= backtrace_lines(log, k));
    }
}

/// Log messages form a backtrace, newest first: the message added last is
/// line 0, right after the message shown to the user, and the message on
/// line `i` before moves to line `i + 1`.
pub proof fn law_newest_log_msg_first(v: RespErrView, message: Seq<char>)
    ensures
        rendered(with_log_message(v, message)).take(
            (head_text(v).len() + backtrace_line(0, message).len()) as int,
        ) == head_text(v) + backtrace_line(0, message),
        forall|i: int|
            0 <= i < v.log.len() ==> #[trigger] with_log_message(v, message).log[v.log.len() - (i + 1)]
                == v.log[v.log.len() - 1 - i],
{
    let w = with_log_message(v, message);
    let log = w.log;
    lemma_backtrace_prefix(log, 1, log.len());
    assert(backtrace_lines(log, 0) =~= Seq::<char>::empty());
    assert(log[log.len() - 1] == message);
    assert(backtrace_lines(log, 1) =~= backtrace_line(0, message));
    let h = head_text(v);
    let t = backtrace_lines(log, log.len());
    assert(head_text(w) == h);
    assert((h + t).take((h.len() + backtrace_line(0, message).len()) as int) =~= h + t.take(
        backtrace_line(0, message).len() as int,
    ));
}


/// Log messages are never shown to the user: what the user is shown is the
/// same whatever the log holds.
pub proof fn law_log_not_shown(v: RespErrView, other_log: Seq<Seq<char>>)
    ensures
        head_text(v) == head_text(RespErrView { log: other_log, ..v }),
{
}

} // verus!
