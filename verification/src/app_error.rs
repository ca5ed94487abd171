//! The errors of the site's handlers, and the notifications shown for them.
use vstd::prelude::*;
use crate::status::StatusCode;
use crate::resp_err::{RespErr, RespErrView, Shown, head_text};

verus! {

/// An error of a handler of the site.
#[derive(Debug)]
pub enum AppError<'a> {
    /// The session has no user.
    BackendUser,
    /// The user may not do what was asked.
    Unauthorized(&'a str),
    /// A value could not be parsed.
    Parse(&'a str),
    /// The database failed; holds the database error's message.
    Sqlx(String),
}

/// The message of an error.
pub open spec fn app_error_text(e: AppError) -> Seq<char> {
    match e {
        AppError::BackendUser => "No Backend User"@,
        AppError::Unauthorized(s) => "Unauthorized: "@ + s@,
        AppError::Parse(s) => "Parsing: "@ + s@,
        AppError::Sqlx(s) => "Database Error: "@ + s@,
    }
}

/// The status that an error answers with.
pub open spec fn app_error_status(e: AppError) -> u16 {
    match e {
        AppError::BackendUser => 500,
        AppError::Unauthorized(_) => 401,
        AppError::Parse(_) => 400,
        AppError::Sqlx(_) => 500,
    }
}

/// Whether the user is shown the error's message (otherwise the status).
pub open spec fn app_error_shown_to_user(e: AppError) -> bool {
    match e {
        AppError::Unauthorized(_) | AppError::Parse(_) => true,
        _ => false,
    }
}

impl<'a> AppError<'a> {
    /// The message of the error, such as `Unauthorized: not your book`.
    pub fn to_string(&self) -> (s: String)
        ensures
            s@ == app_error_text(*self),
    {
        match self {
            AppError::BackendUser => "No Backend User".to_string(),
            AppError::Unauthorized(s) => {
                let mut t = "Unauthorized: ".to_string();
                t.append(s);
                t
            },
            AppError::Parse(s) => {
                let mut t = "Parsing: ".to_string();
                t.append(s);
                t
            },
            AppError::Sqlx(s) => {
                let mut t = "Database Error: ".to_string();
                t.append(s.as_str());
                t
            },
        }
    }
}

/// The model of the error reply for a handler error.
pub open spec fn app_error_view(value: AppError) -> RespErrView {
    RespErrView {
        status: app_error_status(value),
        log: seq![app_error_text(value)],
        shown: if app_error_shown_to_user(value) {
            Shown::Custom(app_error_text(value))
        } else {
            Shown::Default
        },
    }
}

impl RespErr {
    /// The error reply for a handler error: a missing user and a database
    /// failure are a 500 that only the log explains; an unauthorized request
    /// (401) and a parse failure (400) show their message to the user too.
    pub fn from_app_error(value: AppError) -> (e: RespErr)
        ensures
            e@ == app_error_view(value),
            e.custom_response() is None,
    {
        let text = value.to_string();
        let e = match &value {
            AppError::BackendUser => RespErr::new(StatusCode::new(500)).log_msg(text),
            AppError::Unauthorized(_) => {
                let shown = text.clone();
                RespErr::new(StatusCode::new(401)).user_msg(shown).log_msg(text)
            },
            AppError::Parse(_) => {
                let shown = text.clone();
                RespErr::new(StatusCode::new(400)).user_msg(shown).log_msg(text)
            },
            AppError::Sqlx(_) => RespErr::new(StatusCode::new(500)).log_msg(text),
        };
        assert(e@.log =~= seq![app_error_text(value)]);
        e
    }
}

/// A notification popped up on the page: a status and a text.
#[derive(Debug)]
pub struct AppNotification(pub StatusCode, pub String);

/// The script that shows a notification: success shows the text, a server
/// error shows an apology, anything else shows the text as an error.
pub open spec fn notification_script(status: u16, text: Seq<char>) -> Seq<char> {
    let setup = "alertify.set('notifier', 'position', 'top-center');"@;
    if 200 <= status < 300 {
        setup + "alertify.success("@ + "\""@ + text + "\""@ + ");"@
    } else if 500 <= status < 600 {
        setup + "alertify.error('Our Fault! Please Try Again.');"@
    } else {
        setup + "alertify.error("@ + "\""@ + text + "\""@ + ");"@
    }
}

impl AppNotification {
    /// The script that shows the notification (see [`notification_script`]).
    pub fn script(&self) -> (s: String)
        ensures
            s@ == notification_script(self.0@, self.1@),
    {
        let mut s = "alertify.set('notifier', 'position', 'top-center');".to_string();
        if self.0.is_success() {
            s.append("alertify.success(");
            s.append("\"");
            s.append(self.1.as_str());
            s.append("\"");
            s.append(");");
        } else if self.0.is_server_error() {
            s.append("alertify.error('Our Fault! Please Try Again.');");
        } else {
            s.append("alertify.error(");
            s.append("\"");
            s.append(self.1.as_str());
            s.append("\"");
            s.append(");");
        }
        s
    }

    /// The notification for an error: its status, and what the user is shown
    /// of it (the custom message, or else the status with its reason phrase);
    /// the log messages stay out of it.
    pub fn from_resp_err(value: &RespErr) -> (n: AppNotification)
        ensures
            n.0@ == value@.status,
            n.1@ == head_text(value@),
    {
        AppNotification(value.status(), value.shown_text())
    }

    /// The notification for a handler error.
    pub fn from_app_error(value: AppError) -> (n: AppNotification)
        ensures
            n.0@ == app_error_status(value),
            n.1@ == head_text(app_error_view(value)),
    {
        let e = RespErr::from_app_error(value);
        AppNotification::from_resp_err(&e)
    }
}

/// A server error never shows its text to the user: the script is the same
/// whatever the text.
pub proof fn law_server_error_hides_text(status: u16, text: Seq<char>, other: Seq<char>)
    requires
        500 <= status < 600,
    ensures
        notification_script(status, text) == notification_script(status, other),
{
}

} // verus!
