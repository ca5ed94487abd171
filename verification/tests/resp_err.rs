use pick_play::resp_err::{Message, ReplyBody, RespErr, RespErrCtx, RespErrExt};
use pick_play::status::StatusCode;
use pick_play::tracing_level::{change_tracing_level, TracingLevel, TracingLevels};

fn code(n: u16) -> StatusCode {
    StatusCode::from_u16(n).unwrap()
}

#[test]
fn ok() {
    let res: Result<u64, &'static str> = Ok(42);
    let res = res.ctx(code(400));

    assert!(matches!(res, Ok(42)));
}

#[test]
fn err() {
    let res: Result<u64, &'static str> = Err("Ups!");
    let res = res.ctx(code(400)).map_err(|e| e.into_response());

    assert!(res.is_err_and(|e| e.status() == code(400)));
}

#[test]
fn err_as_log_msg() {
    let err_content = "Ups!";
    let res: Result<u64, &'static str> = Err(err_content);
    let res = res.ctx(code(400));

    let err = res.unwrap_err();
    assert_eq!(
        err.to_string(),
        format!("{}\n  0: {err_content}", http::StatusCode::BAD_REQUEST)
    );
}

#[test]
fn err_as_log_msg_with_additional_log_msg() {
    let err_content = "Ups!";
    let res: Result<u64, &'static str> = Err(err_content);
    let log_msg = "Nooo!";
    let res = res.ctx(code(400)).log_msg(log_msg);

    let err = res.unwrap_err();
    assert_eq!(
        err.to_string(),
        format!(
            "{}\n  0: {log_msg}\n  1: {err_content}",
            http::StatusCode::BAD_REQUEST,
        )
    );
}

#[test]
fn some_user_msg() {
    let opt = Some(42);
    let res = opt.ctx(code(500));

    assert!(matches!(res, Ok(42)));
}

#[test]
fn none() {
    let opt: Option<u64> = None;
    let res = opt.ctx(code(500)).map_err(|e| e.into_response());

    assert!(res.is_err_and(|e| e.status() == code(500)));
}

#[test]
fn default_user_msg() {
    let opt: Option<u64> = None;
    let res = opt.ctx(code(500));

    let err = res.unwrap_err();
    assert_eq!(
        err.to_string(),
        http::StatusCode::INTERNAL_SERVER_ERROR.to_string(),
    );
}

#[test]
fn custom_user_msg() {
    let opt: Option<u64> = None;
    let user_msg = "Missing number!";
    let res = opt.ctx(code(500)).user_msg(user_msg);
    let err = res.unwrap_err();

    assert_eq!(err.to_string(), user_msg);
}

#[test]
fn default_user_msg_with_one_log_msg() {
    let opt: Option<u64> = None;
    let log_msg = "Bug!";
    let res = opt.ctx(code(500)).log_msg(log_msg);

    let err = res.unwrap_err();
    assert_eq!(
        err.to_string(),
        format!("{}\n  0: {log_msg}", http::StatusCode::INTERNAL_SERVER_ERROR)
    );
}

#[test]
fn default_user_msg_with_two_log_msgs() {
    let opt: Option<u64> = None;
    let first_log_msg = "Bug!";
    let second_log_msg = "Bugs everywhere!";
    let res = opt
        .ctx(code(500))
        .log_msg(first_log_msg)
        .log_msg(second_log_msg);

    let err = res.unwrap_err();
    assert_eq!(
        err.to_string(),
        format!(
            "{}\n  0: {second_log_msg}\n  1: {first_log_msg}",
            http::StatusCode::INTERNAL_SERVER_ERROR,
        )
    );
}

#[test]
fn custom_user_msg_with_two_log_msgs() {
    let opt: Option<u64> = None;
    let user_msg = "Sorry!";
    let first_log_msg = "Bug!";
    let second_log_msg = "Bugs everywhere!";
    let res = opt
        .ctx(code(500))
        .user_msg(user_msg)
        .log_msg(first_log_msg)
        .log_msg(second_log_msg);

    let err = res.unwrap_err();
    assert_eq!(
        err.to_string(),
        format!("{user_msg}\n  0: {second_log_msg}\n  1: {first_log_msg}")
    );
}

#[test]
fn closures() {
    let opt: Option<u64> = None;
    let n = 42;
    let user_msg = || format!("Sorry for the {n}th bug!");
    let first_log_msg = || format!("{n} times!");
    let second_log_msg = ":(";
    let res = opt
        .ctx(code(500))
        .user_msg_with(user_msg)
        .log_msg_with(first_log_msg)
        .log_msg(second_log_msg);

    let err = res.unwrap_err();
    assert_eq!(
        err.to_string(),
        format!(
            "{}\n  0: {second_log_msg}\n  1: {}",
            user_msg(),
            first_log_msg(),
        )
    );
}

#[test]
fn closures_are_not_called_without_error() {
    let res: Result<u64, RespErr> = Ok(7);
    let res = res
        .user_msg_with(|| -> String { panic!("user message computed for a success") })
        .log_msg_with(|| -> &'static str { panic!("log message computed for a success") });
    assert!(matches!(res, Ok(7)));
}

#[test]
fn closure_messages_on_an_error() {
    let calls = std::cell::Cell::new(0);
    let err = RespErr::new(code(404))
        .user_msg_with(|| {
            calls.set(calls.get() + 1);
            "not here"
        })
        .log_msg_with(|| {
            calls.set(calls.get() + 1);
            format!("looked {} times", 3)
        });
    assert_eq!(calls.get(), 2);
    assert_eq!(err.to_string(), "not here\n  0: looked 3 times");
    let m = Message::from_fn(|| "lazy".to_string());
    assert_eq!(m.as_str(), "lazy");
}

#[test]
fn second_user_msg_replaces_first() {
    let err = RespErr::new(code(404)).user_msg("first").user_msg("second");
    assert_eq!(err.to_string(), "second");
}

#[test]
fn user_msg_after_log_msg_keeps_backtrace() {
    let a = RespErr::new(code(403)).log_msg("log").user_msg("shown");
    let b = RespErr::new(code(403)).user_msg("shown").log_msg("log");
    assert_eq!(a.to_string(), b.to_string());
    assert_eq!(a.to_string(), "shown\n  0: log");
}

#[test]
fn backtrace_numbers_past_nine() {
    let mut err = RespErr::new(code(500));
    for i in 0..12 {
        err = err.log_msg(format!("m{i}"));
    }
    let text = err.to_string();
    assert!(text.starts_with("500 Internal Server Error\n  0: m11\n  1: m10\n"));
    assert!(text.ends_with("\n  10: m1\n  11: m0"));
}

#[test]
fn ok_ignores_messages() {
    let res: Result<u8, RespErr> = Ok(7);
    let res = res.user_msg("never").log_msg("never");
    assert!(matches!(res, Ok(7)));
}

#[test]
fn unknown_status_reason() {
    let err = RespErr::new(code(599));
    assert_eq!(err.to_string(), "599 <unknown status code>");
    assert_eq!(code(599).to_string(), http::StatusCode::from_u16(599).unwrap().to_string());
}

#[test]
fn reply_bodies() {
    let reply = RespErr::new(code(404)).log_msg("gone").into_response();
    assert_eq!(reply.status(), code(404));
    assert_eq!(reply.log_line, "404 Not Found\n  0: gone");
    assert!(matches!(reply.body, ReplyBody::Text(ref t) if t == "404 Not Found"));

    let reply = RespErr::new(code(409)).user_msg("Taken").log_msg("dup").into_response();
    assert_eq!(reply.status(), code(409));
    assert_eq!(reply.log_line, "Taken\n  0: dup");
    assert!(matches!(reply.body, ReplyBody::Text(ref t) if t == "Taken"));
}

#[test]
fn custom_response_is_kept() {
    let response = axum_core::response::Response::new(axum_core::body::Body::empty());
    let res: Result<(), RespErr> = response.ctx(code(418));
    let err = res.unwrap_err();
    assert_eq!(err.to_string(), "");
    let err = err.log_msg("teapot");
    assert_eq!(err.to_string(), "\n  0: teapot");
    let reply = err.into_response();
    assert_eq!(reply.status(), code(418));
    assert!(matches!(reply.body, ReplyBody::Response(_)));
}

#[test]
fn status_codes() {
    assert!(StatusCode::from_u16(99).is_err());
    assert!(StatusCode::from_u16(1000).is_err());
    assert_eq!(code(100).as_u16(), 100);
    assert_eq!(code(999).as_u16(), 999);
    assert!(code(204).is_success());
    assert!(!code(300).is_success());
    assert!(code(503).is_server_error());
    assert!(code(404).is_client_error());
    assert_eq!(code(400).to_string(), "400 Bad Request");
}

#[test]
fn default_tracing_levels() {
    let levels = TracingLevels::new();
    assert_eq!(levels.len(), 1000);
    assert_eq!(levels.level_for(99), Some(TracingLevel::Trace));
    assert_eq!(levels.level_for(100), Some(TracingLevel::Debug));
    assert_eq!(levels.level_for(399), Some(TracingLevel::Debug));
    assert_eq!(levels.level_for(400), Some(TracingLevel::Info));
    assert_eq!(levels.level_for(499), Some(TracingLevel::Info));
    assert_eq!(levels.level_for(500), Some(TracingLevel::Error));
    assert_eq!(levels.level_for(599), Some(TracingLevel::Error));
    assert_eq!(levels.level_for(600), Some(TracingLevel::Trace));
    assert_eq!(levels.level_for(999), Some(TracingLevel::Trace));
    assert_eq!(levels.level_for(1000), None);
}

#[test]
fn changed_tracing_level() {
    let mut levels = TracingLevels::new();
    for status_code in 100..200 {
        change_tracing_level(&mut levels, status_code, TracingLevel::Info);
    }
    assert_eq!(levels.level_for(150), Some(TracingLevel::Info));
    assert_eq!(levels.level_for(200), Some(TracingLevel::Debug));
    change_tracing_level(&mut levels, 404, TracingLevel::Warn);
    assert_eq!(levels.level_for(404), Some(TracingLevel::Warn));
    assert_eq!(levels.level_for(403), Some(TracingLevel::Info));
}
