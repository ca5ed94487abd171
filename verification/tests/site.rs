use pick_play::app_error::{AppError, AppNotification};
use pick_play::model::{
    book_page_chapters, confirm_chapter_open, confirm_user_access, unpublished_chapters, BookRole,
    Chapter, ChapterStats,
};
use pick_play::pages::{empty_chapters_message, leaderboard_rows, rank_suffix, recent_chapter, RankSuffix};
use pick_play::model::{BookRankingStats, BookSubscriptionStats};
use pick_play::player_ranking::{accuracy_class, mock_player_rankings, PlayerRanking};
use pick_play::resp_err::RespErr;
use pick_play::status::StatusCode;

fn code(n: u16) -> StatusCode {
    StatusCode::from_u16(n).unwrap()
}

fn chapter(id: i32, is_open: bool, is_visible: bool) -> Chapter {
    Chapter { chapter_id: id, book_id: 1, is_open, is_visible, title: format!("c{id}") }
}

fn stats(id: i32, is_visible: bool) -> ChapterStats {
    ChapterStats {
        id,
        title: format!("c{id}"),
        total_points: 10,
        user_points: 3,
        user_rank: 1,
        is_open: false,
        is_visible,
    }
}

#[test]
fn app_error_messages() {
    assert_eq!(AppError::BackendUser.to_string(), "No Backend User");
    assert_eq!(AppError::Unauthorized("not yours").to_string(), "Unauthorized: not yours");
    assert_eq!(AppError::Parse("bad id").to_string(), "Parsing: bad id");
    assert_eq!(AppError::Sqlx("gone".to_string()).to_string(), "Database Error: gone");
}

#[test]
fn app_error_replies() {
    let e = RespErr::from_app_error(AppError::BackendUser);
    assert_eq!(e.status(), code(500));
    assert_eq!(e.to_string(), "500 Internal Server Error\n  0: No Backend User");

    let e = RespErr::from_app_error(AppError::Unauthorized("nope"));
    assert_eq!(e.status(), code(401));
    assert_eq!(e.to_string(), "Unauthorized: nope\n  0: Unauthorized: nope");

    let e = RespErr::from_app_error(AppError::Parse("x"));
    assert_eq!(e.status(), code(400));
    assert_eq!(e.to_string(), "Parsing: x\n  0: Parsing: x");

    let e = RespErr::from_app_error(AppError::Sqlx("pool timed out".to_string()));
    assert_eq!(e.status(), code(500));
    assert_eq!(e.to_string(), "500 Internal Server Error\n  0: Database Error: pool timed out");
}

#[test]
fn notifications() {
    let setup = "alertify.set('notifier', 'position', 'top-center');";
    let n = AppNotification(code(200), "Saved".to_string());
    assert_eq!(n.script(), format!("{setup}alertify.success(\"Saved\");"));
    let n = AppNotification(code(409), "Taken".to_string());
    assert_eq!(n.script(), format!("{setup}alertify.error(\"Taken\");"));
    let n = AppNotification(code(503), "secret".to_string());
    assert_eq!(n.script(), format!("{setup}alertify.error('Our Fault! Please Try Again.');"));

    let n = AppNotification::from_app_error(AppError::Parse("bad"));
    assert_eq!(n.0, code(400));
    assert_eq!(n.1, "Parsing: bad");
    let n = AppNotification::from_resp_err(&RespErr::new(code(404)).log_msg("x"));
    assert_eq!(n.0, code(404));
    assert_eq!(n.1, "404 Not Found");
    let n = AppNotification::from_resp_err(&RespErr::new(code(400)).user_msg("Bad").log_msg("secret"));
    assert_eq!((n.0, n.1.as_str()), (code(400), "Bad"));
}

#[test]
fn chapter_access() {
    let visible = chapter(7, true, true);
    let hidden = chapter(7, true, false);
    assert!(confirm_user_access(&BookRole::Owner, &hidden));
    assert!(confirm_user_access(&BookRole::Admin, &hidden));
    assert!(confirm_user_access(&BookRole::Participant, &visible));
    assert!(!confirm_user_access(&BookRole::Participant, &hidden));
    let guest = BookRole::Guest { chapter_ids: vec![3, 7] };
    assert!(confirm_user_access(&guest, &visible));
    assert!(!confirm_user_access(&guest, &hidden));
    let other_guest = BookRole::Guest { chapter_ids: vec![3] };
    assert!(!confirm_user_access(&other_guest, &visible));
    assert!(!confirm_user_access(&BookRole::Unauthorized, &visible));
}

#[test]
fn closed_chapter_rejects_picks() {
    assert!(confirm_chapter_open(&chapter(1, true, true)).is_ok());
    let n = confirm_chapter_open(&chapter(1, false, true)).unwrap_err();
    assert_eq!(n.0, code(423));
    assert_eq!(n.1, "This chapter is closed");
}

#[test]
fn book_page_lists() {
    let chapters = vec![stats(1, true), stats(2, false), stats(3, true)];
    assert_eq!(book_page_chapters(&BookRole::Admin, &chapters), vec![0, 1, 2]);
    assert_eq!(book_page_chapters(&BookRole::Owner, &chapters), vec![0, 2]);
    assert_eq!(book_page_chapters(&BookRole::Participant, &chapters), vec![0, 2]);
    let guest = BookRole::Guest { chapter_ids: vec![2, 3] };
    assert_eq!(book_page_chapters(&guest, &chapters), vec![2]);
    assert_eq!(unpublished_chapters(&chapters), vec![1]);
    assert_eq!(guest.guest_chapters(), Some(vec![2, 3]));
    assert_eq!(BookRole::Participant.guest_chapters(), None);
    assert!(BookRole::Admin.is_admin());
    assert!(!BookRole::Owner.is_admin());
}

#[test]
fn rank_suffixes() {
    assert_eq!(rank_suffix(1, 1), None);
    assert_eq!(rank_suffix(1, 5), Some(RankSuffix::St));
    assert_eq!(rank_suffix(2, 5), Some(RankSuffix::Nd));
    assert_eq!(rank_suffix(3, 3), Some(RankSuffix::Rd));
    assert_eq!(rank_suffix(5, 5), Some(RankSuffix::Last));
    assert_eq!(rank_suffix(4, 5), Some(RankSuffix::Th));
    assert_eq!(RankSuffix::Last.text(), "Last");
    assert_eq!(RankSuffix::Nd.text(), "nd");
}

#[test]
fn recent_chapters() {
    let mut book = BookSubscriptionStats {
        id: 1,
        name: "b".to_string(),
        num_members: 2,
        rank: 1,
        user_points: 4,
        recent_chapter_id: Some(9),
        recent_chapter_title: Some("Week 9".to_string()),
        recent_chapter_is_open: Some(true),
    };
    let r = recent_chapter(&book).unwrap();
    assert_eq!((r.0, r.1.as_str(), r.2), (9, "Week 9", true));
    book.recent_chapter_is_open = None;
    assert!(recent_chapter(&book).is_none());
}

#[test]
fn leaderboard_ties_and_guests() {
    let row = |name: &str, added: i32, rank: i32| BookRankingStats {
        user_id: 1,
        username: name.to_string(),
        earned_points: 1,
        added_points: added,
        total_points: 1,
        rank,
    };
    let rows = leaderboard_rows(&[row("a", 0, 1), row("Guests", 3, 1), row("c", 0, 3)]);
    assert_eq!(rows[0].rank_label, Some(1));
    assert_eq!(rows[1].rank_label, None);
    assert!(rows[1].is_guest);
    assert!(rows[1].shows_added_points);
    assert_eq!(rows[2].rank_label, Some(3));
    assert!(!rows[2].is_guest);
    assert!(!rows[0].shows_added_points);
    assert_eq!(empty_chapters_message(None), "No chapters");
    assert_eq!(empty_chapters_message(Some("No Unpublished Chapters")), "No Unpublished Chapters");
}

#[test]
fn player_rankings() {
    let rankings = mock_player_rankings();
    assert_eq!(rankings.len(), 5);
    assert_eq!(rankings[0].name, "Alex Johnson");
    assert_eq!(rankings[0].avatar.as_deref(), Some("/abstract-letter-aj.png"));
    assert_eq!(rankings[4].score, 540);
    assert_eq!(rankings[3].correct_guesses, 2);
    assert_eq!(rankings[0].avatar_initials(), "A");
    let mut p: PlayerRanking = rankings[1].clone();
    p.name = "\u{df}e".to_string();
    assert_eq!(p.avatar_initials(), "SS");
    p.name = String::new();
    assert_eq!(p.avatar_initials(), "?");
    p.name = "zoe".to_string();
    assert_eq!(p.avatar_initials(), "Z");
    assert_eq!(accuracy_class(83), "text-green-600 bg-green-100");
    assert_eq!(accuracy_class(80), "text-green-600 bg-green-100");
    assert_eq!(accuracy_class(60), "text-yellow-600 bg-yellow-100");
    assert_eq!(accuracy_class(59), "text-red-600 bg-red-100");
}
