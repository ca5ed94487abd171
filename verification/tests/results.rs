use pick_play::chapter_results::{
    header_cells, picked_team, point_word_suffix, points_suffix, question_total, row_cells, spread_cell_class,
    spread_pick_class, spread_tallies, spread_tallies_checked, user_input_cell_class,
    user_input_mark, user_points, user_points_checked, ChapterPick, ChapterPickHash, ChapterPicks,
    Event, EventContent, HeaderCell, RowCell, Spread, UserInput,
};
use pick_play::model::ChapterUser;

fn user(id: i32) -> ChapterUser {
    ChapterUser { user_id: id, username: format!("u{id}"), total_points: 0, rank: 1 }
}

fn spread(answer: Option<&str>) -> Spread {
    Spread { home_id: 10, away_id: 20, answer: answer.map(|a| a.to_string()) }
}

fn strings(v: &[&str]) -> Vec<String> {
    v.iter().map(|s| s.to_string()).collect()
}

fn events() -> Vec<Event> {
    vec![
        Event {
            id: 1,
            contents: EventContent::SpreadGroup(vec![spread(Some("home")), spread(Some("away")), spread(None)]),
        },
        Event {
            id: 2,
            contents: EventContent::UserInput(UserInput {
                title: "MVP".to_string(),
                description: None,
                points: 3,
                acceptable_answers: Some(strings(&["Ann", "Bo"])),
            }),
        },
    ]
}

#[test]
fn picks_table() {
    let mut picks = ChapterPicks::new();
    let key = ChapterPickHash { event_id: 2, user_id: 5 };
    assert!(picks.get(&key).is_none());
    picks.insert(key, ChapterPick::UserInput { choice: "Ann".to_string(), wager: 1, points: None });
    picks.insert(key, ChapterPick::UserInput { choice: "Bo".to_string(), wager: 2, points: Some(2) });
    match picks.get(&key) {
        Some(ChapterPick::UserInput { choice, wager, .. }) => {
            assert_eq!(choice, "Bo");
            assert_eq!(*wager, 2);
        }
        _ => panic!("missing pick"),
    }
    assert!(picks.get(&ChapterPickHash { event_id: 5, user_id: 2 }).is_none());
}

#[test]
fn points_of_users() {
    let events = events();
    let mut picks = ChapterPicks::new();
    picks.insert(
        ChapterPickHash { event_id: 1, user_id: 1 },
        ChapterPick::SpreadGroup { choice: strings(&["home", "home", "away"]), wager: vec![1, 2, 3] },
    );
    picks.insert(
        ChapterPickHash { event_id: 2, user_id: 1 },
        ChapterPick::UserInput { choice: "Bo".to_string(), wager: 3, points: Some(3) },
    );
    picks.insert(
        ChapterPickHash { event_id: 2, user_id: 2 },
        ChapterPick::UserInput { choice: "Cy".to_string(), wager: 3, points: Some(0) },
    );
    assert_eq!(user_points(&user(1), &events, &picks), (2, 4));
    assert_eq!(user_points(&user(2), &events, &picks), (0, 4));
    assert_eq!(user_points(&user(3), &events, &picks), (0, 4));
    picks.insert(
        ChapterPickHash { event_id: 1, user_id: 3 },
        ChapterPick::UserInput { choice: "home".to_string(), wager: 1, points: None },
    );
    assert_eq!(user_points(&user(3), &events, &picks), (0, 1));
    picks.insert(
        ChapterPickHash { event_id: 1, user_id: 4 },
        ChapterPick::SpreadGroup { choice: strings(&["away", "away"]), wager: vec![1, 1] },
    );
    assert_eq!(user_points(&user(4), &events, &picks), (1, 4));
}

#[test]
fn wagers_on_a_game() {
    let events = events();
    let mut picks = ChapterPicks::new();
    picks.insert(
        ChapterPickHash { event_id: 1, user_id: 1 },
        ChapterPick::SpreadGroup { choice: strings(&["home", "home", "away"]), wager: vec![1, 2, 3] },
    );
    picks.insert(
        ChapterPickHash { event_id: 1, user_id: 2 },
        ChapterPick::SpreadGroup { choice: strings(&["away", "away", "home"]), wager: vec![4, 5, 6] },
    );
    let users = vec![user(1), user(2), user(3)];
    assert_eq!(spread_tallies(0, &events[0], &users, &picks), (5, 1));
    assert_eq!(spread_tallies(1, &events[0], &users, &picks), (7, 5));
    assert_eq!(spread_tallies(2, &events[0], &users, &picks), (9, 0));
}

#[test]
fn tile_and_cell_classes() {
    let home = "home".to_string();
    let away = "away".to_string();
    let s = spread(Some("home"));
    assert_eq!(picked_team(&home, &s), 10);
    assert_eq!(picked_team(&away, &s), 20);
    assert_eq!(spread_pick_class(&None, &home), "bg-gray-50");
    assert_eq!(spread_pick_class(&Some(home.clone()), &home), "bg-green-50 border-green-200");
    assert_eq!(spread_pick_class(&Some(away.clone()), &home), "bg-red-50 border-red-200");
    assert_eq!(spread_cell_class(&Some("push".to_string()), &home), "bg-orange-100 text-orange-800");
    assert_eq!(spread_cell_class(&Some("unpicked".to_string()), &home), "bg-gray-50");
    assert_eq!(spread_cell_class(&Some(home.clone()), &home), "bg-green-100 text-green-800");
    assert_eq!(spread_cell_class(&Some(away.clone()), &home), "bg-red-100 text-red-800");
    assert_eq!(spread_cell_class(&None, &home), "bg-gray-100");
    assert_eq!(user_input_cell_class(Some(3), 3), "bg-green-100 text-green-800");
    assert_eq!(user_input_cell_class(Some(0), 3), "bg-red-100 text-red-800");
    assert_eq!(user_input_cell_class(None, 3), "bg-gray-100");
    assert_eq!(user_input_mark(Some(0)), ("bg-red-50 border-red-200", "\u{2717}"));
    assert_eq!(user_input_mark(Some(2)), ("bg-green-50 border-green-200", "\u{2713}"));
    assert_eq!(user_input_mark(None), ("bg-gray-50", "?"));
    assert_eq!(points_suffix(1), "");
    assert_eq!(points_suffix(0), "s");
    assert_eq!(points_suffix(2), "s");
    assert_eq!(point_word_suffix(1), "");
    assert_eq!(point_word_suffix(2), "s");
}

#[test]
fn row_cells_per_event() {
    let events = events();
    let mut picks = ChapterPicks::new();
    picks.insert(
        ChapterPickHash { event_id: 1, user_id: 1 },
        ChapterPick::SpreadGroup { choice: strings(&["home", "home", "away"]), wager: vec![1, 2, 3] },
    );
    picks.insert(
        ChapterPickHash { event_id: 2, user_id: 1 },
        ChapterPick::UserInput { choice: "Bo".to_string(), wager: 3, points: None },
    );
    assert_eq!(
        row_cells(&events, 1, &picks),
        vec![
            RowCell::SpreadPick { event: 0, game: 0 },
            RowCell::SpreadPick { event: 0, game: 1 },
            RowCell::SpreadPick { event: 0, game: 2 },
            RowCell::InputPick { event: 1 },
        ]
    );
    assert_eq!(
        row_cells(&events, 2, &picks),
        vec![RowCell::SpreadNoPick, RowCell::SpreadNoPick, RowCell::SpreadNoPick, RowCell::InputNoPick]
    );
    picks.insert(
        ChapterPickHash { event_id: 2, user_id: 3 },
        ChapterPick::SpreadGroup { choice: strings(&["home"]), wager: vec![1] },
    );
    assert_eq!(
        row_cells(&events, 3, &picks),
        vec![RowCell::SpreadNoPick, RowCell::SpreadNoPick, RowCell::SpreadNoPick, RowCell::Mismatch]
    );
    assert!(row_cells(&[], 1, &picks).is_empty());
}

#[test]
fn checked_points_and_questions() {
    let events = events();
    assert_eq!(question_total(&events), Some(4));
    assert_eq!(question_total(&[]), Some(0));
    let mut picks = ChapterPicks::new();
    picks.insert(
        ChapterPickHash { event_id: 2, user_id: 1 },
        ChapterPick::UserInput { choice: "Ann".to_string(), wager: 3, points: None },
    );
    assert_eq!(user_points_checked(&user(1), &events, &picks), Some((1, 4)));
    assert_eq!(user_points_checked(&user(1), &events, &picks), Some(user_points(&user(1), &events, &picks)));
}

#[test]
fn score_of_concatenated_events() {
    let events = events();
    let mut picks = ChapterPicks::new();
    picks.insert(
        ChapterPickHash { event_id: 1, user_id: 1 },
        ChapterPick::SpreadGroup { choice: strings(&["home", "home", "away"]), wager: vec![1, 2, 3] },
    );
    picks.insert(
        ChapterPickHash { event_id: 2, user_id: 1 },
        ChapterPick::UserInput { choice: "Bo".to_string(), wager: 3, points: None },
    );
    let first = user_points(&user(1), &events[..1], &picks);
    let second = user_points(&user(1), &events[1..], &picks);
    let all = user_points(&user(1), &events, &picks);
    assert_eq!(all, (first.0 + second.0, first.1 + second.1));
    assert_eq!(all, (2, 4));
    assert_eq!(user_points(&user(1), &[], &picks), (0, 0));
}

#[test]
fn checked_tallies() {
    let events = events();
    let users = vec![user(1), user(2)];
    let mut picks = ChapterPicks::new();
    picks.insert(
        ChapterPickHash { event_id: 1, user_id: 1 },
        ChapterPick::SpreadGroup { choice: strings(&["home", "home", "away"]), wager: vec![5, 2, 3] },
    );
    picks.insert(
        ChapterPickHash { event_id: 1, user_id: 2 },
        ChapterPick::SpreadGroup { choice: strings(&["away", "away"]), wager: vec![4, 6, 1] },
    );
    assert_eq!(spread_tallies_checked(0, &events[0], &users, &picks), Some((9, 5)));
    assert_eq!(spread_tallies_checked(0, &events[0], &users, &picks), Some(spread_tallies(0, &events[0], &users, &picks)));
    assert_eq!(spread_tallies_checked(2, &events[0], &users, &picks), Some((4, 0)));
    assert_eq!(spread_tallies_checked(3, &events[0], &users, &picks), None);
    assert_eq!(spread_tallies_checked(0, &events[1], &users, &picks), None);
    let short = Event { id: 7, contents: EventContent::SpreadGroup(vec![spread(Some("home"))]) };
    picks.insert(ChapterPickHash { event_id: 7, user_id: 2 }, ChapterPick::SpreadGroup { choice: vec![], wager: vec![1] });
    assert_eq!(spread_tallies_checked(0, &short, &users, &picks), None);
    picks.insert(ChapterPickHash { event_id: 7, user_id: 1 }, ChapterPick::SpreadGroup { choice: strings(&["home"]), wager: vec![i32::MAX] });
    picks.insert(ChapterPickHash { event_id: 7, user_id: 2 }, ChapterPick::SpreadGroup { choice: strings(&["away"]), wager: vec![1] });
    assert_eq!(spread_tallies_checked(0, &short, &users, &picks), None);
    assert_eq!(spread_tallies_checked(0, &short, &users[..1], &picks), Some((i32::MAX, i32::MAX)));
}

#[test]
fn header_columns_match_rows() {
    let events = events();
    let header = header_cells(&events);
    assert_eq!(
        header,
        vec![
            HeaderCell::Game { event: 0, game: 0 },
            HeaderCell::Game { event: 0, game: 1 },
            HeaderCell::Game { event: 0, game: 2 },
            HeaderCell::Question { event: 1 },
        ]
    );
    let mut picks = ChapterPicks::new();
    picks.insert(
        ChapterPickHash { event_id: 2, user_id: 4 },
        ChapterPick::UserInput { choice: "Ann".to_string(), wager: 1, points: Some(1) },
    );
    assert_eq!(row_cells(&events, 4, &picks).len(), header.len());
    assert!(header_cells(&[]).is_empty());
}
