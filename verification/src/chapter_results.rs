//! The results of a closed chapter: the events, each user's picks, and what
//! the results page shows of them.
use vstd::prelude::*;
use crate::model::ChapterUser;
use std::collections::HashMap;

verus! {

/// A game of a spread group: the two teams and, once known, the answer
/// (`home`, `away`, `push` or `unpicked`).
#[derive(Debug, Clone)]
pub struct Spread {
    pub home_id: i32,
    pub away_id: i32,
    pub answer: Option<String>,
}

/// A free-text question.
#[derive(Debug, Clone)]
pub struct UserInput {
    pub title: String,
    pub description: Option<String>,
    pub points: i32,
    pub acceptable_answers: Option<Vec<String>>,
}

/// What an event asks.
#[derive(Debug, Clone)]
pub enum EventContent {
    SpreadGroup(Vec<Spread>),
    UserInput(UserInput),
}

/// An event of a chapter.
#[derive(Debug, Clone)]
pub struct Event {
    pub id: i32,
    pub contents: EventContent,
}

/// A user's pick for an event.
#[derive(Debug, Clone)]
pub enum ChapterPick {
    /// One choice (`home` or `away`) and one wager per game of the group.
    SpreadGroup { choice: Vec<String>, wager: Vec<i32> },
    /// The answer given, the wager, and the points awarded once graded.
    UserInput { choice: String, wager: i32, points: Option<i32> },
}

/// The key of a pick: the event and the user.
#[derive(Debug, Clone, Copy, PartialEq, Eq, Hash, Structural)]
pub struct ChapterPickHash {
    pub event_id: i32,
    pub user_id: i32,
}

/// The picks of a chapter, at most one for each event and user: by event,
/// then by user.
pub struct ChapterPicks {
    by_event: HashMap<i32, HashMap<i32, ChapterPick>>,
}

/// The key of a pick, as a pair of integers: the event, then the user.
pub open spec fn key_of(k: ChapterPickHash) -> (i32, i32) {
    (k.event_id, k.user_id)
}

impl View for ChapterPicks {
    type V = Map<(i32, i32), ChapterPick>;

    closed spec fn view(&self) -> Map<(i32, i32), ChapterPick> {
        Map::new(
            |k: (i32, i32)| self.by_event@.contains_key(k.0) && self.by_event@[k.0]@.contains_key(k.1),
            |k: (i32, i32)| self.by_event@[k.0]@[k.1],
        )
    }
}

impl ChapterPicks {
    /// No picks.
    pub fn new() -> (p: ChapterPicks)
        ensures
            p@ == Map::<(i32, i32), ChapterPick>::empty(),
    {
        let p = ChapterPicks { by_event: HashMap::new() };
        assert(p@ =~= Map::<(i32, i32), ChapterPick>::empty());
        p
    }

    /// The pick of a user for an event.
    pub fn get(&self, key: &ChapterPickHash) -> (r: Option<&ChapterPick>)
        ensures
            match r {
                Some(p) => self@.contains_key(key_of(*key)) && self@[key_of(*key)] == *p,
                None => !self@.contains_key(key_of(*key)),
            },
    {
        broadcast use vstd::std_specs::hash::group_hash_axioms;

        match self.by_event.get(&key.event_id) {
            Some(users) => users.get(&key.user_id),
            None => None,
        }
    }

    /// Record a pick, in place of the one the user had for the event.
    pub fn insert(&mut self, key: ChapterPickHash, pick: ChapterPick)
        ensures
            final(self)@ == old(self)@.insert(key_of(key), pick),
    {
        broadcast use vstd::std_specs::hash::group_hash_axioms;

        let ghost before = self@;
        let users = self.by_event.remove(&key.event_id);
        let mut users = match users {
            Some(u) => u,
            None => HashMap::new(),
        };
        users.insert(key.user_id, pick);
        self.by_event.insert(key.event_id, users);
        assert(self@ =~= before.insert(key_of(key), pick));
    }
}

/// The pick of a user for an event, if any.
pub open spec fn pick_for(picks: Map<(i32, i32), ChapterPick>, event_id: i32, user_id: i32) -> Option<ChapterPick> {
    if picks.contains_key((event_id, user_id)) {
        Some(picks[(event_id, user_id)])
    } else {
        None
    }
}

/// The game's answer is the choice.
pub open spec fn answer_is(answer: Option<String>, choice: String) -> bool {
    answer matches Some(a) && a@ == choice@
}

/// How many of the first `k` games were answered as chosen.
pub open spec fn correct_spreads(spreads: Seq<Spread>, choice: Seq<String>, k: nat) -> nat
    decreases k,
{
    if k == 0 {
        0
    } else {
        correct_spreads(spreads, choice, (k - 1) as nat) + if answer_is(
            spreads[k - 1].answer,
            choice[k - 1],
        ) {
            1nat
        } else {
            0nat
        }
    }
}

/// The smaller of two lengths.
pub open spec fn min_len(a: nat, b: nat) -> nat {
    if a <= b {
        a
    } else {
        b
    }
}

/// The answer is one of the acceptable answers.
pub open spec fn answer_accepted(answers: Option<Vec<String>>, choice: String) -> bool {
    answers matches Some(v) && lists_text(v@, choice@)
}

/// One of the texts is `t`.
pub open spec fn lists_text(texts: Seq<String>, t: Seq<char>) -> bool {
    exists|j: int| 0 <= j < texts.len() && #[trigger] texts[j]@ == t
}

/// The questions an event counts for: one per game of a spread group, one
/// for a free-text question.
pub open spec fn event_questions(e: Event) -> int {
    match e.contents {
        EventContent::SpreadGroup(spreads) => spreads@.len() as int,
        EventContent::UserInput(_) => 1,
    }
}

/// The correct answers and the questions counted for one event and pick: a
/// pick of another kind than the event counts for nothing.
pub open spec fn event_score(e: Event, pick: Option<ChapterPick>) -> (int, int) {
    match (e.contents, pick) {
        (EventContent::SpreadGroup(spreads), Some(ChapterPick::SpreadGroup { choice, wager: _ })) => (
            correct_spreads(spreads@, choice@, min_len(spreads@.len(), choice@.len())) as int,
            spreads@.len() as int,
        ),
        (EventContent::SpreadGroup(spreads), None) => (0, spreads@.len() as int),
        (EventContent::UserInput(_), None) => (0, 1),
        (EventContent::UserInput(input), Some(ChapterPick::UserInput { choice, wager: _, points: _ })) => (
            if answer_accepted(input.acceptable_answers, choice) {
                1
            } else {
                0
            },
            1,
        ),
        _ => (0, 0),
    }
}

/// A user's correct answers and questions over the events.
pub open spec fn user_score(events: Seq<Event>, picks: Map<(i32, i32), ChapterPick>, user_id: i32) -> (int, int)
    decreases events.len(),
{
    if events.len() == 0 {
        (0, 0)
    } else {
        let before = user_score(events.drop_last(), picks, user_id);
        let e = events.last();
        let here = event_score(e, pick_for(picks, e.id, user_id));
        (before.0 + here.0, before.1 + here.1)
    }
}

/// The questions of all events.
pub open spec fn question_count(events: Seq<Event>) -> int
    decreases events.len(),
{
    if events.len() == 0 {
        0
    } else {
        question_count(events.drop_last()) + event_questions(events.last())
    }
}

proof fn lemma_correct_spreads_bound(spreads: Seq<Spread>, choice: Seq<String>, k: nat)
    ensures
        correct_spreads(spreads, choice, k) <= k,
    decreases k,
{
    if k > 0 {
        lemma_correct_spreads_bound(spreads, choice, (k - 1) as nat);
    }
}

proof fn lemma_score_bounds(events: Seq<Event>, picks: Map<(i32, i32), ChapterPick>, user_id: i32)
    ensures
        0 <= user_score(events, picks, user_id).0 <= user_score(events, picks, user_id).1 <= question_count(events),
        0 <= question_count(events),
    decreases events.len(),
{
    if events.len() > 0 {
        lemma_score_bounds(events.drop_last(), picks, user_id);
        let e = events.last();
        match e.contents {
            EventContent::SpreadGroup(spreads) => {
                match pick_for(picks, e.id, user_id) {
                    Some(ChapterPick::SpreadGroup { choice, wager: _ }) => {
                        lemma_correct_spreads_bound(spreads@, choice@, min_len(spreads@.len(), choice@.len()));
                    },
                    _ => {},
                }
            },
            _ => {},
        }
    }
}

proof fn lemma_question_count_prefix(events: Seq<Event>, k: int)
    requires
        0 <= k <= events.len(),
    ensures
        question_count(events.take(k)) <= question_count(events),
    decreases events.len(),
{
    if k < events.len() {
        lemma_question_count_prefix(events.drop_last(), k);
        assert(events.drop_last().take(k) =~= events.take(k));
        lemma_score_bounds(seq![events.last()], Map::empty(), 0);
        assert(seq![events.last()].drop_last() =~= Seq::<Event>::empty());
    } else {
        assert(events.take(k) =~= events);
    }
}

/// Whether `answers` lists `choice`.
fn accepted(answers: &Option<Vec<String>>, choice: &String) -> (b: bool)
    ensures
        b == answer_accepted(*answers, *choice),
{
    match answers {
        Some(v) => {
            let mut j: usize = 0;
            while j < v.len()
                invariant
                    j <= v@.len(),
                    *answers == Some(*v),
                    forall|i: int| 0 <= i < j ==> v@[i]@ != choice@,
                decreases v@.len() - j,
            {
                if v[j].eq(choice) {
                    assert(v@[j as int]@ == choice@);
                    assert(lists_text(v@, choice@));
                    return true;
                }
                j += 1;
            }
            false
        },
        None => false,
    }
}

/// Whether a game's answer is the choice.
fn answer_matches(answer: &Option<String>, choice: &String) -> (b: bool)
    ensures
        b == answer_is(*answer, *choice),
{
    match answer {
        Some(a) => a.eq(choice),
        None => false,
    }
}

/// The correct answers of a spread-group pick, game by game.
fn count_correct_spreads(spreads: &Vec<Spread>, choice: &Vec<String>) -> (n: usize)
    ensures
        n == correct_spreads(spreads@, choice@, min_len(spreads@.len(), choice@.len())),
        n <= spreads@.len(),
{
    let len = if spreads.len() <= choice.len() {
        spreads.len()
    } else {
        choice.len()
    };
    let mut n: usize = 0;
    let mut j: usize = 0;
    while j < len
        invariant
            j <= len,
            len == min_len(spreads@.len(), choice@.len()),
            n == correct_spreads(spreads@, choice@, j as nat),
            n <= j,
        decreases len - j,
    {
        if answer_matches(&spreads[j].answer, &choice[j]) {
            n += 1;
        }
        j += 1;
    }
    n
}

/// A user's correct answers and the number of questions, over the events
/// of a chapter: every game of a spread group and every free-text question
/// counts, picked or not; a game is correct when its answer is the choice,
/// a free-text answer when it is one of the acceptable answers.
pub fn user_points(user: &ChapterUser, events: &[Event], user_picks: &ChapterPicks) -> (r: (i32, i32))
    requires
        question_count(events@) <= i32::MAX,
    ensures
        r.0 as int == user_score(events@, user_picks@, user.user_id).0,
        r.1 as int == user_score(events@, user_picks@, user.user_id).1,
{
    let mut correct: i32 = 0;
    let mut total: i32 = 0;
    let mut k: usize = 0;
    while k < events.len()
        invariant
            k <= events@.len(),
            question_count(events@) <= i32::MAX,
            correct as int == user_score(events@.take(k as int), user_picks@, user.user_id).0,
            total as int == user_score(events@.take(k as int), user_picks@, user.user_id).1,
        decreases events@.len() - k,
    {
        let event = &events[k];
        let ghost prefix = events@.take((k + 1) as int);
        proof {
            assert(prefix.drop_last() =~= events@.take(k as int));
            assert(prefix.last() == events@[k as int]);
            lemma_question_count_prefix(events@, (k + 1) as int);
            lemma_score_bounds(prefix, user_picks@, user.user_id);
            lemma_score_bounds(events@.take(k as int), user_picks@, user.user_id);
        }
        let user_pick = user_picks.get(&ChapterPickHash { event_id: event.id, user_id: user.user_id });
        let ghost here = event_score(*event, pick_for(user_picks@, event.id, user.user_id));
        proof {
            assert(user_pick matches Some(p) ==> pick_for(user_picks@, event.id, user.user_id) == Some(*p));
            assert(user_pick is None ==> pick_for(user_picks@, event.id, user.user_id) is None);
            assert(user_score(prefix, user_picks@, user.user_id).1 == total + here.1);
            assert(user_score(prefix, user_picks@, user.user_id).0 == correct + here.0);
        }
        match (&event.contents, user_pick) {
            (EventContent::SpreadGroup(spreads), Some(ChapterPick::SpreadGroup { choice, .. })) => {
                assert(here.1 == spreads@.len());
                let n = count_correct_spreads(spreads, choice);
                assert(here.0 == n as int);
                correct = correct + n as i32;
                total = total + spreads.len() as i32;
            },
            (EventContent::SpreadGroup(spreads), None) => {
                assert(here.1 == spreads@.len());
                total = total + spreads.len() as i32;
            },
            (EventContent::UserInput(_), None) => {
                assert(here == (0int, 1int));
                total = total + 1;
            },
            (EventContent::UserInput(input), Some(ChapterPick::UserInput { choice, .. })) => {
                assert(here.1 == 1);
                if accepted(&input.acceptable_answers, choice) {
                    correct = correct + 1;
                }
                total = total + 1;
            },
            _ => {
                assert(here == (0int, 0int));
            },
        }
        k += 1;
    }
    assert(events@.take(events@.len() as int) =~= events@);
    (correct, total)
}


/// Whether a text is the given word.
fn is_word(text: &String, word: &str) -> (b: bool)
    ensures
        b == (text@ == word@),
{
    proof {
        broadcast use vstd::string::group_string_axioms;
    }
    let w = word.to_string();
    text.eq(&w)
}

/// The team a spread pick names: the home team for `home`, the away team
/// for `away`.
pub fn picked_team(choice: &String, spread: &Spread) -> (team: i32)
    requires
        choice@ == "home"@ || choice@ == "away"@,
    ensures
        choice@ == "home"@ ==> team == spread.home_id,
        choice@ == "away"@ ==> team == spread.away_id,
{
    proof {
        reveal_strlit("home");
        reveal_strlit("away");
        assert("home"@[0] != "away"@[0]);
    }
    if is_word(choice, "home") {
        spread.home_id
    } else {
        spread.away_id
    }
}

/// The background of a user's row on a game's tile: gray until the game is
/// answered, then green for a right pick and red for a wrong one.
pub fn spread_pick_class(answer: &Option<String>, choice: &String) -> (c: &'static str)
    ensures
        c@ == (if answer is None {
            "bg-gray-50"@
        } else if answer_is(*answer, *choice) {
            "bg-green-50 border-green-200"@
        } else {
            "bg-red-50 border-red-200"@
        }),
{
    if answer.is_none() {
        "bg-gray-50"
    } else if answer_matches(answer, choice) {
        "bg-green-50 border-green-200"
    } else {
        "bg-red-50 border-red-200"
    }
}

/// The colours of a game's cell in the results table: orange for a push,
/// light gray for a game nobody picked, green for a right pick, red for a
/// wrong one, gray before the game is answered.
pub fn spread_cell_class(answer: &Option<String>, choice: &String) -> (c: &'static str)
    ensures
        c@ == (match *answer {
            Some(a) => if a@ == "push"@ {
                "bg-orange-100 text-orange-800"@
            } else if a@ == "unpicked"@ {
                "bg-gray-50"@
            } else if a@ == choice@ {
                "bg-green-100 text-green-800"@
            } else {
                "bg-red-100 text-red-800"@
            },
            None => "bg-gray-100"@,
        }),
{
    match answer {
        Some(a) => if is_word(a, "push") {
            "bg-orange-100 text-orange-800"
        } else if is_word(a, "unpicked") {
            "bg-gray-50"
        } else if a.eq(choice) {
            "bg-green-100 text-green-800"
        } else {
            "bg-red-100 text-red-800"
        },
        None => "bg-gray-100",
    }
}

/// The colours of a free-text cell in the results table: green when the
/// points awarded equal the wager, red when they do not, gray before grading.
pub fn user_input_cell_class(points: Option<i32>, wager: i32) -> (c: &'static str)
    ensures
        c@ == (match points {
            Some(p) => if p == wager {
                "bg-green-100 text-green-800"@
            } else {
                "bg-red-100 text-red-800"@
            },
            None => "bg-gray-100"@,
        }),
{
    match points {
        Some(p) => if p == wager {
            "bg-green-100 text-green-800"
        } else {
            "bg-red-100 text-red-800"
        },
        None => "bg-gray-100",
    }
}

/// The look of a user's row on a free-text tile, with its mark: no points
/// is wrong, other points are right, ungraded is unknown.
pub fn user_input_mark(points: Option<i32>) -> (r: (&'static str, &'static str))
    ensures
        r.0@ == (match points {
            Some(0) => "bg-red-50 border-red-200"@,
            Some(_) => "bg-green-50 border-green-200"@,
            None => "bg-gray-50"@,
        }),
        r.1@ == (match points {
            Some(0) => "\u{2717}"@,
            Some(_) => "\u{2713}"@,
            None => "?"@,
        }),
{
    match points {
        Some(0) => ("bg-red-50 border-red-200", "\u{2717}"),
        Some(_) => ("bg-green-50 border-green-200", "\u{2713}"),
        None => ("bg-gray-50", "?"),
    }
}

/// The plural ending after a user's total points: none for exactly one.
pub fn points_suffix(total_points: i32) -> (s: &'static str)
    ensures
        s@ == (if total_points != 1 {
            "s"@
        } else {
            ""@
        }),
{
    if total_points != 1 {
        "s"
    } else {
        ""
    }
}

/// The plural ending after a question's worth: only above one point.
pub fn point_word_suffix(points: i32) -> (s: &'static str)
    ensures
        s@ == (if points > 1 {
            "s"@
        } else {
            ""@
        }),
{
    if points > 1 {
        "s"
    } else {
        ""
    }
}

/// The wager a user put on game `index` of an event (0 without a spread pick).
pub open spec fn user_wager(picks: Map<(i32, i32), ChapterPick>, e: Event, user_id: i32, index: int) -> int {
    match pick_for(picks, e.id, user_id) {
        Some(ChapterPick::SpreadGroup { choice: _, wager }) => wager@[index] as int,
        _ => 0,
    }
}

/// The wager a user won on game `index`: the wager when the game's answer
/// is the user's choice.
pub open spec fn user_award(picks: Map<(i32, i32), ChapterPick>, e: Event, user_id: i32, index: int) -> int {
    match (pick_for(picks, e.id, user_id), e.contents) {
        (Some(ChapterPick::SpreadGroup { choice, wager }), EventContent::SpreadGroup(spreads)) =>
            if answer_is(spreads@[index].answer, choice@[index]) {
                wager@[index] as int
            } else {
                0
            },
        _ => 0,
    }
}

/// The wagers and winnings of the users on game `index`.
pub open spec fn wager_totals(
    users: Seq<ChapterUser>,
    picks: Map<(i32, i32), ChapterPick>,
    e: Event,
    index: int,
) -> (int, int)
    decreases users.len(),
{
    if users.len() == 0 {
        (0, 0)
    } else {
        let before = wager_totals(users.drop_last(), picks, e, index);
        let u = users.last().user_id;
        (before.0 + user_wager(picks, e, u, index), before.1 + user_award(picks, e, u, index))
    }
}

/// Every spread pick for the event has a wager for game `index`, and a
/// choice for it once the game is answered.
pub open spec fn picks_cover_game(picks: Map<(i32, i32), ChapterPick>, e: Event, users: Seq<ChapterUser>, index: int) -> bool {
    forall|k: int|
        0 <= k < users.len() ==> match #[trigger] pick_for(picks, e.id, users[k].user_id) {
            Some(ChapterPick::SpreadGroup { choice, wager }) => index < wager@.len() && (match e.contents {
                EventContent::SpreadGroup(spreads) => spreads@[index].answer is Some ==> index < choice@.len(),
                _ => true,
            }),
            _ => true,
        }
}

/// The points wagered on game `index` of a spread group, and the points
/// awarded for it, summed over the users.
pub fn spread_tallies(index: usize, event: &Event, users: &[ChapterUser], user_picks: &ChapterPicks) -> (r: (i32, i32))
    requires
        event.contents matches EventContent::SpreadGroup(spreads) && index < spreads@.len(),
        picks_cover_game(user_picks@, *event, users@, index as int),
        tallies_fit(users@, user_picks@, *event, index as int),
    ensures
        r.0 as int == wager_totals(users@, user_picks@, *event, index as int).0,
        r.1 as int == wager_totals(users@, user_picks@, *event, index as int).1,
{
    let mut points_wagered: i32 = 0;
    let mut points_awarded: i32 = 0;
    let mut k: usize = 0;
    while k < users.len()
        invariant
            k <= users@.len(),
            event.contents matches EventContent::SpreadGroup(spreads) && index < spreads@.len(),
            picks_cover_game(user_picks@, *event, users@, index as int),
            forall|j: int|
                0 <= j <= users@.len() ==> i32::MIN <= #[trigger] wager_totals(users@.take(j), user_picks@, *event, index as int).0 <= i32::MAX
                    && i32::MIN <= wager_totals(users@.take(j), user_picks@, *event, index as int).1 <= i32::MAX,
            points_wagered as int == wager_totals(users@.take(k as int), user_picks@, *event, index as int).0,
            points_awarded as int == wager_totals(users@.take(k as int), user_picks@, *event, index as int).1,
        decreases users@.len() - k,
    {
        let user = &users[k];
        let ghost prefix = users@.take((k + 1) as int);
        proof {
            assert(prefix.drop_last() =~= users@.take(k as int));
            assert(prefix.last() == users@[k as int]);
            let _ = wager_totals(prefix, user_picks@, *event, index as int);
            let _ = pick_for(user_picks@, event.id, users@[k as int].user_id);
        }
        let user_pick = user_picks.get(&ChapterPickHash { event_id: event.id, user_id: user.user_id });
        proof {
            assert(user_pick matches Some(p) ==> pick_for(user_picks@, event.id, user.user_id) == Some(*p));
            assert(user_pick is None ==> pick_for(user_picks@, event.id, user.user_id) is None);
        }
        if let Some(ChapterPick::SpreadGroup { choice, wager }) = user_pick {
            assert(user_wager(user_picks@, *event, user.user_id, index as int) == wager@[index as int]);
            assert(wager_totals(prefix, user_picks@, *event, index as int).0 == points_wagered + wager@[index as int]);
            points_wagered = points_wagered + wager[index];
            match &event.contents {
                EventContent::SpreadGroup(spreads) => {
                    let won = match &spreads[index].answer {
                        Some(ans) => ans.eq(&choice[index]),
                        None => false,
                    };
                    if won {
                        points_awarded = points_awarded + wager[index];
                    }
                },
                _ => {},
            }
        }
        k += 1;
    }
    assert(users@.take(users@.len() as int) =~= users@);
    (points_wagered, points_awarded)
}


/// The number of questions of the events, if it fits in an `i32`.
pub fn question_total(events: &[Event]) -> (r: Option<i32>)
    ensures
        match r {
            Some(n) => n as int == question_count(events@),
            None => question_count(events@) > i32::MAX,
        },
{
    let mut total: i32 = 0;
    let mut k: usize = 0;
    while k < events.len()
        invariant
            k <= events@.len(),
            total as int == question_count(events@.take(k as int)),
            0 <= total,
        decreases events@.len() - k,
    {
        let ghost prefix = events@.take((k + 1) as int);
        proof {
            assert(prefix.drop_last() =~= events@.take(k as int));
            assert(prefix.last() == events@[k as int]);
        }
        let q: usize = match &events[k].contents {
            EventContent::SpreadGroup(spreads) => spreads.len(),
            EventContent::UserInput(_) => 1,
        };
        assert(q as int == event_questions(events@[k as int]));
        let room: i32 = i32::MAX - total;
        if q > room as usize {
            proof {
                lemma_question_count_prefix(events@, (k + 1) as int);
            }
            return None;
        }
        total = total + q as i32;
        k += 1;
    }
    assert(events@.take(events@.len() as int) =~= events@);
    Some(total)
}

/// A user's correct answers and questions (see [`user_points`]), or `None`
/// where the number of questions does not fit in an `i32`.
pub fn user_points_checked(user: &ChapterUser, events: &[Event], user_picks: &ChapterPicks) -> (r: Option<(i32, i32)>)
    ensures
        match r {
            Some(p) => p.0 as int == user_score(events@, user_picks@, user.user_id).0
                && p.1 as int == user_score(events@, user_picks@, user.user_id).1,
            None => question_count(events@) > i32::MAX,
        },
{
    match question_total(events) {
        Some(_) => Some(user_points(user, events, user_picks)),
        None => None,
    }
}

/// The sums of game `index` fit in an `i32` at every user.
pub open spec fn tallies_fit(users: Seq<ChapterUser>, picks: Map<(i32, i32), ChapterPick>, e: Event, index: int) -> bool {
    forall|k: int|
        0 <= k <= users.len() ==> i32::MIN <= #[trigger] wager_totals(users.take(k), picks, e, index).0 <= i32::MAX
            && i32::MIN <= wager_totals(users.take(k), picks, e, index).1 <= i32::MAX
}

/// The points wagered on and awarded for game `index` (see
/// [`spread_tallies`]), or `None` where the event is no spread group with
/// such a game, a pick lacks the wager or the choice for it, or a sum does
/// not fit in an `i32`.
pub fn spread_tallies_checked(index: usize, event: &Event, users: &[ChapterUser], user_picks: &ChapterPicks) -> (r: Option<(i32, i32)>)
    ensures
        r is Some <==> (event.contents matches EventContent::SpreadGroup(spreads) && index < spreads@.len()
            && picks_cover_game(user_picks@, *event, users@, index as int)
            && tallies_fit(users@, user_picks@, *event, index as int)),
        r matches Some(t) ==> t.0 as int == wager_totals(users@, user_picks@, *event, index as int).0
            && t.1 as int == wager_totals(users@, user_picks@, *event, index as int).1,
{
    let spreads = match &event.contents {
        EventContent::SpreadGroup(spreads) => spreads,
        EventContent::UserInput(_) => return None,
    };
    if index >= spreads.len() {
        return None;
    }
    let ghost idx = index as int;
    let mut points_wagered: i32 = 0;
    let mut points_awarded: i32 = 0;
    let mut k: usize = 0;
    assert(users@.take(0) =~= Seq::<ChapterUser>::empty());
    while k < users.len()
        invariant
            k <= users@.len(),
            event.contents == EventContent::SpreadGroup(*spreads),
            idx == index,
            index < spreads@.len(),
            forall|j: int| 0 <= j <= k ==> i32::MIN <= #[trigger] wager_totals(users@.take(j), user_picks@, *event, idx).0 <= i32::MAX
                && i32::MIN <= wager_totals(users@.take(j), user_picks@, *event, idx).1 <= i32::MAX,
            forall|j: int| 0 <= j < k ==> match #[trigger] pick_for(user_picks@, event.id, users@[j].user_id) {
                Some(ChapterPick::SpreadGroup { choice, wager }) => idx < wager@.len()
                    && (spreads@[idx].answer is Some ==> idx < choice@.len()),
                _ => true,
            },
            points_wagered as int == wager_totals(users@.take(k as int), user_picks@, *event, idx).0,
            points_awarded as int == wager_totals(users@.take(k as int), user_picks@, *event, idx).1,
        decreases users@.len() - k,
    {
        let user = &users[k];
        let ghost prefix = users@.take((k + 1) as int);
        proof {
            assert(prefix.drop_last() =~= users@.take(k as int));
            assert(prefix.last() == users@[k as int]);
            let _ = wager_totals(prefix, user_picks@, *event, idx);
        }
        let user_pick = user_picks.get(&ChapterPickHash { event_id: event.id, user_id: user.user_id });
        let ghost pick = pick_for(user_picks@, event.id, users@[k as int].user_id);
        proof {
            assert(user_pick matches Some(p) ==> pick == Some(*p));
            assert(user_pick is None ==> pick is None);
        }
        if let Some(ChapterPick::SpreadGroup { choice, wager }) = user_pick {
            if index >= wager.len() || (spreads[index].answer.is_some() && index >= choice.len()) {
                assert(!picks_cover_game(user_picks@, *event, users@, idx));
                return None;
            }
            let won = match &spreads[index].answer {
                Some(ans) => ans.eq(&choice[index]),
                None => false,
            };
            assert(won == answer_is(spreads@[idx].answer, choice@[idx]));
            let w = wager[index];
            let award: i32 = if won { w } else { 0 };
            assert(wager_totals(prefix, user_picks@, *event, idx).0 == points_wagered + w);
            assert(wager_totals(prefix, user_picks@, *event, idx).1 == points_awarded + award);
            match (points_wagered.checked_add(w), points_awarded.checked_add(award)) {
                (Some(a), Some(b)) => {
                    points_wagered = a;
                    points_awarded = b;
                },
                _ => {
                    assert(!tallies_fit(users@, user_picks@, *event, idx));
                    return None;
                },
            }
        } else {
            assert(wager_totals(prefix, user_picks@, *event, idx).0 == points_wagered);
            assert(wager_totals(prefix, user_picks@, *event, idx).1 == points_awarded);
        }
        k += 1;
    }
    assert(users@.take(users@.len() as int) =~= users@);
    assert(picks_cover_game(user_picks@, *event, users@, idx));
    Some((points_wagered, points_awarded))
}

/// A cell of a user's row in the results table.
#[derive(Debug, Clone, Copy, PartialEq, Eq, Structural)]
pub enum RowCell {
    /// Game `game` of event `event`, a spread group that the user picked.
    SpreadPick { event: usize, game: usize },
    /// A game of a spread group that the user did not pick.
    SpreadNoPick,
    /// The user's answer to event `event`, a free-text question.
    InputPick { event: usize },
    /// A free-text question that the user did not answer.
    InputNoPick,
    /// A pick of another kind than its event.
    Mismatch,
}

/// The cells of one event, the `index`-th, in a user's row: one per game of
/// a spread group, one for a free-text question, and one marking a pick of
/// the wrong kind.
pub open spec fn event_cells(e: Event, index: int, pick: Option<ChapterPick>) -> Seq<RowCell> {
    match (e.contents, pick) {
        (EventContent::SpreadGroup(spreads), Some(ChapterPick::SpreadGroup { choice: _, wager: _ })) =>
            Seq::new(spreads@.len(), |g: int| RowCell::SpreadPick { event: index as usize, game: g as usize }),
        (EventContent::SpreadGroup(spreads), None) => Seq::new(spreads@.len(), |g: int| RowCell::SpreadNoPick),
        (EventContent::UserInput(_), Some(ChapterPick::UserInput { choice: _, wager: _, points: _ })) =>
            seq![RowCell::InputPick { event: index as usize }],
        (EventContent::UserInput(_), None) => seq![RowCell::InputNoPick],
        _ => seq![RowCell::Mismatch],
    }
}

/// The cells of a user's row after the name, event by event.
pub open spec fn row_cells_of(events: Seq<Event>, picks: Map<(i32, i32), ChapterPick>, user_id: i32) -> Seq<RowCell>
    decreases events.len(),
{
    if events.len() == 0 {
        Seq::empty()
    } else {
        let e = events.last();
        row_cells_of(events.drop_last(), picks, user_id) + event_cells(
            e,
            events.len() - 1,
            pick_for(picks, e.id, user_id),
        )
    }
}

/// The cells of a user's row in the results table, after the name: for each
/// event, the games of a picked spread group, or as many "no pick" cells; the
/// answer to a question, or one "no pick" cell; an error cell where the pick
/// is of another kind than the event.
pub fn row_cells(events: &[Event], user_id: i32, user_picks: &ChapterPicks) -> (cells: Vec<RowCell>)
    ensures
        cells@ == row_cells_of(events@, user_picks@, user_id),
{
    let mut cells: Vec<RowCell> = Vec::new();
    let mut k: usize = 0;
    while k < events.len()
        invariant
            k <= events@.len(),
            cells@ == row_cells_of(events@.take(k as int), user_picks@, user_id),
        decreases events@.len() - k,
    {
        let event = &events[k];
        let ghost before = cells@;
        let ghost prefix = events@.take((k + 1) as int);
        proof {
            assert(prefix.drop_last() =~= events@.take(k as int));
            assert(prefix.last() == events@[k as int]);
        }
        let user_pick = user_picks.get(&ChapterPickHash { event_id: event.id, user_id });
        let ghost pick = pick_for(user_picks@, event.id, user_id);
        proof {
            assert(user_pick matches Some(p) ==> pick == Some(*p));
            assert(user_pick is None ==> pick is None);
        }
        let ghost here = event_cells(*event, k as int, pick);
        match (&event.contents, user_pick) {
            (EventContent::SpreadGroup(spreads), Some(ChapterPick::SpreadGroup { .. })) => {
                let mut g: usize = 0;
                while g < spreads.len()
                    invariant
                        g <= spreads@.len(),
                        here.len() == spreads@.len(),
                        forall|j: int| 0 <= j < spreads@.len() ==> #[trigger] here[j] == (RowCell::SpreadPick { event: k, game: j as usize }),
                        cells@ == before + here.take(g as int),
                    decreases spreads@.len() - g,
                {
                    cells.push(RowCell::SpreadPick { event: k, game: g });
                    assert(here.take((g + 1) as int) =~= here.take(g as int).push(here[g as int]));
                    g += 1;
                }
            },
            (EventContent::SpreadGroup(spreads), None) => {
                let mut g: usize = 0;
                while g < spreads.len()
                    invariant
                        g <= spreads@.len(),
                        here.len() == spreads@.len(),
                        forall|j: int| 0 <= j < spreads@.len() ==> #[trigger] here[j] == RowCell::SpreadNoPick,
                        cells@ == before + here.take(g as int),
                    decreases spreads@.len() - g,
                {
                    cells.push(RowCell::SpreadNoPick);
                    assert(here.take((g + 1) as int) =~= here.take(g as int).push(here[g as int]));
                    g += 1;
                }
            },
            (EventContent::UserInput(_), Some(ChapterPick::UserInput { .. })) => {
                cells.push(RowCell::InputPick { event: k });
            },
            (EventContent::UserInput(_), None) => {
                cells.push(RowCell::InputNoPick);
            },
            _ => {
                cells.push(RowCell::Mismatch);
            },
        }
        assert(here.take(here.len() as int) =~= here);
        assert(cells@ =~= row_cells_of(prefix, user_picks@, user_id));
        k += 1;
    }
    assert(events@.take(events@.len() as int) =~= events@);
    cells
}


/// A column of the results table after the players' column.
#[derive(Debug, Clone, Copy, PartialEq, Eq, Structural)]
pub enum HeaderCell {
    /// Game `game` of event `event`, a spread group.
    Game { event: usize, game: usize },
    /// Event `event`, a free-text question.
    Question { event: usize },
}

/// The columns of one event, the `index`-th: one per game of a spread group,
/// one for a free-text question.
pub open spec fn event_header(e: Event, index: int) -> Seq<HeaderCell> {
    match e.contents {
        EventContent::SpreadGroup(spreads) =>
            Seq::new(spreads@.len(), |g: int| HeaderCell::Game { event: index as usize, game: g as usize }),
        EventContent::UserInput(_) => seq![HeaderCell::Question { event: index as usize }],
    }
}

/// The columns of the results table after the players' column, event by
/// event.
pub open spec fn header_cells_of(events: Seq<Event>) -> Seq<HeaderCell>
    decreases events.len(),
{
    if events.len() == 0 {
        Seq::empty()
    } else {
        header_cells_of(events.drop_last()) + event_header(events.last(), events.len() - 1)
    }
}

/// The columns of the results table after the players' column: one per game
/// of each spread group, one per free-text question.
pub fn header_cells(events: &[Event]) -> (cells: Vec<HeaderCell>)
    ensures
        cells@ == header_cells_of(events@),
{
    let mut cells: Vec<HeaderCell> = Vec::new();
    let mut k: usize = 0;
    while k < events.len()
        invariant
            k <= events@.len(),
            cells@ == header_cells_of(events@.take(k as int)),
        decreases events@.len() - k,
    {
        let ghost before = cells@;
        let ghost prefix = events@.take((k + 1) as int);
        proof {
            assert(prefix.drop_last() =~= events@.take(k as int));
            assert(prefix.last() == events@[k as int]);
        }
        let ghost here = event_header(events@[k as int], k as int);
        match &events[k].contents {
            EventContent::SpreadGroup(spreads) => {
                let mut g: usize = 0;
                while g < spreads.len()
                    invariant
                        g <= spreads@.len(),
                        here.len() == spreads@.len(),
                        forall|j: int| 0 <= j < spreads@.len() ==> #[trigger] here[j] == (HeaderCell::Game { event: k, game: j as usize }),
                        cells@ == before + here.take(g as int),
                    decreases spreads@.len() - g,
                {
                    cells.push(HeaderCell::Game { event: k, game: g });
                    assert(here.take((g + 1) as int) =~= here.take(g as int).push(here[g as int]));
                    g += 1;
                }
            },
            EventContent::UserInput(_) => {
                cells.push(HeaderCell::Question { event: k });
            },
        }
        assert(here.take(here.len() as int) =~= here);
        assert(cells@ =~= header_cells_of(prefix));
        k += 1;
    }
    assert(events@.take(events@.len() as int) =~= events@);
    cells
}

/// The pick, if any, is of the event's kind.
pub open spec fn pick_matches(e: Event, pick: Option<ChapterPick>) -> bool {
    match (e.contents, pick) {
        (_, None) => true,
        (EventContent::SpreadGroup(_), Some(ChapterPick::SpreadGroup { choice: _, wager: _ })) => true,
        (EventContent::UserInput(_), Some(ChapterPick::UserInput { choice: _, wager: _, points: _ })) => true,
        _ => false,
    }
}

/// A row's cell stands under the column: a game's cell under that game, a
/// question's cell under that question.
pub open spec fn cell_under(c: RowCell, h: HeaderCell) -> bool {
    match (c, h) {
        (RowCell::SpreadPick { event, game }, HeaderCell::Game { event: he, game: hg }) => event == he && game == hg,
        (RowCell::SpreadNoPick, HeaderCell::Game { event: _, game: _ }) => true,
        (RowCell::InputPick { event }, HeaderCell::Question { event: he }) => event == he,
        (RowCell::InputNoPick, HeaderCell::Question { event: _ }) => true,
        _ => false,
    }
}

/// Where every pick of the user is of its event's kind, the user's row has
/// one cell per column of the table, and each cell stands under its column;
/// there are as many columns as questions.
pub proof fn law_row_matches_header(events: Seq<Event>, picks: Map<(i32, i32), ChapterPick>, user_id: i32)
    requires
        forall|i: int| 0 <= i < events.len() ==> #[trigger] pick_matches(events[i], pick_for(picks, events[i].id, user_id)),
    ensures
        row_cells_of(events, picks, user_id).len() == header_cells_of(events).len(),
        header_cells_of(events).len() == question_count(events),
        forall|j: int| 0 <= j < header_cells_of(events).len() ==> #[trigger] cell_under(
            row_cells_of(events, picks, user_id)[j],
            header_cells_of(events)[j],
        ),
    decreases events.len(),
{
    if events.len() > 0 {
        let d = events.drop_last();
        assert forall|i: int| 0 <= i < d.len() implies #[trigger] pick_matches(d[i], pick_for(picks, d[i].id, user_id)) by {
            assert(d[i] == events[i]);
        }
        law_row_matches_header(d, picks, user_id);
        let e = events.last();
        let n = events.len() - 1;
        assert(pick_matches(events[n], pick_for(picks, events[n].id, user_id)));
        let rc = event_cells(e, n, pick_for(picks, e.id, user_id));
        let hc = event_header(e, n);
        let r0 = row_cells_of(d, picks, user_id);
        let h0 = header_cells_of(d);
        assert(rc.len() == hc.len());
        assert forall|j: int| 0 <= j < h0.len() + hc.len() implies #[trigger] cell_under((r0 + rc)[j], (h0 + hc)[j]) by {
            if j < h0.len() {
                assert(cell_under(r0[j], h0[j]));
            } else {
                assert(cell_under(rc[j - h0.len()], hc[j - h0.len()]));
            }
        }
    }
}

/// A user never has more correct answers than questions, and never more
/// questions than the events hold.
pub proof fn law_correct_within_total(events: Seq<Event>, picks: Map<(i32, i32), ChapterPick>, user_id: i32)
    ensures
        0 <= user_score(events, picks, user_id).0 <= user_score(events, picks, user_id).1,
        user_score(events, picks, user_id).1 <= question_count(events),
{
    lemma_score_bounds(events, picks, user_id);
}

/// No events score nothing, and the score over two lists of events, one
/// after the other, is the sum of their scores: correct answers add up, and
/// so do the questions.
pub proof fn law_user_score_concat(
    first: Seq<Event>,
    second: Seq<Event>,
    picks: Map<(i32, i32), ChapterPick>,
    user_id: i32,
)
    ensures
        user_score(Seq::empty(), picks, user_id) == (0int, 0int),
        user_score(first + second, picks, user_id) == (
            user_score(first, picks, user_id).0 + user_score(second, picks, user_id).0,
            user_score(first, picks, user_id).1 + user_score(second, picks, user_id).1,
        ),
        question_count(first + second) == question_count(first) + question_count(second),
    decreases second.len(),
{
    if second.len() == 0 {
        assert(first + second =~= first);
    } else {
        law_user_score_concat(first, second.drop_last(), picks, user_id);
        assert((first + second).drop_last() =~= first + second.drop_last());
        assert((first + second).last() == second.last());
    }
}

/// A free-text question counts as one question for every user (but one
/// whose pick is of the other kind), and as one correct answer only for a
/// user whose pick is an answer equal to one of the question's acceptable
/// answers: a question with no acceptable answers set is never answered
/// correctly.
pub proof fn law_free_text_score(
    id: i32,
    input: UserInput,
    picks: Map<(i32, i32), ChapterPick>,
    user_id: i32,
)
    ensures
        ({
            let events = seq![Event { id, contents: EventContent::UserInput(input) }];
            &&& user_score(events, picks, user_id).1 == (if picks.contains_key((id, user_id))
                && picks[(id, user_id)] is SpreadGroup {
                0int
            } else {
                1int
            })
            &&& (user_score(events, picks, user_id).0 == 1) == (picks.contains_key((id, user_id)) && match (
                picks[(id, user_id)],
                input.acceptable_answers,
            ) {
                (ChapterPick::UserInput { choice, wager: _, points: _ }, Some(answers)) => answers@.map_values(
                    |a: String| a@,
                ).contains(choice@),
                _ => false,
            })
            &&& user_score(events, picks, user_id).0 == 0 || user_score(events, picks, user_id).0 == 1
            &&& input.acceptable_answers is None ==> user_score(events, picks, user_id).0 == 0
        }),
{
    let events = seq![Event { id, contents: EventContent::UserInput(input) }];
    assert(events.drop_last() =~= Seq::<Event>::empty());
    assert(events.last() == events[0]);
    assert(user_score(Seq::<Event>::empty(), picks, user_id) == (0int, 0int));
    assert(user_score(events, picks, user_id) == event_score(events[0], pick_for(picks, id, user_id)));
    if let Some(answers) = input.acceptable_answers {
        if picks.contains_key((id, user_id)) {
            if let ChapterPick::UserInput { choice, wager: _, points: _ } = picks[(id, user_id)] {
                let texts = answers@.map_values(|a: String| a@);
                if texts.contains(choice@) {
                    let j = choose|j: int| 0 <= j < texts.len() && texts[j] == choice@;
                    assert(answers@[j]@ == choice@);
                    assert(lists_text(answers@, choice@));
                }
                if lists_text(answers@, choice@) {
                    let j = choose|j: int| 0 <= j < answers@.len() && #[trigger] answers@[j]@ == choice@;
                    assert(texts[j] == choice@);
                }
            }
        }
    }
}

/// Every one of the first `k` games was answered as chosen.
proof fn lemma_correct_spreads_all(spreads: Seq<Spread>, choice: Seq<String>, k: nat)
    requires
        forall|j: int| 0 <= j < k ==> #[trigger] answer_is(spreads[j].answer, choice[j]),
    ensures
        correct_spreads(spreads, choice, k) == k,
    decreases k,
{
    if k > 0 {
        lemma_correct_spreads_all(spreads, choice, (k - 1) as nat);
        assert(answer_is(spreads[k - 1].answer, choice[k - 1]));
    }
}

/// None of the first `k` games was answered as chosen.
proof fn lemma_correct_spreads_none(spreads: Seq<Spread>, choice: Seq<String>, k: nat)
    requires
        forall|j: int| 0 <= j < k ==> !#[trigger] answer_is(spreads[j].answer, choice[j]),
    ensures
        correct_spreads(spreads, choice, k) == 0,
    decreases k,
{
    if k > 0 {
        lemma_correct_spreads_none(spreads, choice, (k - 1) as nat);
        assert(!answer_is(spreads[k - 1].answer, choice[k - 1]));
    }
}

/// A spread group counts one question per game for every user without a
/// pick or with a spread pick (none for a pick of the other kind). A user
/// without a pick has no correct answer; a spread pick has at most one per
/// game, all of them when every game was answered as chosen, and none when
/// no game was.
pub proof fn law_spread_group_score(
    id: i32,
    spreads: Vec<Spread>,
    picks: Map<(i32, i32), ChapterPick>,
    user_id: i32,
)
    ensures
        ({
            let events = seq![Event { id, contents: EventContent::SpreadGroup(spreads) }];
            let score = user_score(events, picks, user_id);
            let n = spreads@.len() as int;
            &&& !picks.contains_key((id, user_id)) ==> score == (0int, n)
            &&& picks.contains_key((id, user_id)) ==> match picks[(id, user_id)] {
                ChapterPick::UserInput { choice: _, wager: _, points: _ } => score == (0int, 0int),
                ChapterPick::SpreadGroup { choice, wager: _ } => {
                    &&& score.1 == n
                    &&& 0 <= score.0 <= n
                    &&& score.0 <= choice@.len()
                    &&& (choice@.len() >= n && forall|j: int|
                        0 <= j < n ==> match #[trigger] spreads@[j].answer {
                            Some(a) => a@ == choice@[j]@,
                            None => false,
                        }) ==> score.0 == n
                    &&& (forall|j: int|
                        0 <= j < n && j < choice@.len() ==> match #[trigger] spreads@[j].answer {
                            Some(a) => a@ != choice@[j]@,
                            None => true,
                        }) ==> score.0 == 0
                },
            }
        }),
{
    let events = seq![Event { id, contents: EventContent::SpreadGroup(spreads) }];
    assert(events.drop_last() =~= Seq::<Event>::empty());
    assert(events.last() == events[0]);
    assert(user_score(Seq::<Event>::empty(), picks, user_id) == (0int, 0int));
    assert(user_score(events, picks, user_id) == event_score(events[0], pick_for(picks, id, user_id)));
    if picks.contains_key((id, user_id)) {
        if let ChapterPick::SpreadGroup { choice, wager: _ } = picks[(id, user_id)] {
            let m = min_len(spreads@.len(), choice@.len());
            lemma_correct_spreads_bound(spreads@, choice@, m);
            let n = spreads@.len() as int;
            if choice@.len() >= n && forall|j: int|
                0 <= j < n ==> match #[trigger] spreads@[j].answer {
                    Some(a) => a@ == choice@[j]@,
                    None => false,
                } {
                assert forall|j: int| 0 <= j < m implies #[trigger] answer_is(spreads@[j].answer, choice@[j]) by {
                    assert(match spreads@[j].answer {
                        Some(a) => a@ == choice@[j]@,
                        None => false,
                    });
                }
                lemma_correct_spreads_all(spreads@, choice@, m);
            }
            if forall|j: int|
                0 <= j < n && j < choice@.len() ==> match #[trigger] spreads@[j].answer {
                    Some(a) => a@ != choice@[j]@,
                    None => true,
                } {
                assert forall|j: int| 0 <= j < m implies !#[trigger] answer_is(spreads@[j].answer, choice@[j]) by {
                    assert(match spreads@[j].answer {
                        Some(a) => a@ != choice@[j]@,
                        None => true,
                    });
                }
                lemma_correct_spreads_none(spreads@, choice@, m);
            }
        }
    }
}

/// On game `index` of a spread group, one user adds the wager of a spread
/// pick to the points wagered, and the same wager to the points awarded
/// when the game's answer is the user's choice; a user without a spread
/// pick adds nothing. Over several users the sums add up.
pub proof fn law_tallies_per_user(
    users: Seq<ChapterUser>,
    more: Seq<ChapterUser>,
    u: ChapterUser,
    picks: Map<(i32, i32), ChapterPick>,
    id: i32,
    spreads: Vec<Spread>,
    index: int,
)
    requires
        0 <= index < spreads@.len(),
    ensures
        ({
            let e = Event { id, contents: EventContent::SpreadGroup(spreads) };
            let t = wager_totals(seq![u], picks, e, index);
            &&& (picks.contains_key((id, u.user_id)) && picks[(id, u.user_id)] is SpreadGroup) || t == (0int, 0int)
            &&& picks.contains_key((id, u.user_id)) ==> match picks[(id, u.user_id)] {
                ChapterPick::SpreadGroup { choice, wager } => t == (
                    wager@[index] as int,
                    if (match spreads@[index].answer {
                        Some(a) => a@ == choice@[index]@,
                        None => false,
                    }) {
                        wager@[index] as int
                    } else {
                        0int
                    },
                ),
                _ => t == (0int, 0int),
            }
            &&& wager_totals(users + more, picks, e, index) == (
                wager_totals(users, picks, e, index).0 + wager_totals(more, picks, e, index).0,
                wager_totals(users, picks, e, index).1 + wager_totals(more, picks, e, index).1,
            )
        }),
    decreases more.len(),
{
    let e = Event { id, contents: EventContent::SpreadGroup(spreads) };
    assert(seq![u].drop_last() =~= Seq::<ChapterUser>::empty());
    assert(seq![u].last() == u);
    assert(wager_totals(Seq::<ChapterUser>::empty(), picks, e, index) == (0int, 0int));
    assert(wager_totals(seq![u], picks, e, index) == (
        user_wager(picks, e, u.user_id, index),
        user_award(picks, e, u.user_id, index),
    ));
    if more.len() == 0 {
        assert(users + more =~= users);
    } else {
        law_tallies_per_user(users, more.drop_last(), u, picks, id, spreads, index);
        assert((users + more).drop_last() =~= users + more.drop_last());
        assert((users + more).last() == more.last());
    }
}

/// A recorded pick is the one read back for its event and user; the picks
/// of every other event and user stay as they were.
pub proof fn law_pick_read_after_write(
    picks: Map<(i32, i32), ChapterPick>,
    key: ChapterPickHash,
    pick: ChapterPick,
    event_id: i32,
    user_id: i32,
)
    ensures
        pick_for(picks.insert(key_of(key), pick), key.event_id, key.user_id) == Some(pick),
        (event_id, user_id) != key_of(key) ==> pick_for(picks.insert(key_of(key), pick), event_id, user_id)
            == pick_for(picks, event_id, user_id),
{
}

} // verus!
