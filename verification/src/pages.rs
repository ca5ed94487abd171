//! What the book pages show of the records: ranks, leaderboards, the most
//! recent chapter.
use vstd::prelude::*;
use crate::model::{BookRankingStats, BookSubscriptionStats};

verus! {

/// The ending shown after a user's rank in a book.
#[derive(Debug, Clone, Copy, PartialEq, Eq, Structural)]
pub enum RankSuffix {
    /// `1st`
    St,
    /// `2nd`
    Nd,
    /// `3rd`
    Rd,
    /// The last rank, marked `Last`.
    Last,
    /// Every other rank: `th`.
    Th,
}

impl RankSuffix {
    /// The text of the ending.
    pub fn text(&self) -> (s: &'static str)
        ensures
            s@ == (match *self {
                RankSuffix::St => "st"@,
                RankSuffix::Nd => "nd"@,
                RankSuffix::Rd => "rd"@,
                RankSuffix::Last => "Last"@,
                RankSuffix::Th => "th"@,
            }),
    {
        match self {
            RankSuffix::St => "st",
            RankSuffix::Nd => "nd",
            RankSuffix::Rd => "rd",
            RankSuffix::Last => "Last",
            RankSuffix::Th => "th",
        }
    }
}

/// The ending of a rank: the first three ranks have their own, then the
/// last rank is marked, and every other rank ends in `th`.
pub open spec fn suffix_of(rank: i32, num_members: i32) -> RankSuffix {
    if rank == 1 {
        RankSuffix::St
    } else if rank == 2 {
        RankSuffix::Nd
    } else if rank == 3 {
        RankSuffix::Rd
    } else if rank == num_members {
        RankSuffix::Last
    } else {
        RankSuffix::Th
    }
}

/// A user's rank in a book is shown only when the book has more than one
/// member, with its ending.
pub fn rank_suffix(rank: i32, num_members: i32) -> (r: Option<RankSuffix>)
    ensures
        r == (if num_members > 1 {
            Some(suffix_of(rank, num_members))
        } else {
            None::<RankSuffix>
        }),
{
    if num_members <= 1 {
        None
    } else if rank == 1 {
        Some(RankSuffix::St)
    } else if rank == 2 {
        Some(RankSuffix::Nd)
    } else if rank == 3 {
        Some(RankSuffix::Rd)
    } else if rank == num_members {
        Some(RankSuffix::Last)
    } else {
        Some(RankSuffix::Th)
    }
}

/// Only the ranks 1, 2 and 3 end in `st`, `nd` and `rd`, each its own; any
/// other rank is marked `Last` when it is the number of members and ends in
/// `th` otherwise (so 11, 12, 13 and 21 end in `th`).
pub proof fn law_rank_suffix_ordinals(rank: i32, num_members: i32)
    ensures
        (suffix_of(rank, num_members) == RankSuffix::St) <==> rank == 1,
        (suffix_of(rank, num_members) == RankSuffix::Nd) <==> rank == 2,
        (suffix_of(rank, num_members) == RankSuffix::Rd) <==> rank == 3,
        (suffix_of(rank, num_members) == RankSuffix::Last) <==> (rank == num_members && !(1 <= rank <= 3)),
        (suffix_of(rank, num_members) == RankSuffix::Th) <==> (rank != num_members && !(1 <= rank <= 3)),
{
}

/// The most recent chapter of a book, shown only when its id, title and
/// state are all known.
pub fn recent_chapter(book: &BookSubscriptionStats) -> (r: Option<(i32, &String, bool)>)
    ensures
        match r {
            Some((id, title, is_open)) => book.recent_chapter_id == Some(id)
                && book.recent_chapter_title == Some(*title)
                && book.recent_chapter_is_open == Some(is_open),
            None => book.recent_chapter_id is None || book.recent_chapter_title is None
                || book.recent_chapter_is_open is None,
        },
{
    match (book.recent_chapter_id, &book.recent_chapter_title, book.recent_chapter_is_open) {
        (Some(id), Some(title), Some(is_open)) => Some((id, title, is_open)),
        _ => None,
    }
}

/// How a row of a book's leaderboard is shown.
#[derive(Debug, Clone, Copy, PartialEq, Eq, Structural)]
pub struct LeaderboardRow {
    /// The rank printed in the row; a tie with the row above prints none.
    pub rank_label: Option<usize>,
    /// The row of the `Guests` user is highlighted.
    pub is_guest: bool,
    /// Points added by hand are shown when there are any.
    pub shows_added_points: bool,
}

/// How row `i` of a leaderboard is shown: the position is printed only when
/// it is the row's rank.
pub open spec fn leaderboard_row(i: int, r: BookRankingStats) -> LeaderboardRow {
    LeaderboardRow {
        rank_label: if r.rank == i + 1 {
            Some((i + 1) as usize)
        } else {
            None
        },
        is_guest: r.username@ == "Guests"@,
        shows_added_points: r.added_points > 0,
    }
}

/// How each row of a book's leaderboard is shown.
pub fn leaderboard_rows(rankings: &[BookRankingStats]) -> (rows: Vec<LeaderboardRow>)
    requires
        rankings@.len() < i32::MAX,
    ensures
        rows@.len() == rankings@.len(),
        forall|i: int| 0 <= i < rows@.len() ==> #[trigger] rows@[i] == leaderboard_row(i, rankings@[i]),
{
    proof {
        broadcast use vstd::string::group_string_axioms;
    }
    let guests = "Guests".to_string();
    let mut rows: Vec<LeaderboardRow> = Vec::new();
    let mut i: usize = 0;
    while i < rankings.len()
        invariant
            i <= rankings@.len(),
            rankings@.len() < i32::MAX,
            guests@ == "Guests"@,
            rows@.len() == i,
            forall|j: int| 0 <= j < i ==> #[trigger] rows@[j] == leaderboard_row(j, rankings@[j]),
        decreases rankings@.len() - i,
    {
        let r = &rankings[i];
        let position = i as i32 + 1;
        let row = LeaderboardRow {
            rank_label: if r.rank == position {
                Some(i + 1)
            } else {
                None
            },
            is_guest: r.username.eq(&guests),
            shows_added_points: r.added_points > 0,
        };
        rows.push(row);
        i += 1;
    }
    rows
}

/// The text shown for an empty chapter list.
pub fn empty_chapters_message<'a>(empty_message: Option<&'a str>) -> (s: &'a str)
    ensures
        s@ == (match empty_message {
            Some(m) => m@,
            None => "No chapters"@,
        }),
{
    match empty_message {
        Some(m) => m,
        None => "No chapters",
    }
}

} // verus!
