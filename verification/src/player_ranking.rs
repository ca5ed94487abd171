//! A player's standing over all questions.
use vstd::prelude::*;
use crate::flows::ascii_text;

verus! {

/// The text that `str::to_uppercase` returns for a text.
pub uninterp spec fn uppercase_text(s: Seq<char>) -> Seq<char>;

/// The ASCII upper case of a character: `a` to `z` become `A` to `Z`, any
/// other character stays.
pub open spec fn ascii_upper(c: char) -> char {
    if 97 <= (c as u32) <= 122 {
        ((c as u32) - 32) as char
    } else {
        c
    }
}

/// Calls `str::to_uppercase`; claims that the result is `uppercase_text` of
/// the argument, and that on an ASCII text it raises `a` to `z` and keeps
/// every other character.
#[verifier::external_body]
fn to_uppercase(s: &str) -> (r: String)
    ensures
        r@ == uppercase_text(s@),
        ascii_text(s@) ==> r@ == s@.map_values(|c: char| ascii_upper(c)),
{
    s.to_uppercase()
}

/// A player's standing over all questions.
#[derive(Debug, Clone)]
pub struct PlayerRanking {
    pub id: i32,
    pub name: String,
    pub avatar: Option<String>,
    pub rank: i32,
    pub score: i32,
    pub correct_guesses: i32,
    pub total_guesses: i32,
}

/// The character shown in place of a missing avatar: the first character of
/// the name, `?` for an empty name.
pub open spec fn initial_char(name: Seq<char>) -> char {
    if name.len() > 0 {
        name[0]
    } else {
        '?'
    }
}

impl PlayerRanking {
    /// The upper-cased initial shown in place of a missing avatar.
    pub fn avatar_initials(&self) -> (s: String)
        ensures
            s@ == uppercase_text(seq![initial_char(self.name@)]),
            self.name@.len() == 0 ==> s@ == "?"@,
            (initial_char(self.name@) as u32) < 128 ==> s@ == seq![ascii_upper(initial_char(self.name@))],
    {
        proof {
            broadcast use vstd::string::group_string_axioms;
        }
        let name = self.name.as_str();
        let mut chars = name.chars();
        match chars.next() {
            Some(_) => {
                let first = name.substring_char(0, 1);
                assert(first@ =~= seq![initial_char(self.name@)]);
                let r = to_uppercase(first);
                assert((initial_char(self.name@) as u32) < 128 ==> r@ =~= seq![ascii_upper(initial_char(self.name@))]);
                r
            },
            None => {
                proof {
                    reveal_strlit("?");
                }
                assert("?"@ =~= seq![initial_char(self.name@)]);
                let r = to_uppercase("?");
                assert(ascii_text("?"@));
                assert(r@ =~= "?"@);
                r
            },
        }
    }
}

/// The colour classes of an accuracy badge: green from 80 percent, yellow
/// from 60, red below.
pub fn accuracy_class(accuracy: i32) -> (c: &'static str)
    ensures
        c@ == (if accuracy >= 80 {
            "text-green-600 bg-green-100"@
        } else if accuracy >= 60 {
            "text-yellow-600 bg-yellow-100"@
        } else {
            "text-red-600 bg-red-100"@
        }),
{
    if accuracy >= 80 {
        "text-green-600 bg-green-100"
    } else if accuracy >= 60 {
        "text-yellow-600 bg-yellow-100"
    } else {
        "text-red-600 bg-red-100"
    }
}

/// `p` holds exactly the given values, with an avatar.
pub open spec fn ranking_is(
    p: PlayerRanking,
    id: i32,
    name: Seq<char>,
    avatar: Seq<char>,
    rank: i32,
    score: i32,
    correct: i32,
    total: i32,
) -> bool {
    &&& p.id == id
    &&& p.name@ == name
    &&& p.avatar matches Some(a) && a@ == avatar
    &&& p.rank == rank
    &&& p.score == score
    &&& p.correct_guesses == correct
    &&& p.total_guesses == total
}

fn ranking(
    id: i32,
    name: &str,
    avatar: &str,
    rank: i32,
    score: i32,
    correct_guesses: i32,
    total_guesses: i32,
) -> (p: PlayerRanking)
    ensures
        ranking_is(p, id, name@, avatar@, rank, score, correct_guesses, total_guesses),
{
    proof {
        broadcast use vstd::string::group_string_axioms;
    }
    PlayerRanking {
        id,
        name: name.to_string(),
        avatar: Some(avatar.to_string()),
        rank,
        score,
        correct_guesses,
        total_guesses,
    }
}

/// Sample rankings of five players, for pages shown before real data exists.
pub fn mock_player_rankings() -> (v: Vec<PlayerRanking>)
    ensures
        v@.len() == 5,
        ranking_is(v@[0], 1, "Alex Johnson"@, "/abstract-letter-aj.png"@, 1, 1030, 5, 6),
        ranking_is(v@[1], 2, "Taylor Smith"@, "/abstract-geometric-ts.png"@, 2, 850, 4, 6),
        ranking_is(v@[2], 3, "Morgan Lee"@, "/machine-learning-concept.png"@, 3, 820, 4, 6),
        ranking_is(v@[3], 4, "Jordan Rivera"@, "/stylized-jr-logo.png"@, 4, 550, 2, 6),
        ranking_is(v@[4], 5, "Casey Kim"@, "/abstract-ck-design.png"@, 5, 540, 3, 6),
{
    let mut v: Vec<PlayerRanking> = Vec::new();
    v.push(ranking(1, "Alex Johnson", "/abstract-letter-aj.png", 1, 1030, 5, 6));
    v.push(ranking(2, "Taylor Smith", "/abstract-geometric-ts.png", 2, 850, 4, 6));
    v.push(ranking(3, "Morgan Lee", "/machine-learning-concept.png", 3, 820, 4, 6));
    v.push(ranking(4, "Jordan Rivera", "/stylized-jr-logo.png", 4, 550, 2, 6));
    v.push(ranking(5, "Casey Kim", "/abstract-ck-design.png", 5, 540, 3, 6));
    v
}

} // verus!
