//! The records the site reads from its database, and the rules read from them.
use vstd::prelude::*;
use crate::status::StatusCode;
use crate::app_error::AppNotification;

verus! {

/// The role of a user in a book.
#[derive(Debug, Clone, PartialEq)]
pub enum BookRole {
    Owner,
    Admin,
    Participant,
    /// May see only the listed chapters.
    Guest { chapter_ids: Vec<i32> },
    Unauthorized,
}

/// A user's subscription to a book.
#[derive(Debug, Clone)]
pub struct BookSubscription {
    pub id: i32,
    pub user_id: i32,
    pub name: String,
    pub role: BookRole,
}

/// A book as listed on a user's home page.
#[derive(Debug)]
pub struct BookSubscriptionStats {
    pub id: i32,
    pub name: String,
    pub num_members: i32,
    pub rank: i32,
    pub user_points: i32,
    pub recent_chapter_id: Option<i32>,
    pub recent_chapter_title: Option<String>,
    pub recent_chapter_is_open: Option<bool>,
}

/// A user's rank in a book.
#[derive(Debug, Clone)]
pub struct BookRanking {
    pub user_id: i32,
    pub username: String,
    pub points: i32,
    pub rank: i32,
}

/// A row of a book's leaderboard.
#[derive(Debug, Clone)]
pub struct BookRankingStats {
    pub user_id: i32,
    pub username: String,
    pub earned_points: i32,
    pub added_points: i32,
    pub total_points: i32,
    pub rank: i32,
}

/// A chapter of a book.
#[derive(Debug, Clone)]
pub struct Chapter {
    pub chapter_id: i32,
    pub book_id: i32,
    pub is_open: bool,
    pub is_visible: bool,
    pub title: String,
}

/// A user's standing in a chapter.
pub struct ChapterUser {
    pub user_id: i32,
    pub username: String,
    pub total_points: i32,
    pub rank: i32,
}

/// A chapter as listed on a book's page.
pub struct ChapterStats {
    pub id: i32,
    pub title: String,
    pub total_points: i32,
    pub user_points: i32,
    pub user_rank: i32,
    pub is_open: bool,
    pub is_visible: bool,
}

/// `id` is one of `ids`.
pub open spec fn lists(ids: Seq<i32>, id: i32) -> bool {
    exists|i: int| 0 <= i < ids.len() && ids[i] == id
}

/// Whether `ids` holds `id`.
pub fn contains_id(ids: &Vec<i32>, id: i32) -> (b: bool)
    ensures
        b == lists(ids@, id),
{
    let mut i: usize = 0;
    while i < ids.len()
        invariant
            i <= ids@.len(),
            forall|j: int| 0 <= j < i ==> ids@[j] != id,
        decreases ids@.len() - i,
    {
        if ids[i] == id {
            return true;
        }
        i += 1;
    }
    false
}

/// Who may open a chapter's page: an owner or admin always, a participant
/// when the chapter is visible, a guest when it is visible and one of the
/// guest's chapters.
pub open spec fn may_access(role: BookRole, chapter_id: i32, is_visible: bool) -> bool {
    match role {
        BookRole::Owner | BookRole::Admin => true,
        BookRole::Participant => is_visible,
        BookRole::Guest { chapter_ids } => is_visible && lists(chapter_ids@, chapter_id),
        BookRole::Unauthorized => false,
    }
}

/// Whether a user with `role` may open the page of `chapter`; who may not is
/// answered 401 and sent home.
pub fn confirm_user_access(role: &BookRole, chapter: &Chapter) -> (b: bool)
    ensures
        b == may_access(*role, chapter.chapter_id, chapter.is_visible),
{
    match role {
        BookRole::Owner | BookRole::Admin => true,
        BookRole::Participant => chapter.is_visible,
        BookRole::Guest { chapter_ids } => chapter.is_visible && contains_id(chapter_ids, chapter.chapter_id),
        BookRole::Unauthorized => false,
    }
}

/// Picks may be submitted only while the chapter is open; otherwise the
/// user is notified with 423 that the chapter is closed.
pub fn confirm_chapter_open(chapter: &Chapter) -> (r: Result<(), AppNotification>)
    ensures
        chapter.is_open <==> r is Ok,
        r matches Err(n) ==> n.0@ == 423 && n.1@ == "This chapter is closed"@,
{
    if chapter.is_open {
        Ok(())
    } else {
        Err(AppNotification(StatusCode::new(423), "This chapter is closed".to_string()))
    }
}

impl BookRole {
    /// Whether the role is `Admin`.
    pub fn is_admin(&self) -> (b: bool)
        ensures
            b == (*self is Admin),
    {
        match self {
            BookRole::Admin => true,
            _ => false,
        }
    }

    /// The chapters a guest may see; `None` for every other role.
    pub fn guest_chapters(&self) -> (g: Option<Vec<i32>>)
        ensures
            match *self {
                BookRole::Guest { chapter_ids } => g matches Some(ids) && ids@ == chapter_ids@,
                _ => g is None,
            },
    {
        match self {
            BookRole::Guest { chapter_ids } => Some(chapter_ids.clone()),
            _ => None,
        }
    }
}

/// The indices, in order, of the elements of `s` that satisfy `keep`.
pub open spec fn kept_indices<A>(s: Seq<A>, keep: spec_fn(A) -> bool) -> Seq<usize>
    decreases s.len(),
{
    if s.len() == 0 {
        Seq::empty()
    } else {
        let rest = kept_indices(s.drop_last(), keep);
        if keep(s.last()) {
            rest.push((s.len() - 1) as usize)
        } else {
            rest
        }
    }
}

/// Whether a chapter is listed on a book's page for a role: a guest sees
/// the visible chapters among its own, an admin sees every chapter, and
/// everyone else sees the visible ones.
pub open spec fn listed_on_book_page(role: BookRole, c: ChapterStats) -> bool {
    match role {
        BookRole::Guest { chapter_ids } => c.is_visible && lists(chapter_ids@, c.id),
        BookRole::Admin => true,
        _ => c.is_visible,
    }
}

/// The indices, in order, of the chapters listed on a book's page for `role`.
pub open spec fn book_page_indices(role: BookRole, chapters: Seq<ChapterStats>) -> Seq<usize> {
    kept_indices(chapters, |c: ChapterStats| listed_on_book_page(role, c))
}

/// The indices, in order, of the chapters that are not visible.
pub open spec fn unpublished_indices(chapters: Seq<ChapterStats>) -> Seq<usize> {
    kept_indices(chapters, |c: ChapterStats| !c.is_visible)
}

/// The indices of the chapters listed on a book's page for `role`.
pub fn book_page_chapters(role: &BookRole, chapters: &Vec<ChapterStats>) -> (r: Vec<usize>)
    ensures
        r@ == book_page_indices(*role, chapters@),
{
    let ghost keep = |c: ChapterStats| listed_on_book_page(*role, c);
    let mut r: Vec<usize> = Vec::new();
    let mut i: usize = 0;
    while i < chapters.len()
        invariant
            i <= chapters@.len(),
            r@ == kept_indices(chapters@.take(i as int), keep),
            keep == (|c: ChapterStats| listed_on_book_page(*role, c)),
        decreases chapters@.len() - i,
    {
        let c = &chapters[i];
        let shown = match role {
            BookRole::Guest { chapter_ids } => c.is_visible && contains_id(chapter_ids, c.id),
            BookRole::Admin => true,
            _ => c.is_visible,
        };
        assert(chapters@.take((i + 1) as int).drop_last() =~= chapters@.take(i as int));
        assert(chapters@.take((i + 1) as int).last() == chapters@[i as int]);
        assert(shown == keep(chapters@[i as int]));
        if shown {
            r.push(i);
        }
        i += 1;
    }
    assert(chapters@.take(chapters@.len() as int) =~= chapters@);
    r
}

/// The indices of the chapters not yet published (not visible), which an
/// admin manages.
pub fn unpublished_chapters(chapters: &Vec<ChapterStats>) -> (r: Vec<usize>)
    ensures
        r@ == unpublished_indices(chapters@),
{
    let ghost keep = |c: ChapterStats| !c.is_visible;
    let mut r: Vec<usize> = Vec::new();
    let mut i: usize = 0;
    while i < chapters.len()
        invariant
            i <= chapters@.len(),
            r@ == kept_indices(chapters@.take(i as int), keep),
            keep == (|c: ChapterStats| !c.is_visible),
        decreases chapters@.len() - i,
    {
        assert(chapters@.take((i + 1) as int).drop_last() =~= chapters@.take(i as int));
        assert(chapters@.take((i + 1) as int).last() == chapters@[i as int]);
        if !chapters[i].is_visible {
            r.push(i);
        }
        i += 1;
    }
    assert(chapters@.take(chapters@.len() as int) =~= chapters@);
    r
}


/// A guest never reaches a chapter that a participant could not reach, and
/// an owner or admin reaches every chapter.
pub proof fn law_guest_within_participant(chapter_ids: Vec<i32>, chapter_id: i32, is_visible: bool)
    ensures
        may_access(BookRole::Guest { chapter_ids }, chapter_id, is_visible) ==> may_access(
            BookRole::Participant,
            chapter_id,
            is_visible,
        ),
        may_access(BookRole::Owner, chapter_id, is_visible),
        may_access(BookRole::Admin, chapter_id, is_visible),
        !may_access(BookRole::Unauthorized, chapter_id, is_visible),
{
}


/// Every kept index points into the sequence at an element that satisfies
/// `keep`, and the indices increase.
proof fn lemma_kept_indices_sound<A>(s: Seq<A>, keep: spec_fn(A) -> bool)
    requires
        s.len() <= usize::MAX,
    ensures
        forall|i: int|
            0 <= i < kept_indices(s, keep).len() ==> #[trigger] kept_indices(s, keep)[i] < s.len()
                && keep(s[kept_indices(s, keep)[i] as int]),
        forall|i: int, j: int|
            0 <= i < j < kept_indices(s, keep).len() ==> kept_indices(s, keep)[i] < kept_indices(s, keep)[j],
    decreases s.len(),
{
    if s.len() > 0 {
        let d = s.drop_last();
        lemma_kept_indices_sound(d, keep);
        let r = kept_indices(d, keep);
        let k = kept_indices(s, keep);
        assert forall|i: int| 0 <= i < r.len() implies #[trigger] r[i] < s.len() && keep(s[r[i] as int]) by {
            assert(d[r[i] as int] == s[r[i] as int]);
        }
        if keep(s.last()) {
            assert(k == r.push((s.len() - 1) as usize));
            assert forall|i: int| 0 <= i < k.len() implies #[trigger] k[i] < s.len() && keep(s[k[i] as int]) by {
                if i < r.len() {
                    assert(k[i] == r[i]);
                } else {
                    assert(i == r.len());
                    assert(k[i] == (s.len() - 1) as usize);
                    assert(s[k[i] as int] == s.last());
                }
            }
            assert forall|i: int, j: int| 0 <= i < j < k.len() implies k[i] < k[j] by {
                if j < r.len() {
                    assert(k[i] == r[i] && k[j] == r[j]);
                } else {
                    assert(k[i] == r[i]);
                    assert(r[i] < d.len());
                    assert(k[j] == (s.len() - 1) as usize);
                }
            }
        } else {
            assert(k == r);
        }
    }
}

/// Only an admin sees chapters that are not visible on a book's page, and a
/// guest sees only visible chapters among its own; the list keeps the order
/// of the chapters.
pub proof fn law_book_page_lists_visible(role: BookRole, chapters: Seq<ChapterStats>)
    requires
        chapters.len() <= usize::MAX,
    ensures
        forall|i: int|
            0 <= i < book_page_indices(role, chapters).len() ==> {
                let k = #[trigger] book_page_indices(role, chapters)[i];
                &&& k < chapters.len()
                &&& !(role is Admin) ==> chapters[k as int].is_visible
                &&& role matches BookRole::Guest { chapter_ids } ==> lists(chapter_ids@, chapters[k as int].id)
            },
{
    lemma_kept_indices_sound(chapters, |c: ChapterStats| listed_on_book_page(role, c));
}

/// An element that satisfies `keep` has its index kept.
proof fn lemma_kept_index_complete<A>(s: Seq<A>, keep: spec_fn(A) -> bool, i: int)
    requires
        s.len() <= usize::MAX,
        0 <= i < s.len(),
        keep(s[i]),
    ensures
        exists|k: int| 0 <= k < kept_indices(s, keep).len() && kept_indices(s, keep)[k] == i as usize,
    decreases s.len(),
{
    let d = s.drop_last();
    let r = kept_indices(d, keep);
    let kept = kept_indices(s, keep);
    if i < s.len() - 1 {
        assert(d[i] == s[i]);
        lemma_kept_index_complete(d, keep, i);
        let k = choose|k: int| 0 <= k < r.len() && r[k] == i as usize;
        assert(kept[k] == r[k]);
    } else {
        assert(s[i] == s.last());
        assert(kept == r.push((s.len() - 1) as usize));
        assert(kept[r.len() as int] == i as usize);
    }
}

/// The chapters an admin manages as unpublished are exactly the ones that
/// are not visible, whether open or not, in order: every listed index is a
/// chapter that is not visible, and every chapter that is not visible is
/// listed.
pub proof fn law_unpublished_not_visible(chapters: Seq<ChapterStats>)
    requires
        chapters.len() <= usize::MAX,
    ensures
        forall|i: int|
            0 <= i < unpublished_indices(chapters).len() ==> {
                let k = #[trigger] unpublished_indices(chapters)[i];
                k < chapters.len() && !chapters[k as int].is_visible
            },
        forall|i: int, j: int|
            0 <= i < j < unpublished_indices(chapters).len() ==> unpublished_indices(chapters)[i]
                < unpublished_indices(chapters)[j],
        forall|i: int|
            0 <= i < chapters.len() && !#[trigger] chapters[i].is_visible ==> exists|k: int|
                0 <= k < unpublished_indices(chapters).len() && unpublished_indices(chapters)[k] == i as usize,
{
    lemma_kept_indices_sound(chapters, |c: ChapterStats| !c.is_visible);
    assert forall|i: int| 0 <= i < chapters.len() && !#[trigger] chapters[i].is_visible implies exists|k: int|
        0 <= k < unpublished_indices(chapters).len() && unpublished_indices(chapters)[k] == i as usize by {
        let keep = |c: ChapterStats| !c.is_visible;
        assert(unpublished_indices(chapters) == kept_indices(chapters, keep));
        lemma_kept_index_complete(chapters, keep, i);
        let k = choose|k: int| 0 <= k < kept_indices(chapters, keep).len() && kept_indices(chapters, keep)[k] == i as usize;
        assert(unpublished_indices(chapters)[k] == i as usize);
    }
}

/// Every chapter a role may see is listed on the book's page: every chapter
/// for an admin, the visible ones for an owner or participant, and the
/// visible ones among its own for a guest.
pub proof fn law_book_page_lists_all_it_may(role: BookRole, chapters: Seq<ChapterStats>, i: int)
    requires
        chapters.len() <= usize::MAX,
        0 <= i < chapters.len(),
        role is Admin || (chapters[i].is_visible && match role {
            BookRole::Guest { chapter_ids } => chapter_ids@.contains(chapters[i].id),
            _ => true,
        }),
    ensures
        exists|k: int| 0 <= k < book_page_indices(role, chapters).len() && book_page_indices(role, chapters)[k] == i as usize,
{
    if let BookRole::Guest { chapter_ids } = role {
        law_lists_is_contains(chapter_ids@, chapters[i].id);
    }
    let keep = |c: ChapterStats| listed_on_book_page(role, c);
    assert(keep(chapters[i]));
    assert(book_page_indices(role, chapters) == kept_indices(chapters, keep));
    lemma_kept_index_complete(chapters, keep, i);
    let k = choose|k: int| 0 <= k < kept_indices(chapters, keep).len() && kept_indices(chapters, keep)[k] == i as usize;
    assert(book_page_indices(role, chapters)[k] == i as usize);
}

/// A list of ids lists an id exactly when the id is somewhere in it, the
/// first place included.
pub proof fn law_lists_is_contains(ids: Seq<i32>, id: i32)
    ensures
        lists(ids, id) <==> ids.contains(id),
        ids.len() > 0 ==> lists(ids, ids[0]),
{
    if ids.contains(id) {
        let i = choose|i: int| 0 <= i < ids.len() && ids[i] == id;
        assert(0 <= i < ids.len() && ids[i] == id);
    }
    if ids.len() > 0 {
        assert(ids.contains(ids[0]));
    }
}

/// A guest may open a chapter exactly when it is visible and its id is in
/// the guest's list, wherever in the list.
pub proof fn law_guest_access(chapter_ids: Vec<i32>, chapter_id: i32, is_visible: bool)
    ensures
        may_access(BookRole::Guest { chapter_ids }, chapter_id, is_visible) <==> (is_visible
            && chapter_ids@.contains(chapter_id)),
{
    law_lists_is_contains(chapter_ids@, chapter_id);
}

} // verus!
