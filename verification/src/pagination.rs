//! Paging through the news posts on the front page.
//!
//! The front page shows `POSTS_PER_PAGE` posts at a time, newest first.
//! Page numbers start at 1; the navigation offers at most five page
//! numbers.
use vstd::prelude::*;

verus! {

/// How many posts are shown on one page.
pub const POSTS_PER_PAGE: i64 = 5;

/// The number of pages needed for `posts_count` posts: the count divided
/// by `POSTS_PER_PAGE`, rounded up.
pub open spec fn page_count_spec(posts_count: int) -> int {
    if posts_count % 5 == 0 {
        posts_count / 5
    } else {
        posts_count / 5 + 1
    }
}

/// How many posts to skip to reach the first post of `page_number`.
pub open spec fn page_offset_spec(page_number: int) -> int {
    (page_number - 1) * 5
}

/// The page numbers offered in the navigation when `page_number` of
/// `page_count` pages is shown.
///
/// For a page number below 1 nothing is offered; with at most five pages
/// all of them are offered; on the first three pages the first four and the
/// last are offered; on any later page the first and the last four are
/// offered.
pub open spec fn page_numbers_spec(page_number: int, page_count: int) -> Seq<i64> {
    if page_number < 1 {
        seq![]
    } else if page_count <= 5 {
        Seq::new(
            if page_count > 0 {
                page_count as nat
            } else {
                0
            },
            |i: int| (i + 1) as i64,
        )
    } else if page_number <= 3 {
        seq![1, 2, 3, 4, page_count as i64]
    } else {
        seq![
            1,
            (page_count - 3) as i64,
            (page_count - 2) as i64,
            (page_count - 1) as i64,
            page_count as i64,
        ]
    }
}

/// The number of pages needed for `posts_count` posts.
pub fn page_count(posts_count: i64) -> (r: i64)
    requires
        posts_count >= 0,
    ensures
        r == page_count_spec(posts_count as int),
{
    let q = posts_count / POSTS_PER_PAGE;
    if posts_count % POSTS_PER_PAGE == 0 {
        q
    } else {
        q + 1
    }
}

/// How many posts come before the first post of `page_number`.
pub fn page_offset(page_number: i64) -> (r: i64)
    requires
        i64::MIN <= page_offset_spec(page_number as int) <= i64::MAX,
    ensures
        r == page_offset_spec(page_number as int),
{
    (page_number - 1) * POSTS_PER_PAGE
}

/// The page numbers to offer in the navigation (see `page_numbers_spec`).
pub fn page_numbers(page_number: i64, page_count: i64) -> (r: Vec<i64>)
    ensures
        r@ == page_numbers_spec(page_number as int, page_count as int),
{
    if page_number < 1 {
        Vec::new()
    } else if page_count <= 5 {
        let mut v: Vec<i64> = Vec::new();
        let mut i: i64 = 1;
        while i <= page_count
            invariant
                1 <= i,
                page_count <= 5,
                i <= page_count + 1 || page_count < 1 && i == 1,
                v@ =~= Seq::new((i - 1) as nat, |j: int| (j + 1) as i64),
            decreases page_count + 1 - i,
        {
            v.push(i);
            i = i + 1;
        }
        proof {
            if page_count > 0 {
                assert(i == page_count + 1);
            }
        }
        v
    } else if page_number <= 3 {
        vec![1, 2, 3, 4, page_count]
    } else {
        vec![1, page_count - 3, page_count - 2, page_count - 1, page_count]
    }
}

/// What the front page needs to know to show one page of posts.
pub struct PostPage {
    /// The page shown.
    pub page_number: i64,
    /// How many pages there are in all.
    pub page_count: i64,
    /// The page numbers offered in the navigation.
    pub page_numbers: Vec<i64>,
    /// How many posts, newest first, come before this page.
    pub offset: i64,
    /// How many posts this page shows at most.
    pub limit: i64,
}

/// Lays out page `page_number` of the front page when there are
/// `posts_count` posts.
pub fn post_page(page_number: i64, posts_count: i64) -> (r: PostPage)
    requires
        posts_count >= 0,
        i64::MIN <= page_offset_spec(page_number as int) <= i64::MAX,
    ensures
        r.page_number == page_number,
        r.page_count == page_count_spec(posts_count as int),
        r.page_numbers@ == page_numbers_spec(page_number as int, r.page_count as int),
        r.offset == page_offset_spec(page_number as int),
        r.limit == POSTS_PER_PAGE,
{
    let count = page_count(posts_count);
    let numbers = page_numbers(page_number, count);
    PostPage {
        page_number,
        page_count: count,
        page_numbers: numbers,
        offset: page_offset(page_number),
        limit: POSTS_PER_PAGE,
    }
}

/// The page count is the fewest pages that hold every post: all posts fit,
/// and one page fewer would not.
pub proof fn lemma_page_count_is_least(posts_count: int)
    requires
        posts_count >= 0,
    ensures
        page_count_spec(posts_count) >= 0,
        page_count_spec(posts_count) * 5 >= posts_count,
        (page_count_spec(posts_count) - 1) * 5 < posts_count || posts_count == 0,
{
}

/// Every page number the navigation offers is a page that exists, the
/// numbers rise strictly, and there are at most five of them.
pub proof fn lemma_page_numbers_in_range(page_number: int, page_count: int)
    requires
        i64::MIN <= page_count <= i64::MAX,
    ensures
        page_numbers_spec(page_number, page_count).len() <= 5,
        forall|i: int|
            0 <= i < page_numbers_spec(page_number, page_count).len() ==> 1 <= #[trigger] page_numbers_spec(
                page_number,
                page_count,
            )[i] <= page_count,
        forall|i: int, j: int|
            0 <= i < j < page_numbers_spec(page_number, page_count).len() ==> #[trigger] page_numbers_spec(
                page_number,
                page_count,
            )[i] < #[trigger] page_numbers_spec(page_number, page_count)[j],
{
}

/// Every page the navigation offers for the posts there are shows at least
/// one post: its offset lies within the posts.
pub proof fn lemma_offered_pages_nonempty(page_number: int, posts_count: int)
    requires
        0 <= posts_count <= i64::MAX,
    ensures
        forall|i: int|
            0 <= i < page_numbers_spec(page_number, page_count_spec(posts_count)).len() ==> {
                let q = #[trigger] page_numbers_spec(page_number, page_count_spec(posts_count))[i];
                0 <= page_offset_spec(q as int) < posts_count
            },
{
    let pc = page_count_spec(posts_count);
    lemma_page_count_is_least(posts_count);
    lemma_page_numbers_in_range(page_number, pc);
    assert forall|i: int|
        0 <= i < page_numbers_spec(page_number, pc).len() implies {
        let q = #[trigger] page_numbers_spec(page_number, pc)[i];
        0 <= page_offset_spec(q as int) < posts_count
    } by {
        let q = page_numbers_spec(page_number, pc)[i];
        assert(1 <= q <= pc);
        assert((q - 1) * 5 <= (pc - 1) * 5) by (nonlinear_arith)
            requires
                1 <= q <= pc,
        ;
    }
}

/// With at most five pages, every page is offered, in order, whichever
/// page is shown.
pub proof fn lemma_few_pages_all_offered(page_number: int, other_page: int, page_count: int)
    requires
        page_number >= 1,
        other_page >= 1,
        0 <= page_count <= 5,
    ensures
        page_numbers_spec(page_number, page_count).len() == page_count,
        forall|i: int|
            0 <= i < page_count ==> #[trigger] page_numbers_spec(page_number, page_count)[i] == i
                + 1,
        forall|q: int|
            1 <= q <= page_count ==> #[trigger] page_numbers_spec(page_number, page_count).contains(
                q as i64,
            ),
        page_numbers_spec(page_number, page_count) == page_numbers_spec(other_page, page_count),
{
    let s = page_numbers_spec(page_number, page_count);
    assert forall|q: int| 1 <= q <= page_count implies #[trigger] s.contains(q as i64) by {
        assert(s[q - 1] == q);
    }
}

/// With more than five pages, five numbers are offered: the first page
/// first and the last page last, and on the first three pages the page
/// shown is among them.
pub proof fn lemma_many_pages_offered(page_number: int, page_count: int)
    requires
        page_number >= 1,
        5 < page_count <= i64::MAX,
    ensures
        page_numbers_spec(page_number, page_count).len() == 5,
        page_numbers_spec(page_number, page_count)[0] == 1,
        page_numbers_spec(page_number, page_count)[4] == page_count,
        page_number <= 3 ==> page_numbers_spec(page_number, page_count).contains(
            page_number as i64,
        ),
{
    if page_number <= 3 {
        assert(page_numbers_spec(page_number, page_count)[page_number - 1] == page_number);
    }
}

/// Before page 1 nothing is offered.
pub proof fn lemma_no_pages_before_the_first(page_number: int, page_count: int)
    requires
        page_number < 1,
    ensures
        page_numbers_spec(page_number, page_count).len() == 0,
{
}

/// The first page starts at the first post, and each page starts
/// `POSTS_PER_PAGE` posts after the one before it.
pub proof fn lemma_offsets_step_by_page(page_number: int)
    ensures
        page_offset_spec(1) == 0,
        page_offset_spec(page_number + 1) == page_offset_spec(page_number) + POSTS_PER_PAGE,
{
}

} // verus!
