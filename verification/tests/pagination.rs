use clubsite::pagination::{page_count, page_numbers, page_offset, post_page, POSTS_PER_PAGE};

#[test]
fn page_count_rounds_up() {
    assert_eq!(page_count(0), 0);
    assert_eq!(page_count(1), 1);
    assert_eq!(page_count(5), 1);
    assert_eq!(page_count(6), 2);
    assert_eq!(page_count(10), 2);
    assert_eq!(page_count(11), 3);
    assert_eq!(page_count(i64::MAX), i64::MAX / 5 + 1);
}

#[test]
fn page_offset_skips_earlier_pages() {
    assert_eq!(page_offset(1), 0);
    assert_eq!(page_offset(2), 5);
    assert_eq!(page_offset(3), 10);
    assert_eq!(page_offset(0), -5);
}

#[test]
fn page_numbers_below_one_is_empty() {
    assert_eq!(page_numbers(0, 10), Vec::<i64>::new());
    assert_eq!(page_numbers(-3, 2), Vec::<i64>::new());
}

#[test]
fn page_numbers_few_pages_lists_all() {
    assert_eq!(page_numbers(1, 0), Vec::<i64>::new());
    assert_eq!(page_numbers(1, 1), vec![1]);
    assert_eq!(page_numbers(2, 3), vec![1, 2, 3]);
    assert_eq!(page_numbers(9, 5), vec![1, 2, 3, 4, 5]);
}

#[test]
fn page_numbers_near_start() {
    assert_eq!(page_numbers(1, 10), vec![1, 2, 3, 4, 10]);
    assert_eq!(page_numbers(3, 10), vec![1, 2, 3, 4, 10]);
}

#[test]
fn page_numbers_later_pages_show_the_last_four() {
    assert_eq!(page_numbers(4, 10), vec![1, 7, 8, 9, 10]);
    assert_eq!(page_numbers(7, 10), vec![1, 7, 8, 9, 10]);
    assert_eq!(page_numbers(6, 6), vec![1, 3, 4, 5, 6]);
    assert_eq!(page_numbers(50, 10), vec![1, 7, 8, 9, 10]);
}

#[test]
fn offered_pages_show_posts() {
    // With 23 posts there are 5 pages, each offered page has a post.
    let posts = 23;
    let layout = post_page(2, posts);
    for q in layout.page_numbers {
        let offset = page_offset(q);
        assert!(0 <= offset && offset < posts);
    }
}

#[test]
fn post_page_layout() {
    let layout = post_page(3, 42);
    assert_eq!(layout.page_number, 3);
    assert_eq!(layout.page_count, 9);
    assert_eq!(layout.page_numbers, vec![1, 2, 3, 4, 9]);
    assert_eq!(layout.offset, 10);
    assert_eq!(layout.limit, POSTS_PER_PAGE);
    assert_eq!(POSTS_PER_PAGE, 5);

    let layout = post_page(5, 42);
    assert_eq!(layout.page_numbers, vec![1, 6, 7, 8, 9]);
    assert_eq!(layout.offset, 20);

    let empty = post_page(1, 0);
    assert_eq!(empty.page_count, 0);
    assert!(empty.page_numbers.is_empty());
}
