use repo_depot::app::{App, CurrentScreen, Key};
use repo_depot::pager::{last_page, visible_count};
use repo_depot::search::Repo;

fn mk_repo(url: &str, name: &str) -> Repo {
    Repo {
        name: name.to_string(),
        description: None,
        stargazers_count: 0,
        forks_count: 0,
        html_url: url.to_string(),
    }
}

fn mk_repos(n: usize) -> Vec<Repo> {
    let mut v = Vec::new();
    for i in 0..n {
        v.push(mk_repo(&format!("https://example.test/org/repo{}", i), &format!("repo{}", i)));
    }
    v
}

fn app_with(n: usize) -> App {
    let mut app = App::new();
    app.apply_search_results(mk_repos(n));
    app
}

#[test]
fn page_count_matches_nonempty_slices() {
    // ceil(25 / 10) = 3 pages show entries; every later page is empty.
    let mut nonempty: usize = 0;
    for p in 0..10 {
        if visible_count(25, 10, p) > 0 {
            nonempty += 1;
        }
    }
    assert_eq!(nonempty, 3);
    // An empty sequence shows no non-empty slice at all.
    for p in 0..10 {
        assert_eq!(visible_count(0, 10, p), 0);
    }
}

#[test]
fn last_page_values() {
    assert_eq!(last_page(0, 10), 0);
    assert_eq!(last_page(1, 10), 0);
    assert_eq!(last_page(10, 10), 0);
    assert_eq!(last_page(11, 10), 1);
    assert_eq!(last_page(25, 10), 2);
    assert_eq!(last_page(30, 10), 2);
    assert_eq!(last_page(31, 10), 3);
}

#[test]
fn visible_count_values() {
    assert_eq!(visible_count(25, 10, 0), 10);
    assert_eq!(visible_count(25, 10, 1), 10);
    assert_eq!(visible_count(25, 10, 2), 5);
    assert_eq!(visible_count(25, 10, 3), 0);
    assert_eq!(visible_count(10, 10, 0), 10);
    assert_eq!(visible_count(10, 10, 1), 0);
}

#[test]
fn twenty_five_results_paginate_and_wrap() {
    // Scenario: page_size 10, total 25 -> page indices {0, 1, 2}, page 2
    // shows 5 entries, and the cursor wraps from index 4 back to 0.
    let mut app = app_with(25);
    assert_eq!(app.page_size, 10);
    assert_eq!(app.total_pages, 2);
    assert_eq!(app.current_page, 0);

    app.handle_key(Key::Right);
    app.handle_key(Key::Right);
    assert_eq!(app.current_page, 2);
    assert_eq!(app.current_index, 0);

    // Paging forward past the last page is clamped.
    app.handle_key(Key::Right);
    assert_eq!(app.current_page, 2);

    for _ in 0..4 {
        app.handle_key(Key::Down);
    }
    assert_eq!(app.current_index, 4);
    app.handle_key(Key::Down);
    assert_eq!(app.current_index, 0);
}

#[test]
fn vertical_wraparound_both_ways() {
    let mut app = app_with(5);
    assert_eq!(app.current_index, 0);
    // Moving up from the top row of a page of 5 lands on row 4.
    app.handle_key(Key::Up);
    assert_eq!(app.current_index, 4);
    // Moving down from the bottom row lands back on row 0.
    app.handle_key(Key::Down);
    assert_eq!(app.current_index, 0);
}

#[test]
fn page_back_resets_index_only_when_page_changes() {
    let mut app = app_with(25);
    app.handle_key(Key::Right);
    app.handle_key(Key::Down);
    assert_eq!(app.current_page, 1);
    assert_eq!(app.current_index, 1);
    app.handle_key(Key::Left);
    assert_eq!(app.current_page, 0);
    assert_eq!(app.current_index, 0);
    // Paging back on the first page moves nothing.
    app.handle_key(Key::Down);
    app.handle_key(Key::Left);
    assert_eq!(app.current_page, 0);
    assert_eq!(app.current_index, 1);
}

#[test]
fn letter_keys_page_and_move_like_arrows() {
    let mut app = app_with(25);
    app.handle_key(Key::Char('l'));
    assert_eq!(app.current_page, 1);
    app.handle_key(Key::Char('h'));
    assert_eq!(app.current_page, 0);
    app.handle_key(Key::Char('d'));
    assert_eq!(app.current_page, 1);
    app.handle_key(Key::Char('a'));
    assert_eq!(app.current_page, 0);
    app.handle_key(Key::Char('j'));
    assert_eq!(app.current_index, 1);
    app.handle_key(Key::Char('k'));
    assert_eq!(app.current_index, 0);
    app.handle_key(Key::Char('s'));
    assert_eq!(app.current_index, 1);
    app.handle_key(Key::Char('w'));
    assert_eq!(app.current_index, 0);
}

#[test]
fn empty_results_make_every_move_a_no_op() {
    // Scenario: an empty result sequence; vertical moves and Tab neither
    // panic nor change anything.
    let mut app = app_with(0);
    assert_eq!(app.total_pages, 0);
    for key in [Key::Up, Key::Down, Key::Tab, Key::Char('k'), Key::Char('j')] {
        app.handle_key(key);
        assert_eq!(app.current_page, 0);
        assert_eq!(app.current_index, 0);
        assert!(app.selected.is_empty());
        assert!(matches!(app.current_screen, CurrentScreen::SearchResults));
    }
}

#[test]
fn stale_page_bound_is_recomputed_on_every_search() {
    // A big result set then a small one: the page bound follows the live
    // sequence length instead of carrying the old bound forward.
    let mut app = app_with(25);
    assert_eq!(app.total_pages, 2);
    app.handle_key(Key::Right);
    app.handle_key(Key::Right);
    assert_eq!(app.current_page, 2);
    app.apply_search_results(mk_repos(3));
    assert_eq!(app.total_pages, 0);
    assert_eq!(app.current_page, 0);
    assert_eq!(app.current_index, 0);
    // Paging forward now stays on the single page.
    app.handle_key(Key::Right);
    assert_eq!(app.current_page, 0);
}
