use repo_depot::app::{App, Key};
use repo_depot::search::Repo;

fn mk_repo(url: &str, name: &str) -> Repo {
    Repo {
        name: name.to_string(),
        description: Some(format!("about {}", name)),
        stargazers_count: 1,
        forks_count: 2,
        html_url: url.to_string(),
    }
}

fn mk_repos(n: usize) -> Vec<Repo> {
    let mut v = Vec::new();
    for i in 0..n {
        v.push(mk_repo(&format!("https://example.test/org/repo{}", i), &format!("repo{}", i)));
    }
    v
}

#[test]
fn tab_toggles_the_item_under_the_cursor() {
    let mut app = App::new();
    app.apply_search_results(mk_repos(5));
    let id = "https://example.test/org/repo0".to_string();
    assert!(!app.is_selected(&id));
    app.handle_key(Key::Tab);
    assert!(app.is_selected(&id));
    // No other identifier was touched.
    for i in 1..5 {
        assert!(!app.is_selected(&format!("https://example.test/org/repo{}", i)));
    }
}

#[test]
fn toggle_is_its_own_inverse() {
    let mut app = App::new();
    app.apply_search_results(mk_repos(5));
    let id = "https://example.test/org/repo2".to_string();
    app.handle_key(Key::Down);
    app.handle_key(Key::Down);
    // Toggle twice: membership ends as it began, both from unselected...
    app.handle_key(Key::Tab);
    assert!(app.is_selected(&id));
    app.handle_key(Key::Tab);
    assert!(!app.is_selected(&id));
    // ...and from selected.
    app.handle_key(Key::Tab);
    app.handle_key(Key::Tab);
    assert!(!app.is_selected(&id));
}

#[test]
fn toggle_works_across_pages() {
    let mut app = App::new();
    app.apply_search_results(mk_repos(25));
    app.handle_key(Key::Right);
    app.handle_key(Key::Right);
    app.handle_key(Key::Down);
    // Cursor stands on absolute index 21.
    app.handle_key(Key::Tab);
    assert!(app.is_selected(&"https://example.test/org/repo21".to_string()));
    assert_eq!(app.selected.len(), 1);
}

#[test]
fn selection_survives_a_new_search_with_the_same_identifier() {
    // Select an identifier, search again with results that contain it:
    // it is still selected afterwards.
    let mut app = App::new();
    app.apply_search_results(mk_repos(3));
    let id = "https://example.test/org/repo0".to_string();
    app.handle_key(Key::Tab);
    assert!(app.is_selected(&id));

    let mut second = mk_repos(2);
    second.reverse();
    app.apply_search_results(second);
    assert!(app.is_selected(&id));
    // And a search without it still leaves the mark in the set.
    app.apply_search_results(vec![mk_repo("https://example.test/other/thing", "thing")]);
    assert!(app.is_selected(&id));
}

#[test]
fn selection_is_keyed_by_identifier_not_by_index() {
    let mut app = App::new();
    app.apply_search_results(mk_repos(3));
    app.handle_key(Key::Down);
    app.handle_key(Key::Tab);
    let id = "https://example.test/org/repo1".to_string();
    assert!(app.is_selected(&id));

    // The same identifier now sits at a different index.
    let reordered = vec![
        mk_repo("https://example.test/org/repo2", "repo2"),
        mk_repo("https://example.test/org/repo0", "repo0"),
        mk_repo("https://example.test/org/repo1", "repo1"),
    ];
    app.apply_search_results(reordered);
    assert!(app.is_selected(&id));
    assert!(!app.is_selected(&"https://example.test/org/repo2".to_string()));
    // Toggling it at its new position removes the mark.
    app.handle_key(Key::Down);
    app.handle_key(Key::Down);
    app.handle_key(Key::Tab);
    assert!(!app.is_selected(&id));
    assert_eq!(app.selected.len(), 0);
}
