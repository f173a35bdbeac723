use slip_git::config::WorkOrPersonal;
use slip_git::matching::find_matches_in_order;
use slip_git::repolist::{Repo, RepoList};
use slip_git::tui::{App, Key, LaunchType, LoopState, StatefulList};

fn repo(name: &str, category: WorkOrPersonal) -> Repo {
    Repo {
        url: format!("https://example.com/{}", name),
        location: format!("/home/user/projects/{}", name),
        name: name.to_string(),
        category,
    }
}

fn catalog() -> RepoList {
    RepoList {
        repos: vec![
            repo("alpha-api", WorkOrPersonal::Work),
            repo("alpha-web", WorkOrPersonal::Personal),
            repo("beta", WorkOrPersonal::Work),
        ],
    }
}

fn empty_list() -> StatefulList {
    StatefulList::with_items(RepoList { repos: vec![] })
}

fn names(list: &RepoList, view: &[(usize, i64)]) -> Vec<String> {
    view.iter().map(|(i, _)| list.repos[*i].name.clone()).collect()
}

#[test]
fn empty_query_keeps_every_entry_of_the_profile_in_order() {
    let list = catalog();
    let view = find_matches_in_order(&list, "", None);
    assert_eq!(view, vec![(0, 0), (1, 0), (2, 0)]);
    let view = find_matches_in_order(&list, "", Some(WorkOrPersonal::Work));
    assert_eq!(view, vec![(0, 0), (2, 0)]);
    let view = find_matches_in_order(&list, "", Some(WorkOrPersonal::Personal));
    assert_eq!(view, vec![(1, 0)]);
}

#[test]
fn empty_catalog_gives_an_empty_view() {
    let list = RepoList { repos: vec![] };
    assert!(find_matches_in_order(&list, "", None).is_empty());
    assert!(find_matches_in_order(&list, "abc", Some(WorkOrPersonal::Work)).is_empty());
}

#[test]
fn fuzzy_query_drops_names_that_do_not_match() {
    let list = catalog();
    let view = find_matches_in_order(&list, "alp", None);
    assert_eq!(names(&list, &view), vec!["alpha-api", "alpha-web"]);
    assert!(find_matches_in_order(&list, "zzz", None).is_empty());
}

#[test]
fn better_matches_rank_first() {
    let list = RepoList {
        repos: vec![
            repo("a-x-b-x-c", WorkOrPersonal::Work),
            repo("abc", WorkOrPersonal::Work),
        ],
    };
    let view = find_matches_in_order(&list, "abc", None);
    assert_eq!(view.len(), 2);
    assert_eq!(view[0].0, 1);
    assert!(view[0].1 > view[1].1);
}

#[test]
fn equal_scores_keep_catalog_order_across_calls() {
    let list = RepoList {
        repos: vec![
            repo("tool", WorkOrPersonal::Work),
            repo("other", WorkOrPersonal::Personal),
            repo("tool", WorkOrPersonal::Personal),
        ],
    };
    let first = find_matches_in_order(&list, "tool", None);
    assert_eq!(first.len(), 2);
    assert_eq!(first[0].1, first[1].1);
    assert_eq!(first[0].0, 0);
    assert_eq!(first[1].0, 2);
    for _ in 0..5 {
        assert_eq!(find_matches_in_order(&list, "tool", None), first);
    }
}

#[test]
fn cursor_wraps_on_three_entries() {
    let mut list = empty_list();
    list.selected = Some(2);
    list.next(3);
    assert_eq!(list.selected, Some(0));
    list.previous(3);
    assert_eq!(list.selected, Some(2));
    list.previous(3);
    assert_eq!(list.selected, Some(1));
    list.next(3);
    assert_eq!(list.selected, Some(2));
}

#[test]
fn cursor_on_a_single_entry_stays() {
    let mut list = empty_list();
    list.next(1);
    assert_eq!(list.selected, Some(0));
    list.previous(1);
    assert_eq!(list.selected, Some(0));
}

#[test]
fn cursor_on_an_empty_view_does_not_move() {
    let mut list = empty_list();
    list.next(0);
    list.previous(0);
    list.go_ten_down(0);
    list.go_ten_up(0);
    list.end(0);
    assert_eq!(list.selected, Some(0));
}

#[test]
fn paging_clamps_to_the_ends() {
    let mut list = empty_list();
    list.go_ten_down(25);
    assert_eq!(list.selected, Some(10));
    list.go_ten_down(25);
    assert_eq!(list.selected, Some(20));
    list.go_ten_down(25);
    assert_eq!(list.selected, Some(24));
    list.go_ten_up(25);
    assert_eq!(list.selected, Some(14));
    list.go_ten_up(25);
    assert_eq!(list.selected, Some(4));
    list.go_ten_up(25);
    assert_eq!(list.selected, Some(0));
    list.go_ten_down(5);
    assert_eq!(list.selected, Some(4));
    list.end(7);
    assert_eq!(list.selected, Some(6));
    list.select_0();
    assert_eq!(list.selected, Some(0));
}

#[test]
fn unset_cursor_moves_to_the_first_entry() {
    let mut list = empty_list();
    list.selected = None;
    list.next(3);
    assert_eq!(list.selected, Some(0));
}

#[test]
fn filtered_commit_opens_a_shell_in_the_match() {
    let mut app = App::new(catalog(), Some(WorkOrPersonal::Work));
    for c in "alp".chars() {
        assert!(matches!(app.handle_key(Key::Char(c)), LoopState::Running));
    }
    let view = find_matches_in_order(&app.items.repolist, &app.search_text, app.category);
    assert_eq!(names(&app.items.repolist, &view), vec!["alpha-api"]);
    assert_eq!(app.items.selected, Some(0));
    match app.handle_key(Key::Enter) {
        LoopState::Exiting(Some(launch)) => {
            assert_eq!(launch.directory, "/home/user/projects/alpha-api");
            assert_eq!(launch.launch_type, LaunchType::LaunchShell);
        }
        _ => panic!("expected a launch"),
    }
}

#[test]
fn insert_opens_the_editor() {
    let mut app = App::new(catalog(), None);
    app.handle_key(Key::Down);
    match app.handle_key(Key::Insert) {
        LoopState::Exiting(Some(launch)) => {
            assert_eq!(launch.directory, "/home/user/projects/alpha-web");
            assert_eq!(launch.launch_type, LaunchType::LaunchCode);
        }
        _ => panic!("expected a launch"),
    }
}

#[test]
fn typing_character_by_character_keeps_the_cursor_at_zero() {
    let mut app = App::new(catalog(), None);
    app.handle_key(Key::End);
    assert_eq!(app.items.selected, Some(2));
    for c in ["a", "l", "p"] {
        let key = Key::Char(c.chars().next().unwrap());
        assert!(matches!(app.handle_key(key), LoopState::Running));
        assert_eq!(app.items.selected, Some(0));
    }
    assert_eq!(app.search_text, "alp");
    for c in "xyz".chars() {
        assert!(matches!(app.handle_key(Key::Char(c)), LoopState::Running));
        assert_eq!(app.items.selected, Some(0));
    }
    let view = find_matches_in_order(&app.items.repolist, &app.search_text, app.category);
    assert!(view.is_empty());
}

#[test]
fn backspace_shortens_the_query_and_resets_the_cursor() {
    let mut app = App::new(catalog(), None);
    app.handle_key(Key::Char('a'));
    app.handle_key(Key::Char('l'));
    app.handle_key(Key::Down);
    assert_eq!(app.items.selected, Some(1));
    assert!(matches!(app.handle_key(Key::Backspace), LoopState::Running));
    assert_eq!(app.search_text, "a");
    assert_eq!(app.items.selected, Some(0));
    app.handle_key(Key::Backspace);
    assert_eq!(app.search_text, "");
    app.handle_key(Key::Down);
    assert_eq!(app.items.selected, Some(1));
    app.handle_key(Key::Backspace);
    assert_eq!(app.search_text, "");
    assert_eq!(app.items.selected, Some(1));
}

#[test]
fn commit_on_an_empty_view_cancels() {
    let mut app = App::new(catalog(), None);
    for c in "qqq".chars() {
        app.handle_key(Key::Char(c));
    }
    assert!(matches!(app.handle_key(Key::Enter), LoopState::Exiting(None)));
    assert!(matches!(app.handle_key(Key::Insert), LoopState::Exiting(None)));
    let mut app = App::new(RepoList { repos: vec![] }, None);
    app.handle_key(Key::Down);
    app.handle_key(Key::PageDown);
    assert!(matches!(app.handle_key(Key::Enter), LoopState::Exiting(None)));
}

#[test]
fn escape_cancels() {
    let mut app = App::new(catalog(), None);
    app.handle_key(Key::Char('b'));
    assert!(matches!(app.handle_key(Key::Esc), LoopState::Exiting(None)));
}

#[test]
fn navigation_uses_the_filtered_view() {
    let mut app = App::new(catalog(), Some(WorkOrPersonal::Work));
    app.handle_key(Key::Down);
    assert_eq!(app.items.selected, Some(1));
    app.handle_key(Key::Tab);
    assert_eq!(app.items.selected, Some(0));
    app.handle_key(Key::Up);
    assert_eq!(app.items.selected, Some(1));
    app.handle_key(Key::BackTab);
    assert_eq!(app.items.selected, Some(0));
    app.handle_key(Key::PageDown);
    assert_eq!(app.items.selected, Some(1));
    app.handle_key(Key::PageUp);
    assert_eq!(app.items.selected, Some(0));
    app.handle_key(Key::Right);
    assert_eq!(app.items.selected, Some(1));
    app.handle_key(Key::Left);
    assert_eq!(app.items.selected, Some(0));
    app.handle_key(Key::End);
    app.handle_key(Key::Home);
    assert_eq!(app.items.selected, Some(0));
    assert!(matches!(app.handle_key(Key::Other), LoopState::Running));
    match app.handle_key(Key::Enter) {
        LoopState::Exiting(Some(launch)) => {
            assert_eq!(launch.directory, "/home/user/projects/alpha-api")
        }
        _ => panic!("expected a launch"),
    }
}
