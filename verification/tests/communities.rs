use fido::communities::{
    fuzzy_filter, move_browser_selection, move_home_selection, move_selection, rank, BrowseRepo,
    BrowserAction, CommunityBrowserState, HomeState,
};
use fido::keys::{KeyCode, KeyEvent, KeyModifiers};

fn repo(owner: &str, name: &str, private: bool, community: Option<u128>, member: bool) -> BrowseRepo {
    BrowseRepo {
        owner: owner.to_string(),
        name: name.to_string(),
        full_name: format!("{}/{}", owner, name),
        private,
        community_id: community,
        is_member: member,
    }
}

fn browser() -> CommunityBrowserState {
    CommunityBrowserState {
        show: true,
        repos: vec![
            repo("alice", "fido", false, Some(7), true),
            repo("bob", "other", true, None, false),
            repo("carol", "fido-tools", false, Some(8), false),
        ],
        filter: String::new(),
        visible: vec![],
        selected: None,
        loading: false,
        loaded: true,
        joining: false,
        error: None,
        message: None,
    }
}

#[test]
fn ranking_orders_by_score_then_index() {
    assert_eq!(rank(&vec![Some(3), None, Some(9), Some(3)]), vec![2, 0, 3]);
    assert_eq!(rank(&vec![None, None]), Vec::<usize>::new());
}

#[test]
fn wrapping_selection() {
    assert_eq!(move_selection(None, 0, 1), None);
    assert_eq!(move_selection(None, 3, 1), Some(1));
    assert_eq!(move_selection(Some(2), 3, 1), Some(0));
    assert_eq!(move_selection(Some(0), 3, -1), Some(2));
    assert_eq!(move_selection(None, 3, -1), Some(2));
    let mut home = HomeState::new();
    home.communities = vec![10, 20];
    move_home_selection(&mut home, 1);
    assert_eq!(home.selected_community(), Some(20));
    move_home_selection(&mut home, 1);
    assert_eq!(home.selected_community(), Some(10));
}

#[test]
fn fuzzy_filter_keeps_all_for_blank_and_drops_non_matches() {
    let b = browser();
    assert_eq!(fuzzy_filter(&b.repos, "  "), vec![0, 1, 2]);
    let mut hits = fuzzy_filter(&b.repos, "fido");
    hits.sort();
    assert_eq!(hits, vec![0, 2]);
    assert!(fuzzy_filter(&b.repos, "zzzz").is_empty());
}

#[test]
fn browser_keys_edit_the_filter_and_move() {
    let mut b = browser();
    b.apply_filter();
    assert_eq!(b.visible, vec![0, 1, 2]);
    assert_eq!(b.selected, Some(0));
    assert!(!b.handle_community_browser_keys(KeyEvent::press(KeyCode::Down)));
    assert_eq!(b.selected, Some(1));
    move_browser_selection(&mut b, 2);
    assert_eq!(b.selected, Some(0));
    b.handle_community_browser_keys(KeyEvent::press(KeyCode::Up));
    assert_eq!(b.selected, Some(2));
    for c in "other".chars() {
        b.handle_community_browser_keys(KeyEvent::press(KeyCode::Char(c)));
    }
    assert_eq!(b.filter, "other");
    assert_eq!(b.visible, vec![1]);
    assert_eq!(b.selected, Some(0));
    let ctrl = KeyEvent {
        code: KeyCode::Char('x'),
        modifiers: KeyModifiers { shift: false, control: true, alt: false },
        is_press: true,
    };
    b.handle_community_browser_keys(ctrl);
    assert_eq!(b.filter, "other");
    b.handle_community_browser_keys(KeyEvent::press(KeyCode::Backspace));
    assert_eq!(b.filter, "othe");
    assert!(!b.handle_community_browser_keys(KeyEvent::press(KeyCode::Esc)));
    assert_eq!(b.filter, "");
    assert_eq!(b.visible, vec![0, 1, 2]);
    assert!(b.handle_community_browser_keys(KeyEvent::press(KeyCode::Esc)));
}

#[test]
fn enter_opens_joins_or_refuses() {
    let mut b = browser();
    b.apply_filter();
    assert!(matches!(b.open_or_join_action(), Some(BrowserAction::Open(7))));
    b.selected = Some(1);
    assert!(matches!(b.open_or_join_action(), Some(BrowserAction::RefusePrivate)));
    b.selected = Some(2);
    match b.open_or_join_action() {
        Some(BrowserAction::Join { owner, name }) => {
            assert_eq!((owner.as_str(), name.as_str()), ("carol", "fido-tools"));
        }
        other => panic!("unexpected {:?}", other),
    }
    b.selected = Some(9);
    assert!(b.open_or_join_action().is_none());
    assert_eq!(b.selected_repo(), None);
}

#[test]
fn home_list_loads_from_the_first_community() {
    let mut h = HomeState::new();
    h.begin_load();
    assert!(h.loading);
    h.finish_load(Ok(vec![7, 8]));
    assert!(!h.loading && h.loaded);
    assert_eq!(h.selected, Some(0));
    assert_eq!(h.selected_community(), Some(7));
    h.finish_load(Ok(vec![]));
    assert_eq!(h.selected, None);
    h.finish_load(Err("Network Error".to_string()));
    assert_eq!(h.error.as_deref(), Some("Network Error"));
    assert!(!h.loading);
}
