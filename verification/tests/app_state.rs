use arto_desktop::pinned_search::types::{HighlightColor, PinnedSearch, Timestamp};
use arto_desktop::search_match::MatchInfo;
use arto_desktop::state::{AppState, PersistedState};

fn search(id: &str, pattern: &str, color: HighlightColor) -> PinnedSearch {
    PinnedSearch::with_id(id.to_string(), pattern, color, false, Timestamp { secs: 0, nanos: 0 })
}

fn persisted() -> PersistedState {
    PersistedState { directory: None, right_sidebar_open: true }
}

fn state_with(pinned: Vec<PinnedSearch>) -> AppState {
    AppState::from_persisted(&persisted(), pinned)
}

#[test]
fn new_state_from_persisted() {
    let state = state_with(vec![search("ps_1", "TODO", HighlightColor::Orange)]);
    assert!(state.right_sidebar_open);
    assert!(!state.search_open);
    assert_eq!(state.search_match_count, 0);
    assert_eq!(state.search_current_index, 0);
    assert_eq!(state.search_initial_text, None);
    assert_eq!(state.pinned_searches.len(), 1);
    assert!(state.search_matches.is_empty());
    assert_eq!(state.sidebar.root_directory, None);
}

#[test]
fn add_pinned_search_picks_least_used_color() {
    let mut state = state_with(vec![
        search("ps_1", "TODO", HighlightColor::Yellow),
        search("ps_2", "FIXME", HighlightColor::Green),
    ]);
    state.add_pinned_search("API", true);
    assert_eq!(state.pinned_searches.len(), 3);
    let added = &state.pinned_searches[2];
    assert_eq!(added.pattern, "API");
    assert_eq!(added.color, HighlightColor::Blue);
    assert!(added.case_sensitive);
    assert!(!added.disabled);
    assert!(added.id.starts_with("ps_"));
    assert_eq!(state.pinned_searches[0].id, "ps_1");
    assert_eq!(state.pinned_searches[1].id, "ps_2");
}

#[test]
fn remove_pinned_search_drops_every_match() {
    let mut state = state_with(vec![
        search("ps_1", "a", HighlightColor::Yellow),
        search("ps_2", "b", HighlightColor::Green),
        search("ps_1", "c", HighlightColor::Blue),
        search("ps_3", "d", HighlightColor::Pink),
    ]);
    state.remove_pinned_search("ps_1");
    let ids: Vec<&str> = state.pinned_searches.iter().map(|p| p.id.as_str()).collect();
    assert_eq!(ids, vec!["ps_2", "ps_3"]);
    state.remove_pinned_search("ps_9");
    assert_eq!(state.pinned_searches.len(), 2);
}

#[test]
fn remove_is_idempotent() {
    let mut state = state_with(vec![
        search("ps_1", "a", HighlightColor::Yellow),
        search("ps_2", "b", HighlightColor::Green),
    ]);
    state.remove_pinned_search("ps_2");
    let once = state.pinned_searches.clone();
    state.remove_pinned_search("ps_2");
    assert_eq!(state.pinned_searches, once);
}

#[test]
fn add_then_remove_restores_list() {
    let original = vec![
        search("ps_1", "a", HighlightColor::Yellow),
        search("ps_2", "b", HighlightColor::Green),
    ];
    let mut state = state_with(original.clone());
    state.add_pinned_search("c", false);
    let added_id = state.pinned_searches[2].id.clone();
    state.remove_pinned_search(&added_id);
    assert_eq!(state.pinned_searches, original);
}

#[test]
fn update_color_changes_only_first_match() {
    let mut state = state_with(vec![
        search("ps_1", "a", HighlightColor::Yellow),
        search("ps_2", "b", HighlightColor::Green),
        search("ps_2", "c", HighlightColor::Green),
    ]);
    state.update_pinned_search_color("ps_2", HighlightColor::Orange);
    assert_eq!(state.pinned_searches[0].color, HighlightColor::Yellow);
    assert_eq!(state.pinned_searches[1].color, HighlightColor::Orange);
    assert_eq!(state.pinned_searches[2].color, HighlightColor::Green);
    assert_eq!(state.pinned_searches[1].pattern, "b");
    state.update_pinned_search_color("ps_2", HighlightColor::Pink);
    assert_eq!(state.pinned_searches[1].color, HighlightColor::Pink);
    state.update_pinned_search_color("missing", HighlightColor::Blue);
    assert_eq!(state.pinned_searches.len(), 3);
}

#[test]
fn toggle_twice_restores_list() {
    let original = vec![
        search("ps_1", "a", HighlightColor::Yellow),
        search("ps_2", "b", HighlightColor::Green),
    ];
    let mut state = state_with(original.clone());
    state.toggle_pinned_search("ps_2");
    assert!(!state.pinned_searches[0].disabled);
    assert!(state.pinned_searches[1].disabled);
    assert_eq!(HighlightColor::next_color(&state.pinned_searches), HighlightColor::Blue);
    state.toggle_pinned_search("ps_2");
    assert_eq!(state.pinned_searches, original);
}

#[test]
fn toggle_search_resets_counts_when_closing() {
    let mut state = state_with(Vec::new());
    state.toggle_search();
    assert!(state.search_open);
    state.update_search_results(7, 3);
    assert_eq!(state.search_match_count, 7);
    assert_eq!(state.search_current_index, 3);
    state.toggle_search();
    assert!(!state.search_open);
    assert_eq!(state.search_match_count, 0);
    assert_eq!(state.search_current_index, 0);
}

#[test]
fn update_search_matches_replaces_list() {
    let mut state = state_with(Vec::new());
    let m = MatchInfo {
        index: 2,
        text: String::new(),
        context: "the TODO here".to_string(),
        pattern: "TODO".to_string(),
        color: "yellow".to_string(),
    };
    state.update_search_matches(vec![m]);
    assert_eq!(state.search_matches.len(), 1);
    assert_eq!(state.search_matches[0].index, 2);
    state.update_search_matches(Vec::new());
    assert!(state.search_matches.is_empty());
}

#[test]
fn open_search_with_text_then_take() {
    let mut state = state_with(Vec::new());
    state.open_search_with_text(Some("needle".to_string()));
    assert!(state.search_open);
    assert_eq!(state.take_initial_search_text(), Some("needle".to_string()));
    assert_eq!(state.search_initial_text, None);
    assert_eq!(state.take_initial_search_text(), None);

    state.open_search_with_text(Some(String::new()));
    assert_eq!(state.take_initial_search_text(), None);
    assert_eq!(state.search_initial_text, None);
}

#[test]
fn initial_text_waits_while_closed() {
    let mut state = state_with(Vec::new());
    state.search_initial_text = Some("later".to_string());
    assert_eq!(state.take_initial_search_text(), None);
    assert_eq!(state.search_initial_text, Some("later".to_string()));
}

#[test]
fn pin_query_adds_and_resets() {
    let mut state = state_with(Vec::new());
    state.update_search_results(4, 2);
    assert!(!state.pin_query(""));
    assert_eq!(state.search_match_count, 4);
    assert!(state.pinned_searches.is_empty());
    assert!(state.pin_query("TODO"));
    assert_eq!(state.pinned_searches.len(), 1);
    assert_eq!(state.pinned_searches[0].pattern, "TODO");
    assert_eq!(state.pinned_searches[0].color, HighlightColor::Yellow);
    assert!(!state.pinned_searches[0].case_sensitive);
    assert_eq!(state.search_match_count, 0);
    assert_eq!(state.search_current_index, 0);
}

#[test]
fn right_sidebar_toggle_is_remembered() {
    let mut state = state_with(Vec::new());
    let mut remembered = persisted();
    state.toggle_right_sidebar(&mut remembered);
    assert!(!state.right_sidebar_open);
    assert!(!remembered.right_sidebar_open);
    state.toggle_right_sidebar(&mut remembered);
    assert!(state.right_sidebar_open);
    assert!(remembered.right_sidebar_open);
}

#[test]
fn directory_navigation() {
    let mut state = state_with(Vec::new());
    let mut remembered = persisted();
    state.sidebar.expanded_dirs.push("/home/u/docs/a".to_string());
    state.set_root_directory("/home/u/docs".to_string(), &mut remembered);
    assert_eq!(state.sidebar.root_directory, Some("/home/u/docs".to_string()));
    assert!(state.sidebar.expanded_dirs.is_empty());
    assert_eq!(remembered.directory, Some("/home/u/docs".to_string()));

    assert_eq!(state.go_to_parent_directory(&mut remembered), Some("/home/u".to_string()));
    assert_eq!(state.sidebar.root_directory, Some("/home/u".to_string()));
    assert_eq!(remembered.directory, Some("/home/u".to_string()));

    state.go_back_directory(Some("/home/u/docs".to_string()), &mut remembered);
    assert_eq!(state.sidebar.root_directory, Some("/home/u/docs".to_string()));
    state.go_forward_directory(None, &mut remembered);
    assert_eq!(state.sidebar.root_directory, Some("/home/u/docs".to_string()));
    state.go_forward_directory(Some("/home/u".to_string()), &mut remembered);
    assert_eq!(remembered.directory, Some("/home/u".to_string()));

    state.set_root_directory("/".to_string(), &mut remembered);
    assert_eq!(state.go_to_parent_directory(&mut remembered), None);
    assert_eq!(state.sidebar.root_directory, Some("/".to_string()));
}
