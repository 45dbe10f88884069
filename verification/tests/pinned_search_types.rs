use arto_desktop::pinned_search::types::{HighlightColor, PinnedSearch, Timestamp};
use arto_desktop::state::{AppState, PersistedState};

fn search(id: &str, pattern: &str, color: HighlightColor) -> PinnedSearch {
    PinnedSearch::with_id(id.to_string(), pattern, color, false, Timestamp { secs: 0, nanos: 0 })
}

#[test]
fn test_pinned_search_creation() {
    let search = PinnedSearch::new("TODO", HighlightColor::Orange, false);
    assert_eq!(search.pattern, "TODO");
    assert_eq!(search.color, HighlightColor::Orange);
    assert!(!search.case_sensitive);
    assert!(!search.disabled);
    assert!(search.id.starts_with("ps_"));
}

#[test]
fn test_next_color() {
    let pinned = vec![
        PinnedSearch::new("TODO", HighlightColor::Yellow, false),
        PinnedSearch::new("FIXME", HighlightColor::Yellow, false),
        PinnedSearch::new("API", HighlightColor::Blue, false),
    ];

    // Yellow is used 2 times, Blue 1 time, others 0 times
    // Should return Green, Pink, or Orange (all have 0 usage)
    let next = HighlightColor::next_color(&pinned);
    assert!(matches!(
        next,
        HighlightColor::Green | HighlightColor::Pink | HighlightColor::Orange
    ));
}

#[test]
fn test_css_class() {
    assert_eq!(HighlightColor::Yellow.css_class(), "highlight-yellow");
    assert_eq!(HighlightColor::Green.css_class(), "highlight-green");
}

#[test]
fn css_class_of_every_color() {
    assert_eq!(HighlightColor::Blue.css_class(), "highlight-blue");
    assert_eq!(HighlightColor::Pink.css_class(), "highlight-pink");
    assert_eq!(HighlightColor::Orange.css_class(), "highlight-orange");
}

#[test]
fn all_colors_in_palette_order() {
    assert_eq!(
        HighlightColor::ALL,
        [
            HighlightColor::Yellow,
            HighlightColor::Green,
            HighlightColor::Blue,
            HighlightColor::Pink,
            HighlightColor::Orange,
        ]
    );
    assert_eq!(HighlightColor::default(), HighlightColor::Yellow);
}

#[test]
fn next_color_of_no_searches_is_yellow() {
    assert_eq!(HighlightColor::next_color(&[]), HighlightColor::Yellow);
}

#[test]
fn next_color_takes_first_least_used_in_palette_order() {
    let pinned = vec![
        search("a", "TODO", HighlightColor::Yellow),
        search("b", "FIXME", HighlightColor::Yellow),
        search("c", "API", HighlightColor::Blue),
    ];
    assert_eq!(HighlightColor::next_color(&pinned), HighlightColor::Green);

    let pinned = vec![
        search("a", "1", HighlightColor::Yellow),
        search("b", "2", HighlightColor::Green),
        search("c", "3", HighlightColor::Blue),
        search("d", "4", HighlightColor::Pink),
        search("e", "5", HighlightColor::Orange),
        search("f", "6", HighlightColor::Yellow),
        search("g", "7", HighlightColor::Green),
        search("h", "8", HighlightColor::Pink),
    ];
    assert_eq!(HighlightColor::next_color(&pinned), HighlightColor::Blue);
}

#[test]
fn next_color_when_all_used_equally_is_yellow() {
    let pinned = vec![
        search("a", "1", HighlightColor::Orange),
        search("b", "2", HighlightColor::Pink),
        search("c", "3", HighlightColor::Blue),
        search("d", "4", HighlightColor::Green),
        search("e", "5", HighlightColor::Yellow),
    ];
    assert_eq!(HighlightColor::next_color(&pinned), HighlightColor::Yellow);
}

#[test]
fn id_for_millis_is_ps_and_decimal() {
    assert_eq!(PinnedSearch::id_for_millis(0), "ps_0");
    assert_eq!(PinnedSearch::id_for_millis(1700000000123), "ps_1700000000123");
}

#[test]
fn new_search_id_is_a_timestamp() {
    let search = PinnedSearch::new("x", HighlightColor::Green, true);
    let digits = &search.id[3..];
    assert!(!digits.is_empty());
    assert!(digits.chars().all(|c| c.is_ascii_digit()));
    assert!(search.case_sensitive);
    assert!(search.created_at.nanos < 1_000_000_000);
}

#[test]
fn with_id_keeps_all_fields() {
    let at = Timestamp { secs: 1_700_000_000, nanos: 5 };
    let s = PinnedSearch::with_id("ps_1".to_string(), "TODO", HighlightColor::Pink, true, at);
    assert_eq!(s.id, "ps_1");
    assert_eq!(s.pattern, "TODO");
    assert_eq!(s.color, HighlightColor::Pink);
    assert!(s.case_sensitive);
    assert!(!s.disabled);
    assert_eq!(s.created_at, at);
}

#[test]
fn decimal_rendering_in_ids() {
    assert_eq!(PinnedSearch::id_for_millis(9), "ps_9");
    assert_eq!(PinnedSearch::id_for_millis(10), "ps_10");
    assert_eq!(PinnedSearch::id_for_millis(1203), "ps_1203");
    assert_eq!(PinnedSearch::id_for_millis(u128::MAX), format!("ps_{}", u128::MAX));
}

#[test]
fn unique_id_skips_ids_in_use() {
    let in_use = vec![
        search("ps_100", "a", HighlightColor::Yellow),
        search("ps_101", "b", HighlightColor::Green),
        search("ps_103", "c", HighlightColor::Blue),
    ];
    assert_eq!(PinnedSearch::unique_id_from(Some(100), &in_use), "ps_102");
    assert_eq!(PinnedSearch::unique_id_from(Some(103), &in_use), "ps_104");
    assert_eq!(PinnedSearch::unique_id_from(Some(99), &in_use), "ps_99");
    assert_eq!(PinnedSearch::unique_id_from(None, &[]), "ps_0");
    assert_eq!(PinnedSearch::unique_id_from(Some(u128::MAX), &in_use), "ps_0");
}

#[test]
fn new_among_avoids_ids_in_use() {
    let mut pinned = Vec::new();
    for _ in 0..20 {
        let s = PinnedSearch::new_among("x", HighlightColor::Yellow, false, &pinned);
        assert!(pinned.iter().all(|p: &PinnedSearch| p.id != s.id));
        pinned.push(s);
    }
}

#[test]
fn repeated_adds_cycle_through_palette() {
    let persisted = PersistedState { directory: None, right_sidebar_open: false };
    let mut state = AppState::from_persisted(&persisted, Vec::new());
    for i in 0..12 {
        state.add_pinned_search(&format!("p{i}"), false);
    }
    let colors: Vec<HighlightColor> = state.pinned_searches.iter().map(|p| p.color).collect();
    let expected: Vec<HighlightColor> =
        HighlightColor::ALL.iter().cycle().take(12).copied().collect();
    assert_eq!(colors, expected);
    for (i, a) in state.pinned_searches.iter().enumerate() {
        for b in &state.pinned_searches[i + 1..] {
            assert_ne!(a.id, b.id);
        }
    }
}
