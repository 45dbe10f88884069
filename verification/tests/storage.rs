use arto_desktop::pinned_search::storage::{PinnedSearchFile, PinnedSearchStorage, SaveAction};
use arto_desktop::pinned_search::types::{HighlightColor, PinnedSearch, Timestamp};

fn search(id: &str, pattern: &str, color: HighlightColor) -> PinnedSearch {
    PinnedSearch::with_id(id.to_string(), pattern, color, false, Timestamp { secs: 0, nanos: 0 })
}

#[test]
fn file_path_under_config_dir() {
    assert_eq!(
        PinnedSearchStorage::file_path_in("/home/u/.config"),
        "/home/u/.config/arto/pinned-searches.json"
    );
    assert_eq!(
        PinnedSearchStorage::file_path_in("/home/u/.config/"),
        "/home/u/.config/arto/pinned-searches.json"
    );
}

#[test]
fn saving_empty_list_deletes_file() {
    assert!(matches!(PinnedSearchStorage::plan_save(Vec::new()), SaveAction::DeleteFile));
}

#[test]
fn saving_writes_version_one_with_list() {
    let pinned = vec![
        search("ps_test_1", "TODO", HighlightColor::Orange),
        search("ps_test_2", "FIXME", HighlightColor::Pink),
    ];
    match PinnedSearchStorage::plan_save(pinned.clone()) {
        SaveAction::WriteFile(file) => {
            assert_eq!(file.version, 1);
            assert_eq!(file.pinned_searches, pinned);
        }
        SaveAction::DeleteFile => panic!("a non-empty list must be written"),
    }
}

#[test]
fn load_after_save_gives_back_list() {
    let pinned = vec![
        search("ps_test_1", "TODO", HighlightColor::Orange),
        search("ps_test_2", "FIXME", HighlightColor::Pink),
    ];
    let stored = match PinnedSearchStorage::plan_save(pinned.clone()) {
        SaveAction::WriteFile(file) => Some(file),
        SaveAction::DeleteFile => None,
    };
    let loaded = PinnedSearchStorage::loaded_searches(stored);
    assert_eq!(loaded.len(), 2);
    assert_eq!(loaded[0].pattern, "TODO");
    assert_eq!(loaded[1].pattern, "FIXME");
}

#[test]
fn missing_or_invalid_file_loads_empty() {
    assert!(PinnedSearchStorage::loaded_searches(None).is_empty());
    let file = PinnedSearchFile { version: 1, pinned_searches: Vec::new() };
    assert!(PinnedSearchStorage::loaded_searches(Some(file)).is_empty());
}
