//! Storage of pinned searches on disk: where the file lives, what is written
//! and what is read back. The caller does the file-system work and the JSON
//! encoding of `PinnedSearchFile`.

use vstd::prelude::*;

use crate::paths::{join, join_path};
use super::types::PinnedSearch;

verus! {

/// Storage for pinned searches (persisted to disk).
pub struct PinnedSearchStorage;

/// Version of the file format written by `PinnedSearchStorage`.
pub const FILE_FORMAT_VERSION: u32 = 1;

/// File format for pinned searches.
#[derive(Debug, Clone)]
pub struct PinnedSearchFile {
    pub version: u32,
    pub pinned_searches: Vec<PinnedSearch>,
}

/// What saving a list of pinned searches does to the file.
#[derive(Debug, Clone)]
pub enum SaveAction {
    /// Delete the file if it exists (nothing to keep, avoid clutter).
    DeleteFile,
    /// Write the file with these contents.
    WriteFile(PinnedSearchFile),
}

/// The path of the file under the local configuration directory:
/// `<config>/arto/pinned-searches.json`.
pub open spec fn file_path_spec(config_dir: Seq<char>) -> Seq<char> {
    join_path(join_path(config_dir, "arto"@), "pinned-searches.json"@)
}

/// The pinned searches a file holds after a save: none (no file) for an empty
/// list, else the list itself.
pub open spec fn stored_after_save(pinned: Seq<PinnedSearch>) -> Option<Seq<PinnedSearch>> {
    if pinned.len() == 0 {
        None
    } else {
        Some(pinned)
    }
}

/// The pinned searches that loading gives for a file: its list when it could
/// be read and parsed, else none.
pub open spec fn loaded_from(stored: Option<Seq<PinnedSearch>>) -> Seq<PinnedSearch> {
    match stored {
        Some(pinned) => pinned,
        None => Seq::empty(),
    }
}

/// The contents a save action leaves in the file.
pub open spec fn stored_by(action: SaveAction) -> Option<Seq<PinnedSearch>> {
    match action {
        SaveAction::DeleteFile => None,
        SaveAction::WriteFile(file) => Some(file.pinned_searches@),
    }
}

impl PinnedSearchStorage {
    /// Get the path to the pinned searches file in the local configuration
    /// directory `config_dir` (e.g. `~/Library/Application Support` on macOS).
    pub fn file_path_in(config_dir: &str) -> (path: String)
        ensures
            path@ == file_path_spec(config_dir@),
    {
        let dir = join(config_dir, "arto");
        proof {
            reveal_strlit("arto");
            reveal_strlit("pinned-searches.json");
        }
        join(dir.as_str(), "pinned-searches.json")
    }

    /// What saving `pinned_searches` does: an empty list deletes the file;
    /// otherwise the file is written with the current format version.
    pub fn plan_save(pinned_searches: Vec<PinnedSearch>) -> (action: SaveAction)
        ensures
            action is DeleteFile <==> pinned_searches@.len() == 0,
            action matches SaveAction::WriteFile(file) ==> file.version == FILE_FORMAT_VERSION,
            stored_by(action) == stored_after_save(pinned_searches@),
    {
        if pinned_searches.len() == 0 {
            SaveAction::DeleteFile
        } else {
            SaveAction::WriteFile(PinnedSearchFile { version: FILE_FORMAT_VERSION, pinned_searches })
        }
    }

    /// The pinned searches to use after reading the file: `file` is the parsed
    /// file, or `None` when there is no configuration directory or the file is
    /// missing, unreadable or invalid, in which case there are none.
    pub fn loaded_searches(file: Option<PinnedSearchFile>) -> (pinned: Vec<PinnedSearch>)
        ensures
            pinned@ == loaded_from(
                match file {
                    Some(f) => Some(f.pinned_searches@),
                    None => None,
                },
            ),
    {
        match file {
            Some(f) => f.pinned_searches,
            None => Vec::new(),
        }
    }
}

/// Loading after saving gives back the saved list, in order (an empty list
/// removes the file, and a missing file loads as an empty list).
pub proof fn law_load_after_save(pinned: Seq<PinnedSearch>)
    ensures
        loaded_from(stored_after_save(pinned)) == pinned,
{
    if pinned.len() == 0 {
        assert(pinned =~= Seq::<PinnedSearch>::empty());
    }
}

} // verus!
