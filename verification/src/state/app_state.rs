use vstd::prelude::*;

use crate::paths::{parent_of, path_parent};
use crate::pinned_search::types::{
    color_rank, color_usage, id_in_use, is_least_used_color, generated_id, HighlightColor, PinnedSearch,
};
use crate::search_match::MatchInfo;

verus! {

/// The window state that outlives the window (last focused window): the
/// directory shown in the sidebar and whether the right sidebar is open.
#[derive(Debug, Clone)]
pub struct PersistedState {
    pub directory: Option<String>,
    pub right_sidebar_open: bool,
}

/// The sidebar's file tree: its root directory and the directories expanded in it.
#[derive(Debug, Clone)]
pub struct SidebarState {
    pub root_directory: Option<String>,
    pub expanded_dirs: Vec<String>,
}

/// Per-window application state: sidebar, search bar and pinned searches.
#[derive(Debug)]
pub struct AppState {
    pub sidebar: SidebarState,
    pub right_sidebar_open: bool,
    /// Whether the search bar is open.
    pub search_open: bool,
    /// Number of matches of the current search.
    pub search_match_count: usize,
    /// Position of the current match among them.
    pub search_current_index: usize,
    /// Text to put into the search bar the next time it opens.
    pub search_initial_text: Option<String>,
    /// Pinned searches (shared by all windows).
    pub pinned_searches: Vec<PinnedSearch>,
    /// All matches of the search and the pinned searches.
    pub search_matches: Vec<MatchInfo>,
}

// ---------------------------------------------------------------------------
// The model of the pinned-search list operations
// ---------------------------------------------------------------------------

/// Index of the first pinned search with the given id, or the length of the
/// list when there is none.
pub open spec fn first_with_id(pinned: Seq<PinnedSearch>, id: Seq<char>) -> int
    decreases pinned.len(),
{
    if pinned.len() == 0 {
        0
    } else if pinned[0].id@ == id {
        0
    } else {
        1 + first_with_id(pinned.drop_first(), id)
    }
}

/// The list without the pinned searches that carry the given id, in order.
pub open spec fn without_id(pinned: Seq<PinnedSearch>, id: Seq<char>) -> Seq<PinnedSearch> {
    pinned.filter(id_differs(id))
}

/// The pinned search does not carry the given id.
pub open spec fn id_differs(id: Seq<char>) -> spec_fn(PinnedSearch) -> bool {
    |p: PinnedSearch| p.id@ != id
}

/// A pinned search with another color.
pub open spec fn with_color(p: PinnedSearch, color: HighlightColor) -> PinnedSearch {
    PinnedSearch { color: color, ..p }
}

/// A pinned search with its disabled flag flipped.
pub open spec fn with_disabled_flipped(p: PinnedSearch) -> PinnedSearch {
    PinnedSearch { disabled: !p.disabled, ..p }
}

/// The list after the first pinned search with the given id changes color.
pub open spec fn recolored(pinned: Seq<PinnedSearch>, id: Seq<char>, color: HighlightColor) -> Seq<
    PinnedSearch,
> {
    let k = first_with_id(pinned, id);
    if k < pinned.len() {
        pinned.update(k, with_color(pinned[k], color))
    } else {
        pinned
    }
}

/// The list after the first pinned search with the given id is enabled or disabled.
pub open spec fn toggled(pinned: Seq<PinnedSearch>, id: Seq<char>) -> Seq<PinnedSearch> {
    let k = first_with_id(pinned, id);
    if k < pinned.len() {
        pinned.update(k, with_disabled_flipped(pinned[k]))
    } else {
        pinned
    }
}

/// `first_with_id` finds the first match, or the length when there is none.
pub proof fn lemma_first_with_id(pinned: Seq<PinnedSearch>, id: Seq<char>)
    ensures
        0 <= first_with_id(pinned, id) <= pinned.len(),
        forall|j: int| 0 <= j < first_with_id(pinned, id) ==> #[trigger] pinned[j].id@ != id,
        first_with_id(pinned, id) < pinned.len() ==> pinned[first_with_id(pinned, id)].id@ == id,
        first_with_id(pinned, id) < pinned.len() <==> id_in_use(pinned, id),
    decreases pinned.len(),
{
    if pinned.len() > 0 && pinned[0].id@ != id {
        let rest = pinned.drop_first();
        lemma_first_with_id(rest, id);
        assert forall|j: int| 0 <= j < first_with_id(pinned, id) implies #[trigger] pinned[j].id@
            != id by {
            if j > 0 {
                assert(pinned[j] == rest[j - 1]);
            }
        }
        if id_in_use(pinned, id) {
            let i = choose|i: int| 0 <= i < pinned.len() && #[trigger] pinned[i].id@ == id;
            assert(rest[i - 1] == pinned[i]);
        }
        if id_in_use(rest, id) {
            let i = choose|i: int| 0 <= i < rest.len() && #[trigger] rest[i].id@ == id;
            assert(rest[i] == pinned[i + 1]);
        }
    } else if pinned.len() > 0 {
        assert(pinned[0].id@ == id);
    }
}

/// The state after the right sidebar is shown or hidden.
pub open spec fn right_sidebar_toggled(s: AppState) -> AppState {
    AppState { right_sidebar_open: !s.right_sidebar_open, ..s }
}

/// The state after the search bar is opened or closed: closing it clears
/// the match count and position.
pub open spec fn search_toggled(s: AppState) -> AppState {
    if s.search_open {
        AppState { search_open: false, search_match_count: 0, search_current_index: 0, ..s }
    } else {
        AppState { search_open: true, ..s }
    }
}

/// Showing or hiding the right sidebar twice gives back the same state.
pub proof fn law_right_sidebar_toggle_twice(s: AppState)
    ensures
        right_sidebar_toggled(right_sidebar_toggled(s)) == s,
{
}

/// Opening or closing the search bar twice leaves it as it was except that
/// the match count and position are cleared (the bar was closed once), and
/// whenever the search bar has just been closed it shows no matches.
pub proof fn law_search_toggle(s: AppState)
    ensures
        search_toggled(search_toggled(s)) == (AppState {
            search_match_count: 0,
            search_current_index: 0,
            ..s
        }),
        !search_toggled(s).search_open ==> search_toggled(s).search_match_count == 0
            && search_toggled(s).search_current_index == 0,
{
}

// ---------------------------------------------------------------------------
// Operations
// ---------------------------------------------------------------------------

impl AppState {
    /// The state of a new window: the right sidebar as the last focused window
    /// left it, the search bar closed, and the given pinned searches (loaded
    /// from disk).
    pub fn from_persisted(persisted: &PersistedState, pinned_searches: Vec<PinnedSearch>) -> (state:
        AppState)
        ensures
            state.right_sidebar_open == persisted.right_sidebar_open,
            state.sidebar.root_directory is None,
            state.sidebar.expanded_dirs@.len() == 0,
            !state.search_open,
            state.search_match_count == 0,
            state.search_current_index == 0,
            state.search_initial_text is None,
            state.pinned_searches@ == pinned_searches@,
            state.search_matches@.len() == 0,
    {
        AppState {
            sidebar: SidebarState { root_directory: None, expanded_dirs: Vec::new() },
            right_sidebar_open: persisted.right_sidebar_open,
            search_open: false,
            search_match_count: 0,
            search_current_index: 0,
            search_initial_text: None,
            pinned_searches,
            search_matches: Vec::new(),
        }
    }

    /// Set the root directory of the sidebar: its expanded directories are
    /// forgotten and the directory is remembered for the next window.
    ///
    /// The caller records the directory in the sidebar's navigation history;
    /// `go_back_directory` and `go_forward_directory` move within that history
    /// without recording.
    pub fn set_root_directory(&mut self, path: String, persisted: &mut PersistedState)
        ensures
            final(self).sidebar.root_directory == Some(path),
            final(self).sidebar.expanded_dirs@.len() == 0,
            *final(self) == (AppState { sidebar: final(self).sidebar, ..*old(self) }),
            *final(persisted) == (PersistedState { directory: Some(path), ..*old(persisted) }),
    {
        self.set_root_directory_no_history(path, persisted);
    }

    /// Set the root directory without adding it to the history.
    fn set_root_directory_no_history(&mut self, path: String, persisted: &mut PersistedState)
        ensures
            final(self).sidebar.root_directory == Some(path),
            final(self).sidebar.expanded_dirs@.len() == 0,
            *final(self) == (AppState { sidebar: final(self).sidebar, ..*old(self) }),
            *final(persisted) == (PersistedState { directory: Some(path), ..*old(persisted) }),
    {
        let remembered = path.clone();
        self.sidebar = SidebarState { root_directory: Some(path), expanded_dirs: Vec::new() };
        persisted.directory = Some(remembered);
    }

    /// Go back in the directory history: `target` is the entry the history
    /// steps back to, if any.
    pub fn go_back_directory(&mut self, target: Option<String>, persisted: &mut PersistedState)
        ensures
            target is None ==> *final(self) == *old(self) && *final(persisted) == *old(persisted),
            target matches Some(path) ==> {
                &&& final(self).sidebar.root_directory == Some(path)
                &&& final(self).sidebar.expanded_dirs@.len() == 0
                &&& *final(self) == (AppState { sidebar: final(self).sidebar, ..*old(self) })
                &&& *final(persisted) == (PersistedState {
                    directory: Some(path),
                    ..*old(persisted)
                })
            },
    {
        if let Some(path) = target {
            self.set_root_directory_no_history(path, persisted);
        }
    }

    /// Go forward in the directory history: `target` is the entry the history
    /// steps forward to, if any.
    pub fn go_forward_directory(&mut self, target: Option<String>, persisted: &mut PersistedState)
        ensures
            target is None ==> *final(self) == *old(self) && *final(persisted) == *old(persisted),
            target matches Some(path) ==> {
                &&& final(self).sidebar.root_directory == Some(path)
                &&& final(self).sidebar.expanded_dirs@.len() == 0
                &&& *final(self) == (AppState { sidebar: final(self).sidebar, ..*old(self) })
                &&& *final(persisted) == (PersistedState {
                    directory: Some(path),
                    ..*old(persisted)
                })
            },
    {
        if let Some(path) = target {
            self.set_root_directory_no_history(path, persisted);
        }
    }

    /// Navigate to the parent of the root directory. Returns the directory
    /// moved to (for the caller to record in the history), or `None` when
    /// there is no root directory or it has no parent.
    pub fn go_to_parent_directory(&mut self, persisted: &mut PersistedState) -> (moved_to: Option<
        String,
    >)
        ensures
            moved_to is None <==> (old(self).sidebar.root_directory matches Some(root)
                ==> path_parent(root@) is None),
            moved_to is None ==> *final(self) == *old(self) && *final(persisted) == *old(persisted),
            moved_to matches Some(parent) ==> {
                &&& old(self).sidebar.root_directory matches Some(root)
                &&& path_parent(root@) == Some(parent@)
                &&& final(self).sidebar.root_directory == Some(parent)
                &&& final(self).sidebar.expanded_dirs@.len() == 0
                &&& *final(self) == (AppState { sidebar: final(self).sidebar, ..*old(self) })
                &&& *final(persisted) == (PersistedState {
                    directory: Some(parent),
                    ..*old(persisted)
                })
            },
    {
        let parent = match &self.sidebar.root_directory {
            Some(root) => parent_of(root.as_str()),
            None => None,
        };
        match parent {
            Some(parent) => {
                let moved_to = parent.clone();
                self.set_root_directory(parent, persisted);
                Some(moved_to)
            },
            None => None,
        }
    }

    /// Toggle the right sidebar; the new visibility is remembered for the next window.
    pub fn toggle_right_sidebar(&mut self, persisted: &mut PersistedState)
        ensures
            *final(self) == right_sidebar_toggled(*old(self)),
            *final(persisted) == (PersistedState {
                right_sidebar_open: !old(self).right_sidebar_open,
                ..*old(persisted)
            }),
    {
        let new_state = !self.right_sidebar_open;
        self.right_sidebar_open = new_state;
        persisted.right_sidebar_open = new_state;
    }

    /// Toggle the search bar; closing it clears the match count and position.
    pub fn toggle_search(&mut self)
        ensures
            *final(self) == search_toggled(*old(self)),
    {
        let new_state = !self.search_open;
        self.search_open = new_state;
        if !new_state {
            self.search_match_count = 0;
            self.search_current_index = 0;
        }
    }

    /// Record the match count and current position reported by the page.
    pub fn update_search_results(&mut self, count: usize, current: usize)
        ensures
            *final(self) == (AppState {
                search_match_count: count,
                search_current_index: current,
                ..*old(self)
            }),
    {
        self.search_match_count = count;
        self.search_current_index = current;
    }

    /// Record all matches reported by the page.
    pub fn update_search_matches(&mut self, matches: Vec<MatchInfo>)
        ensures
            *final(self) == (AppState { search_matches: matches, ..*old(self) }),
    {
        self.search_matches = matches;
    }

    /// Open the search bar, to be filled with `text` when it shows.
    pub fn open_search_with_text(&mut self, text: Option<String>)
        ensures
            *final(self) == (AppState {
                search_initial_text: text,
                search_open: true,
                ..*old(self)
            }),
    {
        self.search_initial_text = text;
        self.search_open = true;
    }

    /// Add a new pinned search, colored with the least used color.
    pub fn add_pinned_search(&mut self, pattern: &str, case_sensitive: bool)
        ensures
            final(self).pinned_searches@.len() == old(self).pinned_searches@.len() + 1,
            final(self).pinned_searches@.drop_last() == old(self).pinned_searches@,
            ({
                let added = final(self).pinned_searches@.last();
                &&& added.pattern@ == pattern@
                &&& is_least_used_color(old(self).pinned_searches@, added.color)
                &&& added.case_sensitive == case_sensitive
                &&& !added.disabled
                &&& exists|millis: nat| added.id@ == generated_id(millis)
                &&& !id_in_use(old(self).pinned_searches@, added.id@)
                &&& added.created_at.nanos < 1_000_000_000
            }),
            *final(self) == (AppState { pinned_searches: final(self).pinned_searches, ..*old(self) }),
    {
        let color = HighlightColor::next_color(self.pinned_searches.as_slice());
        let search = PinnedSearch::new_among(
            pattern,
            color,
            case_sensitive,
            self.pinned_searches.as_slice(),
        );
        self.pinned_searches.push(search);
        proof {
            assert(self.pinned_searches@.drop_last() =~= old(self).pinned_searches@);
        }
    }

    /// Remove the pinned searches with the given id.
    pub fn remove_pinned_search(&mut self, id: &str)
        ensures
            final(self).pinned_searches@ == without_id(old(self).pinned_searches@, id@),
            *final(self) == (AppState { pinned_searches: final(self).pinned_searches, ..*old(self) }),
    {
        let target = id.to_owned();
        let ghost orig = self.pinned_searches@;
        let mut i: usize = 0;
        let ghost mut j: int = 0;
        proof {
            reveal(Seq::filter);
            assert(orig.take(0) =~= Seq::<PinnedSearch>::empty());
            assert(orig.skip(0) =~= orig);
            assert(self.pinned_searches@ =~= without_id(orig.take(0), id@) + orig.skip(0));
        }
        while i < self.pinned_searches.len()
            invariant
                0 <= j <= orig.len(),
                i == without_id(orig.take(j), id@).len(),
                self.pinned_searches@ == without_id(orig.take(j), id@) + orig.skip(j),
                target@ == id@,
                *self == (AppState { pinned_searches: self.pinned_searches, ..*old(self) }),
            decreases orig.len() - j,
        {
            let ghost kept = without_id(orig.take(j), id@);
            proof {
                assert(orig.take(j + 1) =~= orig.take(j).push(orig[j]));
                orig.take(j).lemma_filter_push(orig[j], id_differs(id@));
                assert(self.pinned_searches@[i as int] == orig[j]);
                assert(orig.skip(j + 1) =~= orig.skip(j).drop_first());
            }
            if self.pinned_searches[i].id == target {
                self.pinned_searches.remove(i);
                proof {
                    assert(self.pinned_searches@ =~= kept + orig.skip(j + 1));
                }
            } else {
                proof {
                    assert(kept.push(orig[j]) + orig.skip(j + 1) =~= kept + orig.skip(j));
                }
                i = i + 1;
            }
            proof {
                j = j + 1;
            }
        }
        proof {
            assert(orig.skip(j).len() == 0);
            assert(orig.take(j) =~= orig);
            assert(self.pinned_searches@ =~= without_id(orig, id@));
        }
    }

    /// Index of the first pinned search with the given id, or the length of
    /// the list when there is none.
    fn position_of_id(&self, id: &str) -> (k: usize)
        ensures
            k == first_with_id(self.pinned_searches@, id@),
    {
        let target = id.to_owned();
        let n = self.pinned_searches.len();
        let mut k: usize = 0;
        while k < n
            invariant
                n == self.pinned_searches@.len(),
                k <= n,
                target@ == id@,
                forall|j: int| 0 <= j < k ==> #[trigger] self.pinned_searches@[j].id@ != id@,
            ensures
                k <= n,
                forall|j: int| 0 <= j < k ==> #[trigger] self.pinned_searches@[j].id@ != id@,
                k == n || self.pinned_searches@[k as int].id@ == id@,
            decreases n - k,
        {
            if self.pinned_searches[k].id == target {
                break;
            }
            k = k + 1;
        }
        proof {
            let s = self.pinned_searches@;
            lemma_first_with_id(s, id@);
            let f = first_with_id(s, id@);
            if f < k {
                assert(s[f].id@ != id@);
            }
            if k < f {
                assert(s[k as int].id@ != id@);
            }
        }
        k
    }

    /// Change the color of the (first) pinned search with the given id.
    pub fn update_pinned_search_color(&mut self, id: &str, color: HighlightColor)
        ensures
            final(self).pinned_searches@ == recolored(old(self).pinned_searches@, id@, color),
            *final(self) == (AppState { pinned_searches: final(self).pinned_searches, ..*old(self) }),
    {
        let k = self.position_of_id(id);
        if k < self.pinned_searches.len() {
            let mut search = self.pinned_searches.remove(k);
            search.color = color;
            self.pinned_searches.insert(k, search);
            proof {
                assert(self.pinned_searches@ =~= recolored(old(self).pinned_searches@, id@, color));
            }
        }
    }

    /// Enable or disable the (first) pinned search with the given id.
    pub fn toggle_pinned_search(&mut self, id: &str)
        ensures
            final(self).pinned_searches@ == toggled(old(self).pinned_searches@, id@),
            *final(self) == (AppState { pinned_searches: final(self).pinned_searches, ..*old(self) }),
    {
        let k = self.position_of_id(id);
        if k < self.pinned_searches.len() {
            let mut search = self.pinned_searches.remove(k);
            search.disabled = !search.disabled;
            self.pinned_searches.insert(k, search);
            proof {
                assert(self.pinned_searches@ =~= toggled(old(self).pinned_searches@, id@));
            }
        }
    }
}

// ---------------------------------------------------------------------------
// Laws of the pinned-search operations
// ---------------------------------------------------------------------------

/// Removing a pinned search leaves no pinned search with that id, and every
/// other pinned search stays.
pub proof fn law_remove_drops_exactly_the_id(pinned: Seq<PinnedSearch>, id: Seq<char>)
    ensures
        !id_in_use(without_id(pinned, id), id),
        forall|p: PinnedSearch| #[trigger]
            without_id(pinned, id).contains(p) <==> (pinned.contains(p) && p.id@ != id),
        without_id(pinned, id).len() <= pinned.len(),
{
    broadcast use vstd::seq_lib::group_filter_ensures;

    let pred = id_differs(id);
    let w = pinned.filter(pred);
    if id_in_use(w, id) {
        let i = choose|i: int| 0 <= i < w.len() && #[trigger] w[i].id@ == id;
        assert(pred(w[i]));
    }
    assert forall|p: PinnedSearch| #[trigger]
        w.contains(p) <==> (pinned.contains(p) && p.id@ != id) by {
        if w.contains(p) {
            pinned.lemma_filter_contains_rev(pred, p);
            let i = choose|i: int| 0 <= i < w.len() && w[i] == p;
            assert(pred(w[i]));
        }
        if pinned.contains(p) && p.id@ != id {
            let i = choose|i: int| 0 <= i < pinned.len() && pinned[i] == p;
            pinned.lemma_filter_contains(pred, i);
        }
    }
}

/// Removing an id that no pinned search carries changes nothing.
pub proof fn law_remove_absent_id(pinned: Seq<PinnedSearch>, id: Seq<char>)
    requires
        !id_in_use(pinned, id),
    ensures
        without_id(pinned, id) == pinned,
    decreases pinned.len(),
{
    if pinned.len() > 0 {
        let init = pinned.drop_last();
        assert(pinned[pinned.len() - 1].id@ != id);
        if id_in_use(init, id) {
            let i = choose|i: int| 0 <= i < init.len() && #[trigger] init[i].id@ == id;
            assert(pinned[i] == init[i]);
        }
        law_remove_absent_id(init, id);
        assert(init.push(pinned.last()) =~= pinned);
        init.lemma_filter_push(pinned.last(), id_differs(id));
    } else {
        reveal(Seq::filter);
    }
}

/// Removing the same id twice is the same as removing it once.
pub proof fn law_remove_idempotent(pinned: Seq<PinnedSearch>, id: Seq<char>)
    ensures
        without_id(without_id(pinned, id), id) == without_id(pinned, id),
{
    law_remove_drops_exactly_the_id(pinned, id);
    law_remove_absent_id(without_id(pinned, id), id);
}

/// Removing a pinned search right after adding it gives back the list as it
/// was, when its id was not in use.
pub proof fn law_add_then_remove(pinned: Seq<PinnedSearch>, added: PinnedSearch)
    requires
        !id_in_use(pinned, added.id@),
    ensures
        without_id(pinned.push(added), added.id@) == pinned,
{
    pinned.lemma_filter_push(added, id_differs(added.id@));
    law_remove_absent_id(pinned, added.id@);
}

/// No two pinned searches in the list carry the same id.
pub open spec fn ids_distinct(pinned: Seq<PinnedSearch>) -> bool {
    forall|i: int, j: int|
        0 <= i < j < pinned.len() ==> #[trigger] pinned[i].id@ != #[trigger] pinned[j].id@
}

/// Adding a pinned search whose id is not in use (as `add_pinned_search`
/// does) keeps the ids distinct; so does removing, recoloring or toggling.
pub proof fn law_ids_stay_distinct(
    pinned: Seq<PinnedSearch>,
    added: PinnedSearch,
    id: Seq<char>,
    color: HighlightColor,
)
    requires
        ids_distinct(pinned),
    ensures
        !id_in_use(pinned, added.id@) ==> ids_distinct(pinned.push(added)),
        ids_distinct(without_id(pinned, id)),
        ids_distinct(recolored(pinned, id, color)),
        ids_distinct(toggled(pinned, id)),
{
    broadcast use vstd::seq_lib::group_filter_ensures;

    if !id_in_use(pinned, added.id@) {
        let q = pinned.push(added);
        assert forall|i: int, j: int| 0 <= i < j < q.len() implies #[trigger] q[i].id@
            != #[trigger] q[j].id@ by {
            if j == pinned.len() {
                assert(q[i] == pinned[i]);
            } else {
                assert(q[i] == pinned[i] && q[j] == pinned[j]);
            }
        }
    }
    lemma_filter_keeps_distinct(pinned, id_differs(id));
    lemma_first_with_id(pinned, id);
}

/// A filtered list of distinct ids has distinct ids.
proof fn lemma_filter_keeps_distinct(pinned: Seq<PinnedSearch>, pred: spec_fn(PinnedSearch) -> bool)
    requires
        ids_distinct(pinned),
    ensures
        ids_distinct(pinned.filter(pred)),
    decreases pinned.len(),
{
    reveal(Seq::filter);
    if pinned.len() > 0 {
        let init = pinned.drop_last();
        assert forall|i: int, j: int| 0 <= i < j < init.len() implies #[trigger] init[i].id@
            != #[trigger] init[j].id@ by {
            assert(init[i] == pinned[i] && init[j] == pinned[j]);
        }
        lemma_filter_keeps_distinct(init, pred);
        if pred(pinned.last()) {
            let f = init.filter(pred);
            let q = f.push(pinned.last());
            assert forall|i: int, j: int| 0 <= i < j < q.len() implies #[trigger] q[i].id@
                != #[trigger] q[j].id@ by {
                if j == f.len() {
                    assert(q[i] == f[i]);
                    assert(f.contains(f[i]));
                    init.lemma_filter_contains_rev(pred, f[i]);
                    let k = choose|k: int| 0 <= k < init.len() && init[k] == f[i];
                    assert(pinned[k] == init[k]);
                    assert(pinned[pinned.len() - 1] == pinned.last());
                } else {
                    assert(q[i] == f[i] && q[j] == f[j]);
                }
            }
        }
    }
}

/// Enabling or disabling the same pinned search twice gives back the list.
pub proof fn law_toggle_twice(pinned: Seq<PinnedSearch>, id: Seq<char>)
    ensures
        toggled(toggled(pinned, id), id) == pinned,
{
    lemma_first_with_id(pinned, id);
    let k = first_with_id(pinned, id);
    if k < pinned.len() {
        let once = toggled(pinned, id);
        lemma_first_with_id(once, id);
        assert(once[k].id@ == id);
        assert forall|j: int| 0 <= j < k implies #[trigger] once[j].id@ != id by {
            assert(once[j] == pinned[j]);
        }
        if first_with_id(once, id) < k {
            let j = first_with_id(once, id);
            assert(once[j] == pinned[j]);
        }
        assert(first_with_id(once, id) == k);
        assert(toggled(once, id) =~= pinned);
    }
}

/// `k` is the position of the first pinned search carrying `id`.
pub open spec fn is_first_with_id(pinned: Seq<PinnedSearch>, id: Seq<char>, k: int) -> bool {
    &&& 0 <= k < pinned.len()
    &&& pinned[k].id@ == id
    &&& forall|j: int| 0 <= j < k ==> #[trigger] pinned[j].id@ != id
}

/// Changing the color of a pinned search changes only its color: the first
/// pinned search with the id gets the new color and keeps its id, pattern,
/// case sensitivity, enabled state and creation time; every other pinned
/// search is unchanged; and without such an id nothing changes.
pub proof fn law_recolor_changes_only_the_color(
    pinned: Seq<PinnedSearch>,
    id: Seq<char>,
    color: HighlightColor,
)
    ensures
        recolored(pinned, id, color).len() == pinned.len(),
        forall|k: int|
            0 <= k < pinned.len() && !is_first_with_id(pinned, id, k) ==> #[trigger] recolored(
                pinned,
                id,
                color,
            )[k] == pinned[k],
        forall|k: int|
            #![trigger recolored(pinned, id, color)[k]]
            is_first_with_id(pinned, id, k) ==> {
                let r = recolored(pinned, id, color)[k];
                &&& r.color == color
                &&& r.id == pinned[k].id
                &&& r.pattern == pinned[k].pattern
                &&& r.case_sensitive == pinned[k].case_sensitive
                &&& r.disabled == pinned[k].disabled
                &&& r.created_at == pinned[k].created_at
            },
        !id_in_use(pinned, id) ==> recolored(pinned, id, color) == pinned,
{
    lemma_first_with_id(pinned, id);
    lemma_first_is_unique(pinned, id);
}

/// Enabling or disabling a pinned search touches only that one: the first
/// pinned search with the id has its enabled state flipped and keeps its id,
/// pattern, color, case sensitivity and creation time; every other pinned
/// search is unchanged; and without such an id nothing changes.
pub proof fn law_toggle_flips_only_that_search(pinned: Seq<PinnedSearch>, id: Seq<char>)
    ensures
        toggled(pinned, id).len() == pinned.len(),
        forall|k: int|
            0 <= k < pinned.len() && !is_first_with_id(pinned, id, k) ==> #[trigger] toggled(
                pinned,
                id,
            )[k] == pinned[k],
        forall|k: int|
            #![trigger toggled(pinned, id)[k]]
            is_first_with_id(pinned, id, k) ==> {
                let r = toggled(pinned, id)[k];
                &&& r.disabled == !pinned[k].disabled
                &&& r.id == pinned[k].id
                &&& r.pattern == pinned[k].pattern
                &&& r.color == pinned[k].color
                &&& r.case_sensitive == pinned[k].case_sensitive
                &&& r.created_at == pinned[k].created_at
            },
        !id_in_use(pinned, id) ==> toggled(pinned, id) == pinned,
{
    lemma_first_with_id(pinned, id);
    lemma_first_is_unique(pinned, id);
}

/// The first position with an id is the one `first_with_id` finds.
proof fn lemma_first_is_unique(pinned: Seq<PinnedSearch>, id: Seq<char>)
    ensures
        forall|k: int| is_first_with_id(pinned, id, k) ==> k == first_with_id(pinned, id),
{
    lemma_first_with_id(pinned, id);
    assert forall|k: int| is_first_with_id(pinned, id, k) implies k == first_with_id(
        pinned,
        id,
    ) by {
        let f = first_with_id(pinned, id);
        if f < k {
            assert(pinned[f].id@ != id);
        }
        if k < f {
            assert(pinned[k].id@ != id);
        }
    }
}

/// Changing a color twice is the same as changing it once to the second color.
pub proof fn law_recolor_last_wins(
    pinned: Seq<PinnedSearch>,
    id: Seq<char>,
    first: HighlightColor,
    second: HighlightColor,
)
    ensures
        recolored(recolored(pinned, id, first), id, second) == recolored(pinned, id, second),
{
    lemma_first_with_id(pinned, id);
    let k = first_with_id(pinned, id);
    let once = recolored(pinned, id, first);
    lemma_first_with_id(once, id);
    if k < pinned.len() {
        assert(once[k].id@ == id);
        if first_with_id(once, id) < k {
            let j = first_with_id(once, id);
            assert(once[j] == pinned[j]);
        }
        assert(first_with_id(once, id) == k);
        assert(recolored(once, id, second) =~= recolored(pinned, id, second));
    } else {
        assert(once == pinned);
    }
}

/// Enabling or disabling a pinned search does not change how often each color
/// is used, so the color picked for the next pinned search stays the same.
pub proof fn law_toggle_keeps_color_usage(
    pinned: Seq<PinnedSearch>,
    id: Seq<char>,
    color: HighlightColor,
)
    ensures
        color_usage(toggled(pinned, id), color) == color_usage(pinned, color),
        forall|c: HighlightColor|
            is_least_used_color(toggled(pinned, id), c) <==> is_least_used_color(pinned, c),
{
    lemma_toggle_keeps_usage(pinned, id);
    let t = toggled(pinned, id);
    assert forall|c: HighlightColor|
        is_least_used_color(t, c) <==> is_least_used_color(pinned, c) by {
        assert(color_usage(t, c) == color_usage(pinned, c));
        if is_least_used_color(pinned, c) {
            assert forall|o: HighlightColor| color_usage(t, c) <= color_usage(t, o) by {
                assert(color_usage(t, o) == color_usage(pinned, o));
            }
            assert forall|o: HighlightColor|
                color_rank(o) < color_rank(c) implies color_usage(t, c) < color_usage(t, o) by {
                assert(color_usage(t, o) == color_usage(pinned, o));
            }
        }
        if is_least_used_color(t, c) {
            assert forall|o: HighlightColor|
                color_usage(pinned, c) <= color_usage(pinned, o) by {
                assert(color_usage(t, o) == color_usage(pinned, o));
            }
            assert forall|o: HighlightColor|
                color_rank(o) < color_rank(c) implies color_usage(pinned, c) < color_usage(
                pinned,
                o,
            ) by {
                assert(color_usage(t, o) == color_usage(pinned, o));
            }
        }
    }
}

proof fn lemma_toggle_keeps_usage(pinned: Seq<PinnedSearch>, id: Seq<char>)
    ensures
        forall|c: HighlightColor| #[trigger]
            color_usage(toggled(pinned, id), c) == color_usage(pinned, c),
{
    lemma_first_with_id(pinned, id);
    let k = first_with_id(pinned, id);
    if k < pinned.len() {
        assert forall|c: HighlightColor| #[trigger]
            color_usage(toggled(pinned, id), c) == color_usage(pinned, c) by {
            lemma_usage_update(pinned, k, with_disabled_flipped(pinned[k]), c);
        }
    }
}

/// Replacing one element by one of the same color keeps the usage counts.
proof fn lemma_usage_update(pinned: Seq<PinnedSearch>, k: int, p: PinnedSearch, c: HighlightColor)
    requires
        0 <= k < pinned.len(),
        p.color == pinned[k].color,
    ensures
        color_usage(pinned.update(k, p), c) == color_usage(pinned, c),
    decreases pinned.len(),
{
    let updated = pinned.update(k, p);
    if k == pinned.len() - 1 {
        assert(updated.drop_last() =~= pinned.drop_last());
    } else {
        lemma_usage_update(pinned.drop_last(), k, p, c);
        assert(updated.drop_last() =~= pinned.drop_last().update(k, p));
    }
}

} // verus!
