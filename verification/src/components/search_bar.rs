//! The search bar: its scripts, its labels, and what pinning the current
//! query and opening with a given text do to the window state.

use vstd::prelude::*;

use crate::pinned_search::types::{generated_id, id_in_use, is_least_used_color};
use crate::state::AppState;
use crate::text::{decimal, json_string, json_string_literal, push_decimal};

verus! {

/// Script that runs the search for the text in the search input.
pub const JS_FIND: &'static str =
    "\n    const input = document.querySelector('.search-input');\n    if (input) window.Arto.search.find(input.value);\n";

/// Script that clears the search input and the highlights.
pub const JS_CLEAR: &'static str =
    "\n    const input = document.querySelector('.search-input');\n    if (input) {\n        input.value = '';\n        input.focus();\n    }\n    window.Arto.search.clear();\n";

/// Direction of a step between matches.
#[derive(Debug, Clone, Copy, PartialEq, Eq, Structural)]
pub enum Direction {
    Prev,
    Next,
}

/// The name the page's search script gives a direction.
pub open spec fn direction_name(direction: Direction) -> Seq<char> {
    match direction {
        Direction::Prev => "prev"@,
        Direction::Next => "next"@,
    }
}

/// The direction of Enter in the search input: backwards with Shift.
pub fn enter_direction(shift: bool) -> (direction: Direction)
    ensures
        direction == (if shift {
            Direction::Prev
        } else {
            Direction::Next
        }),
{
    if shift {
        Direction::Prev
    } else {
        Direction::Next
    }
}

/// The script that moves to the next or previous match.
pub fn navigate_script(direction: Direction) -> (script: String)
    ensures
        script@ == "window.Arto.search.navigate('"@ + direction_name(direction) + "')"@,
{
    proof {
        reveal_strlit("prev");
        reveal_strlit("next");
    }
    let mut script = String::from_str("window.Arto.search.navigate('");
    match direction {
        Direction::Prev => script.append("prev"),
        Direction::Next => script.append("next"),
    }
    script.append("')");
    script
}

/// Which controls of the search bar are enabled or shown.
#[derive(Debug, Clone, Copy, PartialEq, Eq, Structural)]
pub struct SearchBarControls {
    /// The clear button shows (there is a query).
    pub clear_button: bool,
    /// The pin button is disabled (there is no query to pin).
    pub pin_disabled: bool,
    /// The previous/next buttons are disabled (there are no matches).
    pub navigation_disabled: bool,
    /// The row of pinned searches shows (there are pinned searches).
    pub pinned_row: bool,
}

/// Which controls of the search bar are enabled or shown, given the current
/// query, the number of matches and the number of pinned searches.
pub fn search_bar_controls(query: &str, match_count: usize, pinned_count: usize) -> (controls:
    SearchBarControls)
    ensures
        controls.clear_button == (query@.len() > 0),
        controls.pin_disabled == (query@.len() == 0),
        controls.navigation_disabled == (match_count == 0),
        controls.pinned_row == (pinned_count > 0),
{
    let empty = query.is_empty();
    SearchBarControls {
        clear_button: !empty,
        pin_disabled: empty,
        navigation_disabled: match_count == 0,
        pinned_row: pinned_count > 0,
    }
}

/// The CSS class of the search bar.
pub fn search_bar_class(is_open: bool) -> (class: &'static str)
    ensures
        class@ == (if is_open {
            "search-bar search-bar--open"@
        } else {
            "search-bar"@
        }),
{
    if is_open {
        "search-bar search-bar--open"
    } else {
        "search-bar"
    }
}

/// The match counter: `<current>/<count>`.
pub fn match_counter(current: usize, count: usize) -> (label: String)
    ensures
        label@ == decimal(current as nat) + "/"@ + decimal(count as nat),
{
    proof {
        reveal_strlit("/");
    }
    let mut label = String::new();
    push_decimal(&mut label, current as u128);
    label.append("/");
    push_decimal(&mut label, count as u128);
    proof {
        assert(label@ =~= decimal(current as nat) + "/"@ + decimal(count as nat));
    }
    label
}

/// Text of the script that fills the search input with a text given as a
/// JSON string literal, selects it and searches for it.
pub open spec fn initial_search_script_spec(text: Seq<char>) -> Seq<char> {
    "\n                        const input = document.querySelector('.search-input');\n                        if (input) {\n                            input.value = "@
        + json_string_literal(text)
        + ";\n                            input.focus();\n                            input.select();\n                            window.Arto.search.find(input.value);\n                        }\n                        "@
}

/// The script that fills the search input with `text`, selects it and
/// searches for it; the text is written as a JSON string literal, which the
/// script reads safely whatever the text holds.
pub fn initial_search_script(text: &str) -> (script: String)
    ensures
        script@ == initial_search_script_spec(text@),
{
    let mut script = String::from_str(
        "\n                        const input = document.querySelector('.search-input');\n                        if (input) {\n                            input.value = ",
    );
    let json = json_string(text);
    script.append(json.as_str());
    script.append(
        ";\n                            input.focus();\n                            input.select();\n                            window.Arto.search.find(input.value);\n                        }\n                        ",
    );
    script
}

impl AppState {
    /// Pin the current search query: a non-empty query becomes a new pinned
    /// search (case-insensitive) and the match count and position are reset,
    /// after which the caller clears the search input. Returns whether the
    /// query was pinned; an empty query changes nothing.
    pub fn pin_query(&mut self, query: &str) -> (pinned: bool)
        ensures
            pinned == (query@.len() > 0),
            !pinned ==> *final(self) == *old(self),
            pinned ==> {
                &&& final(self).pinned_searches@.len() == old(self).pinned_searches@.len() + 1
                &&& final(self).pinned_searches@.drop_last() == old(self).pinned_searches@
                &&& final(self).pinned_searches@.last().pattern@ == query@
                &&& is_least_used_color(
                    old(self).pinned_searches@,
                    final(self).pinned_searches@.last().color,
                )
                &&& !final(self).pinned_searches@.last().case_sensitive
                &&& !final(self).pinned_searches@.last().disabled
                &&& exists|millis: nat|
                    final(self).pinned_searches@.last().id@ == generated_id(millis)
                &&& !id_in_use(old(self).pinned_searches@, final(self).pinned_searches@.last().id@)
                &&& final(self).pinned_searches@.last().created_at.nanos < 1_000_000_000
                &&& *final(self) == (AppState {
                    pinned_searches: final(self).pinned_searches,
                    search_match_count: 0,
                    search_current_index: 0,
                    ..*old(self)
                })
            },
    {
        if query.is_empty() {
            return false;
        }
        self.add_pinned_search(query, false);
        self.update_search_results(0, 0);
        true
    }

    /// Take the text the search bar should be filled with now: while the bar
    /// is open, a pending initial text is consumed (an empty one is dropped
    /// without a search). Returns the text to put into the input and search for.
    pub fn take_initial_search_text(&mut self) -> (text: Option<String>)
        ensures
            (old(self).search_open && old(self).search_initial_text is Some) ==> {
                &&& *final(self) == (AppState { search_initial_text: None, ..*old(self) })
                &&& text == (if old(self).search_initial_text.unwrap()@.len() > 0 {
                    old(self).search_initial_text
                } else {
                    None
                })
            },
            !(old(self).search_open && old(self).search_initial_text is Some) ==> {
                &&& *final(self) == *old(self)
                &&& text is None
            },
    {
        if !self.search_open {
            return None;
        }
        match self.search_initial_text.take() {
            Some(text) => {
                if text.as_str().is_empty() {
                    None
                } else {
                    Some(text)
                }
            },
            None => None,
        }
    }
}

} // verus!
