//! The search tab of the right sidebar: the list of matches and the list of
//! pinned searches.

use vstd::prelude::*;

use crate::pinned_search::types::{spec_css_class, HighlightColor};
use crate::text::{decimal, push_char, push_decimal};

verus! {

/// Which parts of the search tab show.
#[derive(Debug, Clone, Copy, PartialEq, Eq, Structural)]
pub struct SearchTabSections {
    /// The list of matches (there are matches).
    pub matches: bool,
    /// The list of pinned searches (there are pinned searches).
    pub pinned: bool,
    /// The "No active search" hint (there is neither).
    pub empty_state: bool,
}

/// Which parts of the search tab show, given how many matches and pinned
/// searches there are.
pub fn search_tab_sections(match_count: usize, pinned_count: usize) -> (sections: SearchTabSections)
    ensures
        sections.matches == (match_count > 0),
        sections.pinned == (pinned_count > 0),
        sections.empty_state == (match_count == 0 && pinned_count == 0),
{
    SearchTabSections {
        matches: match_count > 0,
        pinned: pinned_count > 0,
        empty_state: match_count == 0 && pinned_count == 0,
    }
}

/// The title of the matches section: `MATCHES (<count>)`.
pub open spec fn matches_title_spec(count: nat) -> Seq<char> {
    "MATCHES ("@ + decimal(count) + ")"@
}

/// The title of the matches section.
pub fn matches_title(count: usize) -> (title: String)
    ensures
        title@ == matches_title_spec(count as nat),
{
    proof {
        reveal_strlit("MATCHES (");
        reveal_strlit(")");
    }
    let mut title = String::from_str("MATCHES (");
    push_decimal(&mut title, count as u128);
    title.append(")");
    title
}

/// The CSS class of the color indicator of a match of a pattern colored `color`.
pub fn match_indicator_class(color: &str) -> (class: String)
    ensures
        class@ == "match-color-indicator highlight-"@ + color@,
{
    let mut class = String::from_str("match-color-indicator highlight-");
    class.append(color);
    class
}

/// `s` with each single quote preceded by a backslash, as `str::replace('\'', "\\'")` gives.
pub open spec fn escape_single_quotes(s: Seq<char>) -> Seq<char>
    decreases s.len(),
{
    if s.len() == 0 {
        Seq::empty()
    } else {
        escape_single_quotes(s.drop_last()) + if s.last() == '\'' {
            seq!['\\', '\'']
        } else {
            seq![s.last()]
        }
    }
}

/// The number of single quotes in `s`.
pub open spec fn quote_count(s: Seq<char>) -> nat
    decreases s.len(),
{
    if s.len() == 0 {
        0
    } else {
        quote_count(s.drop_last()) + if s.last() == '\'' {
            1nat
        } else {
            0nat
        }
    }
}

proof fn lemma_escape_concat(a: Seq<char>, b: Seq<char>)
    ensures
        escape_single_quotes(a + b) == escape_single_quotes(a) + escape_single_quotes(b),
    decreases b.len(),
{
    if b.len() == 0 {
        assert(a + b =~= a);
        assert(escape_single_quotes(a) + escape_single_quotes(b) =~= escape_single_quotes(a));
    } else {
        let b0 = b.drop_last();
        assert((a + b).drop_last() =~= a + b0);
        assert((a + b).last() == b.last());
        lemma_escape_concat(a, b0);
        let seg = if b.last() == '\'' {
            seq!['\\', '\'']
        } else {
            seq![b.last()]
        };
        assert(escape_single_quotes(a) + escape_single_quotes(b0) + seg =~= escape_single_quotes(a)
            + (escape_single_quotes(b0) + seg));
    }
}

proof fn lemma_escape_len(s: Seq<char>)
    ensures
        escape_single_quotes(s).len() == s.len() + quote_count(s),
    decreases s.len(),
{
    if s.len() > 0 {
        lemma_escape_len(s.drop_last());
    }
}

/// Every single quote of the pattern, wherever it stands, is escaped: the
/// character at position `i` of `s` stands in the output at position `i`
/// plus the number of quotes before it, a quote as a backslash followed by
/// the quote, any other character as itself; the output is that long and no
/// more; and no single quote in the output lacks a backslash before it.
pub proof fn law_every_quote_is_escaped(s: Seq<char>)
    ensures
        escape_single_quotes(s).len() == s.len() + quote_count(s),
        forall|i: int|
            0 <= i < s.len() && #[trigger] s[i] != '\'' ==> escape_single_quotes(s)[i + quote_count(
                s.take(i),
            )] == s[i],
        forall|i: int|
            0 <= i < s.len() && #[trigger] s[i] == '\'' ==> {
                &&& escape_single_quotes(s)[i + quote_count(s.take(i))] == '\\'
                &&& escape_single_quotes(s)[i + quote_count(s.take(i)) + 1] == '\''
            },
        forall|j: int|
            0 <= j < escape_single_quotes(s).len() && #[trigger] escape_single_quotes(s)[j] == '\''
                ==> j > 0 && escape_single_quotes(s)[j - 1] == '\\',
    decreases s.len(),
{
    lemma_escape_len(s);
    assert forall|i: int| 0 <= i < s.len() implies {
        let p = i + quote_count(s.take(i));
        &&& (#[trigger] s[i] != '\'' ==> escape_single_quotes(s)[p] == s[i])
        &&& (s[i] == '\'' ==> escape_single_quotes(s)[p] == '\\' && escape_single_quotes(s)[p + 1]
            == '\'')
    } by {
        let pre = s.take(i);
        let head = s.take(i + 1);
        let rest = s.skip(i + 1);
        assert(head + rest =~= s);
        lemma_escape_concat(head, rest);
        assert(head.drop_last() =~= pre);
        assert(head.last() == s[i]);
        lemma_escape_len(pre);
    }
    if s.len() > 0 {
        let init = s.drop_last();
        law_every_quote_is_escaped(init);
        let out = escape_single_quotes(s);
        let e0 = escape_single_quotes(init);
        lemma_escape_len(init);
        assert forall|j: int| 0 <= j < out.len() && #[trigger] out[j] == '\'' implies j > 0 && out[j
            - 1] == '\\' by {
            if j < e0.len() {
                assert(out[j] == e0[j]);
                assert(e0[j] == '\'');
                assert(out[j - 1] == e0[j - 1]);
            }
        }
    }
}

/// The script that scrolls the page to match `index` of `pattern`.
pub open spec fn scroll_to_match_script_spec(pattern: Seq<char>, index: nat) -> Seq<char> {
    "window.Arto.search.scrollToMatch('"@ + escape_single_quotes(pattern) + "', "@ + decimal(index)
        + ")"@
}

/// The script that scrolls the page to match `index` of `pattern`; the
/// pattern stands in a single-quoted script string, so its quotes are escaped.
pub fn scroll_to_match_script(pattern: &str, index: usize) -> (script: String)
    ensures
        script@ == scroll_to_match_script_spec(pattern@, index as nat),
{
    proof {
        reveal_strlit("window.Arto.search.scrollToMatch('");
        reveal_strlit("', ");
        reveal_strlit(")");
    }
    let mut script = String::from_str("window.Arto.search.scrollToMatch('");
    let ghost prefix = script@;
    let n = pattern.unicode_len();
    let mut i: usize = 0;
    while i < n
        invariant
            n == pattern@.len(),
            i <= n,
            script@ == prefix + escape_single_quotes(pattern@.take(i as int)),
        decreases n - i,
    {
        let c = pattern.get_char(i);
        proof {
            assert(pattern@.take(i + 1).drop_last() =~= pattern@.take(i as int));
            assert(pattern@.take(i + 1).last() == c);
        }
        if c == '\'' {
            push_char(&mut script, '\\');
            push_char(&mut script, '\'');
        } else {
            push_char(&mut script, c);
        }
        proof {
            assert(script@ =~= prefix + escape_single_quotes(pattern@.take(i + 1)));
        }
        i = i + 1;
    }
    proof {
        assert(pattern@.take(n as int) =~= pattern@);
    }
    script.append("', ");
    push_decimal(&mut script, index as u128);
    script.append(")");
    proof {
        assert(script@ =~= scroll_to_match_script_spec(pattern@, index as nat));
    }
    script
}

/// The CSS class of a pinned search in the list: its color, and `disabled`
/// when disabled (an empty word otherwise).
pub open spec fn pinned_item_class_spec(color: HighlightColor, disabled: bool) -> Seq<char> {
    "pinned-item "@ + spec_css_class(color) + " "@ + if disabled {
        "disabled"@
    } else {
        Seq::empty()
    }
}

/// The CSS class of a pinned search in the list.
pub fn pinned_item_class(color: HighlightColor, disabled: bool) -> (class: String)
    ensures
        class@ == pinned_item_class_spec(color, disabled),
{
    proof {
        reveal_strlit("pinned-item ");
        reveal_strlit(" ");
        reveal_strlit("disabled");
    }
    let mut class = String::from_str("pinned-item ");
    class.append(color.css_class());
    class.append(" ");
    if disabled {
        class.append("disabled");
    }
    proof {
        assert(class@ =~= pinned_item_class_spec(color, disabled));
    }
    class
}

/// The CSS class of the color dot of a pinned search.
pub fn pinned_dot_class(color: HighlightColor) -> (class: String)
    ensures
        class@ == "pinned-color-dot "@ + spec_css_class(color),
{
    let mut class = String::from_str("pinned-color-dot ");
    class.append(color.css_class());
    class
}

} // verus!
