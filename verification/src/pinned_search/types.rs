use vstd::prelude::*;

use crate::text::{decimal, lemma_decimal_digits, lemma_decimal_injective, push_decimal};
use vstd::set_lib::{lemma_int_range, lemma_len_subset, lemma_map_size, set_int_range};
use vstd::relations::injective_on;

verus! {

/// Unique identifier for a pinned search.
pub type PinnedSearchId = String;

/// Highlight color for pinned searches.
#[derive(Debug, Clone, Copy, PartialEq, Eq, Hash, Structural)]
pub enum HighlightColor {
    Yellow,
    Green,
    Blue,
    Pink,
    Orange,
}

/// The CSS class name of a color.
pub open spec fn spec_css_class(color: HighlightColor) -> Seq<char> {
    match color {
        HighlightColor::Yellow => "highlight-yellow"@,
        HighlightColor::Green => "highlight-green"@,
        HighlightColor::Blue => "highlight-blue"@,
        HighlightColor::Pink => "highlight-pink"@,
        HighlightColor::Orange => "highlight-orange"@,
    }
}

impl Default for HighlightColor {
    /// The default color is yellow.
    fn default() -> (color: HighlightColor)
        ensures
            color == HighlightColor::Yellow,
    {
        HighlightColor::Yellow
    }
}

/// The palette order of the colors (the order of `HighlightColor::ALL`).
pub open spec fn color_rank(color: HighlightColor) -> int {
    match color {
        HighlightColor::Yellow => 0,
        HighlightColor::Green => 1,
        HighlightColor::Blue => 2,
        HighlightColor::Pink => 3,
        HighlightColor::Orange => 4,
    }
}

/// How many of the pinned searches use `color`.
pub open spec fn color_usage(pinned: Seq<PinnedSearch>, color: HighlightColor) -> nat
    decreases pinned.len(),
{
    if pinned.len() == 0 {
        0
    } else {
        color_usage(pinned.drop_last(), color) + if pinned.last().color == color {
            1nat
        } else {
            0nat
        }
    }
}

/// `color` is the least used color among `pinned`, and no color earlier in
/// palette order is used as little.
pub open spec fn is_least_used_color(pinned: Seq<PinnedSearch>, color: HighlightColor) -> bool {
    &&& forall|other: HighlightColor| color_usage(pinned, color) <= color_usage(pinned, other)
    &&& forall|other: HighlightColor|
        color_rank(other) < color_rank(color) ==> color_usage(pinned, color) < color_usage(
            pinned,
            other,
        )
}

impl HighlightColor {
    /// All available colors.
    pub const ALL: [HighlightColor; 5] = [
        HighlightColor::Yellow,
        HighlightColor::Green,
        HighlightColor::Blue,
        HighlightColor::Pink,
        HighlightColor::Orange,
    ];

    /// Get the CSS class name for this color.
    pub fn css_class(&self) -> (class: &'static str)
        ensures
            class@ == spec_css_class(*self),
    {
        match self {
            HighlightColor::Yellow => "highlight-yellow",
            HighlightColor::Green => "highlight-green",
            HighlightColor::Blue => "highlight-blue",
            HighlightColor::Pink => "highlight-pink",
            HighlightColor::Orange => "highlight-orange",
        }
    }
}

/// A point in time in UTC: whole seconds since the Unix epoch and the
/// nanoseconds within that second (up to 1_999_999_999 during a leap second).
#[derive(Debug, Clone, Copy, PartialEq, Eq, Structural)]
pub struct Timestamp {
    pub secs: i64,
    pub nanos: u32,
}

/// Reads the current time: `chrono::DateTime::<chrono::Utc>::from` applied to
/// `std::time::SystemTime::now()`.
///
/// chrono converts readings before the Unix epoch as well (negative
/// seconds); the nanosecond part it produces is always below one second.
/// Its conversion unwraps only for seconds outside chrono's range of about
/// ±262,000 years, which no system clock reading reaches.
#[verifier::external_body]
fn utc_now() -> (t: Timestamp)
    ensures
        t.nanos < 1_000_000_000,
{
    let now = chrono::DateTime::<chrono::Utc>::from(std::time::SystemTime::now());
    Timestamp { secs: now.timestamp(), nanos: now.timestamp_subsec_nanos() }
}

/// A pinned search query with color and settings.
#[derive(Debug, Clone, PartialEq, Eq)]
pub struct PinnedSearch {
    pub id: PinnedSearchId,
    pub pattern: String,
    pub color: HighlightColor,
    pub case_sensitive: bool,
    pub disabled: bool,
    pub created_at: Timestamp,
}


impl HighlightColor {
    /// Get the next color to use based on current usage: the least used
    /// color, so that colors are distributed evenly. Ties go to the color that
    /// comes first in palette order.
    pub fn next_color(pinned: &[PinnedSearch]) -> (color: HighlightColor)
        ensures
            is_least_used_color(pinned@, color),
    {
        let mut yellow: usize = 0;
        let mut green: usize = 0;
        let mut blue: usize = 0;
        let mut pink: usize = 0;
        let mut orange: usize = 0;
        let n = pinned.len();
        let mut i: usize = 0;
        while i < n
            invariant
                n == pinned@.len(),
                i <= n,
                yellow + green + blue + pink + orange == i,
                yellow == color_usage(pinned@.take(i as int), HighlightColor::Yellow),
                green == color_usage(pinned@.take(i as int), HighlightColor::Green),
                blue == color_usage(pinned@.take(i as int), HighlightColor::Blue),
                pink == color_usage(pinned@.take(i as int), HighlightColor::Pink),
                orange == color_usage(pinned@.take(i as int), HighlightColor::Orange),
            decreases n - i,
        {
            proof {
                assert(pinned@.take(i + 1).drop_last() =~= pinned@.take(i as int));
                assert(pinned@.take(i + 1).last() == pinned@[i as int]);
            }
            match pinned[i].color {
                HighlightColor::Yellow => yellow = yellow + 1,
                HighlightColor::Green => green = green + 1,
                HighlightColor::Blue => blue = blue + 1,
                HighlightColor::Pink => pink = pink + 1,
                HighlightColor::Orange => orange = orange + 1,
            }
            i = i + 1;
        }
        proof {
            assert(pinned@.take(n as int) =~= pinned@);
        }
        let mut best = HighlightColor::Yellow;
        let mut best_count = yellow;
        if green < best_count {
            best = HighlightColor::Green;
            best_count = green;
        }
        if blue < best_count {
            best = HighlightColor::Blue;
            best_count = blue;
        }
        if pink < best_count {
            best = HighlightColor::Pink;
            best_count = pink;
        }
        if orange < best_count {
            best = HighlightColor::Orange;
            best_count = orange;
        }
        proof {
            assert(best_count == color_usage(pinned@, best));
            assert forall|other: HighlightColor|
                color_usage(pinned@, best) <= color_usage(pinned@, other) by {
                match other {
                    HighlightColor::Yellow => {},
                    HighlightColor::Green => {},
                    HighlightColor::Blue => {},
                    HighlightColor::Pink => {},
                    HighlightColor::Orange => {},
                }
            }
            assert forall|other: HighlightColor|
                color_rank(other) < color_rank(best) implies color_usage(pinned@, best)
                < color_usage(pinned@, other) by {
                match other {
                    HighlightColor::Yellow => {},
                    HighlightColor::Green => {},
                    HighlightColor::Blue => {},
                    HighlightColor::Pink => {},
                    HighlightColor::Orange => {},
                }
            }
        }
        best
    }
}

/// No color is used more than once more than any other.
pub open spec fn colors_balanced(pinned: Seq<PinnedSearch>) -> bool {
    forall|a: HighlightColor, b: HighlightColor|
        #[trigger] color_usage(pinned, a) <= #[trigger] color_usage(pinned, b) + 1
}

/// Colors stay evenly distributed: with no pinned searches the colors are
/// balanced, and adding a pinned search in a least used color (as
/// `add_pinned_search` does with `next_color`) keeps them balanced, so after
/// any run of additions the usage counts differ by at most one.
pub proof fn law_least_used_keeps_balance(pinned: Seq<PinnedSearch>, added: PinnedSearch)
    requires
        colors_balanced(pinned),
        is_least_used_color(pinned, added.color),
    ensures
        colors_balanced(Seq::<PinnedSearch>::empty()),
        colors_balanced(pinned.push(added)),
{
    let q = pinned.push(added);
    assert(q.drop_last() =~= pinned);
    assert forall|a: HighlightColor, b: HighlightColor|
        #[trigger] color_usage(q, a) <= #[trigger] color_usage(q, b) + 1 by {
        assert(color_usage(pinned, a) <= color_usage(pinned, b) + 1);
        if a == added.color {
            assert(color_usage(pinned, a) <= color_usage(pinned, b));
        }
    }
}

/// Ids handed out to new pinned searches: `ps_` followed by a decimal
/// millisecond timestamp.
pub open spec fn generated_id(millis: nat) -> Seq<char> {
    "ps_"@ + decimal(millis)
}

/// A generated id is `ps_` followed by one or more decimal digits.
pub proof fn law_generated_id_shape(millis: nat)
    ensures
        generated_id(millis).len() >= 4,
        generated_id(millis).take(3) == "ps_"@,
        forall|i: int|
            3 <= i < generated_id(millis).len() ==> '0' <= #[trigger] generated_id(millis)[i]
                <= '9',
{
    reveal_strlit("ps_");
    lemma_decimal_digits(millis);
    let id = generated_id(millis);
    assert(id.take(3) =~= "ps_"@);
    assert forall|i: int| 3 <= i < id.len() implies '0' <= #[trigger] id[i] <= '9' by {
        assert(id[i] == decimal(millis)[i - 3]);
    }
}

/// Some pinned search in the list carries the id.
pub open spec fn id_in_use(pinned: Seq<PinnedSearch>, id: Seq<char>) -> bool {
    exists|i: int| 0 <= i < pinned.len() && #[trigger] pinned[i].id@ == id
}

/// The `u`-th id tried when ids are counted up from millisecond `base`.
pub open spec fn candidate_id(base: nat, u: nat) -> Seq<char> {
    generated_id(base + u)
}

/// The millisecond the id search starts from (see `PinnedSearch::unique_id_from`).
pub open spec fn id_base(clock: Option<u128>, in_use: nat) -> nat {
    let start: nat = match clock {
        Some(m) => m as nat,
        None => 0,
    };
    if start + in_use <= u128::MAX {
        start
    } else {
        0
    }
}

/// Different milliseconds give different ids.
pub proof fn lemma_generated_id_injective(a: nat, b: nat)
    requires
        generated_id(a) == generated_id(b),
    ensures
        a == b,
{
    reveal_strlit("ps_");
    let p = "ps_"@;
    assert(decimal(a) =~= generated_id(a).subrange(3, generated_id(a).len() as int));
    assert(decimal(b) =~= generated_id(b).subrange(3, generated_id(b).len() as int));
    lemma_decimal_injective(a, b);
}

/// If the first `k` ids counted up from `base` are all in use, the list has
/// at least `k` pinned searches.
proof fn lemma_used_ids_bound(pinned: Seq<PinnedSearch>, base: nat, k: nat)
    requires
        forall|u: nat| u < k ==> id_in_use(pinned, #[trigger] candidate_id(base, u)),
    ensures
        k <= pinned.len(),
{
    broadcast use vstd::seq_lib::seq_to_set_is_finite;

    let dom = set_int_range(0, k as int);
    lemma_int_range(0, k as int);
    let f = |u: int| generated_id((base + u) as nat);
    assert forall|u1: int, u2: int|
        dom.contains(u1) && dom.contains(u2) && #[trigger] f(u1) == #[trigger] f(u2) implies u1
        == u2 by {
        lemma_generated_id_injective((base + u1) as nat, (base + u2) as nat);
    }
    assert(injective_on(f, dom));
    let img = dom.map(f);
    lemma_map_size(dom, img, f);
    let ids = pinned.map_values(|p: PinnedSearch| p.id@);
    ids.lemma_cardinality_of_set();
    assert forall|x: Seq<char>| img.contains(x) implies ids.to_set().contains(x) by {
        let u = choose|u: int| dom.contains(u) && f(u) == x;
        assert(candidate_id(base, u as nat) == x);
        assert(id_in_use(pinned, candidate_id(base, u as nat)));
        let i = choose|i: int| 0 <= i < pinned.len() && #[trigger] pinned[i].id@ == x;
        assert(ids[i] == x);
        assert(ids.contains(x));
    }
    lemma_len_subset(img, ids.to_set());
}

/// Whether some pinned search in the list carries the id.
fn id_is_used(pinned: &[PinnedSearch], id: &String) -> (used: bool)
    ensures
        used == id_in_use(pinned@, id@),
{
    let n = pinned.len();
    let mut i: usize = 0;
    while i < n
        invariant
            n == pinned@.len(),
            i <= n,
            forall|j: int| 0 <= j < i ==> #[trigger] pinned@[j].id@ != id@,
        decreases n - i,
    {
        if pinned[i].id == *id {
            return true;
        }
        i = i + 1;
    }
    false
}

/// Reads the milliseconds since the Unix epoch with `SystemTime::elapsed` on
/// `std::time::UNIX_EPOCH`.
///
/// Returns `None` when the system clock reads a time before the epoch (the
/// call fails); nothing is claimed of the value otherwise.
#[verifier::external_body]
fn unix_time_millis() -> Option<u128> {
    match std::time::UNIX_EPOCH.elapsed() {
        Ok(elapsed) => Some(elapsed.as_millis()),
        Err(_) => None,
    }
}

impl PinnedSearch {
    /// The id for a pinned search created `millis` milliseconds after the Unix epoch.
    pub fn id_for_millis(millis: u128) -> (id: PinnedSearchId)
        ensures
            id@ == generated_id(millis as nat),
    {
        let mut id = String::new();
        id.append("ps_");
        push_decimal(&mut id, millis);
        proof {
            reveal_strlit("ps_");
            assert(id@ =~= generated_id(millis as nat));
        }
        id
    }

    /// The id for a new pinned search: `ps_` and the milliseconds that `clock`
    /// read since the Unix epoch (zero when the clock read before it), moved on
    /// to the next millisecond while the id is already carried by one of
    /// `in_use`. (Were the clock within `in_use.len()` milliseconds of the
    /// largest `u128`, the count starts at zero instead.)
    pub fn unique_id_from(clock: Option<u128>, in_use: &[PinnedSearch]) -> (id: PinnedSearchId)
        ensures
            !id_in_use(in_use@, id@),
            exists|t: nat|
                {
                    &&& #[trigger] candidate_id(id_base(clock, in_use@.len()), t) == id@
                    &&& forall|u: nat|
                        u < t ==> id_in_use(in_use@, #[trigger] candidate_id(
                            id_base(clock, in_use@.len()),
                            u,
                        ))
                },
    {
        let start: u128 = match clock {
            Some(m) => m,
            None => 0,
        };
        let n = in_use.len();
        let base: u128 = if start <= u128::MAX - n as u128 {
            start
        } else {
            0
        };
        assert(base == id_base(clock, in_use@.len()));
        let mut t: usize = 0;
        loop
            invariant
                n == in_use@.len(),
                t <= n,
                base + n <= u128::MAX,
                base == id_base(clock, in_use@.len()),
                forall|u: nat| u < t ==> id_in_use(in_use@, #[trigger] candidate_id(base as nat, u)),
            decreases n - t,
        {
            let id = Self::id_for_millis(base + t as u128);
            if !id_is_used(in_use, &id) {
                assert(id@ == candidate_id(base as nat, t as nat));
                return id;
            }
            proof {
                assert(id_in_use(in_use@, candidate_id(base as nat, t as nat)));
                lemma_used_ids_bound(in_use@, base as nat, (t + 1) as nat);
            }
            t = t + 1;
        }
    }

    /// Generate an id for a pinned search from the current time that none of
    /// `in_use` carries.
    fn generate_id(in_use: &[PinnedSearch]) -> (id: PinnedSearchId)
        ensures
            !id_in_use(in_use@, id@),
            exists|millis: nat| id@ == generated_id(millis),
    {
        let clock = unix_time_millis();
        let id = Self::unique_id_from(clock, in_use);
        proof {
            let t = choose|t: nat| #[trigger] candidate_id(id_base(clock, in_use@.len()), t) == id@;
            assert(id@ == generated_id(id_base(clock, in_use@.len()) + t));
        }
        id
    }

    /// A new, enabled pinned search with the given id and creation time.
    pub fn with_id(
        id: PinnedSearchId,
        pattern: &str,
        color: HighlightColor,
        case_sensitive: bool,
        created_at: Timestamp,
    ) -> (search: PinnedSearch)
        ensures
            search.id@ == id@,
            search.pattern@ == pattern@,
            search.color == color,
            search.case_sensitive == case_sensitive,
            !search.disabled,
            search.created_at == created_at,
    {
        PinnedSearch {
            id,
            pattern: String::from_str(pattern),
            color,
            case_sensitive,
            disabled: false,
            created_at,
        }
    }

    /// Create a new pinned search with an id generated from the current time.
    pub fn new(pattern: &str, color: HighlightColor, case_sensitive: bool) -> (search: PinnedSearch)
        ensures
            exists|millis: nat| search.id@ == generated_id(millis),
            search.pattern@ == pattern@,
            search.color == color,
            search.case_sensitive == case_sensitive,
            !search.disabled,
            search.created_at.nanos < 1_000_000_000,
    {
        let none: Vec<PinnedSearch> = Vec::new();
        Self::new_among(pattern, color, case_sensitive, none.as_slice())
    }

    /// Create a new pinned search whose id, generated from the current time,
    /// is carried by none of `in_use`.
    pub fn new_among(
        pattern: &str,
        color: HighlightColor,
        case_sensitive: bool,
        in_use: &[PinnedSearch],
    ) -> (search: PinnedSearch)
        ensures
            !id_in_use(in_use@, search.id@),
            exists|millis: nat| search.id@ == generated_id(millis),
            search.pattern@ == pattern@,
            search.color == color,
            search.case_sensitive == case_sensitive,
            !search.disabled,
            search.created_at.nanos < 1_000_000_000,
    {
        let id = Self::generate_id(in_use);
        let created_at = utc_now();
        Self::with_id(id, pattern, color, case_sensitive, created_at)
    }
}

} // verus!
