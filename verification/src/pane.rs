//! The lists the reader shows — books, chapters, verses and search hits —
//! each with its filter and cursor, and the operations on one list:
//! filtering, clearing a filter, moving the cursor and picking a verse.

use vstd::prelude::*;
use crate::model::{Duplicate, SearchResult, SearchResultView, Verse, VerseView, duplicate_vec};
use crate::text::{decimal, in_order, lowercase, str_in_order, to_lowercase, u32_to_string, views};

verus! {

/// The cursor of a list: the selected row (an index into the visible rows)
/// and the first row drawn on screen.
#[derive(Debug, Clone, Copy)]
pub struct ListSelection {
    pub selected: Option<usize>,
    pub offset: usize,
}

/// Selecting `idx` keeps the scroll offset, except that clearing the
/// selection scrolls back to the top.
pub open spec fn with_selected(s: ListSelection, idx: Option<usize>) -> ListSelection {
    ListSelection { selected: idx, offset: if idx is None { 0 } else { s.offset } }
}

impl ListSelection {
    /// No row selected, scrolled to the top.
    pub fn new() -> (r: ListSelection)
        ensures
            r.selected is None,
            r.offset == 0,
    {
        ListSelection { selected: None, offset: 0 }
    }

    /// Selects the row `idx` (or none).
    pub fn select(&mut self, idx: Option<usize>)
        ensures
            *final(self) == with_selected(*old(self), idx),
    {
        self.selected = idx;
        if idx.is_none() {
            self.offset = 0;
        }
    }
}

/// One list of the navigation stack.
pub enum Pane {
    Books { items: Vec<String>, filtered: Vec<usize>, state: ListSelection },
    Chapters { book: String, items: Vec<u32>, filtered: Vec<usize>, state: ListSelection },
    Verses {
        book: String,
        chapter: u32,
        items: Vec<Verse>,
        filtered: Vec<usize>,
        state: ListSelection,
        visual_start: Option<usize>,
    },
    SearchResults { query: String, items: Vec<SearchResult>, state: ListSelection },
}

/// The mathematical value of a [`Pane`].
pub ghost enum PaneView {
    Books { items: Seq<Seq<char>>, filtered: Seq<usize>, state: ListSelection },
    Chapters { book: Seq<char>, items: Seq<u32>, filtered: Seq<usize>, state: ListSelection },
    Verses {
        book: Seq<char>,
        chapter: u32,
        items: Seq<VerseView>,
        filtered: Seq<usize>,
        state: ListSelection,
        visual_start: Option<usize>,
    },
    SearchResults { query: Seq<char>, items: Seq<SearchResultView>, state: ListSelection },
}

impl View for Pane {
    type V = PaneView;

    open spec fn view(&self) -> PaneView {
        match self {
            Pane::Books { items, filtered, state } => PaneView::Books {
                items: views(items@),
                filtered: filtered@,
                state: *state,
            },
            Pane::Chapters { book, items, filtered, state } => PaneView::Chapters {
                book: book@,
                items: items@,
                filtered: filtered@,
                state: *state,
            },
            Pane::Verses { book, chapter, items, filtered, state, visual_start } => PaneView::Verses {
                book: book@,
                chapter: *chapter,
                items: views(items@),
                filtered: filtered@,
                state: *state,
                visual_start: *visual_start,
            },
            Pane::SearchResults { query, items, state } => PaneView::SearchResults {
                query: query@,
                items: views(items@),
                state: *state,
            },
        }
    }
}

impl Duplicate for Pane {
    fn duplicate(&self) -> (r: Pane) {
        match self {
            Pane::Books { items, filtered, state } => {
                let items2 = duplicate_vec(items);
                let filtered2 = duplicate_vec(filtered);
                assert(filtered2@ =~= views(filtered2@));
                assert(filtered@ =~= views(filtered@));
                Pane::Books { items: items2, filtered: filtered2, state: *state }
            },
            Pane::Chapters { book, items, filtered, state } => {
                let items2 = duplicate_vec(items);
                let filtered2 = duplicate_vec(filtered);
                assert(filtered2@ =~= views(filtered2@));
                assert(filtered@ =~= views(filtered@));
                assert(items2@ =~= views(items2@));
                assert(items@ =~= views(items@));
                Pane::Chapters { book: book.clone(), items: items2, filtered: filtered2, state: *state }
            },
            Pane::Verses { book, chapter, items, filtered, state, visual_start } => {
                let items = duplicate_vec(items);
                let filtered2 = duplicate_vec(filtered);
                assert(filtered2@ =~= views(filtered2@));
                assert(filtered@ =~= views(filtered@));
                Pane::Verses {
                    book: book.clone(),
                    chapter: *chapter,
                    items,
                    filtered: filtered2,
                    state: *state,
                    visual_start: *visual_start,
                }
            },
            Pane::SearchResults { query, items, state } => {
                let items = duplicate_vec(items);
                Pane::SearchResults { query: query.clone(), items, state: *state }
            },
        }
    }
}


/// The index of the first element of `s` satisfying `p`, if any.
pub open spec fn first_index<T>(s: Seq<T>, p: spec_fn(T) -> bool) -> Option<nat>
    decreases s.len(),
{
    if s.len() == 0 {
        None
    } else if p(s[0]) {
        Some(0)
    } else {
        match first_index(s.drop_first(), p) {
            Some(i) => Some(i + 1),
            None => None,
        }
    }
}

/// `first_index` is the least index whose element satisfies `p`.
pub proof fn lemma_first_index_found<T>(s: Seq<T>, p: spec_fn(T) -> bool, i: int)
    requires
        0 <= i < s.len(),
        p(s[i]),
        forall|k: int| 0 <= k < i ==> !p(#[trigger] s[k]),
    ensures
        first_index(s, p) == Some(i as nat),
    decreases s.len(),
{
    if i > 0 {
        assert(!p(s[0]));
        let t = s.drop_first();
        assert forall|k: int| 0 <= k < i - 1 implies !p(#[trigger] t[k]) by {
            assert(t[k] == s[k + 1]);
        }
        lemma_first_index_found(t, p, i - 1);
    }
}

/// `first_index` is `None` when no element satisfies `p`.
pub proof fn lemma_first_index_none<T>(s: Seq<T>, p: spec_fn(T) -> bool)
    requires
        forall|k: int| 0 <= k < s.len() ==> !p(#[trigger] s[k]),
    ensures
        first_index(s, p) is None,
    decreases s.len(),
{
    if s.len() > 0 {
        let t = s.drop_first();
        assert forall|k: int| 0 <= k < t.len() implies !p(#[trigger] t[k]) by {
            assert(t[k] == s[k + 1]);
        }
        lemma_first_index_none(t, p);
    }
}

/// What `first_index` returns points at a satisfying element, and no
/// earlier element satisfies `p`.
pub proof fn lemma_first_index_spec<T>(s: Seq<T>, p: spec_fn(T) -> bool)
    ensures
        first_index(s, p) matches Some(i) ==> i < s.len() && p(s[i as int]) && forall|k: int|
            0 <= k < i ==> !p(#[trigger] s[k]),
        first_index(s, p) is None ==> forall|k: int| 0 <= k < s.len() ==> !p(#[trigger] s[k]),
    decreases s.len(),
{
    if s.len() > 0 {
        let t = s.drop_first();
        lemma_first_index_spec(t, p);
        if !p(s[0]) {
            assert forall|k: int| 0 <= k < s.len() && first_index(t, p) is None implies !p(
                #[trigger] s[k],
            ) by {
                if k > 0 {
                    assert(s[k] == t[k - 1]);
                }
            }
            if let Some(j) = first_index(t, p) {
                assert forall|k: int| 0 <= k < j + 1 implies !p(#[trigger] s[k]) by {
                    if k > 0 {
                        assert(s[k] == t[k - 1]);
                    }
                }
                assert(s[j + 1int] == t[j as int]);
            }
        }
    }
}

/// The indices `0, 1, ..., n - 1`.
pub open spec fn identity_indices(n: nat) -> Seq<usize> {
    Seq::new(n, |i: int| i as usize)
}

/// The indices of the elements of `items` that satisfy `keep`, in order.
pub open spec fn matching_indices<T>(items: Seq<T>, keep: spec_fn(T) -> bool) -> Seq<usize> {
    identity_indices(items.len()).filter(|i: usize| keep(items[i as int]))
}

/// Every index in `f` is below `n`.
pub open spec fn indices_below(f: Seq<usize>, n: nat) -> bool {
    forall|i: int| 0 <= i < f.len() ==> #[trigger] f[i] < n
}

/// A selected row is never the largest `usize` (rows are positions in lists).
pub open spec fn selection_bounded(s: ListSelection) -> bool {
    s.selected matches Some(i) ==> i < usize::MAX
}

/// The first row when there is one.
pub open spec fn first_row(len: nat) -> Option<usize> {
    if len == 0 {
        None
    } else {
        Some(0usize)
    }
}

impl PaneView {
    /// The cursor of the list.
    pub open spec fn state(self) -> ListSelection {
        match self {
            PaneView::Books { state, .. } => state,
            PaneView::Chapters { state, .. } => state,
            PaneView::Verses { state, .. } => state,
            PaneView::SearchResults { state, .. } => state,
        }
    }

    /// The number of rows shown: the filtered rows, or every hit of a search.
    pub open spec fn visible_len(self) -> nat {
        match self {
            PaneView::Books { filtered, .. } => filtered.len(),
            PaneView::Chapters { filtered, .. } => filtered.len(),
            PaneView::Verses { filtered, .. } => filtered.len(),
            PaneView::SearchResults { items, .. } => items.len(),
        }
    }

    /// The same list with another cursor.
    pub open spec fn with_state(self, s: ListSelection) -> PaneView {
        match self {
            PaneView::Books { items, filtered, .. } => PaneView::Books { items, filtered, state: s },
            PaneView::Chapters { book, items, filtered, .. } => PaneView::Chapters {
                book,
                items,
                filtered,
                state: s,
            },
            PaneView::Verses { book, chapter, items, filtered, visual_start, .. } => PaneView::Verses {
                book,
                chapter,
                items,
                filtered,
                state: s,
                visual_start,
            },
            PaneView::SearchResults { query, items, .. } => PaneView::SearchResults {
                query,
                items,
                state: s,
            },
        }
    }

    /// Filters point into their lists, and no selection is `usize::MAX`.
    pub open spec fn wf(self) -> bool {
        &&& selection_bounded(self.state())
        &&& match self {
            PaneView::Books { items, filtered, .. } => indices_below(filtered, items.len()),
            PaneView::Chapters { items, filtered, .. } => indices_below(filtered, items.len()),
            PaneView::Verses { items, filtered, visual_start, .. } => {
                &&& indices_below(filtered, items.len())
                &&& visual_start matches Some(v) ==> v < usize::MAX
            },
            PaneView::SearchResults { .. } => true,
        }
    }
}

/// The entry under the cursor, as an index into the whole list: the
/// filtered row's entry (the hit itself for search hits); none when no
/// row, or no existing row, is selected.
pub open spec fn selected_item(p: PaneView) -> Option<usize> {
    match p.state().selected {
        Some(i) => match p {
            PaneView::Books { items, filtered, .. } => if i < filtered.len() && filtered[i as int] < items.len() {
                Some(filtered[i as int])
            } else {
                None
            },
            PaneView::Chapters { items, filtered, .. } => if i < filtered.len() && filtered[i as int] < items.len() {
                Some(filtered[i as int])
            } else {
                None
            },
            PaneView::Verses { items, filtered, .. } => if i < filtered.len() && filtered[i as int] < items.len() {
                Some(filtered[i as int])
            } else {
                None
            },
            PaneView::SearchResults { items, .. } => if i < items.len() {
                Some(i)
            } else {
                None
            },
        },
        None => None,
    }
}

/// The selection after a filter is cleared: the row that was selected stays
/// selected (now as an index into the whole list); with no valid selection,
/// the first row is selected when there is one.
pub open spec fn cleared_selection(items_len: nat, filtered: Seq<usize>, s: ListSelection) -> ListSelection {
    let orig = match s.selected {
        Some(i) => if i < filtered.len() {
            Some(filtered[i as int])
        } else {
            None
        },
        None => None,
    };
    with_selected(s, if orig is Some { orig } else { first_row(items_len) })
}

/// A list with its filter cleared (search hits are never filtered).
pub open spec fn cleared_pane(p: PaneView) -> PaneView {
    match p {
        PaneView::Books { items, filtered, state } => PaneView::Books {
            items,
            filtered: identity_indices(items.len()),
            state: cleared_selection(items.len(), filtered, state),
        },
        PaneView::Chapters { book, items, filtered, state } => PaneView::Chapters {
            book,
            items,
            filtered: identity_indices(items.len()),
            state: cleared_selection(items.len(), filtered, state),
        },
        PaneView::Verses { book, chapter, items, filtered, state, visual_start } => PaneView::Verses {
            book,
            chapter,
            items,
            filtered: identity_indices(items.len()),
            state: cleared_selection(items.len(), filtered, state),
            visual_start,
        },
        PaneView::SearchResults { .. } => p,
    }
}

/// A book name matches a lowercased query (fuzzily) when the characters of
/// the query occur in order in its lowercase form.
pub open spec fn book_matches(query: Seq<char>) -> spec_fn(Seq<char>) -> bool {
    |b: Seq<char>| in_order(query, lowercase(b))
}

/// A chapter number matches when the characters of the query occur in
/// order in its decimal form.
pub open spec fn chapter_matches(query: Seq<char>) -> spec_fn(u32) -> bool {
    |c: u32| in_order(query, decimal(c as nat))
}

/// A verse matches when the characters of the query occur in order in its
/// lowercased text.
pub open spec fn verse_matches(query: Seq<char>) -> spec_fn(VerseView) -> bool {
    |v: VerseView| in_order(query, lowercase(v.text))
}

/// A list filtered by an already lowercased query; the cursor goes to the
/// first remaining row (search hits are never filtered).
pub open spec fn filtered_pane(p: PaneView, query: Seq<char>) -> PaneView {
    match p {
        PaneView::Books { items, state, .. } => {
            let f = matching_indices(items, book_matches(query));
            PaneView::Books { items, filtered: f, state: with_selected(state, first_row(f.len())) }
        },
        PaneView::Chapters { book, items, state, .. } => {
            let f = matching_indices(items, chapter_matches(query));
            PaneView::Chapters {
                book,
                items,
                filtered: f,
                state: with_selected(state, first_row(f.len())),
            }
        },
        PaneView::Verses { book, chapter, items, state, visual_start, .. } => {
            let f = matching_indices(items, verse_matches(query));
            PaneView::Verses {
                book,
                chapter,
                items,
                filtered: f,
                state: with_selected(state, first_row(f.len())),
                visual_start,
            }
        },
        PaneView::SearchResults { .. } => p,
    }
}

/// Clearing the filter, as an operation on the top list.
pub open spec fn clear_op() -> spec_fn(PaneView) -> PaneView {
    |p: PaneView| cleared_pane(p)
}

/// Filtering by a lowercased query, as an operation on the top list.
pub open spec fn filter_op(query: Seq<char>) -> spec_fn(PaneView) -> PaneView {
    |p: PaneView| filtered_pane(p, query)
}

/// Moving the cursor, as an operation on the top list.
pub open spec fn move_op(dir: MoveDir) -> spec_fn(PaneView) -> PaneView {
    |p: PaneView| moved_pane(p, dir)
}

/// Selecting a verse by number, as an operation on the top list.
pub open spec fn verse_op(v: u32) -> spec_fn(PaneView) -> PaneView {
    |p: PaneView| verse_selected_pane(p, v)
}

/// Replacing the cursor, as an operation on the top list.
pub open spec fn state_op(st: ListSelection) -> spec_fn(PaneView) -> PaneView {
    |p: PaneView| p.with_state(st)
}

/// The identity filter `0, 1, ..., n - 1`.
pub fn identity_vec(n: usize) -> (r: Vec<usize>)
    ensures
        r@ == identity_indices(n as nat),
{
    let mut r: Vec<usize> = Vec::new();
    let mut i: usize = 0;
    while i < n
        invariant
            i <= n,
            r@ == identity_indices(i as nat),
        decreases n - i,
    {
        r.push(i);
        i = i + 1;
        assert(r@ =~= identity_indices(i as nat));
    }
    r
}

/// The indices `0..n` are all below `n`.
pub proof fn lemma_identity_indices_below(n: nat)
    ensures
        indices_below(identity_indices(n), n),
{
}

/// Filtering with predicates that agree on every element gives the same result.
pub proof fn lemma_filter_congruent<A>(s: Seq<A>, p: spec_fn(A) -> bool, q: spec_fn(A) -> bool)
    requires
        forall|i: int| 0 <= i < s.len() ==> p(#[trigger] s[i]) == q(s[i]),
    ensures
        s.filter(p) == s.filter(q),
    decreases s.len(),
{
    reveal(Seq::filter);
    if s.len() > 0 {
        let t = s.drop_last();
        assert forall|i: int| 0 <= i < t.len() implies p(#[trigger] t[i]) == q(t[i]) by {
            assert(t[i] == s[i]);
        }
        lemma_filter_congruent(t, p, q);
        assert(p(s[s.len() - 1]) == q(s[s.len() - 1]));
    }
}

/// The positions holding `true`, in order.
fn indices_of_true(flags: &Vec<bool>) -> (r: Vec<usize>)
    ensures
        r@ == identity_indices(flags@.len()).filter(|i: usize| flags@[i as int]),
        indices_below(r@, flags@.len()),
{
    let ghost ids = identity_indices(flags@.len());
    let ghost pred = |i: usize| flags@[i as int];
    let mut r: Vec<usize> = Vec::new();
    let mut i: usize = 0;
    while i < flags.len()
        invariant
            i <= flags.len(),
            ids == identity_indices(flags@.len()),
            pred == (|i: usize| flags@[i as int]),
            r@ == ids.take(i as int).filter(pred),
            indices_below(r@, i as nat),
        decreases flags.len() - i,
    {
        proof {
            assert(ids.take(i + 1) =~= ids.take(i as int).push(i));
            ids.take(i as int).lemma_filter_push(i, pred);
        }
        if flags[i] {
            r.push(i);
        }
        i = i + 1;
    }
    assert(ids.take(flags.len() as int) =~= ids);
    r
}

/// `matching_indices` computed from per-element decisions.
proof fn lemma_matching_from_flags<T>(items: Seq<T>, keep: spec_fn(T) -> bool, flags: Seq<bool>)
    requires
        flags.len() == items.len(),
        forall|i: int| 0 <= i < items.len() ==> #[trigger] flags[i] == keep(items[i]),
    ensures
        identity_indices(flags.len()).filter(|i: usize| flags[i as int]) == matching_indices(items, keep),
{
    let ids = identity_indices(items.len());
    let p = |i: usize| flags[i as int];
    let q = |i: usize| keep(items[i as int]);
    assert forall|i: int| 0 <= i < ids.len() implies p(#[trigger] ids[i]) == q(ids[i]) by {
        assert(ids[i] == i as usize);
        assert(flags[i] == keep(items[i]));
    }
    lemma_filter_congruent(ids, p, q);
}

/// The selection a cleared filter leaves (see [`cleared_selection`]).
fn cleared_selection_of(items_len: usize, filtered: &Vec<usize>, s: ListSelection) -> (r: ListSelection)
    ensures
        r == cleared_selection(items_len as nat, filtered@, s),
{
    let mut orig: Option<usize> = None;
    if let Some(idx) = s.selected {
        if idx < filtered.len() {
            orig = Some(filtered[idx]);
        }
    }
    let pick = if orig.is_some() {
        orig
    } else if items_len == 0 {
        None
    } else {
        Some(0usize)
    };
    let mut st = s;
    st.select(pick);
    st
}

/// A direction of cursor movement.
#[derive(Debug, Clone, Copy)]
pub enum MoveDir {
    Up,
    Down,
    Top,
    Bottom,
    PageUp,
    PageDown,
}

/// The number of rows a page movement skips.
pub const PAGE_ROWS: usize = 20;

/// The row the cursor moves to from `current` in a list of `len > 0` rows.
pub open spec fn next_row(current: int, len: int, dir: MoveDir) -> int {
    match dir {
        MoveDir::Up => if current >= 1 { current - 1 } else { 0 },
        MoveDir::Down => if current + 1 <= len - 1 { current + 1 } else { len - 1 },
        MoveDir::Top => 0,
        MoveDir::Bottom => len - 1,
        MoveDir::PageUp => if current >= PAGE_ROWS { current - PAGE_ROWS } else { 0 },
        MoveDir::PageDown => if current + PAGE_ROWS <= len - 1 { current + PAGE_ROWS } else { len - 1 },
    }
}

/// The list after a cursor movement: unchanged when it shows no rows;
/// otherwise the cursor moves from the selected row (the first row when
/// none is selected).
pub open spec fn moved_pane(p: PaneView, dir: MoveDir) -> PaneView {
    let len = p.visible_len();
    if len == 0 {
        p
    } else {
        let current = match p.state().selected {
            Some(i) => i as int,
            None => 0,
        };
        p.with_state(with_selected(p.state(), Some(next_row(current, len as int, dir) as usize)))
    }
}

/// A verse list with the cursor on the row showing verse number `v`: the
/// first verse with that number, found among the visible rows; unchanged
/// when there is none (and for other lists).
pub open spec fn verse_selected_pane(p: PaneView, v: u32) -> PaneView {
    match p {
        PaneView::Verses { items, filtered, state, .. } => match first_index(
            items,
            |x: VerseView| x.verse == v,
        ) {
            Some(vi) => match first_index(filtered, |i: usize| i == vi) {
                Some(fi) => p.with_state(with_selected(state, Some(fi as usize))),
                None => p,
            },
            None => p,
        },
        _ => p,
    }
}

/// The position of the first verse numbered `v`.
pub fn verse_position(items: &Vec<Verse>, v: u32) -> (r: Option<usize>)
    ensures
        r matches Some(i) ==> first_index(views(items@), |x: VerseView| x.verse == v) == Some(i as nat),
        r is None ==> first_index(views(items@), |x: VerseView| x.verse == v) is None,
{
    let ghost p = |x: VerseView| x.verse == v;
    let ghost s = views(items@);
    let mut i: usize = 0;
    while i < items.len()
        invariant
            i <= items.len(),
            s == views(items@),
            p == (|x: VerseView| x.verse == v),
            forall|k: int| 0 <= k < i ==> !p(#[trigger] s[k]),
        decreases items.len() - i,
    {
        if items[i].verse == v {
            proof {
                lemma_first_index_found(s, p, i as int);
            }
            return Some(i);
        }
        i = i + 1;
    }
    proof {
        lemma_first_index_none(s, p);
    }
    None
}

/// The position of the first occurrence of `x`.
pub fn index_position(v: &Vec<usize>, x: usize) -> (r: Option<usize>)
    ensures
        r matches Some(i) ==> first_index(v@, |y: usize| y == x) == Some(i as nat),
        r is None ==> first_index(v@, |y: usize| y == x) is None,
{
    let ghost p = |y: usize| y == x;
    let mut i: usize = 0;
    while i < v.len()
        invariant
            i <= v.len(),
            p == (|y: usize| y == x),
            forall|k: int| 0 <= k < i ==> !p(#[trigger] v@[k]),
        decreases v.len() - i,
    {
        if v[i] == x {
            proof {
                lemma_first_index_found(v@, p, i as int);
            }
            return Some(i);
        }
        i = i + 1;
    }
    proof {
        lemma_first_index_none(v@, p);
    }
    None
}

/// The position of the first occurrence of `x`.
pub fn u32_position(v: &Vec<u32>, x: u32) -> (r: Option<usize>)
    ensures
        r matches Some(i) ==> first_index(v@, |y: u32| y == x) == Some(i as nat),
        r is None ==> first_index(v@, |y: u32| y == x) is None,
{
    let ghost p = |y: u32| y == x;
    let mut i: usize = 0;
    while i < v.len()
        invariant
            i <= v.len(),
            p == (|y: u32| y == x),
            forall|k: int| 0 <= k < i ==> !p(#[trigger] v@[k]),
        decreases v.len() - i,
    {
        if v[i] == x {
            proof {
                lemma_first_index_found(v@, p, i as int);
            }
            return Some(i);
        }
        i = i + 1;
    }
    proof {
        lemma_first_index_none(v@, p);
    }
    None
}

impl Pane {
    /// The list's cursor.
    pub fn state(&self) -> (r: ListSelection)
        ensures
            r == self@.state(),
    {
        match self {
            Pane::Books { state, .. } => *state,
            Pane::Chapters { state, .. } => *state,
            Pane::Verses { state, .. } => *state,
            Pane::SearchResults { state, .. } => *state,
        }
    }

    /// The list with its filter cleared, keeping the selected row.
    pub fn clear_filter(self) -> (r: Pane)
        ensures
            r@ == cleared_pane(self@),
            self@.wf() ==> r@.wf(),
    {
        match self {
            Pane::Books { items, filtered, state } => {
                let st = cleared_selection_of(items.len(), &filtered, state);
                let f = identity_vec(items.len());
                proof {
                    lemma_identity_indices_below(items@.len());
                }
                Pane::Books { items, filtered: f, state: st }
            },
            Pane::Chapters { book, items, filtered, state } => {
                let st = cleared_selection_of(items.len(), &filtered, state);
                let f = identity_vec(items.len());
                proof {
                    lemma_identity_indices_below(items@.len());
                }
                Pane::Chapters { book, items, filtered: f, state: st }
            },
            Pane::Verses { book, chapter, items, filtered, state, visual_start } => {
                let st = cleared_selection_of(items.len(), &filtered, state);
                let f = identity_vec(items.len());
                proof {
                    lemma_identity_indices_below(items@.len());
                }
                Pane::Verses { book, chapter, items, filtered: f, state: st, visual_start }
            },
            Pane::SearchResults { query, items, state } => Pane::SearchResults { query, items, state },
        }
    }

    /// The list filtered by an already lowercased query.
    pub fn apply_filter(self, query: &str) -> (r: Pane)
        ensures
            r@ == filtered_pane(self@, query@),
            self@.wf() ==> r@.wf(),
    {
        match self {
            Pane::Books { items, filtered, state } => {
                let ghost iv = views(items@);
                let mut flags: Vec<bool> = Vec::new();
                let mut i: usize = 0;
                while i < items.len()
                    invariant
                        i <= items.len(),
                        iv == views(items@),
                        flags@.len() == i,
                        forall|k: int| 0 <= k < i ==> #[trigger] flags@[k] == book_matches(query@)(iv[k]),
                    decreases items.len() - i,
                {
                    let low = to_lowercase(items[i].as_str());
                    let b = str_in_order(query, low.as_str());
                    flags.push(b);
                    i = i + 1;
                }
                let f = indices_of_true(&flags);
                proof {
                    lemma_matching_from_flags(iv, book_matches(query@), flags@);
                }
                let mut st = state;
                st.select(if f.len() == 0 { None } else { Some(0usize) });
                Pane::Books { items, filtered: f, state: st }
            },
            Pane::Chapters { book, items, filtered, state } => {
                let mut flags: Vec<bool> = Vec::new();
                let mut i: usize = 0;
                while i < items.len()
                    invariant
                        i <= items.len(),
                        flags@.len() == i,
                        forall|k: int| 0 <= k < i ==> #[trigger] flags@[k] == chapter_matches(query@)(items@[k]),
                    decreases items.len() - i,
                {
                    let text = u32_to_string(items[i]);
                    let b = str_in_order(query, text.as_str());
                    flags.push(b);
                    i = i + 1;
                }
                let f = indices_of_true(&flags);
                proof {
                    lemma_matching_from_flags(items@, chapter_matches(query@), flags@);
                }
                let mut st = state;
                st.select(if f.len() == 0 { None } else { Some(0usize) });
                Pane::Chapters { book, items, filtered: f, state: st }
            },
            Pane::Verses { book, chapter, items, filtered, state, visual_start } => {
                let ghost iv = views(items@);
                let mut flags: Vec<bool> = Vec::new();
                let mut i: usize = 0;
                while i < items.len()
                    invariant
                        i <= items.len(),
                        iv == views(items@),
                        flags@.len() == i,
                        forall|k: int| 0 <= k < i ==> #[trigger] flags@[k] == verse_matches(query@)(iv[k]),
                    decreases items.len() - i,
                {
                    let low = to_lowercase(items[i].text.as_str());
                    let b = str_in_order(query, low.as_str());
                    flags.push(b);
                    i = i + 1;
                }
                let f = indices_of_true(&flags);
                proof {
                    lemma_matching_from_flags(iv, verse_matches(query@), flags@);
                }
                let mut st = state;
                st.select(if f.len() == 0 { None } else { Some(0usize) });
                Pane::Verses { book, chapter, items, filtered: f, state: st, visual_start }
            },
            Pane::SearchResults { query, items, state } => Pane::SearchResults { query, items, state },
        }
    }

    /// The number of rows shown.
    pub fn visible_len(&self) -> (n: usize)
        ensures
            n == self@.visible_len(),
    {
        match self {
            Pane::Books { filtered, .. } => filtered.len(),
            Pane::Chapters { filtered, .. } => filtered.len(),
            Pane::Verses { filtered, .. } => filtered.len(),
            Pane::SearchResults { items, .. } => items.len(),
        }
    }

    /// The same list with another cursor.
    pub fn set_state(self, s: ListSelection) -> (r: Pane)
        ensures
            r@ == self@.with_state(s),
    {
        match self {
            Pane::Books { items, filtered, .. } => Pane::Books { items, filtered, state: s },
            Pane::Chapters { book, items, filtered, .. } => Pane::Chapters { book, items, filtered, state: s },
            Pane::Verses { book, chapter, items, filtered, visual_start, .. } => Pane::Verses {
                book,
                chapter,
                items,
                filtered,
                state: s,
                visual_start,
            },
            Pane::SearchResults { query, items, .. } => Pane::SearchResults { query, items, state: s },
        }
    }

    /// The list with the cursor moved.
    pub fn move_cursor(self, dir: MoveDir) -> (r: Pane)
        ensures
            r@ == moved_pane(self@, dir),
            self@.wf() ==> r@.wf(),
    {
        let len = self.visible_len();
        if len == 0 {
            return self;
        }
        let st = self.state();
        let current: usize = match st.selected {
            Some(i) => i,
            None => 0,
        };
        let last = len - 1;
        let next: usize = match dir {
            MoveDir::Up => if current >= 1 { current - 1 } else { 0 },
            MoveDir::Down => if current < last { current + 1 } else { last },
            MoveDir::Top => 0,
            MoveDir::Bottom => last,
            MoveDir::PageUp => if current >= PAGE_ROWS { current - PAGE_ROWS } else { 0 },
            MoveDir::PageDown => if current < last && last - current >= PAGE_ROWS {
                current + PAGE_ROWS
            } else {
                last
            },
        };
        let mut st2 = st;
        st2.select(Some(next));
        self.set_state(st2)
    }

    /// A verse list with the cursor on verse number `v` (see
    /// [`verse_selected_pane`]).
    pub fn select_verse(self, v: u32) -> (r: Pane)
        ensures
            r@ == verse_selected_pane(self@, v),
            self@.wf() ==> r@.wf(),
    {
        match self {
            Pane::Verses { book, chapter, items, filtered, state, visual_start } => {
                let pos = verse_position(&items, v);
                match pos {
                    Some(vi) => {
                        let fpos = index_position(&filtered, vi);
                        match fpos {
                            Some(fi) => {
                                let mut st = state;
                                st.select(Some(fi));
                                proof {
                                    lemma_first_index_spec(filtered@, |i: usize| i == vi);
                                    assert(fi < filtered@.len());
                                    assert(filtered@.len() == filtered.len());
                                    assert(st.selected == Some(fi));
                                }
                                Pane::Verses { book, chapter, items, filtered, state: st, visual_start }
                            },
                            None => Pane::Verses { book, chapter, items, filtered, state, visual_start },
                        }
                    },
                    None => Pane::Verses { book, chapter, items, filtered, state, visual_start },
                }
            },
            other => other,
        }
    }
}


/// The cursor of a freshly opened list: the first row when there is one,
/// scrolled to the top.
pub open spec fn fresh_state(len: nat) -> ListSelection {
    ListSelection { selected: first_row(len), offset: 0 }
}

/// A freshly opened book list: unfiltered, cursor on the first row.
pub open spec fn fresh_books(items: Seq<Seq<char>>) -> PaneView {
    PaneView::Books { items, filtered: identity_indices(items.len()), state: fresh_state(items.len()) }
}

/// A freshly opened chapter list.
pub open spec fn fresh_chapters(book: Seq<char>, items: Seq<u32>) -> PaneView {
    PaneView::Chapters {
        book,
        items,
        filtered: identity_indices(items.len()),
        state: fresh_state(items.len()),
    }
}

/// A freshly opened verse list, with no visual selection.
pub open spec fn fresh_verses(book: Seq<char>, chapter: u32, items: Seq<VerseView>) -> PaneView {
    PaneView::Verses {
        book,
        chapter,
        items,
        filtered: identity_indices(items.len()),
        state: fresh_state(items.len()),
        visual_start: None,
    }
}

/// A freshly opened list of search hits.
pub open spec fn fresh_search(query: Seq<char>, items: Seq<SearchResultView>) -> PaneView {
    PaneView::SearchResults { query, items, state: fresh_state(items.len()) }
}

/// The cursor of a freshly opened list of `len` rows.
pub fn fresh_state_of(len: usize) -> (r: ListSelection)
    ensures
        r == fresh_state(len as nat),
{
    let mut st = ListSelection::new();
    if len > 0 {
        st.select(Some(0));
    }
    st
}

impl Pane {
    /// A freshly opened book list.
    pub fn new_books(items: Vec<String>) -> (r: Pane)
        ensures
            r@ == fresh_books(views(items@)),
            r@.wf(),
    {
        let f = identity_vec(items.len());
        let st = fresh_state_of(items.len());
        proof {
            lemma_identity_indices_below(items@.len());
        }
        Pane::Books { items, filtered: f, state: st }
    }

    /// A freshly opened chapter list.
    pub fn new_chapters(book: String, items: Vec<u32>) -> (r: Pane)
        ensures
            r@ == fresh_chapters(book@, items@),
            r@.wf(),
    {
        let f = identity_vec(items.len());
        let st = fresh_state_of(items.len());
        proof {
            lemma_identity_indices_below(items@.len());
        }
        Pane::Chapters { book, items, filtered: f, state: st }
    }

    /// A freshly opened verse list.
    pub fn new_verses(book: String, chapter: u32, items: Vec<Verse>) -> (r: Pane)
        ensures
            r@ == fresh_verses(book@, chapter, views(items@)),
            r@.wf(),
    {
        let f = identity_vec(items.len());
        let st = fresh_state_of(items.len());
        proof {
            lemma_identity_indices_below(items@.len());
        }
        Pane::Verses { book, chapter, items, filtered: f, state: st, visual_start: None }
    }

    /// A freshly opened list of search hits.
    pub fn new_search(query: String, items: Vec<SearchResult>) -> (r: Pane)
        ensures
            r@ == fresh_search(query@, views(items@)),
            r@.wf(),
    {
        let st = fresh_state_of(items.len());
        Pane::SearchResults { query, items, state: st }
    }
}

} // verus!
