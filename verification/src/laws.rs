//! Properties that relate several operations of the reader.

use vstd::prelude::*;
use crate::app::{AppView, InputMode, Library, ReloadView, reload_of, reloads_of, reopen, reopened, translation_changed};
use crate::keys::{Key, KeyCode, key_step};
use crate::manager::{is_position, is_shown, next_visible, swapped, switcher_row, visible_versions};
use crate::pane::{
    MoveDir, PaneView, book_matches, chapter_matches, cleared_pane, filtered_pane, identity_indices,
    lemma_first_index_found, matching_indices, moved_pane, selected_item, verse_matches, ListSelection,
    fresh_chapters, fresh_search, fresh_verses, lemma_first_index_spec,
};
use crate::text::{contains_seq, in_order, lemma_in_order_transitive, lowercase, starts_with_seq};
use crate::jump::best_book_index;
use crate::model::{SearchResultView, VerseView};

verus! {

/// Jump history: after the current position is saved (as every jump does)
/// and the reader then moves anywhere without saving again, `<C-o>` brings
/// back the saved stack of lists, and `<C-i>` then returns to the stack
/// that was left.
pub proof fn law_jump_back_then_forward(a: AppView, c: AppView)
    requires
        a.wf(),
        a.jump_idx < usize::MAX,
        c.jump_list == a.recorded().jump_list,
        c.jump_idx == a.recorded().jump_idx,
    ensures
        c.jumped_back().view_stack == a.view_stack,
        c.jumped_back().jumped_forward().view_stack == c.view_stack,
{
    let b = a.recorded();
    assert(b.jump_list.len() == a.jump_idx + 1);
    assert(b.jump_list[a.jump_idx as int] == a.view_stack);
}


/// Drill-down and back: when the current list is not filtered, opening any
/// list on top of it and then pressing `-` returns to exactly the stack of
/// lists that was shown before.
pub proof fn law_back_undoes_open(a: AppView, q: PaneView)
    requires
        a.wf(),
        a.input_mode == InputMode::Normal,
        !a.show_version_popup,
        !a.show_manager,
        cleared_pane(a.view_stack.last()) == a.view_stack.last(),
    ensures
        key_step(a.pushed(q), Key { code: KeyCode::Char('-'), ctrl: false }).0.view_stack == a.view_stack,
{
    let b = a.pushed(q);
    let k = Key { code: KeyCode::Char('-'), ctrl: false };
    let b0 = AppView { message: None, ..b };
    let b1 = AppView { last_key_was_g: false, ..b0 };
    let r = b1.recorded();
    assert(r.view_stack.drop_last() =~= a.view_stack);
    assert(a.view_stack.update(a.view_stack.len() - 1, a.view_stack.last()) =~= a.view_stack);
}

/// Clearing a filter keeps the selected entry: the row the cursor was on
/// before is the row it is on after, now counted in the whole list.
pub proof fn law_clear_filter_keeps_selected_entry(p: PaneView)
    requires
        p.wf(),
        selected_item(p) is Some,
    ensures
        selected_item(cleared_pane(p)) == selected_item(p),
{
}

/// Filtering and then clearing the filter gives back the whole list.
pub proof fn law_clear_after_filter_shows_all(p: PaneView, query: Seq<char>)
    requires
        !(p is SearchResults),
    ensures
        match cleared_pane(filtered_pane(p, query)) {
            PaneView::Books { items, filtered, .. } => filtered == identity_indices(items.len()),
            PaneView::Chapters { items, filtered, .. } => filtered == identity_indices(items.len()),
            PaneView::Verses { items, filtered, .. } => filtered == identity_indices(items.len()),
            PaneView::SearchResults { .. } => false,
        },
        cleared_pane(filtered_pane(p, query)).visible_len() == match p {
            PaneView::Books { items, .. } => items.len(),
            PaneView::Chapters { items, .. } => items.len(),
            PaneView::Verses { items, .. } => items.len(),
            PaneView::SearchResults { items, .. } => items.len(),
        },
{
}

/// The cursor never leaves a non-empty list: from a row inside the list
/// (or no selection), every movement lands on a row inside it; `G`, `j`
/// and `C-d` land inside it from anywhere.
pub proof fn law_cursor_stays_in_list(p: PaneView, dir: MoveDir)
    requires
        p.visible_len() > 0,
        (p.state().selected matches Some(i) ==> i < p.visible_len()) || dir is Down || dir is Bottom
            || dir is PageDown || dir is Top,
    ensures
        moved_pane(p, dir).state().selected matches Some(i) && i < p.visible_len(),
        moved_pane(p, dir).visible_len() == p.visible_len(),
{
}

/// Switching to the next translation and then the previous one comes back
/// to the translation shown before.
pub proof fn law_next_then_previous_version(a: AppView)
    requires
        a.wf(),
    ensures
        a.version_cycled(1).version_cycled(-1) == a,
        a.version_cycled(1).wf(),
{
    let n = a.versions.len() as int;
    let i = a.current_version_idx as int;
    let j = (i + 1) % n;
    if i + 1 < n {
        vstd::arithmetic::div_mod::lemma_small_mod((i + 1) as nat, n as nat);
        assert(j == i + 1);
        vstd::arithmetic::div_mod::lemma_small_mod(i as nat, n as nat);
    } else {
        vstd::arithmetic::div_mod::lemma_fundamental_div_mod_converse(i + 1, n, 1, 0);
        assert(j == 0);
        vstd::arithmetic::div_mod::lemma_fundamental_div_mod_converse(-1, n, -1, n - 1);
    }
    assert((j - 1) % n == i);
    assert(a.version_cycled(1).version_cycled(-1) =~= a);
}


/// Each list of a stack with no book list in it is reopened, in order.
proof fn lemma_reloads_one_per_list(s: Seq<PaneView>)
    requires
        forall|i: int| 0 <= i < s.len() ==> !(#[trigger] s[i] is Books),
    ensures
        reloads_of(s).len() == s.len(),
        forall|i: int| 0 <= i < s.len() ==> reload_of(#[trigger] s[i]) == Some(reloads_of(s)[i]),
    decreases s.len(),
{
    if s.len() > 0 {
        let t = s.drop_last();
        assert forall|i: int| 0 <= i < t.len() implies !(#[trigger] t[i] is Books) by {
            assert(t[i] == s[i]);
        }
        lemma_reloads_one_per_list(t);
        assert(!(s.last() is Books));
        assert forall|i: int| 0 <= i < s.len() implies reload_of(#[trigger] s[i]) == Some(reloads_of(s)[i]) by {
            if i < t.len() {
                assert(s[i] == t[i]);
            }
        }
    }
}

/// A change of translation keeps the reader in the same place: the new
/// book list keeps the selected row of the old one, and every list above
/// it is to be reopened, in order, on the same book, chapter or search
/// query with the same row selected.
pub proof fn law_translation_change_keeps_place(a: AppView, books: Seq<Seq<char>>)
    requires
        a.wf(),
    ensures
        a.rebuilt(books).0.view_stack.len() == 1,
        a.rebuilt(books).0.view_stack[0].state().selected == a.view_stack[0].state().selected,
        a.rebuilt(books).1.len() == a.view_stack.len() - 1,
        forall|i: int|
            1 <= i < a.view_stack.len() ==> reload_of(#[trigger] a.view_stack[i]) == Some(
                a.rebuilt(books).1[i - 1],
            ),
        forall|i: int|
            0 <= i < a.rebuilt(books).1.len() ==> match #[trigger] a.rebuilt(books).1[i] {
                ReloadView::Chapters { book, selected } => a.view_stack[i + 1] matches PaneView::Chapters {
                    book: b,
                    state,
                    ..
                } && b == book && state.selected == selected,
                ReloadView::Verses { book, chapter, selected } => a.view_stack[i + 1] matches PaneView::Verses {
                    book: b,
                    chapter: c,
                    state,
                    ..
                } && b == book && c == chapter && state.selected == selected,
                ReloadView::Search { query, selected } => a.view_stack[i + 1] matches PaneView::SearchResults {
                    query: q,
                    state,
                    ..
                } && q == query && state.selected == selected,
            },
{
    let rest = a.view_stack.skip(1);
    assert forall|i: int| 0 <= i < rest.len() implies !(#[trigger] rest[i] is Books) by {
        assert(rest[i] == a.view_stack[i + 1]);
    }
    lemma_reloads_one_per_list(rest);
    assert forall|i: int| 1 <= i < a.view_stack.len() implies reload_of(#[trigger] a.view_stack[i]) == Some(
        a.rebuilt(books).1[i - 1],
    ) by {
        assert(rest[i - 1] == a.view_stack[i]);
    }
    assert forall|i: int| 0 <= i < a.rebuilt(books).1.len() implies match #[trigger] a.rebuilt(books).1[i] {
        ReloadView::Chapters { book, selected } => a.view_stack[i + 1] matches PaneView::Chapters {
            book: b,
            state,
            ..
        } && b == book && state.selected == selected,
        ReloadView::Verses { book, chapter, selected } => a.view_stack[i + 1] matches PaneView::Verses {
            book: b,
            chapter: c,
            state,
            ..
        } && b == book && c == chapter && state.selected == selected,
        ReloadView::Search { query, selected } => a.view_stack[i + 1] matches PaneView::SearchResults {
            query: q,
            state,
            ..
        } && q == query && state.selected == selected,
    } by {
        assert(rest[i] == a.view_stack[i + 1]);
        assert(reload_of(rest[i]) == Some(reloads_of(rest)[i]));
    }
}

/// Filtering by a predicate every element passes keeps the whole sequence.
proof fn lemma_filter_all<A>(s: Seq<A>, p: spec_fn(A) -> bool)
    requires
        forall|i: int| 0 <= i < s.len() ==> p(#[trigger] s[i]),
    ensures
        s.filter(p) == s,
    decreases s.len(),
{
    reveal(Seq::filter);
    if s.len() > 0 {
        let t = s.drop_last();
        assert forall|i: int| 0 <= i < t.len() implies p(#[trigger] t[i]) by {
            assert(t[i] == s[i]);
        }
        lemma_filter_all(t, p);
        assert(p(s[s.len() - 1]));
        assert(t.push(s.last()) =~= s);
    }
}

/// With no translation hidden, the translation switcher behaves as plain
/// cycling through all translations: its cursor is on the translation
/// shown, and `j`/`k` step to the next/previous one, wrapping around.
pub proof fn law_switcher_with_nothing_hidden(a: AppView, forward: bool)
    requires
        a.wf(),
        forall|i: int| 0 <= i < a.hidden.len() ==> !(#[trigger] a.hidden[i]),
    ensures
        switcher_row(a) == Some(a.current_version_idx),
        a.visible_switched(forward) == a.version_cycled(if forward { 1 } else { -1 }),
{
    let n = a.hidden.len() as int;
    let cur = a.current_version_idx as int;
    let ids = identity_indices(a.hidden.len());
    let pred = |i: usize| is_shown(a.hidden)(a.hidden[i as int]);
    assert forall|i: int| 0 <= i < ids.len() implies pred(#[trigger] ids[i]) by {
        assert(ids[i] == i as usize);
        assert(!a.hidden[i]);
    }
    lemma_filter_all(ids, pred);
    assert(visible_versions(a.hidden) == ids);
    assert(ids[cur] == a.current_version_idx);
    assert forall|k: int| 0 <= k < cur implies !is_position(a.current_version_idx)(#[trigger] ids[k]) by {
        assert(ids[k] == k as usize);
    }
    lemma_first_index_found(ids, is_position(a.current_version_idx), cur);
    let dir: int = if forward { 1 } else { -1 };
    assert(1 * dir == dir);
    let c = (cur + 1 * dir) % n;
    assert(0 <= c < n);
    assert(!a.hidden[c]);
    assert(next_visible(a.hidden, cur, forward) == c);
    assert(a.visible_switched(forward) =~= a.version_cycled(dir));
}

/// Dragging a translation down in the manager and then back up restores
/// the order, the hidden marks, the translation shown and the cursor.
pub proof fn law_drag_down_then_up(a: AppView)
    requires
        a.wf(),
        a.manager_state.selected matches Some(c) && c + 1 < a.versions.len(),
    ensures
        a.manager_dragged(true).manager_dragged(false).versions == a.versions,
        a.manager_dragged(true).manager_dragged(false).hidden == a.hidden,
        a.manager_dragged(true).manager_dragged(false).current_version_idx == a.current_version_idx,
        a.manager_dragged(true).manager_dragged(false).manager_state.selected == a.manager_state.selected,
{
    let c = a.manager_state.selected->0 as int;
    let b = a.manager_dragged(true);
    assert(b.manager_state.selected == Some((c + 1) as usize));
    assert(swapped(swapped(a.versions, c, c + 1), c + 1, c) =~= a.versions);
    assert(swapped(swapped(a.hidden, c, c + 1), c + 1, c) =~= a.hidden);
}

/// Dragging in the manager reorders the list but never changes which
/// translation is shown.
pub proof fn law_drag_keeps_shown_translation(a: AppView, down: bool)
    requires
        a.wf(),
    ensures
        a.manager_dragged(down).wf(),
        a.manager_dragged(down).versions[a.manager_dragged(down).current_version_idx as int]
            == a.versions[a.current_version_idx as int],
        a.manager_dragged(down).versions.to_multiset() == a.versions.to_multiset(),
{
    if let Some(c) = a.manager_state.selected {
        let n = a.versions.len();
        if c < n && (if down { c + 1 < n } else { c >= 1 }) {
            let d: int = if down { c + 1 } else { c - 1 };
            let v = a.versions;
            let s1 = v.update(c as int, v[d]);
            let s2 = s1.update(d, v[c as int]);
            vstd::seq_lib::to_multiset_update(v, c as int, v[d]);
            vstd::seq_lib::to_multiset_update(s1, d, v[c as int]);
            vstd::seq_lib::to_multiset_contains(v, v[c as int]);
            vstd::seq_lib::to_multiset_contains(v, v[d]);
            broadcast use vstd::multiset::group_multiset_axioms;
            assert(s2.to_multiset() =~= v.to_multiset());
        }
    }
}

/// Hiding a translation in the manager and pressing `Space` again shows it.
pub proof fn law_toggle_twice(a: AppView)
    requires
        a.wf(),
    ensures
        a.manager_toggled().manager_toggled().hidden == a.hidden,
{
    if let Some(c) = a.manager_state.selected {
        if c < a.versions.len() {
            assert(a.hidden.update(c as int, !a.hidden[c as int]).update(c as int, a.hidden[c as int])
                =~= a.hidden);
        }
    }
}

/// Changing the translation by any number of places and then back by the
/// same number returns to the translation shown before, whatever the
/// number (the stack is then rebuilt as [`law_translation_change_keeps_place`]
/// states).
pub proof fn law_translation_round_trip(a: AppView, k: int)
    requires
        a.wf(),
    ensures
        a.version_cycled(k).wf(),
        a.version_cycled(k).version_cycled(-k) == a,
{
    let n = a.versions.len() as int;
    let i = a.current_version_idx as int;
    let j = (i + k) % n;
    let q = (i + k) / n;
    vstd::arithmetic::div_mod::lemma_fundamental_div_mod(i + k, n);
    assert(i + k == n * q + j);
    assert(j - k == (-q) * n + i) by (nonlinear_arith)
        requires
            i + k == n * q + j,
    ;
    vstd::arithmetic::div_mod::lemma_fundamental_div_mod_converse(j - k, n, -q, i);
    assert(0 <= j < n);
    assert(a.version_cycled(k).version_cycled(-k) =~= a);
}

/// The number of entries of a list fits in a `usize`, as it does for
/// every list held in a vector.
pub open spec fn entries_fit(p: PaneView) -> bool {
    match p {
        PaneView::Books { items, .. } => items.len() <= usize::MAX,
        PaneView::Chapters { items, .. } => items.len() <= usize::MAX,
        PaneView::Verses { items, .. } => items.len() <= usize::MAX,
        PaneView::SearchResults { items, .. } => items.len() <= usize::MAX,
    }
}

/// The row indices a list shows.
pub open spec fn shown_rows(p: PaneView) -> Seq<usize> {
    match p {
        PaneView::Books { filtered, .. } => filtered,
        PaneView::Chapters { filtered, .. } => filtered,
        PaneView::Verses { filtered, .. } => filtered,
        PaneView::SearchResults { items, .. } => identity_indices(items.len()),
    }
}

/// Keeping by a weaker test keeps at least the same indices.
proof fn lemma_matching_subset<T>(items: Seq<T>, weak: spec_fn(T) -> bool, strong: spec_fn(T) -> bool)
    requires
        items.len() <= usize::MAX,
        forall|i: int| 0 <= i < items.len() && #[trigger] strong(items[i]) ==> weak(items[i]),
    ensures
        forall|x: usize|
            #[trigger] matching_indices(items, strong).contains(x) ==> matching_indices(items, weak).contains(x),
{
    let ids = identity_indices(items.len());
    let ps = |i: usize| strong(items[i as int]);
    let pw = |i: usize| weak(items[i as int]);
    broadcast use vstd::seq_lib::group_filter_ensures;
    assert forall|x: usize| #[trigger] matching_indices(items, strong).contains(x) implies matching_indices(
        items,
        weak,
    ).contains(x) by {
        ids.lemma_filter_contains_rev(ps, x);
        let k = choose|k: int| 0 <= k < ids.len() && ids[k] == x;
        assert(ids[k] == k as usize);
        assert(x as int == k);
        let f = ids.filter(ps);
        let m = choose|m: int| 0 <= m < f.len() && f[m] == x;
        assert(ps(f[m]));
        assert(strong(items[k]));
        ids.lemma_filter_contains(pw, k);
    }
}

/// Fuzzy filtering narrows as the query grows: when the characters of the
/// (lowercased) query `q1` occur in order in the query `q2`, as they do
/// when `q2` is `q1` with more characters typed after it, filtering by
/// `q2` shows no row that filtering by `q1` hides.
pub proof fn law_longer_filter_keeps_subset(p: PaneView, q1: Seq<char>, q2: Seq<char>)
    requires
        entries_fit(p),
        in_order(q1, q2),
    ensures
        forall|x: usize|
            #[trigger] shown_rows(filtered_pane(p, q2)).contains(x) ==> shown_rows(filtered_pane(p, q1)).contains(x),
{
    match p {
        PaneView::Books { items, .. } => {
            assert forall|i: int| 0 <= i < items.len() && #[trigger] book_matches(q2)(items[i]) implies book_matches(
                q1,
            )(items[i]) by {
                lemma_in_order_transitive(q1, q2, crate::text::lowercase(items[i]));
            }
            lemma_matching_subset(items, book_matches(q1), book_matches(q2));
        },
        PaneView::Chapters { items, .. } => {
            assert forall|i: int| 0 <= i < items.len() && #[trigger] chapter_matches(q2)(items[i]) implies chapter_matches(
                q1,
            )(items[i]) by {
                lemma_in_order_transitive(q1, q2, crate::text::decimal(items[i] as nat));
            }
            lemma_matching_subset(items, chapter_matches(q1), chapter_matches(q2));
        },
        PaneView::Verses { items, .. } => {
            assert forall|i: int| 0 <= i < items.len() && #[trigger] verse_matches(q2)(items[i]) implies verse_matches(
                q1,
            )(items[i]) by {
                lemma_in_order_transitive(q1, q2, crate::text::lowercase(items[i].text));
            }
            lemma_matching_subset(items, verse_matches(q1), verse_matches(q2));
        },
        PaneView::SearchResults { .. } => {},
    }
}

/// A query is in order in any longer query that begins with it.
pub proof fn lemma_in_order_prefix(q: Seq<char>, m: int)
    requires
        0 <= m <= q.len(),
    ensures
        in_order(q.take(m), q),
    decreases q.len(),
{
    if m > 0 {
        lemma_in_order_prefix(q.drop_first(), m - 1);
        assert(q.take(m).drop_first() =~= q.drop_first().take(m - 1));
    }
}

/// Typing more characters of a (lowercased) filter query never brings
/// back a row: the rows shown for the whole query are among those shown
/// for any beginning of it.
pub proof fn law_typing_more_keeps_subset(p: PaneView, q: Seq<char>, m: int)
    requires
        entries_fit(p),
        0 <= m <= q.len(),
    ensures
        forall|x: usize|
            #[trigger] shown_rows(filtered_pane(p, q)).contains(x) ==> shown_rows(
                filtered_pane(p, q.take(m)),
            ).contains(x),
{
    lemma_in_order_prefix(q, m);
    law_longer_filter_keeps_subset(p, q.take(m), q);
}

/// Reopening lists pushes them, in order, and changes nothing else.
proof fn lemma_reopened(a: AppView, rs: Seq<ReloadView>, lib: Library)
    ensures
        reopened(a, rs, lib) == (AppView {
            view_stack: a.view_stack + Seq::new(rs.len(), |i: int| reopen(rs[i], lib)),
            ..a
        }),
    decreases rs.len(),
{
    if rs.len() == 0 {
        assert(a.view_stack + Seq::new(0, |i: int| reopen(rs[i], lib)) =~= a.view_stack);
    } else {
        lemma_reopened(a, rs.drop_last(), lib);
        let t = rs.drop_last();
        assert(a.view_stack + Seq::new(rs.len(), |i: int| reopen(rs[i], lib)) =~= (a.view_stack + Seq::new(
            t.len(),
            |i: int| reopen(t[i], lib),
        )).push(reopen(rs.last(), lib)));
    }
}

/// A reopened list is reopened again on the same book, chapter or query
/// with the same row selected.
proof fn lemma_reopen_reload(r: ReloadView, lib: Library)
    ensures
        reload_of(reopen(r, lib)) == Some(r),
        !(reopen(r, lib) is Books),
{
}

/// The stack after one whole change of translation.
proof fn lemma_translation_changed(a: AppView, offset: int, books: Seq<Seq<char>>, lib: Library)
    requires
        a.wf(),
    ensures
        translation_changed(a, offset, books, lib) == (AppView {
            view_stack: translation_changed(a, offset, books, lib).view_stack,
            ..a.version_cycled(offset)
        }),
        translation_changed(a, offset, books, lib).current_version_idx == a.version_cycled(offset).current_version_idx,
        translation_changed(a, offset, books, lib).versions == a.versions,
        translation_changed(a, offset, books, lib).view_stack.len() == a.view_stack.len(),
        translation_changed(a, offset, books, lib).view_stack[0] == (PaneView::Books {
            items: books,
            filtered: identity_indices(books.len()),
            state: crate::pane::ListSelection { selected: a.view_stack[0].state().selected, offset: 0 },
        }),
        forall|i: int|
            1 <= i < a.view_stack.len() ==> #[trigger] translation_changed(a, offset, books, lib).view_stack[i]
                == reopen(reload_of(a.view_stack[i])->0, lib),
{
    let c = a.version_cycled(offset);
    let (b, rs) = c.rebuilt(books);
    law_translation_change_keeps_place(c, books);
    lemma_reopened(b, rs, lib);
    let s = translation_changed(a, offset, books, lib);
    assert forall|i: int| 1 <= i < a.view_stack.len() implies #[trigger] s.view_stack[i] == reopen(
        reload_of(a.view_stack[i])->0,
        lib,
    ) by {
        assert(reload_of(c.view_stack[i]) == Some(rs[i - 1]));
        assert(s.view_stack[i] == reopen(rs[i - 1], lib));
    }
}

/// Changing the translation by any number of places and back, with the
/// lists reopened from the store each time (as the reader does), returns
/// to the translation shown before and to the same lists: the book list of
/// the translation with its selected row, and above it, list by list, the
/// same book, chapter or search query with the same row selected, holding
/// the store's data for that translation.
pub proof fn law_translation_round_trip_reopens_lists(
    a: AppView,
    k: int,
    books_there: Seq<Seq<char>>,
    lib_there: Library,
    books_back: Seq<Seq<char>>,
    lib_back: Library,
)
    requires
        a.wf(),
    ensures
        translation_changed(translation_changed(a, k, books_there, lib_there), -k, books_back, lib_back).current_version_idx
            == a.current_version_idx,
        translation_changed(translation_changed(a, k, books_there, lib_there), -k, books_back, lib_back).view_stack.len()
            == a.view_stack.len(),
        translation_changed(translation_changed(a, k, books_there, lib_there), -k, books_back, lib_back).view_stack[0]
            == (PaneView::Books {
            items: books_back,
            filtered: identity_indices(books_back.len()),
            state: crate::pane::ListSelection { selected: a.view_stack[0].state().selected, offset: 0 },
        }),
        forall|i: int|
            1 <= i < a.view_stack.len() ==> reload_of(
                #[trigger] translation_changed(
                    translation_changed(a, k, books_there, lib_there),
                    -k,
                    books_back,
                    lib_back,
                ).view_stack[i],
            ) == reload_of(a.view_stack[i]),
        forall|i: int|
            1 <= i < a.view_stack.len() ==> #[trigger] translation_changed(
                translation_changed(a, k, books_there, lib_there),
                -k,
                books_back,
                lib_back,
            ).view_stack[i] == reopen(reload_of(a.view_stack[i])->0, lib_back),
{
    let s1 = translation_changed(a, k, books_there, lib_there);
    lemma_translation_changed(a, k, books_there, lib_there);
    law_translation_round_trip(a, k);
    // The intermediate state is well formed.
    assert(s1.wf()) by {
        law_translation_change_keeps_place(a.version_cycled(k), books_there);
        crate::pane::lemma_identity_indices_below(books_there.len());
        assert(a.view_stack[0].wf());
        assert forall|i: int| 1 <= i < s1.view_stack.len() implies !(#[trigger] s1.view_stack[i] is Books) by {
            lemma_reopen_reload(reload_of(a.view_stack[i])->0, lib_there);
        }
        assert forall|i: int| 0 <= i < s1.view_stack.len() implies (#[trigger] s1.view_stack[i]).wf() by {
            if i >= 1 {
                let r = reload_of(a.view_stack[i])->0;
                lemma_reopen_reload(r, lib_there);
                assert(a.view_stack[i].wf());
                match r {
                    ReloadView::Chapters { book, .. } => crate::pane::lemma_identity_indices_below(
                        (lib_there.chapters)(book).len(),
                    ),
                    ReloadView::Verses { book, chapter, .. } => crate::pane::lemma_identity_indices_below(
                        (lib_there.verses)(book, chapter).len(),
                    ),
                    ReloadView::Search { .. } => {},
                }
            }
        }
    }
    lemma_translation_changed(s1, -k, books_back, lib_back);
    let s2 = translation_changed(s1, -k, books_back, lib_back);
    assert(s1.version_cycled(-k).current_version_idx == a.version_cycled(k).version_cycled(-k).current_version_idx);
    assert forall|i: int| 1 <= i < a.view_stack.len() implies #[trigger] s2.view_stack[i] == reopen(
        reload_of(a.view_stack[i])->0,
        lib_back,
    ) by {
        let r = reload_of(a.view_stack[i])->0;
        assert(s1.view_stack[i] == reopen(r, lib_there));
        lemma_reopen_reload(r, lib_there);
        assert(s2.view_stack[i] == reopen(reload_of(s1.view_stack[i])->0, lib_back));
    }
    assert forall|i: int| 1 <= i < a.view_stack.len() implies reload_of(#[trigger] s2.view_stack[i]) == reload_of(
        a.view_stack[i],
    ) by {
        let r = reload_of(a.view_stack[i])->0;
        lemma_reopen_reload(r, lib_back);
        assert(a.view_stack[i].wf());
        assert(!(a.view_stack[i] is Books));
    }
}

/// Quick jump chooses the book by the best kind of match, in order: the
/// first book whose lowercase name equals the (lowercased) query; when none
/// does, the first whose lowercase name starts with it; when none does, the
/// first that contains it; when none does, the first that holds its
/// characters in order. No book is chosen only when no book matches at all.
pub proof fn law_jump_book_choice(books: Seq<Seq<char>>, q: Seq<char>)
    ensures
        (exists|i: int| 0 <= i < books.len() && lowercase(books[i]) == q) ==> (best_book_index(books, q) matches Some(
            j,
        ) && j < books.len() && lowercase(books[j as int]) == q && forall|k: int|
            0 <= k < j ==> lowercase(#[trigger] books[k]) != q),
        (forall|i: int| 0 <= i < books.len() ==> lowercase(#[trigger] books[i]) != q) && (exists|i: int|
            0 <= i < books.len() && starts_with_seq(lowercase(books[i]), q)) ==> (best_book_index(
            books,
            q,
        ) matches Some(j) && j < books.len() && starts_with_seq(lowercase(books[j as int]), q) && forall|k: int|
            0 <= k < j ==> !starts_with_seq(lowercase(#[trigger] books[k]), q)),
        (forall|i: int|
            0 <= i < books.len() ==> lowercase(#[trigger] books[i]) != q && !starts_with_seq(lowercase(books[i]), q))
            && (exists|i: int| 0 <= i < books.len() && contains_seq(lowercase(books[i]), q)) ==> (best_book_index(
            books,
            q,
        ) matches Some(j) && j < books.len() && contains_seq(lowercase(books[j as int]), q) && forall|k: int|
            0 <= k < j ==> !contains_seq(lowercase(#[trigger] books[k]), q)),
        (forall|i: int|
            0 <= i < books.len() ==> lowercase(#[trigger] books[i]) != q && !starts_with_seq(lowercase(books[i]), q)
                && !contains_seq(lowercase(books[i]), q)) && (exists|i: int|
            0 <= i < books.len() && in_order(q, lowercase(books[i]))) ==> (best_book_index(books, q) matches Some(j)
            && j < books.len() && in_order(q, lowercase(books[j as int])) && forall|k: int|
            0 <= k < j ==> !in_order(q, lowercase(#[trigger] books[k]))),
        best_book_index(books, q) is None ==> forall|i: int|
            0 <= i < books.len() ==> lowercase(#[trigger] books[i]) != q && !starts_with_seq(lowercase(books[i]), q)
                && !contains_seq(lowercase(books[i]), q) && !in_order(q, lowercase(books[i])),
{
    lemma_first_index_spec(books, |b: Seq<char>| lowercase(b) == q);
    lemma_first_index_spec(books, |b: Seq<char>| starts_with_seq(lowercase(b), q));
    lemma_first_index_spec(books, |b: Seq<char>| contains_seq(lowercase(b), q));
    lemma_first_index_spec(books, |b: Seq<char>| in_order(q, lowercase(b)));
}

/// Cursor movement in a list with rows: from row `r` (row 0 when none is
/// selected), `k`/Up goes to `r - 1` but not above row 0, `j`/Down to
/// `r + 1` but not past the last row, `gg` to row 0, `G` to the last row,
/// `<C-u>` to `r - 20` but not above row 0, `<C-d>` to `r + 20` but not past
/// the last row. The rows shown do not change.
pub proof fn law_cursor_moves(p: PaneView, dir: MoveDir)
    requires
        shown_rows(p).len() > 0,
        p.state().selected matches Some(r) ==> r < shown_rows(p).len(),
    ensures
        shown_rows(moved_pane(p, dir)) == shown_rows(p),
        moved_pane(p, dir).state().selected == Some(
            ({
                let n = shown_rows(p).len() as int;
                let r: int = match p.state().selected {
                    Some(r) => r as int,
                    None => 0,
                };
                match dir {
                    MoveDir::Up => if r >= 1 { r - 1 } else { 0 },
                    MoveDir::Down => if r + 1 < n { r + 1 } else { n - 1 },
                    MoveDir::Top => 0,
                    MoveDir::Bottom => n - 1,
                    MoveDir::PageUp => if r >= 20 { r - 20 } else { 0 },
                    MoveDir::PageDown => if r + 20 < n { r + 20 } else { n - 1 },
                }
            }) as usize,
        ),
{
}

/// Filtering puts the cursor on the first matching row, or on no row when
/// nothing matches, whatever row was selected before.
pub proof fn law_filter_selects_first_match(p: PaneView, q: Seq<char>)
    requires
        !(p is SearchResults),
    ensures
        filtered_pane(p, q).state().selected == (if shown_rows(filtered_pane(p, q)).len() > 0 {
            Some(0usize)
        } else {
            None
        }),
{
}

/// Reopening a list after a change of translation opens the loaded list
/// whole (unfiltered, from its first row on) with the cursor exactly on the
/// saved row, for chapter lists, verse lists and search hits alike, and
/// changes nothing else.
pub proof fn law_restore_keeps_saved_row(
    a: AppView,
    book: Seq<char>,
    chapter: u32,
    query: Seq<char>,
    chapters: Seq<u32>,
    verses: Seq<VerseView>,
    hits: Seq<SearchResultView>,
    selected: Option<usize>,
)
    ensures
        a.restored(fresh_chapters(book, chapters), selected) == (AppView {
            view_stack: a.view_stack.push(
                PaneView::Chapters {
                    book,
                    items: chapters,
                    filtered: identity_indices(chapters.len()),
                    state: ListSelection { selected, offset: 0 },
                },
            ),
            ..a
        }),
        a.restored(fresh_verses(book, chapter, verses), selected) == (AppView {
            view_stack: a.view_stack.push(
                PaneView::Verses {
                    book,
                    chapter,
                    items: verses,
                    filtered: identity_indices(verses.len()),
                    state: ListSelection { selected, offset: 0 },
                    visual_start: None,
                },
            ),
            ..a
        }),
        a.restored(fresh_search(query, hits), selected) == (AppView {
            view_stack: a.view_stack.push(
                PaneView::SearchResults { query, items: hits, state: ListSelection { selected, offset: 0 } },
            ),
            ..a
        }),
{
}

/// An index is kept by filtering exactly when it is a row of the list
/// whose entry passes the test.
proof fn lemma_matching_members<T>(items: Seq<T>, keep: spec_fn(T) -> bool)
    requires
        items.len() <= usize::MAX,
    ensures
        forall|x: usize|
            #[trigger] matching_indices(items, keep).contains(x) <==> (x < items.len() && keep(items[x as int])),
{
    let ids = identity_indices(items.len());
    let pk = |i: usize| keep(items[i as int]);
    broadcast use vstd::seq_lib::group_filter_ensures;
    assert forall|x: usize| #[trigger] matching_indices(items, keep).contains(x) <==> (x < items.len() && keep(
        items[x as int],
    )) by {
        if matching_indices(items, keep).contains(x) {
            ids.lemma_filter_contains_rev(pk, x);
            let k = choose|k: int| 0 <= k < ids.len() && ids[k] == x;
            assert(ids[k] == k as usize);
            let f = ids.filter(pk);
            let m = choose|m: int| 0 <= m < f.len() && f[m] == x;
            assert(pk(f[m]));
        }
        if x < items.len() && keep(items[x as int]) {
            assert(ids[x as int] == x);
            ids.lemma_filter_contains(pk, x as int);
        }
    }
}

/// Filtering keeps exactly the rows whose entry holds the characters of
/// the (lowercased) query in order: a book's lowercase name, a chapter's
/// decimal number, a verse's lowercase text.
pub proof fn law_filter_keeps_exactly_fuzzy_matches(p: PaneView, q: Seq<char>)
    requires
        entries_fit(p),
    ensures
        p matches PaneView::Books { items, .. } ==> forall|x: usize|
            #[trigger] shown_rows(filtered_pane(p, q)).contains(x) <==> (x < items.len() && in_order(
                q,
                lowercase(items[x as int]),
            )),
        p matches PaneView::Chapters { items, .. } ==> forall|x: usize|
            #[trigger] shown_rows(filtered_pane(p, q)).contains(x) <==> (x < items.len() && in_order(
                q,
                crate::text::decimal(items[x as int] as nat),
            )),
        p matches PaneView::Verses { items, .. } ==> forall|x: usize|
            #[trigger] shown_rows(filtered_pane(p, q)).contains(x) <==> (x < items.len() && in_order(
                q,
                lowercase(items[x as int].text),
            )),
{
    match p {
        PaneView::Books { items, .. } => lemma_matching_members(items, book_matches(q)),
        PaneView::Chapters { items, .. } => lemma_matching_members(items, chapter_matches(q)),
        PaneView::Verses { items, .. } => lemma_matching_members(items, verse_matches(q)),
        PaneView::SearchResults { .. } => {},
    }
}

} // verus!
