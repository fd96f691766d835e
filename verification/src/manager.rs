//! The translation manager (`T`): the translations can be reordered and
//! hidden; the quick translation switcher (`t`) then lists the visible
//! translations in the chosen order and steps only through them. The
//! chosen order and hidden marks are saved as text and restored from it.

use vstd::prelude::*;
use crate::app::{App, AppView};
use crate::text::{push_char, push_str, split_whitespace, str_eq, views, white_space, words, words_state};
use crate::pane::{
    first_index, identity_indices, lemma_first_index_found, lemma_first_index_none,
    lemma_first_index_spec, matching_indices, with_selected,
};

verus! {

/// Translation `i` is not hidden.
pub open spec fn is_shown(hidden: Seq<bool>) -> spec_fn(bool) -> bool {
    |h: bool| !h
}

/// The positions of the translations that are not hidden, in order: the
/// rows of the translation switcher.
pub open spec fn visible_versions(hidden: Seq<bool>) -> Seq<usize> {
    matching_indices(hidden, is_shown(hidden))
}

/// The first translation not hidden at `k`, `k + 1`, ... steps from `cur`
/// in direction `dir` (wrapping around a list of `n`), looking at most `n`
/// steps; `cur` itself when every one is hidden.
pub open spec fn search_visible(hidden: Seq<bool>, cur: int, dir: int, k: int, n: int) -> int
    decreases n - k + 1,
{
    if k > n || n <= 0 {
        cur
    } else {
        let c = (cur + k * dir) % n;
        if !hidden[c] {
            c
        } else {
            search_visible(hidden, cur, dir, k + 1, n)
        }
    }
}

/// The next (or previous) translation not hidden after the current one.
pub open spec fn next_visible(hidden: Seq<bool>, cur: int, forward: bool) -> int {
    search_visible(hidden, cur, if forward { 1 } else { -1 }, 1, hidden.len() as int)
}

/// The predicate "is position `cur`".
pub open spec fn is_position(cur: usize) -> spec_fn(usize) -> bool {
    |i: usize| i == cur
}

/// The switcher row of the translation shown: its place among the visible
/// translations (none when it is hidden).
pub open spec fn switcher_row(a: AppView) -> Option<usize> {
    match first_index(visible_versions(a.hidden), is_position(a.current_version_idx)) {
        Some(r) => Some(r as usize),
        None => None,
    }
}

/// Two entries of a sequence exchanged.
pub open spec fn swapped<T>(s: Seq<T>, i: int, j: int) -> Seq<T> {
    s.update(i, s[j]).update(j, s[i])
}

impl AppView {
    /// The state with the switcher's cursor on the translation shown.
    pub open spec fn switcher_row_selected(self) -> AppView {
        AppView { versions_state: with_selected(self.versions_state, switcher_row(self)), ..self }
    }

    /// The state after the switcher moves to the next (or previous) visible
    /// translation.
    pub open spec fn visible_switched(self, forward: bool) -> AppView {
        AppView {
            current_version_idx: next_visible(self.hidden, self.current_version_idx as int, forward) as usize,
            ..self
        }
    }

    /// The manager opened, its cursor on the translation shown.
    pub open spec fn manager_opened(self) -> AppView {
        AppView {
            show_manager: true,
            manager_state: with_selected(self.manager_state, Some(self.current_version_idx)),
            ..self
        }
    }

    /// The manager's cursor moved one row down (or up), staying in the list.
    pub open spec fn manager_cursor_moved(self, down: bool) -> AppView {
        let n = self.versions.len();
        let cur = match self.manager_state.selected {
            Some(c) => c as int,
            None => 0,
        };
        let next = if down {
            if cur + 1 <= n - 1 { cur + 1 } else { n - 1 }
        } else {
            if cur >= 1 { cur - 1 } else { 0 }
        };
        AppView { manager_state: with_selected(self.manager_state, Some(next as usize)), ..self }
    }

    /// The translation under the manager's cursor dragged one place down
    /// (or up): it trades places with its neighbour, the cursor follows it,
    /// and the translation shown stays the same. Nothing happens at the end
    /// of the list.
    pub open spec fn manager_dragged(self, down: bool) -> AppView {
        let n = self.versions.len();
        match self.manager_state.selected {
            Some(c) => if c < n && (if down { c + 1 < n } else { c >= 1 }) {
                let d: int = if down { c + 1 } else { c - 1 };
                let cur = self.current_version_idx as int;
                AppView {
                    versions: swapped(self.versions, c as int, d),
                    hidden: swapped(self.hidden, c as int, d),
                    current_version_idx: (if cur == c { d } else if cur == d { c as int } else { cur }) as usize,
                    manager_state: with_selected(self.manager_state, Some(d as usize)),
                    ..self
                }
            } else {
                self
            },
            None => self,
        }
    }

    /// The translation under the manager's cursor hidden or shown again.
    pub open spec fn manager_toggled(self) -> AppView {
        match self.manager_state.selected {
            Some(c) => if c < self.versions.len() {
                AppView { hidden: self.hidden.update(c as int, !self.hidden[c as int]), ..self }
            } else {
                self
            },
            None => self,
        }
    }
}

proof fn lemma_search_visible_in_range(hidden: Seq<bool>, cur: int, dir: int, k: int, n: int)
    requires
        0 <= cur < n,
        n == hidden.len(),
    ensures
        0 <= search_visible(hidden, cur, dir, k, n) < n,
    decreases n - k + 1,
{
    if k <= n && n > 0 {
        let c = (cur + k * dir) % n;
        if hidden[c] {
            lemma_search_visible_in_range(hidden, cur, dir, k + 1, n);
        }
    }
}

/// The next (or previous) translation not hidden (see [`next_visible`]).
fn next_visible_index(hidden: &Vec<bool>, cur: usize, forward: bool) -> (r: usize)
    requires
        cur < hidden@.len(),
        hidden@.len() <= isize::MAX,
    ensures
        r == next_visible(hidden@, cur as int, forward),
        r < hidden@.len(),
{
    let n = hidden.len();
    let ghost dir: int = if forward { 1 } else { -1 };
    proof {
        lemma_search_visible_in_range(hidden@, cur as int, dir, 1, n as int);
    }
    let mut k: usize = 1;
    while k <= n
        invariant
            1 <= k <= n + 1,
            n == hidden@.len(),
            cur < n,
            n <= isize::MAX,
            dir == (if forward { 1int } else { -1int }),
            search_visible(hidden@, cur as int, dir, 1, n as int) == search_visible(
                hidden@,
                cur as int,
                dir,
                k as int,
                n as int,
            ),
            0 <= search_visible(hidden@, cur as int, dir, 1, n as int) < n,
        decreases n + 1 - k,
    {
        let c: usize = if forward {
            (cur + k) % n
        } else {
            (cur + n - k) % n
        };
        proof {
            if forward {
                assert(k * dir == k);
            } else {
                assert(k * dir == -k) by (nonlinear_arith)
                    requires
                        dir == -1,
                ;
                let y = (cur + n - k) as int;
                let q = y / (n as int);
                vstd::arithmetic::div_mod::lemma_fundamental_div_mod(y, n as int);
                assert(cur - k == (q - 1) * n + c) by (nonlinear_arith)
                    requires
                        y == n * q + c,
                        y == cur + n - k,
                ;
                vstd::arithmetic::div_mod::lemma_fundamental_div_mod_converse(
                    cur - k,
                    n as int,
                    q - 1,
                    c as int,
                );
            }
            assert(c as int == (cur + k * dir) % (n as int));
        }
        if !hidden[c] {
            return c;
        }
        k = k + 1;
    }
    cur
}

impl App {
    /// The positions of the visible translations, in order.
    pub fn visible_versions(&self) -> (r: Vec<usize>)
        requires
            self@.wf(),
        ensures
            r@ == visible_versions(self@.hidden),
    {
        let mut r: Vec<usize> = Vec::new();
        let ghost ids = identity_indices(self.hidden@.len());
        let ghost pred = |i: usize| is_shown(self@.hidden)(self@.hidden[i as int]);
        let mut i: usize = 0;
        while i < self.hidden.len()
            invariant
                i <= self.hidden.len(),
                ids == identity_indices(self.hidden@.len()),
                pred == (|i: usize| is_shown(self@.hidden)(self@.hidden[i as int])),
                r@ == ids.take(i as int).filter(pred),
            decreases self.hidden.len() - i,
        {
            proof {
                assert(ids.take(i + 1) =~= ids.take(i as int).push(i));
                ids.take(i as int).lemma_filter_push(i, pred);
            }
            if !self.hidden[i] {
                r.push(i);
            }
            i = i + 1;
        }
        assert(ids.take(self.hidden.len() as int) =~= ids);
        r
    }

    /// The switcher row of the translation shown (see [`switcher_row`]).
    pub fn switcher_row(&self) -> (r: Option<usize>)
        requires
            self@.wf(),
        ensures
            r == switcher_row(self@),
            r matches Some(k) ==> k < usize::MAX,
    {
        let vis = self.visible_versions();
        let ghost p = is_position(self@.current_version_idx);
        let mut k: usize = 0;
        while k < vis.len()
            invariant
                k <= vis.len(),
                vis@ == visible_versions(self@.hidden),
                p == is_position(self@.current_version_idx),
                forall|m: int| 0 <= m < k ==> !p(#[trigger] vis@[m]),
            decreases vis.len() - k,
        {
            if vis[k] == self.current_version_idx {
                proof {
                    lemma_first_index_found(vis@, p, k as int);
                }
                return Some(k);
            }
            k = k + 1;
        }
        proof {
            lemma_first_index_none(vis@, p);
        }
        None
    }

    /// Moves to the next (or previous) visible translation (see
    /// [`AppView::visible_switched`]). The caller then rebuilds the stack
    /// with [`App::rebuild_for_version`].
    pub fn switch_visible_version(&mut self, forward: bool)
        requires
            old(self)@.wf(),
        ensures
            final(self)@ == old(self)@.visible_switched(forward),
            final(self)@.wf(),
    {
        let ghost a = self@;
        let next = next_visible_index(&self.hidden, self.current_version_idx, forward);
        self.current_version_idx = next;
        assert(self@ =~= a.visible_switched(forward));
    }

    /// Opens the translation manager (`T`).
    pub fn open_manager(&mut self)
        requires
            old(self)@.wf(),
        ensures
            final(self)@ == old(self)@.manager_opened(),
            final(self)@.wf(),
    {
        self.show_manager = true;
        let cur = self.current_version_idx;
        self.manager_state.select(Some(cur));
    }

    /// Moves the manager's cursor (`j`/`k`).
    pub fn move_manager_cursor(&mut self, down: bool)
        requires
            old(self)@.wf(),
        ensures
            final(self)@ == old(self)@.manager_cursor_moved(down),
            final(self)@.wf(),
    {
        let n = self.versions.len();
        let cur: usize = match self.manager_state.selected {
            Some(c) => c,
            None => 0,
        };
        let next = if down {
            if cur < n - 1 { cur + 1 } else { n - 1 }
        } else {
            if cur >= 1 { cur - 1 } else { 0 }
        };
        self.manager_state.select(Some(next));
    }

    /// Drags the translation under the cursor (`J`/`K`).
    pub fn drag_version(&mut self, down: bool)
        requires
            old(self)@.wf(),
        ensures
            final(self)@ == old(self)@.manager_dragged(down),
            final(self)@.wf(),
    {
        let ghost a = self@;
        let n = self.versions.len();
        let c = match self.manager_state.selected {
            Some(c) => c,
            None => {
                return;
            },
        };
        if c >= n {
            return;
        }
        if down && c + 1 >= n {
            return;
        }
        if !down && c == 0 {
            return;
        }
        let d = if down { c + 1 } else { c - 1 };
        let vc = self.versions[c].clone();
        let vd = self.versions[d].clone();
        self.versions.set(c, vd);
        self.versions.set(d, vc);
        let hc = self.hidden[c];
        let hd = self.hidden[d];
        self.hidden.set(c, hd);
        self.hidden.set(d, hc);
        let cur = self.current_version_idx;
        self.current_version_idx = if cur == c { d } else if cur == d { c } else { cur };
        self.manager_state.select(Some(d));
        assert(self@.versions =~= swapped(a.versions, c as int, d as int));
        assert(self@.hidden =~= swapped(a.hidden, c as int, d as int));
        assert(self@ =~= a.manager_dragged(down));
    }

    /// Hides or shows the translation under the cursor (`Space`).
    pub fn toggle_version_hidden(&mut self)
        requires
            old(self)@.wf(),
        ensures
            final(self)@ == old(self)@.manager_toggled(),
            final(self)@.wf(),
    {
        let ghost a = self@;
        if let Some(c) = self.manager_state.selected {
            if c < self.versions.len() {
                let h = self.hidden[c];
                self.hidden.set(c, !h);
                assert(self@ =~= a.manager_toggled());
            }
        }
    }
}

/// The saved line of one translation: `-` when it is hidden, `+` when it
/// is shown, then its name.
pub open spec fn preference_line(name: Seq<char>, hidden: bool) -> Seq<char> {
    seq![if hidden { '-' } else { '+' }] + name + seq!['\n']
}

/// The saved lines of the first `n` translations, in order.
pub open spec fn preference_lines(versions: Seq<Seq<char>>, hidden: Seq<bool>, n: int) -> Seq<char>
    decreases n,
{
    if n <= 0 {
        Seq::empty()
    } else {
        preference_lines(versions, hidden, n - 1) + preference_line(versions[n - 1], hidden[n - 1])
    }
}

/// The saved preferences: one line per translation, in the chosen order.
pub open spec fn preferences_text(a: AppView) -> Seq<char> {
    preference_lines(a.versions, a.hidden, a.versions.len() as int)
}

/// A word of saved preferences read as a translation name and whether it
/// is hidden; words not starting with `+` or `-`, or with no name after it,
/// are ignored.
pub open spec fn preference_entry(w: Seq<char>) -> Option<(Seq<char>, bool)> {
    if w.len() > 1 && (w[0] == '+' || w[0] == '-') {
        Some((w.drop_first(), w[0] == '-'))
    } else {
        None
    }
}

/// The predicate "is the translation named `name`".
pub open spec fn is_name(name: Seq<char>) -> spec_fn(Seq<char>) -> bool {
    |v: Seq<char>| v == name
}

/// Where the translation at `c` goes when the one at `j` moves to `p`
/// (`p <= j`).
pub open spec fn moved_index(c: int, j: int, p: int) -> int {
    if c == j {
        p
    } else if p <= c < j {
        c + 1
    } else {
        c
    }
}

/// One saved entry applied: the first translation of that name at or after
/// position `placed` moves to `placed` and takes the saved hidden mark; the
/// translation shown stays shown. Nothing when the word is no entry or no
/// such translation is left.
pub open spec fn placement(a: AppView, w: Seq<char>, placed: int) -> Option<AppView> {
    match preference_entry(w) {
        None => None,
        Some((name, hid)) => match first_index(a.versions.skip(placed), is_name(name)) {
            None => None,
            Some(k) => {
                let j = placed + k;
                Some(
                    AppView {
                        versions: a.versions.remove(j).insert(placed, a.versions[j]),
                        hidden: a.hidden.remove(j).insert(placed, hid),
                        current_version_idx: moved_index(a.current_version_idx as int, j, placed) as usize,
                        ..a
                    },
                )
            },
        },
    }
}

/// The saved entries `ws` applied in order, the first found translation
/// going to position `placed`, the next to `placed + 1`, and so on: the
/// named translations come first in the saved order with their saved marks,
/// the others follow in their previous order.
pub open spec fn arranged(a: AppView, ws: Seq<Seq<char>>, placed: int) -> AppView
    decreases ws.len(),
{
    if ws.len() == 0 {
        a
    } else {
        match placement(a, ws[0], placed) {
            Some(b) => arranged(b, ws.drop_first(), placed + 1),
            None => arranged(a, ws.drop_first(), placed),
        }
    }
}

/// The state after loading saved preferences `text` (see [`arranged`]).
pub open spec fn preferences_loaded(a: AppView, text: Seq<char>) -> AppView {
    arranged(a, words(text), 0)
}

/// A placement keeps the state well formed and the translation shown.
proof fn lemma_placement_keeps(a: AppView, w: Seq<char>, placed: int)
    requires
        a.wf(),
        0 <= placed <= a.versions.len(),
    ensures
        placement(a, w, placed) matches Some(b) ==> {
            &&& b.wf()
            &&& placed < a.versions.len()
            &&& b.versions.len() == a.versions.len()
            &&& b.versions[b.current_version_idx as int] == a.versions[a.current_version_idx as int]
        },
{
    if let Some((name, hid)) = preference_entry(w) {
        let rest = a.versions.skip(placed);
        let p = is_name(name);
        lemma_first_index_spec(rest, p);
        if let Some(k) = first_index(rest, p) {
            let j = placed + k;
            let c = a.current_version_idx as int;
            let v2 = a.versions.remove(j).insert(placed, a.versions[j]);
            let m = moved_index(c, j, placed);
            assert(0 <= m < a.versions.len());
            assert(v2[m] == a.versions[c]);
        }
    }
}

/// Loading saved preferences keeps the state well formed and never changes
/// which translation is shown, only where it stands in the list.
pub proof fn law_loading_preferences_keeps_shown_translation(a: AppView, ws: Seq<Seq<char>>, placed: int)
    requires
        a.wf(),
        0 <= placed <= a.versions.len(),
    ensures
        arranged(a, ws, placed).wf(),
        arranged(a, ws, placed).versions[arranged(a, ws, placed).current_version_idx as int]
            == a.versions[a.current_version_idx as int],
    decreases ws.len(),
{
    if ws.len() > 0 {
        lemma_placement_keeps(a, ws[0], placed);
        match placement(a, ws[0], placed) {
            Some(b) => law_loading_preferences_keeps_shown_translation(b, ws.drop_first(), placed + 1),
            None => law_loading_preferences_keeps_shown_translation(a, ws.drop_first(), placed),
        }
    }
}

/// The words of saved preferences: one `+name` or `-name` per translation.
pub open spec fn saved_entries(versions: Seq<Seq<char>>, hidden: Seq<bool>, n: int) -> Seq<Seq<char>> {
    Seq::new(n as nat, |i: int| seq![if hidden[i] { '-' } else { '+' }] + versions[i])
}

/// Appending characters that are not whitespace extends the word being read.
proof fn lemma_words_state_extend(s: Seq<char>, t: Seq<char>)
    requires
        forall|k: int| 0 <= k < t.len() ==> !white_space(#[trigger] t[k]),
    ensures
        words_state(s + t) == (words_state(s).0, words_state(s).1 + t),
    decreases t.len(),
{
    if t.len() == 0 {
        assert(s + t =~= s);
        assert(words_state(s).1 + t =~= words_state(s).1);
    } else {
        let t0 = t.drop_last();
        lemma_words_state_extend(s, t0);
        assert((s + t).drop_last() =~= s + t0);
        assert(words_state(s).1 + t =~= (words_state(s).1 + t0).push(t.last()));
    }
}

/// The saved lines split into words give one entry per translation, when
/// no name is empty or holds whitespace.
proof fn lemma_saved_words(versions: Seq<Seq<char>>, hidden: Seq<bool>, n: int)
    requires
        0 <= n <= versions.len(),
        n <= hidden.len(),
        forall|i: int| 0 <= i < n ==> (#[trigger] versions[i]).len() > 0,
        forall|i: int, k: int| 0 <= i < n && 0 <= k < versions[i].len() ==> !white_space(#[trigger] versions[i][k]),
    ensures
        words_state(preference_lines(versions, hidden, n)) == (saved_entries(versions, hidden, n), Seq::<char>::empty()),
    decreases n,
{
    if n == 0 {
        assert(saved_entries(versions, hidden, 0) =~= Seq::<Seq<char>>::empty());
    } else {
        lemma_saved_words(versions, hidden, n - 1);
        let s = preference_lines(versions, hidden, n - 1);
        let sign: char = if hidden[n - 1] { '-' } else { '+' };
        let t = seq![sign] + versions[n - 1];
        assert forall|k: int| 0 <= k < t.len() implies !white_space(#[trigger] t[k]) by {
            if k > 0 {
                assert(t[k] == versions[n - 1][k - 1]);
            }
        }
        lemma_words_state_extend(s, t);
        assert(Seq::<char>::empty() + t =~= t);
        let full = preference_lines(versions, hidden, n);
        assert(full =~= (s + t).push('\n'));
        assert(full.drop_last() =~= s + t);
        assert(white_space('\n'));
        assert(saved_entries(versions, hidden, n) =~= saved_entries(versions, hidden, n - 1).push(t));
    }
}

/// Applying the saved entries of `a` from position `i` on to a state that
/// already agrees with `a` before `i`, and holds every name of `a`, gives
/// `a`'s order and marks.
proof fn lemma_arrange_saved(a: AppView, c: AppView, i: int)
    requires
        0 <= i <= a.versions.len(),
        a.hidden.len() == a.versions.len(),
        c.versions.len() == a.versions.len(),
        c.hidden.len() == a.versions.len(),
        forall|x: int, y: int| 0 <= x < y < a.versions.len() ==> a.versions[x] != a.versions[y],
        forall|x: int| 0 <= x < a.versions.len() ==> (#[trigger] a.versions[x]).len() > 0,
        forall|k: int| 0 <= k < i ==> c.versions[k] == a.versions[k] && c.hidden[k] == a.hidden[k],
        forall|x: int|
            0 <= x < a.versions.len() ==> exists|m: int| 0 <= m < c.versions.len() && c.versions[m] == #[trigger] a.versions[x],
    ensures
        arranged(c, saved_entries(a.versions, a.hidden, a.versions.len() as int).skip(i), i).versions == a.versions,
        arranged(c, saved_entries(a.versions, a.hidden, a.versions.len() as int).skip(i), i).hidden == a.hidden,
    decreases a.versions.len() - i,
{
    let n = a.versions.len() as int;
    let es = saved_entries(a.versions, a.hidden, n);
    if i == n {
        assert(es.skip(i).len() == 0);
        assert(c.versions =~= a.versions);
        assert(c.hidden =~= a.hidden);
    } else {
        let e = es.skip(i)[0];
        assert(e == es[i]);
        let name = a.versions[i];
        assert(e.drop_first() =~= name);
        assert(preference_entry(e) == Some((name, a.hidden[i])));
        let rest = c.versions.skip(i);
        let p = is_name(name);
        let m = choose|m: int| 0 <= m < c.versions.len() && c.versions[m] == a.versions[i];
        assert(m >= i) by {
            if m < i {
                assert(c.versions[m] == a.versions[m]);
            }
        }
        assert(p(rest[m - i]));
        lemma_first_index_spec(rest, p);
        let k = first_index(rest, p)->0 as int;
        let j = i + k;
        assert(c.versions[j] == name);
        let c2 = placement(c, e, i)->0;
        assert(placement(c, e, i) is Some);
        assert(c2.versions == c.versions.remove(j).insert(i, c.versions[j]));
        assert(c2.hidden == c.hidden.remove(j).insert(i, a.hidden[i]));
        assert forall|x: int| 0 <= x < n implies exists|m2: int| 0 <= m2 < c2.versions.len() && c2.versions[m2] == #[trigger] a.versions[x] by {
            let m1 = choose|m1: int| 0 <= m1 < c.versions.len() && c.versions[m1] == a.versions[x];
            let m2 = moved_index(m1, j, i);
            assert(c2.versions[m2] == c.versions[m1]);
        }
        assert forall|q: int| 0 <= q < i + 1 implies c2.versions[q] == a.versions[q] && c2.hidden[q] == a.hidden[q] by {
            if q < i {
                assert(c2.versions[q] == c.versions[q]);
                assert(c2.hidden[q] == c.hidden[q]);
            }
        }
        assert(es.skip(i).drop_first() =~= es.skip(i + 1));
        lemma_arrange_saved(a, c2, i + 1);
    }
}

/// Saved preferences are restored: loading the text saved from state `a`
/// into a state `b` that holds the same translations (in any order, with
/// any marks) gives `a`'s order and hidden marks, when the translation
/// names are distinct, non-empty and free of whitespace.
pub proof fn law_saved_preferences_restore(a: AppView, b: AppView)
    requires
        a.wf(),
        b.wf(),
        b.versions.len() == a.versions.len(),
        forall|x: int, y: int| 0 <= x < y < a.versions.len() ==> a.versions[x] != a.versions[y],
        forall|x: int| 0 <= x < a.versions.len() ==> (#[trigger] a.versions[x]).len() > 0,
        forall|x: int, k: int|
            0 <= x < a.versions.len() && 0 <= k < a.versions[x].len() ==> !white_space(#[trigger] a.versions[x][k]),
        forall|x: int|
            0 <= x < a.versions.len() ==> exists|m: int| 0 <= m < b.versions.len() && b.versions[m] == #[trigger] a.versions[x],
    ensures
        preferences_loaded(b, preferences_text(a)).versions == a.versions,
        preferences_loaded(b, preferences_text(a)).hidden == a.hidden,
{
    let n = a.versions.len() as int;
    lemma_saved_words(a.versions, a.hidden, n);
    let es = saved_entries(a.versions, a.hidden, n);
    assert(words(preferences_text(a)) == es);
    assert(es.skip(0) =~= es);
    lemma_arrange_saved(a, b, 0);
}

impl App {
    /// The saved form of the manager's choices (see [`preferences_text`]).
    pub fn preferences_text(&self) -> (s: String)
        requires
            self@.wf(),
        ensures
            s@ == preferences_text(self@),
    {
        let mut s = String::new();
        let mut i: usize = 0;
        while i < self.versions.len()
            invariant
                i <= self.versions.len(),
                self@.wf(),
                s@ == preference_lines(self@.versions, self@.hidden, i as int),
            decreases self.versions.len() - i,
        {
            push_char(&mut s, if self.hidden[i] { '-' } else { '+' });
            push_str(&mut s, self.versions[i].as_str());
            push_char(&mut s, '\n');
            assert(s@ =~= preference_lines(self@.versions, self@.hidden, i + 1));
            i = i + 1;
        }
        s
    }

    /// Applies one saved word at position `placed` (see [`placement`]);
    /// returns whether a translation was placed.
    fn place_preference(&mut self, w: &str, placed: usize) -> (moved: bool)
        requires
            old(self)@.wf(),
            placed <= old(self)@.versions.len(),
        ensures
            match placement(old(self)@, w@, placed as int) {
                Some(b) => moved && final(self)@ == b,
                None => !moved && final(self)@ == old(self)@,
            },
            final(self)@.wf(),
    {
        let ghost a = self@;
        proof {
            lemma_placement_keeps(a, w@, placed as int);
        }
        let wc: Vec<char> = crate::text::chars_of(w);
        if wc.len() <= 1 || !(wc[0] == '+' || wc[0] == '-') {
            return false;
        }
        let hid = wc[0] == '-';
        let mut name = String::new();
        let mut t: usize = 1;
        while t < wc.len()
            invariant
                1 <= t <= wc.len(),
                wc@ == w@,
                name@ == wc@.subrange(1, t as int),
            decreases wc.len() - t,
        {
            push_char(&mut name, wc[t]);
            assert(name@ =~= wc@.subrange(1, t + 1));
            t = t + 1;
        }
        assert(name@ =~= w@.drop_first());
        assert(preference_entry(w@) == Some((name@, hid)));
        let ghost rest = a.versions.skip(placed as int);
        let ghost p = is_name(name@);
        let mut j: usize = placed;
        let mut found = false;
        while j < self.versions.len() && !found
            invariant
                placed <= j <= self.versions.len(),
                self@ == a,
                a.wf(),
                rest == a.versions.skip(placed as int),
                p == is_name(name@),
                found ==> j < self.versions.len() && p(rest[j - placed]),
                forall|k: int| 0 <= k < j - placed ==> !p(#[trigger] rest[k]),
            decreases self.versions.len() - j + (if found { 0int } else { 1int }),
        {
            if str_eq(self.versions[j].as_str(), name.as_str()) {
                assert(rest[j - placed] == self@.versions[j as int]);
                found = true;
            } else {
                assert(rest[j - placed] == self@.versions[j as int]);
                j = j + 1;
            }
        }
        if !found {
            proof {
                lemma_first_index_none(rest, p);
                assert(placement(a, w@, placed as int) is None);
            }
            return false;
        }
        proof {
            assert(rest[j - placed] == a.versions[j as int]);
            lemma_first_index_found(rest, p, j - placed);
            assert(first_index(a.versions.skip(placed as int), is_name(name@)) == Some((j - placed) as nat));
        }
        let v = self.versions.remove(j);
        self.versions.insert(placed, v);
        let _ = self.hidden.remove(j);
        self.hidden.insert(placed, hid);
        let c = self.current_version_idx;
        self.current_version_idx = if c == j { placed } else if placed <= c && c < j { c + 1 } else { c };
        assert(self@.versions =~= a.versions.remove(j as int).insert(placed as int, a.versions[j as int]));
        assert(self@.hidden =~= a.hidden.remove(j as int).insert(placed as int, hid));
        assert(self@ =~= placement(a, w@, placed as int)->0);
        true
    }

    /// Loads saved preferences (see [`preferences_loaded`]): the translations
    /// named in `text` come first, in its order, with its hidden marks; the
    /// translation shown stays the same.
    pub fn load_preferences(&mut self, text: &str)
        requires
            old(self)@.wf(),
        ensures
            final(self)@ == preferences_loaded(old(self)@, text@),
            final(self)@.wf(),
    {
        let ghost a = self@;
        let ws = split_whitespace(text);
        let ghost wv = views(ws@);
        let mut placed: usize = 0;
        let mut i: usize = 0;
        assert(wv.skip(0) =~= wv);
        while i < ws.len()
            invariant
                i <= ws.len(),
                wv == views(ws@),
                wv == words(text@),
                placed <= i,
                placed <= self@.versions.len(),
                self@.versions.len() == a.versions.len(),
                self@.wf(),
                arranged(self@, wv.skip(i as int), placed as int) == arranged(a, wv, 0),
            decreases ws.len() - i,
        {
            let ghost cur = self@;
            let ghost s = wv.skip(i as int);
            assert(s[0] == ws@[i as int]@);
            assert(s.drop_first() =~= wv.skip(i + 1));
            proof {
                lemma_placement_keeps(cur, s[0], placed as int);
            }
            if self.place_preference(ws[i].as_str(), placed) {
                placed = placed + 1;
            }
            i = i + 1;
        }
        assert(wv.skip(i as int) =~= Seq::<Seq<char>>::empty());
    }
}

} // verus!
