//! The reader's navigation state: the stack of lists being browsed, the
//! jump history, the input modes and their buffers, and the translation
//! that is shown. Every operation is stated over the mathematical view of
//! the state, [`AppView`].

use vstd::prelude::*;
use crate::model::{Duplicate, SearchResult, Verse, duplicate_vec};
use crate::pane::{
    ListSelection, MoveDir, Pane, PaneView, clear_op, filter_op, first_index, fresh_books, move_op,
    verse_op, state_op,
    fresh_state, identity_indices, identity_vec, index_position, u32_position, verse_position,
    with_selected,
    fresh_chapters, fresh_search, fresh_verses, lemma_first_index_found, lemma_first_index_none,
    lemma_first_index_spec, selection_bounded,
};
use crate::text::{decimal, lowercase, parse_u32, parse_u32_spec, push_decimal, push_str, to_lowercase};
use crate::model::{SearchResultView, VerseView};
use crate::text::{views, str_eq};

verus! {

/// What the keyboard is currently typing into.
#[derive(Debug, Clone, Copy, PartialEq, Eq, Structural)]
pub enum InputMode {
    Normal,
    Filter,
    GlobalSearch,
    JumpMenu,
}

/// The navigation state of the reader.
pub struct App {
    pub versions: Vec<String>,
    pub hidden: Vec<bool>,
    pub current_version_idx: usize,
    pub all_books: Vec<String>,
    pub view_stack: Vec<Pane>,
    pub jump_list: Vec<Vec<Pane>>,
    pub jump_idx: usize,
    pub input_mode: InputMode,
    pub input_buffer: String,
    pub number_buffer: String,
    pub jump_menu_buffer: String,
    pub show_version_popup: bool,
    pub versions_state: ListSelection,
    pub show_manager: bool,
    pub manager_state: ListSelection,
    pub should_quit: bool,
    pub message: Option<String>,
    pub last_key_was_g: bool,
}

/// The mathematical value of an [`App`].
#[verifier::ext_equal]
pub ghost struct AppView {
    pub versions: Seq<Seq<char>>,
    pub hidden: Seq<bool>,
    pub current_version_idx: usize,
    pub all_books: Seq<Seq<char>>,
    pub view_stack: Seq<PaneView>,
    pub jump_list: Seq<Seq<PaneView>>,
    pub jump_idx: usize,
    pub input_mode: InputMode,
    pub input_buffer: Seq<char>,
    pub number_buffer: Seq<char>,
    pub jump_menu_buffer: Seq<char>,
    pub show_version_popup: bool,
    pub versions_state: ListSelection,
    pub show_manager: bool,
    pub manager_state: ListSelection,
    pub should_quit: bool,
    pub message: Option<Seq<char>>,
    pub last_key_was_g: bool,
}

/// The views of the saved stacks of the jump history.
pub open spec fn history_view(l: Seq<Vec<Pane>>) -> Seq<Seq<PaneView>> {
    l.map_values(|s: Vec<Pane>| views(s@))
}

impl View for App {
    type V = AppView;

    open spec fn view(&self) -> AppView {
        AppView {
            versions: views(self.versions@),
            hidden: self.hidden@,
            current_version_idx: self.current_version_idx,
            all_books: views(self.all_books@),
            view_stack: views(self.view_stack@),
            jump_list: history_view(self.jump_list@),
            jump_idx: self.jump_idx,
            input_mode: self.input_mode,
            input_buffer: self.input_buffer@,
            number_buffer: self.number_buffer@,
            jump_menu_buffer: self.jump_menu_buffer@,
            show_version_popup: self.show_version_popup,
            versions_state: self.versions_state,
            show_manager: self.show_manager,
            manager_state: self.manager_state,
            should_quit: self.should_quit,
            message: match self.message {
                Some(m) => Some(m@),
                None => None,
            },
            last_key_was_g: self.last_key_was_g,
        }
    }
}

/// A stack of lists is well formed: every list is, a book list lies at the
/// bottom, and no other book list is above it.
pub open spec fn stack_wf(s: Seq<PaneView>) -> bool {
    &&& forall|i: int| 0 <= i < s.len() ==> (#[trigger] s[i]).wf()
    &&& s.len() > 0
    &&& s[0] is Books
    &&& forall|i: int| 1 <= i < s.len() ==> !(#[trigger] s[i] is Books)
}

impl AppView {
    /// The invariant of the reader's state: a translation is chosen among
    /// the available ones, the history position lies within the history,
    /// and every list (shown or saved) is well formed.
    pub open spec fn wf(self) -> bool {
        &&& 0 < self.versions.len() <= isize::MAX
        &&& self.current_version_idx < self.versions.len()
        &&& self.jump_idx <= self.jump_list.len()
        &&& stack_wf(self.view_stack)
        &&& forall|i: int| 0 <= i < self.jump_list.len() ==> stack_wf(#[trigger] self.jump_list[i])
        &&& selection_bounded(self.versions_state)
        &&& self.hidden.len() == self.versions.len()
        &&& selection_bounded(self.manager_state)
    }

    /// The state with the current stack saved in the jump history: history
    /// after the current position is dropped, and the position moves past
    /// the saved stack.
    pub open spec fn recorded(self) -> AppView {
        let kept = if self.jump_idx < self.jump_list.len() {
            self.jump_list.take(self.jump_idx as int)
        } else {
            self.jump_list
        };
        AppView { jump_list: kept.push(self.view_stack), jump_idx: (self.jump_idx + 1) as usize, ..self }
    }

    /// The state after going back in the jump history: when there is an
    /// earlier entry, the current stack is saved first if the position is at
    /// the end of the history, and the earlier stack is restored.
    pub open spec fn jumped_back(self) -> AppView {
        if self.jump_idx > 0 {
            let list = if self.jump_idx == self.jump_list.len() {
                self.jump_list.push(self.view_stack)
            } else {
                self.jump_list
            };
            AppView {
                jump_list: list,
                jump_idx: (self.jump_idx - 1) as usize,
                view_stack: list[self.jump_idx - 1],
                ..self
            }
        } else {
            self
        }
    }

    /// The state after going forward in the jump history, when there is a
    /// later entry.
    pub open spec fn jumped_forward(self) -> AppView {
        if self.jump_list.len() > 0 && self.jump_idx < self.jump_list.len() - 1 {
            AppView {
                jump_idx: (self.jump_idx + 1) as usize,
                view_stack: self.jump_list[self.jump_idx + 1],
                ..self
            }
        } else {
            self
        }
    }


    /// The state with `p` opened on top of the stack.
    pub open spec fn pushed(self, p: PaneView) -> AppView {
        AppView { view_stack: self.view_stack.push(p), ..self }
    }

    /// The state after a jump to a chapter: the position is saved, the
    /// stack is cut back to the book list, and the book's chapter list and
    /// the chapter's verse list are opened.
    pub open spec fn jumped_to(
        self,
        book: Seq<char>,
        chapters: Seq<u32>,
        chapter: u32,
        verses: Seq<VerseView>,
    ) -> AppView {
        let r = self.recorded();
        let base = if r.view_stack.len() > 1 {
            r.view_stack.take(1)
        } else {
            r.view_stack
        };
        AppView {
            view_stack: base.push(fresh_chapters(book, chapters)).push(
                fresh_verses(book, chapter, verses),
            ),
            ..r
        }
    }

    /// The state after a global search with the given hits: an empty query
    /// only leaves search mode; otherwise the position is saved, the hits
    /// are opened on top, and the query is cleared.
    pub open spec fn searched(self, results: Seq<SearchResultView>) -> AppView {
        if self.input_buffer.len() == 0 {
            AppView { input_mode: InputMode::Normal, ..self }
        } else {
            let r = self.recorded();
            AppView {
                view_stack: r.view_stack.push(fresh_search(self.input_buffer, results)),
                input_buffer: Seq::empty(),
                input_mode: InputMode::Normal,
                ..r
            }
        }
    }


    /// The state with the top list replaced by `p`.
    pub open spec fn with_top_pane(self, p: PaneView) -> AppView {
        AppView { view_stack: self.view_stack.update(self.view_stack.len() - 1, p), ..self }
    }

    /// Typing a number and pressing Enter: in a chapter list, the cursor
    /// goes to that chapter (when it is visible) and the chapter is opened
    /// (the position is saved first; the second component names what to
    /// open); in a verse list, the cursor goes to that verse when it is
    /// visible. A number not in the list leaves a message. The typed number
    /// is cleared in every case where one was typed.
    pub open spec fn number_jump(self) -> (AppView, Option<(Seq<char>, u32)>) {
        if self.number_buffer.len() == 0 {
            (self, None)
        } else {
            let cleared = AppView { number_buffer: Seq::empty(), ..self };
            match parse_u32_spec(self.number_buffer) {
                None => (cleared, None),
                Some(num) => if self.view_stack.len() == 0 {
                    (cleared, None)
                } else {
                    let top = self.view_stack.last();
                    match top {
                        PaneView::Chapters { book, items, filtered, state } => match first_index(
                            items,
                            |c: u32| c == num,
                        ) {
                            Some(idx) => {
                                let top2 = match first_index(filtered, |i: usize| i == idx) {
                                    Some(f) => top.with_state(with_selected(state, Some(f as usize))),
                                    None => top,
                                };
                                let r = cleared.with_top_pane(top2).recorded();
                                (r, Some((book, num)))
                            },
                            None => (
                                AppView { message: Some(not_found_message("Chapter "@, num)), ..cleared },
                                None,
                            ),
                        },
                        PaneView::Verses { items, filtered, state, .. } => match first_index(
                            items,
                            |v: VerseView| v.verse == num,
                        ) {
                            Some(idx) => match first_index(filtered, |i: usize| i == idx) {
                                Some(f) => (
                                    cleared.with_top_pane(
                                        top.with_state(with_selected(state, Some(f as usize))),
                                    ),
                                    None,
                                ),
                                None => (cleared, None),
                            },
                            None => (
                                AppView { message: Some(not_found_message("Verse "@, num)), ..cleared },
                                None,
                            ),
                        },
                        _ => (cleared, None),
                    }
                },
            }
        }
    }

    /// The state with the translation moved `offset` places along the list,
    /// wrapping around at both ends.
    pub open spec fn version_cycled(self, offset: int) -> AppView {
        AppView {
            current_version_idx: ((self.current_version_idx + offset) % (self.versions.len() as int)) as usize,
            ..self
        }
    }

    /// After a change of translation, the stack is rebuilt: the book list of
    /// the new translation replaces the old one (keeping its selected row
    /// when the old stack began with a book list), and every chapter list,
    /// verse list and search above it is to be opened again, in order, for
    /// the new translation.
    pub open spec fn rebuilt(self, books: Seq<Seq<char>>) -> (AppView, Seq<ReloadView>) {
        let old = self.view_stack;
        let st = if old.len() > 0 && old[0] is Books {
            ListSelection { selected: old[0].state().selected, offset: 0 }
        } else {
            fresh_state(books.len())
        };
        let first = PaneView::Books { items: books, filtered: identity_indices(books.len()), state: st };
        (
            AppView { view_stack: seq![first], ..self },
            if old.len() > 0 {
                reloads_of(old.skip(1))
            } else {
                Seq::empty()
            },
        )
    }

    /// The state with `p` opened on top, its cursor on row `selected`.
    pub open spec fn restored(self, p: PaneView, selected: Option<usize>) -> AppView {
        self.pushed(p.with_state(ListSelection { selected, offset: 0 }))
    }


    /// Yanking: in a verse list with a selected row, the rows from the
    /// visual-mode start (or the selected row alone) to the selected row are
    /// copied as a header line and one line per verse, and visual mode
    /// ends. The second component is the text and the number of rows in the
    /// range.
    pub open spec fn yanked(self) -> (AppView, Option<(Seq<char>, nat)>) {
        if self.view_stack.len() == 0 {
            (self, None)
        } else {
            match self.view_stack.last() {
                PaneView::Verses { book, chapter, items, filtered, state, visual_start } => match state.selected {
                    Some(end) => {
                        let start = match visual_start {
                            Some(v) => v,
                            None => end,
                        };
                        let lo = if start <= end { start } else { end };
                        let hi = if start <= end { end } else { start };
                        let top = PaneView::Verses { book, chapter, items, filtered, state, visual_start: None };
                        (
                            self.with_top_pane(top),
                            Some(
                                (
                                    yank_text(book, chapter, items, filtered, lo as int, hi as int),
                                    (hi - lo + 1) as nat,
                                ),
                            ),
                        )
                    },
                    None => (self, None),
                },
                _ => (self, None),
            }
        }
    }

    /// The message after a copy to the clipboard of `count` verses.
    pub open spec fn yank_reported(self, count: nat, success: bool) -> AppView {
        AppView {
            message: Some(
                if success {
                    "Yanked "@ + decimal(count) + " verse(s)"@
                } else {
                    "Failed to copy (clipboard/wl-copy/xclip failed)"@
                },
            ),
            ..self
        }
    }

    /// The state with the top list replaced by `f` of it (unchanged when
    /// the stack is empty).
    pub open spec fn with_top(self, f: spec_fn(PaneView) -> PaneView) -> AppView {
        if self.view_stack.len() == 0 {
            self
        } else {
            AppView {
                view_stack: self.view_stack.update(
                    self.view_stack.len() - 1,
                    f(self.view_stack.last()),
                ),
                ..self
            }
        }
    }
}

/// The translation chosen at start-up: the first one named "BSB", or the
/// first one when none is.
pub open spec fn default_version_index(versions: Seq<Seq<char>>) -> nat {
    match first_index(versions, |v: Seq<char>| v == "BSB"@) {
        Some(i) => i,
        None => 0,
    }
}

/// The state at start-up, given the available translations and the book
/// list of the chosen one.
pub open spec fn initial_view(versions: Seq<Seq<char>>, books: Seq<Seq<char>>) -> AppView {
    AppView {
        versions,
        hidden: Seq::new(versions.len(), |i: int| false),
        current_version_idx: default_version_index(versions) as usize,
        all_books: books,
        view_stack: seq![fresh_books(books)],
        jump_list: Seq::empty(),
        jump_idx: 0,
        input_mode: InputMode::Normal,
        input_buffer: Seq::empty(),
        number_buffer: Seq::empty(),
        jump_menu_buffer: Seq::empty(),
        show_version_popup: false,
        versions_state: ListSelection { selected: None, offset: 0 },
        show_manager: false,
        manager_state: ListSelection { selected: None, offset: 0 },
        should_quit: false,
        message: None,
        last_key_was_g: false,
    }
}

/// A message for a number that is not in the list.
pub open spec fn not_found_message(what: Seq<char>, n: u32) -> Seq<char> {
    what + decimal(n as nat) + " not found"@
}

/// A list to open again after a change of translation, with the row to
/// select in it.
pub enum Reload {
    Chapters { book: String, selected: Option<usize> },
    Verses { book: String, chapter: u32, selected: Option<usize> },
    Search { query: String, selected: Option<usize> },
}

/// The mathematical value of a [`Reload`].
pub ghost enum ReloadView {
    Chapters { book: Seq<char>, selected: Option<usize> },
    Verses { book: Seq<char>, chapter: u32, selected: Option<usize> },
    Search { query: Seq<char>, selected: Option<usize> },
}

impl View for Reload {
    type V = ReloadView;

    open spec fn view(&self) -> ReloadView {
        match self {
            Reload::Chapters { book, selected } => ReloadView::Chapters { book: book@, selected: *selected },
            Reload::Verses { book, chapter, selected } => ReloadView::Verses {
                book: book@,
                chapter: *chapter,
                selected: *selected,
            },
            Reload::Search { query, selected } => ReloadView::Search { query: query@, selected: *selected },
        }
    }
}

/// What must be opened again for one list of the old stack (book lists
/// are not reopened).
pub open spec fn reload_of(p: PaneView) -> Option<ReloadView> {
    match p {
        PaneView::Books { .. } => None,
        PaneView::Chapters { book, state, .. } => Some(ReloadView::Chapters { book, selected: state.selected }),
        PaneView::Verses { book, chapter, state, .. } => Some(
            ReloadView::Verses { book, chapter, selected: state.selected },
        ),
        PaneView::SearchResults { query, state, .. } => Some(
            ReloadView::Search { query, selected: state.selected },
        ),
    }
}

/// What must be opened again for a sequence of lists, in order.
pub open spec fn reloads_of(s: Seq<PaneView>) -> Seq<ReloadView>
    decreases s.len(),
{
    if s.len() == 0 {
        Seq::empty()
    } else {
        let before = reloads_of(s.drop_last());
        match reload_of(s.last()) {
            Some(r) => before.push(r),
            None => before,
        }
    }
}

/// What the outside store answers for one translation: the chapters of a
/// book, the verses of a chapter and the hits of a search query.
pub ghost struct Library {
    pub chapters: spec_fn(Seq<char>) -> Seq<u32>,
    pub verses: spec_fn(Seq<char>, u32) -> Seq<VerseView>,
    pub hits: spec_fn(Seq<char>) -> Seq<SearchResultView>,
}

/// The list a reload opens with the store's data, its cursor on the saved
/// row: what [`App::restore_chapters`], [`App::restore_verses`] and
/// [`App::restore_search`] open when given the loaded lists.
pub open spec fn reopen(r: ReloadView, lib: Library) -> PaneView {
    match r {
        ReloadView::Chapters { book, selected } => fresh_chapters(book, (lib.chapters)(book)).with_state(
            ListSelection { selected, offset: 0 },
        ),
        ReloadView::Verses { book, chapter, selected } => fresh_verses(book, chapter, (lib.verses)(book, chapter)).with_state(
            ListSelection { selected, offset: 0 },
        ),
        ReloadView::Search { query, selected } => fresh_search(query, (lib.hits)(query)).with_state(
            ListSelection { selected, offset: 0 },
        ),
    }
}

/// The state after reopening the lists `rs`, in order, from the store.
pub open spec fn reopened(a: AppView, rs: Seq<ReloadView>, lib: Library) -> AppView
    decreases rs.len(),
{
    if rs.len() == 0 {
        a
    } else {
        reopened(a, rs.drop_last(), lib).pushed(reopen(rs.last(), lib))
    }
}

/// A whole change of translation by `offset` places: the translation
/// changes ([`AppView::version_cycled`]), the stack is rebuilt on the new
/// book list ([`AppView::rebuilt`]), and every list above it is reopened
/// from the new translation's store.
pub open spec fn translation_changed(a: AppView, offset: int, books: Seq<Seq<char>>, lib: Library) -> AppView {
    let (b, rs) = a.version_cycled(offset).rebuilt(books);
    reopened(b, rs, lib)
}

/// The row to select in a reopened list is never `usize::MAX`.
pub open spec fn reload_bounded(r: ReloadView) -> bool {
    match r {
        ReloadView::Chapters { selected, .. } => selected matches Some(i) ==> i < usize::MAX,
        ReloadView::Verses { selected, .. } => selected matches Some(i) ==> i < usize::MAX,
        ReloadView::Search { selected, .. } => selected matches Some(i) ==> i < usize::MAX,
    }
}

/// The copied line of one verse: its number in brackets, then its text.
pub open spec fn verse_line(v: VerseView) -> Seq<char> {
    "["@ + decimal(v.verse as nat) + "] "@ + v.text + "\n"@
}

/// The copied line of visible row `i`, empty when there is no such row.
pub open spec fn yank_line(items: Seq<VerseView>, filtered: Seq<usize>, i: int) -> Seq<char> {
    if 0 <= i < filtered.len() && filtered[i] < items.len() {
        verse_line(items[filtered[i] as int])
    } else {
        Seq::empty()
    }
}

/// The copied lines of visible rows `lo` to `hi` inclusive.
pub open spec fn yank_lines(items: Seq<VerseView>, filtered: Seq<usize>, lo: int, hi: int) -> Seq<char>
    decreases hi - lo + 1,
{
    if hi < lo {
        Seq::empty()
    } else {
        yank_lines(items, filtered, lo, hi - 1) + yank_line(items, filtered, hi)
    }
}

/// The copied text: a header naming book and chapter, then the lines of
/// visible rows `lo` to `hi`.
pub open spec fn yank_text(
    book: Seq<char>,
    chapter: u32,
    items: Seq<VerseView>,
    filtered: Seq<usize>,
    lo: int,
    hi: int,
) -> Seq<char> {
    book + " "@ + decimal(chapter as nat) + "\n"@ + yank_lines(items, filtered, lo, hi)
}

proof fn lemma_yank_lines_tail_empty(items: Seq<VerseView>, filtered: Seq<usize>, lo: int, mid: int, hi: int)
    requires
        lo <= mid <= hi + 1,
        filtered.len() <= mid,
    ensures
        yank_lines(items, filtered, lo, hi) == yank_lines(items, filtered, lo, mid - 1),
    decreases hi - mid + 1,
{
    if hi >= mid {
        lemma_yank_lines_tail_empty(items, filtered, lo, mid, hi - 1);
        assert(yank_line(items, filtered, hi) =~= Seq::<char>::empty());
        assert(yank_lines(items, filtered, lo, hi) =~= yank_lines(items, filtered, lo, hi - 1));
    }
}

impl App {
    /// The translation shown.
    pub fn current_version(&self) -> (r: &str)
        requires
            self@.wf(),
        ensures
            r@ == self@.versions[self@.current_version_idx as int],
    {
        self.versions[self.current_version_idx].as_str()
    }

    /// Saves the current stack in the jump history.
    pub fn record_jump(&mut self)
        requires
            old(self)@.wf(),
        ensures
            final(self)@ == old(self)@.recorded(),
            final(self)@.wf(),
    {
        let ghost a = self@;
        self.jump_list.truncate(self.jump_idx);
        let saved = duplicate_vec(&self.view_stack);
        self.jump_list.push(saved);
        assert(self.jump_list@.len() == self.jump_idx + 1);
        assert(self.jump_list.len() == self.jump_list@.len());
        self.jump_idx = self.jump_idx + 1;
        proof {
            let e = self@;
            assert(e.jump_list =~= a.recorded().jump_list);
            assert(e =~= a.recorded());
        }
    }

    /// Goes back in the jump history (`<C-o>`).
    pub fn jump_backward(&mut self)
        requires
            old(self)@.wf(),
        ensures
            final(self)@ == old(self)@.jumped_back(),
            final(self)@.wf(),
    {
        let ghost a = self@;
        if self.jump_idx > 0 {
            if self.jump_idx == self.jump_list.len() {
                let saved = duplicate_vec(&self.view_stack);
                self.jump_list.push(saved);
            }
            self.jump_idx = self.jump_idx - 1;
            let restored = duplicate_vec(&self.jump_list[self.jump_idx]);
            self.view_stack = restored;
            proof {
                let e = self@;
                assert(e.jump_list =~= a.jumped_back().jump_list);
                assert(e =~= a.jumped_back());
            }
        }
    }

    /// Goes forward in the jump history (`<C-i>`, `Tab`).
    pub fn jump_forward(&mut self)
        requires
            old(self)@.wf(),
        ensures
            final(self)@ == old(self)@.jumped_forward(),
            final(self)@.wf(),
    {
        let ghost a = self@;
        if self.jump_list.len() > 0 && self.jump_idx < self.jump_list.len() - 1 {
            self.jump_idx = self.jump_idx + 1;
            let restored = duplicate_vec(&self.jump_list[self.jump_idx]);
            self.view_stack = restored;
            assert(self@ =~= a.jumped_forward());
        }
    }

    /// Clears the filter of the top list, keeping its selected row.
    pub fn clear_current_filter(&mut self)
        requires
            old(self)@.wf(),
        ensures
            final(self)@ == old(self)@.with_top(clear_op()),
            final(self)@.wf(),
    {
        let ghost a = self@;
        if self.view_stack.len() > 0 {
            let top = self.view_stack.pop().unwrap();
            assert(a.view_stack.last() == top@);
            let t2 = top.clear_filter();
            self.view_stack.push(t2);
            assert(self@.view_stack =~= a.with_top(clear_op()).view_stack);
            assert(self@ =~= a.with_top(clear_op()));
        }
    }

    /// Filters the top list by the lowercased input buffer.
    pub fn update_filter(&mut self)
        requires
            old(self)@.wf(),
        ensures
            final(self)@ == old(self)@.with_top(filter_op(lowercase(old(self)@.input_buffer))),
            final(self)@.wf(),
    {
        let ghost a = self@;
        let query = to_lowercase(self.input_buffer.as_str());
        if self.view_stack.len() > 0 {
            let top = self.view_stack.pop().unwrap();
            assert(a.view_stack.last() == top@);
            let t2 = top.apply_filter(query.as_str());
            self.view_stack.push(t2);
            let ghost f = filter_op(lowercase(a.input_buffer));
            assert(self@.view_stack =~= a.with_top(f).view_stack);
            assert(self@ =~= a.with_top(f));
        }
    }

    /// Moves the cursor of the top list.
    pub fn move_cursor(&mut self, dir: MoveDir)
        requires
            old(self)@.wf(),
        ensures
            final(self)@ == old(self)@.with_top(move_op(dir)),
            final(self)@.wf(),
    {
        let ghost a = self@;
        if self.view_stack.len() > 0 {
            let top = self.view_stack.pop().unwrap();
            assert(a.view_stack.last() == top@);
            let t2 = top.move_cursor(dir);
            self.view_stack.push(t2);
            let ghost f = move_op(dir);
            assert(self@.view_stack =~= a.with_top(f).view_stack);
            assert(self@ =~= a.with_top(f));
        }
    }

    /// Puts the cursor of the top list on verse number `v`, when it is a
    /// verse list showing that verse.
    pub fn select_verse(&mut self, v: u32)
        requires
            old(self)@.wf(),
        ensures
            final(self)@ == old(self)@.with_top(verse_op(v)),
            final(self)@.wf(),
    {
        let ghost a = self@;
        if self.view_stack.len() > 0 {
            let top = self.view_stack.pop().unwrap();
            assert(a.view_stack.last() == top@);
            let t2 = top.select_verse(v);
            self.view_stack.push(t2);
            let ghost f = verse_op(v);
            assert(self@.view_stack =~= a.with_top(f).view_stack);
            assert(self@ =~= a.with_top(f));
        }
    }

    /// The translation to show at start-up (see [`default_version_index`]).
    pub fn default_version_index_of(versions: &Vec<String>) -> (i: usize)
        ensures
            i == default_version_index(views(versions@)),
    {
        let ghost vs = views(versions@);
        let ghost p = |v: Seq<char>| v == "BSB"@;
        let mut i: usize = 0;
        while i < versions.len()
            invariant
                i <= versions.len(),
                vs == views(versions@),
                p == (|v: Seq<char>| v == "BSB"@),
                forall|k: int| 0 <= k < i ==> !p(#[trigger] vs[k]),
            decreases versions.len() - i,
        {
            if str_eq(versions[i].as_str(), "BSB") {
                proof {
                    lemma_first_index_found(vs, p, i as int);
                }
                return i;
            }
            i = i + 1;
        }
        proof {
            lemma_first_index_none(vs, p);
        }
        0
    }

    /// The reader at start-up, showing the book list `books` of the chosen
    /// translation.
    pub fn new(versions: Vec<String>, books: Vec<String>) -> (r: App)
        requires
            0 < versions@.len() <= isize::MAX,
        ensures
            r@ == initial_view(views(versions@), views(books@)),
            r@.wf(),
    {
        let idx = App::default_version_index_of(&versions);
        proof {
            lemma_first_index_spec(views(versions@), |v: Seq<char>| v == "BSB"@);
        }
        let all_books = duplicate_vec(&books);
        let first = Pane::new_books(books);
        let mut stack: Vec<Pane> = Vec::new();
        stack.push(first);
        let mut hidden: Vec<bool> = Vec::new();
        let mut i: usize = 0;
        while i < versions.len()
            invariant
                i <= versions.len(),
                hidden@ == Seq::new(i as nat, |k: int| false),
            decreases versions.len() - i,
        {
            hidden.push(false);
            i = i + 1;
            assert(hidden@ =~= Seq::new(i as nat, |k: int| false));
        }
        let r = App {
            versions,
            hidden,
            current_version_idx: idx,
            all_books,
            view_stack: stack,
            jump_list: Vec::new(),
            jump_idx: 0,
            input_mode: InputMode::Normal,
            input_buffer: String::new(),
            number_buffer: String::new(),
            jump_menu_buffer: String::new(),
            show_version_popup: false,
            versions_state: ListSelection::new(),
            show_manager: false,
            manager_state: ListSelection::new(),
            should_quit: false,
            message: None,
            last_key_was_g: false,
        };
        assert(r@.view_stack =~= seq![fresh_books(views(books@))]);
        assert(r@ =~= initial_view(views(versions@), views(books@)));
        r
    }

    /// Opens the chapter list of `book` on top of the stack.
    pub fn push_chapters_view(&mut self, book: String, chapters: Vec<u32>)
        requires
            old(self)@.wf(),
        ensures
            final(self)@ == old(self)@.pushed(fresh_chapters(book@, chapters@)),
            final(self)@.wf(),
    {
        let ghost a = self@;
        let p = Pane::new_chapters(book, chapters);
        self.view_stack.push(p);
        assert(self@ =~= a.pushed(fresh_chapters(book@, chapters@)));
    }

    /// Opens the verse list of a chapter on top of the stack.
    pub fn push_verses_view(&mut self, book: String, chapter: u32, verses: Vec<Verse>)
        requires
            old(self)@.wf(),
        ensures
            final(self)@ == old(self)@.pushed(fresh_verses(book@, chapter, views(verses@))),
            final(self)@.wf(),
    {
        let ghost a = self@;
        let p = Pane::new_verses(book, chapter, verses);
        self.view_stack.push(p);
        assert(self@ =~= a.pushed(fresh_verses(book@, chapter, views(verses@))));
    }

    /// Jumps to a chapter (see [`AppView::jumped_to`]).
    pub fn jump_to(&mut self, book: String, chapters: Vec<u32>, chapter: u32, verses: Vec<Verse>)
        requires
            old(self)@.wf(),
        ensures
            final(self)@ == old(self)@.jumped_to(book@, chapters@, chapter, views(verses@)),
            final(self)@.wf(),
    {
        let ghost a = self@;
        self.record_jump();
        let ghost r = self@;
        self.view_stack.truncate(1);
        proof {
            assert forall|i: int| 0 <= i < self@.view_stack.len() implies (#[trigger] self@.view_stack[i]).wf() by {
                assert(self@.view_stack[i] == r.view_stack[i]);
            }
        }
        let b2 = book.clone();
        self.push_chapters_view(book, chapters);
        self.push_verses_view(b2, chapter, verses);
        assert(self@.view_stack =~= a.jumped_to(book@, chapters@, chapter, views(verses@)).view_stack);
        assert(self@ =~= a.jumped_to(book@, chapters@, chapter, views(verses@)));
    }

    /// Opens the hits of the global search typed in the input buffer (see
    /// [`AppView::searched`]).
    pub fn perform_global_search(&mut self, results: Vec<SearchResult>)
        requires
            old(self)@.wf(),
        ensures
            final(self)@ == old(self)@.searched(views(results@)),
            final(self)@.wf(),
    {
        let ghost a = self@;
        if self.input_buffer.as_str().is_empty() {
            self.input_mode = InputMode::Normal;
            assert(self@ =~= a.searched(views(results@)));
            return;
        }
        assert(self.input_buffer@.len() > 0);
        self.record_jump();
        let query = self.input_buffer.clone();
        let p = Pane::new_search(query, results);
        self.view_stack.push(p);
        self.input_buffer = String::new();
        self.input_mode = InputMode::Normal;
        assert(self@.view_stack =~= a.searched(views(results@)).view_stack);
        assert(self@ =~= a.searched(views(results@)));
    }

    /// Acts on a typed number (see [`AppView::number_jump`]). When it
    /// returns a chapter, the caller opens that chapter's verses with
    /// [`App::push_verses_view`].
    pub fn process_number_jump(&mut self) -> (r: Option<(String, u32)>)
        requires
            old(self)@.wf(),
        ensures
            final(self)@ == old(self)@.number_jump().0,
            final(self)@.wf(),
            match r {
                Some((b, n)) => old(self)@.number_jump().1 == Some((b@, n)),
                None => old(self)@.number_jump().1 is None,
            },
    {
        let ghost a = self@;
        if self.number_buffer.as_str().is_empty() {
            return None;
        }
        let parsed = parse_u32(self.number_buffer.as_str());
        self.number_buffer = String::new();
        let ghost cleared = self@;
        assert(cleared =~= AppView { number_buffer: Seq::empty(), ..a });
        let num = match parsed {
            Some(n) => n,
            None => {
                return None;
            },
        };
        if self.view_stack.len() == 0 {
            return None;
        }
        let top = self.view_stack.pop().unwrap();
        assert(top@ == a.view_stack.last());
        match top {
            Pane::Chapters { book, items, filtered, state } => {
                let pos = u32_position(&items, num);
                match pos {
                    Some(idx) => {
                        let fpos = index_position(&filtered, idx);
                        let mut st = state;
                        if let Some(f) = fpos {
                            st.select(Some(f));
                            proof {
                                lemma_first_index_spec(filtered@, |i: usize| i == idx);
                                assert(filtered@.len() == filtered.len());
                            }
                        }
                        let b = book.clone();
                        self.view_stack.push(Pane::Chapters { book, items, filtered, state: st });
                        assert(self@.view_stack =~= cleared.view_stack.update(
                            cleared.view_stack.len() - 1,
                            self@.view_stack.last(),
                        ));
                        self.record_jump();
                        assert(self@ =~= a.number_jump().0);
                        Some((b, num))
                    },
                    None => {
                        self.view_stack.push(Pane::Chapters { book, items, filtered, state });
                        let mut m = String::from_str("Chapter ");
                        push_decimal(&mut m, num as u64);
                        push_str(&mut m, " not found");
                        self.message = Some(m);
                        assert(self@.view_stack =~= a.view_stack);
                        assert(self@ =~= a.number_jump().0);
                        None
                    },
                }
            },
            Pane::Verses { book, chapter, items, filtered, state, visual_start } => {
                let pos = verse_position(&items, num);
                match pos {
                    Some(idx) => {
                        let fpos = index_position(&filtered, idx);
                        let mut st = state;
                        if let Some(f) = fpos {
                            st.select(Some(f));
                            proof {
                                lemma_first_index_spec(filtered@, |i: usize| i == idx);
                                assert(filtered@.len() == filtered.len());
                            }
                        }
                        self.view_stack.push(
                            Pane::Verses { book, chapter, items, filtered, state: st, visual_start },
                        );
                        assert(self@.view_stack =~= a.number_jump().0.view_stack);
                        assert(self@ =~= a.number_jump().0);
                        None
                    },
                    None => {
                        self.view_stack.push(
                            Pane::Verses { book, chapter, items, filtered, state, visual_start },
                        );
                        let mut m = String::from_str("Verse ");
                        push_decimal(&mut m, num as u64);
                        push_str(&mut m, " not found");
                        self.message = Some(m);
                        assert(self@.view_stack =~= a.view_stack);
                        assert(self@ =~= a.number_jump().0);
                        None
                    },
                }
            },
            other => {
                self.view_stack.push(other);
                assert(self@.view_stack =~= a.view_stack);
                assert(self@ =~= a.number_jump().0);
                None
            },
        }
    }

    /// Moves to another translation, `offset` places along the list and
    /// wrapping around. The caller then rebuilds the stack with
    /// [`App::rebuild_for_version`].
    pub fn change_version(&mut self, offset: isize)
        requires
            old(self)@.wf(),
            old(self).current_version_idx + offset <= isize::MAX,
        ensures
            final(self)@ == old(self)@.version_cycled(offset as int),
            final(self)@.wf(),
    {
        let ghost a = self@;
        let len: usize = self.versions.len();
        assert(len == a.versions.len());
        let idx: isize = self.current_version_idx as isize + offset;
        let new_idx: usize = if idx >= 0 {
            (idx as usize) % len
        } else {
            let k: usize = (-(idx + 1)) as usize;
            let r = k % len;
            proof {
                let q = k as int / len as int;
                assert(k as int == q * len + r) by (nonlinear_arith)
                    requires
                        len > 0,
                        q == k as int / len as int,
                        r == k as int % len as int,
                ;
                assert(idx as int == (-q - 1) * len + (len - 1 - r)) by (nonlinear_arith)
                    requires
                        k as int == q * len + r,
                        idx as int == -(k as int) - 1,
                ;
                vstd::arithmetic::div_mod::lemma_fundamental_div_mod_converse(
                    idx as int,
                    len as int,
                    -q - 1,
                    len - 1 - r,
                );
            }
            len - 1 - r
        };
        self.current_version_idx = new_idx;
        assert(self@ =~= a.version_cycled(offset as int));
    }

    /// Rebuilds the stack for the translation now shown, given its book list
    /// (see [`AppView::rebuilt`]); returns the lists to open again, which the
    /// caller opens in order with [`App::restore_chapters`],
    /// [`App::restore_verses`] and [`App::restore_search`].
    pub fn rebuild_for_version(&mut self, books: Vec<String>) -> (r: Vec<Reload>)
        requires
            old(self)@.wf(),
        ensures
            final(self)@ == old(self)@.rebuilt(views(books@)).0,
            views(r@) == old(self)@.rebuilt(views(books@)).1,
            forall|i: int| 0 <= i < r@.len() ==> reload_bounded(#[trigger] r@[i]@),
            final(self)@.wf(),
    {
        let ghost a = self@;
        let mut old_stack: Vec<Pane> = Vec::new();
        std::mem::swap(&mut old_stack, &mut self.view_stack);
        assert(views(old_stack@) == a.view_stack);
        let mut st = ListSelection::new();
        let mut first_is_books = false;
        if old_stack.len() > 0 {
            if let Pane::Books { state: old_state, .. } = &old_stack[0] {
                st.select(old_state.selected);
                first_is_books = true;
            }
        }
        if !first_is_books && books.len() > 0 {
            st.select(Some(0));
        }
        assert(first_is_books == (a.view_stack.len() > 0 && a.view_stack[0] is Books));
        let f = identity_vec(books.len());
        proof {
            if first_is_books {
                assert(a.view_stack[0].wf());
            }
        }
        let first = Pane::Books { items: books, filtered: f, state: st };
        assert(first@.wf()) by {
            assert forall|i: int| 0 <= i < f@.len() implies #[trigger] f@[i] < books@.len() by {}
        }
        self.view_stack.push(first);
        let mut reloads: Vec<Reload> = Vec::new();
        let mut i: usize = 1;
        while i < old_stack.len()
            invariant
                1 <= i <= old_stack.len() || old_stack.len() == 0,
                old_stack.len() == 0 ==> reloads@.len() == 0,
                views(old_stack@) == a.view_stack,
                a.wf(),
                views(reloads@) == reloads_of(a.view_stack.skip(1).take(i - 1)),
                forall|k: int| 0 <= k < reloads@.len() ==> reload_bounded(#[trigger] reloads@[k]@),
            decreases old_stack.len() - i,
        {
            let ghost before = reloads@;
            let ghost s = a.view_stack.skip(1).take(i as int);
            assert(s.drop_last() =~= a.view_stack.skip(1).take(i - 1));
            assert(s.last() == a.view_stack[i as int]);
            assert(a.view_stack[i as int].wf());
            match &old_stack[i] {
                Pane::Chapters { book, state, .. } => {
                    reloads.push(Reload::Chapters { book: book.clone(), selected: state.selected });
                },
                Pane::Verses { book, chapter, state, .. } => {
                    reloads.push(
                        Reload::Verses { book: book.clone(), chapter: *chapter, selected: state.selected },
                    );
                },
                Pane::SearchResults { query, state, .. } => {
                    reloads.push(Reload::Search { query: query.clone(), selected: state.selected });
                },
                Pane::Books { .. } => {},
            }
            assert(views(reloads@) =~= reloads_of(s));
            i = i + 1;
        }
        proof {
            if a.view_stack.len() > 0 {
                assert(a.view_stack.skip(1).take(a.view_stack.len() - 1) =~= a.view_stack.skip(1));
            } else {
                assert(reloads@.len() == 0);
            }
        }
        assert(self@.view_stack =~= a.rebuilt(views(books@)).0.view_stack);
        assert(self@ =~= a.rebuilt(views(books@)).0);
        reloads
    }

    /// Opens a chapter list again after a change of translation.
    pub fn restore_chapters(&mut self, book: String, chapters: Vec<u32>, selected: Option<usize>)
        requires
            old(self)@.wf(),
            selected matches Some(i) ==> i < usize::MAX,
        ensures
            final(self)@ == old(self)@.restored(fresh_chapters(book@, chapters@), selected),
            final(self)@.wf(),
    {
        let ghost a = self@;
        let mut p = Pane::new_chapters(book, chapters);
        let mut st = p.state();
        st.select(selected);
        p = p.set_state(st);
        self.view_stack.push(p);
        assert(self@ =~= a.restored(fresh_chapters(book@, chapters@), selected));
    }

    /// Opens a verse list again after a change of translation.
    pub fn restore_verses(&mut self, book: String, chapter: u32, verses: Vec<Verse>, selected: Option<usize>)
        requires
            old(self)@.wf(),
            selected matches Some(i) ==> i < usize::MAX,
        ensures
            final(self)@ == old(self)@.restored(fresh_verses(book@, chapter, views(verses@)), selected),
            final(self)@.wf(),
    {
        let ghost a = self@;
        let mut p = Pane::new_verses(book, chapter, verses);
        let mut st = p.state();
        st.select(selected);
        p = p.set_state(st);
        self.view_stack.push(p);
        assert(self@ =~= a.restored(fresh_verses(book@, chapter, views(verses@)), selected));
    }

    /// Opens the hits of a search again after a change of translation.
    pub fn restore_search(&mut self, query: String, results: Vec<SearchResult>, selected: Option<usize>)
        requires
            old(self)@.wf(),
            selected matches Some(i) ==> i < usize::MAX,
        ensures
            final(self)@ == old(self)@.restored(fresh_search(query@, views(results@)), selected),
            final(self)@.wf(),
    {
        let ghost a = self@;
        let mut p = Pane::new_search(query, results);
        let mut st = p.state();
        st.select(selected);
        p = p.set_state(st);
        self.view_stack.push(p);
        assert(self@ =~= a.restored(fresh_search(query@, views(results@)), selected));
    }

    /// Copies the visual selection of a verse list (see [`AppView::yanked`]).
    /// The caller puts the text on the clipboard and reports the outcome
    /// with [`App::report_yank`].
    pub fn yank_selection(&mut self) -> (r: Option<(String, usize)>)
        requires
            old(self)@.wf(),
        ensures
            final(self)@ == old(self)@.yanked().0,
            final(self)@.wf(),
            match r {
                Some((t, n)) => old(self)@.yanked().1 == Some((t@, n as nat)),
                None => old(self)@.yanked().1 is None,
            },
    {
        let ghost a = self@;
        if self.view_stack.len() == 0 {
            return None;
        }
        let top = self.view_stack.pop().unwrap();
        assert(top@ == a.view_stack.last());
        assert(a.view_stack.last().wf());
        match top {
            Pane::Verses { book, chapter, items, filtered, state, visual_start } => {
                match state.selected {
                    Some(end_idx) => {
                        let start_idx = match visual_start {
                            Some(v) => v,
                            None => end_idx,
                        };
                        let lo = if start_idx <= end_idx { start_idx } else { end_idx };
                        let hi = if start_idx <= end_idx { end_idx } else { start_idx };
                        let ghost iv = views(items@);
                        let mut text = String::new();
                        push_str(&mut text, book.as_str());
                        push_str(&mut text, " ");
                        push_decimal(&mut text, chapter as u64);
                        push_str(&mut text, "\n");
                        let ghost header = text@;
                        let mut i: usize = lo;
                        while i <= hi && i < filtered.len()
                            invariant
                                lo <= i,
                                i <= hi + 1,
                                hi < usize::MAX,
                                iv == views(items@),
                                text@ == header + yank_lines(iv, filtered@, lo as int, i - 1),
                            decreases filtered.len() - i,
                        {
                            let ghost before = text@;
                            let orig = filtered[i];
                            if orig < items.len() {
                                let v = &items[orig];
                                push_str(&mut text, "[");
                                push_decimal(&mut text, v.verse as u64);
                                push_str(&mut text, "] ");
                                push_str(&mut text, v.text.as_str());
                                push_str(&mut text, "\n");
                            }
                            assert(text@ =~= before + yank_line(iv, filtered@, i as int));
                            i = i + 1;
                        }
                        proof {
                            if i <= hi {
                                lemma_yank_lines_tail_empty(iv, filtered@, lo as int, i as int, hi as int);
                            }
                        }
                        let count = hi - lo + 1;
                        self.view_stack.push(
                            Pane::Verses { book, chapter, items, filtered, state, visual_start: None },
                        );
                        assert(self@.view_stack =~= a.yanked().0.view_stack);
                        assert(self@ =~= a.yanked().0);
                        let ghost y = a.yanked().1.unwrap();
                        assert(text@ =~= y.0);
                        Some((text, count))
                    },
                    None => {
                        self.view_stack.push(
                            Pane::Verses { book, chapter, items, filtered, state, visual_start },
                        );
                        assert(self@.view_stack =~= a.view_stack);
                        None
                    },
                }
            },
            other => {
                self.view_stack.push(other);
                assert(self@.view_stack =~= a.view_stack);
                None
            },
        }
    }

    /// Reports the outcome of copying `count` verses to the clipboard.
    pub fn report_yank(&mut self, count: usize, success: bool)
        ensures
            final(self)@ == old(self)@.yank_reported(count as nat, success),
            old(self)@.wf() ==> final(self)@.wf(),
    {
        let ghost a = self@;
        let m = if success {
            let mut m = String::from_str("Yanked ");
            push_decimal(&mut m, count as u64);
            push_str(&mut m, " verse(s)");
            m
        } else {
            String::from_str("Failed to copy (clipboard/wl-copy/xclip failed)")
        };
        self.message = Some(m);
        assert(self@ =~= a.yank_reported(count as nat, success));
    }

    /// Replaces the cursor of the top list, as drawing the list on screen
    /// adjusts it (scrolling, and clamping a selection past the end).
    pub fn set_top_state(&mut self, st: ListSelection)
        requires
            old(self)@.wf(),
            selection_bounded(st),
        ensures
            final(self)@ == old(self)@.with_top(state_op(st)),
            final(self)@.wf(),
    {
        let ghost a = self@;
        if self.view_stack.len() > 0 {
            let top = self.view_stack.pop().unwrap();
            assert(a.view_stack.last() == top@);
            let t2 = top.set_state(st);
            self.view_stack.push(t2);
            assert(self@.view_stack =~= a.with_top(state_op(st)).view_stack);
            assert(self@ =~= a.with_top(state_op(st)));
        }
    }

    /// Replaces the cursor of the translation switcher, as drawing it adjusts it.
    pub fn set_versions_state(&mut self, st: ListSelection)
        requires
            old(self)@.wf(),
            selection_bounded(st),
        ensures
            final(self)@ == (AppView { versions_state: st, ..old(self)@ }),
            final(self)@.wf(),
    {
        self.versions_state = st;
    }

    /// Replaces the cursor of the translation manager, as drawing it adjusts it.
    pub fn set_manager_state(&mut self, st: ListSelection)
        requires
            old(self)@.wf(),
            selection_bounded(st),
        ensures
            final(self)@ == (AppView { manager_state: st, ..old(self)@ }),
            final(self)@.wf(),
    {
        self.manager_state = st;
    }
}

} // verus!
